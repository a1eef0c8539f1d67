//! The types of a compiled component, read from the engine.
use vstd::prelude::*;
use wasmtime::component::types::{ComponentFunc, Type};

use crate::signature::{
    all_plain, carries_cross_store_handle, case_trees, lemma_tree_of_rows, trees, FuncType,
    HandleKind, TypeTree, ValType,
};

verus! {

/// The type of a component function, `wasmtime::component::types::ComponentFunc`.
#[verifier::external_type_specification]
#[verifier::external_body]
pub struct ExComponentFunc(ComponentFunc);

/// A component value type, `wasmtime::component::types::Type`.
#[verifier::external_type_specification]
#[verifier::external_body]
pub struct ExType(Type);

/// What the engine's `Type` holds: the types that it is made of, down to its
/// leaves. Component types are finite, so that the tree is. Names and resource
/// identities are not part of it, and a variant of `Type` that holds no type and is
/// no handle is [`TypeTree::Plain`].
pub uninterp spec fn type_contents(ty: Type) -> TypeTree;

/// The parameter types of the engine's `ComponentFunc`, in order.
pub uninterp spec fn func_params(func: ComponentFunc) -> Seq<TypeTree>;

/// The result types of the engine's `ComponentFunc`, in order.
pub uninterp spec fn func_results(func: ComponentFunc) -> Seq<TypeTree>;

/// The contents of a row of types.
pub open spec fn contents(ts: Seq<Type>) -> Seq<TypeTree> {
    Seq::new(ts.len(), |i: int| type_contents(ts[i]))
}

/// The contents of an optional type.
pub open spec fn opt_contents(t: Option<Type>) -> Option<TypeTree> {
    match t {
        Some(t) => Some(type_contents(t)),
        None => None,
    }
}

/// The contents of a row of payloads.
pub open spec fn case_contents(cases: Seq<Option<Type>>) -> Seq<Option<TypeTree>> {
    Seq::new(cases.len(), |i: int| opt_contents(cases[i]))
}

/// An optional type in a box.
pub open spec fn boxed(t: Option<TypeTree>) -> Option<Box<TypeTree>> {
    match t {
        Some(t) => Some(Box::new(t)),
        None => None,
    }
}

/// `ComponentFunc::params`: yields the parameters in order; their names are dropped.
#[verifier::external_body]
fn read_params(func: &ComponentFunc) -> (r: Vec<Type>)
    ensures
        contents(r@) == func_params(*func),
{
    func.params().map(|param| param.1).collect()
}

/// `ComponentFunc::results`: yields the results in order.
#[verifier::external_body]
fn read_results(func: &ComponentFunc) -> (r: Vec<Type>)
    ensures
        contents(r@) == func_results(*func),
{
    func.results().collect()
}

/// Tells the variants `Own`, `Borrow`, `Future`, `Stream` and `ErrorContext` of
/// `Type` apart, which are the engine's handles.
#[verifier::external_body]
fn as_handle(ty: &Type) -> (r: Option<HandleKind>)
    ensures
        match r {
            Some(kind) => type_contents(*ty) == TypeTree::Handle(kind),
            None => !(type_contents(*ty) is Handle),
        },
{
    match ty {
        Type::Own(_) => Some(HandleKind::Own),
        Type::Borrow(_) => Some(HandleKind::Borrow),
        Type::Future(_) => Some(HandleKind::Future),
        Type::Stream(_) => Some(HandleKind::Stream),
        Type::ErrorContext => Some(HandleKind::ErrorContext),
        _ => None,
    }
}

/// `List::ty`: the element type of a `Type::List`.
#[verifier::external_body]
fn as_list(ty: &Type) -> (r: Option<Type>)
    ensures
        match r {
            Some(t) => type_contents(*ty) == TypeTree::List(Box::new(type_contents(t))),
            None => !(type_contents(*ty) is List),
        },
{
    match ty {
        Type::List(list) => Some(list.ty()),
        _ => None,
    }
}

/// `FixedLengthList::ty`: the element type of a `Type::FixedLengthList`.
#[verifier::external_body]
fn as_fixed_list(ty: &Type) -> (r: Option<Type>)
    ensures
        match r {
            Some(t) => type_contents(*ty) == TypeTree::FixedList(Box::new(type_contents(t))),
            None => !(type_contents(*ty) is FixedList),
        },
{
    match ty {
        Type::FixedLengthList(list) => Some(list.ty()),
        _ => None,
    }
}

/// `Map::key` and `Map::value`: the two types of a `Type::Map`.
#[verifier::external_body]
fn as_map(ty: &Type) -> (r: Option<(Type, Type)>)
    ensures
        match r {
            Some(kv) => type_contents(*ty) == TypeTree::MapOf(
                Box::new(type_contents(kv.0)),
                Box::new(type_contents(kv.1)),
            ),
            None => !(type_contents(*ty) is MapOf),
        },
{
    match ty {
        Type::Map(map) => Some((map.key(), map.value())),
        _ => None,
    }
}

/// `Record::fields`: the fields of a `Type::Record` in declaration order; their
/// names are dropped.
#[verifier::external_body]
fn as_record(ty: &Type) -> (r: Option<Vec<Type>>)
    ensures
        match r {
            Some(ts) => type_contents(*ty) == TypeTree::Record(contents(ts@)),
            None => !(type_contents(*ty) is Record),
        },
{
    match ty {
        Type::Record(record) => Some(record.fields().map(|field| field.ty).collect()),
        _ => None,
    }
}

/// `Tuple::types`: the elements of a `Type::Tuple` in declaration order.
#[verifier::external_body]
fn as_tuple(ty: &Type) -> (r: Option<Vec<Type>>)
    ensures
        match r {
            Some(ts) => type_contents(*ty) == TypeTree::Tuple(contents(ts@)),
            None => !(type_contents(*ty) is Tuple),
        },
{
    match ty {
        Type::Tuple(tuple) => Some(tuple.types().collect()),
        _ => None,
    }
}

/// `Variant::cases`: the payloads of the cases of a `Type::Variant` in declaration
/// order; the names of the cases are dropped.
#[verifier::external_body]
fn as_variant(ty: &Type) -> (r: Option<Vec<Option<Type>>>)
    ensures
        match r {
            Some(cases) => type_contents(*ty) == TypeTree::Variant(case_contents(cases@)),
            None => !(type_contents(*ty) is Variant),
        },
{
    match ty {
        Type::Variant(variant) => Some(variant.cases().map(|case| case.ty).collect()),
        _ => None,
    }
}

/// `OptionType::ty`: the payload of a `Type::Option`.
#[verifier::external_body]
fn as_option(ty: &Type) -> (r: Option<Type>)
    ensures
        match r {
            Some(t) => type_contents(*ty) == TypeTree::OptionOf(Box::new(type_contents(t))),
            None => !(type_contents(*ty) is OptionOf),
        },
{
    match ty {
        Type::Option(option) => Some(option.ty()),
        _ => None,
    }
}

/// `ResultType::ok` and `ResultType::err`: the two payloads of a `Type::Result`,
/// each of which may be missing.
#[verifier::external_body]
fn as_result(ty: &Type) -> (r: Option<(Option<Type>, Option<Type>)>)
    ensures
        match r {
            Some(p) => type_contents(*ty) == TypeTree::ResultOf(
                boxed(opt_contents(p.0)),
                boxed(opt_contents(p.1)),
            ),
            None => !(type_contents(*ty) is ResultOf),
        },
{
    match ty {
        Type::Result(result) => Some((result.ok(), result.err())),
        _ => None,
    }
}

fn read_row(ts: &Vec<Type>) -> (r: Vec<ValType>)
    ensures
        trees(r@) == contents(ts@),
    decreases contents(ts@), 0nat,
{
    let mut r: Vec<ValType> = Vec::new();
    let mut i: usize = 0;
    while i < ts.len()
        invariant
            i <= ts@.len(),
            r@.len() == i,
            forall|j: int| 0 <= j < i ==> (#[trigger] r@[j]).tree() == type_contents(ts@[j]),
        decreases ts.len() - i,
    {
        assert(contents(ts@)[i as int] == type_contents(ts@[i as int]));
        assert(decreases_to!(contents(ts@) => contents(ts@)[i as int]));
        r.push(read_type(&ts[i]));
        i = i + 1;
    }
    assert(trees(r@) =~= contents(ts@));
    r
}

fn read_cases(cases: &Vec<Option<Type>>) -> (r: Vec<Option<ValType>>)
    ensures
        case_trees(r@) == case_contents(cases@),
    decreases case_contents(cases@), 0nat,
{
    let mut r: Vec<Option<ValType>> = Vec::new();
    let mut i: usize = 0;
    while i < cases.len()
        invariant
            i <= cases@.len(),
            r@.len() == i,
            forall|j: int|
                0 <= j < i ==> (match #[trigger] r@[j] {
                    Some(t) => Some(t.tree()),
                    None => None,
                }) == opt_contents(cases@[j]),
        decreases cases.len() - i,
    {
        match &cases[i] {
            Some(t) => {
                let ghost case = case_contents(cases@)[i as int];
                assert(case == Some(type_contents(*t)));
                assert(decreases_to!(case_contents(cases@) => case));
                assert(decreases_to!(case => case->0));
                r.push(Some(read_type(t)));
            },
            None => {
                r.push(None);
            },
        }
        i = i + 1;
    }
    assert(case_trees(r@) =~= case_contents(cases@));
    r
}

/// Reads a type of the engine, down to its leaves.
pub fn read_type(ty: &Type) -> (r: ValType)
    ensures
        r.tree() == type_contents(*ty),
    decreases type_contents(*ty), 1nat,
{
    let ghost tree = type_contents(*ty);
    if let Some(kind) = as_handle(ty) {
        return ValType::Handle(kind);
    }
    if let Some(t) = as_list(ty) {
        assert(decreases_to!(tree => tree->List_0));
        return ValType::List(Box::new(read_type(&t)));
    }
    if let Some(t) = as_fixed_list(ty) {
        assert(decreases_to!(tree => tree->FixedList_0));
        return ValType::FixedList(Box::new(read_type(&t)));
    }
    if let Some((k, v)) = as_map(ty) {
        assert(decreases_to!(tree => tree->MapOf_0));
        assert(decreases_to!(tree => tree->MapOf_1));
        return ValType::MapOf(Box::new(read_type(&k)), Box::new(read_type(&v)));
    }
    if let Some(ts) = as_record(ty) {
        assert(decreases_to!(tree => tree->Record_0));
        let r = ValType::Record(read_row(&ts));
        proof {
            lemma_tree_of_rows(r);
        }
        return r;
    }
    if let Some(ts) = as_tuple(ty) {
        assert(decreases_to!(tree => tree->Tuple_0));
        let r = ValType::Tuple(read_row(&ts));
        proof {
            lemma_tree_of_rows(r);
        }
        return r;
    }
    if let Some(cases) = as_variant(ty) {
        assert(decreases_to!(tree => tree->Variant_0));
        let r = ValType::Variant(read_cases(&cases));
        proof {
            lemma_tree_of_rows(r);
        }
        return r;
    }
    if let Some(t) = as_option(ty) {
        assert(decreases_to!(tree => tree->OptionOf_0));
        return ValType::OptionOf(Box::new(read_type(&t)));
    }
    if let Some((ok, err)) = as_result(ty) {
        assert(decreases_to!(tree => tree->ResultOf_0));
        assert(decreases_to!(tree => tree->ResultOf_1));
        let ok = match &ok {
            Some(t) => {
                assert(decreases_to!(tree->ResultOf_0 => tree->ResultOf_0->0));
                Some(Box::new(read_type(t)))
            },
            None => None,
        };
        let err = match &err {
            Some(t) => {
                assert(decreases_to!(tree->ResultOf_1 => tree->ResultOf_1->0));
                Some(Box::new(read_type(t)))
            },
            None => None,
        };
        return ValType::ResultOf(ok, err);
    }
    ValType::Plain
}

/// Reads the signature of a component function.
pub fn read_func(func: &ComponentFunc) -> (r: FuncType)
    ensures
        trees(r.params@) == func_params(*func),
        trees(r.results@) == func_results(*func),
{
    FuncType { params: read_row(&read_params(func)), results: read_row(&read_results(func)) }
}

/// Whether values of the type copy cleanly into another store.
pub fn type_is_ephemeral_safe(ty: &Type) -> (r: bool)
    ensures
        r == !type_contents(*ty).carries_handle(),
{
    !carries_cross_store_handle(&read_type(ty))
}

/// Whether a call may run in a store of its own: every parameter and every result
/// is a plain value.
pub fn func_is_ephemeral_safe(func_ty: &ComponentFunc) -> (r: bool)
    ensures
        r == all_plain(func_params(*func_ty), func_results(*func_ty)),
{
    read_func(func_ty).is_all_plain()
}

/// The contents of a row are those of each type in it, one for one, and a payload that
/// may be missing is there exactly where the type is.
pub proof fn law_contents_keep_their_places(
    ts: Seq<Type>,
    cases: Seq<Option<Type>>,
    ty: Type,
    i: int,
)
    ensures
        contents(ts).len() == ts.len(),
        0 <= i < ts.len() ==> contents(ts)[i] == type_contents(ts[i]),
        case_contents(cases).len() == cases.len(),
        0 <= i < cases.len() ==> (case_contents(cases)[i] is Some <==> cases[i] is Some),
        0 <= i < cases.len() ==> (cases[i] matches Some(t) ==> case_contents(cases)[i] == Some(
            type_contents(t),
        )),
        opt_contents(Some(ty)) == Some(type_contents(ty)),
        opt_contents(None) is None,
        boxed(None) is None,
        boxed(Some(type_contents(ty))) == Some(Box::new(type_contents(ty))),
{
}

} // verus!
