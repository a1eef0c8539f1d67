//! Which calls may run in a store of their own.
//!
//! A plain value copies cleanly from one store to another. A resource, a borrow, a
//! stream, a future or an error context is a handle: it means something only in
//! the store that it belongs to.
use vstd::prelude::*;

verus! {

/// The kinds of handle.
#[derive(Clone, Copy, Debug, PartialEq, Eq, Structural)]
pub enum HandleKind {
    Own,
    Borrow,
    Future,
    Stream,
    ErrorContext,
}

/// A component-model value type, as far as handles can occur in it: names of
/// fields, cases and resources are left out, and the types that nothing can stand
/// in (numbers, characters, strings, enums, flags) are one.
#[derive(Debug)]
pub enum ValType {
    Plain,
    Handle(HandleKind),
    List(Box<ValType>),
    FixedList(Box<ValType>),
    MapOf(Box<ValType>, Box<ValType>),
    Record(Vec<ValType>),
    Tuple(Vec<ValType>),
    /// The payload of each case.
    Variant(Vec<Option<ValType>>),
    OptionOf(Box<ValType>),
    ResultOf(Option<Box<ValType>>, Option<Box<ValType>>),
}

/// The contents of a [`ValType`].
pub enum TypeTree {
    Plain,
    Handle(HandleKind),
    List(Box<TypeTree>),
    FixedList(Box<TypeTree>),
    MapOf(Box<TypeTree>, Box<TypeTree>),
    Record(Seq<TypeTree>),
    Tuple(Seq<TypeTree>),
    Variant(Seq<Option<TypeTree>>),
    OptionOf(Box<TypeTree>),
    ResultOf(Option<Box<TypeTree>>, Option<Box<TypeTree>>),
}

/// The signature of a component function.
#[derive(Debug)]
pub struct FuncType {
    pub params: Vec<ValType>,
    pub results: Vec<ValType>,
}

impl ValType {
    /// The contents of the type.
    pub open spec fn tree(self) -> TypeTree
        decreases self,
    {
        match self {
            ValType::Plain => TypeTree::Plain,
            ValType::Handle(k) => TypeTree::Handle(k),
            ValType::List(t) => TypeTree::List(Box::new(t.tree())),
            ValType::FixedList(t) => TypeTree::FixedList(Box::new(t.tree())),
            ValType::MapOf(k, v) => TypeTree::MapOf(Box::new(k.tree()), Box::new(v.tree())),
            ValType::Record(ts) => TypeTree::Record(
                Seq::new(
                    ts@.len(),
                    |i: int|
                        if 0 <= i < ts@.len() {
                            ts@[i].tree()
                        } else {
                            TypeTree::Plain
                        },
                ),
            ),
            ValType::Tuple(ts) => TypeTree::Tuple(
                Seq::new(
                    ts@.len(),
                    |i: int|
                        if 0 <= i < ts@.len() {
                            ts@[i].tree()
                        } else {
                            TypeTree::Plain
                        },
                ),
            ),
            ValType::Variant(cases) => TypeTree::Variant(
                Seq::new(
                    cases@.len(),
                    |i: int|
                        if 0 <= i < cases@.len() {
                            match cases@[i] {
                                Some(t) => Some(t.tree()),
                                None => None,
                            }
                        } else {
                            None
                        },
                ),
            ),
            ValType::OptionOf(t) => TypeTree::OptionOf(Box::new(t.tree())),
            ValType::ResultOf(ok, err) => TypeTree::ResultOf(
                match ok {
                    Some(t) => Some(Box::new(t.tree())),
                    None => None,
                },
                match err {
                    Some(t) => Some(Box::new(t.tree())),
                    None => None,
                },
            ),
        }
    }
}

/// The contents of a row of types.
pub open spec fn trees(ts: Seq<ValType>) -> Seq<TypeTree> {
    Seq::new(ts.len(), |i: int| ts[i].tree())
}

/// The contents of the payloads of a row of cases.
pub open spec fn case_trees(cases: Seq<Option<ValType>>) -> Seq<Option<TypeTree>> {
    Seq::new(
        cases.len(),
        |i: int|
            match cases[i] {
                Some(t) => Some(t.tree()),
                None => None,
            },
    )
}

/// A record holds what its fields hold, a tuple what its elements hold, and a
/// variant what its cases hold.
pub proof fn lemma_tree_of_rows(ty: ValType)
    ensures
        ty matches ValType::Record(ts) ==> ty.tree() == TypeTree::Record(trees(ts@)),
        ty matches ValType::Tuple(ts) ==> ty.tree() == TypeTree::Tuple(trees(ts@)),
        ty matches ValType::Variant(cases) ==> ty.tree() == TypeTree::Variant(case_trees(cases@)),
{
    match ty {
        ValType::Record(ts) => {
            assert(ty.tree()->Record_0 =~= trees(ts@));
        },
        ValType::Tuple(ts) => {
            assert(ty.tree()->Tuple_0 =~= trees(ts@));
        },
        ValType::Variant(cases) => {
            assert(ty.tree()->Variant_0 =~= case_trees(cases@));
        },
        _ => {},
    }
}

impl TypeTree {
    /// The type that stands `i`-th directly inside this one.
    pub open spec fn part(self, i: int) -> Option<TypeTree> {
        match self {
            TypeTree::List(t) | TypeTree::FixedList(t) | TypeTree::OptionOf(t) => if i == 0 {
                Some(*t)
            } else {
                None
            },
            TypeTree::MapOf(k, v) => if i == 0 {
                Some(*k)
            } else if i == 1 {
                Some(*v)
            } else {
                None
            },
            TypeTree::Record(ts) | TypeTree::Tuple(ts) => if 0 <= i < ts.len() {
                Some(ts[i])
            } else {
                None
            },
            TypeTree::Variant(cases) => if 0 <= i < cases.len() {
                cases[i]
            } else {
                None
            },
            TypeTree::ResultOf(ok, err) => {
                let payload = if i == 0 {
                    ok
                } else if i == 1 {
                    err
                } else {
                    None
                };
                match payload {
                    Some(t) => Some(*t),
                    None => None,
                }
            },
            TypeTree::Plain | TypeTree::Handle(_) => None,
        }
    }

    /// The type at the end of a path into this one.
    pub open spec fn at(self, path: Seq<int>) -> Option<TypeTree>
        decreases path.len(),
    {
        if path.len() == 0 {
            Some(self)
        } else {
            match self.part(path[0]) {
                Some(t) => t.at(path.drop_first()),
                None => None,
            }
        }
    }

    /// A handle stands at the end of `path`.
    pub open spec fn handle_at(self, path: Seq<int>) -> bool {
        self.at(path) matches Some(t) && t is Handle
    }

    /// A handle occurs in the type, at any depth.
    pub open spec fn carries_handle(self) -> bool {
        exists|path: Seq<int>| self.handle_at(path)
    }

    /// A type carries a handle exactly when it is one or a part of it carries one.
    pub proof fn lemma_carries(self)
        ensures
            self.carries_handle() <==> self is Handle || exists|i: int|
                (#[trigger] self.part(i)) matches Some(t) && t.carries_handle(),
    {
        if self.carries_handle() {
            let path = choose|path: Seq<int>| self.handle_at(path);
            if path.len() > 0 {
                let t = self.part(path[0])->0;
                assert(t.handle_at(path.drop_first()));
            }
        }
        if self is Handle {
            assert(self.handle_at(Seq::empty()));
        }
        if exists|i: int| (#[trigger] self.part(i)) matches Some(t) && t.carries_handle() {
            let i = choose|i: int| (#[trigger] self.part(i)) matches Some(t) && t.carries_handle();
            let t = self.part(i)->0;
            let path = choose|path: Seq<int>| t.handle_at(path);
            let longer = seq![i] + path;
            assert(longer.drop_first() =~= path);
            assert(self.handle_at(longer));
        }
    }
}

/// Some type of a row carries a handle.
pub open spec fn any_carries(ts: Seq<TypeTree>) -> bool {
    exists|i: int| 0 <= i < ts.len() && (#[trigger] ts[i]).carries_handle()
}

/// A signature whose every parameter and result is a plain value: no handle occurs
/// anywhere in it.
pub open spec fn all_plain(params: Seq<TypeTree>, results: Seq<TypeTree>) -> bool {
    !any_carries(params) && !any_carries(results)
}

/// Whether some type of a list carries a handle.
fn any_carries_handle(ts: &Vec<ValType>) -> (r: bool)
    ensures
        r == any_carries(trees(ts@)),
    decreases ts,
{
    let mut i: usize = 0;
    while i < ts.len()
        invariant
            i <= ts@.len(),
            forall|j: int| 0 <= j < i ==> !(#[trigger] ts@[j]).tree().carries_handle(),
        decreases ts.len() - i,
    {
        if carries_cross_store_handle(&ts[i]) {
            assert(trees(ts@)[i as int].carries_handle());
            return true;
        }
        i = i + 1;
    }
    false
}

/// Whether a value of the type holds a handle, which cannot cross to another store.
pub fn carries_cross_store_handle(ty: &ValType) -> (r: bool)
    ensures
        r == ty.tree().carries_handle(),
    decreases ty,
{
    let ghost tree = ty.tree();
    proof {
        tree.lemma_carries();
        lemma_tree_of_rows(*ty);
    }
    match ty {
        ValType::Plain => false,
        ValType::Handle(_) => true,
        ValType::List(t) | ValType::FixedList(t) | ValType::OptionOf(t) => {
            assert(tree.part(0) == Some(t.tree()));
            carries_cross_store_handle(t)
        },
        ValType::MapOf(k, v) => {
            assert(tree.part(0) == Some(k.tree()));
            assert(tree.part(1) == Some(v.tree()));
            carries_cross_store_handle(k) || carries_cross_store_handle(v)
        },
        ValType::Record(ts) | ValType::Tuple(ts) => {
            proof {
                assert(forall|i: int|
                    0 <= i < ts@.len() ==> tree.part(i) == Some(#[trigger] trees(ts@)[i]));
            }
            any_carries_handle(ts)
        },
        ValType::Variant(cases) => {
            let mut i: usize = 0;
            while i < cases.len()
                invariant
                    i <= cases@.len(),
                    *ty == ValType::Variant(*cases),
                    tree == ty.tree(),
                    tree == TypeTree::Variant(case_trees(cases@)),
                    tree.carries_handle() <==> tree is Handle || exists|i: int|
                        (#[trigger] tree.part(i)) matches Some(t) && t.carries_handle(),
                    forall|j: int|
                        0 <= j < i ==> ((#[trigger] cases@[j]) matches Some(t)
                            ==> !t.tree().carries_handle()),
                decreases cases.len() - i,
            {
                if let Some(t) = &cases[i] {
                    if carries_cross_store_handle(t) {
                        assert(tree.part(i as int) == Some(t.tree()));
                        return true;
                    }
                }
                i = i + 1;
            }
            false
        },
        ValType::ResultOf(ok, err) => {
            if let Some(t) = ok {
                assert(tree.part(0) == Some(t.tree()));
                if carries_cross_store_handle(t) {
                    return true;
                }
            }
            if let Some(t) = err {
                assert(tree.part(1) == Some(t.tree()));
                if carries_cross_store_handle(t) {
                    return true;
                }
            }
            false
        },
    }
}

impl FuncType {
    /// Whether every parameter and every result is a plain value.
    pub fn is_all_plain(&self) -> (r: bool)
        ensures
            r == all_plain(trees(self.params@), trees(self.results@)),
    {
        !any_carries_handle(&self.params) && !any_carries_handle(&self.results)
    }
}

/// Whether a type carries a handle shows at every depth: a handle does, whatever its
/// kind; a list, an option, a map, a record, a tuple, a variant and a result do exactly
/// when a type inside them does, in any place; nothing else does.
pub proof fn law_type_carries_what_it_holds(ty: TypeTree)
    ensures
        ty.carries_handle() <==> match ty {
            TypeTree::Plain => false,
            TypeTree::Handle(_) => true,
            TypeTree::List(t) => t.carries_handle(),
            TypeTree::FixedList(t) => t.carries_handle(),
            TypeTree::OptionOf(t) => t.carries_handle(),
            TypeTree::MapOf(k, v) => k.carries_handle() || v.carries_handle(),
            TypeTree::Record(ts) => exists|i: int|
                0 <= i < ts.len() && (#[trigger] ts[i]).carries_handle(),
            TypeTree::Tuple(ts) => exists|i: int|
                0 <= i < ts.len() && (#[trigger] ts[i]).carries_handle(),
            TypeTree::Variant(cases) => exists|i: int|
                0 <= i < cases.len() && ((#[trigger] cases[i]) matches Some(t)
                    && t.carries_handle()),
            TypeTree::ResultOf(ok, err) => (ok matches Some(t) && t.carries_handle()) || (
            err matches Some(t) && t.carries_handle()),
        },
{
    ty.lemma_carries();
    match ty {
        TypeTree::List(t) | TypeTree::FixedList(t) | TypeTree::OptionOf(t) => {
            assert(ty.part(0) == Some(*t));
        },
        TypeTree::MapOf(k, v) => {
            assert(ty.part(0) == Some(*k));
            assert(ty.part(1) == Some(*v));
        },
        TypeTree::Record(ts) | TypeTree::Tuple(ts) => {
            assert(forall|i: int| 0 <= i < ts.len() ==> ty.part(i) == Some(#[trigger] ts[i]));
        },
        TypeTree::Variant(cases) => {
            assert(forall|i: int| 0 <= i < cases.len() ==> ty.part(i) == #[trigger] cases[i]);
        },
        TypeTree::ResultOf(ok, err) => {
            if let Some(t) = ok {
                assert(ty.part(0) == Some(*t));
            }
            if let Some(t) = err {
                assert(ty.part(1) == Some(*t));
            }
        },
        _ => {},
    }
}

proof fn lemma_rows_decide(ty: TypeTree)
    ensures
        ty matches TypeTree::Record(ts) ==> (ty.carries_handle() <==> any_carries(ts)),
        ty matches TypeTree::Tuple(ts) ==> (ty.carries_handle() <==> any_carries(ts)),
{
    law_type_carries_what_it_holds(ty);
}

proof fn lemma_row_carries(ts: Seq<ValType>)
    ensures
        any_carries(trees(ts)) <==> exists|i: int|
            0 <= i < ts.len() && (#[trigger] ts[i]).tree().carries_handle(),
{
    let row = trees(ts);
    if any_carries(row) {
        let i = choose|i: int| 0 <= i < row.len() && (#[trigger] row[i]).carries_handle();
        assert(ts[i].tree().carries_handle());
    }
    if exists|i: int| 0 <= i < ts.len() && (#[trigger] ts[i]).tree().carries_handle() {
        let i = choose|i: int| 0 <= i < ts.len() && (#[trigger] ts[i]).tree().carries_handle();
        assert(row[i].carries_handle());
    }
}

/// The same of the types that the library works on.
pub proof fn law_val_type_carries_what_it_holds(ty: ValType)
    ensures
        ty.tree().carries_handle() <==> match ty {
            ValType::Plain => false,
            ValType::Handle(_) => true,
            ValType::List(t) => t.tree().carries_handle(),
            ValType::FixedList(t) => t.tree().carries_handle(),
            ValType::OptionOf(t) => t.tree().carries_handle(),
            ValType::MapOf(k, v) => k.tree().carries_handle() || v.tree().carries_handle(),
            ValType::Record(ts) => exists|i: int|
                0 <= i < ts@.len() && (#[trigger] ts@[i]).tree().carries_handle(),
            ValType::Tuple(ts) => exists|i: int|
                0 <= i < ts@.len() && (#[trigger] ts@[i]).tree().carries_handle(),
            ValType::Variant(cases) => exists|i: int|
                0 <= i < cases@.len() && ((#[trigger] cases@[i]) matches Some(t)
                    && t.tree().carries_handle()),
            ValType::ResultOf(ok, err) => (ok matches Some(t) && t.tree().carries_handle()) || (
            err matches Some(t) && t.tree().carries_handle()),
        },
{
    let tree = ty.tree();
    law_type_carries_what_it_holds(tree);
    lemma_rows_decide(tree);
    lemma_tree_of_rows(ty);
    match ty {
        ValType::Record(ts) => {
            lemma_row_carries(ts@);
        },
        ValType::Tuple(ts) => {
            lemma_row_carries(ts@);
        },
        ValType::Variant(cases) => {
            let row = case_trees(cases@);
            if exists|i: int|
                0 <= i < cases@.len() && ((#[trigger] cases@[i]) matches Some(t)
                    && t.tree().carries_handle()) {
                let i = choose|i: int|
                    0 <= i < cases@.len() && ((#[trigger] cases@[i]) matches Some(t)
                        && t.tree().carries_handle());
                assert(row[i] == Some(cases@[i]->0.tree()));
            }
        },
        _ => {},
    }
}

/// A signature is plain exactly when no parameter and no result, in any place, carries
/// a handle; one that carries one is not, whatever the others are.
pub proof fn law_one_handle_decides(params: Seq<TypeTree>, results: Seq<TypeTree>, i: int)
    ensures
        0 <= i < params.len() && params[i].carries_handle() ==> !all_plain(params, results),
        0 <= i < results.len() && results[i].carries_handle() ==> !all_plain(params, results),
        (forall|j: int| 0 <= j < params.len() ==> !(#[trigger] params[j]).carries_handle()) && (
        forall|j: int| 0 <= j < results.len() ==> !(#[trigger] results[j]).carries_handle())
            ==> all_plain(params, results),
        any_carries(params) || any_carries(results) <==> !all_plain(params, results),
{
}

/// The contents of a row of types are those of each type, one for one.
pub proof fn law_rows_keep_their_places(ts: Seq<ValType>, i: int)
    requires
        0 <= i < ts.len(),
    ensures
        trees(ts).len() == ts.len(),
        trees(ts)[i] == ts[i].tree(),
{
}

} // verus!
