//! Which calls may run in a store of their own, on plain types and on the types of
//! compiled components.
use std::sync::Arc;

use linked_call::component_types::{func_is_ephemeral_safe, read_func, type_is_ephemeral_safe};
use linked_call::ephemeral::EphemeralLinkedCall;
use linked_call::invoke::{invoke_linked_async_export, LinkedCall, LinkedExportInvocation};
use linked_call::signature::{carries_cross_store_handle, FuncType, HandleKind, ValType};
use wasmtime::component::types::{ComponentFunc, ComponentItem};
use wasmtime::component::Component;
use wasmtime::{Config, Engine};

fn engine() -> Engine {
    let mut config = Config::new();
    config.wasm_component_model(true);
    config.wasm_component_model_async(true);
    config.wasm_component_model_error_context(true);
    config.wasm_component_model_map(true);
    config.wasm_component_model_fixed_length_lists(true);
    Engine::new(&config).unwrap()
}

/// The type of a function that a component imports as `f`.
fn imported(declarations: &str) -> ComponentFunc {
    let engine = engine();
    let component = Component::new(&engine, format!("(component {declarations})")).unwrap();
    let ty = component.component_type();
    let item = ty.get_import(&engine, "f").unwrap().ty;
    match item {
        ComponentItem::ComponentFunc(func) => func,
        _ => panic!("not a function"),
    }
}

fn handle() -> ValType {
    ValType::Handle(HandleKind::Own)
}

#[test]
fn handles_are_found_at_any_depth() {
    for kind in [
        HandleKind::Own,
        HandleKind::Borrow,
        HandleKind::Future,
        HandleKind::Stream,
        HandleKind::ErrorContext,
    ] {
        assert!(carries_cross_store_handle(&ValType::Handle(kind)));
    }
    assert!(!carries_cross_store_handle(&ValType::Plain));
    let deep = ValType::List(Box::new(ValType::Record(vec![
        ValType::Plain,
        ValType::Variant(vec![None, Some(ValType::OptionOf(Box::new(handle())))]),
    ])));
    assert!(carries_cross_store_handle(&deep));
    let plain = ValType::List(Box::new(ValType::Record(vec![
        ValType::Plain,
        ValType::Variant(vec![None, Some(ValType::OptionOf(Box::new(ValType::Plain)))]),
    ])));
    assert!(!carries_cross_store_handle(&plain));
}

#[test]
fn every_part_of_a_type_counts() {
    let p = || Box::new(ValType::Plain);
    let h = || Box::new(handle());
    assert!(carries_cross_store_handle(&ValType::MapOf(p(), h())));
    assert!(carries_cross_store_handle(&ValType::MapOf(h(), p())));
    assert!(!carries_cross_store_handle(&ValType::MapOf(p(), p())));
    assert!(carries_cross_store_handle(&ValType::FixedList(h())));
    assert!(carries_cross_store_handle(&ValType::Tuple(vec![ValType::Plain, handle()])));
    assert!(!carries_cross_store_handle(&ValType::Tuple(vec![])));
    assert!(carries_cross_store_handle(&ValType::ResultOf(Some(h()), None)));
    assert!(carries_cross_store_handle(&ValType::ResultOf(None, Some(h()))));
    assert!(!carries_cross_store_handle(&ValType::ResultOf(Some(p()), Some(p()))));
    assert!(!carries_cross_store_handle(&ValType::ResultOf(None, None)));
}

#[test]
fn one_handle_in_a_signature_is_enough() {
    let f = |params: Vec<ValType>, results: Vec<ValType>| FuncType { params, results };
    assert!(f(vec![], vec![]).is_all_plain());
    assert!(f(vec![ValType::Plain], vec![ValType::Plain]).is_all_plain());
    assert!(!f(vec![ValType::Plain, handle()], vec![]).is_all_plain());
    assert!(!f(vec![], vec![handle()]).is_all_plain());
}

#[test]
fn component_function_of_plain_values() {
    let func = imported(
        r#"(type $r0 (record (field "a" u32) (field "b" string)))
           (import "r" (type $r (eq $r0)))
           (type $v0 (variant (case "none") (case "some" (list $r))))
           (import "v" (type $v (eq $v0)))
           (type $e0 (enum "x" "y"))
           (import "e" (type $e (eq $e0)))
           (type $g0 (flags "p" "q"))
           (import "g" (type $g (eq $g0)))
           (import "f" (func
             (param "a" bool) (param "b" char) (param "c" float64) (param "d" $v)
             (param "e" (tuple s8 u64 $e)) (param "g" (option $g))
             (result (result (list u8) (error string)))))"#,
    );
    assert!(func_is_ephemeral_safe(&func));
    let read = read_func(&func);
    assert_eq!(read.params.len(), 6);
    assert!(matches!(read.params[0], ValType::Plain));
    assert!(matches!(read.params[1], ValType::Plain));
    match &read.params[3] {
        ValType::Variant(cases) => {
            assert_eq!(cases.len(), 2);
            assert!(cases[0].is_none());
            match &cases[1] {
                Some(ValType::List(t)) => match &**t {
                    ValType::Record(fields) => assert_eq!(fields.len(), 2),
                    other => panic!("{other:?}"),
                },
                other => panic!("{other:?}"),
            }
        }
        other => panic!("{other:?}"),
    }
    match &read.params[4] {
        ValType::Tuple(ts) => assert_eq!(ts.len(), 3),
        other => panic!("{other:?}"),
    }
    assert!(matches!(&read.params[5], ValType::OptionOf(t) if matches!(**t, ValType::Plain)));
    assert_eq!(read.results.len(), 1);
    match &read.results[0] {
        ValType::ResultOf(Some(ok), Some(err)) => {
            assert!(matches!(**ok, ValType::List(_)));
            assert!(matches!(**err, ValType::Plain));
        }
        other => panic!("{other:?}"),
    }
}

#[test]
fn component_function_without_anything() {
    let func = imported(r#"(import "f" (func))"#);
    assert!(func_is_ephemeral_safe(&func));
    let read = read_func(&func);
    assert!(read.params.is_empty());
    assert!(read.results.is_empty());
}

#[test]
fn component_maps_and_fixed_lists() {
    let func = imported(r#"(import "f" (func (param "m" (map string u32)) (result (list u8 4))))"#);
    assert!(func_is_ephemeral_safe(&func));
    let read = read_func(&func);
    assert!(matches!(read.params[0], ValType::MapOf(_, _)));
    assert!(matches!(read.results[0], ValType::FixedList(_)));
}

#[test]
fn component_resources_stay_in_their_store() {
    let resource = r#"(import "res" (type $res (sub resource)))"#;
    let owned = imported(&format!(r#"{resource} (import "f" (func (param "x" (own $res))))"#));
    assert!(!func_is_ephemeral_safe(&owned));
    assert!(matches!(read_func(&owned).params[0], ValType::Handle(HandleKind::Own)));
    let borrowed =
        imported(&format!(r#"{resource} (import "f" (func (param "x" (borrow $res))))"#));
    assert!(!func_is_ephemeral_safe(&borrowed));
    assert!(matches!(read_func(&borrowed).params[0], ValType::Handle(HandleKind::Borrow)));
    let inside = imported(&format!(
        r#"{resource} (import "f" (func (param "n" u32) (result (option (list (own $res))))))"#
    ));
    assert!(!func_is_ephemeral_safe(&inside));
}

#[test]
fn component_streams_and_futures_stay_in_their_store() {
    let future = imported(r#"(import "f" (func (param "x" (future u8))))"#);
    assert!(!func_is_ephemeral_safe(&future));
    assert!(matches!(read_func(&future).params[0], ValType::Handle(HandleKind::Future)));
    let stream = imported(r#"(import "f" (func (result (stream u8))))"#);
    assert!(!func_is_ephemeral_safe(&stream));
    assert!(matches!(read_func(&stream).results[0], ValType::Handle(HandleKind::Stream)));
    let context = imported(r#"(import "f" (func (result error-context)))"#);
    assert!(!func_is_ephemeral_safe(&context));
    assert!(matches!(read_func(&context).results[0], ValType::Handle(HandleKind::ErrorContext)));
}

#[test]
fn single_component_types() {
    let func = imported(r#"(import "f" (func (param "x" (list string)) (result (stream u8))))"#);
    let list = func.params().next().unwrap().1;
    assert!(type_is_ephemeral_safe(&list));
    let stream = func.results().next().unwrap();
    assert!(!type_is_ephemeral_safe(&stream));
}

fn call() -> EphemeralLinkedCall<str, str> {
    EphemeralLinkedCall {
        http_handler: Arc::from("http"),
        active_component_id: Arc::from("callee"),
        linked_component_ids: vec![Arc::from("dep")],
        tls_provider: None,
    }
}

#[test]
fn path_goes_by_the_signature() {
    let plain = imported(r#"(import "f" (func (param "x" string) (result u32)))"#);
    let inv = LinkedExportInvocation::link(
        Arc::from("ns:pkg/i"),
        Arc::from("f"),
        Arc::from("callee"),
        &plain,
        call(),
    );
    assert_eq!(&*inv.ephemeral_call.as_ref().unwrap().active_component_id, "callee");
    match invoke_linked_async_export::<str, str, u32>(&inv) {
        LinkedCall::Ephemeral(c) => {
            assert_eq!(&*c.import_name, "ns:pkg/i");
            assert_eq!(&*c.export_name, "f");
            assert_eq!(c.call.linked_component_ids.len(), 1);
        }
        LinkedCall::Shared(_) => panic!("plain values go to a store of their own"),
    }
    let streaming = imported(r#"(import "f" (func (result (stream u8))))"#);
    let inv = LinkedExportInvocation::link(
        Arc::from("ns:pkg/i"),
        Arc::from("f"),
        Arc::from("callee"),
        &streaming,
        call(),
    );
    assert!(inv.ephemeral_call.is_none());
    match invoke_linked_async_export::<str, str, u32>(&inv) {
        LinkedCall::Shared(c) => {
            assert_eq!(&*c.component_id, "callee");
            assert_eq!(c.timeout_secs, None);
        }
        LinkedCall::Ephemeral(_) => panic!("handles stay in the caller's store"),
    }
}

#[test]
fn linking_a_plain_signature() {
    for (result, ephemeral) in [(ValType::Plain, true), (handle(), false)] {
        let func = FuncType { params: vec![], results: vec![result] };
        let inv = LinkedExportInvocation::link_signature(
            Arc::from("i"),
            Arc::from("f"),
            Arc::from("callee"),
            &func,
            call(),
        );
        assert_eq!(inv.ephemeral_call.is_some(), ephemeral);
        assert_eq!(&*inv.plugin_component_id, "callee");
    }
}
