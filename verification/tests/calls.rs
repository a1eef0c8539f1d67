//! Calls, on both paths.
use std::sync::Arc;

use linked_call::ephemeral::EphemeralLinkedCall;
use linked_call::error::LinkError;
use linked_call::invoke::{
    invoke_ephemeral_linked_export, invoke_linked_async_export, invoke_linked_sync_export,
    invoke_shared_store_linked_export, store_results, CallEvent, EphemeralCall,
    EphemeralCallAction, EphemeralCallEvent, LinkedCall, LinkedExportInvocation, SharedAction,
    SharedCall, EPHEMERAL_CALL_TIMEOUT_SECS, SYNC_CALL_TIMEOUT_SECS,
};

fn invocation(ephemeral: bool) -> LinkedExportInvocation<str, str> {
    LinkedExportInvocation {
        import_name: Arc::from("ns:pkg/i"),
        export_name: Arc::from("f"),
        plugin_component_id: Arc::from("callee"),
        ephemeral_call: ephemeral.then(|| {
            Arc::new(EphemeralLinkedCall {
                http_handler: Arc::from("http"),
                active_component_id: Arc::from("callee"),
                linked_component_ids: vec![],
                tls_provider: None,
            })
        }),
    }
}

/// Runs a call; `answer` says how an action goes.
fn drive(
    mut call: SharedCall,
    answer: impl Fn(&str) -> CallEvent,
) -> (Vec<String>, Result<(), LinkError>) {
    let mut log = Vec::new();
    loop {
        let action = match call.action() {
            SharedAction::Stop => return (log, call.result().unwrap()),
            SharedAction::EnterCtx(id) => format!("enter {id}"),
            SharedAction::FindInstance(id) => format!("instance {id}"),
            SharedAction::FindFunc => "func".to_string(),
            SharedAction::LowerParams => "lower".to_string(),
            SharedAction::Call(limit) => format!("call {limit:?}"),
            SharedAction::LiftResults => "lift".to_string(),
            SharedAction::LeaveCtx => "leave".to_string(),
        };
        let event = answer(&action);
        log.push(action);
        call = call.advance(event);
    }
}

#[test]
fn time_limits() {
    assert_eq!(EPHEMERAL_CALL_TIMEOUT_SECS, 600);
    assert_eq!(SYNC_CALL_TIMEOUT_SECS, 30);
}

#[test]
fn shared_call_takes_its_steps_in_order() {
    let call = invoke_shared_store_linked_export(&invocation(false));
    let (log, result) = drive(call, |_| CallEvent::Done);
    assert!(result.is_ok());
    assert_eq!(
        log,
        ["enter callee", "instance callee", "func", "lower", "call None", "lift", "leave"]
    );
}

#[test]
fn sync_call_is_always_shared_and_limited() {
    for ephemeral in [false, true] {
        let call = invoke_linked_sync_export(&invocation(ephemeral));
        let (log, result) = drive(call, |_| CallEvent::Done);
        assert!(result.is_ok());
        assert_eq!(log[4], "call Some(30)");
    }
}

#[test]
fn failed_shared_call_leaves_the_context() {
    for step in ["instance callee", "func", "lower", "call None", "lift"] {
        let call = invoke_shared_store_linked_export(&invocation(false));
        let (log, result) = drive(call, |action| {
            if action == step {
                CallEvent::Failed("boom".to_string())
            } else {
                CallEvent::Done
            }
        });
        assert_eq!(log[log.len() - 2], step);
        assert_eq!(log[log.len() - 1], "leave");
        assert_eq!(result.unwrap_err().message(), "boom");
    }
}

#[test]
fn context_that_was_not_entered_is_not_left() {
    let call = invoke_shared_store_linked_export(&invocation(false));
    let (log, result) = drive(call, |_| CallEvent::Failed("no context".to_string()));
    assert_eq!(log, ["enter callee"]);
    assert_eq!(result.unwrap_err().message(), "no context");
}

#[test]
fn missing_instance_and_function() {
    let missing = |step: &'static str| {
        let call = invoke_linked_sync_export(&invocation(false));
        let (log, result) = drive(call, move |action| {
            if action == step {
                CallEvent::Missing
            } else {
                CallEvent::Done
            }
        });
        assert_eq!(log.last().unwrap(), "leave");
        result.unwrap_err().message()
    };
    assert_eq!(
        missing("instance callee"),
        "linked component 'callee' was not pre-instantiated in this store"
    );
    assert_eq!(missing("func"), "function not found");
}

#[test]
fn sync_call_times_out() {
    let call = invoke_linked_sync_export(&invocation(false));
    let (log, result) = drive(call, |action| {
        if action.starts_with("call") {
            CallEvent::TimedOut("deadline has elapsed".to_string())
        } else {
            CallEvent::Done
        }
    });
    assert_eq!(log.last().unwrap(), "leave");
    assert_eq!(
        result.unwrap_err().message(),
        "function call timed out after 30 seconds: deadline has elapsed"
    );
}

#[test]
fn shared_call_without_a_limit_does_not_time_out() {
    let mut call = invoke_shared_store_linked_export(&invocation(false));
    for _ in 0..4 {
        call = call.advance(CallEvent::Done);
    }
    assert!(matches!(call.action(), SharedAction::Call(None)));
    call = call.advance(CallEvent::TimedOut("late".to_string()));
    assert!(matches!(call.action(), SharedAction::Call(None)));
    assert!(call.result().is_none());
}

#[test]
fn async_call_takes_the_linked_path() {
    assert!(matches!(
        invoke_linked_async_export::<str, str, u32>(&invocation(true)),
        LinkedCall::Ephemeral(_)
    ));
    assert!(matches!(
        invoke_linked_async_export::<str, str, u32>(&invocation(false)),
        LinkedCall::Shared(_)
    ));
}

fn ephemeral() -> EphemeralCall<str, str, u32> {
    let inv = invocation(true);
    invoke_ephemeral_linked_export(&inv, inv.ephemeral_call.as_ref().unwrap())
}

fn at_call() -> EphemeralCall<str, str, u32> {
    ephemeral()
        .advance(EphemeralCallEvent::Done)
        .advance(EphemeralCallEvent::Done)
        .advance(EphemeralCallEvent::Done)
}

#[test]
fn ephemeral_call_takes_its_steps_in_order() {
    let call = ephemeral();
    assert!(matches!(
        call.action(),
        EphemeralCallAction::OpenStore(c) if &*c.active_component_id == "callee"
    ));
    let call = call.advance(EphemeralCallEvent::Done);
    assert!(matches!(call.action(), EphemeralCallAction::Instantiate));
    let call = call.advance(EphemeralCallEvent::Done);
    assert!(matches!(call.action(), EphemeralCallAction::FindFunc));
    let call = call.advance(EphemeralCallEvent::Done);
    assert!(matches!(call.action(), EphemeralCallAction::Call(600)));
    let call = call.advance(EphemeralCallEvent::Returned(vec![7, 8]));
    assert!(matches!(call.action(), EphemeralCallAction::Stop));
    let mut results = [0, 0];
    assert!(call.finish(&mut results).unwrap().is_ok());
    assert_eq!(results, [7, 8]);
}

#[test]
fn failed_ephemeral_call_leaves_the_results_alone() {
    let message = |call: EphemeralCall<str, str, u32>| {
        let mut results = [1, 2];
        let message = call.finish(&mut results).unwrap().unwrap_err().message();
        assert_eq!(results, [1, 2]);
        message
    };
    assert_eq!(
        message(ephemeral().advance(EphemeralCallEvent::Refused(LinkError::ActiveNotFound {
            component_id: Arc::from("callee"),
        }))),
        "ephemeral linked component 'callee' not found"
    );
    let opened = ephemeral().advance(EphemeralCallEvent::Done);
    assert_eq!(message(opened.advance(EphemeralCallEvent::Failed("boom".to_string()))), "boom");
    let instantiated =
        ephemeral().advance(EphemeralCallEvent::Done).advance(EphemeralCallEvent::Done);
    assert_eq!(
        message(instantiated.advance(EphemeralCallEvent::Missing)),
        "function not found for linked import ns:pkg/i.f"
    );
    assert_eq!(
        message(at_call().advance(EphemeralCallEvent::TimedOut("late".to_string()))),
        "function call timed out after 600 seconds: late"
    );
    assert_eq!(
        message(at_call().advance(EphemeralCallEvent::TaskFailed("panicked".to_string()))),
        "ephemeral linked call task failed: panicked"
    );
    assert_eq!(message(at_call().advance(EphemeralCallEvent::Failed("trap".to_string()))), "trap");
}

#[test]
fn outcome_of_an_ephemeral_call_is_final() {
    let call = at_call()
        .advance(EphemeralCallEvent::Returned(vec![5]))
        .advance(EphemeralCallEvent::TaskFailed("late".to_string()));
    let mut results = [0];
    assert!(call.finish(&mut results).unwrap().is_ok());
    assert_eq!(results, [5]);
    let mut results = [0];
    assert!(at_call().finish(&mut results).is_none());
    assert_eq!(results, [0]);
}

#[test]
fn results_are_stored_from_the_first_slot_on() {
    let mut slots = [1, 2, 3];
    assert!(store_results(&mut slots, vec![7, 8]).is_ok());
    assert_eq!(slots, [7, 8, 3]);
    let mut slots = [1, 2];
    let err = store_results(&mut slots, vec![7, 8, 9]).unwrap_err();
    assert_eq!(err.message(), "result index out of bounds");
    assert_eq!(slots, [7, 8]);
    let mut none: [u32; 0] = [];
    assert!(store_results(&mut none, vec![]).is_ok());
}
