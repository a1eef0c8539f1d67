//! What holds of every call, however its steps go.
use vstd::prelude::*;

use crate::error::LinkError;
use crate::invoke::{
    async_call, filled, CallEvent, EphemeralCall, EphemeralCallEvent, EphemeralCallShape,
    EphemeralCallStage, LinkedCall, LinkedExportInvocation, SharedAction, SharedCall, SharedShape,
    SharedStage, EPHEMERAL_CALL_TIMEOUT_SECS, SYNC_CALL_TIMEOUT_SECS,
};
use crate::signature::{all_plain, any_carries, TypeTree};

verus! {

/// The stage of a call in a shared store after a row of events.
pub open spec fn run_shared(shape: SharedShape, events: Seq<CallEvent>) -> SharedStage
    decreases events.len(),
{
    if events.len() == 0 {
        SharedStage::EnterCtx
    } else {
        shape.next(run_shared(shape, events.drop_last()), events.last())
    }
}

/// How many times the callee's context was entered and not left again after a row
/// of events.
pub open spec fn depth(shape: SharedShape, events: Seq<CallEvent>) -> int
    decreases events.len(),
{
    if events.len() == 0 {
        0
    } else {
        let before = events.drop_last();
        depth(shape, before) + match shape.action(run_shared(shape, before)) {
            SharedAction::EnterCtx(_) => if events.last() is Done {
                1
            } else {
                0int
            },
            SharedAction::LeaveCtx => -1,
            _ => 0,
        }
    }
}

/// The first error among a row of events, if there is one.
pub open spec fn first_error(shape: SharedShape, events: Seq<CallEvent>) -> Option<LinkError>
    decreases events.len(),
{
    if events.len() == 0 {
        None
    } else {
        let before = events.drop_last();
        match first_error(shape, before) {
            Some(e) => Some(e),
            None => shape.error(run_shared(shape, before), events.last()),
        }
    }
}

/// The stage of a call in a shared store after `k` steps that all went well.
pub open spec fn smooth_shared(k: nat) -> SharedStage {
    if k == 0 {
        SharedStage::EnterCtx
    } else if k == 1 {
        SharedStage::FindInstance
    } else if k == 2 {
        SharedStage::FindFunc
    } else if k == 3 {
        SharedStage::LowerParams
    } else if k == 4 {
        SharedStage::Call
    } else if k == 5 {
        SharedStage::LiftResults
    } else if k == 6 {
        SharedStage::LeaveCtx(None)
    } else {
        SharedStage::Finished(None)
    }
}

/// The callee's context is entered at most once and left whenever it was entered,
/// whether the call succeeds or fails: when the call is over, the caller's context
/// is back.
pub proof fn law_callers_context_comes_back(shape: SharedShape, events: Seq<CallEvent>)
    ensures
        depth(shape, events) == match run_shared(shape, events) {
            SharedStage::EnterCtx | SharedStage::Finished(_) => 0int,
            _ => 1int,
        },
    decreases events.len(),
{
    if events.len() > 0 {
        law_callers_context_comes_back(shape, events.drop_last());
    }
}

/// A call in a shared store comes out with its first error, and succeeds exactly
/// when there was none.
pub proof fn law_first_error_is_the_result(shape: SharedShape, events: Seq<CallEvent>)
    ensures
        match run_shared(shape, events) {
            SharedStage::Finished(e) | SharedStage::LeaveCtx(e) => first_error(shape, events) == e,
            _ => first_error(shape, events) is None,
        },
    decreases events.len(),
{
    if events.len() > 0 {
        law_first_error_is_the_result(shape, events.drop_last());
    }
}

/// A call in a shared store in which no step fails goes through its stages in the
/// one order and succeeds after seven steps.
pub proof fn law_smooth_shared_call(shape: SharedShape, events: Seq<CallEvent>)
    requires
        forall|i: int| 0 <= i < events.len() ==> #[trigger] events[i] is Done,
    ensures
        run_shared(shape, events) == smooth_shared(events.len()),
    decreases events.len(),
{
    if events.len() > 0 {
        law_smooth_shared_call(shape, events.drop_last());
        assert(events[events.len() - 1] is Done);
    }
}

/// A call without a time limit does not time out.
pub proof fn law_no_limit_no_timeout(shape: SharedShape, events: Seq<CallEvent>)
    requires
        shape.timeout_secs is None,
    ensures
        !(first_error(shape, events) matches Some(LinkError::TimedOut { .. })),
    decreases events.len(),
{
    if events.len() > 0 {
        law_no_limit_no_timeout(shape, events.drop_last());
    }
}

/// What a call in a shared store comes out with is settled when the callee's context
/// is left: the next step ends the call with that, whatever the host tells of it, and
/// nothing that the host tells later changes it.
pub proof fn law_outcome_is_settled(
    shape: SharedShape,
    events: Seq<CallEvent>,
    k: int,
    outcome: Option<LinkError>,
)
    requires
        0 <= k < events.len(),
        run_shared(shape, events.take(k)) == SharedStage::LeaveCtx(outcome) || run_shared(
            shape,
            events.take(k),
        ) == SharedStage::Finished(outcome),
    ensures
        run_shared(shape, events) == SharedStage::Finished(outcome),
        shape.action(run_shared(shape, events)) is Stop,
    decreases events.len(),
{
    let front = events.drop_last();
    if k == events.len() - 1 {
        assert(front =~= events.take(k));
    } else {
        assert(front.take(k) =~= events.take(k));
        law_outcome_is_settled(shape, front, k, outcome);
    }
}

/// A step that fails is the outcome of the call, with a time limit and without: if
/// the host answers a failure before the callee's context is left, be it to the change
/// of context, to a lookup, to the parameters, to the call itself or to the results,
/// the call ends with exactly that failure, no results are asked for from then on,
/// and the caller's context is asked back if it was left.
pub proof fn law_failed_step_is_the_outcome(
    shape: SharedShape,
    events: Seq<CallEvent>,
    k: int,
    cause: String,
)
    requires
        0 <= k < events.len(),
        events[k] == CallEvent::Failed(cause),
        !(run_shared(shape, events.take(k)) is LeaveCtx),
        !(run_shared(shape, events.take(k)) is Finished),
    ensures
        run_shared(shape, events.take(k)) is EnterCtx ==> run_shared(shape, events)
            == SharedStage::Finished(Some(LinkError::Other { cause })),
        !(run_shared(shape, events.take(k)) is EnterCtx) && events.len() == k + 1 ==> run_shared(
            shape,
            events,
        ) == SharedStage::LeaveCtx(Some(LinkError::Other { cause })),
        events.len() > k + 1 ==> run_shared(shape, events) == SharedStage::Finished(
            Some(LinkError::Other { cause }),
        ),
        forall|j: int|
            k < j <= events.len() ==> {
                let action = shape.action(run_shared(shape, #[trigger] events.take(j)));
                action is LeaveCtx || action is Stop
            },
{
    let error = Some(LinkError::Other { cause });
    let upto = events.take(k + 1);
    assert(upto.drop_last() =~= events.take(k));
    assert(run_shared(shape, upto) == SharedStage::LeaveCtx(error) || run_shared(shape, upto)
        == SharedStage::Finished(error));
    assert forall|j: int| k < j <= events.len() implies {
        let action = shape.action(run_shared(shape, #[trigger] events.take(j)));
        action is LeaveCtx || action is Stop
    } by {
        if j > k + 1 {
            assert(events.take(j).take(k + 1) =~= upto);
            law_outcome_is_settled(shape, events.take(j), k + 1, error);
        }
    }
    if events.len() > k + 1 {
        law_outcome_is_settled(shape, events, k + 1, error);
    } else {
        assert(upto =~= events);
    }
}

/// An instance that is not in the store, and a function that is not in the instance,
/// end the call with an error that says so.
pub proof fn law_what_is_missing_is_the_outcome(
    shape: SharedShape,
    events: Seq<CallEvent>,
    k: int,
)
    requires
        0 <= k < events.len() - 1,
        events[k] is Missing,
    ensures
        run_shared(shape, events.take(k)) is FindInstance ==> run_shared(shape, events)
            == SharedStage::Finished(
            Some(LinkError::NotPreInstantiated { component_id: shape.component_id }),
        ),
        run_shared(shape, events.take(k)) is FindFunc ==> run_shared(shape, events)
            == SharedStage::Finished(Some(LinkError::FuncNotFound)),
{
    let upto = events.take(k + 1);
    assert(upto.drop_last() =~= events.take(k));
    if run_shared(shape, events.take(k)) is FindInstance {
        law_outcome_is_settled(
            shape,
            events,
            k + 1,
            Some(LinkError::NotPreInstantiated { component_id: shape.component_id }),
        );
    } else if run_shared(shape, events.take(k)) is FindFunc {
        law_outcome_is_settled(shape, events, k + 1, Some(LinkError::FuncNotFound));
    }
}

/// A call that runs out of its time ends with an error that names the limit and what
/// the host told of it.
pub proof fn law_late_call_is_an_error(
    shape: SharedShape,
    events: Seq<CallEvent>,
    k: int,
    secs: u64,
    cause: String,
)
    requires
        0 <= k < events.len() - 1,
        events[k] == CallEvent::TimedOut(cause),
        run_shared(shape, events.take(k)) is Call,
        shape.timeout_secs == Some(secs),
    ensures
        run_shared(shape, events) == SharedStage::Finished(
            Some(LinkError::TimedOut { secs, cause }),
        ),
{
    let upto = events.take(k + 1);
    assert(upto.drop_last() =~= events.take(k));
    law_outcome_is_settled(shape, events, k + 1, Some(LinkError::TimedOut { secs, cause }));
}

/// An answer that the pending action cannot have leaves the call where it stands:
/// only the two lookups can miss, and only a call with a limit can run out of time.
pub proof fn law_stray_answer_changes_nothing(
    shape: SharedShape,
    events: Seq<CallEvent>,
    event: CallEvent,
)
    requires
        !(run_shared(shape, events) is LeaveCtx),
        (event is Missing && !(run_shared(shape, events) is FindInstance) && !(run_shared(
            shape,
            events,
        ) is FindFunc)) || (event is TimedOut && (!(run_shared(shape, events) is Call)
            || shape.timeout_secs is None)),
    ensures
        run_shared(shape, events.push(event)) == run_shared(shape, events),
{
    assert(events.push(event).drop_last() =~= events);
}

/// The steps of a call in a shared store, as the host sees them: while each goes
/// well, it is asked to make the callee's context the active one, to find the callee's
/// instance and the function, to bring the parameters over, to make the call within
/// the limit, to bring the results back and to give the caller its context back; then
/// it has nothing left to do, and the call has succeeded.
pub proof fn law_shared_steps_in_order(shape: SharedShape, events: Seq<CallEvent>)
    requires
        forall|i: int| 0 <= i < events.len() ==> #[trigger] events[i] is Done,
    ensures
        events.len() == 0 ==> shape.action(run_shared(shape, events)) == SharedAction::EnterCtx(
            shape.component_id,
        ),
        events.len() == 1 ==> shape.action(run_shared(shape, events)) == SharedAction::FindInstance(
            shape.component_id,
        ),
        events.len() == 2 ==> shape.action(run_shared(shape, events)) == SharedAction::FindFunc,
        events.len() == 3 ==> shape.action(run_shared(shape, events)) == SharedAction::LowerParams,
        events.len() == 4 ==> shape.action(run_shared(shape, events)) == SharedAction::Call(
            shape.timeout_secs,
        ),
        events.len() == 5 ==> shape.action(run_shared(shape, events)) == SharedAction::LiftResults,
        events.len() == 6 ==> shape.action(run_shared(shape, events)) == SharedAction::LeaveCtx,
        events.len() < 7 ==> !(run_shared(shape, events) is Finished),
        events.len() >= 7 ==> shape.action(run_shared(shape, events)) == SharedAction::Stop,
        events.len() >= 7 ==> run_shared(shape, events) == SharedStage::Finished(None),
{
    law_smooth_shared_call(shape, events);
}

/// What a stage asks of the host is the one thing that the stage is named for, and it
/// is the callee's component that is entered and looked up.
pub proof fn law_stage_and_action_agree(shape: SharedShape, stage: SharedStage)
    ensures
        shape.action(stage) is EnterCtx <==> stage is EnterCtx,
        shape.action(stage) is FindInstance <==> stage is FindInstance,
        shape.action(stage) is FindFunc <==> stage is FindFunc,
        shape.action(stage) is LowerParams <==> stage is LowerParams,
        shape.action(stage) is Call <==> stage is Call,
        shape.action(stage) is LiftResults <==> stage is LiftResults,
        shape.action(stage) is LeaveCtx <==> stage is LeaveCtx,
        shape.action(stage) is Stop <==> stage is Finished,
        shape.action(stage) matches SharedAction::EnterCtx(id) ==> id == shape.component_id,
        shape.action(stage) matches SharedAction::FindInstance(id) ==> id == shape.component_id,
        shape.action(stage) matches SharedAction::Call(limit) ==> limit == shape.timeout_secs,
{
}

/// A call in a shared store that succeeds was made and came back, and its results were
/// brought over after that.
pub proof fn law_success_means_the_call_was_made(shape: SharedShape, events: Seq<CallEvent>)
    requires
        run_shared(shape, events) == SharedStage::Finished(None),
    ensures
        exists|i: int, j: int|
            {
                &&& 0 <= i < j < events.len()
                &&& (#[trigger] events[i]) is Done
                &&& run_shared(shape, events.take(i)) is Call
                &&& (#[trigger] events[j]) is Done
                &&& run_shared(shape, events.take(j)) is LiftResults
            },
{
    lemma_results_after_call(shape, events);
}

proof fn lemma_results_after_call(shape: SharedShape, events: Seq<CallEvent>)
    ensures
        run_shared(shape, events) is LiftResults ==> exists|i: int|
            {
                &&& 0 <= i < events.len()
                &&& (#[trigger] events[i]) is Done
                &&& run_shared(shape, events.take(i)) is Call
            },
        run_shared(shape, events) == SharedStage::Finished(None) || run_shared(shape, events)
            == SharedStage::LeaveCtx(None) ==> exists|i: int, j: int|
            {
                &&& 0 <= i < j < events.len()
                &&& (#[trigger] events[i]) is Done
                &&& run_shared(shape, events.take(i)) is Call
                &&& (#[trigger] events[j]) is Done
                &&& run_shared(shape, events.take(j)) is LiftResults
            },
    decreases events.len(),
{
    if events.len() > 0 {
        let front = events.drop_last();
        let n = events.len() - 1;
        lemma_results_after_call(shape, front);
        assert(front =~= events.take(n));
        assert(events[n] == events.last());
        if run_shared(shape, front) is LiftResults {
            let i = choose|i: int|
                {
                    &&& 0 <= i < front.len()
                    &&& (#[trigger] front[i]) is Done
                    &&& run_shared(shape, front.take(i)) is Call
                };
            assert(front.take(i) =~= events.take(i));
            assert(events[i] is Done && run_shared(shape, events.take(i)) is Call);
            assert(events[n] is Done ==> run_shared(shape, events.take(n)) is LiftResults);
        } else if run_shared(shape, front) == SharedStage::Finished(None) || run_shared(shape, front)
            == SharedStage::LeaveCtx(None) {
            let (i, j) = choose|i: int, j: int|
                {
                    &&& 0 <= i < j < front.len()
                    &&& (#[trigger] front[i]) is Done
                    &&& run_shared(shape, front.take(i)) is Call
                    &&& (#[trigger] front[j]) is Done
                    &&& run_shared(shape, front.take(j)) is LiftResults
                };
            assert(front.take(i) =~= events.take(i));
            assert(front.take(j) =~= events.take(j));
            assert(events[i] is Done && events[j] is Done);
        }
    }
}

/// The steps of a call depend on the callee and on the limit that it was started
/// with, and a call is limited to 30 seconds where it is synchronous and to 600
/// where it has a store of its own.
pub proof fn law_steps_go_by_the_call(call: SharedCall)
    ensures
        call.shape().component_id == call.component_id,
        call.shape().timeout_secs == call.timeout_secs,
        SYNC_CALL_TIMEOUT_SECS == 30,
        EPHEMERAL_CALL_TIMEOUT_SECS == 600,
{
}

/// The stage of a call in a store of its own after a row of events.
pub open spec fn run_ephemeral<V>(
    shape: EphemeralCallShape,
    events: Seq<EphemeralCallEvent<V>>,
) -> EphemeralCallStage<V>
    decreases events.len(),
{
    if events.len() == 0 {
        EphemeralCallStage::OpenStore
    } else {
        shape.next(run_ephemeral(shape, events.drop_last()), events.last())
    }
}

/// A call in a store of its own that is over stays as it came out, whatever the
/// host still tells.
pub proof fn law_outcome_is_final<V>(
    shape: EphemeralCallShape,
    events: Seq<EphemeralCallEvent<V>>,
    more: Seq<EphemeralCallEvent<V>>,
)
    requires
        run_ephemeral(shape, events) is Returned || run_ephemeral(shape, events) is Failed,
    ensures
        run_ephemeral(shape, events + more) == run_ephemeral(shape, events),
    decreases more.len(),
{
    let all = events + more;
    if more.len() == 0 {
        assert(all =~= events);
    } else {
        law_outcome_is_final(shape, events, more.drop_last());
        assert(all.drop_last() =~= events + more.drop_last());
    }
}

/// A call in a store of its own gives values only from a call that returned them,
/// after its store was opened, the callee instantiated and the function found.
pub proof fn law_values_come_from_the_call<V>(
    shape: EphemeralCallShape,
    events: Seq<EphemeralCallEvent<V>>,
)
    ensures
        match run_ephemeral(shape, events) {
            EphemeralCallStage::Returned(values) => exists|k: int|
                {
                    &&& 0 <= k < events.len()
                    &&& (#[trigger] events[k]) == EphemeralCallEvent::Returned(values)
                    &&& run_ephemeral(shape, events.take(k)) is Call
                },
            _ => true,
        },
    decreases events.len(),
{
    if events.len() > 0 {
        let front = events.drop_last();
        law_values_come_from_the_call(shape, front);
        let n = events.len() - 1;
        assert(front =~= events.take(n));
        if let EphemeralCallStage::Returned(values) = run_ephemeral(shape, events) {
            if run_ephemeral(shape, front) is Returned {
                let k = choose|k: int|
                    {
                        &&& 0 <= k < front.len()
                        &&& (#[trigger] front[k]) == EphemeralCallEvent::Returned(values)
                        &&& run_ephemeral(shape, front.take(k)) is Call
                    };
                assert(front.take(k) =~= events.take(k));
                assert(events[k] == EphemeralCallEvent::Returned(values));
            } else {
                assert(events[n] == EphemeralCallEvent::Returned(values));
            }
        }
    }
}

/// A call in a store of its own in which all goes well has its values after four
/// steps.
pub proof fn law_smooth_ephemeral_call<V>(shape: EphemeralCallShape, values: Vec<V>)
    ensures
        run_ephemeral(
            shape,
            seq![
                EphemeralCallEvent::Done,
                EphemeralCallEvent::Done,
                EphemeralCallEvent::Done,
                EphemeralCallEvent::Returned(values),
            ],
        ) == EphemeralCallStage::Returned(values),
{
    let one = seq![EphemeralCallEvent::<V>::Done];
    let two = one.push(EphemeralCallEvent::Done);
    let three = two.push(EphemeralCallEvent::Done);
    let four = three.push(EphemeralCallEvent::Returned(values));
    assert(one.drop_last() =~= Seq::<EphemeralCallEvent<V>>::empty());
    assert(two.drop_last() =~= one);
    assert(three.drop_last() =~= two);
    assert(four.drop_last() =~= three);
    assert(four =~= seq![
        EphemeralCallEvent::Done,
        EphemeralCallEvent::Done,
        EphemeralCallEvent::Done,
        EphemeralCallEvent::Returned(values),
    ]);
    reveal_with_fuel(run_ephemeral, 5);
}

/// The path of a call goes by its signature: an import that was linked to a
/// function with these types runs in the caller's store exactly when a handle
/// occurs somewhere in them, and in a store of its own when none does.
pub proof fn law_path_goes_by_the_signature<T: ?Sized, H: ?Sized, V>(
    inv: LinkedExportInvocation<T, H>,
    params: Seq<TypeTree>,
    results: Seq<TypeTree>,
)
    requires
        inv.ephemeral_path() is Some <==> all_plain(params, results),
    ensures
        async_call::<T, H, V>(inv) is Shared <==> any_carries(params) || any_carries(results),
        async_call::<T, H, V>(inv) matches LinkedCall::Ephemeral(c) ==> inv.ephemeral_path() == Some(
            (*c.call)@,
        ),
        async_call::<T, H, V>(inv) matches LinkedCall::Shared(c) ==> c.component_id
            == inv.plugin_component_id && c.timeout_secs is None,
{
}

/// The steps of a call in a store of its own while each goes well: the store, the
/// callee in it, the function, and the call, whose values are what the call gives.
pub proof fn law_ephemeral_steps_in_order<V>(
    shape: EphemeralCallShape,
    events: Seq<EphemeralCallEvent<V>>,
    values: Vec<V>,
)
    requires
        events.len() <= 4,
        forall|i: int| 0 <= i < events.len() && i < 3 ==> #[trigger] events[i] is Done,
        events.len() == 4 ==> events[3] == EphemeralCallEvent::Returned(values),
    ensures
        events.len() == 0 ==> run_ephemeral(shape, events) is OpenStore,
        events.len() == 1 ==> run_ephemeral(shape, events) is Instantiate,
        events.len() == 2 ==> run_ephemeral(shape, events) is FindFunc,
        events.len() == 3 ==> run_ephemeral(shape, events) is Call,
        events.len() == 4 ==> run_ephemeral(shape, events) == EphemeralCallStage::Returned(values),
    decreases events.len(),
{
    if events.len() > 0 {
        law_ephemeral_steps_in_order(shape, events.drop_last(), values);
        let n = events.len() - 1;
        assert(n < 3 ==> events[n] is Done);
    }
}

/// A step that goes wrong is the outcome of a call in a store of its own: why the
/// store was refused, what the step failed with, that the task was lost, that the
/// function is not there, or that the call took more than 600 seconds. Nothing that
/// the host tells later changes it.
pub proof fn law_failed_ephemeral_step_is_the_outcome<V>(
    shape: EphemeralCallShape,
    events: Seq<EphemeralCallEvent<V>>,
    k: int,
)
    requires
        0 <= k < events.len(),
    ensures
        ({
            let at = run_ephemeral(shape, events.take(k));
            let in_task = at is Instantiate || at is FindFunc || at is Call;
            let end = run_ephemeral(shape, events);
            &&& at is OpenStore ==> (events[k] matches EphemeralCallEvent::Refused(e) ==> end
                == EphemeralCallStage::<V>::Failed(e))
            &&& in_task ==> (events[k] matches EphemeralCallEvent::Failed(cause) ==> end
                == EphemeralCallStage::<V>::Failed(LinkError::Other { cause }))
            &&& in_task ==> (events[k] matches EphemeralCallEvent::TaskFailed(cause) ==> end
                == EphemeralCallStage::<V>::Failed(LinkError::TaskFailed { cause }))
            &&& at is FindFunc && events[k] is Missing ==> end == EphemeralCallStage::<V>::Failed(
                LinkError::ImportFuncNotFound {
                    import_name: shape.import_name,
                    export_name: shape.export_name,
                },
            )
            &&& at is Call ==> (events[k] matches EphemeralCallEvent::TimedOut(cause) ==> end
                == EphemeralCallStage::<V>::Failed(LinkError::TimedOut { secs: 600, cause }))
        }),
{
    let upto = events.take(k + 1);
    assert(upto.drop_last() =~= events.take(k));
    assert(upto.last() == events[k]);
    assert(upto + events.skip(k + 1) =~= events);
    if run_ephemeral(shape, upto) is Failed {
        law_outcome_is_final(shape, upto, events.skip(k + 1));
    }
}

/// An answer that the pending action cannot have leaves a call in a store of its own
/// where it stands: only opening the store can be refused, only the lookup can miss,
/// and only the call returns values or runs out of time.
pub proof fn law_stray_ephemeral_answer_changes_nothing<V>(
    shape: EphemeralCallShape,
    events: Seq<EphemeralCallEvent<V>>,
    event: EphemeralCallEvent<V>,
)
    requires
        ({
            let at = run_ephemeral(shape, events);
            ||| at is OpenStore && !(event is Done) && !(event is Refused)
            ||| !(at is OpenStore) && event is Refused
            ||| !(at is FindFunc) && event is Missing
            ||| !(at is Call) && (event is Returned || event is TimedOut)
            ||| at is Call && event is Done
        }),
    ensures
        run_ephemeral(shape, events.push(event)) == run_ephemeral(shape, events),
{
    assert(events.push(event).drop_last() =~= events);
}

/// A call in a store of its own goes by the names of its import and of its export.
pub proof fn law_ephemeral_steps_go_by_the_call<T: ?Sized, H: ?Sized, V>(
    call: EphemeralCall<T, H, V>,
)
    ensures
        call.shape().import_name == call.import_name,
        call.shape().export_name == call.export_name,
{
}

/// The results of a call are its values, each in its slot; a slot that no value is
/// for keeps what it held, and no slot is added or lost.
pub proof fn law_values_land_in_their_slots<V>(slots: Seq<V>, values: Seq<V>, i: int)
    requires
        0 <= i < slots.len(),
    ensures
        filled(slots, values).len() == slots.len(),
        i < values.len() ==> filled(slots, values)[i] == values[i],
        i >= values.len() ==> filled(slots, values)[i] == slots[i],
        values.len() == slots.len() ==> filled(slots, values) == values,
        filled(filled(slots, values), values) == filled(slots, values),
{
    assert(values.len() == slots.len() ==> filled(slots, values) =~= values);
    assert(filled(filled(slots, values), values) =~= filled(slots, values));
}

/// An asynchronous call starts at its first step, under the names that its import is
/// linked with, for the component that exports the function.
pub proof fn law_async_call_starts_from_its_import<T: ?Sized, H: ?Sized, V>(
    inv: LinkedExportInvocation<T, H>,
)
    ensures
        async_call::<T, H, V>(inv) is Ephemeral <==> inv.ephemeral_call is Some,
        async_call::<T, H, V>(inv) matches LinkedCall::Ephemeral(c) ==> {
            &&& c.stage is OpenStore
            &&& c.import_name == inv.import_name
            &&& c.export_name == inv.export_name
            &&& inv.ephemeral_call == Some(c.call)
        },
        async_call::<T, H, V>(inv) matches LinkedCall::Shared(c) ==> {
            &&& c.stage is EnterCtx
            &&& c.component_id == inv.plugin_component_id
            &&& c.timeout_secs is None
        },
        inv.ephemeral_path() is Some <==> inv.ephemeral_call is Some,
        inv.ephemeral_call matches Some(c) ==> inv.ephemeral_path() == Some((*c)@),
{
}

} // verus!
