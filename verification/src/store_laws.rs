//! What holds of every build of a store, however its steps go.
use std::sync::Arc;
use vstd::prelude::*;

use crate::ctx::{var_text, HostEnv};
use crate::error::LinkError;
use crate::sockets::{binds, raw_sockets_allowed, SocketAddrUse, ALLOW_RAW_SOCKETS_KEY};
use crate::store::{mounts_of, StepOutcome, StoreAction, StorePlan, StoreShape, StoreStage};
use crate::template::{config_text, TemplateView};

verus! {

/// The stage of a build after a row of steps.
pub open spec fn run(shape: StoreShape, outcomes: Seq<StepOutcome>) -> StoreStage
    decreases outcomes.len(),
{
    if outcomes.len() == 0 {
        StoreStage::BuildCtx(0)
    } else {
        shape.next(run(shape, outcomes.drop_last()), outcomes.last())
    }
}

/// The component whose context is the active one after a row of steps: the last
/// that was made active and not refused.
pub open spec fn active_after(shape: StoreShape, outcomes: Seq<StepOutcome>) -> Arc<str>
    decreases outcomes.len(),
{
    if outcomes.len() == 0 {
        shape.active_id
    } else {
        let before = outcomes.drop_last();
        match shape.action(run(shape, before)) {
            StoreAction::SetActive(id) if outcomes.last() is Done => id,
            _ => active_after(shape, before),
        }
    }
}

/// The instances entered after a row of steps, in order.
pub open spec fn registered(shape: StoreShape, outcomes: Seq<StepOutcome>) -> Seq<Arc<str>>
    decreases outcomes.len(),
{
    if outcomes.len() == 0 {
        Seq::empty()
    } else {
        let before = outcomes.drop_last();
        match shape.action(run(shape, before)) {
            StoreAction::Register(i) if outcomes.last() is Done => registered(shape, before).push(
                shape.instances[i as int],
            ),
            _ => registered(shape, before),
        }
    }
}

/// A shape whose counts a machine can hold.
pub open spec fn addressable(shape: StoreShape) -> bool {
    shape.linked <= usize::MAX && shape.instances.len() <= usize::MAX
}

/// The number of steps that a build without failures takes.
pub open spec fn full_length(shape: StoreShape) -> nat {
    (shape.linked + 2 + 4 * shape.instances.len()) as nat
}

/// The stage of a build after `k` steps that all went well: the contexts of the
/// active and of each linked component, the store, and for each instance in turn
/// the change of context, the instantiation, the change back and the entry.
pub open spec fn smooth_stage(shape: StoreShape, k: nat) -> StoreStage {
    if k <= shape.linked {
        StoreStage::BuildCtx(k as usize)
    } else if k == shape.linked + 1 {
        StoreStage::Open
    } else {
        let i = (k - shape.linked - 2) / 4;
        let step = (k - shape.linked - 2) % 4;
        if i >= shape.instances.len() {
            StoreStage::Ready
        } else if step == 0 {
            StoreStage::Enter(i as usize)
        } else if step == 1 {
            StoreStage::Instantiate(i as usize)
        } else if step == 2 {
            StoreStage::Leave(i as usize, None)
        } else {
            StoreStage::Register(i as usize)
        }
    }
}

/// Every build stays within the contexts and instances of its plan.
pub proof fn law_stage_in_range(shape: StoreShape, outcomes: Seq<StepOutcome>)
    requires
        addressable(shape),
    ensures
        shape.in_range(run(shape, outcomes)),
    decreases outcomes.len(),
{
    if outcomes.len() > 0 {
        law_stage_in_range(shape, outcomes.drop_last());
    }
}

/// A build in which no step fails goes through its stages in the one order, and is
/// ready after exactly [`full_length`] steps.
pub proof fn law_smooth_build(shape: StoreShape, outcomes: Seq<StepOutcome>)
    requires
        addressable(shape),
        shape.refusal is None,
        forall|i: int| 0 <= i < outcomes.len() ==> #[trigger] outcomes[i] is Done,
    ensures
        run(shape, outcomes) == smooth_stage(shape, outcomes.len()),
        run(shape, outcomes) is Ready <==> outcomes.len() >= full_length(shape),
    decreases outcomes.len(),
{
    if outcomes.len() > 0 {
        law_smooth_build(shape, outcomes.drop_last());
        assert(outcomes[outcomes.len() - 1] is Done);
    }
}

/// A store that is ready had no failed step on the way.
pub proof fn law_ready_means_nothing_failed(shape: StoreShape, outcomes: Seq<StepOutcome>, k: int)
    requires
        0 <= k < outcomes.len(),
        outcomes[k] is Failed,
        !(run(shape, outcomes.take(k)) is Ready),
    ensures
        !(run(shape, outcomes) is Ready),
        run(shape, outcomes) is Refused || run(shape, outcomes) matches StoreStage::Leave(_, Some(
            _,
        )),
    decreases outcomes.len(),
{
    let front = outcomes.drop_last();
    if k == outcomes.len() - 1 {
        assert(front =~= outcomes.take(k));
    } else {
        assert(front.take(k) =~= outcomes.take(k));
        law_ready_means_nothing_failed(shape, front, k);
    }
}

/// A budget above the ceiling is an error before there is a store: no store is
/// opened and no instance made, however the steps go.
pub proof fn law_refused_budget_opens_no_store(shape: StoreShape, outcomes: Seq<StepOutcome>)
    requires
        addressable(shape),
        shape.refusal is Some,
    ensures
        run(shape, outcomes) is BuildCtx || run(shape, outcomes) is Refused,
{
    law_stage_in_range(shape, outcomes);
}

/// The active component's context is the active one at every stage but between a
/// change to a linked context and the change back; the change back follows every
/// instantiation, failed or not. Only a change back that fails itself can leave
/// another context active.
pub proof fn law_active_context_comes_back(shape: StoreShape, outcomes: Seq<StepOutcome>)
    ensures
        match run(shape, outcomes) {
            StoreStage::Instantiate(i) | StoreStage::Leave(i, _) => active_after(shape, outcomes)
                == shape.instances[i as int],
            StoreStage::Refused(LinkError::Other { .. }) => active_after(shape, outcomes)
                == shape.active_id || exists|k: int|
                0 <= k < outcomes.len() && outcomes[k] is Failed && (#[trigger] run(
                    shape,
                    outcomes.take(k),
                )) is Leave,
            _ => active_after(shape, outcomes) == shape.active_id,
        },
    decreases outcomes.len(),
{
    if outcomes.len() > 0 {
        let front = outcomes.drop_last();
        let n = outcomes.len() - 1;
        law_active_context_comes_back(shape, front);
        assert(front =~= outcomes.take(n));
        if run(shape, front) is Leave && outcomes.last() is Failed {
            assert(run(shape, outcomes.take(n)) is Leave);
            assert(outcomes[n] is Failed);
        }
        if run(shape, front) is Refused && exists|k: int|
            0 <= k < front.len() && front[k] is Failed && (#[trigger] run(shape, front.take(k))) is Leave {
            let k = choose|k: int|
                0 <= k < front.len() && front[k] is Failed && (#[trigger] run(
                    shape,
                    front.take(k),
                )) is Leave;
            assert(front.take(k) =~= outcomes.take(k));
            assert(outcomes[k] is Failed && run(shape, outcomes.take(k)) is Leave);
        }
    }
}

/// The instances of a store are entered one by one, in the order of the plan, and
/// a store that is ready has them all.
pub proof fn law_instances_are_entered_in_order(shape: StoreShape, outcomes: Seq<StepOutcome>)
    requires
        addressable(shape),
    ensures
        match run(shape, outcomes) {
            StoreStage::BuildCtx(_) | StoreStage::Open => registered(shape, outcomes)
                == Seq::<Arc<str>>::empty(),
            StoreStage::Enter(i)
            | StoreStage::Instantiate(i)
            | StoreStage::Leave(i, _)
            | StoreStage::Register(i) => registered(shape, outcomes) == shape.instances.take(
                i as int,
            ),
            StoreStage::Ready => registered(shape, outcomes) == shape.instances,
            StoreStage::Refused(_) => registered(shape, outcomes).is_prefix_of(shape.instances),
        },
    decreases outcomes.len(),
{
    if outcomes.len() > 0 {
        let front = outcomes.drop_last();
        law_instances_are_entered_in_order(shape, front);
        law_stage_in_range(shape, front);
        match run(shape, front) {
            StoreStage::Register(i) => {
                assert(shape.instances.take(i as int).push(shape.instances[i as int])
                    =~= shape.instances.take(i + 1));
                assert(shape.instances.take(shape.instances.len() as int) =~= shape.instances);
            },
            StoreStage::Open => {
                assert(shape.instances.take(0) =~= Seq::<Arc<str>>::empty());
                assert(shape.instances.take(shape.instances.len() as int) =~= shape.instances);
            },
            _ => {},
        }
    }
}

/// The steps that a stage still has before it, if none fails.
pub open spec fn steps_left(shape: StoreShape, stage: StoreStage) -> int {
    let m = shape.instances.len() as int;
    match stage {
        StoreStage::BuildCtx(i) => shape.linked - i + 2 + 4 * m,
        StoreStage::Open => 1 + 4 * m,
        StoreStage::Enter(i) => 4 * (m - i),
        StoreStage::Instantiate(i) => 4 * (m - i) - 1,
        StoreStage::Leave(i, _) => 4 * (m - i) - 2,
        StoreStage::Register(i) => 4 * (m - i) - 3,
        StoreStage::Ready | StoreStage::Refused(_) => 0,
    }
}

/// Every step brings a build nearer to its end, so that it ends after at most
/// [`full_length`] steps, however they go.
pub proof fn law_build_ends(shape: StoreShape, outcomes: Seq<StepOutcome>)
    requires
        addressable(shape),
    ensures
        0 <= steps_left(shape, run(shape, outcomes)),
        steps_left(shape, run(shape, outcomes)) + outcomes.len() <= full_length(shape) || run(
            shape,
            outcomes,
        ) is Ready || run(shape, outcomes) is Refused,
        outcomes.len() >= full_length(shape) ==> run(shape, outcomes) is Ready || run(
            shape,
            outcomes,
        ) is Refused,
    decreases outcomes.len(),
{
    law_stage_in_range(shape, outcomes);
    if outcomes.len() > 0 {
        law_build_ends(shape, outcomes.drop_last());
        law_stage_in_range(shape, outcomes.drop_last());
    }
}

/// Only the active component can be a service: in no store may a linked component
/// bind, on any address, whatever its configuration.
pub proof fn law_linked_components_never_bind<P: ?Sized, L: ?Sized, T: ?Sized, H: ?Sized>(
    plan: StorePlan<P, L, T, H>,
    store_id: Seq<char>,
    http_handler: Arc<H>,
    active: TemplateView<P, L, T>,
    linked: Seq<TemplateView<P, L, T>>,
    instances: Seq<Arc<str>>,
    is_service: bool,
    env: HostEnv,
    i: int,
    reason: SocketAddrUse,
    ip_is_loopback: bool,
)
    requires
        plan.made_for(store_id, http_handler, active, linked, instances, is_service, env),
        0 <= i < linked.len(),
        binds(reason),
    ensures
        !plan.linked@[i].sockets.verdict(reason, ip_is_loopback).permitted,
{
    assert(plan.linked@[i]@.sockets == plan.linked@[i].sockets);
}

/// Each component's raw-socket opt-in is its own: what the configuration of another
/// component in the store says does not matter.
pub proof fn law_opt_in_is_per_component<P: ?Sized, L: ?Sized, T: ?Sized, H: ?Sized>(
    plan: StorePlan<P, L, T, H>,
    store_id: Seq<char>,
    http_handler: Arc<H>,
    active: TemplateView<P, L, T>,
    linked: Seq<TemplateView<P, L, T>>,
    instances: Seq<Arc<str>>,
    is_service: bool,
    env: HostEnv,
    i: int,
)
    requires
        plan.made_for(store_id, http_handler, active, linked, instances, is_service, env),
    ensures
        plan.active.sockets.allow_raw_sockets == raw_sockets_allowed(
            config_text(active.local_resources, ALLOW_RAW_SOCKETS_KEY@),
            var_text(env.allow_raw_sockets),
        ),
        0 <= i < linked.len() ==> plan.linked@[i].sockets.allow_raw_sockets == raw_sockets_allowed(
            config_text(linked[i].local_resources, ALLOW_RAW_SOCKETS_KEY@),
            var_text(env.allow_raw_sockets),
        ),
{
    assert(plan.active@.sockets == plan.active.sockets);
    if 0 <= i < linked.len() {
        assert(plan.linked@[i]@.sockets == plan.linked@[i].sockets);
    }
}

/// All contexts of a store belong to it and open the same directories: those of the
/// active component first, then those of each linked one.
pub proof fn law_contexts_share_store_and_mounts<P: ?Sized, L: ?Sized, T: ?Sized, H: ?Sized>(
    plan: StorePlan<P, L, T, H>,
    store_id: Seq<char>,
    http_handler: Arc<H>,
    active: TemplateView<P, L, T>,
    linked: Seq<TemplateView<P, L, T>>,
    instances: Seq<Arc<str>>,
    is_service: bool,
    env: HostEnv,
    i: int,
)
    requires
        plan.made_for(store_id, http_handler, active, linked, instances, is_service, env),
    ensures
        plan.active.preopens@ == active.volume_mounts + mounts_of(linked),
        plan.active.store_id@ == plan.store_id@,
        0 <= i < linked.len() ==> plan.linked@[i].preopens@ == plan.active.preopens@,
        0 <= i < linked.len() ==> plan.linked@[i].store_id@ == plan.store_id@,
{
    assert(plan.active@.preopens == plan.active.preopens@);
    assert(plan.active@.store_id == plan.active.store_id@);
    if 0 <= i < linked.len() {
        assert(plan.linked@[i]@.preopens == plan.linked@[i].preopens@);
        assert(plan.linked@[i]@.store_id == plan.linked@[i].store_id@);
    }
}

/// Every context has the HTTP handler of the store, and none loses the TLS provider,
/// the plugins or the network of its template.
pub proof fn law_contexts_keep_their_services<P: ?Sized, L: ?Sized, T: ?Sized, H: ?Sized>(
    plan: StorePlan<P, L, T, H>,
    store_id: Seq<char>,
    http_handler: Arc<H>,
    active: TemplateView<P, L, T>,
    linked: Seq<TemplateView<P, L, T>>,
    instances: Seq<Arc<str>>,
    is_service: bool,
    env: HostEnv,
    i: int,
)
    requires
        plan.made_for(store_id, http_handler, active, linked, instances, is_service, env),
    ensures
        plan.active@.http_handler == http_handler,
        plan.active@.tls_provider == active.tls_provider,
        plan.active@.plugins == active.plugins,
        plan.active@.loopback == active.loopback,
        0 <= i < linked.len() ==> {
            &&& plan.linked@[i]@.http_handler == http_handler
            &&& plan.linked@[i]@.tls_provider == linked[i].tls_provider
            &&& plan.linked@[i]@.plugins == linked[i].plugins
            &&& plan.linked@[i]@.loopback == linked[i].loopback
        },
{
}

/// A build that is over stays as it came out, and asks for nothing more.
pub proof fn law_build_outcome_is_final(shape: StoreShape, outcomes: Seq<StepOutcome>, k: int)
    requires
        0 <= k <= outcomes.len(),
        run(shape, outcomes.take(k)) is Ready || run(shape, outcomes.take(k)) is Refused,
    ensures
        run(shape, outcomes) == run(shape, outcomes.take(k)),
        shape.action(run(shape, outcomes)) is Stop,
    decreases outcomes.len(),
{
    if k == outcomes.len() {
        assert(outcomes.take(k) =~= outcomes);
    } else {
        let front = outcomes.drop_last();
        assert(front.take(k) =~= outcomes.take(k));
        law_build_outcome_is_final(shape, front, k);
    }
}

/// What the host is asked for while each step goes well: the context of the active
/// component, then that of each linked one, then the store; for each instance in turn
/// the change to its component's context, the instantiation, the change back to the
/// active component and the entry; then nothing, and the store is ready.
pub proof fn law_build_steps_in_order(shape: StoreShape, outcomes: Seq<StepOutcome>, i: int)
    requires
        addressable(shape),
        shape.refusal is None,
        forall|j: int| 0 <= j < outcomes.len() ==> #[trigger] outcomes[j] is Done,
        0 <= i < shape.instances.len(),
    ensures
        ({
            let action = shape.action(run(shape, outcomes));
            let n = outcomes.len();
            let first = shape.linked + 2 + 4 * i;
            &&& n == 0 ==> action == StoreAction::BuildActiveCtx
            &&& 0 < n <= shape.linked ==> (action matches StoreAction::BuildLinkedCtx(c) && c == n
                - 1)
            &&& n == shape.linked + 1 ==> action == StoreAction::Open
            &&& n == first ==> action == StoreAction::SetActive(shape.instances[i])
            &&& n == first + 1 ==> (action matches StoreAction::Instantiate(c) && c == i)
            &&& n == first + 2 ==> action == StoreAction::SetActive(shape.active_id)
            &&& n == first + 3 ==> (action matches StoreAction::Register(c) && c == i)
        }),
{
    law_smooth_build(shape, outcomes);
}

/// A build in which every step goes well ends in a store: after the contexts, the store
/// and four steps for each instance there is nothing left to do.
pub proof fn law_smooth_build_is_ready(shape: StoreShape, outcomes: Seq<StepOutcome>)
    requires
        addressable(shape),
        shape.refusal is None,
        forall|j: int| 0 <= j < outcomes.len() ==> #[trigger] outcomes[j] is Done,
    ensures
        outcomes.len() == 0 ==> shape.action(run(shape, outcomes)) == StoreAction::BuildActiveCtx,
        0 < outcomes.len() <= shape.linked ==> (shape.action(
            run(shape, outcomes),
        ) matches StoreAction::BuildLinkedCtx(c) && c == outcomes.len() - 1),
        outcomes.len() == shape.linked + 1 ==> shape.action(run(shape, outcomes))
            == StoreAction::Open,
        outcomes.len() >= shape.linked + 2 + 4 * shape.instances.len() ==> run(shape, outcomes)
            is Ready && shape.action(run(shape, outcomes)) is Stop,
        outcomes.len() < shape.linked + 2 + 4 * shape.instances.len() ==> !(run(shape, outcomes)
            is Ready),
{
    law_smooth_build(shape, outcomes);
}

/// The first step that fails is why a store is refused. A failed instantiation is
/// reported under the component that it was for, after the active component's context
/// was asked back; should that change fail too, its own failure is reported. Every
/// other failure is reported as it stands.
pub proof fn law_failed_step_refuses_the_store(
    shape: StoreShape,
    outcomes: Seq<StepOutcome>,
    k: int,
    cause: String,
)
    requires
        addressable(shape),
        shape.refusal is None,
        0 <= k < outcomes.len(),
        k < shape.linked + 2 + 4 * shape.instances.len(),
        forall|j: int| 0 <= j < k ==> #[trigger] outcomes[j] is Done,
        outcomes[k] == StepOutcome::Failed(cause),
    ensures
        ({
            let i = (k - shape.linked - 2) / 4;
            let instantiating = k >= shape.linked + 2 && (k - shape.linked - 2) % 4 == 1;
            &&& !instantiating ==> run(shape, outcomes) == StoreStage::Refused(
                LinkError::Other { cause },
            )
            &&& instantiating && outcomes.len() == k + 1 ==> shape.action(run(shape, outcomes))
                == StoreAction::SetActive(shape.active_id)
            &&& instantiating && outcomes.len() > k + 1 && outcomes[k + 1] is Done ==> run(
                shape,
                outcomes,
            ) == StoreStage::Refused(
                LinkError::Instantiate { component_id: shape.instances[i], cause },
            )
            &&& instantiating && outcomes.len() > k + 1 ==> (
            outcomes[k + 1] matches StepOutcome::Failed(other) ==> run(shape, outcomes)
                == StoreStage::Refused(LinkError::Other { cause: other }))
        }),
{
    let before = outcomes.take(k);
    let upto = outcomes.take(k + 1);
    assert(forall|j: int| 0 <= j < before.len() ==> #[trigger] before[j] == outcomes[j]);
    law_smooth_build(shape, before);
    assert(upto.drop_last() =~= before);
    assert(upto.last() == outcomes[k]);
    if run(shape, upto) is Refused {
        law_build_outcome_is_final(shape, outcomes, k + 1);
    } else if outcomes.len() > k + 1 {
        let further = outcomes.take(k + 2);
        assert(further.drop_last() =~= upto);
        assert(further.last() == outcomes[k + 1]);
        law_build_outcome_is_final(shape, outcomes, k + 2);
    } else {
        assert(upto =~= outcomes);
    }
}

/// A budget above the ceiling is told once the contexts stand, and nothing else is
/// done.
pub proof fn law_refused_budget_is_told(
    shape: StoreShape,
    outcomes: Seq<StepOutcome>,
    e: LinkError,
)
    requires
        addressable(shape),
        shape.refusal == Some(e),
        outcomes.len() > shape.linked,
        forall|j: int| 0 <= j <= shape.linked ==> #[trigger] outcomes[j] is Done,
    ensures
        run(shape, outcomes) == StoreStage::Refused(e),
{
    let k = shape.linked as int;
    assert(outcomes[k] is Done);
    lemma_contexts_first(shape, outcomes.take(k));
    let upto = outcomes.take(k + 1);
    assert(upto.drop_last() =~= outcomes.take(k));
    assert(upto.last() == outcomes[k]);
    law_build_outcome_is_final(shape, outcomes, k + 1);
}

/// A context that cannot be built refuses the store with what it failed with, whether
/// its budget would have been granted or not.
pub proof fn law_failed_context_refuses_the_store(
    shape: StoreShape,
    outcomes: Seq<StepOutcome>,
    k: int,
    cause: String,
)
    requires
        addressable(shape),
        0 <= k <= shape.linked,
        k < outcomes.len(),
        outcomes[k] == StepOutcome::Failed(cause),
        forall|j: int| 0 <= j < k ==> #[trigger] outcomes[j] is Done,
    ensures
        run(shape, outcomes) == StoreStage::Refused(LinkError::Other { cause }),
{
    lemma_contexts_first(shape, outcomes.take(k));
    let upto = outcomes.take(k + 1);
    assert(upto.drop_last() =~= outcomes.take(k));
    assert(upto.last() == outcomes[k]);
    law_build_outcome_is_final(shape, outcomes, k + 1);
}

proof fn lemma_contexts_first(shape: StoreShape, outcomes: Seq<StepOutcome>)
    requires
        addressable(shape),
        outcomes.len() <= shape.linked,
        forall|j: int| 0 <= j < outcomes.len() ==> #[trigger] outcomes[j] is Done,
    ensures
        run(shape, outcomes) == StoreStage::BuildCtx(outcomes.len() as usize),
    decreases outcomes.len(),
{
    if outcomes.len() > 0 {
        lemma_contexts_first(shape, outcomes.drop_last());
        assert(outcomes[outcomes.len() - 1] is Done);
    }
}

} // verus!
