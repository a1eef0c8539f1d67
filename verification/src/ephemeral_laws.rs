//! What holds of every store of a single call, however its steps go.
use std::sync::Arc;
use vstd::prelude::*;

use crate::ephemeral::{
    ascending, first_unknown, lists, loaded, next_stage, templates_view, CallView, EphemeralEvent,
    EphemeralLinkedCall, EphemeralStage, LinkTemplates, TemplatesView,
};
use crate::error::LinkError;
use crate::template::{template_of, WorkloadComponent};
use crate::text::{lemma_text_less_irreflexive, text_less};

verus! {

/// The stage of the making of a call's store after a row of events.
pub open spec fn run<P: ?Sized, L: ?Sized, T: ?Sized, H: ?Sized, C>(
    call: CallView<T, H>,
    events: Seq<EphemeralEvent<'_, P, L, C>>,
) -> EphemeralStage<P, L, T>
    decreases events.len(),
{
    if events.len() == 0 {
        EphemeralStage::ResolveMounts
    } else {
        next_stage(call, run(call, events.drop_last()), events.last())
    }
}

/// A list without an unknown name, or its first unknown one.
proof fn lemma_first_unknown(ids: Seq<Arc<str>>, known: Set<Seq<char>>, i: int)
    requires
        0 <= i < ids.len(),
        !known.contains(ids[i]@),
    ensures
        exists|k: int| first_unknown(ids, known, k),
    decreases i,
{
    if exists|j: int| 0 <= j < i && !known.contains((#[trigger] ids[j])@) {
        let j = choose|j: int| 0 <= j < i && !known.contains((#[trigger] ids[j])@);
        lemma_first_unknown(ids, known, j);
    } else {
        assert(first_unknown(ids, known, i));
    }
}

/// The mounts of no component are resolved twice: an ascending list has every name
/// once.
pub proof fn law_ascending_names_are_distinct(ids: Seq<Arc<str>>, i: int, j: int)
    requires
        ascending(ids),
        0 <= i < ids.len(),
        0 <= j < ids.len(),
        i != j,
    ensures
        ids[i]@ != ids[j]@,
{
    lemma_text_less_irreflexive(ids[i]@);
    if i < j {
        assert(text_less(ids[i]@, ids[j]@));
    } else {
        assert(text_less(ids[j]@, ids[i]@));
    }
}

/// The templates of a call can be loaded exactly when the workload has the
/// component that is called and every component that it links.
pub proof fn law_loads_when_all_are_there<P: ?Sized, L: ?Sized, T: ?Sized, H: ?Sized, C>(
    call: CallView<T, H>,
    components: Map<Seq<char>, WorkloadComponent<P, L, C>>,
)
    ensures
        loaded(call, components) is Ok <==> components.contains_key(call.active@) && forall|
            name: Seq<char>,
        | #[trigger]
            lists(call.linked, name) ==> components.contains_key(name),
{
    if loaded(call, components) is Ok {
        assert forall|name: Seq<char>| #[trigger] lists(call.linked, name) implies components.contains_key(
            name,
        ) by {
            let i = choose|i: int| 0 <= i < call.linked.len() && (#[trigger] call.linked[i])@ == name;
            if !components.contains_key(name) {
                lemma_first_unknown(call.linked, components.dom(), i);
            }
        }
    } else if components.contains_key(call.active@) {
        let i = choose|i: int| first_unknown(call.linked, components.dom(), i);
        assert(lists(call.linked, call.linked[i]@));
    }
}

/// A call whose component is gone is refused for that, whatever else is missing; a
/// call with the component there is refused for a linked component that is missing.
pub proof fn law_refused_for_what_is_missing<P: ?Sized, L: ?Sized, T: ?Sized, H: ?Sized, C>(
    call: CallView<T, H>,
    components: Map<Seq<char>, WorkloadComponent<P, L, C>>,
)
    requires
        loaded(call, components) is Err,
    ensures
        match loaded(call, components)->Err_0 {
            LinkError::ActiveNotFound { component_id } => component_id == call.active
                && !components.contains_key(component_id@),
            LinkError::LinkedNotFound { component_id } => {
                &&& components.contains_key(call.active@)
                &&& lists(call.linked, component_id@)
                &&& !components.contains_key(component_id@)
            },
            _ => false,
        },
{
    if components.contains_key(call.active@) {
        let i = choose|i: int| first_unknown(call.linked, components.dom(), i);
        assert(lists(call.linked, call.linked[i]@));
    }
}

/// The templates of a call are those of its components as they stand, and all of
/// them have the TLS provider of the call.
pub proof fn law_templates_follow_the_metadata<P: ?Sized, L: ?Sized, T: ?Sized, H: ?Sized, C>(
    call: CallView<T, H>,
    components: Map<Seq<char>, WorkloadComponent<P, L, C>>,
    i: int,
)
    requires
        loaded(call, components) is Ok,
    ensures
        loaded(call, components)->Ok_0.active == template_of(
            components[call.active@].metadata,
            call.tls_provider,
        ),
        loaded(call, components)->Ok_0.linked.len() == call.linked.len(),
        loaded(call, components)->Ok_0.active.tls_provider == call.tls_provider,
        0 <= i < call.linked.len() ==> {
            &&& loaded(call, components)->Ok_0.linked[i] == template_of(
                components[call.linked[i]@].metadata,
                call.tls_provider,
            )
            &&& loaded(call, components)->Ok_0.linked[i].tls_provider == call.tls_provider
        },
{
}

/// How many linked components were prepared after a row of events.
pub open spec fn prepared<P: ?Sized, L: ?Sized, T: ?Sized, H: ?Sized, C>(
    call: CallView<T, H>,
    events: Seq<EphemeralEvent<'_, P, L, C>>,
) -> nat
    decreases events.len(),
{
    if events.len() == 0 {
        0
    } else {
        let before = events.drop_last();
        prepared(call, before) + if run(call, before) is PreInstantiate && events.last() is Done {
            1nat
        } else {
            0nat
        }
    }
}

/// A store is built only once the mounts were resolved, every linked component was
/// prepared, and the templates were loaded from components that the host read after
/// it had resolved the mounts.
pub proof fn law_store_is_built_from_what_was_read<P: ?Sized, L: ?Sized, T: ?Sized, H: ?Sized, C>(
    call: CallView<T, H>,
    events: Seq<EphemeralEvent<'_, P, L, C>>,
)
    ensures
        match run(call, events) {
            EphemeralStage::ResolveMounts | EphemeralStage::ReadComponents => prepared(call, events)
                == 0,
            EphemeralStage::PreInstantiate(i, t) => {
                &&& i < call.linked.len()
                &&& prepared(call, events) == i
                &&& exists|k: int|
                    {
                        &&& 0 <= k < events.len()
                        &&& (#[trigger] events[k]) matches EphemeralEvent::Components(c) && loaded(
                            call,
                            c@,
                        ) == Ok::<_, LinkError>(t)
                        &&& run(call, events.take(k)) is ReadComponents
                    }
            },
            EphemeralStage::BuildStore(t) => {
                &&& prepared(call, events) == call.linked.len()
                &&& exists|k: int|
                    {
                        &&& 0 <= k < events.len()
                        &&& (#[trigger] events[k]) matches EphemeralEvent::Components(c) && loaded(
                            call,
                            c@,
                        ) == Ok::<_, LinkError>(t)
                        &&& run(call, events.take(k)) is ReadComponents
                    }
            },
            EphemeralStage::Refused(_) => prepared(call, events) <= call.linked.len(),
        },
    decreases events.len(),
{
    if events.len() > 0 {
        let front = events.drop_last();
        let n = events.len() - 1;
        law_store_is_built_from_what_was_read(call, front);
        assert(front =~= events.take(n));
        assert(events[n] == events.last());
        let read = match run(call, front) {
            EphemeralStage::PreInstantiate(_, t) => Some(t),
            EphemeralStage::BuildStore(t) => Some(t),
            _ => None,
        };
        if let Some(t) = read {
            let k = choose|k: int|
                {
                    &&& 0 <= k < front.len()
                    &&& (#[trigger] front[k]) matches EphemeralEvent::Components(c) && loaded(
                        call,
                        c@,
                    ) == Ok::<_, LinkError>(t)
                    &&& run(call, front.take(k)) is ReadComponents
                };
            assert(front.take(k) =~= events.take(k));
            assert(events[k] == front[k]);
        }
    }
}

/// A call whose component is not in the workload is refused for exactly that.
pub proof fn law_missing_callee_is_named<P: ?Sized, L: ?Sized, T: ?Sized, H: ?Sized, C>(
    call: CallView<T, H>,
    components: Map<Seq<char>, WorkloadComponent<P, L, C>>,
)
    ensures
        !components.contains_key(call.active@) ==> loaded(call, components) == Err::<
            TemplatesView<P, L, T>,
            LinkError,
        >(LinkError::ActiveNotFound { component_id: call.active }),
{
}

/// Of several linked components that are missing, the first in the order of the call
/// is the one that is named.
pub proof fn law_first_missing_is_named<P: ?Sized, L: ?Sized, T: ?Sized, H: ?Sized, C>(
    call: CallView<T, H>,
    components: Map<Seq<char>, WorkloadComponent<P, L, C>>,
    i: int,
)
    requires
        components.contains_key(call.active@),
        0 <= i < call.linked.len(),
        !components.contains_key(call.linked[i]@),
        forall|j: int| 0 <= j < i ==> components.contains_key((#[trigger] call.linked[j])@),
    ensures
        loaded(call, components) == Err::<TemplatesView<P, L, T>, LinkError>(
            LinkError::LinkedNotFound { component_id: call.linked[i] },
        ),
{
    assert(first_unknown(call.linked, components.dom(), i));
    let k = choose|k: int| first_unknown(call.linked, components.dom(), k);
    assert(k == i);
}

/// The template of the component that is called, and that of each component that it
/// links, has everything that the workload's metadata has for it at that moment: its
/// names, resources, plugins and network, and all of its mounts in their order. Each
/// has the TLS provider of the call.
pub proof fn law_loaded_templates_are_complete<P: ?Sized, L: ?Sized, T: ?Sized, H: ?Sized, C>(
    call: CallView<T, H>,
    components: Map<Seq<char>, WorkloadComponent<P, L, C>>,
    i: int,
)
    requires
        loaded(call, components) is Ok,
    ensures
        ({
            let template = loaded(call, components)->Ok_0.active;
            let metadata = components[call.active@].metadata;
            &&& template.component_id == metadata.id
            &&& template.workload_id == metadata.workload_id
            &&& template.local_resources.memory_limit_mb == metadata.local_resources.memory_limit_mb
            &&& template.local_resources.config == metadata.local_resources.config@
            &&& template.local_resources.environment == metadata.local_resources.environment@
            &&& template.local_resources.allowed_hosts == metadata.local_resources.allowed_hosts@
            &&& template.volume_mounts == metadata.resolved_volume_mounts@
            &&& template.plugins is Some <==> metadata.plugins is Some
            &&& metadata.plugins matches Some(plugins) ==> template.plugins == Some(plugins@)
            &&& template.loopback == metadata.loopback
            &&& template.tls_provider == call.tls_provider
        }),
        loaded(call, components)->Ok_0.linked.len() == call.linked.len(),
        0 <= i < call.linked.len() ==> {
            let template = loaded(call, components)->Ok_0.linked[i];
            let metadata = components[call.linked[i]@].metadata;
            &&& template.component_id == metadata.id
            &&& template.workload_id == metadata.workload_id
            &&& template.local_resources.memory_limit_mb == metadata.local_resources.memory_limit_mb
            &&& template.local_resources.config == metadata.local_resources.config@
            &&& template.local_resources.environment == metadata.local_resources.environment@
            &&& template.local_resources.allowed_hosts == metadata.local_resources.allowed_hosts@
            &&& template.volume_mounts == metadata.resolved_volume_mounts@
            &&& template.plugins is Some <==> metadata.plugins is Some
            &&& metadata.plugins matches Some(plugins) ==> template.plugins == Some(plugins@)
            &&& template.loopback == metadata.loopback
            &&& template.tls_provider == call.tls_provider
        },
{
}

/// The making of a call's store while each step goes well: the mounts are resolved,
/// then the components are read, then each linked component is prepared in the order of
/// the call, and then the store is built from the templates that were read.
pub proof fn law_making_steps_in_order<P: ?Sized, L: ?Sized, T: ?Sized, H: ?Sized, C>(
    call: CallView<T, H>,
    events: Seq<EphemeralEvent<'_, P, L, C>>,
    templates: TemplatesView<P, L, T>,
)
    requires
        forall|j: int| 0 <= j < events.len() && j != 1 ==> #[trigger] events[j] is Done,
        events.len() > 1 ==> (events[1] matches EphemeralEvent::Components(c) && loaded(call, c@)
            == Ok::<TemplatesView<P, L, T>, LinkError>(templates)),
    ensures
        events.len() == 0 ==> run(call, events) is ResolveMounts,
        events.len() == 1 ==> run(call, events) is ReadComponents,
        2 <= events.len() < 2 + call.linked.len() ==> (run(
            call,
            events,
        ) matches EphemeralStage::PreInstantiate(i, t) && i == events.len() - 2 && t == templates),
        events.len() >= 2 + call.linked.len() ==> run(call, events)
            == EphemeralStage::<P, L, T>::BuildStore(templates),
    decreases events.len(),
{
    if events.len() > 0 {
        let front = events.drop_last();
        let n = events.len() - 1;
        assert(forall|j: int| 0 <= j < front.len() ==> #[trigger] front[j] == events[j]);
        law_making_steps_in_order(call, front, templates);
        assert(events[n] == events.last());
    }
}

/// The making of a call's store that is over, refused or ready to be built, stays so.
pub proof fn law_making_outcome_is_final<P: ?Sized, L: ?Sized, T: ?Sized, H: ?Sized, C>(
    call: CallView<T, H>,
    events: Seq<EphemeralEvent<'_, P, L, C>>,
    k: int,
)
    requires
        0 <= k <= events.len(),
        run(call, events.take(k)) is Refused || run(call, events.take(k)) is BuildStore,
    ensures
        run(call, events) == run(call, events.take(k)),
    decreases events.len(),
{
    if k == events.len() {
        assert(events.take(k) =~= events);
    } else {
        let front = events.drop_last();
        assert(front.take(k) =~= events.take(k));
        law_making_outcome_is_final(call, front, k);
    }
}

/// The step that goes wrong is why a call gets no store: mounts that cannot be
/// resolved, a component that is not in the workload when the components are read, a
/// linked component that is gone when it is to be prepared, or one that cannot be
/// prepared. Nothing that the host tells later changes it.
pub proof fn law_failed_making_is_the_refusal<P: ?Sized, L: ?Sized, T: ?Sized, H: ?Sized, C>(
    call: CallView<T, H>,
    events: Seq<EphemeralEvent<'_, P, L, C>>,
    k: int,
)
    requires
        0 <= k < events.len(),
    ensures
        ({
            let at = run(call, events.take(k));
            let end = run(call, events);
            &&& at is ResolveMounts ==> (events[k] matches EphemeralEvent::Failed(cause) ==> end
                == EphemeralStage::<P, L, T>::Refused(LinkError::Other { cause }))
            &&& at is ReadComponents ==> (events[k] matches EphemeralEvent::Components(c) ==> (
            loaded::<P, L, T, H, C>(call, c@) matches Err(e) ==> end == EphemeralStage::<
                P,
                L,
                T,
            >::Refused(e)))
            &&& at matches EphemeralStage::PreInstantiate(i, _) ==> {
                &&& events[k] is Missing ==> end == EphemeralStage::<P, L, T>::Refused(
                    LinkError::PreInstantiateNotFound { component_id: call.linked[i as int] },
                )
                &&& events[k] matches EphemeralEvent::Failed(cause) ==> end == EphemeralStage::<
                    P,
                    L,
                    T,
                >::Refused(LinkError::PreInstantiate { cause })
            }
        }),
{
    let upto = events.take(k + 1);
    assert(upto.drop_last() =~= events.take(k));
    assert(upto.last() == events[k]);
    if run(call, upto) is Refused {
        law_making_outcome_is_final(call, events, k + 1);
    }
}

/// An answer that the pending action cannot have leaves the making of a call's store
/// where it stands.
pub proof fn law_stray_making_answer_changes_nothing<P: ?Sized, L: ?Sized, T: ?Sized, H: ?Sized, C>(
    call: CallView<T, H>,
    events: Seq<EphemeralEvent<'_, P, L, C>>,
    event: EphemeralEvent<'_, P, L, C>,
)
    requires
        ({
            let at = run(call, events);
            ||| at is ResolveMounts && (event is Missing || event is Components)
            ||| at is ReadComponents && !(event is Components)
            ||| at is PreInstantiate && event is Components
        }),
    ensures
        run(call, events.push(event)) == run(call, events),
{
    assert(events.push(event).drop_last() =~= events);
}

/// A list holds the names at its places and no others, and an ascending one has them
/// in the order of names.
pub proof fn law_list_holds_its_names(ids: Seq<Arc<str>>, name: Seq<char>, i: int, j: int)
    ensures
        0 <= i < ids.len() ==> lists(ids, ids[i]@),
        (forall|m: int| 0 <= m < ids.len() ==> (#[trigger] ids[m])@ != name) ==> !lists(ids, name),
        ascending(ids) && 0 <= i < j < ids.len() ==> text_less(ids[i]@, ids[j]@),
{
}

/// A call is made from what was captured when its import was linked.
pub proof fn law_call_contents<T: ?Sized, H: ?Sized>(call: EphemeralLinkedCall<T, H>)
    ensures
        call@.http_handler == call.http_handler,
        call@.active == call.active_component_id,
        call@.linked == call.linked_component_ids@,
        call@.tls_provider == call.tls_provider,
{
}

/// What was loaded is the template of the component that is called and those of the
/// linked ones, in their order; or the error.
pub proof fn law_loaded_contents<P: ?Sized, L: ?Sized, T: ?Sized>(
    templates: LinkTemplates<P, L, T>,
    e: LinkError,
    i: int,
)
    ensures
        templates@.active == templates.active@,
        templates@.linked.len() == templates.linked@.len(),
        0 <= i < templates.linked@.len() ==> templates@.linked[i] == templates.linked@[i]@,
        templates_view::<P, L, T>(Ok(templates)) == Ok::<TemplatesView<P, L, T>, LinkError>(
            templates@,
        ),
        templates_view::<P, L, T>(Err(e)) == Err::<TemplatesView<P, L, T>, LinkError>(e),
{
}

} // verus!
