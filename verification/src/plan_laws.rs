//! What the plan of a store says of each of its contexts and of its limits.
use std::sync::Arc;
use vstd::prelude::*;

use crate::ctx::{var_text, HostEnv};
use crate::error::LinkError;
use crate::limits::{law_limit_is_the_budget_in_bytes, mib_bytes, MemoryLimit};
use crate::sockets::SocketAddrUse;
use crate::store::{mounts_of, template_views, StorePlan};
use crate::template::{config_text, ComponentCtxTemplate, TemplateView};
use crate::text::u64_value;

verus! {

/// The active component runs under its own names, with the environment, the allowed
/// hosts, the plugins, the network and the TLS provider of its template, whether it is
/// a service or not.
pub proof fn law_active_context_is_its_templates<P: ?Sized, L: ?Sized, T: ?Sized, H: ?Sized>(
    plan: StorePlan<P, L, T, H>,
    store_id: Seq<char>,
    http_handler: Arc<H>,
    active: TemplateView<P, L, T>,
    linked: Seq<TemplateView<P, L, T>>,
    instances: Seq<Arc<str>>,
    is_service: bool,
    env: HostEnv,
)
    requires
        plan.made_for(store_id, http_handler, active, linked, instances, is_service, env),
    ensures
        plan.active.workload_id == active.workload_id,
        plan.active.component_id == active.component_id,
        plan.active.environment@ == active.local_resources.environment,
        plan.active.allowed_hosts@ == active.local_resources.allowed_hosts,
        plan.active.loopback == active.loopback,
        plan.active.tls_provider == active.tls_provider,
        plan.active.plugins is Some <==> active.plugins is Some,
        plan.active.plugins matches Some(plugins) ==> active.plugins == Some(plugins@),
        plan.active.http_handler == http_handler,
        plan.active.store_id@ == store_id,
        plan.active.sockets.component_id == active.component_id,
        plan.active.sockets.is_service == is_service,
        !plan.active.sockets.denial_logged,
{
    let view = plan.active@;
    assert(view.environment == plan.active.environment@);
    assert(view.allowed_hosts == plan.active.allowed_hosts@);
    assert(view.store_id == plan.active.store_id@);
    assert(view.sockets == plan.active.sockets);
}

/// Each linked component runs under its own names, with the environment, the allowed
/// hosts, the plugins, the network and the TLS provider of its own template, and never
/// as a service; there is one context for each, in their order.
pub proof fn law_linked_context_is_its_templates<P: ?Sized, L: ?Sized, T: ?Sized, H: ?Sized>(
    plan: StorePlan<P, L, T, H>,
    store_id: Seq<char>,
    http_handler: Arc<H>,
    active: TemplateView<P, L, T>,
    linked: Seq<TemplateView<P, L, T>>,
    instances: Seq<Arc<str>>,
    is_service: bool,
    env: HostEnv,
    i: int,
)
    requires
        plan.made_for(store_id, http_handler, active, linked, instances, is_service, env),
        0 <= i < linked.len(),
    ensures
        plan.linked@.len() == linked.len(),
        plan.linked@[i].workload_id == linked[i].workload_id,
        plan.linked@[i].component_id == linked[i].component_id,
        plan.linked@[i].environment@ == linked[i].local_resources.environment,
        plan.linked@[i].allowed_hosts@ == linked[i].local_resources.allowed_hosts,
        plan.linked@[i].loopback == linked[i].loopback,
        plan.linked@[i].tls_provider == linked[i].tls_provider,
        plan.linked@[i].plugins is Some <==> linked[i].plugins is Some,
        plan.linked@[i].plugins matches Some(plugins) ==> linked[i].plugins == Some(plugins@),
        plan.linked@[i].http_handler == http_handler,
        plan.linked@[i].store_id@ == store_id,
        plan.linked@[i].sockets.component_id == linked[i].component_id,
        !plan.linked@[i].sockets.is_service,
        !plan.linked@[i].sockets.denial_logged,
{
    let view = plan.linked@[i]@;
    assert(view.environment == plan.linked@[i].environment@);
    assert(view.allowed_hosts == plan.linked@[i].allowed_hosts@);
    assert(view.store_id == plan.linked@[i].store_id@);
    assert(view.sockets == plan.linked@[i].sockets);
}

/// A store has the name that it is made under, one context for each linked component
/// and the instances that were asked for, in their order; and its build goes by
/// exactly these, by the active component and by the refusal of its budget.
pub proof fn law_build_goes_by_the_plan<P: ?Sized, L: ?Sized, T: ?Sized, H: ?Sized>(
    plan: StorePlan<P, L, T, H>,
    store_id: Seq<char>,
    http_handler: Arc<H>,
    active: TemplateView<P, L, T>,
    linked: Seq<TemplateView<P, L, T>>,
    instances: Seq<Arc<str>>,
    is_service: bool,
    env: HostEnv,
)
    requires
        plan.made_for(store_id, http_handler, active, linked, instances, is_service, env),
    ensures
        plan.store_id@ == store_id,
        plan.linked@.len() == linked.len(),
        plan.instances@ == instances,
        plan.shape().linked == linked.len(),
        plan.shape().instances == instances,
        plan.shape().active_id == active.component_id,
        plan.shape().refusal is None <==> plan.memory_limit is Ok,
        plan.memory_limit matches Err(e) ==> plan.shape().refusal == Some(e),
{
    assert(plan.active@.component_id == plan.active.component_id);
}

/// The mounts of a row of templates are those of each template, one after the other:
/// none is left out, none is added, and their order stays.
pub proof fn law_mounts_follow_one_another<P: ?Sized, L: ?Sized, T: ?Sized>(
    some: Seq<TemplateView<P, L, T>>,
    more: Seq<TemplateView<P, L, T>>,
    one: TemplateView<P, L, T>,
)
    ensures
        mounts_of(Seq::<TemplateView<P, L, T>>::empty()).len() == 0,
        mounts_of(seq![one]) == one.volume_mounts,
        mounts_of(some + more) == mounts_of(some) + mounts_of(more),
    decreases more.len(),
{
    reveal_with_fuel(mounts_of, 2);
    assert(seq![one].drop_last() =~= Seq::<TemplateView<P, L, T>>::empty());
    assert(mounts_of(seq![one]) =~= one.volume_mounts);
    if more.len() == 0 {
        assert(some + more =~= some);
        assert(mounts_of(some) + mounts_of(more) =~= mounts_of(some));
    } else {
        law_mounts_follow_one_another(some, more.drop_last(), one);
        assert((some + more).drop_last() =~= some + more.drop_last());
        assert(mounts_of(some + more) =~= mounts_of(some) + mounts_of(more));
    }
}

/// Every context of a store, of the active component and of each linked one, opens
/// every directory that one of them mounts: those of the active component first, then
/// those of the linked ones, and no others.
pub proof fn law_every_mount_is_open<P: ?Sized, L: ?Sized, T: ?Sized, H: ?Sized>(
    plan: StorePlan<P, L, T, H>,
    store_id: Seq<char>,
    http_handler: Arc<H>,
    active: TemplateView<P, L, T>,
    linked: Seq<TemplateView<P, L, T>>,
    instances: Seq<Arc<str>>,
    is_service: bool,
    env: HostEnv,
    i: int,
    m: int,
)
    requires
        plan.made_for(store_id, http_handler, active, linked, instances, is_service, env),
    ensures
        plan.active.preopens@.take(active.volume_mounts.len() as int) == active.volume_mounts,
        plan.active.preopens@.skip(active.volume_mounts.len() as int) == mounts_of(linked),
        plan.active.preopens@.len() == active.volume_mounts.len() + mounts_of(linked).len(),
        0 <= i < linked.len() ==> plan.linked@[i].preopens@ == plan.active.preopens@,
        0 <= i < linked.len() && 0 <= m < linked[i].volume_mounts.len()
            ==> plan.active.preopens@.contains(linked[i].volume_mounts[m]),
{
    let n = active.volume_mounts.len() as int;
    assert(plan.active@.preopens == plan.active.preopens@);
    assert(plan.active.preopens@.take(n) =~= active.volume_mounts);
    assert(plan.active.preopens@.skip(n) =~= mounts_of(linked));
    if 0 <= i < linked.len() {
        assert(plan.linked@[i]@.preopens == plan.linked@[i].preopens@);
        if 0 <= m < linked[i].volume_mounts.len() {
            let before = linked.take(i);
            let after = linked.skip(i + 1);
            assert(linked =~= before + seq![linked[i]] + after);
            law_mounts_follow_one_another(before + seq![linked[i]], after, linked[i]);
            law_mounts_follow_one_another(before, seq![linked[i]], linked[i]);
            let at = n + mounts_of(before).len() + m;
            assert(plan.active.preopens@[at] == linked[i].volume_mounts[m]);
        }
    }
}

/// The templates of a row are those of its components, one for one.
pub proof fn law_templates_keep_their_places<P: ?Sized, L: ?Sized, T: ?Sized>(
    templates: Seq<ComponentCtxTemplate<P, L, T>>,
    i: int,
)
    requires
        0 <= i < templates.len(),
    ensures
        template_views(templates).len() == templates.len(),
        template_views(templates)[i] == templates[i]@,
{
}

/// The memory of a store is limited to its budget. The budget is what the workload
/// sets with a positive number; else what the active component's
/// `wamn.memory-limit-mb` gives, if it is a number; else what the host's variable
/// gives, if it is one. The limit is charged to the active component. A budget above
/// a ceiling that the host tells as a number is no limit but the refusal of the store,
/// with both sizes.
pub proof fn law_store_memory_is_limited_to_its_budget<
    P: ?Sized,
    L: ?Sized,
    T: ?Sized,
    H: ?Sized,
>(
    plan: StorePlan<P, L, T, H>,
    store_id: Seq<char>,
    http_handler: Arc<H>,
    active: TemplateView<P, L, T>,
    linked: Seq<TemplateView<P, L, T>>,
    instances: Seq<Arc<str>>,
    is_service: bool,
    env: HostEnv,
    mb: u64,
)
    requires
        plan.made_for(store_id, http_handler, active, linked, instances, is_service, env),
        ({
            let own = active.local_resources.memory_limit_mb;
            let config = config_text(active.local_resources, "wamn.memory-limit-mb"@);
            let var = var_text(env.memory_limit_mb);
            ||| own > 0 && mb == own
            ||| own <= 0 && (config matches Some(c) && u64_value(c) == Some(mb))
            ||| own <= 0 && (config matches Some(c) ==> u64_value(c) is None) && (
            var matches Some(v) && u64_value(v) == Some(mb))
        }),
    ensures
        ({
            let ceiling = var_text(env.memory_ceiling_mb);
            &&& (ceiling matches Some(c) ==> (u64_value(c) matches Some(max) ==> mb <= max)) ==> (
            plan.memory_limit matches Ok(Some(limit)) && limit.component_id == active.component_id
                && limit.bytes == mib_bytes(mb) && (mb * 0x10_0000 <= usize::MAX ==> limit.bytes
                == mb * 0x10_0000))
            &&& ceiling matches Some(c) ==> (u64_value(c) matches Some(max) ==> (mb > max
                ==> plan.memory_limit == Err::<Option<MemoryLimit>, LinkError>(
                LinkError::BudgetExceedsCeiling {
                    component_id: active.component_id,
                    budget_mb: mb,
                    ceiling_mb: max,
                },
            )))
        }),
{
    if mb * 0x10_0000 <= usize::MAX {
        law_limit_is_the_budget_in_bytes(mb);
    }
}

/// A store without a budget has no memory limit and is not refused for one, whatever
/// the ceiling: the workload sets no positive number, and neither the configuration nor
/// the host's variable gives a number.
pub proof fn law_store_without_budget_is_not_limited<P: ?Sized, L: ?Sized, T: ?Sized, H: ?Sized>(
    plan: StorePlan<P, L, T, H>,
    store_id: Seq<char>,
    http_handler: Arc<H>,
    active: TemplateView<P, L, T>,
    linked: Seq<TemplateView<P, L, T>>,
    instances: Seq<Arc<str>>,
    is_service: bool,
    env: HostEnv,
)
    requires
        plan.made_for(store_id, http_handler, active, linked, instances, is_service, env),
        active.local_resources.memory_limit_mb <= 0,
        config_text(active.local_resources, "wamn.memory-limit-mb"@) matches Some(c) ==> u64_value(
            c,
        ) is None,
        var_text(env.memory_limit_mb) matches Some(v) ==> u64_value(v) is None,
    ensures
        plan.memory_limit matches Ok(None),
{
}

/// The deadline of a store is the number of the active component's
/// `wamn.epoch-deadline-ticks`; else the number of the host's variable; else half the
/// range. No other component's configuration bears on it.
pub proof fn law_store_deadline_is_the_active_components<
    P: ?Sized,
    L: ?Sized,
    T: ?Sized,
    H: ?Sized,
>(
    plan: StorePlan<P, L, T, H>,
    store_id: Seq<char>,
    http_handler: Arc<H>,
    active: TemplateView<P, L, T>,
    linked: Seq<TemplateView<P, L, T>>,
    instances: Seq<Arc<str>>,
    is_service: bool,
    env: HostEnv,
)
    requires
        plan.made_for(store_id, http_handler, active, linked, instances, is_service, env),
    ensures
        ({
            let config = config_text(active.local_resources, "wamn.epoch-deadline-ticks"@);
            let var = var_text(env.epoch_deadline_ticks);
            let configured = match config {
                Some(c) => u64_value(c),
                None => None,
            };
            let from_host = match var {
                Some(v) => u64_value(v),
                None => None,
            };
            &&& configured matches Some(n) ==> plan.epoch_deadline_ticks == n
            &&& configured is None ==> (from_host matches Some(n) ==> plan.epoch_deadline_ticks
                == n)
            &&& configured is None && from_host is None ==> plan.epoch_deadline_ticks == u64::MAX
                / 2
        }),
{
}

/// The active component of a store, a service or not, gets raw egress exactly where its
/// own configuration spells `true`, or says nothing and the host's variable does; it
/// binds exactly where it is a service, on loopback.
pub proof fn law_socket_policy_of_the_active_component<
    P: ?Sized,
    L: ?Sized,
    T: ?Sized,
    H: ?Sized,
>(
    plan: StorePlan<P, L, T, H>,
    store_id: Seq<char>,
    http_handler: Arc<H>,
    active: TemplateView<P, L, T>,
    linked: Seq<TemplateView<P, L, T>>,
    instances: Seq<Arc<str>>,
    is_service: bool,
    env: HostEnv,
    reason: SocketAddrUse,
    ip_is_loopback: bool,
)
    requires
        plan.made_for(store_id, http_handler, active, linked, instances, is_service, env),
    ensures
        ({
            let var = var_text(env.allow_raw_sockets);
            let config = config_text(active.local_resources, "wamn.allow-raw-sockets"@);
            let opt_in = config == Some("true"@) || (config is None && var == Some("true"@));
            let may = plan.active.sockets.verdict(reason, ip_is_loopback).permitted;
            &&& reason is TcpConnect || reason is UdpConnect || reason is UdpOutgoingDatagram ==> (
            may <==> opt_in)
            &&& reason is TcpBind || reason is UdpBind ==> (may <==> is_service && ip_is_loopback)
        }),
{
    assert(plan.active@.sockets == plan.active.sockets);
}

/// A linked component gets raw egress exactly where its own configuration spells
/// `true`, or says nothing and the host's variable does, whatever the active component
/// is and has; and it never binds.
pub proof fn law_socket_policy_of_a_linked_component<
    P: ?Sized,
    L: ?Sized,
    T: ?Sized,
    H: ?Sized,
>(
    plan: StorePlan<P, L, T, H>,
    store_id: Seq<char>,
    http_handler: Arc<H>,
    active: TemplateView<P, L, T>,
    linked: Seq<TemplateView<P, L, T>>,
    instances: Seq<Arc<str>>,
    is_service: bool,
    env: HostEnv,
    i: int,
    reason: SocketAddrUse,
    ip_is_loopback: bool,
)
    requires
        plan.made_for(store_id, http_handler, active, linked, instances, is_service, env),
        0 <= i < linked.len(),
    ensures
        ({
            let var = var_text(env.allow_raw_sockets);
            let config = config_text(linked[i].local_resources, "wamn.allow-raw-sockets"@);
            let opt_in = config == Some("true"@) || (config is None && var == Some("true"@));
            let may = plan.linked@[i].sockets.verdict(reason, ip_is_loopback).permitted;
            &&& reason is TcpConnect || reason is UdpConnect || reason is UdpOutgoingDatagram ==> (
            may <==> opt_in)
            &&& reason is TcpBind || reason is UdpBind ==> !may
        }),
{
    assert(plan.linked@[i]@.sockets == plan.linked@[i].sockets);
}

} // verus!
