//! The raw-socket policy of a component.
//!
//! Sockets are linked into every component, and the egress allowlist governs
//! outgoing HTTP only. Binding is for services, on loopback; raw egress is denied
//! unless the workload opts in.
use std::sync::Arc;
use vstd::prelude::*;

use crate::template::opt_text;
use crate::text::{bool_value, parse_bool};

verus! {

/// What a guest wants to do with a socket address.
#[derive(Clone, Copy, Debug, PartialEq, Eq, Structural)]
pub enum SocketAddrUse {
    TcpBind,
    TcpConnect,
    UdpBind,
    UdpConnect,
    UdpOutgoingDatagram,
}

/// The configuration key of the raw-socket opt-in.
pub const ALLOW_RAW_SOCKETS_KEY: &'static str = "wamn.allow-raw-sockets";

/// The environment variable of the raw-socket opt-in.
pub const ALLOW_RAW_SOCKETS_VAR: &'static str = "WAMN_ALLOW_RAW_SOCKETS";

/// Whether the opt-in is given: the configuration value decides where there is
/// one, else the environment does, else it is not. A value that is no boolean
/// gives none.
pub open spec fn raw_sockets_allowed(config: Option<Seq<char>>, env: Option<Seq<char>>) -> bool {
    match config {
        Some(v) => bool_value(v) == Some(true),
        None => match env {
            Some(v) => bool_value(v) == Some(true),
            None => false,
        },
    }
}

/// Resolves the raw-socket opt-in of a component.
pub fn resolve_allow_raw_sockets(config: Option<&str>, env: Option<&str>) -> (r: bool)
    ensures
        r == raw_sockets_allowed(opt_text(config), opt_text(env)),
{
    let value = match config {
        Some(v) => Some(v),
        None => env,
    };
    match value {
        Some(v) => match parse_bool(v) {
            Some(b) => b,
            None => false,
        },
        None => false,
    }
}

/// The uses that bind a socket.
pub open spec fn binds(reason: SocketAddrUse) -> bool {
    reason is TcpBind || reason is UdpBind
}

/// The socket policy: a service may bind on loopback, and nobody else may bind;
/// every other use is raw egress and needs the opt-in.
pub open spec fn permitted(
    reason: SocketAddrUse,
    ip_is_loopback: bool,
    is_service: bool,
    allow_raw_sockets: bool,
) -> bool {
    if binds(reason) {
        is_service && ip_is_loopback
    } else {
        allow_raw_sockets
    }
}

/// Whether the policy lets a component use an address.
pub fn socket_addr_permitted(
    reason: SocketAddrUse,
    ip_is_loopback: bool,
    is_service: bool,
    allow_raw_sockets: bool,
) -> (r: bool)
    ensures
        r == permitted(reason, ip_is_loopback, is_service, allow_raw_sockets),
{
    match reason {
        SocketAddrUse::TcpBind | SocketAddrUse::UdpBind => is_service && ip_is_loopback,
        SocketAddrUse::TcpConnect
        | SocketAddrUse::UdpConnect
        | SocketAddrUse::UdpOutgoingDatagram => allow_raw_sockets,
    }
}

/// True for the outbound uses that the opt-in governs.
pub fn is_raw_egress(reason: SocketAddrUse) -> (r: bool)
    ensures
        r == !binds(reason),
        r == (reason is TcpConnect || reason is UdpConnect || reason is UdpOutgoingDatagram),
{
    matches!(
        reason,
        SocketAddrUse::TcpConnect | SocketAddrUse::UdpConnect | SocketAddrUse::UdpOutgoingDatagram
    )
}

/// The answer to one use of an address.
#[derive(Clone, Copy, Debug, PartialEq, Eq, Structural)]
pub struct SocketVerdict {
    pub permitted: bool,
    /// The operator is to be told of the denial.
    pub warn: bool,
}

/// Checks the socket uses of one component, and has the operator warned of the
/// first raw egress that it denies.
pub struct SocketGuard {
    pub component_id: Arc<str>,
    pub is_service: bool,
    pub allow_raw_sockets: bool,
    /// A denial of raw egress was reported.
    pub denial_logged: bool,
}

impl SocketGuard {
    /// The guard refuses this use, and the use is raw egress.
    pub open spec fn denies_egress(self, reason: SocketAddrUse) -> bool {
        !binds(reason) && !self.allow_raw_sockets
    }

    /// The guard's answer to a use.
    pub open spec fn verdict(self, reason: SocketAddrUse, ip_is_loopback: bool) -> SocketVerdict {
        SocketVerdict {
            permitted: permitted(reason, ip_is_loopback, self.is_service, self.allow_raw_sockets),
            warn: self.denies_egress(reason) && !self.denial_logged,
        }
    }

    /// The guard after a use: a denied egress counts as reported from then on.
    pub open spec fn after(self, reason: SocketAddrUse) -> SocketGuard {
        SocketGuard { denial_logged: self.denial_logged || self.denies_egress(reason), ..self }
    }

    /// A guard that has refused nothing yet.
    pub fn new(component_id: Arc<str>, is_service: bool, allow_raw_sockets: bool) -> (r: Self)
        ensures
            r == (SocketGuard { component_id, is_service, allow_raw_sockets, denial_logged: false }),
    {
        SocketGuard { component_id, is_service, allow_raw_sockets, denial_logged: false }
    }

    /// Decides one use of an address.
    pub fn check(&mut self, reason: SocketAddrUse, ip_is_loopback: bool) -> (verdict: SocketVerdict)
        ensures
            verdict == old(self).verdict(reason, ip_is_loopback),
            *final(self) == old(self).after(reason),
            verdict.permitted == if reason is TcpBind || reason is UdpBind {
                old(self).is_service && ip_is_loopback
            } else {
                old(self).allow_raw_sockets
            },
            verdict.warn <==> !verdict.permitted && !(reason is TcpBind) && !(reason is UdpBind)
                && !old(self).denial_logged,
    {
        let permitted = socket_addr_permitted(
            reason,
            ip_is_loopback,
            self.is_service,
            self.allow_raw_sockets,
        );
        let mut warn = false;
        if !permitted && is_raw_egress(reason) {
            warn = !self.denial_logged;
            self.denial_logged = true;
        }
        SocketVerdict { permitted, warn }
    }
}

/// The guard after a row of uses, each with whether its address is loopback.
pub open spec fn guard_after(guard: SocketGuard, uses: Seq<(SocketAddrUse, bool)>) -> SocketGuard
    decreases uses.len(),
{
    if uses.len() == 0 {
        guard
    } else {
        guard_after(guard, uses.drop_last()).after(uses.last().0)
    }
}

/// How many warnings a guard gives over a row of uses.
pub open spec fn warnings(guard: SocketGuard, uses: Seq<(SocketAddrUse, bool)>) -> nat
    decreases uses.len(),
{
    if uses.len() == 0 {
        0
    } else {
        let u = uses.last();
        let before = guard_after(guard, uses.drop_last());
        warnings(guard, uses.drop_last()) + if before.verdict(u.0, u.1).warn {
            1nat
        } else {
            0nat
        }
    }
}

/// A configuration value shuts the environment out, whatever it says.
pub proof fn law_config_wins_over_env(
    config: Seq<char>,
    env: Option<Seq<char>>,
    other: Option<Seq<char>>,
)
    ensures
        raw_sockets_allowed(Some(config), env) == raw_sockets_allowed(Some(config), other),
{
}

/// The opt-in is closed by default: without a value that spells `true` there is
/// none.
pub proof fn law_raw_sockets_need_a_literal_true(
    config: Option<Seq<char>>,
    env: Option<Seq<char>>,
)
    ensures
        raw_sockets_allowed(config, env) ==> config == Some("true"@) || (config is None && env
            == Some("true"@)),
        raw_sockets_allowed(Some("true"@), env),
        raw_sockets_allowed(None, Some("true"@)),
        !raw_sockets_allowed(None, None),
{
}

/// Only a service binds, only on loopback, and the raw-egress opt-in changes
/// nothing about that.
pub proof fn law_opt_in_does_not_widen_bind(
    reason: SocketAddrUse,
    ip_is_loopback: bool,
    is_service: bool,
    opt_in: bool,
    other_opt_in: bool,
)
    requires
        binds(reason),
    ensures
        permitted(reason, ip_is_loopback, is_service, opt_in) == permitted(
            reason,
            ip_is_loopback,
            is_service,
            other_opt_in,
        ),
        permitted(reason, ip_is_loopback, is_service, opt_in) ==> is_service && ip_is_loopback,
{
}

/// Raw egress goes by the opt-in alone: neither the address nor the kind of
/// component opens it.
pub proof fn law_raw_egress_goes_by_the_opt_in(
    reason: SocketAddrUse,
    ip_is_loopback: bool,
    is_service: bool,
    opt_in: bool,
)
    requires
        !binds(reason),
    ensures
        permitted(reason, ip_is_loopback, is_service, opt_in) == opt_in,
{
}

/// TCP and UDP are under the same policy.
pub proof fn law_udp_mirrors_tcp(ip_is_loopback: bool, is_service: bool, opt_in: bool)
    ensures
        permitted(SocketAddrUse::UdpBind, ip_is_loopback, is_service, opt_in) == permitted(
            SocketAddrUse::TcpBind,
            ip_is_loopback,
            is_service,
            opt_in,
        ),
        permitted(SocketAddrUse::UdpConnect, ip_is_loopback, is_service, opt_in) == permitted(
            SocketAddrUse::TcpConnect,
            ip_is_loopback,
            is_service,
            opt_in,
        ),
        permitted(SocketAddrUse::UdpOutgoingDatagram, ip_is_loopback, is_service, opt_in)
            == permitted(SocketAddrUse::TcpConnect, ip_is_loopback, is_service, opt_in),
{
}

/// A guard warns once: over any row of uses a fresh guard gives one warning if it
/// denied some raw egress, and else none. The rest of the guard never changes.
pub proof fn law_guard_warns_once(guard: SocketGuard, uses: Seq<(SocketAddrUse, bool)>)
    requires
        !guard.denial_logged,
    ensures
        warnings(guard, uses) == if exists|i: int|
            0 <= i < uses.len() && !guard.allow_raw_sockets && !((#[trigger] uses[i]).0 is TcpBind)
                && !(uses[i].0 is UdpBind) {
            1nat
        } else {
            0nat
        },
        guard_after(guard, uses) == (SocketGuard {
            denial_logged: warnings(guard, uses) == 1,
            ..guard
        }),
    decreases uses.len(),
{
    if uses.len() > 0 {
        let front = uses.drop_last();
        law_guard_warns_once(guard, front);
        let n = uses.len() - 1;
        assert(uses[n] == uses.last());
        assert(forall|i: int| 0 <= i < front.len() ==> #[trigger] uses[i] == front[i]);
        if exists|i: int|
            0 <= i < front.len() && !guard.allow_raw_sockets && !((#[trigger] front[i]).0 is TcpBind)
                && !(front[i].0 is UdpBind) {
            let i = choose|i: int|
                0 <= i < front.len() && !guard.allow_raw_sockets && !((
                #[trigger] front[i]).0 is TcpBind) && !(front[i].0 is UdpBind);
            assert(uses[i] == front[i]);
        }
    }
}

/// What a guard permits does not depend on what it has seen.
pub proof fn law_guard_answers_alike(
    guard: SocketGuard,
    uses: Seq<(SocketAddrUse, bool)>,
    reason: SocketAddrUse,
    ip_is_loopback: bool,
)
    ensures
        guard_after(guard, uses).verdict(reason, ip_is_loopback).permitted == guard.verdict(
            reason,
            ip_is_loopback,
        ).permitted,
    decreases uses.len(),
{
    if uses.len() > 0 {
        law_guard_answers_alike(guard, uses.drop_last(), reason, ip_is_loopback);
    }
}

/// What a guard answers goes by its own fields and the use alone. Egress, TCP or UDP,
/// is permitted exactly where the guard has the opt-in, for a service and for any other
/// component, on loopback and off it. A bind is permitted exactly to a service on
/// loopback. The operator is warned exactly of an egress that is refused while none
/// was reported before, and a use changes nothing of the guard but that it was.
pub proof fn law_guard_keeps_the_policy(
    guard: SocketGuard,
    reason: SocketAddrUse,
    ip_is_loopback: bool,
)
    ensures
        ({
            let verdict = guard.verdict(reason, ip_is_loopback);
            let egress = match reason {
                SocketAddrUse::TcpConnect => true,
                SocketAddrUse::UdpConnect => true,
                SocketAddrUse::UdpOutgoingDatagram => true,
                SocketAddrUse::TcpBind => false,
                SocketAddrUse::UdpBind => false,
            };
            &&& egress ==> verdict.permitted == guard.allow_raw_sockets
            &&& !egress ==> verdict.permitted == (guard.is_service && ip_is_loopback)
            &&& verdict.warn <==> egress && !verdict.permitted && !guard.denial_logged
            &&& guard.after(reason).denial_logged <==> guard.denial_logged || (egress
                && !guard.allow_raw_sockets)
            &&& guard.after(reason).allow_raw_sockets == guard.allow_raw_sockets
            &&& guard.after(reason).is_service == guard.is_service
            &&& guard.after(reason).component_id == guard.component_id
        }),
{
}

/// A guard answers as the bare policy does, and the uses that it reports are those
/// that are no bind.
pub proof fn law_guard_and_policy_agree(
    guard: SocketGuard,
    reason: SocketAddrUse,
    ip_is_loopback: bool,
)
    ensures
        guard.verdict(reason, ip_is_loopback).permitted == permitted(
            reason,
            ip_is_loopback,
            guard.is_service,
            guard.allow_raw_sockets,
        ),
        binds(SocketAddrUse::TcpBind),
        binds(SocketAddrUse::UdpBind),
        !binds(SocketAddrUse::TcpConnect),
        !binds(SocketAddrUse::UdpConnect),
        !binds(SocketAddrUse::UdpOutgoingDatagram),
        guard.denies_egress(reason) <==> !binds(reason) && !guard.verdict(
            reason,
            ip_is_loopback,
        ).permitted,
{
}

/// The kind of a component opens no egress and shuts none, and the opt-in opens no
/// bind and shuts none: guards that differ in the one answer alike where only the
/// other counts.
pub proof fn law_service_and_opt_in_are_apart(
    a: SocketGuard,
    b: SocketGuard,
    reason: SocketAddrUse,
    ip_is_loopback: bool,
    other_address: bool,
)
    ensures
        a.allow_raw_sockets == b.allow_raw_sockets && (reason is TcpConnect || reason is UdpConnect
            || reason is UdpOutgoingDatagram) ==> a.verdict(reason, ip_is_loopback).permitted
            == b.verdict(reason, other_address).permitted,
        a.is_service == b.is_service && (reason is TcpBind || reason is UdpBind) ==> a.verdict(
            reason,
            ip_is_loopback,
        ).permitted == b.verdict(reason, ip_is_loopback).permitted,
{
}

} // verus!
