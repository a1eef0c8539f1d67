//! The raw-socket policy.
use std::sync::Arc;

use linked_call::sockets::{
    is_raw_egress, resolve_allow_raw_sockets, socket_addr_permitted, SocketAddrUse, SocketGuard,
    SocketVerdict,
};

// --- resolve_allow_raw_sockets: config > env > DENY; unparseable denies ---

#[test]
fn raw_sockets_denied_by_default() {
    assert!(!resolve_allow_raw_sockets(None, None));
}

#[test]
fn raw_sockets_config_true_allows() {
    assert!(resolve_allow_raw_sockets(Some("true"), None));
}

#[test]
fn raw_sockets_config_false_denies() {
    assert!(!resolve_allow_raw_sockets(Some("false"), None));
}

#[test]
fn raw_sockets_env_true_allows_when_config_absent() {
    assert!(resolve_allow_raw_sockets(None, Some("true")));
}

#[test]
fn raw_sockets_config_wins_over_env() {
    // A present config value short-circuits the env fallback: config `false`
    // denies even when the env var says `true`.
    assert!(!resolve_allow_raw_sockets(Some("false"), Some("true")));
}

#[test]
fn raw_sockets_unparseable_config_denies() {
    // Security floor: an unparseable config value denies (and, being present,
    // does not fall through to the env var).
    assert!(!resolve_allow_raw_sockets(Some("yes"), Some("true")));
}

#[test]
fn raw_sockets_unparseable_env_denies() {
    assert!(!resolve_allow_raw_sockets(None, Some("1")));
}

// --- socket_addr_permitted: bind posture ---

#[test]
fn tcp_bind_service_loopback_allowed() {
    assert!(socket_addr_permitted(
        SocketAddrUse::TcpBind,
        true,
        true,
        false
    ));
}

#[test]
fn tcp_bind_service_non_loopback_denied() {
    assert!(!socket_addr_permitted(
        SocketAddrUse::TcpBind,
        false,
        true,
        false
    ));
}

#[test]
fn tcp_bind_non_service_denied() {
    assert!(!socket_addr_permitted(
        SocketAddrUse::TcpBind,
        true,
        false,
        false
    ));
}

#[test]
fn udp_bind_service_loopback_allowed() {
    assert!(socket_addr_permitted(
        SocketAddrUse::UdpBind,
        true,
        true,
        false
    ));
}

#[test]
fn udp_bind_service_non_loopback_denied() {
    assert!(!socket_addr_permitted(
        SocketAddrUse::UdpBind,
        false,
        true,
        false
    ));
}

#[test]
fn udp_bind_non_service_denied() {
    assert!(!socket_addr_permitted(
        SocketAddrUse::UdpBind,
        true,
        false,
        false
    ));
}

// --- socket_addr_permitted: raw egress opt-in (TCP + UDP) ---

#[test]
fn tcp_connect_denied_by_default() {
    assert!(!socket_addr_permitted(
        SocketAddrUse::TcpConnect,
        false,
        false,
        false
    ));
}

#[test]
fn tcp_connect_allowed_when_opted_in() {
    assert!(socket_addr_permitted(
        SocketAddrUse::TcpConnect,
        false,
        false,
        true
    ));
}

#[test]
fn udp_connect_denied_by_default() {
    assert!(!socket_addr_permitted(
        SocketAddrUse::UdpConnect,
        false,
        false,
        false
    ));
}

#[test]
fn udp_connect_allowed_when_opted_in() {
    assert!(socket_addr_permitted(
        SocketAddrUse::UdpConnect,
        false,
        false,
        true
    ));
}

#[test]
fn udp_outgoing_datagram_denied_by_default() {
    assert!(!socket_addr_permitted(
        SocketAddrUse::UdpOutgoingDatagram,
        false,
        false,
        false
    ));
}

#[test]
fn udp_outgoing_datagram_allowed_when_opted_in() {
    assert!(socket_addr_permitted(
        SocketAddrUse::UdpOutgoingDatagram,
        false,
        false,
        true
    ));
}

#[test]
fn opt_in_does_not_widen_bind() {
    // The raw-egress opt-in must not relax the bind posture.
    assert!(!socket_addr_permitted(
        SocketAddrUse::UdpBind,
        false,
        true,
        true
    ));
    assert!(!socket_addr_permitted(
        SocketAddrUse::UdpBind,
        true,
        false,
        true
    ));
    assert!(!socket_addr_permitted(
        SocketAddrUse::TcpBind,
        false,
        true,
        true
    ));
}

// --- is_raw_egress: only the outbound-egress uses drive the warn-once ---

#[test]
fn is_raw_egress_classifies_only_egress() {
    assert!(is_raw_egress(SocketAddrUse::TcpConnect));
    assert!(is_raw_egress(SocketAddrUse::UdpConnect));
    assert!(is_raw_egress(SocketAddrUse::UdpOutgoingDatagram));
    assert!(!is_raw_egress(SocketAddrUse::TcpBind));
    assert!(!is_raw_egress(SocketAddrUse::UdpBind));
}

// --- SocketGuard: one warning per component ---

#[test]
fn guard_warns_once_of_denied_egress() {
    let mut guard = SocketGuard::new(Arc::from("guest"), false, false);
    assert!(!guard.denial_logged);
    let bind = guard.check(SocketAddrUse::TcpBind, true);
    assert_eq!(bind, SocketVerdict { permitted: false, warn: false });
    let first = guard.check(SocketAddrUse::UdpConnect, false);
    assert_eq!(first, SocketVerdict { permitted: false, warn: true });
    assert!(guard.denial_logged);
    let second = guard.check(SocketAddrUse::TcpConnect, true);
    assert_eq!(second, SocketVerdict { permitted: false, warn: false });
}

#[test]
fn guard_does_not_warn_where_egress_is_allowed() {
    let mut guard = SocketGuard::new(Arc::from("svc"), true, true);
    assert_eq!(
        guard.check(SocketAddrUse::UdpOutgoingDatagram, false),
        SocketVerdict { permitted: true, warn: false }
    );
    assert_eq!(
        guard.check(SocketAddrUse::UdpBind, true),
        SocketVerdict { permitted: true, warn: false }
    );
    assert_eq!(
        guard.check(SocketAddrUse::UdpBind, false),
        SocketVerdict { permitted: false, warn: false }
    );
    assert!(!guard.denial_logged);
    assert_eq!(&*guard.component_id, "svc");
}

#[test]
fn only_the_exact_word_opts_in() {
    assert!(!resolve_allow_raw_sockets(Some("True"), None));
    assert!(!resolve_allow_raw_sockets(Some(" true"), None));
    assert!(!resolve_allow_raw_sockets(Some(""), Some("true")));
    assert!(resolve_allow_raw_sockets(Some("true"), Some("false")));
    assert!(!resolve_allow_raw_sockets(None, Some("false")));
}

#[test]
fn egress_ignores_address_and_service() {
    assert!(!socket_addr_permitted(SocketAddrUse::TcpConnect, true, true, false));
    assert!(!socket_addr_permitted(SocketAddrUse::UdpConnect, true, true, false));
    assert!(socket_addr_permitted(SocketAddrUse::TcpConnect, true, true, true));
}
