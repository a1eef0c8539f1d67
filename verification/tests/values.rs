//! Text, settings, maps and limits.
use std::sync::Arc;

use linked_call::error::LinkError;
use linked_call::limits::{
    resolve_epoch_deadline, resolve_memory_budget, resolve_memory_limit, EPOCH_DEADLINE_KEY,
    EPOCH_DEADLINE_VAR, MEMORY_CEILING_VAR, MEMORY_LIMIT_KEY, MEMORY_LIMIT_VAR,
    UNBOUNDED_EPOCH_TICKS,
};
use linked_call::sockets::{ALLOW_RAW_SOCKETS_KEY, ALLOW_RAW_SOCKETS_VAR};
use linked_call::str_map::StrMap;
use linked_call::text::{append_decimal, parse_bool, parse_u64, text_before, text_eq};

const NUMBERS: [&str; 20] = [
    "0",
    "7",
    "42",
    "+42",
    "007",
    "+",
    "-1",
    "-0",
    "",
    " 1",
    "1 ",
    "1_000",
    "0x10",
    "++1",
    "1+",
    "18446744073709551615",
    "18446744073709551616",
    "00000000000000000000000000000000000018446744073709551615",
    "99999999999999999999999999",
    "\u{664}\u{662}",
];

#[test]
fn numbers_read_as_the_standard_library_reads_them() {
    for s in NUMBERS {
        assert_eq!(parse_u64(s), s.parse::<u64>().ok(), "{s:?}");
    }
    assert_eq!(parse_u64("+42"), Some(42));
    assert_eq!(parse_u64("18446744073709551616"), None);
}

#[test]
fn booleans_read_as_the_standard_library_reads_them() {
    for s in ["true", "false", "True", "", "1", "yes", " true", "true\n", "tru\u{435}"] {
        assert_eq!(parse_bool(s), s.parse::<bool>().ok(), "{s:?}");
    }
    assert_eq!(parse_bool("true"), Some(true));
    assert_eq!(parse_bool("false"), Some(false));
}

#[test]
fn texts_are_ordered_as_the_standard_library_orders_them() {
    let words = ["", "a", "ab", "b", "B", "\u{e9}", "e", "z", "\u{1f600}", "\u{ffff}", "a\0"];
    for a in words {
        for b in words {
            assert_eq!(text_eq(a, b), a == b, "{a:?} {b:?}");
            assert_eq!(text_before(a, b), a < b, "{a:?} {b:?}");
        }
    }
}

#[test]
fn numbers_are_written_in_decimal() {
    for n in [0u64, 1, 9, 10, 100, 600, 1234567890, u64::MAX] {
        let mut out = String::from("n=");
        append_decimal(&mut out, n);
        assert_eq!(out, format!("n={n}"));
    }
}

#[test]
fn map_keeps_one_value_per_key() {
    let mut m: StrMap<u32> = StrMap::new();
    assert_eq!(m.len(), 0);
    assert!(m.get("a").is_none());
    m.insert(Arc::from("a"), 1);
    m.insert(Arc::from("b"), 2);
    m.insert(Arc::from("a"), 3);
    assert_eq!(m.len(), 2);
    assert_eq!(m.get("a"), Some(&3));
    assert_eq!(m.get("b"), Some(&2));
    assert_eq!(m.get("c"), None);
    assert_eq!(m.entry(0), (&Arc::from("a"), &3));
    assert_eq!(m.entry(1), (&Arc::from("b"), &2));
}

#[test]
fn shared_map_has_the_same_values() {
    let mut m: StrMap<Arc<str>> = StrMap::new();
    let v: Arc<str> = Arc::from("value");
    m.insert(Arc::from("key"), v.clone());
    let s = m.share();
    assert_eq!(s.len(), 1);
    assert!(Arc::ptr_eq(s.get("key").unwrap(), &v));
}

#[test]
fn keys_and_variables() {
    assert_eq!(ALLOW_RAW_SOCKETS_KEY, "wamn.allow-raw-sockets");
    assert_eq!(ALLOW_RAW_SOCKETS_VAR, "WAMN_ALLOW_RAW_SOCKETS");
    assert_eq!(EPOCH_DEADLINE_KEY, "wamn.epoch-deadline-ticks");
    assert_eq!(EPOCH_DEADLINE_VAR, "WAMN_EPOCH_DEADLINE_TICKS");
    assert_eq!(MEMORY_LIMIT_KEY, "wamn.memory-limit-mb");
    assert_eq!(MEMORY_LIMIT_VAR, "WAMN_MEMORY_LIMIT_MB");
    assert_eq!(MEMORY_CEILING_VAR, "WAMN_MEMORY_CEILING_MB");
    assert_eq!(UNBOUNDED_EPOCH_TICKS, u64::MAX / 2);
}

#[test]
fn epoch_deadline_by_config_then_env_then_unbounded() {
    assert_eq!(resolve_epoch_deadline(Some("5"), Some("9")), 5);
    assert_eq!(resolve_epoch_deadline(None, Some("9")), 9);
    assert_eq!(resolve_epoch_deadline(Some("soon"), Some("9")), 9);
    assert_eq!(resolve_epoch_deadline(Some("soon"), Some("later")), u64::MAX / 2);
    assert_eq!(resolve_epoch_deadline(None, None), u64::MAX / 2);
    assert_eq!(resolve_epoch_deadline(Some("0"), Some("9")), 0);
}

#[test]
fn memory_budget_by_workload_then_config_then_env() {
    assert_eq!(resolve_memory_budget(64, Some("5"), Some("9")), Some(64));
    assert_eq!(resolve_memory_budget(0, Some("5"), Some("9")), Some(5));
    assert_eq!(resolve_memory_budget(-1, Some("5"), Some("9")), Some(5));
    assert_eq!(resolve_memory_budget(0, Some("five"), Some("9")), Some(9));
    assert_eq!(resolve_memory_budget(0, None, Some("nine")), None);
    assert_eq!(resolve_memory_budget(0, None, None), None);
}

#[test]
fn memory_limit_is_the_budget_or_an_error() {
    let id: Arc<str> = Arc::from("guest");
    assert!(resolve_memory_limit(&id, None, Some("1")).unwrap().is_none());
    for ceiling in [None, Some("64"), Some("65"), Some("plenty")] {
        let limit = resolve_memory_limit(&id, Some(64), ceiling).unwrap().unwrap();
        assert_eq!(limit.bytes, 64 << 20);
        assert_eq!(&*limit.component_id, "guest");
    }
    let err = resolve_memory_limit(&id, Some(64), Some("63")).unwrap_err();
    assert!(matches!(
        err,
        LinkError::BudgetExceedsCeiling { budget_mb: 64, ceiling_mb: 63, .. }
    ));
    assert_eq!(
        err.message(),
        "component 'guest': wamn memory budget 64 MiB exceeds the host ceiling 63 MiB \
         (pooling max_memory_size); lower the budget or raise the ceiling"
    );
}

#[test]
fn memory_limit_wraps_as_a_shift_does() {
    let id: Arc<str> = Arc::from("guest");
    for mb in [1u64, 4096, u64::MAX, (1 << 44) + 1] {
        let limit = resolve_memory_limit(&id, Some(mb), None).unwrap().unwrap();
        assert_eq!(limit.bytes, (mb as usize) << 20);
    }
}

fn id(s: &str) -> Arc<str> {
    Arc::from(s)
}

#[test]
fn error_messages() {
    let cases: Vec<(LinkError, &str)> = vec![
        (
            LinkError::ActiveNotFound { component_id: id("a") },
            "ephemeral linked component 'a' not found",
        ),
        (LinkError::LinkedNotFound { component_id: id("b") }, "linked component 'b' not found"),
        (
            LinkError::PreInstantiate { cause: "boom".to_string() },
            "failed to pre-instantiate linked components for ephemeral call: boom",
        ),
        (
            LinkError::PreInstantiateNotFound { component_id: id("b") },
            "failed to pre-instantiate linked components for ephemeral call: \
             linked component 'b' not found",
        ),
        (
            LinkError::Instantiate { component_id: id("b"), cause: "boom".to_string() },
            "failed to instantiate linked component 'b' in ephemeral store: boom",
        ),
        (
            LinkError::NotPreInstantiated { component_id: id("b") },
            "linked component 'b' was not pre-instantiated in this store",
        ),
        (LinkError::FuncNotFound, "function not found"),
        (
            LinkError::ImportFuncNotFound { import_name: id("ns:pkg/i"), export_name: id("f") },
            "function not found for linked import ns:pkg/i.f",
        ),
        (
            LinkError::TimedOut { secs: 30, cause: "deadline has elapsed".to_string() },
            "function call timed out after 30 seconds: deadline has elapsed",
        ),
        (
            LinkError::TaskFailed { cause: "cancelled".to_string() },
            "ephemeral linked call task failed: cancelled",
        ),
        (LinkError::ResultIndexOutOfBounds, "result index out of bounds"),
        (LinkError::Other { cause: "as it stands".to_string() }, "as it stands"),
    ];
    for (error, message) in cases {
        assert_eq!(error.message(), message);
        assert_eq!(error.share().message(), message);
    }
}
