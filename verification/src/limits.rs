//! The limits of a store: how long a guest may run and how much memory it may take.
use std::sync::Arc;
use vstd::arithmetic::div_mod::{
    lemma_fundamental_div_mod, lemma_mod_multiples_basic, lemma_small_mod,
};
use vstd::prelude::*;

use crate::error::LinkError;
use crate::sockets::{ALLOW_RAW_SOCKETS_KEY, ALLOW_RAW_SOCKETS_VAR};
use crate::template::opt_text;
use crate::text::{parse_u64, u64_value};

verus! {

/// The configuration key of the epoch deadline.
pub const EPOCH_DEADLINE_KEY: &'static str = "wamn.epoch-deadline-ticks";

/// The environment variable of the epoch deadline.
pub const EPOCH_DEADLINE_VAR: &'static str = "WAMN_EPOCH_DEADLINE_TICKS";

/// The configuration key of the memory budget.
pub const MEMORY_LIMIT_KEY: &'static str = "wamn.memory-limit-mb";

/// The environment variable of the memory budget.
pub const MEMORY_LIMIT_VAR: &'static str = "WAMN_MEMORY_LIMIT_MB";

/// The environment variable by which a host tells its memory ceiling.
pub const MEMORY_CEILING_VAR: &'static str = "WAMN_MEMORY_CEILING_MB";

/// A deadline in epoch ticks that no guest reaches: half the range, so that the
/// engine can add the current epoch to it.
pub const UNBOUNDED_EPOCH_TICKS: u64 = 0x7fff_ffff_ffff_ffff;

/// The number that an optional setting gives: none if it is absent or no number.
pub open spec fn setting(s: Option<Seq<char>>) -> Option<u64> {
    match s {
        Some(s) => u64_value(s),
        None => None,
    }
}

fn parse_setting(s: Option<&str>) -> (r: Option<u64>)
    ensures
        r == setting(opt_text(s)),
{
    match s {
        Some(s) => parse_u64(s),
        None => None,
    }
}

/// The first of two settings that gives a number.
pub open spec fn first_setting(a: Option<Seq<char>>, b: Option<Seq<char>>) -> Option<u64> {
    match setting(a) {
        Some(n) => Some(n),
        None => setting(b),
    }
}

fn resolve_setting(a: Option<&str>, b: Option<&str>) -> (r: Option<u64>)
    ensures
        r == first_setting(opt_text(a), opt_text(b)),
{
    match parse_setting(a) {
        Some(n) => Some(n),
        None => parse_setting(b),
    }
}

/// The deadline of a store: by configuration, else by environment, else unbounded.
/// A value that is no number counts as absent.
pub open spec fn epoch_deadline(config: Option<Seq<char>>, env: Option<Seq<char>>) -> u64 {
    match first_setting(config, env) {
        Some(n) => n,
        None => UNBOUNDED_EPOCH_TICKS,
    }
}

/// Resolves the epoch deadline of a store, in ticks.
pub fn resolve_epoch_deadline(config: Option<&str>, env: Option<&str>) -> (r: u64)
    ensures
        r == epoch_deadline(opt_text(config), opt_text(env)),
{
    match resolve_setting(config, env) {
        Some(n) => n,
        None => UNBOUNDED_EPOCH_TICKS,
    }
}

/// The memory budget of a store in MiB: the workload's own limit where it sets
/// one, else the configuration, else the environment, else none.
pub open spec fn memory_budget(
    memory_limit_mb: i32,
    config: Option<Seq<char>>,
    env: Option<Seq<char>>,
) -> Option<u64> {
    if memory_limit_mb > 0 {
        Some(memory_limit_mb as u64)
    } else {
        first_setting(config, env)
    }
}

/// Resolves the memory budget of a store, in MiB.
pub fn resolve_memory_budget(
    memory_limit_mb: i32,
    config: Option<&str>,
    env: Option<&str>,
) -> (r: Option<u64>)
    ensures
        r == memory_budget(memory_limit_mb, opt_text(config), opt_text(env)),
{
    if memory_limit_mb > 0 {
        Some(memory_limit_mb as u64)
    } else {
        resolve_setting(config, env)
    }
}

/// The linear-memory limit of a store, and the component it is charged to.
#[derive(Debug)]
pub struct MemoryLimit {
    pub bytes: usize,
    pub component_id: Arc<str>,
}

/// A size in MiB as a number of bytes, modulo the address range.
pub open spec fn mib_bytes(mb: u64) -> usize {
    ((mb as int * 0x10_0000) % (usize::MAX + 1)) as usize
}

fn mib_to_bytes(mb: u64) -> (r: usize)
    ensures
        r == mib_bytes(mb),
{
    let r = (#[verifier::truncate] (mb as usize)) << 20;
    proof {
        assert(usize::BITS == 64 ==> ((mb as usize) << 20) as int == (mb * 0x10_0000)
            % 0x1_0000_0000_0000_0000) by (bit_vector);
        assert(usize::BITS == 32 ==> ((mb as usize) << 20) as int == (mb * 0x10_0000)
            % 0x1_0000_0000) by (bit_vector);
    }
    r
}

/// The limit that a budget calls for. A budget above the host's ceiling is
/// refused, never cut down; a host that tells no ceiling has none.
pub open spec fn memory_limit(
    component_id: Arc<str>,
    budget_mb: Option<u64>,
    ceiling: Option<Seq<char>>,
) -> Result<Option<MemoryLimit>, LinkError> {
    match budget_mb {
        None => Ok(None),
        Some(budget_mb) => match setting(ceiling) {
            Some(ceiling_mb) if budget_mb > ceiling_mb => Err(
                LinkError::BudgetExceedsCeiling { component_id, budget_mb, ceiling_mb },
            ),
            _ => Ok(Some(MemoryLimit { bytes: mib_bytes(budget_mb), component_id })),
        },
    }
}

/// Turns a budget into the limit of a store.
pub fn resolve_memory_limit(
    component_id: &Arc<str>,
    budget_mb: Option<u64>,
    ceiling: Option<&str>,
) -> (r: Result<Option<MemoryLimit>, LinkError>)
    ensures
        r == memory_limit(*component_id, budget_mb, opt_text(ceiling)),
{
    let budget_mb = match budget_mb {
        None => {
            return Ok(None);
        },
        Some(mb) => mb,
    };
    if let Some(ceiling_mb) = parse_setting(ceiling) {
        if budget_mb > ceiling_mb {
            return Err(
                LinkError::BudgetExceedsCeiling {
                    component_id: component_id.clone(),
                    budget_mb,
                    ceiling_mb,
                },
            );
        }
    }
    Ok(Some(MemoryLimit { bytes: mib_to_bytes(budget_mb), component_id: component_id.clone() }))
}

/// A setting that is no number counts as absent: the next source decides.
pub proof fn law_unreadable_setting_falls_through(
    bad: Seq<char>,
    env: Option<Seq<char>>,
    memory_limit_mb: i32,
)
    requires
        u64_value(bad) is None,
    ensures
        epoch_deadline(Some(bad), env) == epoch_deadline(None, env),
        memory_budget(memory_limit_mb, Some(bad), env) == memory_budget(memory_limit_mb, None, env),
        epoch_deadline(env, Some(bad)) == epoch_deadline(env, None),
        memory_budget(memory_limit_mb, env, Some(bad)) == memory_budget(memory_limit_mb, env, None),
{
}

/// A configured number shuts the environment out.
pub proof fn law_configured_number_wins(
    config: Seq<char>,
    env: Option<Seq<char>>,
    memory_limit_mb: i32,
)
    requires
        u64_value(config) is Some,
    ensures
        epoch_deadline(Some(config), env) == u64_value(config)->0,
        memory_limit_mb <= 0 ==> memory_budget(memory_limit_mb, Some(config), env) == u64_value(
            config,
        ),
{
}

/// The workload's own limit, where it sets one, shuts every other source out; zero
/// and negative numbers set none.
pub proof fn law_workload_limit_wins(
    memory_limit_mb: i32,
    config: Option<Seq<char>>,
    env: Option<Seq<char>>,
)
    ensures
        memory_limit_mb > 0 ==> memory_budget(memory_limit_mb, config, env) == Some(
            memory_limit_mb as u64,
        ),
        memory_limit_mb <= 0 ==> memory_budget(memory_limit_mb, config, env) == memory_budget(
            0,
            config,
            env,
        ),
{
}

/// Without a deadline the engine can add the current epoch to the default and not
/// wrap, up to the middle of the range.
pub proof fn law_default_deadline_does_not_wrap(current_epoch: u64)
    requires
        current_epoch <= u64::MAX / 2 + 1,
    ensures
        epoch_deadline(None, None) == u64::MAX / 2,
        current_epoch + epoch_deadline(None, None) <= u64::MAX,
{
}

/// A budget is granted in full or refused, never cut down: a store is refused
/// exactly when the budget is above a ceiling that the host tells, and has no limit
/// exactly when there is no budget.
pub proof fn law_budget_is_granted_or_refused(
    component_id: Arc<str>,
    budget_mb: Option<u64>,
    ceiling: Option<Seq<char>>,
)
    ensures
        match memory_limit(component_id, budget_mb, ceiling) {
            Ok(None) => budget_mb is None,
            Ok(Some(limit)) => {
                &&& budget_mb is Some
                &&& limit.bytes == mib_bytes(budget_mb->0)
                &&& limit.component_id == component_id
                &&& setting(ceiling) matches Some(ceiling_mb) ==> budget_mb->0 <= ceiling_mb
            },
            Err(e) => {
                &&& budget_mb is Some
                &&& setting(ceiling) is Some
                &&& budget_mb->0 > setting(ceiling)->0
                &&& e == LinkError::BudgetExceedsCeiling {
                    component_id,
                    budget_mb: budget_mb->0,
                    ceiling_mb: setting(ceiling)->0,
                }
            },
        },
{
}

/// A budget whose size in bytes fits in the address range becomes a limit of
/// exactly that size.
pub proof fn law_limit_is_the_budget_in_bytes(mb: u64)
    requires
        mb * 0x10_0000 <= usize::MAX,
    ensures
        mib_bytes(mb) == mb * 0x10_0000,
{
    lemma_small_mod((mb * 0x10_0000) as nat, (usize::MAX + 1) as nat);
}

/// The deadline of a store comes from the first source that gives a number: the
/// configuration, then the environment; without one it is half the range. Zero is a
/// number like any other.
pub proof fn law_deadline_comes_from_the_first_number(
    config: Option<Seq<char>>,
    env: Option<Seq<char>>,
    n: u64,
)
    ensures
        (config matches Some(c) && u64_value(c) == Some(n)) ==> epoch_deadline(config, env) == n,
        (config matches Some(c) ==> u64_value(c) is None) && (env matches Some(e) && u64_value(e)
            == Some(n)) ==> epoch_deadline(config, env) == n,
        (config matches Some(c) ==> u64_value(c) is None) && (env matches Some(e) ==> u64_value(e)
            is None) ==> epoch_deadline(config, env) == u64::MAX / 2,
{
}

/// The budget of a store comes from the first source that sets one: the workload with
/// a positive number, then the configuration, then the environment; without one there
/// is no budget.
pub proof fn law_budget_comes_from_the_first_source(
    memory_limit_mb: i32,
    config: Option<Seq<char>>,
    env: Option<Seq<char>>,
    n: u64,
)
    ensures
        memory_limit_mb > 0 ==> (memory_budget(memory_limit_mb, config, env) matches Some(mb) && mb
            == memory_limit_mb as int),
        memory_limit_mb <= 0 && (config matches Some(c) && u64_value(c) == Some(n))
            ==> memory_budget(memory_limit_mb, config, env) == Some(n),
        memory_limit_mb <= 0 && (config matches Some(c) ==> u64_value(c) is None) && (
        env matches Some(e) && u64_value(e) == Some(n)) ==> memory_budget(
            memory_limit_mb,
            config,
            env,
        ) == Some(n),
        memory_limit_mb <= 0 && (config matches Some(c) ==> u64_value(c) is None) && (
        env matches Some(e) ==> u64_value(e) is None) ==> memory_budget(
            memory_limit_mb,
            config,
            env,
        ) is None,
{
}

/// A budget becomes a limit of its size for its component, unless the host tells a
/// number as its ceiling that is smaller: then the store is refused, with both sizes.
/// A ceiling that is no number is none.
pub proof fn law_ceiling_refuses_what_is_above(
    component_id: Arc<str>,
    mb: u64,
    ceiling: Option<Seq<char>>,
    max: u64,
)
    ensures
        memory_limit(component_id, None, ceiling) matches Ok(None),
        (ceiling matches Some(c) && u64_value(c) == Some(max)) && mb > max ==> memory_limit(
            component_id,
            Some(mb),
            ceiling,
        ) == Err::<Option<MemoryLimit>, LinkError>(
            LinkError::BudgetExceedsCeiling { component_id, budget_mb: mb, ceiling_mb: max },
        ),
        (ceiling matches Some(c) && u64_value(c) == Some(max)) && mb <= max ==> memory_limit(
            component_id,
            Some(mb),
            ceiling,
        ) == memory_limit(component_id, Some(mb), None),
        (ceiling matches Some(c) ==> u64_value(c) is None) ==> memory_limit(
            component_id,
            Some(mb),
            ceiling,
        ) == memory_limit(component_id, Some(mb), None),
        memory_limit(component_id, Some(mb), None) matches Ok(Some(limit)) && limit.component_id
            == component_id && (mb * 0x10_0000 <= usize::MAX ==> limit.bytes == mb * 0x10_0000),
{
    if mb * 0x10_0000 <= usize::MAX {
        law_limit_is_the_budget_in_bytes(mb);
    }
}

/// A size in bytes that does not fit in the address range is cut to it: what is left
/// differs from the full size by whole address ranges.
pub proof fn law_oversized_limit_wraps(mb: u64)
    ensures
        (mb * 0x10_0000 - mib_bytes(mb)) % (usize::MAX + 1) == 0,
{
    let full = mb * 0x10_0000;
    let range = usize::MAX + 1;
    lemma_fundamental_div_mod(full, range);
    let q = full / range;
    assert(full - mib_bytes(mb) == range * q);
    lemma_mod_multiples_basic(q, range);
    assert(range * q == q * range) by (nonlinear_arith);
}

/// The settings have these names, in the configuration of a component and in the
/// environment of the host.
pub proof fn law_names_of_the_settings()
    ensures
        EPOCH_DEADLINE_KEY@ == "wamn.epoch-deadline-ticks"@,
        EPOCH_DEADLINE_VAR@ == "WAMN_EPOCH_DEADLINE_TICKS"@,
        MEMORY_LIMIT_KEY@ == "wamn.memory-limit-mb"@,
        MEMORY_LIMIT_VAR@ == "WAMN_MEMORY_LIMIT_MB"@,
        MEMORY_CEILING_VAR@ == "WAMN_MEMORY_CEILING_MB"@,
        ALLOW_RAW_SOCKETS_KEY@ == "wamn.allow-raw-sockets"@,
        ALLOW_RAW_SOCKETS_VAR@ == "WAMN_ALLOW_RAW_SOCKETS"@,
{
}

} // verus!
