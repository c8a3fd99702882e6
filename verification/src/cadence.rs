//! When the periodic scheduler should fire, and when it should hold off.
//!
//! None of it is specific to any source: how often a sync may run and whether
//! the scheduler may run at all are questions about the user's cadence
//! setting and the machine's pause policy.

use vstd::prelude::*;
use crate::gate::{pause_reason_of, PauseReason, Policy};

verus! {

/// The default memory-sync cadence when the user has made no choice: 24 hours.
pub const DEFAULT_MEMORY_SYNC_INTERVAL_SECS: u64 = 86400;

pub open spec fn effective_interval(provider_default: u64, global: Option<u64>) -> Option<u64> {
    match global {
        Some(n) => if n == 0 {
            None
        } else if n >= provider_default {
            Some(n)
        } else {
            Some(provider_default)
        },
        None => if DEFAULT_MEMORY_SYNC_INTERVAL_SECS >= provider_default {
            Some(DEFAULT_MEMORY_SYNC_INTERVAL_SECS)
        } else {
            Some(provider_default)
        },
    }
}

/// A source never syncs more often than its provider intends: the effective
/// interval is absent exactly for "Manual only", and otherwise at least the
/// provider default and at least the user's own choice.
pub proof fn law_interval_is_floored_at_provider_default(provider_default: u64, global: Option<u64>)
    ensures
        effective_interval(provider_default, global) is None <==> global == Some(0u64),
        effective_interval(provider_default, global) matches Some(n) ==> n >= provider_default,
        effective_interval(provider_default, global) matches Some(n) ==> match global {
            Some(g) => n >= g,
            None => n >= DEFAULT_MEMORY_SYNC_INTERVAL_SECS,
        },
{
}

/// Resolve the effective periodic sync interval (seconds) for one connection.
///
/// - `global == Some(0)` → `None`: "Manual only" — the scheduler skips this
///   source entirely (manual sync still works).
/// - `global == Some(n)` → `max(n, provider_default)`: the user's cadence,
///   floored at the provider default so a source never syncs more often than
///   its provider intended.
/// - `global == None` → `max(24h, provider_default)`.
pub fn effective_interval_secs(provider_default: u64, global: Option<u64>) -> (r: Option<u64>)
    ensures
        r == effective_interval(provider_default, global),
{
    match global {
        Some(0) => None,
        Some(n) => Some(if n >= provider_default { n } else { provider_default }),
        None => Some(
            if DEFAULT_MEMORY_SYNC_INTERVAL_SECS >= provider_default {
                DEFAULT_MEMORY_SYNC_INTERVAL_SECS
            } else {
                provider_default
            },
        ),
    }
}

/// Whether a connection is due, given the effective interval and the whole
/// seconds elapsed since it last synced in this process (`None`: no sync on
/// record this process lifetime, so it fires at once — the restart path).
///
/// Whole seconds are exact here: an elapsed `Duration` is at least
/// `interval_secs` seconds exactly when its whole-second part is.
pub fn connection_is_due(interval_secs: u64, since_last_sync_secs: Option<u64>) -> (r: bool)
    ensures
        r == match since_last_sync_secs {
            Some(elapsed) => elapsed >= interval_secs,
            None => true,
        },
{
    match since_last_sync_secs {
        Some(elapsed) => elapsed >= interval_secs,
        None => true,
    }
}

/// The pause reasons the periodic loops honour: the user switched memory
/// off, or nobody is signed in. Battery and CPU pressure are deliberately not
/// among them — a periodic fetch is network-light — and `Unknown` lets the
/// tick proceed through a transitional gate state.
pub open spec fn periodic_pause(policy: Policy) -> Option<PauseReason> {
    match pause_reason_of(policy) {
        Some(reason) => if reason is UserDisabled || reason is SignedOut {
            Some(reason)
        } else {
            None
        },
        None => None,
    }
}

/// Whether this tick should hold off, and why.
pub fn periodic_pause_reason(policy: Policy) -> (r: Option<PauseReason>)
    ensures
        r == periodic_pause(policy),
{
    match policy.pause_reason() {
        Some(PauseReason::UserDisabled) => Some(PauseReason::UserDisabled),
        Some(PauseReason::SignedOut) => Some(PauseReason::SignedOut),
        _ => None,
    }
}

} // verus!
