use tinymemory::cadence::{
    connection_is_due, effective_interval_secs, periodic_pause_reason,
    DEFAULT_MEMORY_SYNC_INTERVAL_SECS,
};
use tinymemory::gate::{PauseReason, Policy};

#[test]
fn manual_only_skips_the_scheduler() {
    assert_eq!(effective_interval_secs(3600, Some(0)), None);
}

#[test]
fn the_user_cadence_is_floored_at_the_provider_default() {
    assert_eq!(effective_interval_secs(3600, Some(60)), Some(3600));
    assert_eq!(effective_interval_secs(3600, Some(7200)), Some(7200));
}

#[test]
fn no_choice_means_daily_unless_the_provider_asks_for_less_often() {
    assert_eq!(DEFAULT_MEMORY_SYNC_INTERVAL_SECS, 86_400);
    assert_eq!(effective_interval_secs(900, None), Some(86_400));
    assert_eq!(effective_interval_secs(172_800, None), Some(172_800));
}

#[test]
fn a_connection_is_due_once_its_interval_has_passed_or_at_first_tick() {
    assert!(connection_is_due(3600, None));
    assert!(connection_is_due(3600, Some(3600)));
    assert!(!connection_is_due(3600, Some(3599)));
}

#[test]
fn periodic_loops_honour_only_user_disabled_and_signed_out() {
    assert_eq!(
        periodic_pause_reason(Policy::Paused { reason: PauseReason::UserDisabled }),
        Some(PauseReason::UserDisabled)
    );
    assert_eq!(
        periodic_pause_reason(Policy::Paused { reason: PauseReason::SignedOut }),
        Some(PauseReason::SignedOut)
    );
    assert_eq!(periodic_pause_reason(Policy::Paused { reason: PauseReason::OnBattery }), None);
    assert_eq!(periodic_pause_reason(Policy::Paused { reason: PauseReason::CpuPressure }), None);
    assert_eq!(periodic_pause_reason(Policy::Paused { reason: PauseReason::Unknown }), None);
    assert_eq!(periodic_pause_reason(Policy::Throttled), None);
}
