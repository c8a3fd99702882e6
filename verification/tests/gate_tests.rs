use tinymemory::gate::{
    owned_tags, wire_to_policy, PauseReason, Policy, PolicyCell, ReportLatch,
    UnservedSchedulerGate, UnservedShutdownHost,
};

#[test]
fn the_unserved_stubs_answer_exactly_what_an_unwired_seam_answered() {
    let mut gate_latch = ReportLatch::new();
    assert_eq!(
        UnservedSchedulerGate.current_policy(&mut gate_latch).0,
        Policy::Normal
    );
    let mut shutdown_latch = ReportLatch::new();
    let hook: Box<dyn FnOnce()> = Box::new(|| {});
    UnservedShutdownHost.register(hook, &mut shutdown_latch);
}

#[test]
fn wire_to_policy_maps_every_tier_and_reason() {
    assert_eq!(wire_to_policy("aggressive", None), Policy::Aggressive);
    assert_eq!(wire_to_policy("throttled", None), Policy::Throttled);
    assert_eq!(wire_to_policy("normal", None), Policy::Normal);
    assert_eq!(wire_to_policy("something-newer", None), Policy::Normal);
    for (wire, reason) in [
        ("user_disabled", PauseReason::UserDisabled),
        ("on_battery", PauseReason::OnBattery),
        ("cpu_pressure", PauseReason::CpuPressure),
        ("signed_out", PauseReason::SignedOut),
        ("unheard-of", PauseReason::Unknown),
    ] {
        assert_eq!(
            wire_to_policy("paused", Some(wire)),
            Policy::Paused { reason },
            "reason wire {wire}"
        );
    }
    assert_eq!(
        wire_to_policy("paused", None),
        Policy::Paused {
            reason: PauseReason::Unknown
        }
    );
}

#[test]
fn store_policy_wakes_sleepers_only_on_resume() {
    let mut cell = PolicyCell::new();
    assert_eq!(cell.current_policy(), Policy::Normal);

    let paused = cell.store_policy(Policy::Paused {
        reason: PauseReason::UserDisabled,
    });
    assert!(paused.changed && !paused.wake_sleepers);
    assert!(matches!(cell.current_policy(), Policy::Paused { .. }));

    let resumed = cell.store_policy(Policy::Normal);
    assert!(resumed.changed && resumed.wake_sleepers, "resume must wake the sleeper");
    assert_eq!(cell.current_policy(), Policy::Normal);

    let same = cell.store_policy(Policy::Normal);
    assert!(!same.changed && !same.wake_sleepers, "same-policy stores are quiet no-ops");
    assert_eq!(cell.current_policy(), Policy::Normal);
}

#[test]
fn a_pause_changing_its_reason_wakes_nobody() {
    let mut cell = PolicyCell::new();
    cell.store_policy(Policy::Paused { reason: PauseReason::OnBattery });
    let update = cell.store_policy(Policy::Paused { reason: PauseReason::CpuPressure });
    assert!(update.changed);
    assert!(!update.wake_sleepers);
}

#[test]
fn a_poll_stores_the_answer_and_a_failure_keeps_the_last_policy_reporting_once() {
    let mut cell = PolicyCell::new();
    let mut latch = ReportLatch::new();
    let answered = cell.refresh(Some(("paused", Some("signed_out"))), &mut latch);
    assert!(answered.answered && answered.changed && !answered.report_unserved);
    assert_eq!(cell.current_policy(), Policy::Paused { reason: PauseReason::SignedOut });

    let first_failure = cell.refresh(None, &mut latch);
    assert!(!first_failure.answered && first_failure.report_unserved);
    assert_eq!(cell.current_policy(), Policy::Paused { reason: PauseReason::SignedOut });
    let second_failure = cell.refresh(None, &mut latch);
    assert!(!second_failure.report_unserved, "the gap is reported once per process");

    let resumed = cell.refresh(Some(("throttled", None)), &mut latch);
    assert!(resumed.wake_sleepers);
    assert_eq!(cell.current_policy(), Policy::Throttled);
}

#[test]
fn the_report_latch_reports_exactly_once() {
    let mut latch = ReportLatch::new();
    assert!(latch.should_report());
    assert!(!latch.should_report());
    assert!(!latch.should_report());
}

#[test]
fn callback_tags_are_owned_without_changing_order_or_values() {
    let key = String::from("source");
    let value = String::from("sync");
    let owned = owned_tags(&[(&key, &value), ("attempt", "2")]);
    drop(key);
    drop(value);
    assert_eq!(
        owned,
        vec![
            ("source".to_string(), "sync".to_string()),
            ("attempt".to_string(), "2".to_string())
        ]
    );
}

#[test]
fn a_pause_reports_its_reason() {
    assert_eq!(
        Policy::Paused { reason: PauseReason::OnBattery }.pause_reason(),
        Some(PauseReason::OnBattery)
    );
    assert_eq!(Policy::Aggressive.pause_reason(), None);
}
