use iloader::events::UiEvent;
use iloader::operation::OpStatus;
use iloader::operation::Operation;
use iloader::operation::PhaseStatus;
use iloader::workflow::complete_install;
use iloader::workflow::finish_download;
use iloader::workflow::finish_install;
use iloader::workflow::finish_pairing;
use iloader::workflow::resolve_companion;
use iloader::workflow::resolve_device;
use iloader::workflow::select_artifact;
use iloader::workflow::start_download;
use iloader::workflow::start_install;
use iloader::workflow::AppInfo;
use iloader::device::DeviceInfo;

fn device() -> DeviceInfo {
    DeviceInfo {
        name: "Phone".to_string(),
        id: 7,
        uuid: "00008030-000123456789012A".to_string(),
    }
}

#[test]
fn start_and_complete_emit_events_in_order() {
    let mut op = Operation::new("sideload".to_string());
    assert_eq!(op.status(), OpStatus::Running);
    op.start("install").unwrap();
    op.complete("install").unwrap();
    assert_eq!(op.status(), OpStatus::Succeeded);
    assert_eq!(op.event_count(), 2);
    match op.event_at(0) {
        UiEvent::PhaseStarted { operation, phase } => {
            assert_eq!(operation.as_str(), "sideload");
            assert_eq!(phase.as_str(), "install");
        }
        other => panic!("unexpected first event: {:?}", op_name(other)),
    }
    match op.event_at(1) {
        UiEvent::OperationCompleted { operation } => assert_eq!(operation.as_str(), "sideload"),
        other => panic!("unexpected second event: {:?}", op_name(other)),
    }
}

fn op_name(e: &UiEvent) -> &'static str {
    match e {
        UiEvent::ChallengeRequired => "challenge-required",
        UiEvent::PhaseStarted { .. } => "operation-phase-started",
        UiEvent::PhaseSucceeded { .. } => "operation-phase-succeeded",
        UiEvent::OperationFailed { .. } => "operation-failed",
        UiEvent::OperationCompleted { .. } => "operation-completed",
    }
}

#[test]
fn move_on_succeeds_previous_phase_and_starts_next() {
    let mut op = Operation::new("install_sidestore".to_string());
    op.start("download").unwrap();
    op.move_on("download", "install").unwrap();
    assert_eq!(op.phase_status("download"), Some(PhaseStatus::Succeeded));
    assert_eq!(op.phase_status("install"), Some(PhaseStatus::Running));
    assert_eq!(op.status(), OpStatus::Running);
    assert_eq!(op.event_count(), 3);
}

#[test]
fn fail_if_err_passes_success_through_unchanged() {
    let mut op = Operation::new("sideload".to_string());
    op.start("install").unwrap();
    let before_events = op.event_count();
    let out = op.fail_if_err("install", Ok::<u32, String>(42));
    assert_eq!(out, Ok(42));
    assert_eq!(op.status(), OpStatus::Running);
    assert_eq!(op.event_count(), before_events);
    assert_eq!(op.phase_status("install"), Some(PhaseStatus::Running));
}

#[test]
fn fail_if_err_fails_the_operation_exactly_once() {
    let mut op = Operation::new("sideload".to_string());
    op.start("install").unwrap();
    let out = op.fail_if_err("install", Err::<u32, String>("boom".to_string()));
    assert_eq!(out, Err("boom".to_string()));
    assert_eq!(op.status(), OpStatus::Failed);
    assert_eq!(op.phase_status("install"), Some(PhaseStatus::Failed));
    let failures = (0..op.event_count())
        .filter(|&i| matches!(op.event_at(i), UiEvent::OperationFailed { .. }))
        .count();
    assert_eq!(failures, 1);
    match op.event_at(op.event_count() - 1) {
        UiEvent::OperationFailed { operation, phase, message } => {
            assert_eq!(operation.as_str(), "sideload");
            assert_eq!(phase.as_str(), "install");
            assert_eq!(message.as_str(), "boom");
        }
        _ => panic!("expected a failure event"),
    }
}

#[test]
fn terminal_operation_accepts_no_further_transitions() {
    let mut op = Operation::new("sideload".to_string());
    op.start("install").unwrap();
    op.fail("install", "dead".to_string()).unwrap_err();
    let events = op.event_count();
    assert!(op.start("later").is_err());
    assert!(op.move_on("install", "later").is_err());
    assert!(op.complete("install").is_err());
    let out = op.fail_if_err("later", Err::<(), String>("again".to_string()));
    assert_eq!(out, Err("again".to_string()));
    assert_eq!(op.status(), OpStatus::Failed);
    assert_eq!(op.event_count(), events);
    assert_eq!(op.phase_status("later"), None);
}

#[test]
fn completed_operation_is_frozen_too() {
    let mut op = Operation::new("sideload".to_string());
    op.start("install").unwrap();
    op.complete("install").unwrap();
    let events = op.event_count();
    assert!(op.start("extra").is_err());
    assert_eq!(op.fail("extra", "x".to_string()), Err("x".to_string()));
    assert_eq!(op.status(), OpStatus::Succeeded);
    assert_eq!(op.event_count(), events);
}

#[test]
fn single_install_workflow_happy_path() {
    let mut op = Operation::new("sideload".to_string());
    start_install(&mut op).unwrap();
    complete_install(&mut op, Ok(())).unwrap();
    assert_eq!(op.status(), OpStatus::Succeeded);
    assert_eq!(op.phase_status("install"), Some(PhaseStatus::Succeeded));
}

#[test]
fn workflow_without_device_fails_install_after_download_succeeded() {
    let mut op = Operation::new("install_sidestore".to_string());
    start_download(&mut op).unwrap();
    finish_download(&mut op, Ok(())).unwrap();
    let r = resolve_device(&mut op, None);
    let msg = r.unwrap_err();
    assert!(msg.contains("No device selected"));
    assert_eq!(op.status(), OpStatus::Failed);
    assert_eq!(op.phase_status("download"), Some(PhaseStatus::Succeeded));
    assert_eq!(op.phase_status("install"), Some(PhaseStatus::Failed));
}

#[test]
fn workflow_without_companion_fails_pairing_after_install_succeeded() {
    let mut op = Operation::new("install_sidestore".to_string());
    start_download(&mut op).unwrap();
    finish_download(&mut op, Ok(())).unwrap();
    let d = resolve_device(&mut op, Some(device())).unwrap();
    assert_eq!(d.uuid, "00008030-000123456789012A");
    finish_install(&mut op, Ok(())).unwrap();
    let r = resolve_companion(&mut op, Ok(None));
    let msg = r.unwrap_err();
    assert!(msg.contains("Could not find SideStore's bundle ID"));
    assert_eq!(op.status(), OpStatus::Failed);
    assert_eq!(op.phase_status("install"), Some(PhaseStatus::Succeeded));
    assert_eq!(op.phase_status("pairing"), Some(PhaseStatus::Failed));
}

#[test]
fn full_workflow_happy_path_completes() {
    let mut op = Operation::new("install_sidestore".to_string());
    start_download(&mut op).unwrap();
    finish_download(&mut op, Ok(())).unwrap();
    let _d = resolve_device(&mut op, Some(device())).unwrap();
    finish_install(&mut op, Ok(())).unwrap();
    let info = resolve_companion(
        &mut op,
        Ok(Some(AppInfo {
            bundle_id: "com.SideStore.SideStore".to_string(),
            path: "/private/var/containers/Bundle/Application/X/SideStore.app".to_string(),
        })),
    )
    .unwrap();
    assert_eq!(info.bundle_id, "com.SideStore.SideStore");
    finish_pairing(&mut op, Ok(())).unwrap();
    assert_eq!(op.status(), OpStatus::Succeeded);
    assert_eq!(op.phase_status("download"), Some(PhaseStatus::Succeeded));
    assert_eq!(op.phase_status("install"), Some(PhaseStatus::Succeeded));
    assert_eq!(op.phase_status("pairing"), Some(PhaseStatus::Succeeded));
    // one started event, two succeeded+started pairs, one completion
    assert_eq!(op.event_count(), 6);
    assert!(matches!(op.event_at(5), UiEvent::OperationCompleted { .. }));
}

#[test]
fn failed_download_halts_the_workflow() {
    let mut op = Operation::new("install_sidestore".to_string());
    start_download(&mut op).unwrap();
    let r = finish_download(&mut op, Err("Failed to download file: HTTP 404".to_string()));
    assert!(r.is_err());
    assert_eq!(op.status(), OpStatus::Failed);
    assert_eq!(op.phase_status("download"), Some(PhaseStatus::Failed));
    assert_eq!(op.phase_status("install"), None);
}

#[test]
fn fail_with_no_phase_running_records_a_failed_phase() {
    let mut op = Operation::new("sideload".to_string());
    let r = op.fail("install", "nothing was running".to_string());
    assert_eq!(r, Err("nothing was running".to_string()));
    assert_eq!(op.status(), OpStatus::Failed);
    assert_eq!(op.phase_status("install"), Some(PhaseStatus::Failed));
    assert_eq!(op.phase_count(), 1);
}

#[test]
fn a_second_phase_cannot_start_while_one_runs() {
    let mut op = Operation::new("install_sidestore".to_string());
    op.start("download").unwrap();
    assert!(op.start("install").is_err());
    assert_eq!(op.phase_status("install"), None);
    assert_eq!(op.status(), OpStatus::Running);
}

#[test]
fn artifact_selection_is_deterministic_and_distinct() {
    let combos = [(false, false), (false, true), (true, false), (true, true)];
    let expected = [
        (
            "SideStore.ipa",
            "https://github.com/SideStore/SideStore/releases/latest/download/SideStore.ipa",
        ),
        (
            "LiveContainerSideStore.ipa",
            "https://github.com/LiveContainer/LiveContainer/releases/latest/download/LiveContainer+SideStore.ipa",
        ),
        (
            "SideStore-Nightly.ipa",
            "https://github.com/SideStore/SideStore/releases/download/nightly/SideStore.ipa",
        ),
        (
            "LiveContainerSideStore-Nightly.ipa",
            "https://github.com/LiveContainer/LiveContainer/releases/download/nightly/LiveContainer+SideStore.ipa",
        ),
    ];
    let mut seen: Vec<(&str, &str)> = Vec::new();
    for (k, &(nightly, live_container)) in combos.iter().enumerate() {
        let pair = select_artifact(nightly, live_container);
        assert_eq!(pair, expected[k]);
        assert_eq!(pair, select_artifact(nightly, live_container));
        assert!(!seen.iter().any(|p| p.0 == pair.0 || p.1 == pair.1));
        seen.push(pair);
    }
}
