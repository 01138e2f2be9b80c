use seyal_client::application::{
    accessibility_nodes, authorize_direct_input, check_fence, derived_presentation_mode, error_number, presentation_eligibility, AccessibilityRole,
    AppError, AppFence, PresentationEligibility,
};
use seyal_client::benchmark::{Pass7ClientBenchmarkMarks, Pass7Recorder};
use seyal_client::fixtures::preview_shell;
use seyal_client::ids::{ExecutionId, PaneId};
use seyal_client::presentation::PresentationMode;

fn fence(pane: PaneId) -> AppFence {
    AppFence {
        pane,
        execution: None,
        attachment: None,
        controller: false,
        presentation_epoch: 1,
    }
}

#[test]
fn fences_fail_closed_on_the_first_stale_identity() {
    let pane = PaneId::from_bytes([1; 16]);
    let current = fence(pane);
    assert_eq!(check_fence(current, current, true), Ok(()));
    assert_eq!(check_fence(current, current, false), Err(AppError::UnknownPane));
    let other = fence(PaneId::from_bytes([2; 16]));
    assert_eq!(check_fence(other, current, true), Err(AppError::StalePane));
    let stale_execution = AppFence {
        execution: Some(ExecutionId::from_bytes([3; 16])),
        presentation_epoch: 9,
        ..current
    };
    assert_eq!(check_fence(stale_execution, current, true), Err(AppError::StaleExecution));
    let stale_epoch = AppFence { presentation_epoch: 2, ..current };
    assert_eq!(check_fence(stale_epoch, current, true), Err(AppError::StalePresentationEpoch));
}

#[test]
fn accessibility_tree_offers_composer_or_terminal_never_both() {
    let shell = preview_shell().snapshot();
    let unbound = accessibility_nodes(&shell, PresentationEligibility::Unbound, false, "");
    assert_eq!(unbound.len(), 2);
    assert_eq!(unbound[1].label, "Pane 1");
    let flow = accessibility_nodes(&shell, PresentationEligibility::Flow, true, "out");
    assert_eq!(flow[2].role, AccessibilityRole::Composer);
    assert!(flow[2].value.is_empty());
    let tui = accessibility_nodes(&shell, PresentationEligibility::Tui, false, "top");
    assert_eq!(tui[2].role, AccessibilityRole::Terminal);
    assert_eq!(tui[2].value, "top");
    assert!(!tui.iter().any(|node| node.role == AccessibilityRole::Composer));
}

#[test]
fn eligibility_and_error_numbers() {
    assert_eq!(
        presentation_eligibility(false, PresentationMode::Raw),
        PresentationEligibility::Unbound
    );
    assert_eq!(presentation_eligibility(true, PresentationMode::Tui), PresentationEligibility::Tui);
    assert_eq!(error_number(AppError::UnknownPane), 1);
    assert_eq!(error_number(AppError::StaleRecoveryGeneration), 15);
}

#[test]
fn client_marks_are_bounded_metadata_and_resettable() {
    let mut recorder = Pass7Recorder::new();
    recorder.reset();
    recorder.mark_admission(10, 41);
    recorder.observe_queue(73);
    recorder.mark_socket_complete(25, 0);
    let marks = recorder.marks();
    assert_eq!(marks.admission_count, 1);
    assert_eq!(marks.socket_complete_count, 1);
    assert_eq!(marks.queue_high_water_bytes, 73);
    assert!(marks.admission_ns > 0);
    assert!(marks.socket_complete_ns >= marks.admission_ns);

    recorder.reset();
    assert_eq!(recorder.marks(), Pass7ClientBenchmarkMarks::default());
}

#[test]
fn direct_input_requires_a_bound_controller_outside_flow() {
    assert_eq!(
        authorize_direct_input(false, true, PresentationEligibility::Raw, false),
        Err(AppError::UnboundUnauthorized)
    );
    assert_eq!(
        authorize_direct_input(true, false, PresentationEligibility::Raw, false),
        Err(AppError::NotController)
    );
    assert_eq!(
        authorize_direct_input(true, true, PresentationEligibility::Flow, false),
        Err(AppError::DirectInputUnauthorized)
    );
    assert_eq!(
        authorize_direct_input(true, true, PresentationEligibility::Unbound, false),
        Err(AppError::UnboundUnauthorized)
    );
    assert_eq!(authorize_direct_input(true, true, PresentationEligibility::Tui, false), Ok(true));
    assert_eq!(authorize_direct_input(true, true, PresentationEligibility::Raw, true), Ok(false));
    assert_eq!(derived_presentation_mode(true), PresentationMode::Tui);
    assert_eq!(derived_presentation_mode(false), PresentationMode::Flow);
}
