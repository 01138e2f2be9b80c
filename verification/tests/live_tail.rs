use seyal_client::live_tail::{project_block_history, HistorySpan, LiveTailProjection};
use seyal_client::presentation::PresentationMode;

#[test]
fn running_flow_block_is_open_ended() {
    assert_eq!(
        project_block_history(PresentationMode::Flow, 10, None, true),
        LiveTailProjection::Span(HistorySpan {
            start_line: 10,
            end_line: u64::MAX,
        })
    );
}

#[test]
fn seq_one_to_one_thousand_stays_one_open_span() {
    let first = project_block_history(PresentationMode::Flow, 20, None, true);
    let after_many_lines = project_block_history(PresentationMode::Flow, 20, None, true);
    assert_eq!(first, after_many_lines);
    assert_eq!(
        first,
        LiveTailProjection::Span(HistorySpan {
            start_line: 20,
            end_line: u64::MAX,
        })
    );
}

#[test]
fn completion_hands_off_to_trusted_end() {
    let running = project_block_history(PresentationMode::Flow, 20, None, true);
    let completed = project_block_history(PresentationMode::Flow, 20, Some(1019), false);
    assert_ne!(running, completed);
    assert_eq!(
        completed,
        LiveTailProjection::Span(HistorySpan {
            start_line: 20,
            end_line: 1019,
        })
    );
}

#[test]
fn raw_and_tui_fail_closed() {
    assert_eq!(
        project_block_history(PresentationMode::Raw, 10, None, true),
        LiveTailProjection::FailClosed
    );
    assert_eq!(
        project_block_history(PresentationMode::Tui, 10, Some(12), false),
        LiveTailProjection::FailClosed
    );
}

#[test]
fn stale_or_conflicting_evidence_fail_closed() {
    assert_eq!(
        project_block_history(PresentationMode::Flow, 0, None, true),
        LiveTailProjection::FailClosed
    );
    assert_eq!(
        project_block_history(PresentationMode::Flow, 10, Some(9), false),
        LiveTailProjection::FailClosed
    );
    assert_eq!(
        project_block_history(PresentationMode::Flow, 10, Some(15), true),
        LiveTailProjection::FailClosed
    );
    assert_eq!(
        project_block_history(PresentationMode::Flow, 10, None, false),
        LiveTailProjection::FailClosed
    );
}

#[test]
fn identical_running_projections_coalesce() {
    let a = project_block_history(PresentationMode::Flow, 3, None, true);
    let b = project_block_history(PresentationMode::Flow, 3, None, true);
    assert_eq!(a, b);
}

#[test]
fn completed_block_ending_on_its_first_line_is_one_line_span() {
    assert_eq!(
        project_block_history(PresentationMode::Flow, 7, Some(7), false),
        LiveTailProjection::Span(HistorySpan {
            start_line: 7,
            end_line: 7,
        })
    );
}
