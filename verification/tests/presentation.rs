use seyal_client::ids::ExecutionId;
use seyal_client::presentation::{
    FlowPaintInspection, InputRoute, PresentationAction, PresentationError, PresentationIdentity,
    PresentationMode, PresentationSession, RendererPlan,
};

fn identity(tag: u8, pty: u64) -> PresentationIdentity {
    PresentationIdentity::new(ExecutionId::from_bytes([tag; 16]), pty).expect("pty")
}

fn trans(
    session: &PresentationSession,
    mode: PresentationMode,
    identity: PresentationIdentity,
    explicit: bool,
) -> PresentationAction {
    PresentationAction::Transition {
        mode,
        identity,
        explicit,
        epoch: session.snapshot().epoch,
    }
}

#[test]
fn flow_raw_tui_are_mutually_exclusive_modes() {
    let bound = identity(1, 7);
    let mut session = PresentationSession::new(Some(bound), PresentationMode::Flow);
    let snap = session.snapshot();
    assert_eq!(snap.mode, PresentationMode::Flow);
    assert_eq!(snap.input_route, InputRoute::Composer);
    assert!(!snap.allows_direct_terminal_first_responder);
    assert!(!snap.allows_empty_canvas_terminal_hit_test);

    assert!(session
        .apply(trans(&session, PresentationMode::Raw, bound, true))
        .is_ok());
    assert_eq!(session.snapshot().mode, PresentationMode::Raw);
    assert_eq!(session.snapshot().input_route, InputRoute::DirectTerminal);

    assert!(session
        .apply(trans(&session, PresentationMode::Tui, bound, false))
        .is_ok());
    assert_eq!(session.snapshot().mode, PresentationMode::Tui);
    assert_ne!(session.snapshot().mode, PresentationMode::Flow);
    assert_ne!(session.snapshot().mode, PresentationMode::Raw);
}

#[test]
fn flow_to_tui_to_flow_keeps_execution_and_pty_identity() {
    let bound = identity(1, 7);
    let mut session = PresentationSession::new(Some(bound), PresentationMode::Flow);
    let start_epoch = session.snapshot().epoch;
    assert!(session
        .apply(trans(&session, PresentationMode::Tui, bound, false))
        .is_ok());
    assert_eq!(session.snapshot().identity, Some(bound));
    assert!(session.snapshot().epoch > start_epoch);
    assert!(session
        .apply(trans(&session, PresentationMode::Flow, bound, false))
        .is_ok());
    let snap = session.snapshot();
    assert_eq!(snap.mode, PresentationMode::Flow);
    assert_eq!(snap.identity, Some(bound));
    assert_eq!(snap.input_route, InputRoute::Composer);
}

#[test]
fn flow_to_raw_records_explicit_named_transition() {
    let bound = identity(1, 7);
    let mut session = PresentationSession::new(Some(bound), PresentationMode::Flow);
    assert!(!session.snapshot().last_transition_was_explicit);
    assert!(session
        .apply(trans(&session, PresentationMode::Raw, bound, true))
        .is_ok());
    assert!(session.snapshot().last_transition_was_explicit);
    assert!(session
        .apply(trans(&session, PresentationMode::Flow, bound, true))
        .is_ok());
    assert!(session.snapshot().last_transition_was_explicit);
    assert_eq!(session.snapshot().identity, Some(bound));
}

#[test]
fn transition_rejects_a_different_execution_or_pty_authority() {
    let bound = identity(1, 7);
    let mut session = PresentationSession::new(Some(bound), PresentationMode::Flow);
    assert_eq!(
        session.apply(trans(&session, PresentationMode::Tui, identity(2, 7), false)),
        Err(PresentationError::IdentityMismatch)
    );
    assert_eq!(session.snapshot().mode, PresentationMode::Flow);
    assert_eq!(
        session.apply(trans(&session, PresentationMode::Raw, identity(1, 8), true)),
        Err(PresentationError::IdentityMismatch)
    );
    assert_eq!(session.snapshot().mode, PresentationMode::Flow);
    assert_eq!(session.snapshot().identity, Some(bound));
}

#[test]
fn flow_renderer_plan_never_exposes_full_grid_or_cursor_outside_blocks() {
    let plan = RendererPlan::flow();
    assert!(!plan.draws_full_grid_background);
    assert!(!plan.draws_live_grid);
    assert!(!plan.draws_cursor_outside_block_regions);
    let raw = RendererPlan::full_pane(PresentationMode::Raw);
    assert!(raw.draws_full_grid_background);
    assert!(raw.draws_live_grid);
    assert!(raw.draws_cursor_outside_block_regions);
}

#[test]
fn transition_fences_input_route_before_installing_new_route() {
    let bound = identity(1, 7);
    let mut session = PresentationSession::new(Some(bound), PresentationMode::Flow);
    assert_eq!(session.snapshot().input_route, InputRoute::Composer);
    session
        .apply(trans(&session, PresentationMode::Raw, bound, true))
        .unwrap();
    assert_eq!(session.snapshot().input_route, InputRoute::DirectTerminal);
    assert_ne!(session.snapshot().input_route, InputRoute::Composer);
    assert_ne!(session.snapshot().input_route, InputRoute::Frozen);
}

#[test]
fn bind_identity_accepts_first_bound_identity_without_changing_mode() {
    let mut session = PresentationSession::new(None, PresentationMode::Flow);
    let bound = identity(9, 3);
    session
        .apply(PresentationAction::BindIdentity(bound))
        .unwrap();
    let snap = session.snapshot();
    assert_eq!(snap.identity, Some(bound));
    assert_eq!(snap.mode, PresentationMode::Flow);
    assert_eq!(snap.epoch, 1);
}

#[test]
fn bind_identity_does_not_replace_a_different_bound_identity() {
    let bound = identity(1, 7);
    let mut session = PresentationSession::new(Some(bound), PresentationMode::Raw);
    assert_eq!(
        session.apply(PresentationAction::BindIdentity(identity(2, 7))),
        Err(PresentationError::IdentityMismatch)
    );
    assert_eq!(session.snapshot().identity, Some(bound));
    assert_eq!(session.snapshot().mode, PresentationMode::Raw);
}

#[test]
fn unbound_transition_binds_identity() {
    let mut session = PresentationSession::new(None, PresentationMode::Raw);
    let bound = identity(4, 1);
    session
        .apply(trans(&session, PresentationMode::Flow, bound, true))
        .unwrap();
    assert_eq!(session.snapshot().identity, Some(bound));
    assert_eq!(session.snapshot().mode, PresentationMode::Flow);
    assert_eq!(session.snapshot().input_route, InputRoute::Composer);
}

#[test]
fn presentation_stale_epoch_fails_closed() {
    let bound = identity(1, 7);
    let mut session = PresentationSession::new(Some(bound), PresentationMode::Flow);
    let stale = session.snapshot().epoch;
    session
        .apply(trans(&session, PresentationMode::Raw, bound, true))
        .unwrap();
    assert_eq!(
        session.apply(PresentationAction::Transition {
            mode: PresentationMode::Tui,
            identity: bound,
            explicit: false,
            epoch: stale,
        }),
        Err(PresentationError::StaleEpoch)
    );
    assert_eq!(session.snapshot().mode, PresentationMode::Raw);
    assert_eq!(session.snapshot().identity, Some(bound));
}

#[test]
fn zero_pty_generation_is_rejected() {
    assert!(PresentationIdentity::new(ExecutionId::from_bytes([1; 16]), 0).is_none());
}

#[test]
fn flow_paint_inspection_is_clean_only_without_grid_leaks() {
    let clean = FlowPaintInspection {
        mode: PresentationMode::Flow,
        live_grid_submitted: false,
        full_grid_background_submitted: false,
        history_instance_count: 0,
        instances_outside_clips: 0,
        opaque_pixels_outside_clips: 0,
        opaque_pixels_inside_clips: 0,
    };
    assert!(clean.is_clean());
    assert_eq!(clean.accessibility_token(), "ok");
    let leak = FlowPaintInspection {
        live_grid_submitted: true,
        ..clean
    };
    assert!(!leak.is_clean());
    assert_eq!(leak.accessibility_token(), "leak");
    let raw = FlowPaintInspection {
        mode: PresentationMode::Raw,
        live_grid_submitted: true,
        ..clean
    };
    assert!(raw.is_clean());
    assert_eq!(raw.accessibility_token(), "n/a");
}

#[test]
fn renderer_plan_for_each_mode_matches_flow_and_full_pane() {
    assert_eq!(RendererPlan::for_mode(PresentationMode::Flow), RendererPlan::flow());
    assert_eq!(
        RendererPlan::for_mode(PresentationMode::Tui),
        RendererPlan::full_pane(PresentationMode::Tui)
    );
}

#[test]
fn same_mode_transition_keeps_epoch_and_route() {
    let bound = identity(1, 7);
    let mut session = PresentationSession::new(Some(bound), PresentationMode::Flow);
    let epoch = session.snapshot().epoch;
    session
        .apply(trans(&session, PresentationMode::Flow, bound, true))
        .unwrap();
    assert_eq!(session.snapshot().epoch, epoch);
    assert_eq!(session.snapshot().input_route, InputRoute::Composer);
    assert!(session.snapshot().last_transition_was_explicit);
}
