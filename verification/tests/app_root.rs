use seyal_client::application::{
    AccessibilityRole, AppAction, AppError, AppFence, ApplicationRoot, BindingEvidence,
    NativeEffect, PresentationEligibility,
};
use seyal_client::ids::{AttachmentId, ExecutionId, PaneId};
use seyal_client::presentation::InputRoute;

fn evidence(tag: u8, controller: bool, alternate: bool) -> BindingEvidence {
    BindingEvidence {
        execution: ExecutionId::from_bytes([tag; 16]),
        attachment: AttachmentId::from_bytes([tag.wrapping_add(1); 16]),
        controller,
        pty_generation: 1,
        alternate_screen: alternate,
    }
}

#[test]
fn new_root_is_one_unbound_pane() {
    let root = ApplicationRoot::new();
    let snap = root.snapshot();
    assert_eq!(snap.shell.panes.len(), 1);
    assert!(snap.execution.is_none());
    assert_eq!(snap.eligibility, PresentationEligibility::Unbound);
    assert!(!snap.composer_eligible);
    assert_eq!(snap.generation, 1);
    assert_eq!(root.snapshot(), root.snapshot());
}

#[test]
fn unbound_cannot_authorize_flow_or_composer() {
    let mut root = ApplicationRoot::new();
    let fence = root.fence();
    assert_eq!(
        root.apply(AppAction::SubmitInput {
            fence,
            text: "echo".into(),
        }),
        Err(AppError::UnboundUnauthorized)
    );
    let snap = root.snapshot();
    assert_eq!(snap.eligibility, PresentationEligibility::Unbound);
    assert!(!snap.composer_eligible);
    assert!(!snap
        .accessibility
        .iter()
        .any(|node| node.role == AccessibilityRole::Composer));
    assert_eq!(root.presentation().input_route, InputRoute::Composer);
    assert_ne!(snap.eligibility, PresentationEligibility::Flow);
}

#[test]
fn bind_then_focus_keeps_one_execution() {
    let mut root = ApplicationRoot::new();
    let fence = root.fence();
    let bound = evidence(1, true, false);
    root.apply(AppAction::Bind {
        fence,
        evidence: bound,
    })
    .unwrap();
    let snap = root.snapshot();
    assert_eq!(snap.execution, Some(bound.execution));
    assert_eq!(snap.eligibility, PresentationEligibility::Flow);
    assert!(snap.composer_eligible);
    let focused = snap.pane;
    root.apply(AppAction::Focus {
        fence: root.fence(),
    })
    .unwrap();
    assert_eq!(root.snapshot().pane, focused);
    assert_eq!(root.snapshot().execution, Some(bound.execution));
}

#[test]
fn alternate_screen_evidence_derives_tui_not_host_policy() {
    let mut root = ApplicationRoot::new();
    let fence = root.fence();
    root.apply(AppAction::Bind {
        fence,
        evidence: evidence(2, true, true),
    })
    .unwrap();
    let snap = root.snapshot();
    assert_eq!(snap.eligibility, PresentationEligibility::Tui);
    assert!(!snap.composer_eligible);
    assert!(snap
        .accessibility
        .iter()
        .any(|node| node.role == AccessibilityRole::Terminal));
}

#[test]
fn stale_identities_fail_closed_and_are_not_retried() {
    let mut root = ApplicationRoot::new();
    let unbound = root.fence();
    root.apply(AppAction::Bind {
        fence: unbound,
        evidence: evidence(3, true, false),
    })
    .unwrap();
    let generation = root.snapshot().generation;
    assert_eq!(
        root.apply(AppAction::Focus { fence: unbound }),
        Err(AppError::StaleExecution)
    );
    assert_eq!(root.snapshot().generation, generation);
    assert_eq!(root.snapshot().last_error, Some(AppError::StaleExecution));

    let current = root.fence();
    let mut stale_pane = current;
    stale_pane.pane = PaneId::from_bytes([0xff; 16]);
    assert_eq!(
        root.apply(AppAction::Focus { fence: stale_pane }),
        Err(AppError::UnknownPane)
    );

    let mut stale_attach = current;
    stale_attach.attachment = Some(AttachmentId::from_bytes([0xab; 16]));
    assert_eq!(
        root.apply(AppAction::Refresh {
            fence: stale_attach
        }),
        Err(AppError::StaleAttachment)
    );

    let mut stale_controller = current;
    stale_controller.controller = false;
    assert_eq!(
        root.apply(AppAction::Refresh {
            fence: stale_controller
        }),
        Err(AppError::StaleController)
    );

    let mut stale_epoch = current;
    stale_epoch.presentation_epoch = current.presentation_epoch.wrapping_add(9);
    assert_eq!(
        root.apply(AppAction::Refresh { fence: stale_epoch }),
        Err(AppError::StalePresentationEpoch)
    );
    assert_eq!(
        root.snapshot().execution,
        Some(evidence(3, true, false).execution)
    );
}

#[test]
fn observer_and_flow_cannot_submit_direct_input() {
    let mut root = ApplicationRoot::new();
    let fence = root.fence();
    root.apply(AppAction::Bind {
        fence,
        evidence: evidence(4, false, false),
    })
    .unwrap();
    assert_eq!(
        root.apply(AppAction::SubmitInput {
            fence: root.fence(),
            text: "x".into(),
        }),
        Err(AppError::NotController)
    );

    let mut controller = ApplicationRoot::new();
    let fence = controller.fence();
    controller
        .apply(AppAction::Bind {
            fence,
            evidence: evidence(5, true, false),
        })
        .unwrap();
    assert_eq!(
        controller.apply(AppAction::SubmitInput {
            fence: controller.fence(),
            text: "x".into(),
        }),
        Err(AppError::DirectInputUnauthorized)
    );
}

#[test]
fn tui_controller_without_client_is_authorized_but_has_no_second_pty() {
    let mut root = ApplicationRoot::new();
    let fence = root.fence();
    root.apply(AppAction::Bind {
        fence,
        evidence: evidence(6, true, true),
    })
    .unwrap();
    assert_eq!(
        root.apply(AppAction::SubmitInput {
            fence: root.fence(),
            text: "x".into(),
        }),
        Err(AppError::NoLiveClient)
    );
    assert_eq!(root.snapshot().shell.panes.len(), 1);
    assert_eq!(
        root.snapshot().execution.unwrap(),
        evidence(6, true, true).execution
    );
}

#[test]
fn quit_freezes_and_emits_one_native_effect() {
    let mut root = ApplicationRoot::new();
    root.apply(AppAction::Quit).unwrap();
    let snap = root.snapshot();
    assert!(snap.frozen);
    assert_eq!(
        snap.pending_effect,
        NativeEffect::BoundedDetachThenTerminate
    );
    assert_eq!(
        root.apply(AppAction::Focus {
            fence: root.fence()
        }),
        Err(AppError::Frozen)
    );
    root.apply(AppAction::AckEffect).unwrap();
    assert_eq!(root.snapshot().pending_effect, NativeEffect::NoEffect);
}

#[test]
fn unknown_pane_does_not_route_across_identities() {
    let mut root = ApplicationRoot::new();
    let mut fence = root.fence();
    fence.pane = PaneId::from_bytes([0x42; 16]);
    assert_eq!(
        root.apply(AppAction::Focus { fence }),
        Err(AppError::UnknownPane)
    );
}

#[test]
fn empty_direct_input_is_accepted_without_a_client() {
    let mut root = ApplicationRoot::new();
    let fence = root.fence();
    root.apply(AppAction::Bind {
        fence,
        evidence: evidence(7, true, true),
    })
    .unwrap();
    let generation = root.snapshot().generation;
    root.apply(AppAction::SubmitInput {
        fence: root.fence(),
        text: String::new(),
    })
    .unwrap();
    assert_eq!(root.snapshot().generation, generation + 1);
    assert_eq!(root.snapshot().last_error, None);
}

#[test]
fn second_bind_and_zero_generation_are_refused() {
    let mut root = ApplicationRoot::new();
    let fence = root.fence();
    let mut zero = evidence(8, true, false);
    zero.pty_generation = 0;
    assert_eq!(
        root.apply(AppAction::Bind { fence, evidence: zero }),
        Err(AppError::ZeroPtyGeneration)
    );
    root.apply(AppAction::Bind {
        fence,
        evidence: evidence(8, true, false),
    })
    .unwrap();
    assert_eq!(
        root.apply(AppAction::Bind {
            fence: root.fence(),
            evidence: evidence(9, true, false),
        }),
        Err(AppError::AlreadyBound)
    );
    assert_eq!(root.snapshot().execution, Some(evidence(8, true, false).execution));
}

fn invariant_evidence(tag: u8, alternate: bool) -> BindingEvidence {
    BindingEvidence {
        execution: ExecutionId::from_bytes([tag; 16]),
        attachment: AttachmentId::from_bytes([tag.wrapping_add(3); 16]),
        controller: true,
        pty_generation: 1,
        alternate_screen: alternate,
    }
}

#[derive(Clone, Copy)]
enum Step {
    Focus,
    Bind,
    Refresh,
    Submit,
    Quit,
    StalePane,
    StaleExecution,
}

fn apply_step(root: &mut ApplicationRoot, step: Step, seed: u8) -> Result<(), AppError> {
    let fence = root.fence();
    match step {
        Step::Focus => root.apply(AppAction::Focus { fence }),
        Step::Bind => root.apply(AppAction::Bind {
            fence,
            evidence: invariant_evidence(seed, seed % 2 == 0),
        }),
        Step::Refresh => root.apply(AppAction::Refresh { fence }),
        Step::Submit => root.apply(AppAction::SubmitInput {
            fence,
            text: "x".into(),
        }),
        Step::Quit => root.apply(AppAction::Quit),
        Step::StalePane => {
            let mut stale = fence;
            stale.pane = PaneId::from_bytes([0xee; 16]);
            root.apply(AppAction::Focus { fence: stale })
        }
        Step::StaleExecution => {
            let mut stale = fence;
            stale.execution = Some(ExecutionId::from_bytes([0xdd; 16]));
            root.apply(AppAction::Refresh { fence: stale })
        }
    }
}

#[test]
fn random_sequences_never_create_a_second_authority() {
    let steps = [
        Step::Focus,
        Step::Bind,
        Step::Refresh,
        Step::Submit,
        Step::Quit,
        Step::StalePane,
        Step::StaleExecution,
    ];
    for seed in 1u8..=64 {
        let mut root = ApplicationRoot::new();
        let mut rng = u64::from(seed).wrapping_mul(0x9E37_79B9_7F4A_7C15);
        for _ in 0..12 {
            rng = rng.wrapping_mul(6364136223846793005).wrapping_add(1);
            let step = steps[(rng as usize) % steps.len()];
            let before = root.snapshot();
            let _ = apply_step(&mut root, step, seed);
            let after = root.snapshot();
            assert_eq!(after.shell.panes.len(), 1);
            if let Some(execution) = after.execution {
                assert_eq!(after.shell.panes[0].execution, Some(execution));
                assert_eq!(
                    after
                        .shell
                        .panes
                        .iter()
                        .filter(|pane| pane.execution.is_some())
                        .count(),
                    1
                );
            }
            if before.execution.is_some() && after.execution.is_some() {
                assert_eq!(before.execution, after.execution);
            }
            if after.eligibility == PresentationEligibility::Unbound {
                assert!(!after.composer_eligible);
            }
        }
    }
}

#[test]
fn failed_stale_sequence_does_not_advance_generation() {
    let mut root = ApplicationRoot::new();
    let fence = root.fence();
    root.apply(AppAction::Bind {
        fence,
        evidence: invariant_evidence(9, false),
    })
    .unwrap();
    let generation = root.snapshot().generation;
    let fence = AppFence {
        pane: root.fence().pane,
        execution: None,
        attachment: None,
        controller: false,
        presentation_epoch: root.fence().presentation_epoch,
    };
    assert!(root.apply(AppAction::Focus { fence }).is_err());
    assert_eq!(root.snapshot().generation, generation);
}

#[test]
fn actions_never_change_the_single_pane_composition() {
    let mut root = ApplicationRoot::new();
    let before = root.snapshot().shell;
    let fence = root.fence();
    root.apply(AppAction::Bind { fence, evidence: evidence(7, true, false) }).unwrap();
    let fence = root.fence();
    let _ = root.apply(AppAction::Focus { fence });
    let fence = root.fence();
    let _ = root.apply(AppAction::SubmitInput { fence, text: "ls".into() });
    root.apply(AppAction::Quit).unwrap();
    let after = root.snapshot().shell;
    assert_eq!(after.panes.len(), 1);
    assert_eq!(after.workspaces, before.workspaces);
    assert_eq!(after.tabs, before.tabs);
    assert_eq!(after.panes[0].id, before.panes[0].id);
    assert_eq!(after.panes[0].title, before.panes[0].title);
}
