use seyal_client::composer::{
    BlockPresentationState, ComposerAction, ComposerError, ComposerMode, ComposerState,
    RuntimeBlockRecord,
};
use seyal_client::ids::{BlockId, PaneId};
use seyal_client::presentation::{InputRoute, PresentationMode};

fn pane() -> PaneId {
    PaneId::from_bytes([0x11; 16])
}

fn other_pane() -> PaneId {
    PaneId::from_bytes([0x22; 16])
}

fn block(tag: u8) -> BlockId {
    BlockId::from_bytes([tag; 16])
}

fn ready(state: &mut ComposerState, pane: PaneId) -> u64 {
    state
        .apply(ComposerAction::EnsurePane { pane })
        .expect("ensure");
    state.snapshot(pane).expect("snap").epoch
}

fn running(id: BlockId, command: &str, start: u64) -> RuntimeBlockRecord {
    RuntimeBlockRecord {
        id,
        command: command.to_owned(),
        start_line: start,
        end_line: None,
        running: true,
        exit_status: None,
    }
}

fn completed(id: BlockId, command: &str, start: u64, end: u64) -> RuntimeBlockRecord {
    RuntimeBlockRecord {
        id,
        command: command.to_owned(),
        start_line: start,
        end_line: Some(end),
        running: false,
        exit_status: Some(0),
    }
}

#[test]
fn busy_disables_submit_and_preserves_draft() {
    let pane = pane();
    let mut state = ComposerState::new();
    let epoch = ready(&mut state, pane);
    state
        .apply(ComposerAction::SetDraft {
            pane,
            text: "echo busy".into(),
            epoch,
        })
        .unwrap();
    state
        .apply(ComposerAction::SetBusy {
            pane,
            process: Some("vite".into()),
        })
        .unwrap();
    let snap = state.snapshot(pane).unwrap();
    assert_eq!(
        snap.mode,
        ComposerMode::Busy {
            process: "vite".into()
        }
    );
    assert!(!snap.can_submit);
    assert_eq!(
        state.apply(ComposerAction::Submit {
            pane,
            epoch: snap.epoch
        }),
        Err(ComposerError::SubmitDisabled)
    );
    assert_eq!(state.snapshot(pane).unwrap().draft, "echo busy");
    assert!(state.snapshot(pane).unwrap().pending_request_id.is_none());
}

#[test]
fn rejected_submit_keeps_authoritative_draft() {
    let pane = pane();
    let mut state = ComposerState::new();
    let epoch = ready(&mut state, pane);
    state
        .apply(ComposerAction::SetDraft {
            pane,
            text: "git status".into(),
            epoch,
        })
        .unwrap();
    let request_id = state
        .apply(ComposerAction::Submit { pane, epoch })
        .unwrap()
        .expect("request");
    assert_eq!(state.snapshot(pane).unwrap().draft, "git status");
    assert!(!state.snapshot(pane).unwrap().can_submit);
    state
        .apply(ComposerAction::ApplyResult {
            pane,
            request_id,
            accepted: false,
        })
        .unwrap();
    let snap = state.snapshot(pane).unwrap();
    assert_eq!(snap.draft, "git status");
    assert!(snap.pending_request_id.is_none());
    assert!(snap.can_submit);
    assert_eq!(snap.mode, ComposerMode::Available);
}

#[test]
fn accepted_result_clears_draft_only_for_matching_request_id() {
    let pane = pane();
    let mut state = ComposerState::new();
    let epoch = ready(&mut state, pane);
    state
        .apply(ComposerAction::SetDraft {
            pane,
            text: "printf hello".into(),
            epoch,
        })
        .unwrap();
    let request_id = state
        .apply(ComposerAction::Submit { pane, epoch })
        .unwrap()
        .expect("request");
    state
        .apply(ComposerAction::ApplyResult {
            pane,
            request_id,
            accepted: true,
        })
        .unwrap();
    let snap = state.snapshot(pane).unwrap();
    assert!(snap.draft.is_empty());
    assert!(snap.pending_request_id.is_none());
    assert!(!snap.can_submit);
}

#[test]
fn stale_request_id_is_ignored_and_preserves_draft() {
    let pane = pane();
    let mut state = ComposerState::new();
    let epoch = ready(&mut state, pane);
    state
        .apply(ComposerAction::SetDraft {
            pane,
            text: "pwd".into(),
            epoch,
        })
        .unwrap();
    let request_id = state
        .apply(ComposerAction::Submit { pane, epoch })
        .unwrap()
        .expect("request");
    assert_eq!(
        state.apply(ComposerAction::ApplyResult {
            pane,
            request_id: request_id.wrapping_add(9),
            accepted: true,
        }),
        Err(ComposerError::StaleRequest)
    );
    let snap = state.snapshot(pane).unwrap();
    assert_eq!(snap.draft, "pwd");
    assert_eq!(snap.pending_request_id, Some(request_id));
    assert_eq!(
        snap.mode,
        ComposerMode::Busy {
            process: "pwd".into()
        }
    );
}

#[test]
fn composer_stale_epoch_fails_closed() {
    let pane = pane();
    let mut state = ComposerState::new();
    let epoch = ready(&mut state, pane);
    state
        .apply(ComposerAction::SetDraft {
            pane,
            text: "echo epoch".into(),
            epoch,
        })
        .unwrap();
    state.apply(ComposerAction::Submit { pane, epoch }).unwrap();
    assert_eq!(
        state.apply(ComposerAction::SetDraft {
            pane,
            text: "echo overwritten".into(),
            epoch,
        }),
        Err(ComposerError::StaleEpoch)
    );
    assert_eq!(state.snapshot(pane).unwrap().draft, "echo epoch");
    assert_eq!(
        state.apply(ComposerAction::Submit { pane, epoch }),
        Err(ComposerError::StaleEpoch)
    );
}

#[test]
fn hidden_direct_terminal_route_is_not_submittable() {
    let pane = pane();
    let mut state = ComposerState::new();
    let epoch = ready(&mut state, pane);
    state
        .apply(ComposerAction::SetDraft {
            pane,
            text: "htop".into(),
            epoch,
        })
        .unwrap();
    state
        .apply(ComposerAction::ApplyPresentation {
            pane,
            mode: PresentationMode::Tui,
            input_route: InputRoute::DirectTerminal,
        })
        .unwrap();
    let snap = state.snapshot(pane).unwrap();
    assert_eq!(snap.mode, ComposerMode::Hidden);
    assert!(snap.allows_direct_terminal);
    assert!(!snap.can_submit);
    assert_eq!(snap.draft, "htop");
    assert_eq!(
        state.apply(ComposerAction::Submit {
            pane,
            epoch: snap.epoch
        }),
        Err(ComposerError::SubmitDisabled)
    );
    assert_eq!(state.snapshot(pane).unwrap().draft, "htop");
}

#[test]
fn raw_direct_terminal_hides_composer_without_clearing_draft() {
    let pane = pane();
    let mut state = ComposerState::new();
    let epoch = ready(&mut state, pane);
    state
        .apply(ComposerAction::SetDraft {
            pane,
            text: "vim".into(),
            epoch,
        })
        .unwrap();
    state
        .apply(ComposerAction::ApplyPresentation {
            pane,
            mode: PresentationMode::Raw,
            input_route: InputRoute::DirectTerminal,
        })
        .unwrap();
    let snap = state.snapshot(pane).unwrap();
    assert_eq!(snap.mode, ComposerMode::Hidden);
    assert!(snap.allows_direct_terminal);
    assert_eq!(snap.draft, "vim");
}

#[test]
fn runtime_projection_does_not_forge_prior_block_completion() {
    let pane = pane();
    let mut state = ComposerState::new();
    ready(&mut state, pane);
    let first = block(1);
    let second = block(2);
    state
        .apply(ComposerAction::ApplyRuntimeBlocks {
            pane,
            records: vec![running(first, "printf hello", 10)],
        })
        .unwrap();
    state
        .apply(ComposerAction::ApplyRuntimeBlocks {
            pane,
            records: vec![
                running(first, "printf hello", 10),
                running(second, "seq 1 1000", 20),
            ],
        })
        .unwrap();
    let snap = state.snapshot(pane).unwrap();
    assert_eq!(snap.blocks.len(), 2);
    assert_eq!(snap.blocks[0].pane, pane);
    assert_eq!(snap.blocks[0].id, first);
    assert_eq!(snap.blocks[0].state, BlockPresentationState::Running);
    assert_eq!(snap.blocks[1].id, second);
    assert_eq!(snap.blocks[1].state, BlockPresentationState::Running);
    assert_ne!(snap.blocks[0].pane, other_pane());
}

#[test]
fn runtime_records_are_the_only_block_writer() {
    let pane = pane();
    let mut state = ComposerState::new();
    let epoch = ready(&mut state, pane);
    state
        .apply(ComposerAction::SetDraft {
            pane,
            text: "echo one".into(),
            epoch,
        })
        .unwrap();
    state.apply(ComposerAction::Submit { pane, epoch }).unwrap();
    assert!(state.snapshot(pane).unwrap().blocks.is_empty());
    let id = block(7);
    state
        .apply(ComposerAction::ApplyRuntimeBlocks {
            pane,
            records: vec![completed(id, "echo one", 1, 2)],
        })
        .unwrap();
    let snap = state.snapshot(pane).unwrap();
    assert_eq!(snap.blocks.len(), 1);
    assert_eq!(snap.blocks[0].id, id);
    assert_eq!(snap.blocks[0].pane, pane);
    assert_eq!(snap.blocks[0].state, BlockPresentationState::Completed);
    assert_eq!(snap.blocks[0].start_line, 1);
    assert_eq!(snap.blocks[0].end_line, Some(2));
}

#[test]
fn drafts_are_isolated_per_pane() {
    let first = pane();
    let second = other_pane();
    let mut state = ComposerState::new();
    let first_epoch = ready(&mut state, first);
    let second_epoch = ready(&mut state, second);
    state
        .apply(ComposerAction::SetDraft {
            pane: first,
            text: "first draft".into(),
            epoch: first_epoch,
        })
        .unwrap();
    state
        .apply(ComposerAction::SetDraft {
            pane: second,
            text: "second draft".into(),
            epoch: second_epoch,
        })
        .unwrap();
    assert_eq!(state.snapshot(first).unwrap().draft, "first draft");
    assert_eq!(state.snapshot(second).unwrap().draft, "second draft");
    assert_eq!(
        state.apply(ComposerAction::SetDraft {
            pane: PaneId::from_bytes([0x33; 16]),
            text: "ghost".into(),
            epoch: 1,
        }),
        Err(ComposerError::UnknownPane)
    );
}

#[test]
fn failed_runtime_exit_projects_failed_without_completing_siblings() {
    let pane = pane();
    let mut state = ComposerState::new();
    ready(&mut state, pane);
    let failed = block(3);
    let running_id = block(4);
    state
        .apply(ComposerAction::ApplyRuntimeBlocks {
            pane,
            records: vec![
                RuntimeBlockRecord {
                    id: failed,
                    command: "false".into(),
                    start_line: 1,
                    end_line: Some(1),
                    running: false,
                    exit_status: Some(1),
                },
                running(running_id, "sleep 10", 2),
            ],
        })
        .unwrap();
    let snap = state.snapshot(pane).unwrap();
    assert_eq!(snap.blocks[0].state, BlockPresentationState::Failed);
    assert_eq!(snap.blocks[1].state, BlockPresentationState::Running);
}

#[test]
fn empty_draft_submit_is_rejected_and_recorded() {
    let pane = pane();
    let mut state = ComposerState::new();
    let epoch = ready(&mut state, pane);
    assert_eq!(
        state.apply(ComposerAction::Submit { pane, epoch }),
        Err(ComposerError::EmptyDraft)
    );
    assert_eq!(
        state.snapshot(pane).unwrap().last_error,
        Some(ComposerError::EmptyDraft)
    );
    assert_eq!(state.snapshot(pane).unwrap().epoch, epoch);
}

#[test]
fn unknown_pane_snapshot_fails_closed() {
    let state = ComposerState::new();
    assert_eq!(state.snapshot(pane()), Err(ComposerError::UnknownPane));
}

#[test]
fn submit_allocates_increasing_request_ids_and_bumps_epoch() {
    let pane = pane();
    let mut state = ComposerState::new();
    let epoch = ready(&mut state, pane);
    assert_eq!(epoch, 1);
    state
        .apply(ComposerAction::SetDraft {
            pane,
            text: "ls".into(),
            epoch,
        })
        .unwrap();
    assert_eq!(state.apply(ComposerAction::Submit { pane, epoch }), Ok(Some(1)));
    let snap = state.snapshot(pane).unwrap();
    assert_eq!(snap.epoch, 2);
    assert_eq!(snap.pending_request_id, Some(1));
    state
        .apply(ComposerAction::ApplyResult {
            pane,
            request_id: 1,
            accepted: false,
        })
        .unwrap();
    let epoch = state.snapshot(pane).unwrap().epoch;
    assert_eq!(epoch, 3);
    assert_eq!(state.apply(ComposerAction::Submit { pane, epoch }), Ok(Some(2)));
}

#[test]
fn error_messages_are_fixed_texts() {
    assert_eq!(ComposerError::UnknownPane.message(), "Unknown Pane.");
    assert_eq!(ComposerError::EmptyDraft.message(), "Composer draft is empty.");
    assert_eq!(ComposerError::StaleEpoch.message(), "Composer action epoch is stale.");
}
