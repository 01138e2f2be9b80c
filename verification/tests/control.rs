use seyal_client::client::{
    ClientError, DisplayKind, GridGeometry, InputAdmissionFailure, ProtocolErrorCode, ResizeFailure,
    ResizePhase,
};
use seyal_client::control::{
    check_attach_reply, check_attached_snapshot, check_first_chunk, terminal_key_kind, valid_terminal_key_request, ControlChannel, FlushFollowUp, OutboundKind, ResizeResult,
    ResizeResultCode, ResizeStep, Role, TerminalKeyKind, WriteOutcome, MAX_OUTBOUND_WIRE_BYTES,
};
use seyal_client::ids::{AttachmentId, ExecutionId};

fn attachment() -> AttachmentId {
    AttachmentId::from_bytes([7; 16])
}

fn geometry(rows: u16, columns: u16) -> GridGeometry {
    GridGeometry { rows, columns }
}

fn channel(role: Role) -> ControlChannel {
    ControlChannel::new(attachment(), role, geometry(24, 80), vec![0xee; 4])
}

fn resize_frame(step: ResizeStep) -> Vec<u8> {
    match step {
        ResizeStep::Idle => Vec::new(),
        ResizeStep::Replace { request_id, geometry }
        | ResizeStep::Enqueue { request_id, geometry } => {
            let mut frame = vec![0x10; 4];
            frame.extend_from_slice(&request_id.to_le_bytes());
            frame.extend_from_slice(&geometry.rows.to_le_bytes());
            frame.extend_from_slice(&geometry.columns.to_le_bytes());
            frame
        }
    }
}

fn drive(channel: &mut ControlChannel, step: ResizeStep) {
    let frame = resize_frame(step);
    channel.complete_resize_step(step, frame).unwrap();
}

fn write_all(channel: &mut ControlChannel) {
    while let Some(front) = channel.front_write() {
        let count = front.bytes.len() - front.offset;
        match channel.record_write(WriteOutcome::Accepted(count)).unwrap() {
            FlushFollowUp::WriteAgain => continue,
            FlushFollowUp::Settled(step) => drive(channel, step),
        }
    }
}

#[test]
fn desired_geometry_issues_one_request_and_then_settles() {
    let mut channel = channel(Role::Controller);
    let step = channel.set_desired_geometry_for_layout(geometry(30, 100), false).unwrap();
    assert_eq!(step, ResizeStep::Enqueue { request_id: 1, geometry: geometry(30, 100) });
    drive(&mut channel, step);
    assert_eq!(channel.unresolved_resizes().len(), 1);
    assert_eq!(channel.reconcile_resize(), Ok(ResizeStep::Idle));
    assert_eq!(channel.outbound_wire_bytes(), resize_frame(step).len());
}

#[test]
fn committed_geometry_needs_no_request() {
    let mut channel = channel(Role::Controller);
    assert_eq!(
        channel.set_desired_geometry_for_layout(geometry(24, 80), false),
        Ok(ResizeStep::Idle)
    );
    assert!(!channel.wants_write());
}

#[test]
fn unstarted_request_is_rewritten_in_place() {
    let mut channel = channel(Role::Controller);
    let first = channel.set_desired_geometry_for_layout(geometry(30, 100), false).unwrap();
    drive(&mut channel, first);
    let second = channel.set_desired_geometry_for_layout(geometry(40, 120), false).unwrap();
    assert_eq!(second, ResizeStep::Replace { request_id: 1, geometry: geometry(40, 120) });
    drive(&mut channel, second);
    assert_eq!(channel.unresolved_resizes().len(), 1);
    assert_eq!(channel.unresolved_resizes()[0].geometry, geometry(40, 120));
    assert_eq!(channel.front_write().unwrap().bytes, resize_frame(second));
}

#[test]
fn replacement_of_another_length_is_a_protocol_error() {
    let mut channel = channel(Role::Controller);
    let first = channel.set_desired_geometry_for_layout(geometry(30, 100), false).unwrap();
    drive(&mut channel, first);
    let second = channel.set_desired_geometry_for_layout(geometry(40, 120), false).unwrap();
    assert_eq!(channel.complete_resize_step(second, vec![1, 2, 3]), Err(ClientError::Protocol));
    assert_eq!(channel.unresolved_resizes()[0].geometry, geometry(30, 100));
}

#[test]
fn partial_writes_keep_the_frame_at_the_front_and_track_the_phase() {
    let mut channel = channel(Role::Controller);
    let step = channel.set_desired_geometry_for_layout(geometry(30, 100), false).unwrap();
    drive(&mut channel, step);
    let total = channel.outbound_wire_bytes();
    assert_eq!(
        channel.record_write(WriteOutcome::Accepted(3)),
        Ok(FlushFollowUp::Settled(ResizeStep::Idle))
    );
    assert_eq!(channel.outbound_wire_bytes(), total - 3);
    assert_eq!(channel.front_write().unwrap().offset, 3);
    assert_eq!(channel.unresolved_resizes()[0].phase, ResizePhase::Writing);
    channel.record_write(WriteOutcome::Accepted(total - 3)).unwrap();
    assert!(!channel.wants_write());
    assert_eq!(channel.outbound_wire_bytes(), 0);
    assert_eq!(channel.unresolved_resizes()[0].phase, ResizePhase::SentWaitingResult);
}

#[test]
fn started_request_is_not_rewritten() {
    let mut channel = channel(Role::Controller);
    let first = channel.set_desired_geometry_for_layout(geometry(30, 100), false).unwrap();
    drive(&mut channel, first);
    channel.record_write(WriteOutcome::Accepted(2)).unwrap();
    let second = channel.set_desired_geometry_for_layout(geometry(40, 120), false).unwrap();
    assert_eq!(second, ResizeStep::Enqueue { request_id: 2, geometry: geometry(40, 120) });
}

#[test]
fn oversized_or_zero_writes_are_io_errors() {
    let mut channel = channel(Role::Controller);
    channel.admit_input(vec![1, 2, 3], OutboundKind::Input).unwrap();
    assert_eq!(channel.record_write(WriteOutcome::Accepted(0)), Err(ClientError::Io));
    assert_eq!(channel.record_write(WriteOutcome::Accepted(4)), Err(ClientError::Io));
    assert_eq!(
        channel.record_write(WriteOutcome::WouldBlock),
        Ok(FlushFollowUp::Settled(ResizeStep::Idle))
    );
    assert_eq!(channel.outbound_wire_bytes(), 3);
}

#[test]
fn socket_failure_marks_input_and_resize_disconnected() {
    let mut channel = channel(Role::Controller);
    channel.admit_input(vec![1], OutboundKind::Input).unwrap();
    assert_eq!(channel.record_write(WriteOutcome::Failed), Err(ClientError::Io));
    assert_eq!(channel.input_failure(), Some(InputAdmissionFailure::Disconnected));
    assert_eq!(channel.resize_failure(), Some(ResizeFailure::Disconnected));
}

#[test]
fn applied_result_awaits_the_projection_then_clears() {
    let mut channel = channel(Role::Controller);
    let step = channel.set_desired_geometry_for_layout(geometry(30, 100), false).unwrap();
    drive(&mut channel, step);
    write_all(&mut channel);
    let result = ResizeResult {
        attachment_id: attachment(),
        request_id: 1,
        result_code: ResizeResultCode::Applied,
        applied_generation: 9,
    };
    assert_eq!(channel.accept_resize_result(result), Ok(ResizeStep::Idle));
    assert!(channel.unresolved_resizes().is_empty());
    assert_eq!(channel.observe_projection(24, 80, 8), Ok(ResizeStep::Idle));
    assert_eq!(channel.observe_projection(30, 100, 9), Ok(ResizeStep::Idle));
    assert_eq!(channel.resize_failure(), None);
}

#[test]
fn projection_contradicting_the_fence_fails() {
    let mut channel = channel(Role::Controller);
    let step = channel.set_desired_geometry_for_layout(geometry(30, 100), false).unwrap();
    drive(&mut channel, step);
    write_all(&mut channel);
    channel
        .accept_resize_result(ResizeResult {
            attachment_id: attachment(),
            request_id: 1,
            result_code: ResizeResultCode::Applied,
            applied_generation: 9,
        })
        .unwrap();
    assert_eq!(channel.observe_projection(25, 80, 9), Err(ClientError::ResizeProtocolFailure));
    assert_eq!(channel.resize_failure(), Some(ResizeFailure::Protocol));
}

#[test]
fn refused_desire_is_suppressed_until_retried() {
    let mut channel = channel(Role::Controller);
    let step = channel.set_desired_geometry_for_layout(geometry(30, 100), false).unwrap();
    drive(&mut channel, step);
    write_all(&mut channel);
    let refused = ResizeResult {
        attachment_id: attachment(),
        request_id: 1,
        result_code: ResizeResultCode::Error(ProtocolErrorCode::Other(40)),
        applied_generation: 0,
    };
    assert_eq!(channel.accept_resize_result(refused), Ok(ResizeStep::Idle));
    assert_eq!(
        channel.resize_failure(),
        Some(ResizeFailure::Apply(ProtocolErrorCode::Other(40)))
    );
    assert_eq!(channel.role(), Role::Controller);
    assert_eq!(
        channel.set_desired_geometry_for_layout(geometry(30, 100), false),
        Ok(ResizeStep::Idle)
    );
    assert_eq!(
        channel.set_desired_geometry_for_layout(geometry(30, 100), true),
        Ok(ResizeStep::Enqueue { request_id: 2, geometry: geometry(30, 100) })
    );
    assert_eq!(channel.resize_failure(), None);
}

#[test]
fn retry_lifts_suppression() {
    let mut channel = channel(Role::Controller);
    let step = channel.set_desired_geometry_for_layout(geometry(30, 100), false).unwrap();
    drive(&mut channel, step);
    write_all(&mut channel);
    channel
        .accept_resize_result(ResizeResult {
            attachment_id: attachment(),
            request_id: 1,
            result_code: ResizeResultCode::Error(ProtocolErrorCode::Other(40)),
            applied_generation: 0,
        })
        .unwrap();
    assert_eq!(
        channel.retry_resize(),
        Ok(ResizeStep::Enqueue { request_id: 2, geometry: geometry(30, 100) })
    );
}

#[test]
fn authority_refusal_demotes_to_observer() {
    let mut channel = channel(Role::Controller);
    let step = channel.set_desired_geometry_for_layout(geometry(30, 100), false).unwrap();
    drive(&mut channel, step);
    write_all(&mut channel);
    channel
        .accept_resize_result(ResizeResult {
            attachment_id: attachment(),
            request_id: 1,
            result_code: ResizeResultCode::Error(ProtocolErrorCode::ControllerBusy),
            applied_generation: 0,
        })
        .unwrap();
    assert_eq!(channel.role(), Role::Observer);
    assert_eq!(channel.input_failure(), Some(InputAdmissionFailure::LostController));
    assert_eq!(channel.check_committed_text(3, 16), Err(ClientError::LostController));
    assert_eq!(channel.retry_resize(), Ok(ResizeStep::Idle));
    assert!(!channel.wants_write());
}

#[test]
fn results_for_unknown_requests_or_other_attachments_fail() {
    let mut channel = channel(Role::Controller);
    let unknown = ResizeResult {
        attachment_id: attachment(),
        request_id: 5,
        result_code: ResizeResultCode::Applied,
        applied_generation: 1,
    };
    assert_eq!(channel.accept_resize_result(unknown), Err(ClientError::ResizeProtocolFailure));
    let foreign = ResizeResult { attachment_id: AttachmentId::from_bytes([8; 16]), ..unknown };
    assert_eq!(channel.accept_resize_result(foreign), Err(ClientError::ResizeProtocolFailure));
    assert_eq!(channel.resize_failure(), Some(ResizeFailure::Protocol));
}

#[test]
fn observers_cannot_send_input_or_resize() {
    let mut channel = channel(Role::Observer);
    assert_eq!(
        channel.set_desired_geometry_for_layout(geometry(30, 100), false),
        Err(ClientError::LostController)
    );
    assert_eq!(
        channel.check_terminal_key(TerminalKeyKind::Enter, 0),
        Err(ClientError::LostController)
    );
    assert_eq!(channel.input_failure(), Some(InputAdmissionFailure::LostController));
}

#[test]
fn invalid_geometry_is_refused_before_anything_else() {
    let mut channel = channel(Role::Observer);
    for bad in [geometry(0, 80), geometry(24, 0), geometry(257, 80), geometry(24, 513)] {
        assert_eq!(
            channel.set_desired_geometry_for_layout(bad, false),
            Err(ClientError::InvalidGeometry)
        );
    }
    assert_eq!(channel.input_failure(), None);
}

#[test]
fn committed_text_admission_rules() {
    let mut channel = channel(Role::Controller);
    assert_eq!(channel.check_committed_text(0, 16), Ok(false));
    assert_eq!(channel.check_committed_text(17, 16), Err(ClientError::CommitTooLarge));
    assert_eq!(channel.input_failure(), Some(InputAdmissionFailure::CommitTooLarge));
    assert_eq!(channel.check_committed_text(16, 16), Ok(true));
}

#[test]
fn outbound_bytes_are_bounded() {
    let mut channel = channel(Role::Controller);
    channel
        .admit_input(vec![0; MAX_OUTBOUND_WIRE_BYTES], OutboundKind::Input)
        .unwrap();
    assert_eq!(
        channel.admit_input(vec![0; 1], OutboundKind::TerminalKey),
        Err(ClientError::ClientBackpressure)
    );
    assert_eq!(channel.input_failure(), Some(InputAdmissionFailure::ClientBackpressure));
    channel.record_write(WriteOutcome::Accepted(10)).unwrap();
    assert_eq!(channel.input_failure(), None);
    assert_eq!(channel.outbound_wire_bytes(), MAX_OUTBOUND_WIRE_BYTES - 10);
}

#[test]
fn resync_is_queued_once_and_written_next() {
    let mut channel = channel(Role::Controller);
    assert_eq!(channel.request_resync(), Ok(true));
    assert_eq!(channel.request_resync(), Ok(false));
    assert_eq!(channel.front_write().unwrap().kind, OutboundKind::Resync);
    assert_eq!(channel.front_write().unwrap().bytes, vec![0xee; 4]);
}

#[test]
fn terminal_key_requests_are_validated() {
    assert!(valid_terminal_key_request(TerminalKeyKind::ControlAscii, 0x41));
    assert!(valid_terminal_key_request(TerminalKeyKind::ControlAscii, 0x20));
    assert!(valid_terminal_key_request(TerminalKeyKind::ControlAscii, 0x3f));
    assert!(!valid_terminal_key_request(TerminalKeyKind::ControlAscii, 0x60));
    assert!(!valid_terminal_key_request(TerminalKeyKind::ControlAscii, 0));
    assert!(valid_terminal_key_request(TerminalKeyKind::Enter, 0));
    assert!(!valid_terminal_key_request(TerminalKeyKind::Tab, 0x41));
    let mut channel = channel(Role::Controller);
    assert_eq!(channel.check_terminal_key(TerminalKeyKind::Escape, 1), Err(ClientError::Protocol));
    assert_eq!(channel.check_terminal_key(TerminalKeyKind::ArrowUp, 0), Ok(()));
}

#[test]
fn host_key_codes_name_the_semantic_keys() {
    assert_eq!(terminal_key_kind(1), Some(TerminalKeyKind::Enter));
    assert_eq!(terminal_key_kind(8), Some(TerminalKeyKind::ArrowLeft));
    assert_eq!(terminal_key_kind(9), Some(TerminalKeyKind::ControlAscii));
    assert_eq!(terminal_key_kind(0), None);
    assert_eq!(terminal_key_kind(10), None);
}

#[test]
fn attach_reply_and_initial_snapshot_are_validated() {
    let execution = ExecutionId::from_bytes([1; 16]);
    let other = ExecutionId::from_bytes([2; 16]);
    assert_eq!(check_attach_reply(execution, Role::Controller, execution, Role::Controller), Ok(()));
    assert_eq!(
        check_attach_reply(execution, Role::Controller, other, Role::Controller),
        Err(ClientError::InvalidAttachment)
    );
    assert_eq!(
        check_attach_reply(execution, Role::Controller, execution, Role::Observer),
        Err(ClientError::InvalidAttachment)
    );
    assert_eq!(check_first_chunk(DisplayKind::Snapshot, 0), Ok(()));
    assert_eq!(check_first_chunk(DisplayKind::Delta, 0), Err(ClientError::Protocol));
    assert_eq!(check_first_chunk(DisplayKind::Snapshot, 1), Err(ClientError::Protocol));
    assert_eq!(check_attached_snapshot(true, 4, 4, 24, 80), Ok(()));
    assert_eq!(check_attached_snapshot(false, 4, 4, 24, 80), Err(ClientError::Protocol));
    assert_eq!(check_attached_snapshot(true, 3, 4, 24, 80), Err(ClientError::Protocol));
    assert_eq!(check_attached_snapshot(true, 4, 4, 0, 80), Err(ClientError::Protocol));
}
