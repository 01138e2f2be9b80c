use seyal_client::client::{ClientError, InputAdmissionFailure, ResizeFailure};
use seyal_client::poll::{
    poll_step, react_to_read, route_frame, FrameRoute, FrameTypes, PollStep, ReadEvent,
    ReadReaction, MAX_BYTES_PER_POLL, MAX_FRAMES_PER_POLL,
};

fn types() -> FrameTypes {
    FrameTypes {
        block_state: 0x0801,
        display_snapshot: 0x0101,
        display_delta: 0x0102,
        resize_result: 0x0201,
        error: 0x0001,
        lifecycle: 0x0301,
    }
}

#[test]
fn waiting_frames_are_parsed_until_the_frame_budget_is_spent() {
    assert_eq!(poll_step(0, 0, true), PollStep::ParseFrame);
    assert_eq!(poll_step(MAX_FRAMES_PER_POLL - 1, MAX_BYTES_PER_POLL, true), PollStep::ParseFrame);
    assert_eq!(poll_step(MAX_FRAMES_PER_POLL, 0, true), PollStep::Finish);
}

#[test]
fn reads_stop_once_either_budget_is_spent() {
    assert_eq!(poll_step(0, 0, false), PollStep::Read);
    assert_eq!(poll_step(3, MAX_BYTES_PER_POLL - 1, false), PollStep::Read);
    assert_eq!(poll_step(3, MAX_BYTES_PER_POLL, false), PollStep::Finish);
    assert_eq!(poll_step(MAX_FRAMES_PER_POLL, 0, false), PollStep::Finish);
}

#[test]
fn frames_route_by_message_type() {
    let t = types();
    assert_eq!(route_frame(&t, 0x0801), Ok(FrameRoute::BlockState));
    assert_eq!(route_frame(&t, 0x0101), Ok(FrameRoute::Display));
    assert_eq!(route_frame(&t, 0x0102), Ok(FrameRoute::Display));
    assert_eq!(route_frame(&t, 0x0201), Ok(FrameRoute::ResizeResult));
    assert_eq!(route_frame(&t, 0x0001), Ok(FrameRoute::ServerError));
    assert_eq!(route_frame(&t, 0x0301), Ok(FrameRoute::Lifecycle));
    assert_eq!(route_frame(&t, 0x7777), Err(ClientError::Protocol));
}

#[test]
fn read_events_map_to_reactions() {
    assert_eq!(
        react_to_read(10, ReadEvent::Closed),
        ReadReaction::Disconnect {
            error: ClientError::Disconnected,
            input_failure: InputAdmissionFailure::Disconnected,
            resize_failure: ResizeFailure::Disconnected,
        }
    );
    assert_eq!(react_to_read(10, ReadEvent::Received(5)), ReadReaction::Admit { bytes_read: 15 });
    assert_eq!(
        react_to_read(usize::MAX - 1, ReadEvent::Received(5)),
        ReadReaction::Admit { bytes_read: usize::MAX }
    );
    assert_eq!(react_to_read(0, ReadEvent::WouldBlock), ReadReaction::Finish);
    assert_eq!(react_to_read(0, ReadEvent::Failed), ReadReaction::Fail { error: ClientError::Io });
}
