//! The decisions of one display poll: how far a poll goes before it yields,
//! which handler takes each frame, and what a socket read outcome means.
//! The loop that reads the socket and decodes frames performs these steps.

use vstd::prelude::*;

use crate::client::{ClientError, InputAdmissionFailure, ResizeFailure};

verus! {

/// Frames parsed in one poll before it yields.
pub const MAX_FRAMES_PER_POLL: usize = 64;

/// Bytes read in one poll before it yields.
pub const MAX_BYTES_PER_POLL: usize = 4194304;

/// What a poll does next.
#[derive(Clone, Copy, Debug, PartialEq, Eq, Structural)]
pub enum PollStep {
    /// Parse the complete frame that waits in the buffer.
    ParseFrame,
    /// Read more bytes from the socket.
    Read,
    /// Stop and report what was committed.
    Finish,
}

/// The next step of a poll that has parsed `parsed_frames` frames and read
/// `bytes_read` bytes: a waiting frame is parsed while the frame budget
/// lasts; without one, the poll reads while both budgets last.
pub open spec fn spec_poll_step(parsed_frames: usize, bytes_read: usize, frame_ready: bool) -> PollStep {
    if frame_ready && parsed_frames < MAX_FRAMES_PER_POLL {
        PollStep::ParseFrame
    } else if parsed_frames >= MAX_FRAMES_PER_POLL || bytes_read >= MAX_BYTES_PER_POLL {
        PollStep::Finish
    } else {
        PollStep::Read
    }
}

/// Decide the next step of a poll. A poll never parses a frame beyond its
/// frame budget and never reads once either budget is spent.
pub fn poll_step(parsed_frames: usize, bytes_read: usize, frame_ready: bool) -> (r: PollStep)
    ensures
        r == spec_poll_step(parsed_frames, bytes_read, frame_ready),
        r == PollStep::ParseFrame ==> frame_ready && parsed_frames < MAX_FRAMES_PER_POLL,
        r == PollStep::Read ==> !frame_ready && parsed_frames < MAX_FRAMES_PER_POLL && bytes_read
            < MAX_BYTES_PER_POLL,
{
    if frame_ready && parsed_frames < MAX_FRAMES_PER_POLL {
        PollStep::ParseFrame
    } else if parsed_frames >= MAX_FRAMES_PER_POLL || bytes_read >= MAX_BYTES_PER_POLL {
        PollStep::Finish
    } else {
        PollStep::Read
    }
}

/// Message-type numbers of the frames a poll can meet.
#[derive(Clone, Copy, Debug, PartialEq, Eq, Structural)]
pub struct FrameTypes {
    pub block_state: u16,
    pub display_snapshot: u16,
    pub display_delta: u16,
    pub resize_result: u16,
    pub error: u16,
    pub lifecycle: u16,
}

/// The handler a frame goes to.
#[derive(Clone, Copy, Debug, PartialEq, Eq, Structural)]
pub enum FrameRoute {
    BlockState,
    Display,
    ResizeResult,
    ServerError,
    Lifecycle,
}

/// Which handler takes a frame of type `message_type`: block state first,
/// then the display chunks, resize results, server errors and lifecycle
/// messages; any other type is a protocol error.
pub open spec fn spec_route_frame(types: FrameTypes, message_type: u16) -> Result<
    FrameRoute,
    ClientError,
> {
    if message_type == types.block_state {
        Ok(FrameRoute::BlockState)
    } else if message_type == types.display_snapshot || message_type == types.display_delta {
        Ok(FrameRoute::Display)
    } else if message_type == types.resize_result {
        Ok(FrameRoute::ResizeResult)
    } else if message_type == types.error {
        Ok(FrameRoute::ServerError)
    } else if message_type == types.lifecycle {
        Ok(FrameRoute::Lifecycle)
    } else {
        Err(ClientError::Protocol)
    }
}

/// Route one frame by its message type.
pub fn route_frame(types: &FrameTypes, message_type: u16) -> (r: Result<FrameRoute, ClientError>)
    ensures
        r == spec_route_frame(*types, message_type),
{
    if message_type == types.block_state {
        Ok(FrameRoute::BlockState)
    } else if message_type == types.display_snapshot || message_type == types.display_delta {
        Ok(FrameRoute::Display)
    } else if message_type == types.resize_result {
        Ok(FrameRoute::ResizeResult)
    } else if message_type == types.error {
        Ok(FrameRoute::ServerError)
    } else if message_type == types.lifecycle {
        Ok(FrameRoute::Lifecycle)
    } else {
        Err(ClientError::Protocol)
    }
}

/// What one nonblocking socket read gave.
#[derive(Clone, Copy, Debug, PartialEq, Eq, Structural)]
pub enum ReadEvent {
    /// The peer closed the stream.
    Closed,
    /// Bytes arrived.
    Received(usize),
    /// Nothing is ready now.
    WouldBlock,
    /// The read failed.
    Failed,
}

/// What a poll does with a read.
#[derive(Clone, Copy, Debug, PartialEq, Eq, Structural)]
pub enum ReadReaction {
    /// Admit the received bytes; the poll has now read `bytes_read` bytes.
    Admit { bytes_read: usize },
    /// Stop polling for now.
    Finish,
    /// The attachment is gone: input and resizes fail as disconnected.
    Disconnect {
        error: ClientError,
        input_failure: InputAdmissionFailure,
        resize_failure: ResizeFailure,
    },
    /// The poll fails with `error`.
    Fail { error: ClientError },
}

/// The reaction to a read event after `bytes_read` bytes in this poll: a
/// closed stream disconnects, received bytes count toward the budget
/// (saturating), a would-block ends the poll and a failure is an I/O error.
pub open spec fn spec_react_to_read(bytes_read: usize, event: ReadEvent) -> ReadReaction {
    match event {
        ReadEvent::Closed => ReadReaction::Disconnect {
            error: ClientError::Disconnected,
            input_failure: InputAdmissionFailure::Disconnected,
            resize_failure: ResizeFailure::Disconnected,
        },
        ReadEvent::Received(count) => ReadReaction::Admit {
            bytes_read: if bytes_read + count > usize::MAX {
                usize::MAX
            } else {
                (bytes_read + count) as usize
            },
        },
        ReadEvent::WouldBlock => ReadReaction::Finish,
        ReadEvent::Failed => ReadReaction::Fail { error: ClientError::Io },
    }
}

/// React to one read event.
pub fn react_to_read(bytes_read: usize, event: ReadEvent) -> (r: ReadReaction)
    ensures
        r == spec_react_to_read(bytes_read, event),
{
    match event {
        ReadEvent::Closed => ReadReaction::Disconnect {
            error: ClientError::Disconnected,
            input_failure: InputAdmissionFailure::Disconnected,
            resize_failure: ResizeFailure::Disconnected,
        },
        ReadEvent::Received(count) => ReadReaction::Admit {
            bytes_read: bytes_read.saturating_add(count),
        },
        ReadEvent::WouldBlock => ReadReaction::Finish,
        ReadEvent::Failed => ReadReaction::Fail { error: ClientError::Io },
    }
}

} // verus!
