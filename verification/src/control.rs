//! The outbound half of a display attachment: the FIFO of control frames
//! waiting for the socket, and the resize negotiation that rides on it.
//!
//! Frames are encoded by the caller; this state decides what may be queued,
//! accounts for every byte the socket has not yet accepted, tracks each
//! resize request from queueing to its result and the projection that shows
//! it, and tells the caller which resize frame to encode next.

use std::collections::VecDeque;

use vstd::prelude::*;

use crate::client::{
    latest_record, newest_pending_geometry, resize_needs_mutation, spec_newest_pending, AppliedFence,
    ClientError, DisplayKind, GridGeometry, InputAdmissionFailure, ProtocolErrorCode, ResizeFailure,
    ResizePhase, ResizeRecord,
};
use crate::ids::{AttachmentId, ExecutionId};

verus! {

broadcast use vstd::std_specs::vecdeque::group_vec_dequeue_axioms;

/// Most bytes the outbound FIFO may hold before input is refused.
pub const MAX_OUTBOUND_WIRE_BYTES: usize = 262_144;
/// Most resize requests that may await their result at once.
pub const MAX_UNRESOLVED_RESIZES: usize = 1_024;
/// Largest grid a resize may ask for.
pub const MAX_GRID_ROWS: u16 = 256;
pub const MAX_GRID_COLUMNS: u16 = 512;

/// The role this attachment holds on its execution.
#[derive(Clone, Copy, Debug, PartialEq, Eq, Structural)]
pub enum Role {
    Controller,
    Observer,
}

/// What a queued frame carries.
#[derive(Clone, Copy, Debug, PartialEq, Eq, Structural)]
pub enum OutboundKind {
    Input,
    TerminalKey,
    Resize { request_id: u64, geometry: GridGeometry },
    Resync,
}

/// One encoded frame and how much of it the socket has taken.
#[derive(Debug)]
pub struct PendingControlWrite {
    pub bytes: Vec<u8>,
    pub offset: usize,
    pub kind: OutboundKind,
}

/// A queued frame as data.
pub struct WriteModel {
    pub bytes: Seq<u8>,
    pub offset: nat,
    pub kind: OutboundKind,
}

impl View for PendingControlWrite {
    type V = WriteModel;

    open spec fn view(&self) -> WriteModel {
        WriteModel { bytes: self.bytes@, offset: self.offset as nat, kind: self.kind }
    }
}

/// Bytes of `w` the socket has not accepted yet.
pub open spec fn remaining(w: WriteModel) -> int {
    w.bytes.len() - w.offset
}

/// Bytes of all queued frames the socket has not accepted yet.
pub open spec fn pending_bytes(writes: Seq<WriteModel>) -> int
    decreases writes.len(),
{
    if writes.len() == 0 {
        0
    } else {
        pending_bytes(writes.drop_last()) + remaining(writes.last())
    }
}

/// The whole outbound state as data.
pub struct ChannelModel {
    pub writes: Seq<WriteModel>,
    pub wire_bytes: nat,
    pub attachment: AttachmentId,
    pub role: Role,
    pub next_request_id: u64,
    pub desired: Option<GridGeometry>,
    pub committed: GridGeometry,
    pub unresolved: Seq<ResizeRecord>,
    pub fence: Option<AppliedFence>,
    pub suppression: Option<GridGeometry>,
    pub resync_needed: bool,
    pub resync_frame: Seq<u8>,
    pub input_failure: Option<InputAdmissionFailure>,
    pub resize_failure: Option<ResizeFailure>,
}

/// The invariant of the outbound state: the byte count is exactly what the
/// socket still has to take and stays within its bound; only the front
/// frame can be partly written; and unresolved resize requests carry
/// strictly increasing ids below the next id to issue.
pub open spec fn channel_wf(m: ChannelModel) -> bool {
    &&& m.wire_bytes == pending_bytes(m.writes)
    &&& m.wire_bytes <= MAX_OUTBOUND_WIRE_BYTES
    &&& forall|i: int| 0 <= i < m.writes.len() ==> #[trigger] m.writes[i].offset <= m.writes[i].bytes.len()
    &&& forall|i: int| 0 < i < m.writes.len() ==> #[trigger] m.writes[i].offset == 0
    &&& m.unresolved.len() <= MAX_UNRESOLVED_RESIZES
    &&& forall|i: int, j: int|
        0 <= i < j < m.unresolved.len() ==> #[trigger] m.unresolved[i].request_id
            < #[trigger] m.unresolved[j].request_id
    &&& m.next_request_id != 0 ==> forall|i: int|
        0 <= i < m.unresolved.len() ==> #[trigger] m.unresolved[i].request_id < m.next_request_id
    &&& m.next_request_id != 0 ==> (m.fence matches Some(f) ==> f.request_id < m.next_request_id)
}

pub proof fn lemma_pending_push(s: Seq<WriteModel>, w: WriteModel)
    ensures
        pending_bytes(s.push(w)) == pending_bytes(s) + remaining(w),
{
    assert(s.push(w).drop_last() =~= s);
}

pub proof fn lemma_pending_update(s: Seq<WriteModel>, i: int, w: WriteModel)
    requires
        0 <= i < s.len(),
    ensures
        pending_bytes(s.update(i, w)) == pending_bytes(s) - remaining(s[i]) + remaining(w),
    decreases s.len(),
{
    if i == s.len() - 1 {
        assert(s.update(i, w).drop_last() =~= s.drop_last());
    } else {
        lemma_pending_update(s.drop_last(), i, w);
        assert(s.update(i, w).drop_last() =~= s.drop_last().update(i, w));
    }
}

pub proof fn lemma_pending_front(s: Seq<WriteModel>)
    requires
        s.len() > 0,
    ensures
        pending_bytes(s) == remaining(s[0]) + pending_bytes(s.subrange(1, s.len() as int)),
    decreases s.len(),
{
    if s.len() == 1 {
        assert(s.drop_last() =~= Seq::<WriteModel>::empty());
        assert(s.subrange(1, 1) =~= Seq::<WriteModel>::empty());
    } else {
        lemma_pending_front(s.drop_last());
        assert(s.subrange(1, s.len() as int).drop_last() =~= s.drop_last().subrange(
            1,
            s.len() - 1,
        ));
    }
}

pub proof fn lemma_pending_nonneg(s: Seq<WriteModel>)
    requires
        forall|i: int| 0 <= i < s.len() ==> #[trigger] s[i].offset <= s[i].bytes.len(),
    ensures
        pending_bytes(s) >= 0,
        s.len() > 0 ==> pending_bytes(s) >= remaining(s[0]),
    decreases s.len(),
{
    if s.len() > 0 {
        lemma_pending_nonneg(s.drop_last());
        lemma_pending_front(s);
        lemma_pending_nonneg_tail(s.subrange(1, s.len() as int));
    }
}

proof fn lemma_pending_nonneg_tail(s: Seq<WriteModel>)
    requires
        forall|i: int| 0 <= i < s.len() ==> #[trigger] s[i].offset <= s[i].bytes.len(),
    ensures
        pending_bytes(s) >= 0,
    decreases s.len(),
{
    if s.len() > 0 {
        lemma_pending_nonneg_tail(s.drop_last());
    }
}

/// The outbound state of one attachment.
#[derive(Debug)]
pub struct ControlChannel {
    outbound: Vec<PendingControlWrite>,
    outbound_wire_bytes: usize,
    attachment_id: AttachmentId,
    role: Role,
    next_resize_request_id: u64,
    desired_geometry: Option<GridGeometry>,
    committed_geometry: GridGeometry,
    unresolved_resizes: VecDeque<ResizeRecord>,
    applied_awaiting_projection: Option<AppliedFence>,
    retry_suppression: Option<GridGeometry>,
    resync_needed: bool,
    resync_frame: Vec<u8>,
    input_failure: Option<InputAdmissionFailure>,
    resize_failure: Option<ResizeFailure>,
}

impl View for ControlChannel {
    type V = ChannelModel;

    closed spec fn view(&self) -> ChannelModel {
        ChannelModel {
            writes: self.outbound@.map_values(|w: PendingControlWrite| w@),
            wire_bytes: self.outbound_wire_bytes as nat,
            attachment: self.attachment_id,
            role: self.role,
            next_request_id: self.next_resize_request_id,
            desired: self.desired_geometry,
            committed: self.committed_geometry,
            unresolved: self.unresolved_resizes@,
            fence: self.applied_awaiting_projection,
            suppression: self.retry_suppression,
            resync_needed: self.resync_needed,
            resync_frame: self.resync_frame@,
            input_failure: self.input_failure,
            resize_failure: self.resize_failure,
        }
    }
}

// ---------------------------------------------------------------------------
// Transitions as data.
// ---------------------------------------------------------------------------

/// Refuse unless this attachment controls its execution.
pub open spec fn spec_require_controller(m: ChannelModel) -> (ChannelModel, Result<(), ClientError>) {
    if m.role == Role::Controller {
        (m, Ok(()))
    } else {
        (
            ChannelModel { input_failure: Some(InputAdmissionFailure::LostController), ..m },
            Err(ClientError::LostController),
        )
    }
}

/// Queue an encoded frame behind the others, unless the FIFO would exceed
/// its byte bound.
pub open spec fn spec_admit(m: ChannelModel, bytes: Seq<u8>, kind: OutboundKind) -> (
    ChannelModel,
    Result<(), ClientError>,
) {
    if m.wire_bytes + bytes.len() > usize::MAX {
        (m, Err(ClientError::Capacity))
    } else if m.wire_bytes + bytes.len() > MAX_OUTBOUND_WIRE_BYTES {
        (m, Err(ClientError::ClientBackpressure))
    } else {
        (
            ChannelModel {
                writes: m.writes.push(WriteModel { bytes, offset: 0, kind }),
                wire_bytes: m.wire_bytes + bytes.len(),
                ..m
            },
            Ok(()),
        )
    }
}

/// What the caller must encode next to move a resize forward.
#[derive(Clone, Copy, Debug, PartialEq, Eq, Structural)]
pub enum ResizeStep {
    /// Nothing to send.
    Idle,
    /// Re-encode the queued, unstarted request `request_id` for `geometry`.
    Replace { request_id: u64, geometry: GridGeometry },
    /// Encode a new request `request_id` for `geometry` and queue it.
    Enqueue { request_id: u64, geometry: GridGeometry },
}

/// Some unresolved record carries request id `id`.
pub open spec fn has_request(s: Seq<ResizeRecord>, id: u64) -> bool {
    exists|i: int| 0 <= i < s.len() && s[i].request_id == id
}

/// The position of the record carrying request id `id`.
pub open spec fn request_index(s: Seq<ResizeRecord>, id: u64) -> int {
    choose|i: int| 0 <= i < s.len() && s[i].request_id == id
}

/// The request id of the last queued frame, when it is a resize request
/// the socket has not started on.
pub open spec fn queued_resize_tail(m: ChannelModel) -> Option<u64> {
    if m.writes.len() > 0 && m.writes.last().offset == 0 {
        match m.writes.last().kind {
            OutboundKind::Resize { request_id, .. } => Some(request_id),
            _ => None,
        }
    } else {
        None
    }
}

/// A resize must be sent unless the newest pending request already asks
/// for `desired`, or nothing is pending and the grid already is `desired`.
pub open spec fn needs_mutation(
    desired: GridGeometry,
    committed: GridGeometry,
    newest: Option<GridGeometry>,
) -> bool {
    !(newest == Some(desired) || (newest is None && committed == desired))
}

/// Bring the resize negotiation towards the desired geometry: nothing when
/// there is no desire, this attachment is an observer, the desire was
/// refused and is suppressed, or it is already pending or committed; else
/// rewrite the unstarted resize at the tail of the FIFO, or issue a new
/// request unless too many are unresolved or the ids are exhausted.
pub open spec fn spec_reconcile(m: ChannelModel) -> (ChannelModel, Result<ResizeStep, ClientError>) {
    match m.desired {
        None => (m, Ok(ResizeStep::Idle)),
        Some(desired) => if m.role != Role::Controller || m.suppression == Some(desired)
            || !needs_mutation(desired, m.committed, spec_newest_pending(m.unresolved, m.fence)) {
            (m, Ok(ResizeStep::Idle))
        } else {
            match queued_resize_tail(m) {
                Some(id) => if has_request(m.unresolved, id) && m.unresolved[request_index(
                    m.unresolved,
                    id,
                )].phase == ResizePhase::QueuedNotStarted {
                    (m, Ok(ResizeStep::Replace { request_id: id, geometry: desired }))
                } else {
                    (m, Err(ClientError::ResizeProtocolFailure))
                },
                None => if m.unresolved.len() >= MAX_UNRESOLVED_RESIZES {
                    (
                        ChannelModel { resize_failure: Some(ResizeFailure::ClientBackpressure), ..m },
                        Err(ClientError::ClientBackpressure),
                    )
                } else if m.next_request_id == 0 {
                    (
                        ChannelModel { resize_failure: Some(ResizeFailure::Protocol), ..m },
                        Err(ClientError::ResizeProtocolFailure),
                    )
                } else {
                    (m, Ok(ResizeStep::Enqueue { request_id: m.next_request_id, geometry: desired }))
                },
            }
        }
    }
}

/// Carry out `step` with the encoded `frame`. A replacement must keep the
/// frame's length and still find its unstarted request; a new request must
/// carry the next id and is queued like any frame. A step that no longer
/// matches the channel is refused and changes nothing.
pub open spec fn spec_complete_step(m: ChannelModel, step: ResizeStep, frame: Seq<u8>) -> (
    ChannelModel,
    Result<(), ClientError>,
) {
    match step {
        ResizeStep::Idle => (m, Ok(())),
        ResizeStep::Replace { request_id, geometry } => if queued_resize_tail(m) == Some(request_id)
            && has_request(m.unresolved, request_id) && m.unresolved[request_index(
            m.unresolved,
            request_id,
        )].phase == ResizePhase::QueuedNotStarted {
            if frame.len() != m.writes.last().bytes.len() {
                (m, Err(ClientError::Protocol))
            } else {
                let idx = request_index(m.unresolved, request_id);
                (
                    ChannelModel {
                        writes: m.writes.update(
                            m.writes.len() - 1,
                            WriteModel {
                                bytes: frame,
                                offset: 0,
                                kind: OutboundKind::Resize { request_id, geometry },
                            },
                        ),
                        unresolved: m.unresolved.update(
                            idx,
                            ResizeRecord { geometry, ..m.unresolved[idx] },
                        ),
                        ..m
                    },
                    Ok(()),
                )
            }
        } else {
            (m, Err(ClientError::ResizeProtocolFailure))
        },
        ResizeStep::Enqueue { request_id, geometry } => if request_id == 0 || request_id
            != m.next_request_id || m.unresolved.len() >= MAX_UNRESOLVED_RESIZES {
            (m, Err(ClientError::ResizeProtocolFailure))
        } else {
            let (a, r) = spec_admit(m, frame, OutboundKind::Resize { request_id, geometry });
            match r {
                Err(e) => (
                    if e == ClientError::ClientBackpressure {
                        ChannelModel { resize_failure: Some(ResizeFailure::ClientBackpressure), ..m }
                    } else {
                        m
                    },
                    Err(e),
                ),
                Ok(()) => (
                    ChannelModel {
                        unresolved: a.unresolved.push(
                            ResizeRecord {
                                request_id,
                                geometry,
                                phase: ResizePhase::QueuedNotStarted,
                            },
                        ),
                        next_request_id: if request_id == u64::MAX {
                            0
                        } else {
                            (request_id + 1) as u64
                        },
                        resize_failure: if a.resize_failure == Some(ResizeFailure::ClientBackpressure) {
                            None
                        } else {
                            a.resize_failure
                        },
                        ..a
                    },
                    Ok(()),
                ),
            }
        },
    }
}

impl ControlChannel {
    /// A fresh channel for an attachment: nothing queued, no resize asked
    /// for, the first request id 1, and `resync_frame` the encoded resync
    /// request of this attachment.
    pub fn new(
        attachment_id: AttachmentId,
        role: Role,
        committed_geometry: GridGeometry,
        resync_frame: Vec<u8>,
    ) -> (r: Self)
        ensures
            r@ == (ChannelModel {
                writes: Seq::empty(),
                wire_bytes: 0,
                attachment: attachment_id,
                role,
                next_request_id: 1,
                desired: None,
                committed: committed_geometry,
                unresolved: Seq::empty(),
                fence: None,
                suppression: None,
                resync_needed: false,
                resync_frame: resync_frame@,
                input_failure: None,
                resize_failure: None,
            }),
            channel_wf(r@),
    {
        let r = ControlChannel {
            outbound: Vec::new(),
            outbound_wire_bytes: 0,
            attachment_id,
            role,
            next_resize_request_id: 1,
            desired_geometry: None,
            committed_geometry,
            unresolved_resizes: VecDeque::new(),
            applied_awaiting_projection: None,
            retry_suppression: None,
            resync_needed: false,
            resync_frame,
            input_failure: None,
            resize_failure: None,
        };
        assert(r@.writes =~= Seq::<WriteModel>::empty());
        r
    }

    pub fn role(&self) -> (r: Role)
        ensures
            r == self@.role,
    {
        self.role
    }

    pub fn attachment_id(&self) -> (r: AttachmentId)
        ensures
            r == self@.attachment,
    {
        self.attachment_id
    }

    /// Whether a frame is waiting for the socket.
    pub fn wants_write(&self) -> (r: bool)
        ensures
            r == (self@.writes.len() > 0),
    {
        proof {
            assert(self@.writes.len() == self.outbound@.len());
        }
        !self.outbound.is_empty()
    }

    /// Bytes the socket has yet to accept.
    pub fn outbound_wire_bytes(&self) -> (r: usize)
        ensures
            r == self@.wire_bytes,
    {
        self.outbound_wire_bytes
    }

    pub fn input_failure(&self) -> (r: Option<InputAdmissionFailure>)
        ensures
            r == self@.input_failure,
    {
        self.input_failure
    }

    pub fn resize_failure(&self) -> (r: Option<ResizeFailure>)
        ensures
            r == self@.resize_failure,
    {
        self.resize_failure
    }

    pub fn desired_geometry(&self) -> (r: Option<GridGeometry>)
        ensures
            r == self@.desired,
    {
        self.desired_geometry
    }

    /// The unresolved resize requests, oldest first.
    pub fn unresolved_resizes(&self) -> (r: &VecDeque<ResizeRecord>)
        ensures
            r@ == self@.unresolved,
    {
        &self.unresolved_resizes
    }

    /// The frame at the front of the FIFO, if any.
    pub fn front_write(&self) -> (r: Option<&PendingControlWrite>)
        ensures
            self@.writes.len() == 0 ==> r is None,
            self@.writes.len() > 0 ==> (r matches Some(w) && w@ == self@.writes[0]),
    {
        proof {
            assert(self@.writes.len() == self.outbound@.len());
        }
        if self.outbound.is_empty() {
            None
        } else {
            Some(&self.outbound[0])
        }
    }

    /// Refuse unless this attachment is the controller.
    pub fn require_controller(&mut self) -> (r: Result<(), ClientError>)
        requires
            channel_wf(old(self)@),
        ensures
            (final(self)@, r) == spec_require_controller(old(self)@),
            channel_wf(final(self)@),
    {
        if self.role != Role::Controller {
            self.input_failure = Some(InputAdmissionFailure::LostController);
            return Err(ClientError::LostController);
        }
        Ok(())
    }

    /// Queue an encoded frame of the given kind.
    pub fn admit_frame(&mut self, bytes: Vec<u8>, kind: OutboundKind) -> (r: Result<(), ClientError>)
        requires
            channel_wf(old(self)@),
        ensures
            (final(self)@, r) == spec_admit(old(self)@, bytes@, kind),
            channel_wf(final(self)@),
    {
        let ghost m = self@;
        let next = match self.outbound_wire_bytes.checked_add(bytes.len()) {
            Some(v) => v,
            None => {
                return Err(ClientError::Capacity);
            },
        };
        if next > MAX_OUTBOUND_WIRE_BYTES {
            return Err(ClientError::ClientBackpressure);
        }
        self.outbound_wire_bytes = next;
        let w = PendingControlWrite { bytes, offset: 0, kind };
        let ghost wm = w@;
        self.outbound.push(w);
        proof {
            assert(self@.writes =~= m.writes.push(wm));
            lemma_pending_push(m.writes, wm);
        }
        Ok(())
    }
}

/// What the socket did with the bytes offered from the front frame.
#[derive(Clone, Copy, Debug, PartialEq, Eq, Structural)]
pub enum WriteOutcome {
    /// It accepted this many bytes.
    Accepted(usize),
    /// It would block; nothing was taken.
    WouldBlock,
    /// It failed.
    Failed,
}

/// What the caller does after a write was recorded.
#[derive(Clone, Copy, Debug, PartialEq, Eq, Structural)]
pub enum FlushFollowUp {
    /// A resync request was just queued: attempt one more write.
    WriteAgain,
    /// Done for now; carry out this resize step.
    Settled(ResizeStep),
}

/// Some queued frame is a resync request.
pub open spec fn has_queued_resync(writes: Seq<WriteModel>) -> bool {
    exists|i: int| 0 <= i < writes.len() && writes[i].kind == OutboundKind::Resync
}

/// Queue the attachment's resync request when one is needed and none is
/// queued yet; a full FIFO leaves the need standing. `Ok(true)` when it was
/// queued.
pub open spec fn spec_queue_resync(m: ChannelModel) -> (ChannelModel, Result<bool, ClientError>) {
    if !m.resync_needed || has_queued_resync(m.writes) {
        (m, Ok(false))
    } else {
        let (a, r) = spec_admit(m, m.resync_frame, OutboundKind::Resync);
        match r {
            Ok(()) => (ChannelModel { resync_needed: false, ..a }, Ok(true)),
            Err(e) => if e == ClientError::ClientBackpressure {
                (m, Ok(false))
            } else {
                (m, Err(e))
            },
        }
    }
}

/// Record that the request `id` reached `phase`.
pub open spec fn spec_set_phase(m: ChannelModel, id: u64, phase: ResizePhase) -> (
    ChannelModel,
    Result<(), ClientError>,
) {
    if has_request(m.unresolved, id) {
        let idx = request_index(m.unresolved, id);
        (
            ChannelModel {
                unresolved: m.unresolved.update(idx, ResizeRecord { phase, ..m.unresolved[idx] }),
                ..m
            },
            Ok(()),
        )
    } else {
        (m, Err(ClientError::ResizeProtocolFailure))
    }
}

/// What the bookkeeping after a write attempt on the front frame does: the
/// accepted bytes advance that frame and leave the byte count; a resize
/// frame records whether it is partly or wholly sent; a finished frame
/// leaves the FIFO; a backpressure refusal of input is lifted; a needed
/// resync is queued (and then written next); otherwise the resize
/// negotiation is reconciled. A socket failure marks input and resize as
/// disconnected.
pub open spec fn spec_record_write(m: ChannelModel, outcome: WriteOutcome) -> (
    ChannelModel,
    Result<FlushFollowUp, ClientError>,
) {
    if m.writes.len() == 0 {
        (m, Ok(FlushFollowUp::Settled(ResizeStep::Idle)))
    } else if remaining(m.writes[0]) == 0 {
        (m, Err(ClientError::Protocol))
    } else {
        match outcome {
            WriteOutcome::WouldBlock => (m, Ok(FlushFollowUp::Settled(ResizeStep::Idle))),
            WriteOutcome::Failed => (
                ChannelModel {
                    input_failure: Some(InputAdmissionFailure::Disconnected),
                    resize_failure: Some(ResizeFailure::Disconnected),
                    ..m
                },
                Err(ClientError::Io),
            ),
            WriteOutcome::Accepted(count) => if count == 0 || count > remaining(m.writes[0]) {
                (m, Err(ClientError::Io))
            } else {
                let front = m.writes[0];
                let advanced = WriteModel { offset: (front.offset + count) as nat, ..front };
                let m1 = ChannelModel {
                    writes: m.writes.update(0, advanced),
                    wire_bytes: (m.wire_bytes - count) as nat,
                    ..m
                };
                let (m2, r2) = match front.kind {
                    OutboundKind::Resize { request_id, .. } => spec_set_phase(
                        m1,
                        request_id,
                        if count == remaining(front) {
                            ResizePhase::SentWaitingResult
                        } else {
                            ResizePhase::Writing
                        },
                    ),
                    _ => (m1, Ok(())),
                };
                match r2 {
                    Err(e) => (m2, Err(e)),
                    Ok(()) => {
                        let m3 = if advanced.offset == advanced.bytes.len() {
                            ChannelModel { writes: m2.writes.subrange(1, m2.writes.len() as int), ..m2 }
                        } else {
                            m2
                        };
                        let m4 = if m3.input_failure == Some(InputAdmissionFailure::ClientBackpressure) {
                            ChannelModel { input_failure: None, ..m3 }
                        } else {
                            m3
                        };
                        let (m5, r5) = spec_queue_resync(m4);
                        match r5 {
                            Err(e) => (m5, Err(e)),
                            Ok(queued) => if queued {
                                (m5, Ok(FlushFollowUp::WriteAgain))
                            } else {
                                let (m6, r6) = spec_reconcile(m5);
                                (
                                    m6,
                                    match r6 {
                                        Ok(step) => Ok(FlushFollowUp::Settled(step)),
                                        Err(e) => Err(e),
                                    },
                                )
                            },
                        }
                    },
                }
            },
        }
    }
}

/// How the Runtime answered a resize request.
#[derive(Clone, Copy, Debug, PartialEq, Eq, Structural)]
pub enum ResizeResultCode {
    Applied,
    Error(ProtocolErrorCode),
}

/// The Runtime's answer to one resize request.
#[derive(Clone, Copy, Debug, PartialEq, Eq, Structural)]
pub struct ResizeResult {
    pub attachment_id: AttachmentId,
    pub request_id: u64,
    pub result_code: ResizeResultCode,
    pub applied_generation: u64,
}

/// Refusals after which this attachment no longer controls its execution.
pub open spec fn demotes_controller(code: ProtocolErrorCode) -> bool {
    match code {
        ProtocolErrorCode::InvalidState | ProtocolErrorCode::InvalidExecution
        | ProtocolErrorCode::InvalidAttachment | ProtocolErrorCode::StaleIdentity
        | ProtocolErrorCode::PermissionDenied | ProtocolErrorCode::ControllerBusy
        | ProtocolErrorCode::UnsupportedVersion | ProtocolErrorCode::UnknownMessage
        | ProtocolErrorCode::MalformedPayload => true,
        _ => false,
    }
}

/// A request newer than `id` still asks for `desired`.
pub open spec fn newer_request_for(s: Seq<ResizeRecord>, id: u64, desired: Option<GridGeometry>) -> bool {
    exists|j: int| 0 <= j < s.len() && s[j].request_id > id && Some(s[j].geometry) == desired
}

/// Settle the answered request: an answer for another attachment or for no
/// unresolved request is a protocol failure. An applied resize becomes the
/// fence the projection must reach (unless a newer one is already awaited)
/// and lifts any suppression; a refused one is reported, suppresses retrying
/// the same desire unless a newer request already asks for it, and some
/// refusals demote this attachment to observer. Then reconcile.
pub open spec fn spec_accept_result(m: ChannelModel, res: ResizeResult) -> (
    ChannelModel,
    Result<ResizeStep, ClientError>,
) {
    if res.attachment_id != m.attachment || !has_request(m.unresolved, res.request_id) {
        (
            ChannelModel { resize_failure: Some(ResizeFailure::Protocol), ..m },
            Err(ClientError::ResizeProtocolFailure),
        )
    } else {
        let idx = request_index(m.unresolved, res.request_id);
        let record = m.unresolved[idx];
        let rest = m.unresolved.remove(idx);
        let m1 = match res.result_code {
            ResizeResultCode::Applied => {
                let replace = match m.fence {
                    None => true,
                    Some(f) => res.request_id > f.request_id,
                };
                ChannelModel {
                    unresolved: rest,
                    fence: if replace {
                        Some(
                            AppliedFence {
                                request_id: res.request_id,
                                geometry: record.geometry,
                                applied_generation: res.applied_generation,
                            },
                        )
                    } else {
                        m.fence
                    },
                    suppression: None,
                    resize_failure: None,
                    ..m
                }
            },
            ResizeResultCode::Error(code) => ChannelModel {
                unresolved: rest,
                resize_failure: Some(ResizeFailure::Apply(code)),
                suppression: if !newer_request_for(rest, record.request_id, m.desired) && Some(
                    record.geometry,
                ) == m.desired {
                    Some(record.geometry)
                } else {
                    m.suppression
                },
                role: if demotes_controller(code) {
                    Role::Observer
                } else {
                    m.role
                },
                input_failure: if demotes_controller(code) {
                    Some(InputAdmissionFailure::LostController)
                } else {
                    m.input_failure
                },
                ..m
            },
        };
        spec_reconcile(m1)
    }
}

/// The committed grid now has `rows` x `columns` at `generation`. Reaching
/// the awaited fence's generation with another geometry is a protocol
/// failure; reaching it otherwise clears the fence; arriving at the desired
/// geometry with no fence clears a reported failure. Then reconcile.
pub open spec fn spec_observe(m: ChannelModel, rows: u16, columns: u16, generation: u64) -> (
    ChannelModel,
    Result<ResizeStep, ClientError>,
) {
    let g = GridGeometry { rows, columns };
    let m1 = ChannelModel { committed: g, ..m };
    let reached = match m1.fence {
        Some(f) => generation >= f.applied_generation,
        None => false,
    };
    if reached && generation == m1.fence->Some_0.applied_generation && g
        != m1.fence->Some_0.geometry {
        (
            ChannelModel { resize_failure: Some(ResizeFailure::Protocol), ..m1 },
            Err(ClientError::ResizeProtocolFailure),
        )
    } else {
        let m2 = if reached {
            ChannelModel { fence: None, ..m1 }
        } else {
            m1
        };
        let m3 = if m2.desired == Some(g) && m2.fence is None {
            ChannelModel { resize_failure: None, ..m2 }
        } else {
            m2
        };
        spec_reconcile(m3)
    }
}

/// A grid the host may ask for.
pub open spec fn valid_geometry(g: GridGeometry) -> bool {
    0 < g.rows <= MAX_GRID_ROWS && 0 < g.columns <= MAX_GRID_COLUMNS
}

/// The host wants `g`. A changed desire, or a meaningful layout change back
/// to a suppressed desire, lifts suppression and the reported failure.
pub open spec fn spec_set_desired(m: ChannelModel, g: GridGeometry, meaningful_layout_epoch: bool) -> (
    ChannelModel,
    Result<ResizeStep, ClientError>,
) {
    if !valid_geometry(g) {
        (m, Err(ClientError::InvalidGeometry))
    } else if m.role != Role::Controller {
        (spec_require_controller(m).0, Err(ClientError::LostController))
    } else {
        let m2 = ChannelModel { desired: Some(g), ..m };
        let m3 = if m.desired != Some(g) || (meaningful_layout_epoch && m.suppression == Some(g)) {
            ChannelModel { suppression: None, resize_failure: None, ..m2 }
        } else {
            m2
        };
        spec_reconcile(m3)
    }
}

/// Retry explicitly: lift suppression and the reported failure.
pub open spec fn spec_retry(m: ChannelModel) -> (ChannelModel, Result<ResizeStep, ClientError>) {
    spec_reconcile(ChannelModel { suppression: None, resize_failure: None, ..m })
}

/// The semantic keys a terminal key request names.
#[derive(Clone, Copy, Debug, PartialEq, Eq, Structural)]
pub enum TerminalKeyKind {
    Enter,
    Tab,
    Backspace,
    Escape,
    ArrowUp,
    ArrowDown,
    ArrowRight,
    ArrowLeft,
    ControlAscii,
}

/// The key a host key code names (1 through 9), if any.
pub open spec fn spec_terminal_key_kind(value: u16) -> Option<TerminalKeyKind> {
    if value == 1 {
        Some(TerminalKeyKind::Enter)
    } else if value == 2 {
        Some(TerminalKeyKind::Tab)
    } else if value == 3 {
        Some(TerminalKeyKind::Backspace)
    } else if value == 4 {
        Some(TerminalKeyKind::Escape)
    } else if value == 5 {
        Some(TerminalKeyKind::ArrowUp)
    } else if value == 6 {
        Some(TerminalKeyKind::ArrowDown)
    } else if value == 7 {
        Some(TerminalKeyKind::ArrowRight)
    } else if value == 8 {
        Some(TerminalKeyKind::ArrowLeft)
    } else if value == 9 {
        Some(TerminalKeyKind::ControlAscii)
    } else {
        None
    }
}

/// Decode a host key code.
pub fn terminal_key_kind(value: u16) -> (r: Option<TerminalKeyKind>)
    ensures
        r == spec_terminal_key_kind(value),
{
    match value {
        1 => Some(TerminalKeyKind::Enter),
        2 => Some(TerminalKeyKind::Tab),
        3 => Some(TerminalKeyKind::Backspace),
        4 => Some(TerminalKeyKind::Escape),
        5 => Some(TerminalKeyKind::ArrowUp),
        6 => Some(TerminalKeyKind::ArrowDown),
        7 => Some(TerminalKeyKind::ArrowRight),
        8 => Some(TerminalKeyKind::ArrowLeft),
        9 => Some(TerminalKeyKind::ControlAscii),
        _ => None,
    }
}

/// Whether a terminal key request is well formed: a control chord names
/// one of the ASCII control characters; any other key carries no scalar.
pub open spec fn spec_valid_terminal_key(kind: TerminalKeyKind, scalar: u32) -> bool {
    if kind == TerminalKeyKind::ControlAscii {
        scalar == 0x20 || scalar == 0x3f || scalar == 0x40 || (0x41 <= scalar <= 0x5f)
    } else {
        scalar == 0
    }
}

/// Before encoding committed text of `len` bytes: refuse observers and
/// oversized text; `Ok(false)` when there is nothing to send.
pub open spec fn spec_check_text(m: ChannelModel, len: usize, max_input_bytes: usize) -> (
    ChannelModel,
    Result<bool, ClientError>,
) {
    let (m1, r1) = spec_require_controller(m);
    if r1 is Err {
        (m1, Err(ClientError::LostController))
    } else if len == 0 {
        (m1, Ok(false))
    } else if len > max_input_bytes {
        (
            ChannelModel { input_failure: Some(InputAdmissionFailure::CommitTooLarge), ..m1 },
            Err(ClientError::CommitTooLarge),
        )
    } else {
        (m1, Ok(true))
    }
}

/// Before encoding a terminal key: refuse observers and malformed keys.
pub open spec fn spec_check_key(m: ChannelModel, kind: TerminalKeyKind, scalar: u32) -> (
    ChannelModel,
    Result<(), ClientError>,
) {
    let (m1, r1) = spec_require_controller(m);
    if r1 is Err {
        (m1, r1)
    } else if !spec_valid_terminal_key(kind, scalar) {
        (m1, Err(ClientError::Protocol))
    } else {
        (m1, Ok(()))
    }
}

/// Queue an encoded input frame: a refusal is reported as backpressure, an
/// admission clears the reported input failure.
pub open spec fn spec_admit_input(m: ChannelModel, frame: Seq<u8>, kind: OutboundKind) -> (
    ChannelModel,
    Result<(), ClientError>,
) {
    let (a, r) = spec_admit(m, frame, kind);
    match r {
        Err(e) => (
            ChannelModel { input_failure: Some(InputAdmissionFailure::ClientBackpressure), ..a },
            Err(e),
        ),
        Ok(()) => (ChannelModel { input_failure: None, ..a }, Ok(())),
    }
}

proof fn lemma_latest_member(s: Seq<ResizeRecord>)
    ensures
        latest_record(s) is None <==> s.len() == 0,
        latest_record(s) matches Some(r) ==> exists|i: int| 0 <= i < s.len() && s[i] == r,
    decreases s.len(),
{
    if s.len() > 0 {
        lemma_latest_member(s.drop_last());
        match latest_record(s.drop_last()) {
            None => {
                assert(s[s.len() - 1] == s.last());
            },
            Some(r) => {
                let i = choose|i: int| 0 <= i < s.drop_last().len() && s.drop_last()[i] == r;
                assert(s[i] == r);
                assert(s[s.len() - 1] == s.last());
            },
        }
    }
}

proof fn lemma_latest_of_larger_push(s: Seq<ResizeRecord>, x: ResizeRecord)
    requires
        forall|i: int| 0 <= i < s.len() ==> #[trigger] s[i].request_id < x.request_id,
    ensures
        latest_record(s.push(x)) == Some(x),
{
    assert(s.push(x).drop_last() =~= s);
    lemma_latest_member(s);
}

/// An observer never asks for a resize, whatever the host desires.
pub proof fn observer_never_requests_resize(m: ChannelModel)
    requires
        m.role != Role::Controller,
    ensures
        spec_reconcile(m) == (m, Ok::<ResizeStep, ClientError>(ResizeStep::Idle)),
{
}

/// A desire the Runtime refused is not asked for again until the host
/// changes it, relays it after a layout change, or retries.
pub proof fn suppressed_desire_is_not_requested_again(m: ChannelModel)
    requires
        m.desired is Some,
        m.suppression == m.desired,
    ensures
        spec_reconcile(m) == (m, Ok::<ResizeStep, ClientError>(ResizeStep::Idle)),
{
}

/// Once the request reconcile asked for is queued, reconciling again asks
/// for nothing more: one desire yields one request.
pub proof fn queued_request_settles_the_desire(
    m: ChannelModel,
    request_id: u64,
    geometry: GridGeometry,
    frame: Seq<u8>,
    after: ChannelModel,
)
    requires
        channel_wf(m),
        spec_reconcile(m) == (m, Ok::<ResizeStep, ClientError>(
            ResizeStep::Enqueue { request_id, geometry },
        )),
        spec_complete_step(m, ResizeStep::Enqueue { request_id, geometry }, frame) == (
            after,
            Ok::<(), ClientError>(()),
        ),
    ensures
        spec_reconcile(after) == (after, Ok::<ResizeStep, ClientError>(ResizeStep::Idle)),
{
    let rec = ResizeRecord { request_id, geometry, phase: ResizePhase::QueuedNotStarted };
    assert(after.unresolved == m.unresolved.push(rec));
    lemma_latest_of_larger_push(m.unresolved, rec);
}

/// An attach reply must name the requested execution and grant the
/// requested role.
pub fn check_attach_reply(
    requested_execution: ExecutionId,
    requested_role: Role,
    attached_execution: ExecutionId,
    granted_role: Role,
) -> (r: Result<(), ClientError>)
    ensures
        r is Ok <==> (attached_execution == requested_execution && granted_role == requested_role),
        r is Err ==> r == Err::<(), ClientError>(ClientError::InvalidAttachment),
{
    if attached_execution != requested_execution || granted_role != requested_role {
        return Err(ClientError::InvalidAttachment);
    }
    Ok(())
}

/// The first display frame after attaching must open a snapshot.
pub fn check_first_chunk(kind: DisplayKind, chunk_index: u16) -> (r: Result<(), ClientError>)
    ensures
        r is Ok <==> (kind == DisplayKind::Snapshot && chunk_index == 0),
        r is Err ==> r == Err::<(), ClientError>(ClientError::Protocol),
{
    if kind != DisplayKind::Snapshot || chunk_index != 0 {
        return Err(ClientError::Protocol);
    }
    Ok(())
}

/// The attached snapshot must be complete, at the generation the attach
/// reply announced, and of a non-empty grid.
pub fn check_attached_snapshot(
    complete: bool,
    generation: u64,
    announced_generation: u64,
    rows: u16,
    columns: u16,
) -> (r: Result<(), ClientError>)
    ensures
        r is Ok <==> (complete && generation == announced_generation && rows != 0 && columns != 0),
        r is Err ==> r == Err::<(), ClientError>(ClientError::Protocol),
{
    if !complete || generation != announced_generation || rows == 0 || columns == 0 {
        return Err(ClientError::Protocol);
    }
    Ok(())
}

fn find_request(records: &VecDeque<ResizeRecord>, request_id: u64) -> (r: Option<usize>)
    requires
        forall|i: int, j: int|
            0 <= i < j < records@.len() ==> #[trigger] records@[i].request_id
                < #[trigger] records@[j].request_id,
    ensures
        match r {
            Some(i) => has_request(records@, request_id) && i == request_index(records@, request_id),
            None => !has_request(records@, request_id),
        },
{
    let mut i: usize = 0;
    while i < records.len()
        invariant
            0 <= i <= records@.len(),
            forall|j: int| 0 <= j < i ==> records@[j].request_id != request_id,
            forall|a: int, b: int|
                0 <= a < b < records@.len() ==> #[trigger] records@[a].request_id
                    < #[trigger] records@[b].request_id,
        decreases records@.len() - i,
    {
        if records[i].request_id == request_id {
            proof {
                assert(has_request(records@, request_id));
                let c = request_index(records@, request_id);
                if c < i {
                    assert(records@[c].request_id < records@[i as int].request_id);
                } else if c > i {
                    assert(records@[i as int].request_id < records@[c].request_id);
                }
            }
            return Some(i);
        }
        i += 1;
    }
    None
}

impl ControlChannel {
    fn tail_resize(&self) -> (r: Option<u64>)
        ensures
            r == queued_resize_tail(self@),
    {
        proof {
            assert(self@.writes.len() == self.outbound@.len());
        }
        let n = self.outbound.len();
        if n == 0 {
            return None;
        }
        let last = &self.outbound[n - 1];
        proof {
            assert(self@.writes.last() == last@);
        }
        if last.offset != 0 {
            return None;
        }
        match last.kind {
            OutboundKind::Resize { request_id, .. } => Some(request_id),
            _ => None,
        }
    }

    /// Decide the next resize step (see [`spec_reconcile`]).
    pub fn reconcile_resize(&mut self) -> (r: Result<ResizeStep, ClientError>)
        requires
            channel_wf(old(self)@),
        ensures
            (final(self)@, r) == spec_reconcile(old(self)@),
            channel_wf(final(self)@),
    {
        let desired = match self.desired_geometry {
            None => {
                return Ok(ResizeStep::Idle);
            },
            Some(d) => d,
        };
        if self.role != Role::Controller {
            return Ok(ResizeStep::Idle);
        }
        if self.retry_suppression == Some(desired) {
            return Ok(ResizeStep::Idle);
        }
        let newest = newest_pending_geometry(&self.unresolved_resizes, self.applied_awaiting_projection);
        if !resize_needs_mutation(desired, self.committed_geometry, newest) {
            return Ok(ResizeStep::Idle);
        }
        match self.tail_resize() {
            Some(request_id) => {
                match find_request(&self.unresolved_resizes, request_id) {
                    None => Err(ClientError::ResizeProtocolFailure),
                    Some(i) => {
                        if self.unresolved_resizes[i].phase != ResizePhase::QueuedNotStarted {
                            Err(ClientError::ResizeProtocolFailure)
                        } else {
                            Ok(ResizeStep::Replace { request_id, geometry: desired })
                        }
                    },
                }
            },
            None => {
                if self.unresolved_resizes.len() >= MAX_UNRESOLVED_RESIZES {
                    self.resize_failure = Some(ResizeFailure::ClientBackpressure);
                    return Err(ClientError::ClientBackpressure);
                }
                let request_id = self.next_resize_request_id;
                if request_id == 0 {
                    self.resize_failure = Some(ResizeFailure::Protocol);
                    return Err(ClientError::ResizeProtocolFailure);
                }
                Ok(ResizeStep::Enqueue { request_id, geometry: desired })
            },
        }
    }

    /// Carry out a resize step with its encoded frame (see
    /// [`spec_complete_step`]).
    pub fn complete_resize_step(&mut self, step: ResizeStep, frame: Vec<u8>) -> (r: Result<
        (),
        ClientError,
    >)
        requires
            channel_wf(old(self)@),
        ensures
            (final(self)@, r) == spec_complete_step(old(self)@, step, frame@),
            channel_wf(final(self)@),
    {
        let ghost m = self@;
        match step {
            ResizeStep::Idle => Ok(()),
            ResizeStep::Replace { request_id, geometry } => {
                if self.tail_resize() != Some(request_id) {
                    return Err(ClientError::ResizeProtocolFailure);
                }
                let idx = match find_request(&self.unresolved_resizes, request_id) {
                    None => {
                        return Err(ClientError::ResizeProtocolFailure);
                    },
                    Some(i) => i,
                };
                if self.unresolved_resizes[idx].phase != ResizePhase::QueuedNotStarted {
                    return Err(ClientError::ResizeProtocolFailure);
                }
                proof {
                    assert(self@.writes.len() == self.outbound@.len());
                }
                let n = self.outbound.len();
                proof {
                    assert(m.writes.last() == self.outbound@[n - 1]@);
                }
                if frame.len() != self.outbound[n - 1].bytes.len() {
                    return Err(ClientError::Protocol);
                }
                let ghost new_write = WriteModel {
                    bytes: frame@,
                    offset: 0,
                    kind: OutboundKind::Resize { request_id, geometry },
                };
                let _old = self.outbound.pop();
                self.outbound.push(
                    PendingControlWrite {
                        bytes: frame,
                        offset: 0,
                        kind: OutboundKind::Resize { request_id, geometry },
                    },
                );
                let old_record = match self.unresolved_resizes.remove(idx) {
                    Some(rec) => rec,
                    None => {
                        return Err(ClientError::ResizeProtocolFailure);
                    },
                };
                self.unresolved_resizes.insert(
                    idx,
                    ResizeRecord {
                        request_id: old_record.request_id,
                        geometry,
                        phase: old_record.phase,
                    },
                );
                proof {
                    assert(self@.writes =~= m.writes.update(n - 1, new_write));
                    assert(self@.unresolved =~= m.unresolved.update(
                        idx as int,
                        ResizeRecord { geometry, ..m.unresolved[idx as int] },
                    ));
                    lemma_pending_update(m.writes, n - 1, new_write);
                }
                Ok(())
            },
            ResizeStep::Enqueue { request_id, geometry } => {
                if request_id == 0 || request_id != self.next_resize_request_id
                    || self.unresolved_resizes.len() >= MAX_UNRESOLVED_RESIZES {
                    return Err(ClientError::ResizeProtocolFailure);
                }
                match self.admit_frame(frame, OutboundKind::Resize { request_id, geometry }) {
                    Err(e) => {
                        if e == ClientError::ClientBackpressure {
                            self.resize_failure = Some(ResizeFailure::ClientBackpressure);
                        }
                        return Err(e);
                    },
                    Ok(()) => {},
                }
                self.unresolved_resizes.push_back(
                    ResizeRecord { request_id, geometry, phase: ResizePhase::QueuedNotStarted },
                );
                self.next_resize_request_id = match request_id.checked_add(1) {
                    Some(v) => v,
                    None => 0,
                };
                if self.resize_failure == Some(ResizeFailure::ClientBackpressure) {
                    self.resize_failure = None;
                }
                Ok(())
            },
        }
    }
}

fn copy_bytes(v: &Vec<u8>) -> (r: Vec<u8>)
    ensures
        r@ == v@,
{
    let mut r: Vec<u8> = Vec::new();
    let mut i: usize = 0;
    while i < v.len()
        invariant
            0 <= i <= v@.len(),
            r@ == v@.subrange(0, i as int),
        decreases v@.len() - i,
    {
        r.push(v[i]);
        i += 1;
        assert(r@ =~= v@.subrange(0, i as int));
    }
    assert(v@.subrange(0, v@.len() as int) =~= v@);
    r
}

impl ControlChannel {
    fn has_resync(&self) -> (r: bool)
        ensures
            r == has_queued_resync(self@.writes),
    {
        proof {
            assert(self@.writes.len() == self.outbound@.len());
        }
        let mut i: usize = 0;
        while i < self.outbound.len()
            invariant
                0 <= i <= self.outbound@.len(),
                self@.writes.len() == self.outbound@.len(),
                forall|j: int| 0 <= j < i ==> self@.writes[j].kind != OutboundKind::Resync,
            decreases self.outbound@.len() - i,
        {
            proof {
                assert(self@.writes[i as int] == self.outbound@[i as int]@);
            }
            if self.outbound[i].kind == OutboundKind::Resync {
                return true;
            }
            i += 1;
        }
        false
    }

    fn try_queue_resync(&mut self) -> (r: Result<bool, ClientError>)
        requires
            channel_wf(old(self)@),
        ensures
            (final(self)@, r) == spec_queue_resync(old(self)@),
            channel_wf(final(self)@),
    {
        if !self.resync_needed || self.has_resync() {
            return Ok(false);
        }
        let frame = copy_bytes(&self.resync_frame);
        match self.admit_frame(frame, OutboundKind::Resync) {
            Ok(()) => {
                self.resync_needed = false;
                Ok(true)
            },
            Err(e) => {
                if e == ClientError::ClientBackpressure {
                    Ok(false)
                } else {
                    Err(e)
                }
            },
        }
    }

    /// Ask for a full resync. `Ok(true)` when the request was queued and
    /// the caller should write it.
    pub fn request_resync(&mut self) -> (r: Result<bool, ClientError>)
        requires
            channel_wf(old(self)@),
        ensures
            (final(self)@, r) == spec_queue_resync(
                ChannelModel { resync_needed: true, ..old(self)@ },
            ),
            channel_wf(final(self)@),
    {
        self.resync_needed = true;
        self.try_queue_resync()
    }

    fn set_resize_phase(&mut self, request_id: u64, phase: ResizePhase) -> (r: Result<(), ClientError>)
        requires
            channel_wf(old(self)@),
        ensures
            (final(self)@, r) == spec_set_phase(old(self)@, request_id, phase),
            channel_wf(final(self)@),
    {
        let ghost m = self@;
        let idx = match find_request(&self.unresolved_resizes, request_id) {
            None => {
                return Err(ClientError::ResizeProtocolFailure);
            },
            Some(i) => i,
        };
        let old_record = match self.unresolved_resizes.remove(idx) {
            Some(rec) => rec,
            None => {
                return Err(ClientError::ResizeProtocolFailure);
            },
        };
        self.unresolved_resizes.insert(
            idx,
            ResizeRecord { request_id: old_record.request_id, geometry: old_record.geometry, phase },
        );
        proof {
            assert(self@.unresolved =~= m.unresolved.update(
                idx as int,
                ResizeRecord { phase, ..m.unresolved[idx as int] },
            ));
        }
        Ok(())
    }

    /// Record what the socket did with the front frame's remaining bytes
    /// (see [`spec_record_write`]).
    pub fn record_write(&mut self, outcome: WriteOutcome) -> (r: Result<FlushFollowUp, ClientError>)
        requires
            channel_wf(old(self)@),
        ensures
            (final(self)@, r) == spec_record_write(old(self)@, outcome),
            channel_wf(final(self)@),
    {
        let ghost m = self@;
        proof {
            assert(m.writes.len() == self.outbound@.len());
        }
        let n = self.outbound.len();
        if n == 0 {
            return Ok(FlushFollowUp::Settled(ResizeStep::Idle));
        }
        proof {
            assert(m.writes[0] == self.outbound@[0]@);
            assert(m.writes[0].offset <= m.writes[0].bytes.len());
        }
        let remaining_len = self.outbound[0].bytes.len() - self.outbound[0].offset;
        if remaining_len == 0 {
            return Err(ClientError::Protocol);
        }
        let count = match outcome {
            WriteOutcome::WouldBlock => {
                return Ok(FlushFollowUp::Settled(ResizeStep::Idle));
            },
            WriteOutcome::Failed => {
                self.input_failure = Some(InputAdmissionFailure::Disconnected);
                self.resize_failure = Some(ResizeFailure::Disconnected);
                return Err(ClientError::Io);
            },
            WriteOutcome::Accepted(c) => c,
        };
        if count == 0 || count > remaining_len {
            return Err(ClientError::Io);
        }
        proof {
            lemma_pending_nonneg(m.writes);
        }
        let mut front = self.outbound.remove(0);
        front.offset = front.offset + count;
        let completed = front.offset == front.bytes.len();
        let kind = front.kind;
        let ghost advanced = front@;
        self.outbound.insert(0, front);
        self.outbound_wire_bytes = self.outbound_wire_bytes - count;
        proof {
            assert(self@.writes =~= m.writes.update(0, advanced));
            lemma_pending_update(m.writes, 0, advanced);
        }
        match kind {
            OutboundKind::Resize { request_id, .. } => {
                let phase = if count == remaining_len {
                    ResizePhase::SentWaitingResult
                } else {
                    ResizePhase::Writing
                };
                self.set_resize_phase(request_id, phase)?;
            },
            _ => {},
        }
        if completed {
            let ghost before = self@.writes;
            proof {
                assert(before.len() == self.outbound@.len());
                lemma_pending_front(before);
            }
            let _done = self.outbound.remove(0);
            proof {
                assert(self@.writes =~= before.subrange(1, before.len() as int));
            }
        }
        if self.input_failure == Some(InputAdmissionFailure::ClientBackpressure) {
            self.input_failure = None;
        }
        if self.try_queue_resync()? {
            return Ok(FlushFollowUp::WriteAgain);
        }
        let step = self.reconcile_resize()?;
        Ok(FlushFollowUp::Settled(step))
    }
}

/// Whether `code` demotes this attachment (see [`demotes_controller`]).
pub fn is_demoting_refusal(code: ProtocolErrorCode) -> (r: bool)
    ensures
        r == demotes_controller(code),
{
    match code {
        ProtocolErrorCode::InvalidState | ProtocolErrorCode::InvalidExecution
        | ProtocolErrorCode::InvalidAttachment | ProtocolErrorCode::StaleIdentity
        | ProtocolErrorCode::PermissionDenied | ProtocolErrorCode::ControllerBusy
        | ProtocolErrorCode::UnsupportedVersion | ProtocolErrorCode::UnknownMessage
        | ProtocolErrorCode::MalformedPayload => true,
        _ => false,
    }
}

/// Whether a terminal key request is well formed.
pub fn valid_terminal_key_request(kind: TerminalKeyKind, scalar: u32) -> (r: bool)
    ensures
        r == spec_valid_terminal_key(kind, scalar),
{
    if kind == TerminalKeyKind::ControlAscii {
        scalar == 0x20 || scalar == 0x3f || scalar == 0x40 || (0x41 <= scalar && scalar <= 0x5f)
    } else {
        scalar == 0
    }
}

fn has_newer_request_for(s: &VecDeque<ResizeRecord>, id: u64, desired: Option<GridGeometry>) -> (r:
    bool)
    ensures
        r == newer_request_for(s@, id, desired),
{
    let mut j: usize = 0;
    while j < s.len()
        invariant
            0 <= j <= s@.len(),
            forall|k: int|
                0 <= k < j ==> !(s@[k].request_id > id && Some(s@[k].geometry) == desired),
        decreases s@.len() - j,
    {
        let candidate = s[j];
        if candidate.request_id > id && Some(candidate.geometry) == desired {
            return true;
        }
        j += 1;
    }
    false
}

impl ControlChannel {
    /// Take the Runtime's answer to a resize request (see
    /// [`spec_accept_result`]).
    pub fn accept_resize_result(&mut self, result: ResizeResult) -> (r: Result<ResizeStep, ClientError>)
        requires
            channel_wf(old(self)@),
        ensures
            (final(self)@, r) == spec_accept_result(old(self)@, result),
            channel_wf(final(self)@),
    {
        let ghost m = self@;
        if result.attachment_id != self.attachment_id {
            self.resize_failure = Some(ResizeFailure::Protocol);
            return Err(ClientError::ResizeProtocolFailure);
        }
        let idx = match find_request(&self.unresolved_resizes, result.request_id) {
            None => {
                self.resize_failure = Some(ResizeFailure::Protocol);
                return Err(ClientError::ResizeProtocolFailure);
            },
            Some(i) => i,
        };
        let record = match self.unresolved_resizes.remove(idx) {
            Some(rec) => rec,
            None => {
                self.resize_failure = Some(ResizeFailure::Protocol);
                return Err(ClientError::ResizeProtocolFailure);
            },
        };
        proof {
            assert forall|i: int, j: int|
                0 <= i < j < self@.unresolved.len() implies #[trigger] self@.unresolved[i].request_id
                < #[trigger] self@.unresolved[j].request_id by {
                let ii = if i < idx {
                    i
                } else {
                    i + 1
                };
                let jj = if j < idx {
                    j
                } else {
                    j + 1
                };
                assert(self@.unresolved[i] == m.unresolved[ii]);
                assert(self@.unresolved[j] == m.unresolved[jj]);
            }
            assert forall|i: int| 0 <= i < self@.unresolved.len() implies #[trigger] self@.unresolved[i].request_id
                < m.next_request_id || m.next_request_id == 0 by {
                let ii = if i < idx {
                    i
                } else {
                    i + 1
                };
                assert(self@.unresolved[i] == m.unresolved[ii]);
            }
        }
        match result.result_code {
            ResizeResultCode::Applied => {
                let replace_fence = match self.applied_awaiting_projection {
                    None => true,
                    Some(fence) => result.request_id > fence.request_id,
                };
                if replace_fence {
                    self.applied_awaiting_projection = Some(
                        AppliedFence {
                            request_id: result.request_id,
                            geometry: record.geometry,
                            applied_generation: result.applied_generation,
                        },
                    );
                }
                self.retry_suppression = None;
                self.resize_failure = None;
            },
            ResizeResultCode::Error(code) => {
                self.resize_failure = Some(ResizeFailure::Apply(code));
                let newer_same_desired = has_newer_request_for(
                    &self.unresolved_resizes,
                    record.request_id,
                    self.desired_geometry,
                );
                if !newer_same_desired && Some(record.geometry) == self.desired_geometry {
                    self.retry_suppression = Some(record.geometry);
                }
                if is_demoting_refusal(code) {
                    self.role = Role::Observer;
                    self.input_failure = Some(InputAdmissionFailure::LostController);
                }
            },
        }
        self.reconcile_resize()
    }

    /// The committed grid changed to `rows` x `columns` at `generation`
    /// (see [`spec_observe`]).
    pub fn observe_projection(&mut self, rows: u16, columns: u16, generation: u64) -> (r: Result<
        ResizeStep,
        ClientError,
    >)
        requires
            channel_wf(old(self)@),
        ensures
            (final(self)@, r) == spec_observe(old(self)@, rows, columns, generation),
            channel_wf(final(self)@),
    {
        let geometry = GridGeometry { rows, columns };
        self.committed_geometry = geometry;
        match self.applied_awaiting_projection {
            Some(fence) => {
                if generation >= fence.applied_generation {
                    if generation == fence.applied_generation && geometry != fence.geometry {
                        self.resize_failure = Some(ResizeFailure::Protocol);
                        return Err(ClientError::ResizeProtocolFailure);
                    }
                    self.applied_awaiting_projection = None;
                }
            },
            None => {},
        }
        if self.desired_geometry == Some(geometry) && self.applied_awaiting_projection.is_none() {
            self.resize_failure = None;
        }
        self.reconcile_resize()
    }

    /// The host wants the grid to be `geometry` (see [`spec_set_desired`]).
    pub fn set_desired_geometry_for_layout(
        &mut self,
        geometry: GridGeometry,
        meaningful_layout_epoch: bool,
    ) -> (r: Result<ResizeStep, ClientError>)
        requires
            channel_wf(old(self)@),
        ensures
            (final(self)@, r) == spec_set_desired(old(self)@, geometry, meaningful_layout_epoch),
            channel_wf(final(self)@),
    {
        if geometry.rows == 0 || geometry.columns == 0 || geometry.rows > MAX_GRID_ROWS
            || geometry.columns > MAX_GRID_COLUMNS {
            return Err(ClientError::InvalidGeometry);
        }
        self.require_controller()?;
        let geometry_changed = self.desired_geometry != Some(geometry);
        self.desired_geometry = Some(geometry);
        if geometry_changed || (meaningful_layout_epoch && self.retry_suppression == Some(geometry)) {
            self.retry_suppression = None;
            self.resize_failure = None;
        }
        self.reconcile_resize()
    }

    /// Retry the desired geometry explicitly (see [`spec_retry`]).
    pub fn retry_resize(&mut self) -> (r: Result<ResizeStep, ClientError>)
        requires
            channel_wf(old(self)@),
        ensures
            (final(self)@, r) == spec_retry(old(self)@),
            channel_wf(final(self)@),
    {
        self.retry_suppression = None;
        self.resize_failure = None;
        self.reconcile_resize()
    }

    /// Check committed text of `len` bytes before it is encoded (see
    /// [`spec_check_text`]).
    pub fn check_committed_text(&mut self, len: usize, max_input_bytes: usize) -> (r: Result<
        bool,
        ClientError,
    >)
        requires
            channel_wf(old(self)@),
        ensures
            (final(self)@, r) == spec_check_text(old(self)@, len, max_input_bytes),
            channel_wf(final(self)@),
    {
        self.require_controller()?;
        if len == 0 {
            return Ok(false);
        }
        if len > max_input_bytes {
            self.input_failure = Some(InputAdmissionFailure::CommitTooLarge);
            return Err(ClientError::CommitTooLarge);
        }
        Ok(true)
    }

    /// Check a terminal key before it is encoded (see [`spec_check_key`]).
    pub fn check_terminal_key(&mut self, kind: TerminalKeyKind, scalar: u32) -> (r: Result<
        (),
        ClientError,
    >)
        requires
            channel_wf(old(self)@),
        ensures
            (final(self)@, r) == spec_check_key(old(self)@, kind, scalar),
            channel_wf(final(self)@),
    {
        self.require_controller()?;
        if !valid_terminal_key_request(kind, scalar) {
            return Err(ClientError::Protocol);
        }
        Ok(())
    }

    /// Queue an encoded input or key frame (see [`spec_admit_input`]).
    pub fn admit_input(&mut self, frame: Vec<u8>, kind: OutboundKind) -> (r: Result<(), ClientError>)
        requires
            channel_wf(old(self)@),
        ensures
            (final(self)@, r) == spec_admit_input(old(self)@, frame@, kind),
            channel_wf(final(self)@),
    {
        match self.admit_frame(frame, kind) {
            Err(error) => {
                self.input_failure = Some(InputAdmissionFailure::ClientBackpressure);
                Err(error)
            },
            Ok(()) => {
                self.input_failure = None;
                Ok(())
            },
        }
    }
}

} // verus!
