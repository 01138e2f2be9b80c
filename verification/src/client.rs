//! Display-client bookkeeping that does not touch the socket: the error
//! vocabulary, the grid geometry, resize-mutation suppression, and assembly
//! of one multi-chunk display commit.

use std::collections::VecDeque;

use vstd::prelude::*;

verus! {

broadcast use vstd::std_specs::vecdeque::group_vec_dequeue_axioms;

#[derive(Clone, Copy, Debug, PartialEq, Eq, Structural)]
pub enum ClientError {
    Io,
    Protocol,
    UnsupportedDisplayCapability,
    UnsupportedInteractiveCapability,
    NoRunningExecution,
    AmbiguousExecutions,
    InvalidAttachment,
    Display,
    Prepare,
    Server(u16),
    Disconnected,
    Capacity,
    ClientBackpressure,
    CommitTooLarge,
    LostController,
    ResizeProtocolFailure,
    InvalidGeometry,
    BlockMetadataConflict,
    /// A discovery outcome the recovery coordinator must tell apart.
    Discovery(DiscoveryFailure),
    StartupDeadlineExceeded,
}

#[derive(Clone, Copy, Debug, PartialEq, Eq, Structural)]
pub enum DiscoveryFailure {
    /// The verified canonical endpoint does not exist. This is the sole
    /// discovery result that may claim the one helper-launch action.
    EndpointMissing,
    /// A canonical endpoint exists but is not accepting connections yet.
    ConnectionRefused,
    /// The endpoint changed state while a connection was being attempted.
    EndpointDisappeared,
    /// Directory/socket metadata or ownership failed same-user trust checks.
    UntrustedEndpoint,
    /// The canonical runtime location cannot be derived or represented safely.
    InvalidPath,
}

/// Why the canonical runtime directory or socket path was refused.
#[derive(Clone, Copy, Debug, PartialEq, Eq, Structural)]
pub enum DiscoveryError {
    NotADirectory,
    NotOwnedByEffectiveUser,
    GroupOrWorldWritable,
    ActiveEndpoint,
    ConfstrFailed,
    PathTooLongForSocket,
    /// An I/O failure while inspecting the path, by its kind.
    Io(ConnectErrorKind),
}

/// Trust failures are untrusted endpoints; anything that prevents deriving
/// the path is an invalid path. Neither may lead to a launch.
pub open spec fn spec_classify_discovery(error: DiscoveryError) -> DiscoveryFailure {
    match error {
        DiscoveryError::NotADirectory | DiscoveryError::NotOwnedByEffectiveUser
        | DiscoveryError::GroupOrWorldWritable | DiscoveryError::ActiveEndpoint =>
            DiscoveryFailure::UntrustedEndpoint,
        _ => DiscoveryFailure::InvalidPath,
    }
}

/// Preserve discovery/trust distinctions through the client boundary.
pub fn classify_discovery_error(error: DiscoveryError) -> (r: ClientError)
    ensures
        r == ClientError::Discovery(spec_classify_discovery(error)),
        r != ClientError::Discovery(DiscoveryFailure::EndpointMissing),
{
    let failure = match error {
        DiscoveryError::NotADirectory
        | DiscoveryError::NotOwnedByEffectiveUser
        | DiscoveryError::GroupOrWorldWritable
        | DiscoveryError::ActiveEndpoint => DiscoveryFailure::UntrustedEndpoint,
        DiscoveryError::ConfstrFailed
        | DiscoveryError::PathTooLongForSocket
        | DiscoveryError::Io(_) => DiscoveryFailure::InvalidPath,
    };
    ClientError::Discovery(failure)
}

/// Recovery's view of a discovery failure: a path that is simply not there
/// is a missing endpoint (the one outcome that may launch a helper); every
/// other failure is classified as above.
pub open spec fn spec_classify_bridge_discovery(error: DiscoveryError) -> DiscoveryFailure {
    match error {
        DiscoveryError::Io(ConnectErrorKind::NotFound) => DiscoveryFailure::EndpointMissing,
        _ => spec_classify_discovery(error),
    }
}

/// Classify a discovery failure met while recovering a connection.
pub fn classify_bridge_discovery_error(error: DiscoveryError) -> (r: ClientError)
    ensures
        r == ClientError::Discovery(spec_classify_bridge_discovery(error)),
{
    match error {
        DiscoveryError::Io(ConnectErrorKind::NotFound) => ClientError::Discovery(
            DiscoveryFailure::EndpointMissing,
        ),
        _ => classify_discovery_error(error),
    }
}

/// Numeric codes of the local protocol that the client's decisions read.
#[derive(Clone, Copy, Debug, PartialEq, Eq, Structural)]
pub struct ProtocolCodes {
    /// Error code of a queue-capacity rejection.
    pub backpressure: u16,
    /// Error code of a refusal because another controller holds the pane.
    pub controller_busy: u16,
    /// Message type of committed text input.
    pub input_message: u16,
    /// Message type of a terminal key.
    pub terminal_key_message: u16,
    /// Capability bit for command blocks.
    pub cap_command_blocks: u32,
    /// Capability bit for block metadata.
    pub cap_block_metadata: u32,
    /// Capability bit for the binary display stream.
    pub cap_binary_display: u32,
    /// Capability bit for semantic terminal keys.
    pub cap_semantic_terminal_key: u32,
    /// Capability bit for correlated resize results.
    pub cap_correlated_resize: u32,
}

/// What the client needs of a Runtime: the binary display stream always,
/// and for an interactive attachment semantic keys and correlated resizes.
pub open spec fn spec_check_server_capabilities(
    codes: ProtocolCodes,
    server_capabilities: u32,
    interactive: bool,
) -> Result<(), ClientError> {
    if server_capabilities & codes.cap_binary_display == 0 {
        Err(ClientError::UnsupportedDisplayCapability)
    } else if interactive && (server_capabilities & codes.cap_semantic_terminal_key == 0
        || server_capabilities & codes.cap_correlated_resize == 0) {
        Err(ClientError::UnsupportedInteractiveCapability)
    } else {
        Ok(())
    }
}

/// Check the capabilities a Runtime announced in its hello.
pub fn check_server_capabilities(codes: &ProtocolCodes, server_capabilities: u32, interactive: bool) -> (r:
    Result<(), ClientError>)
    ensures
        r == spec_check_server_capabilities(*codes, server_capabilities, interactive),
{
    if server_capabilities & codes.cap_binary_display == 0 {
        return Err(ClientError::UnsupportedDisplayCapability);
    }
    if interactive && (server_capabilities & codes.cap_semantic_terminal_key == 0
        || server_capabilities & codes.cap_correlated_resize == 0) {
        return Err(ClientError::UnsupportedInteractiveCapability);
    }
    Ok(())
}

/// The capabilities a client asks for: command blocks always, block
/// metadata on request.
pub fn requested_capabilities(codes: &ProtocolCodes, request_block_metadata: bool) -> (r: u32)
    ensures
        r == (if request_block_metadata {
            codes.cap_command_blocks | codes.cap_block_metadata
        } else {
            codes.cap_command_blocks | 0u32
        }),
{
    codes.cap_command_blocks | if request_block_metadata {
        codes.cap_block_metadata
    } else {
        0
    }
}

/// A Runtime error answering a request: backpressure on an input or key
/// message is a refused input the client survives; anything else is a
/// server error.
pub open spec fn spec_classify_server_error(
    codes: ProtocolCodes,
    error_code: u16,
    offending_message_type: u16,
) -> Result<Option<InputAdmissionFailure>, ClientError> {
    if error_code == codes.backpressure && (offending_message_type == codes.input_message
        || offending_message_type == codes.terminal_key_message) {
        Ok(Some(InputAdmissionFailure::ClientBackpressure))
    } else {
        Err(ClientError::Server(error_code))
    }
}

/// Classify a Runtime error message by its code and the message it refused.
pub fn classify_server_error(codes: &ProtocolCodes, error_code: u16, offending_message_type: u16) -> (r:
    Result<Option<InputAdmissionFailure>, ClientError>)
    ensures
        r == spec_classify_server_error(*codes, error_code, offending_message_type),
{
    if error_code == codes.backpressure && (offending_message_type == codes.input_message
        || offending_message_type == codes.terminal_key_message) {
        return Ok(Some(InputAdmissionFailure::ClientBackpressure));
    }
    Err(ClientError::Server(error_code))
}

/// The recovery failure class and whether recovery may retry, for an
/// error that ended a connection attempt. Only a missing endpoint (class 1)
/// may launch a helper; refusals, disappearance and transient I/O retry
/// (class 2); a busy controller retries (class 3); trust, path, deadline
/// and protocol failures are final (class 4); backpressure retries
/// (class 5); ambiguity is final (class 6).
pub open spec fn spec_recovery_failure(codes: ProtocolCodes, error: ClientError) -> (u8, u8) {
    match error {
        ClientError::Discovery(DiscoveryFailure::EndpointMissing) => (1, 1),
        ClientError::Discovery(DiscoveryFailure::ConnectionRefused)
        | ClientError::Discovery(DiscoveryFailure::EndpointDisappeared) => (2, 1),
        ClientError::Discovery(DiscoveryFailure::UntrustedEndpoint)
        | ClientError::Discovery(DiscoveryFailure::InvalidPath) => (4, 0),
        ClientError::StartupDeadlineExceeded => (4, 0),
        ClientError::Io | ClientError::Disconnected => (2, 1),
        ClientError::NoRunningExecution => (2, 0),
        ClientError::AmbiguousExecutions => (6, 0),
        ClientError::Server(code) => if code == codes.controller_busy {
            (3, 1)
        } else {
            (4, 0)
        },
        ClientError::ClientBackpressure => (5, 1),
        _ => (4, 0),
    }
}

/// Classify a failed recovery attempt for the host.
pub fn recovery_failure(codes: &ProtocolCodes, error: ClientError) -> (r: (u8, u8))
    ensures
        r == spec_recovery_failure(*codes, error),
{
    match error {
        ClientError::Discovery(DiscoveryFailure::EndpointMissing) => (1, 1),
        ClientError::Discovery(DiscoveryFailure::ConnectionRefused)
        | ClientError::Discovery(DiscoveryFailure::EndpointDisappeared) => (2, 1),
        ClientError::Discovery(DiscoveryFailure::UntrustedEndpoint)
        | ClientError::Discovery(DiscoveryFailure::InvalidPath) => (4, 0),
        ClientError::StartupDeadlineExceeded => (4, 0),
        ClientError::Io | ClientError::Disconnected => (2, 1),
        ClientError::NoRunningExecution => (2, 0),
        ClientError::AmbiguousExecutions => (6, 0),
        ClientError::Server(code) => if code == codes.controller_busy {
            (3, 1)
        } else {
            (4, 0)
        },
        ClientError::ClientBackpressure => (5, 1),
        ClientError::UnsupportedDisplayCapability
        | ClientError::UnsupportedInteractiveCapability
        | ClientError::Protocol
        | ClientError::InvalidAttachment
        | ClientError::Display
        | ClientError::Prepare
        | ClientError::Capacity
        | ClientError::CommitTooLarge
        | ClientError::LostController
        | ClientError::ResizeProtocolFailure
        | ClientError::InvalidGeometry
        | ClientError::BlockMetadataConflict => (4, 0),
    }
}

/// A recovery budget must be positive; a zero budget has already expired.
pub fn check_recovery_budget(budget_micros: u64) -> (r: Result<u64, ClientError>)
    ensures
        budget_micros == 0 ==> r == Err::<u64, ClientError>(ClientError::StartupDeadlineExceeded),
        budget_micros != 0 ==> r == Ok::<u64, ClientError>(budget_micros),
{
    if budget_micros == 0 {
        return Err(ClientError::StartupDeadlineExceeded);
    }
    Ok(budget_micros)
}

/// Only a missing endpoint may ever lead to a helper launch, and whatever
/// may not be retried is never a launch either.
pub proof fn only_missing_endpoint_launches(codes: ProtocolCodes, error: ClientError)
    ensures
        spec_recovery_failure(codes, error).0 == 1 <==> error == ClientError::Discovery(
            DiscoveryFailure::EndpointMissing,
        ),
        spec_recovery_failure(codes, error).1 == 0 ==> spec_recovery_failure(codes, error).0 != 1,
{
}

#[verifier::external_type_specification]
#[verifier::external_body]
pub struct ExIoError(std::io::Error);

/// The connect-failure kinds discovery tells apart.
#[derive(Clone, Copy, Debug, PartialEq, Eq, Structural)]
pub enum ConnectErrorKind {
    NotFound,
    ConnectionRefused,
    ConnectionReset,
    NotConnected,
    Other,
}

/// Trusted: `std::io::Error::kind`. Converts the four kinds discovery tells
/// apart to their namesakes and every other kind to `Other`; nothing is
/// stated of which kind an error has.
#[verifier::external_body]
fn connect_error_kind(error: &std::io::Error) -> (r: ConnectErrorKind) {
    match error.kind() {
        std::io::ErrorKind::NotFound => ConnectErrorKind::NotFound,
        std::io::ErrorKind::ConnectionRefused => ConnectErrorKind::ConnectionRefused,
        std::io::ErrorKind::ConnectionReset => ConnectErrorKind::ConnectionReset,
        std::io::ErrorKind::NotConnected => ConnectErrorKind::NotConnected,
        _ => ConnectErrorKind::Other,
    }
}

/// A missing endpoint, a refusal and a disappearance stay distinct discovery
/// outcomes; every other connect failure is a plain I/O failure.
pub open spec fn spec_classify_connect(kind: ConnectErrorKind) -> ClientError {
    match kind {
        ConnectErrorKind::NotFound => ClientError::Discovery(DiscoveryFailure::EndpointMissing),
        ConnectErrorKind::ConnectionRefused => ClientError::Discovery(
            DiscoveryFailure::ConnectionRefused,
        ),
        ConnectErrorKind::ConnectionReset | ConnectErrorKind::NotConnected => ClientError::Discovery(
            DiscoveryFailure::EndpointDisappeared,
        ),
        ConnectErrorKind::Other => ClientError::Io,
    }
}

/// Classify a connect failure of the given kind.
pub fn classify_connect_kind(kind: ConnectErrorKind) -> (r: ClientError)
    ensures
        r == spec_classify_connect(kind),
{
    match kind {
        ConnectErrorKind::NotFound => ClientError::Discovery(DiscoveryFailure::EndpointMissing),
        ConnectErrorKind::ConnectionRefused => ClientError::Discovery(
            DiscoveryFailure::ConnectionRefused,
        ),
        ConnectErrorKind::ConnectionReset | ConnectErrorKind::NotConnected => ClientError::Discovery(
            DiscoveryFailure::EndpointDisappeared,
        ),
        ConnectErrorKind::Other => ClientError::Io,
    }
}

/// Classify a failed connect to the canonical endpoint. Whatever its kind,
/// the result is the classification of some connect-failure kind: a plain
/// I/O failure or one of the three retryable discovery outcomes.
pub fn classify_connect_error(error: std::io::Error) -> (r: ClientError)
    ensures
        exists|k: ConnectErrorKind| r == spec_classify_connect(k),
{
    let kind = connect_error_kind(&error);
    classify_connect_kind(kind)
}

// ---------------------------------------------------------------------------
// Correlated terminal-key rejections.
// ---------------------------------------------------------------------------

/// Protocol error codes the client distinguishes; `Other` is any other
/// known code.
#[derive(Clone, Copy, Debug, PartialEq, Eq, Structural)]
pub enum ProtocolErrorCode {
    Backpressure,
    PermissionDenied,
    StaleIdentity,
    InvalidExecution,
    MalformedPayload,
    InvalidState,
    InvalidAttachment,
    ControllerBusy,
    UnsupportedVersion,
    UnknownMessage,
    Other(u16),
}

#[derive(Clone, Copy, Debug, PartialEq, Eq, Structural)]
pub enum V2IncomingDisposition {
    ClientBackpressure,
    LostController,
    Protocol,
    Fatal(ProtocolErrorCode),
}

/// How a correlated rejection is handled. An uncorrelated one (detail 0)
/// keeps readable backpressure/authorization codes as protocol noise; a
/// correlated id must lie in `(highest_error, last_sent]`, and is then
/// backpressure, a lost controller, or fatal by its code. Unknown codes are
/// protocol errors. The highest-error bound moves only to an accepted id.
pub open spec fn spec_classify_v2(
    code: Option<ProtocolErrorCode>,
    detail_code: u32,
    last_sent: u32,
    highest_error: u32,
) -> (V2IncomingDisposition, u32) {
    if detail_code == 0 {
        (
            match code {
                Some(ProtocolErrorCode::Backpressure) | Some(ProtocolErrorCode::PermissionDenied)
                | Some(ProtocolErrorCode::StaleIdentity) | Some(
                    ProtocolErrorCode::InvalidExecution,
                ) => V2IncomingDisposition::Protocol,
                Some(c) => V2IncomingDisposition::Fatal(c),
                None => V2IncomingDisposition::Protocol,
            },
            highest_error,
        )
    } else if detail_code > last_sent || detail_code <= highest_error {
        (V2IncomingDisposition::Protocol, highest_error)
    } else {
        (
            match code {
                Some(ProtocolErrorCode::Backpressure) | Some(ProtocolErrorCode::MalformedPayload) =>
                    V2IncomingDisposition::ClientBackpressure,
                Some(ProtocolErrorCode::PermissionDenied) | Some(ProtocolErrorCode::StaleIdentity)
                | Some(ProtocolErrorCode::InvalidExecution) =>
                    V2IncomingDisposition::LostController,
                Some(c) => V2IncomingDisposition::Fatal(c),
                None => V2IncomingDisposition::Protocol,
            },
            detail_code,
        )
    }
}

/// Classify a correlated terminal-key rejection; returns the disposition and
/// the updated highest-error bound, which never decreases.
pub fn classify_v2_incoming_error(
    code: Option<ProtocolErrorCode>,
    detail_code: u32,
    last_sent: u32,
    highest_error: u32,
) -> (r: (V2IncomingDisposition, u32))
    ensures
        r == spec_classify_v2(code, detail_code, last_sent, highest_error),
        r.1 >= highest_error,
        r.1 != highest_error ==> r.1 == detail_code && detail_code <= last_sent,
{
    if detail_code == 0 {
        let disposition = match code {
            Some(ProtocolErrorCode::Backpressure)
            | Some(ProtocolErrorCode::PermissionDenied)
            | Some(ProtocolErrorCode::StaleIdentity)
            | Some(ProtocolErrorCode::InvalidExecution) => V2IncomingDisposition::Protocol,
            Some(c) => V2IncomingDisposition::Fatal(c),
            None => V2IncomingDisposition::Protocol,
        };
        return (disposition, highest_error);
    }
    if detail_code > last_sent || detail_code <= highest_error {
        return (V2IncomingDisposition::Protocol, highest_error);
    }
    let disposition = match code {
        Some(ProtocolErrorCode::Backpressure) | Some(ProtocolErrorCode::MalformedPayload) => {
            V2IncomingDisposition::ClientBackpressure
        },
        Some(ProtocolErrorCode::PermissionDenied)
        | Some(ProtocolErrorCode::StaleIdentity)
        | Some(ProtocolErrorCode::InvalidExecution) => V2IncomingDisposition::LostController,
        Some(c) => V2IncomingDisposition::Fatal(c),
        None => V2IncomingDisposition::Protocol,
    };
    (disposition, detail_code)
}

#[derive(Clone, Copy, Debug, PartialEq, Eq, Structural)]
pub enum InputAdmissionFailure {
    ClientBackpressure,
    CommitTooLarge,
    LostController,
    Disconnected,
}

/// Why the last resize request did not take effect.
#[derive(Clone, Copy, Debug, PartialEq, Eq, Structural)]
pub enum ResizeFailure {
    ClientBackpressure,
    Apply(ProtocolErrorCode),
    Protocol,
    Disconnected,
}

#[derive(Clone, Copy, Debug, PartialEq, Eq, Structural)]
pub struct GridGeometry {
    pub rows: u16,
    pub columns: u16,
}

// ---------------------------------------------------------------------------
// Resize suppression.
// ---------------------------------------------------------------------------

#[derive(Clone, Copy, Debug, PartialEq, Eq, Structural)]
pub enum ResizePhase {
    QueuedNotStarted,
    Writing,
    SentWaitingResult,
}

/// A resize request not yet answered.
#[derive(Clone, Copy, Debug, PartialEq, Eq, Structural)]
pub struct ResizeRecord {
    pub request_id: u64,
    pub geometry: GridGeometry,
    pub phase: ResizePhase,
}

/// The newest resize the Runtime reported as applied.
#[derive(Clone, Copy, Debug, PartialEq, Eq, Structural)]
pub struct AppliedFence {
    pub request_id: u64,
    pub geometry: GridGeometry,
    pub applied_generation: u64,
}

/// The unresolved record with the highest request id (the later one on ties).
pub open spec fn latest_record(s: Seq<ResizeRecord>) -> Option<ResizeRecord>
    decreases s.len(),
{
    if s.len() == 0 {
        None
    } else {
        match latest_record(s.drop_last()) {
            None => Some(s.last()),
            Some(r) => if s.last().request_id >= r.request_id {
                Some(s.last())
            } else {
                Some(r)
            },
        }
    }
}

/// The geometry of the newest pending resize across unresolved requests and
/// the applied fence: the one with the higher request id, the fence on ties.
pub open spec fn spec_newest_pending(
    unresolved: Seq<ResizeRecord>,
    applied: Option<AppliedFence>,
) -> Option<GridGeometry> {
    match (latest_record(unresolved), applied) {
        (Some(u), Some(a)) => Some(
            if u.request_id > a.request_id {
                u.geometry
            } else {
                a.geometry
            },
        ),
        (Some(u), None) => Some(u.geometry),
        (None, Some(a)) => Some(a.geometry),
        (None, None) => None,
    }
}

/// Geometry of the newest pending resize, if any.
pub fn newest_pending_geometry(
    unresolved: &VecDeque<ResizeRecord>,
    applied_fence: Option<AppliedFence>,
) -> (r: Option<GridGeometry>)
    ensures
        r == spec_newest_pending(unresolved@, applied_fence),
{
    let mut best: Option<ResizeRecord> = None;
    let mut i: usize = 0;
    let n = unresolved.len();
    while i < n
        invariant
            n == unresolved@.len(),
            0 <= i <= n,
            best == latest_record(unresolved@.subrange(0, i as int)),
        decreases n - i,
    {
        assert(unresolved@.subrange(0, i + 1).drop_last() =~= unresolved@.subrange(0, i as int));
        let record = unresolved[i];
        best = match best {
            None => Some(record),
            Some(b) => if record.request_id >= b.request_id {
                Some(record)
            } else {
                Some(b)
            },
        };
        i = i + 1;
    }
    assert(unresolved@.subrange(0, n as int) =~= unresolved@);
    match (best, applied_fence) {
        (Some(u), Some(a)) => Some(
            if u.request_id > a.request_id {
                u.geometry
            } else {
                a.geometry
            },
        ),
        (Some(u), None) => Some(u.geometry),
        (None, Some(a)) => Some(a.geometry),
        (None, None) => None,
    }
}

/// Whether a resize must be sent: not when the newest pending request
/// already asks for `desired`, nor when nothing is pending and the committed
/// geometry already is `desired`.
pub fn resize_needs_mutation(
    desired: GridGeometry,
    committed: GridGeometry,
    newest_pending: Option<GridGeometry>,
) -> (r: bool)
    ensures
        r == !(newest_pending == Some(desired) || (newest_pending is None && committed == desired)),
{
    if newest_pending == Some(desired) {
        return false;
    }
    !(newest_pending.is_none() && committed == desired)
}

// ---------------------------------------------------------------------------
// Display commit assembly.
// ---------------------------------------------------------------------------

/// Whether a display commit replaces the grid or patches it.
#[derive(Clone, Copy, Debug, PartialEq, Eq, Structural)]
pub enum DisplayKind {
    Snapshot,
    Delta,
}

/// Wire constants of the display protocol that bound one commit.
#[derive(Clone, Copy, Debug, PartialEq, Eq, Structural)]
pub struct DisplayWireLimits {
    /// Schema number of the column-addressed chunk format.
    pub schema_v2: u8,
    /// Most cells one commit may carry.
    pub max_cells: usize,
    /// Bytes of the framing header around every chunk.
    pub frame_header_len: usize,
    /// Bytes of a chunk header in the row-addressed format.
    pub chunk_header_len: usize,
    /// Bytes of a chunk header in the column-addressed format.
    pub chunk_header_v2_len: usize,
    /// Bytes of one encoded cell.
    pub cell_len: usize,
    /// Most wire bytes one commit may take.
    pub max_logical_bytes: usize,
}

/// One decoded chunk of a display commit, carrying cells of type `C`.
#[derive(Clone, Debug, PartialEq, Eq)]
pub struct DisplayChunk<C> {
    pub kind: DisplayKind,
    pub schema: u8,
    pub generation: u64,
    pub base_generation: u64,
    pub rows: u16,
    pub columns: u16,
    pub cursor_row: u16,
    pub cursor_col: u16,
    pub cursor_visible: bool,
    pub alternate_screen: bool,
    pub first_row: u16,
    pub row_count: u16,
    pub first_col: u16,
    pub chunk_index: u16,
    pub chunk_count: u16,
    pub cells: Vec<C>,
}

/// The header of a chunk and its number of cells.
pub struct ChunkHeader {
    pub kind: DisplayKind,
    pub schema: u8,
    pub generation: u64,
    pub base_generation: u64,
    pub rows: u16,
    pub columns: u16,
    pub cursor_row: u16,
    pub cursor_col: u16,
    pub cursor_visible: bool,
    pub alternate_screen: bool,
    pub first_row: u16,
    pub row_count: u16,
    pub first_col: u16,
    pub chunk_index: u16,
    pub chunk_count: u16,
    pub cell_count: nat,
}

impl<C> View for DisplayChunk<C> {
    type V = ChunkHeader;

    open spec fn view(&self) -> ChunkHeader {
        ChunkHeader {
            kind: self.kind,
            schema: self.schema,
            generation: self.generation,
            base_generation: self.base_generation,
            rows: self.rows,
            columns: self.columns,
            cursor_row: self.cursor_row,
            cursor_col: self.cursor_col,
            cursor_visible: self.cursor_visible,
            alternate_screen: self.alternate_screen,
            first_row: self.first_row,
            row_count: self.row_count,
            first_col: self.first_col,
            chunk_index: self.chunk_index,
            chunk_count: self.chunk_count,
            cell_count: self.cells@.len(),
        }
    }
}

/// `c` belongs to the commit begun by `first`, at position `index`.
pub open spec fn same_commit(c: ChunkHeader, first: ChunkHeader, index: int) -> bool {
    &&& c.kind == first.kind
    &&& c.schema == first.schema
    &&& c.generation == first.generation
    &&& c.base_generation == first.base_generation
    &&& c.rows == first.rows
    &&& c.columns == first.columns
    &&& c.cursor_row == first.cursor_row
    &&& c.cursor_col == first.cursor_col
    &&& c.cursor_visible == first.cursor_visible
    &&& c.alternate_screen == first.alternate_screen
    &&& c.chunk_count == first.chunk_count
    &&& c.chunk_index == index
}

/// Where the chunk after `prev` must start, or the error when that position
/// overflows. A column-addressed chunk that filled part of one row continues
/// on that row (or the next when it reached the last column); otherwise the
/// next chunk starts at column 0 of the row after `prev`.
pub open spec fn next_position(prev: ChunkHeader, v2: bool) -> Result<(u16, u16), ClientError> {
    if v2 && prev.row_count == 1 && !(prev.first_col == 0 && prev.cell_count == prev.columns) {
        let advance = (prev.cell_count % 0x1_0000) as int;
        if prev.first_col + advance > u16::MAX {
            Err(ClientError::Capacity)
        } else if prev.first_col + advance == prev.columns {
            if prev.first_row + 1 > u16::MAX {
                Err(ClientError::Capacity)
            } else {
                Ok(((prev.first_row + 1) as u16, 0u16))
            }
        } else {
            Ok((prev.first_row, (prev.first_col + advance) as u16))
        }
    } else if prev.first_row + prev.row_count > u16::MAX {
        Err(ClientError::Capacity)
    } else {
        Ok(((prev.first_row + prev.row_count) as u16, 0u16))
    }
}

/// Abstract pending commit: the accepted chunk headers and the running cell
/// and wire-byte totals.
pub struct BatchModel {
    pub chunks: Seq<ChunkHeader>,
    pub cells: usize,
    pub wire_bytes: usize,
    /// Rows covered so far by a row-addressed commit (0 for a
    /// column-addressed one).
    pub rows: usize,
}

/// What pushing chunk `c` does: the commit after it, or the error that
/// rejects it. `Ok` carries whether the commit is now complete.
pub open spec fn spec_push(m: BatchModel, c: ChunkHeader, lim: DisplayWireLimits) -> Result<
    (BatchModel, bool),
    ClientError,
> {
    let n = m.chunks.len();
    let v2 = c.schema == lim.schema_v2;
    if c.chunk_count == 0 || (!v2 && c.chunk_count > c.rows) {
        Err(ClientError::Capacity)
    } else if n == 0 && c.chunk_index != 0 {
        Err(ClientError::Protocol)
    } else if n == 0 && c.kind == DisplayKind::Snapshot && !v2 && c.first_row != 0 {
        Err(ClientError::Protocol)
    } else if n == 0 && c.kind == DisplayKind::Snapshot && v2 && (c.first_row != 0 || c.first_col
        != 0) {
        Err(ClientError::Protocol)
    } else if n > 0 && !same_commit(c, m.chunks[0], n as int) {
        Err(ClientError::Protocol)
    } else if n > 0 && next_position(m.chunks[n - 1], v2) is Err {
        Err(ClientError::Capacity)
    } else if n > 0 && !v2 && c.first_row != next_position(m.chunks[n - 1], false)->Ok_0.0 {
        Err(ClientError::Protocol)
    } else if n > 0 && !v2 && c.first_col != 0 {
        Err(ClientError::Protocol)
    } else if n > 0 && v2 && (c.first_row, c.first_col) != next_position(m.chunks[n - 1], true)->Ok_0 {
        Err(ClientError::Protocol)
    } else if n >= c.chunk_count {
        Err(ClientError::Protocol)
    } else if !v2 && m.rows + c.row_count > c.rows {
        Err(ClientError::Capacity)
    } else if c.rows * c.columns > usize::MAX {
        Err(ClientError::Capacity)
    } else if m.cells + c.cell_count > usize::MAX {
        Err(ClientError::Capacity)
    } else if m.cells + c.cell_count > c.rows * c.columns || m.cells + c.cell_count > lim.max_cells {
        Err(ClientError::Capacity)
    } else {
        let header_len = if v2 {
            lim.chunk_header_v2_len
        } else {
            lim.chunk_header_len
        };
        if lim.frame_header_len + header_len > usize::MAX || c.cell_count * lim.cell_len
            > usize::MAX || lim.frame_header_len + header_len + c.cell_count * lim.cell_len
            > usize::MAX {
            Err(ClientError::Capacity)
        } else {
            let chunk_wire = lim.frame_header_len + header_len + c.cell_count * lim.cell_len;
            if m.wire_bytes + chunk_wire > usize::MAX {
                Err(ClientError::Capacity)
            } else if m.wire_bytes + chunk_wire > lim.max_logical_bytes {
                Err(ClientError::Capacity)
            } else {
                Ok(
                    (
                        BatchModel {
                            chunks: m.chunks.push(c),
                            cells: (m.cells + c.cell_count) as usize,
                            wire_bytes: (m.wire_bytes + chunk_wire) as usize,
                            rows: if v2 {
                                m.rows
                            } else {
                                (m.rows + c.row_count) as usize
                            },
                        },
                        n + 1 == c.chunk_count,
                    ),
                )
            }
        }
    }
}

/// Chunks of one commit accumulated until the commit is complete.
#[derive(Debug)]
pub struct PendingDisplayBatch<C> {
    chunks: Vec<DisplayChunk<C>>,
    cells: usize,
    wire_bytes: usize,
    rows: usize,
    limits: DisplayWireLimits,
}

impl<C> View for PendingDisplayBatch<C> {
    type V = BatchModel;

    closed spec fn view(&self) -> BatchModel {
        BatchModel {
            chunks: self.chunks@.map_values(|c: DisplayChunk<C>| c@),
            cells: self.cells,
            wire_bytes: self.wire_bytes,
            rows: self.rows,
        }
    }
}

/// Every accepted chunk belongs to the commit of the first, in order; no
/// more chunks than announced are held; and the cell total stays within
/// the protocol bound.
pub open spec fn batch_wf(m: BatchModel, lim: DisplayWireLimits) -> bool {
    &&& m.cells <= lim.max_cells
    &&& m.wire_bytes <= lim.max_logical_bytes
    &&& m.rows <= u16::MAX
    &&& m.chunks.len() > 0 ==> m.chunks.len() <= m.chunks[0].chunk_count
    &&& forall|i: int| 0 <= i < m.chunks.len() ==> same_commit(#[trigger] m.chunks[i], m.chunks[0], i)
}

impl<C> PendingDisplayBatch<C> {
    pub closed spec fn limits(&self) -> DisplayWireLimits {
        self.limits
    }

    /// The accepted chunks themselves, cells included, in arrival order.
    pub closed spec fn stored(&self) -> Seq<DisplayChunk<C>> {
        self.chunks@
    }

    /// The headers of the stored chunks are the batch's chunk model.
    pub proof fn lemma_stored_view(&self)
        ensures
            self.stored().map_values(|c: DisplayChunk<C>| c@) == self@.chunks,
    {
    }

    /// An empty batch bounded by `limits`.
    pub fn new(limits: DisplayWireLimits) -> (r: Self)
        ensures
            r@.chunks.len() == 0,
            r@.cells == 0,
            r@.wire_bytes == 0,
            r@.rows == 0,
            r.stored() == Seq::<DisplayChunk<C>>::empty(),
            r.limits() == limits,
            batch_wf(r@, limits),
    {
        let r = PendingDisplayBatch { chunks: Vec::new(), cells: 0, wire_bytes: 0, rows: 0, limits };
        assert(r@.chunks =~= Seq::<ChunkHeader>::empty());
        r
    }

    /// Accept the next chunk of the commit. `Ok(true)` once every announced
    /// chunk has arrived. A rejected chunk leaves the batch unchanged.
    pub fn push(&mut self, chunk: DisplayChunk<C>) -> (r: Result<bool, ClientError>)
        requires
            batch_wf(old(self)@, old(self).limits()),
        ensures
            final(self).limits() == old(self).limits(),
            batch_wf(final(self)@, final(self).limits()),
            match spec_push(old(self)@, chunk@, old(self).limits()) {
                Ok((m, complete)) => r == Ok::<bool, ClientError>(complete) && final(self)@ == m
                    && final(self).stored() == old(self).stored().push(chunk),
                Err(e) => r == Err::<bool, ClientError>(e) && final(self)@ == old(self)@
                    && final(self).stored() == old(self).stored(),
            },
    {
        let ghost m = self@;
        let ghost c = chunk@;
        let lim = self.limits;
        let v2 = chunk.schema == lim.schema_v2;
        let expected_count = chunk.chunk_count as usize;
        if expected_count == 0 || (!v2 && expected_count > chunk.rows as usize) {
            return Err(ClientError::Capacity);
        }
        let n = self.chunks.len();
        if n == 0 {
            if chunk.chunk_index != 0 {
                return Err(ClientError::Protocol);
            }
            if chunk.kind == DisplayKind::Snapshot && !v2 && chunk.first_row != 0 {
                return Err(ClientError::Protocol);
            }
            if chunk.kind == DisplayKind::Snapshot && v2 && (chunk.first_row != 0
                || chunk.first_col != 0) {
                return Err(ClientError::Protocol);
            }
        } else {
            let first = &self.chunks[0];
            let previous = &self.chunks[n - 1];
            assert(m.chunks[0] == first@);
            assert(m.chunks[n - 1] == previous@);
            if chunk.kind != first.kind || chunk.schema != first.schema || chunk.generation
                != first.generation || chunk.base_generation != first.base_generation
                || chunk.rows != first.rows || chunk.columns != first.columns || chunk.cursor_row
                != first.cursor_row || chunk.cursor_col != first.cursor_col || chunk.cursor_visible
                != first.cursor_visible || chunk.alternate_screen != first.alternate_screen
                || chunk.chunk_count != first.chunk_count || chunk.chunk_index as usize != n {
                return Err(ClientError::Protocol);
            }
            if v2 {
                let expected = if previous.row_count == 1 && !(previous.first_col == 0
                    && previous.cells.len() == previous.columns as usize) {
                    let advance = (previous.cells.len() % 0x1_0000) as u16;
                    let next_col = match previous.first_col.checked_add(advance) {
                        Some(v) => v,
                        None => {
                            return Err(ClientError::Capacity);
                        },
                    };
                    if next_col == previous.columns {
                        let next_row = match previous.first_row.checked_add(1) {
                            Some(v) => v,
                            None => {
                                return Err(ClientError::Capacity);
                            },
                        };
                        (next_row, 0u16)
                    } else {
                        (previous.first_row, next_col)
                    }
                } else {
                    let next_row = match previous.first_row.checked_add(previous.row_count) {
                        Some(v) => v,
                        None => {
                            return Err(ClientError::Capacity);
                        },
                    };
                    (next_row, 0u16)
                };
                if chunk.first_row != expected.0 || chunk.first_col != expected.1 {
                    return Err(ClientError::Protocol);
                }
            } else {
                let expected_first_row = match previous.first_row.checked_add(previous.row_count) {
                    Some(v) => v,
                    None => {
                        return Err(ClientError::Capacity);
                    },
                };
                if chunk.first_row != expected_first_row || chunk.first_col != 0 {
                    return Err(ClientError::Protocol);
                }
            }
        }
        if n >= expected_count {
            return Err(ClientError::Protocol);
        }
        let next_rows = if v2 {
            self.rows
        } else {
            let total = self.rows + chunk.row_count as usize;
            if total > chunk.rows as usize {
                return Err(ClientError::Capacity);
            }
            total
        };
        let geometry_cells = match (chunk.rows as usize).checked_mul(chunk.columns as usize) {
            Some(v) => v,
            None => {
                return Err(ClientError::Capacity);
            },
        };
        let next_cells = match self.cells.checked_add(chunk.cells.len()) {
            Some(v) => v,
            None => {
                return Err(ClientError::Capacity);
            },
        };
        if next_cells > geometry_cells || next_cells > lim.max_cells {
            return Err(ClientError::Capacity);
        }
        let header_len = if v2 {
            lim.chunk_header_v2_len
        } else {
            lim.chunk_header_len
        };
        let chunk_wire_bytes = match lim.frame_header_len.checked_add(header_len) {
            None => {
                return Err(ClientError::Capacity);
            },
            Some(value) => match chunk.cells.len().checked_mul(lim.cell_len) {
                None => {
                    return Err(ClientError::Capacity);
                },
                Some(cell_bytes) => match value.checked_add(cell_bytes) {
                    None => {
                        return Err(ClientError::Capacity);
                    },
                    Some(total) => total,
                },
            },
        };
        let next_wire_bytes = match self.wire_bytes.checked_add(chunk_wire_bytes) {
            Some(v) => v,
            None => {
                return Err(ClientError::Capacity);
            },
        };
        if next_wire_bytes > lim.max_logical_bytes {
            return Err(ClientError::Capacity);
        }
        self.cells = next_cells;
        self.wire_bytes = next_wire_bytes;
        self.rows = next_rows;
        let ghost before = self.chunks@;
        self.chunks.push(chunk);
        assert(self@.chunks =~= m.chunks.push(c));
        Ok(self.chunks.len() == expected_count)
    }

    /// The accepted chunks, in order.
    pub fn chunks(&self) -> (r: &[DisplayChunk<C>])
        ensures
            r@ == self.stored(),
            r@.map_values(|c: DisplayChunk<C>| c@) == self@.chunks,
    {
        self.chunks.as_slice()
    }

    /// Drop every accepted chunk.
    pub fn clear(&mut self)
        ensures
            final(self)@.chunks.len() == 0,
            final(self)@.cells == 0,
            final(self)@.wire_bytes == 0,
            final(self)@.rows == 0,
            final(self).stored() == Seq::<DisplayChunk<C>>::empty(),
            final(self).limits() == old(self).limits(),
            batch_wf(final(self)@, final(self).limits()),
    {
        self.chunks.clear();
        self.cells = 0;
        self.wire_bytes = 0;
        self.rows = 0;
        assert(self@.chunks =~= Seq::<ChunkHeader>::empty());
    }
}

// ---------------------------------------------------------------------------
// Host ABI numbers.
// ---------------------------------------------------------------------------

/// The host-facing code of a client error: a fixed negative number per
/// kind, and `-1000 - code` for a Runtime error code.
pub open spec fn spec_error_code(error: ClientError) -> int {
    match error {
        ClientError::Discovery(_) => -2,
        ClientError::StartupDeadlineExceeded => -20,
        ClientError::Io => -3,
        ClientError::Protocol => -4,
        ClientError::UnsupportedDisplayCapability => -5,
        ClientError::NoRunningExecution => -6,
        ClientError::AmbiguousExecutions => -19,
        ClientError::InvalidAttachment => -7,
        ClientError::Display => -8,
        ClientError::Prepare => -9,
        ClientError::Disconnected => -10,
        ClientError::Capacity => -11,
        ClientError::UnsupportedInteractiveCapability => -12,
        ClientError::ClientBackpressure => -13,
        ClientError::CommitTooLarge => -14,
        ClientError::LostController => -15,
        ClientError::ResizeProtocolFailure => -16,
        ClientError::InvalidGeometry => -17,
        ClientError::BlockMetadataConflict => -18,
        ClientError::Server(code) => -1000 - code,
    }
}

/// Code a client error for the host ABI. Every code is negative.
pub fn error_code(error: ClientError) -> (r: i32)
    ensures
        r == spec_error_code(error),
        r < 0,
{
    match error {
        ClientError::Discovery(_) => -2,
        ClientError::StartupDeadlineExceeded => -20,
        ClientError::Io => -3,
        ClientError::Protocol => -4,
        ClientError::UnsupportedDisplayCapability => -5,
        ClientError::NoRunningExecution => -6,
        ClientError::AmbiguousExecutions => -19,
        ClientError::InvalidAttachment => -7,
        ClientError::Display => -8,
        ClientError::Prepare => -9,
        ClientError::Disconnected => -10,
        ClientError::Capacity => -11,
        ClientError::UnsupportedInteractiveCapability => -12,
        ClientError::ClientBackpressure => -13,
        ClientError::CommitTooLarge => -14,
        ClientError::LostController => -15,
        ClientError::ResizeProtocolFailure => -16,
        ClientError::InvalidGeometry => -17,
        ClientError::BlockMetadataConflict => -18,
        ClientError::Server(code) => -1000 - (code as i32),
    }
}

/// The host-facing reason for the last refused input (0 when none).
pub fn input_failure_code(failure: Option<InputAdmissionFailure>) -> (r: i32)
    ensures
        r == match failure {
            None => 0i32,
            Some(InputAdmissionFailure::ClientBackpressure) => 1,
            Some(InputAdmissionFailure::CommitTooLarge) => 2,
            Some(InputAdmissionFailure::LostController) => 3,
            Some(InputAdmissionFailure::Disconnected) => 4,
        },
{
    match failure {
        None => 0,
        Some(InputAdmissionFailure::ClientBackpressure) => 1,
        Some(InputAdmissionFailure::CommitTooLarge) => 2,
        Some(InputAdmissionFailure::LostController) => 3,
        Some(InputAdmissionFailure::Disconnected) => 4,
    }
}

} // verus!
