use std::collections::VecDeque;
use std::io;

use seyal_client::client::{
    classify_connect_error, classify_discovery_error, classify_v2_incoming_error, error_code,
    input_failure_code, newest_pending_geometry, resize_needs_mutation, AppliedFence,
    ClientError, DiscoveryError, DiscoveryFailure, DisplayChunk, DisplayKind, DisplayWireLimits,
    GridGeometry, InputAdmissionFailure, PendingDisplayBatch, ProtocolErrorCode, ResizePhase,
    ResizeRecord, V2IncomingDisposition,
};

fn geometry(rows: u16, columns: u16) -> GridGeometry {
    GridGeometry { rows, columns }
}

#[test]
fn newest_pending_resize_is_highest_request_id_across_result_and_unresolved_state() {
    let mut unresolved = VecDeque::from([ResizeRecord {
        request_id: 1,
        geometry: geometry(24, 80),
        phase: ResizePhase::SentWaitingResult,
    }]);
    let fence = AppliedFence {
        request_id: 2,
        geometry: geometry(30, 100),
        applied_generation: 9,
    };
    assert_eq!(
        newest_pending_geometry(&unresolved, Some(fence)),
        Some(geometry(30, 100))
    );
    unresolved.push_back(ResizeRecord {
        request_id: 3,
        geometry: geometry(40, 120),
        phase: ResizePhase::QueuedNotStarted,
    });
    assert_eq!(
        newest_pending_geometry(&unresolved, Some(fence)),
        Some(geometry(40, 120))
    );
}

#[test]
fn resize_mutation_is_suppressed_for_committed_or_newest_pending_geometry() {
    let current = geometry(24, 80);
    let desired = geometry(30, 100);
    assert!(!resize_needs_mutation(current, current, None));
    assert!(!resize_needs_mutation(desired, current, Some(desired)));
    assert!(resize_needs_mutation(desired, current, None));
}

#[test]
fn no_pending_resize_has_no_geometry() {
    assert_eq!(newest_pending_geometry(&VecDeque::new(), None), None);
    let unresolved = VecDeque::from([
        ResizeRecord { request_id: 5, geometry: geometry(10, 10), phase: ResizePhase::Writing },
        ResizeRecord { request_id: 5, geometry: geometry(11, 11), phase: ResizePhase::Writing },
    ]);
    assert_eq!(newest_pending_geometry(&unresolved, None), Some(geometry(11, 11)));
}

#[test]
fn endpoint_absence_refusal_and_disappearance_remain_distinct() {
    assert_eq!(
        classify_connect_error(io::Error::from(io::ErrorKind::NotFound)),
        ClientError::Discovery(DiscoveryFailure::EndpointMissing)
    );
    assert_eq!(
        classify_connect_error(io::Error::from(io::ErrorKind::ConnectionRefused)),
        ClientError::Discovery(DiscoveryFailure::ConnectionRefused)
    );
    for kind in [io::ErrorKind::ConnectionReset, io::ErrorKind::NotConnected] {
        assert_eq!(
            classify_connect_error(io::Error::from(kind)),
            ClientError::Discovery(DiscoveryFailure::EndpointDisappeared)
        );
    }
}

#[test]
fn unrelated_connect_errors_remain_non_discovery_io_failures() {
    for kind in [io::ErrorKind::PermissionDenied, io::ErrorKind::Other] {
        assert_eq!(classify_connect_error(io::Error::from(kind)), ClientError::Io);
    }
}

#[test]
fn insecure_or_invalid_discovery_preconditions_fail_closed() {
    for error in [
        DiscoveryError::NotADirectory,
        DiscoveryError::NotOwnedByEffectiveUser,
        DiscoveryError::GroupOrWorldWritable,
    ] {
        assert_eq!(
            classify_discovery_error(error),
            ClientError::Discovery(DiscoveryFailure::UntrustedEndpoint)
        );
    }
    for error in [DiscoveryError::ConfstrFailed, DiscoveryError::PathTooLongForSocket] {
        assert_eq!(
            classify_discovery_error(error),
            ClientError::Discovery(DiscoveryFailure::InvalidPath)
        );
    }
}

#[test]
fn correlated_rejections_move_the_highest_error_bound() {
    assert_eq!(
        classify_v2_incoming_error(Some(ProtocolErrorCode::Backpressure), 0, 7, 0),
        (V2IncomingDisposition::Protocol, 0)
    );
    assert_eq!(
        classify_v2_incoming_error(Some(ProtocolErrorCode::MalformedPayload), 0, 7, 0),
        (V2IncomingDisposition::Fatal(ProtocolErrorCode::MalformedPayload), 0)
    );
    assert_eq!(
        classify_v2_incoming_error(Some(ProtocolErrorCode::Backpressure), 7, 7, 0),
        (V2IncomingDisposition::ClientBackpressure, 7)
    );
    assert_eq!(
        classify_v2_incoming_error(Some(ProtocolErrorCode::StaleIdentity), 3, 7, 1),
        (V2IncomingDisposition::LostController, 3)
    );
    assert_eq!(
        classify_v2_incoming_error(Some(ProtocolErrorCode::Backpressure), 8, 7, 0),
        (V2IncomingDisposition::Protocol, 0)
    );
    assert_eq!(
        classify_v2_incoming_error(Some(ProtocolErrorCode::Backpressure), 3, 7, 3),
        (V2IncomingDisposition::Protocol, 3)
    );
    assert_eq!(classify_v2_incoming_error(None, 5, 7, 1), (V2IncomingDisposition::Protocol, 5));
}

#[test]
fn host_codes_are_negative_and_fixed() {
    assert_eq!(error_code(ClientError::Io), -3);
    assert_eq!(error_code(ClientError::Discovery(DiscoveryFailure::EndpointMissing)), -2);
    assert_eq!(error_code(ClientError::Server(7)), -1007);
    assert_eq!(error_code(ClientError::Server(u16::MAX)), -1000 - 65535);
    assert_eq!(input_failure_code(None), 0);
    assert_eq!(input_failure_code(Some(InputAdmissionFailure::Disconnected)), 4);
}

fn limits() -> DisplayWireLimits {
    DisplayWireLimits {
        schema_v2: 2,
        max_cells: 64,
        frame_header_len: 8,
        chunk_header_len: 32,
        chunk_header_v2_len: 40,
        cell_len: 16,
        max_logical_bytes: 4096,
    }
}

fn decoded_chunk(chunk_index: u16, chunk_count: u16, first_row: u16, row_count: u16) -> DisplayChunk<char> {
    let columns = 1;
    DisplayChunk {
        kind: DisplayKind::Delta,
        schema: 1,
        generation: 2,
        base_generation: 1,
        rows: 4,
        columns,
        cursor_row: 0,
        cursor_col: 0,
        cursor_visible: true,
        alternate_screen: false,
        first_row,
        row_count,
        first_col: 0,
        chunk_index,
        chunk_count,
        cells: vec!['x'; usize::from(row_count) * usize::from(columns)],
    }
}

#[test]
fn pending_display_batch_accepts_valid_first_chunk() {
    let mut batch = PendingDisplayBatch::new(limits());
    let chunk = decoded_chunk(0, 2, 0, 1);
    assert!(!batch.push(chunk).unwrap());
    assert_eq!(batch.chunks().len(), 1);
}

#[test]
fn pending_display_batch_rejects_impossible_chunk_count_before_allocation_growth() {
    let mut batch = PendingDisplayBatch::new(limits());
    let mut chunk = decoded_chunk(0, 5, 0, 1);
    chunk.rows = 4;

    assert_eq!(batch.push(chunk), Err(ClientError::Capacity));
    assert!(batch.chunks().is_empty());
}

#[test]
fn local_pending_display_batch_rejects_replayed_or_noncontiguous_rows() {
    let mut batch = PendingDisplayBatch::new(limits());
    assert!(!batch.push(decoded_chunk(0, 2, 0, 1)).unwrap());

    let replayed = decoded_chunk(1, 2, 0, 1);
    assert_eq!(batch.push(replayed), Err(ClientError::Protocol));
    assert_eq!(batch.chunks().len(), 1);
}

#[test]
fn row_addressed_commit_cannot_cover_more_rows_than_the_grid() {
    let mut batch = PendingDisplayBatch::new(limits());
    assert!(!batch.push(decoded_chunk(0, 2, 0, 3)).unwrap());
    assert_eq!(batch.push(decoded_chunk(1, 2, 3, 2)), Err(ClientError::Capacity));
    assert_eq!(batch.chunks().len(), 1);
    assert_eq!(batch.push(decoded_chunk(1, 2, 3, 1)), Ok(true));
}

#[test]
fn column_addressed_commit_may_announce_more_chunks_than_rows() {
    let mut batch = PendingDisplayBatch::new(limits());
    let mut chunk = decoded_chunk(0, 5, 0, 1);
    chunk.schema = 2;
    assert_eq!(batch.push(chunk), Ok(false));
}

#[test]
fn display_apply_pending_display_batch_rejects_replayed_or_noncontiguous_rows() {
    let mut batch = PendingDisplayBatch::new(limits());
    assert!(!batch.push(decoded_chunk(0, 2, 0, 1)).unwrap());

    let replayed = decoded_chunk(1, 2, 0, 1);
    assert_eq!(batch.push(replayed), Err(ClientError::Protocol));
    assert_eq!(batch.chunks().len(), 1);
}

#[test]
fn pending_display_batch_completes_on_the_announced_count() {
    let mut batch = PendingDisplayBatch::new(limits());
    assert_eq!(batch.push(decoded_chunk(0, 2, 0, 1)), Ok(false));
    assert_eq!(batch.push(decoded_chunk(1, 2, 1, 1)), Ok(true));
    assert_eq!(batch.push(decoded_chunk(2, 2, 2, 1)), Err(ClientError::Protocol));
    batch.clear();
    assert!(batch.chunks().is_empty());
    assert_eq!(batch.push(decoded_chunk(0, 0, 0, 1)), Err(ClientError::Capacity));
}

#[test]
fn pending_display_batch_bounds_cells_by_geometry() {
    let mut batch = PendingDisplayBatch::new(limits());
    let mut chunk = decoded_chunk(0, 1, 0, 5);
    chunk.rows = 4;
    assert_eq!(batch.push(chunk), Err(ClientError::Capacity));
    assert!(batch.chunks().is_empty());
}

#[test]
fn column_addressed_chunks_continue_a_partial_row() {
    let mut batch = PendingDisplayBatch::new(limits());
    let mut first = decoded_chunk(0, 2, 0, 1);
    first.schema = 2;
    first.columns = 4;
    first.cells = vec!['a'; 2];
    assert_eq!(batch.push(first), Ok(false));
    let mut second = decoded_chunk(1, 2, 0, 1);
    second.schema = 2;
    second.columns = 4;
    second.first_col = 2;
    second.cells = vec!['b'; 2];
    assert_eq!(batch.push(second), Ok(true));
}

#[test]
fn accepted_chunks_keep_their_cells_in_order() {
    let mut batch = PendingDisplayBatch::new(limits());
    let mut first = decoded_chunk(0, 2, 0, 2);
    first.cells = vec!['a', 'b'];
    let mut second = decoded_chunk(1, 2, 2, 1);
    second.cells = vec!['c'];
    assert_eq!(batch.push(first.clone()), Ok(false));
    assert_eq!(batch.push(second.clone()), Ok(true));
    assert_eq!(batch.chunks(), &[first, second][..]);
}
