use std::collections::HashSet;

use seyal_client::ids::{
    compose_unique_id, mix64, process_prefix_from, AttachmentId, BlockId, ExecutionId, IdSource,
    ProjectionId, RuntimeId, WorkspaceId, ATTACHMENT_DOMAIN, BLOCK_DOMAIN,
};

fn source() -> IdSource {
    IdSource::new(process_prefix_from(123_456_789, 4242, 0xdead_beef))
}

#[test]
fn runtime_and_execution_ids_do_not_reuse_process_local_counter_values() {
    let mut ids = source();
    let first_runtime = RuntimeId::new(&mut ids);
    let second_runtime = RuntimeId::new(&mut ids);
    let first_execution = ExecutionId::new(&mut ids);
    let second_execution = ExecutionId::new(&mut ids);
    assert_ne!(first_runtime, second_runtime);
    assert_ne!(first_execution, second_execution);
    assert_ne!(first_runtime.to_hex_string(), first_execution.to_hex_string());
}

#[test]
fn composition_keeps_sequence_changes_disjoint_from_prefix_changes() {
    let prefix = 0x0123_4567_89ab_cdef;
    let domain = 0x4154_5441_4348_0001;
    let first = compose_unique_id(prefix, domain, 1);
    let second = compose_unique_id(prefix, domain, 2);
    assert_ne!(first, second);
    assert_eq!(first as u64, 1);
    assert_eq!(second as u64, 2);
}

#[test]
fn rapid_attachment_ids_are_unique() {
    let mut ids = source();
    let mut seen = HashSet::with_capacity(100_000);
    for _ in 0..100_000 {
        assert!(seen.insert(AttachmentId::new(&mut ids)));
    }
}

#[test]
fn block_ids_are_unique_and_disjoint_from_runtime_identity_domain() {
    let mut ids = source();
    let mut seen = HashSet::with_capacity(100_000);
    for _ in 0..100_000 {
        assert!(seen.insert(BlockId::new(&mut ids)));
    }
    let block = BlockId::new(&mut ids);
    let runtime = RuntimeId::new(&mut ids);
    assert_ne!(block.to_hex_string(), runtime.to_hex_string());
}

#[test]
fn block_id_generation_namespace_changes_across_runtime_like_prefixes() {
    let domain = 0x424c_4f43_4b00_0001;
    let prior_runtime_like_prefix = 0x1111_2222_3333_4444;
    let later_runtime_like_prefix = 0x5555_6666_7777_8888;
    let prior = compose_unique_id(prior_runtime_like_prefix, domain, 1);
    let later = compose_unique_id(later_runtime_like_prefix, domain, 1);
    assert_ne!(prior, later);
}

#[test]
fn default_workspace_identity_is_runtime_independent() {
    let mut ids = source();
    let before = WorkspaceId::m001_default();
    let _runtime_a = RuntimeId::new(&mut ids);
    let _runtime_b = RuntimeId::new(&mut ids);
    assert_eq!(before, WorkspaceId::m001_default());
}

#[test]
fn wire_ids_round_trip_through_raw_little_endian_bytes() {
    let mut ids = source();
    let runtime = RuntimeId::new(&mut ids);
    let workspace = WorkspaceId::m001_default();
    let execution = ExecutionId::new(&mut ids);
    let attachment = AttachmentId::new(&mut ids);
    let projection = ProjectionId::from_bytes([0x5a; 16]);
    let block = BlockId::new(&mut ids);
    assert_eq!(RuntimeId::from_bytes(runtime.to_bytes()), runtime);
    assert_eq!(WorkspaceId::from_bytes(workspace.to_bytes()), workspace);
    assert_eq!(ExecutionId::from_bytes(execution.to_bytes()), execution);
    assert_eq!(AttachmentId::from_bytes(attachment.to_bytes()), attachment);
    assert_eq!(ProjectionId::from_bytes(projection.to_bytes()), projection);
    assert_eq!(BlockId::from_bytes(block.to_bytes()), block);
}

#[test]
fn mix64_matches_the_splitmix_finalizer_on_known_values() {
    assert_eq!(mix64(0), 0);
    assert_eq!(mix64(1), 0x5692_161d_100b_05e5);
}

#[test]
fn issued_ids_carry_the_sequence_in_their_low_word() {
    let mut ids = IdSource::new(7);
    assert_eq!(ids.next_sequence(), 1);
    let first = ids.issue(ATTACHMENT_DOMAIN);
    let second = ids.issue(BLOCK_DOMAIN);
    assert_eq!(first as u64, 1);
    assert_eq!(second as u64, 2);
    assert_eq!(ids.next_sequence(), 3);
    assert!(!ids.is_exhausted());
    assert_eq!(first, compose_unique_id(7, ATTACHMENT_DOMAIN, 1));
}

#[test]
fn hex_rendering_is_thirty_two_lower_case_digits() {
    let id = ProjectionId::from_bytes([
        0x01, 0x23, 0x45, 0x67, 0x89, 0xab, 0xcd, 0xef, 0, 0, 0, 0, 0, 0, 0, 0xff,
    ]);
    assert_eq!(id.to_hex_string(), "ff00000000000000efcdab8967452301");
    assert_eq!(id.to_hex_string().len(), 32);
}

#[test]
fn issued_ids_render_distinct_hex_and_carry_their_sequence() {
    let mut ids = source();
    let mut seen = HashSet::new();
    for _ in 0..1000 {
        let id = BlockId::new(&mut ids);
        assert!(seen.insert(id.to_hex_string()));
    }
    let runtime = RuntimeId::new(&mut ids);
    assert!(seen.insert(runtime.to_hex_string()));
    let bytes = runtime.to_bytes();
    assert_eq!(u64::from_le_bytes(bytes[..8].try_into().unwrap()), 1001);
}
