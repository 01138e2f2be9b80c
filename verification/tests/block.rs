use seyal_client::block::{
    execution_block_metadata, BlockMetadataRecord, BlockApply, BlockCache, BlockCacheError, BlockKind, BlockLifecycle, BlockState,
    EpochQuarantine,
};
use seyal_client::client::ClientError;
use seyal_client::ids::{BlockId, ExecutionId};

fn execution(value: u128) -> ExecutionId {
    ExecutionId::from_bytes(value.to_le_bytes())
}

fn block(value: u128) -> BlockId {
    BlockId::from_bytes(value.to_le_bytes())
}

fn current() -> BlockState {
    BlockState {
        execution_id: execution(1),
        block_id: block(2),
        revision: 1,
        start_line_id: 3,
        kind: BlockKind::TerminalActivity,
        state: BlockLifecycle::Current,
    }
}

fn completed() -> BlockState {
    BlockState {
        revision: 2,
        state: BlockLifecycle::Completed,
        ..current()
    }
}

#[test]
fn cache_accepts_current_completed_and_idempotent_duplicates() {
    let mut cache = BlockCache::default();
    assert_eq!(cache.apply(execution(1), current()), Ok(BlockApply::Applied));
    assert_eq!(cache.apply(execution(1), current()), Ok(BlockApply::Duplicate));
    assert_eq!(cache.apply(execution(1), completed()), Ok(BlockApply::Applied));
    assert_eq!(cache.visible(), Some(completed()));
    assert_eq!(cache.apply(execution(1), completed()), Ok(BlockApply::Duplicate));
}

#[test]
fn stale_metadata_does_not_replace_committed_cache() {
    let mut cache = BlockCache::default();
    cache.apply(execution(1), current()).unwrap();
    cache.apply(execution(1), completed()).unwrap();
    let mut stale = completed();
    stale.revision = 1;
    assert_eq!(cache.apply(execution(1), stale), Ok(BlockApply::Stale));
    assert_eq!(cache.visible(), Some(completed()));
}

#[test]
fn completed_to_current_regression_quarantines_even_when_revision_is_lower() {
    let mut cache = BlockCache::default();
    cache.apply(execution(1), current()).unwrap();
    cache.apply(execution(1), completed()).unwrap();
    assert_eq!(cache.apply(execution(1), current()), Err(BlockCacheError::Conflict));
    assert_eq!(cache.visible(), None);
}

#[test]
fn identity_anchor_revision_and_execution_conflicts_never_partially_mutate() {
    for conflict in [
        BlockState {
            block_id: block(99),
            ..current()
        },
        BlockState {
            start_line_id: 99,
            ..current()
        },
        BlockState {
            execution_id: execution(99),
            ..current()
        },
        BlockState {
            revision: 3,
            state: BlockLifecycle::Completed,
            ..current()
        },
    ] {
        let mut cache = BlockCache::default();
        cache.apply(execution(1), current()).unwrap();
        assert_eq!(cache.apply(execution(1), conflict), Err(BlockCacheError::Conflict));
        assert_eq!(cache.visible(), None);
    }
}

#[test]
fn first_record_must_be_current_revision_one() {
    let mut cache = BlockCache::default();
    assert_eq!(cache.apply(execution(1), completed()), Err(BlockCacheError::Conflict));
    assert_eq!(cache.visible(), None);
}

#[test]
fn quarantine_is_scoped_to_runtime_and_execution_epoch() {
    let mut quarantine = EpochQuarantine::new();
    let execution_id = execution(0xabc);
    quarantine.quarantine_epoch(10, execution_id);
    assert!(quarantine.is_epoch_quarantined(10, execution_id));
    assert!(!quarantine.is_epoch_quarantined(11, execution_id));
    assert!(!quarantine.is_epoch_quarantined(10, execution(0xdef)));
}

#[test]
fn quarantined_cache_refuses_even_valid_records() {
    let mut cache = BlockCache::new();
    cache.quarantine();
    assert_eq!(cache.apply(execution(1), current()), Err(BlockCacheError::Quarantined));
    assert_eq!(cache.visible(), None);
}

#[test]
fn forked_revision_with_same_number_is_a_conflict() {
    let mut cache = BlockCache::new();
    cache.apply(execution(1), current()).unwrap();
    let forked = BlockState {
        kind: BlockKind::TerminalActivity,
        state: BlockLifecycle::Completed,
        ..current()
    };
    assert_eq!(cache.apply(execution(1), forked), Err(BlockCacheError::Conflict));
}

#[test]
fn foreign_execution_is_refused_on_an_empty_cache() {
    let mut cache = BlockCache::new();
    assert_eq!(cache.apply(execution(2), current()), Err(BlockCacheError::Conflict));
    assert_eq!(cache.visible(), None);
}

#[test]
fn block_frames_need_negotiated_metadata_and_must_decode() {
    let mut cache = BlockCache::new();
    assert_eq!(
        cache.accept_block_frame(false, execution(1), Some(current())),
        Err(ClientError::BlockMetadataConflict)
    );
    assert_eq!(cache.visible(), None);

    let mut cache = BlockCache::new();
    assert_eq!(
        cache.accept_block_frame(true, execution(1), None),
        Err(ClientError::BlockMetadataConflict)
    );

    let mut cache = BlockCache::new();
    assert_eq!(cache.accept_block_frame(true, execution(1), Some(current())), Ok(()));
    assert_eq!(cache.visible(), Some(current()));
    assert_eq!(
        cache.accept_block_frame(true, execution(1), Some(BlockState { start_line_id: 8, ..current() })),
        Err(ClientError::BlockMetadataConflict)
    );
    assert_eq!(cache.visible(), None);
}

#[test]
fn finalizing_with_a_current_block_quarantines() {
    let mut cache = BlockCache::new();
    cache.apply(execution(1), current()).unwrap();
    assert_eq!(
        cache.accept_lifecycle(true, execution(1), execution(2), true),
        Err(ClientError::Protocol)
    );
    assert_eq!(cache.accept_lifecycle(true, execution(1), execution(1), false), Ok(()));
    assert_eq!(cache.accept_lifecycle(false, execution(1), execution(1), true), Ok(()));
    assert_eq!(
        cache.accept_lifecycle(true, execution(1), execution(1), true),
        Err(ClientError::BlockMetadataConflict)
    );
    assert_eq!(cache.visible(), None);

    let mut done = BlockCache::new();
    done.apply(execution(1), current()).unwrap();
    done.apply(execution(1), completed()).unwrap();
    assert_eq!(done.accept_lifecycle(true, execution(1), execution(1), true), Ok(()));
    assert_eq!(done.visible(), Some(completed()));
}

#[test]
fn shown_block_metadata_is_projected_as_words() {
    let id = (0x0102_0304_0506_0708u128 << 64) | 0x1112_1314_1516_1718u128;
    let block = BlockState {
        block_id: BlockId::from_bytes(id.to_le_bytes()),
        ..completed()
    };
    assert_eq!(
        execution_block_metadata(Some(block)),
        BlockMetadataRecord {
            block_id_low: 0x1112_1314_1516_1718,
            block_id_high: 0x0102_0304_0506_0708,
            revision: 2,
            start_line_id: 3,
            state: 2,
        }
    );
    assert_eq!(execution_block_metadata(Some(current())).state, 1);
    assert_eq!(
        execution_block_metadata(None),
        BlockMetadataRecord {
            block_id_low: 0,
            block_id_high: 0,
            revision: 0,
            start_line_id: 0,
            state: 0,
        }
    );
}
