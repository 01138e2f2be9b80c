//! Client-side cache of one execution's block metadata.
//!
//! A block is announced `Current` at revision 1 and may then be completed
//! once, at revision 2. Anything else that claims to be the same block (a
//! different identity anchor, a regression, a forked revision) is a
//! conflict: the cache quarantines itself and stops showing metadata rather
//! than keep a half-trusted view.

use vstd::prelude::*;

use crate::client::ClientError;
use crate::ids::{BlockId, ExecutionId};

verus! {

/// Where a block is in its life.
#[derive(Clone, Copy, Debug, PartialEq, Eq, Structural)]
pub enum BlockLifecycle {
    Current,
    Completed,
}

/// What a block records. `Other` carries the wire code of any kind this
/// client does not name.
#[derive(Clone, Copy, Debug, PartialEq, Eq, Structural)]
pub enum BlockKind {
    TerminalActivity,
    Other(u8),
}

/// One revision of a block's metadata as the Runtime announces it.
#[derive(Clone, Copy, Debug, PartialEq, Eq, Structural)]
pub struct BlockState {
    pub execution_id: ExecutionId,
    pub block_id: BlockId,
    pub revision: u64,
    pub start_line_id: u64,
    pub kind: BlockKind,
    pub state: BlockLifecycle,
}

/// How an accepted record related to the cache.
#[derive(Clone, Copy, Debug, PartialEq, Eq, Structural)]
pub enum BlockApply {
    Applied,
    Duplicate,
    Stale,
}

/// Why a record was refused.
#[derive(Clone, Copy, Debug, PartialEq, Eq, Structural)]
pub enum BlockCacheError {
    Quarantined,
    Conflict,
}

/// What one record does to a cache that is not quarantined.
#[derive(Clone, Copy, Debug, PartialEq, Eq, Structural)]
pub enum BlockOutcome {
    /// The record becomes the cached block.
    Accept,
    /// The record repeats the cached block exactly.
    Repeat,
    /// The record is older than the cached block and is ignored.
    Older,
    /// The record contradicts the cache.
    Contradiction,
}

/// The two revisions a cached block can be at.
pub open spec fn legitimate_revision(block: BlockState) -> bool {
    ||| block.state == BlockLifecycle::Current && block.revision == 1
    ||| block.state == BlockLifecycle::Completed && block.revision == 2
}

/// `incoming` names the same block, at the same anchor, as `current`.
pub open spec fn same_anchor(incoming: BlockState, current: BlockState) -> bool {
    &&& incoming.block_id == current.block_id
    &&& incoming.execution_id == current.execution_id
    &&& incoming.start_line_id == current.start_line_id
    &&& incoming.kind == current.kind
}

/// What record `incoming` does to a cache holding `accepted`, for the
/// execution `expected`.
pub open spec fn block_outcome(
    accepted: Option<BlockState>,
    expected: ExecutionId,
    incoming: BlockState,
) -> BlockOutcome {
    if incoming.execution_id != expected {
        BlockOutcome::Contradiction
    } else {
        match accepted {
            None => if incoming.state == BlockLifecycle::Current && incoming.revision == 1 {
                BlockOutcome::Accept
            } else {
                BlockOutcome::Contradiction
            },
            Some(current) => if !same_anchor(incoming, current) {
                BlockOutcome::Contradiction
            } else if current.state == BlockLifecycle::Completed && incoming.state
                == BlockLifecycle::Current {
                BlockOutcome::Contradiction
            } else if incoming.revision < current.revision {
                BlockOutcome::Older
            } else if incoming.revision == current.revision {
                if incoming == current {
                    BlockOutcome::Repeat
                } else {
                    BlockOutcome::Contradiction
                }
            } else if current.state == BlockLifecycle::Current && current.revision == 1
                && incoming.state == BlockLifecycle::Completed && incoming.revision == 2 {
                BlockOutcome::Accept
            } else {
                BlockOutcome::Contradiction
            },
        }
    }
}

/// A current (not yet completed) block is cached.
pub open spec fn shows_current(accepted: Option<BlockState>) -> bool {
    match accepted {
        Some(b) => b.state == BlockLifecycle::Current,
        None => false,
    }
}

/// The cached block of one execution, or nothing once quarantined.
#[derive(Debug)]
pub struct BlockCache {
    accepted: Option<BlockState>,
    quarantined: bool,
}

impl BlockCache {
    /// The last accepted record, kept even after quarantine.
    pub closed spec fn accepted(&self) -> Option<BlockState> {
        self.accepted
    }

    /// Whether a conflict has been seen.
    pub closed spec fn is_quarantined(&self) -> bool {
        self.quarantined
    }

    /// A cache only ever holds a block at a legitimate revision.
    pub open spec fn wf(&self) -> bool {
        self.accepted() matches Some(b) ==> legitimate_revision(b)
    }

    /// An empty cache.
    pub fn new() -> (r: Self)
        ensures
            r.accepted() is None,
            !r.is_quarantined(),
            r.wf(),
    {
        BlockCache { accepted: None, quarantined: false }
    }

    /// The block to show: none once quarantined.
    pub fn visible(&self) -> (r: Option<BlockState>)
        ensures
            r == (if self.is_quarantined() {
                None
            } else {
                self.accepted()
            }),
    {
        if self.quarantined {
            None
        } else {
            self.accepted
        }
    }

    /// Offer one record for execution `expected_execution`. A quarantined
    /// cache refuses everything; a conflict quarantines the cache and keeps
    /// the accepted record as it was.
    pub fn apply(&mut self, expected_execution: ExecutionId, incoming: BlockState) -> (r: Result<
        BlockApply,
        BlockCacheError,
    >)
        requires
            old(self).wf(),
        ensures
            final(self).wf(),
            old(self).is_quarantined() ==> r == Err::<BlockApply, BlockCacheError>(
                BlockCacheError::Quarantined,
            ) && final(self).accepted() == old(self).accepted() && final(self).is_quarantined(),
            !old(self).is_quarantined() ==> match block_outcome(
                old(self).accepted(),
                expected_execution,
                incoming,
            ) {
                BlockOutcome::Accept => r == Ok::<BlockApply, BlockCacheError>(BlockApply::Applied)
                    && final(self).accepted() == Some(incoming) && !final(self).is_quarantined(),
                BlockOutcome::Repeat => r == Ok::<BlockApply, BlockCacheError>(
                    BlockApply::Duplicate,
                ) && final(self).accepted() == old(self).accepted()
                    && !final(self).is_quarantined(),
                BlockOutcome::Older => r == Ok::<BlockApply, BlockCacheError>(BlockApply::Stale)
                    && final(self).accepted() == old(self).accepted()
                    && !final(self).is_quarantined(),
                BlockOutcome::Contradiction => r == Err::<BlockApply, BlockCacheError>(
                    BlockCacheError::Conflict,
                ) && final(self).accepted() == old(self).accepted() && final(self).is_quarantined(),
            },
    {
        if self.quarantined {
            return Err(BlockCacheError::Quarantined);
        }
        if incoming.execution_id != expected_execution {
            return self.conflict();
        }
        let current = match self.accepted {
            None => {
                if incoming.state != BlockLifecycle::Current || incoming.revision != 1 {
                    return self.conflict();
                }
                self.accepted = Some(incoming);
                return Ok(BlockApply::Applied);
            },
            Some(current) => current,
        };
        if incoming.block_id != current.block_id || incoming.execution_id != current.execution_id
            || incoming.start_line_id != current.start_line_id || incoming.kind != current.kind {
            return self.conflict();
        }
        if current.state == BlockLifecycle::Completed && incoming.state == BlockLifecycle::Current {
            return self.conflict();
        }
        if incoming.revision < current.revision {
            return Ok(BlockApply::Stale);
        }
        if incoming.revision == current.revision {
            if incoming == current {
                return Ok(BlockApply::Duplicate);
            }
            return self.conflict();
        }
        if current.state == BlockLifecycle::Current && current.revision == 1 && incoming.state
            == BlockLifecycle::Completed && incoming.revision == 2 {
            self.accepted = Some(incoming);
            return Ok(BlockApply::Applied);
        }
        self.conflict()
    }

    /// Stop showing metadata for good.
    pub fn quarantine(&mut self)
        ensures
            final(self).is_quarantined(),
            final(self).accepted() == old(self).accepted(),
    {
        self.quarantined = true;
    }

    fn conflict<T>(&mut self) -> (r: Result<T, BlockCacheError>)
        ensures
            r == Err::<T, BlockCacheError>(BlockCacheError::Conflict),
            final(self).is_quarantined(),
            final(self).accepted() == old(self).accepted(),
    {
        self.quarantine();
        Err(BlockCacheError::Conflict)
    }
}

impl BlockCache {
    /// Take one block-state frame of an attachment: `incoming` is the
    /// decoded record, or `None` when the frame did not decode. A frame
    /// arriving without negotiated block metadata, an undecodable one, or
    /// one the cache refuses quarantines the cache and is a metadata
    /// conflict.
    pub fn accept_block_frame(
        &mut self,
        negotiated: bool,
        expected_execution: ExecutionId,
        incoming: Option<BlockState>,
    ) -> (r: Result<(), ClientError>)
        requires
            old(self).wf(),
        ensures
            final(self).wf(),
            r is Ok <==> (negotiated && !old(self).is_quarantined() && incoming is Some
                && block_outcome(old(self).accepted(), expected_execution, incoming->Some_0)
                != BlockOutcome::Contradiction),
            r is Err ==> r == Err::<(), ClientError>(ClientError::BlockMetadataConflict)
                && final(self).is_quarantined() && final(self).accepted() == old(self).accepted(),
            r is Ok ==> !final(self).is_quarantined() && (final(self).accepted() == (if block_outcome(
                old(self).accepted(),
                expected_execution,
                incoming->Some_0,
            ) == BlockOutcome::Accept {
                incoming
            } else {
                old(self).accepted()
            })),
    {
        if !negotiated {
            self.quarantine();
            return Err(ClientError::BlockMetadataConflict);
        }
        let block = match incoming {
            Some(b) => b,
            None => {
                self.quarantine();
                return Err(ClientError::BlockMetadataConflict);
            },
        };
        match self.apply(expected_execution, block) {
            Ok(_) => Ok(()),
            Err(_) => {
                self.quarantine();
                Err(ClientError::BlockMetadataConflict)
            },
        }
    }

    /// Take a lifecycle message of an attachment: one about another
    /// execution is a protocol error; finalization while the negotiated
    /// metadata still shows a current block quarantines the cache.
    pub fn accept_lifecycle(
        &mut self,
        negotiated: bool,
        expected_execution: ExecutionId,
        lifecycle_execution: ExecutionId,
        finalized: bool,
    ) -> (r: Result<(), ClientError>)
        requires
            old(self).wf(),
        ensures
            final(self).wf(),
            final(self).accepted() == old(self).accepted(),
            lifecycle_execution != expected_execution ==> r == Err::<(), ClientError>(
                ClientError::Protocol,
            ) && final(self).is_quarantined() == old(self).is_quarantined(),
            lifecycle_execution == expected_execution ==> {
                let dangling = finalized && negotiated && !old(self).is_quarantined()
                    && shows_current(old(self).accepted());
                &&& dangling ==> r == Err::<(), ClientError>(ClientError::BlockMetadataConflict)
                    && final(self).is_quarantined()
                &&& !dangling ==> r == Ok::<(), ClientError>(()) && final(self).is_quarantined()
                    == old(self).is_quarantined()
            },
    {
        if lifecycle_execution != expected_execution {
            return Err(ClientError::Protocol);
        }
        if finalized && negotiated {
            match self.visible() {
                Some(block) => {
                    if block.state == BlockLifecycle::Current {
                        self.quarantine();
                        return Err(ClientError::BlockMetadataConflict);
                    }
                },
                None => {},
            }
        }
        Ok(())
    }
}

impl Default for BlockCache {
    fn default() -> (r: Self)
        ensures
            r.accepted() is None,
            !r.is_quarantined(),
    {
        BlockCache::new()
    }
}

/// The read-only block metadata a host receives: the block identity as two
/// words, its revision and anchor line, and its state (1 current, 2
/// completed, 0 when no block is shown).
#[derive(Clone, Copy, Debug, PartialEq, Eq, Structural)]
pub struct BlockMetadataRecord {
    pub block_id_low: u64,
    pub block_id_high: u64,
    pub revision: u64,
    pub start_line_id: u64,
    pub state: u8,
}

/// The record for the shown block, or the all-zero record.
pub open spec fn spec_metadata_record(block: Option<BlockState>) -> BlockMetadataRecord {
    match block {
        None => BlockMetadataRecord {
            block_id_low: 0,
            block_id_high: 0,
            revision: 0,
            start_line_id: 0,
            state: 0,
        },
        Some(b) => BlockMetadataRecord {
            block_id_low: b.block_id.value() as u64,
            block_id_high: (b.block_id.value() >> 64u128) as u64,
            revision: b.revision,
            start_line_id: b.start_line_id,
            state: match b.state {
                BlockLifecycle::Current => 1,
                BlockLifecycle::Completed => 2,
            },
        },
    }
}

/// Project the shown block for the host.
pub fn execution_block_metadata(block: Option<BlockState>) -> (r: BlockMetadataRecord)
    ensures
        r == spec_metadata_record(block),
{
    match block {
        None => BlockMetadataRecord {
            block_id_low: 0,
            block_id_high: 0,
            revision: 0,
            start_line_id: 0,
            state: 0,
        },
        Some(b) => {
            let (low, high) = b.block_id.words();
            BlockMetadataRecord {
                block_id_low: low,
                block_id_high: high,
                revision: b.revision,
                start_line_id: b.start_line_id,
                state: match b.state {
                    BlockLifecycle::Current => 1,
                    BlockLifecycle::Completed => 2,
                },
            }
        },
    }
}

/// Replaying the record that was just accepted is a harmless repeat.
pub proof fn accepted_record_replays_as_repeat(
    accepted: Option<BlockState>,
    expected: ExecutionId,
    incoming: BlockState,
)
    requires
        block_outcome(accepted, expected, incoming) == BlockOutcome::Accept,
    ensures
        block_outcome(Some(incoming), expected, incoming) == BlockOutcome::Repeat,
{
}

/// A completed block is final: no record is ever accepted over it.
pub proof fn completed_block_is_never_replaced(
    current: BlockState,
    expected: ExecutionId,
    incoming: BlockState,
)
    requires
        current.state == BlockLifecycle::Completed,
    ensures
        block_outcome(Some(current), expected, incoming) != BlockOutcome::Accept,
{
}

/// A record for another execution is always a contradiction, whatever the
/// cache holds.
pub proof fn foreign_execution_always_conflicts(
    accepted: Option<BlockState>,
    expected: ExecutionId,
    incoming: BlockState,
)
    requires
        incoming.execution_id != expected,
    ensures
        block_outcome(accepted, expected, incoming) == BlockOutcome::Contradiction,
{
}

/// Execution epochs (a Runtime instance and one of its executions) whose
/// block metadata has been quarantined.
#[derive(Debug)]
pub struct EpochQuarantine {
    entries: Vec<(u128, ExecutionId)>,
}

impl View for EpochQuarantine {
    type V = Set<(u128, ExecutionId)>;

    closed spec fn view(&self) -> Set<(u128, ExecutionId)> {
        self.entries@.to_set()
    }
}

impl EpochQuarantine {
    /// No epoch quarantined.
    pub fn new() -> (r: Self)
        ensures
            r@ == Set::<(u128, ExecutionId)>::empty(),
    {
        let r = EpochQuarantine { entries: Vec::new() };
        assert(r.entries@.to_set() =~= Set::<(u128, ExecutionId)>::empty());
        r
    }

    /// Quarantine the epoch `(runtime_id, execution_id)`.
    pub fn quarantine_epoch(&mut self, runtime_id: u128, execution_id: ExecutionId)
        ensures
            final(self)@ == old(self)@.insert((runtime_id, execution_id)),
    {
        let ghost before = self.entries@;
        self.entries.push((runtime_id, execution_id));
        proof {
            assert forall|e: (u128, ExecutionId)|
                #[trigger] self.entries@.to_set().contains(e) <==> before.to_set().insert(
                    (runtime_id, execution_id),
                ).contains(e) by {
                if e == (runtime_id, execution_id) {
                    assert(self.entries@[before.len() as int] == e);
                } else if before.to_set().contains(e) {
                    let i = choose|i: int| 0 <= i < before.len() && before[i] == e;
                    assert(self.entries@[i] == e);
                } else if self.entries@.to_set().contains(e) {
                    let i = choose|i: int| 0 <= i < self.entries@.len() && self.entries@[i] == e;
                    assert(i < before.len());
                    assert(before[i] == e);
                }
            }
            assert(self.entries@.to_set() =~= before.to_set().insert((runtime_id, execution_id)));
        }
    }

    /// Whether the epoch `(runtime_id, execution_id)` is quarantined.
    pub fn is_epoch_quarantined(&self, runtime_id: u128, execution_id: ExecutionId) -> (r: bool)
        ensures
            r == self@.contains((runtime_id, execution_id)),
    {
        let mut i: usize = 0;
        while i < self.entries.len()
            invariant
                0 <= i <= self.entries@.len(),
                forall|j: int| 0 <= j < i ==> self.entries@[j] != (runtime_id, execution_id),
            decreases self.entries@.len() - i,
        {
            let (runtime, execution) = self.entries[i];
            if runtime == runtime_id && execution == execution_id {
                proof {
                    assert(self.entries@[i as int] == (runtime_id, execution_id));
                    assert(self.entries@.to_set().contains((runtime_id, execution_id)));
                }
                return true;
            }
            i += 1;
        }
        proof {
            if self.entries@.to_set().contains((runtime_id, execution_id)) {
                let j = choose|j: int|
                    0 <= j < self.entries@.len() && self.entries@[j] == (runtime_id, execution_id);
                assert(self.entries@[j] != (runtime_id, execution_id));
            }
        }
        false
    }
}

} // verus!
