//! Per-Pane composer draft lifecycle, submission fencing (epochs and request
//! ids), available/busy/hidden eligibility, and a read-only projection of
//! Runtime Block metadata. Runtime records are the only writer of Blocks.

pub mod history;

use vstd::prelude::*;

use crate::ids::{BlockId, PaneId};
use crate::presentation::{InputRoute, PresentationMode};
use crate::text::copy_string;

verus! {

/// Host-visible composer eligibility for one Pane.
#[derive(Clone, Debug, PartialEq, Eq)]
pub enum ComposerMode {
    Available,
    Busy { process: String },
    Hidden,
}

/// Abstract composer eligibility.
pub enum ModeModel {
    Available,
    Busy(Seq<char>),
    Hidden,
}

impl View for ComposerMode {
    type V = ModeModel;

    open spec fn view(&self) -> ModeModel {
        match self {
            ComposerMode::Available => ModeModel::Available,
            ComposerMode::Busy { process } => ModeModel::Busy(process@),
            ComposerMode::Hidden => ModeModel::Hidden,
        }
    }
}

/// Why a composer action was rejected.
#[derive(Clone, Copy, Debug, PartialEq, Eq, Structural)]
pub enum ComposerError {
    UnknownPane,
    EmptyDraft,
    SubmitDisabled,
    StaleRequest,
    StaleEpoch,
}

impl ComposerError {
    /// Human-readable message for the error.
    pub fn message(self) -> (r: &'static str)
        ensures
            r@ == spec_composer_error_message(self),
    {
        match self {
            ComposerError::UnknownPane => "Unknown Pane.",
            ComposerError::EmptyDraft => "Composer draft is empty.",
            ComposerError::SubmitDisabled => "Composer submit is unavailable.",
            ComposerError::StaleRequest => "Composer result does not match the pending request.",
            ComposerError::StaleEpoch => "Composer action epoch is stale.",
        }
    }
}

/// The message text of a composer error.
pub open spec fn spec_composer_error_message(e: ComposerError) -> Seq<char> {
    match e {
        ComposerError::UnknownPane => "Unknown Pane."@,
        ComposerError::EmptyDraft => "Composer draft is empty."@,
        ComposerError::SubmitDisabled => "Composer submit is unavailable."@,
        ComposerError::StaleRequest => "Composer result does not match the pending request."@,
        ComposerError::StaleEpoch => "Composer action epoch is stale."@,
    }
}

/// Projected Block lifecycle. Runtime remains the writer of these facts.
#[derive(Clone, Copy, Debug, PartialEq, Eq, Structural)]
pub enum BlockPresentationState {
    Running,
    Completed,
    Failed,
}

/// Canonical Runtime/Workspace Block metadata consumed by the projection.
#[derive(Clone, Debug, PartialEq, Eq)]
pub struct RuntimeBlockRecord {
    pub id: BlockId,
    pub command: String,
    pub start_line: u64,
    pub end_line: Option<u64>,
    pub running: bool,
    pub exit_status: Option<i32>,
}

/// Lifecycle of a Runtime record: running, completed with exit 0, or failed
/// (any other exit, or no exit status once stopped).
pub open spec fn spec_record_state(running: bool, exit_status: Option<i32>) -> BlockPresentationState {
    if running {
        BlockPresentationState::Running
    } else if exit_status == Some(0i32) {
        BlockPresentationState::Completed
    } else {
        BlockPresentationState::Failed
    }
}

impl RuntimeBlockRecord {
    pub fn presentation_state(&self) -> (r: BlockPresentationState)
        ensures
            r == spec_record_state(self.running, self.exit_status),
    {
        if self.running {
            BlockPresentationState::Running
        } else {
            let status = match self.exit_status {
                Some(v) => v,
                None => 1,
            };
            if status == 0 {
                BlockPresentationState::Completed
            } else {
                BlockPresentationState::Failed
            }
        }
    }
}

/// Pane-qualified Block presentation for hosts.
#[derive(Clone, Debug, PartialEq, Eq)]
pub struct BlockProjection {
    pub pane: PaneId,
    pub id: BlockId,
    pub command: String,
    pub state: BlockPresentationState,
    pub start_line: u64,
    pub end_line: Option<u64>,
    pub exit_status: Option<i32>,
}

/// Abstract Block projection.
pub struct BlockModel {
    pub pane: PaneId,
    pub id: BlockId,
    pub command: Seq<char>,
    pub state: BlockPresentationState,
    pub start_line: u64,
    pub end_line: Option<u64>,
    pub exit_status: Option<i32>,
}

impl View for BlockProjection {
    type V = BlockModel;

    open spec fn view(&self) -> BlockModel {
        BlockModel {
            pane: self.pane,
            id: self.id,
            command: self.command@,
            state: self.state,
            start_line: self.start_line,
            end_line: self.end_line,
            exit_status: self.exit_status,
        }
    }
}

/// The projection of one Runtime record on `pane`.
pub open spec fn spec_project_record(pane: PaneId, r: RuntimeBlockRecord) -> BlockModel {
    BlockModel {
        pane,
        id: r.id,
        command: r.command@,
        state: spec_record_state(r.running, r.exit_status),
        start_line: r.start_line,
        end_line: r.end_line,
        exit_status: r.exit_status,
    }
}

/// The projection of Runtime records on `pane`, one Block per record in order.
pub open spec fn spec_project_records(pane: PaneId, records: Seq<RuntimeBlockRecord>) -> Seq<
    BlockModel,
> {
    records.map_values(|r: RuntimeBlockRecord| spec_project_record(pane, r))
}

/// The abstract view of a vector of Block projections.
pub open spec fn blocks_view(blocks: Seq<BlockProjection>) -> Seq<BlockModel> {
    blocks.map_values(|b: BlockProjection| b@)
}

impl BlockProjection {
    /// A field-for-field copy.
    pub fn duplicate(&self) -> (r: Self)
        ensures
            r@ == self@,
    {
        BlockProjection {
            pane: self.pane,
            id: self.id,
            command: copy_string(&self.command),
            state: self.state,
            start_line: self.start_line,
            end_line: self.end_line,
            exit_status: self.exit_status,
        }
    }
}

/// Copy a vector of Block projections.
pub fn duplicate_blocks(blocks: &Vec<BlockProjection>) -> (r: Vec<BlockProjection>)
    ensures
        blocks_view(r@) == blocks_view(blocks@),
{
    let mut out: Vec<BlockProjection> = Vec::new();
    let mut i: usize = 0;
    while i < blocks.len()
        invariant
            0 <= i <= blocks@.len(),
            out@.len() == i,
            forall|j: int| 0 <= j < i ==> (#[trigger] out@[j])@ == blocks@[j]@,
        decreases blocks@.len() - i,
    {
        out.push(blocks[i].duplicate());
        i = i + 1;
    }
    assert(blocks_view(out@) =~= blocks_view(blocks@));
    out
}

/// Typed host -> composer command. One action is one coarse transition.
#[derive(Clone, Debug, PartialEq, Eq)]
pub enum ComposerAction {
    EnsurePane { pane: PaneId },
    SetDraft { pane: PaneId, text: String, epoch: u64 },
    Submit { pane: PaneId, epoch: u64 },
    ApplyResult { pane: PaneId, request_id: u64, accepted: bool },
    SetBusy { pane: PaneId, process: Option<String> },
    ApplyPresentation { pane: PaneId, mode: PresentationMode, input_route: InputRoute },
    ApplyRuntimeBlocks { pane: PaneId, records: Vec<RuntimeBlockRecord> },
}

/// The Pane an action addresses.
pub open spec fn spec_action_pane(action: ComposerAction) -> PaneId {
    match action {
        ComposerAction::EnsurePane { pane } => pane,
        ComposerAction::SetDraft { pane, .. } => pane,
        ComposerAction::Submit { pane, .. } => pane,
        ComposerAction::ApplyResult { pane, .. } => pane,
        ComposerAction::SetBusy { pane, .. } => pane,
        ComposerAction::ApplyPresentation { pane, .. } => pane,
        ComposerAction::ApplyRuntimeBlocks { pane, .. } => pane,
    }
}

/// Read-only projection for native hosts.
#[derive(Clone, Debug, PartialEq, Eq)]
pub struct ComposerSnapshot {
    pub pane: PaneId,
    pub draft: String,
    pub mode: ComposerMode,
    pub can_submit: bool,
    pub pending_request_id: Option<u64>,
    pub epoch: u64,
    pub allows_direct_terminal: bool,
    pub blocks: Vec<BlockProjection>,
    pub last_error: Option<ComposerError>,
}

/// Abstract per-Pane composer state.
pub struct PaneModel {
    pub draft: Seq<char>,
    pub pending_request_id: Option<u64>,
    pub next_request_id: u64,
    pub epoch: u64,
    pub busy_process: Option<Seq<char>>,
    pub presentation_mode: PresentationMode,
    pub input_route: InputRoute,
    pub blocks: Seq<BlockModel>,
}

/// A freshly ensured Pane: empty draft, epoch 1, first request id 1, Flow
/// presentation routed to the composer, no Blocks.
pub open spec fn fresh_pane() -> PaneModel {
    PaneModel {
        draft: Seq::empty(),
        pending_request_id: None,
        next_request_id: 1,
        epoch: 1,
        busy_process: None,
        presentation_mode: PresentationMode::Flow,
        input_route: InputRoute::Composer,
        blocks: Seq::empty(),
    }
}

/// Eligibility of a Pane composer.
pub open spec fn spec_mode(m: PaneModel) -> ModeModel {
    if m.input_route != InputRoute::Composer || m.presentation_mode != PresentationMode::Flow {
        ModeModel::Hidden
    } else if m.busy_process.is_some() {
        ModeModel::Busy(m.busy_process.unwrap())
    } else if m.pending_request_id.is_some() {
        ModeModel::Busy(m.draft)
    } else {
        ModeModel::Available
    }
}

/// Submit is offered exactly for an available composer with a draft.
pub open spec fn spec_can_submit(m: PaneModel) -> bool {
    spec_mode(m) is Available && m.draft.len() > 0
}

/// Epoch after a bump (saturating).
pub open spec fn bumped(epoch: u64) -> u64 {
    if epoch == u64::MAX { epoch } else { (epoch + 1) as u64 }
}

/// The request id allocated after `id` (wrapping back to 1).
pub open spec fn after_request(id: u64) -> u64 {
    if id == u64::MAX { 1 } else { (id + 1) as u64 }
}

#[derive(Debug)]
struct PaneComposer {
    draft: String,
    pending_request_id: Option<u64>,
    next_request_id: u64,
    epoch: u64,
    busy_process: Option<String>,
    presentation_mode: PresentationMode,
    input_route: InputRoute,
    blocks: Vec<BlockProjection>,
}

impl View for PaneComposer {
    type V = PaneModel;

    closed spec fn view(&self) -> PaneModel {
        PaneModel {
            draft: self.draft@,
            pending_request_id: self.pending_request_id,
            next_request_id: self.next_request_id,
            epoch: self.epoch,
            busy_process: opt_chars(self.busy_process),
            presentation_mode: self.presentation_mode,
            input_route: self.input_route,
            blocks: blocks_view(self.blocks@),
        }
    }
}

/// The characters of an optional string.
pub open spec fn opt_chars(s: Option<String>) -> Option<Seq<char>> {
    match s {
        Some(v) => Some(v@),
        None => None,
    }
}

fn opt_string_eq(a: &Option<String>, b: &Option<String>) -> (r: bool)
    ensures
        r == (a.is_some() == b.is_some() && (a.is_some() ==> a.unwrap()@ == b.unwrap()@)),
{
    match (a, b) {
        (Some(x), Some(y)) => *x == *y,
        (None, None) => true,
        _ => false,
    }
}

impl PaneComposer {
    fn new() -> (r: Self)
        ensures
            r@ == fresh_pane(),
    {
        let r = PaneComposer {
            draft: String::new(),
            pending_request_id: None,
            next_request_id: 1,
            epoch: 1,
            busy_process: None,
            presentation_mode: PresentationMode::Flow,
            input_route: InputRoute::Composer,
            blocks: Vec::new(),
        };
        assert(blocks_view(r.blocks@) =~= Seq::<BlockModel>::empty());
        r
    }

    fn bump_epoch(&mut self)
        ensures
            final(self)@ == (PaneModel { epoch: bumped(old(self)@.epoch), ..old(self)@ }),
    {
        self.epoch = self.epoch.saturating_add(1);
    }

    fn require_epoch(&self, epoch: u64) -> (r: Result<(), ComposerError>)
        ensures
            r is Ok <==> self@.epoch == epoch,
            r is Err ==> r == Err::<(), ComposerError>(ComposerError::StaleEpoch),
    {
        if self.epoch == epoch {
            Ok(())
        } else {
            Err(ComposerError::StaleEpoch)
        }
    }

    fn mode(&self) -> (r: ComposerMode)
        ensures
            r@ == spec_mode(self@),
    {
        if self.input_route != InputRoute::Composer || self.presentation_mode
            != PresentationMode::Flow {
            return ComposerMode::Hidden;
        }
        match &self.busy_process {
            Some(process) => {
                return ComposerMode::Busy { process: copy_string(process) };
            },
            None => {},
        }
        if self.pending_request_id.is_some() {
            return ComposerMode::Busy { process: copy_string(&self.draft) };
        }
        ComposerMode::Available
    }

    fn can_submit(&self) -> (r: bool)
        ensures
            r == spec_can_submit(self@),
    {
        let mode = self.mode();
        let available = match mode {
            ComposerMode::Available => true,
            _ => false,
        };
        available && !self.draft.as_str().is_empty()
    }

    fn allocate_request_id(&mut self) -> (r: u64)
        ensures
            r == old(self)@.next_request_id,
            final(self)@ == (PaneModel {
                next_request_id: after_request(old(self)@.next_request_id),
                ..old(self)@
            }),
    {
        let request_id = self.next_request_id;
        self.next_request_id = if request_id == u64::MAX {
            1
        } else {
            request_id + 1
        };
        request_id
    }

    fn project_blocks(pane: PaneId, records: &Vec<RuntimeBlockRecord>) -> (r: Vec<
        BlockProjection,
    >)
        ensures
            blocks_view(r@) == spec_project_records(pane, records@),
    {
        let mut out: Vec<BlockProjection> = Vec::new();
        let mut i: usize = 0;
        while i < records.len()
            invariant
                0 <= i <= records@.len(),
                out@.len() == i,
                forall|j: int|
                    0 <= j < i ==> (#[trigger] out@[j])@ == spec_project_record(pane, records@[j]),
            decreases records@.len() - i,
        {
            let record = &records[i];
            out.push(
                BlockProjection {
                    pane,
                    id: record.id,
                    command: copy_string(&record.command),
                    state: record.presentation_state(),
                    start_line: record.start_line,
                    end_line: record.end_line,
                    exit_status: record.exit_status,
                },
            );
            i = i + 1;
        }
        assert(blocks_view(out@) =~= spec_project_records(pane, records@));
        out
    }
}

#[derive(Debug)]
struct PaneEntry {
    pane: PaneId,
    state: PaneComposer,
}

/// Index of the first entry keyed `pane` at or after `from`, or -1.
pub open spec fn key_index_from(keys: Seq<PaneId>, pane: PaneId, from: int) -> int
    decreases keys.len() - from,
{
    if from < 0 || from >= keys.len() {
        -1
    } else if keys[from] == pane {
        from
    } else {
        key_index_from(keys, pane, from + 1)
    }
}

proof fn lemma_key_index_range(keys: Seq<PaneId>, pane: PaneId, from: int)
    requires
        0 <= from,
    ensures
        key_index_from(keys, pane, from) == -1 || (from <= key_index_from(keys, pane, from)
            < keys.len() && keys[key_index_from(keys, pane, from)] == pane),
        key_index_from(keys, pane, from) == -1 ==> forall|j: int|
            from <= j < keys.len() ==> keys[j] != pane,
        key_index_from(keys, pane, from) != -1 ==> forall|j: int|
            from <= j < key_index_from(keys, pane, from) ==> keys[j] != pane,
    decreases keys.len() - from,
{
    if from < keys.len() && keys[from] != pane {
        lemma_key_index_range(keys, pane, from + 1);
    }
}

proof fn lemma_key_index_push(keys: Seq<PaneId>, k: PaneId, pane: PaneId, from: int)
    requires
        0 <= from <= keys.len(),
    ensures
        key_index_from(keys.push(k), pane, from) == if key_index_from(keys, pane, from) != -1 {
            key_index_from(keys, pane, from)
        } else if pane == k {
            keys.len() as int
        } else {
            -1
        },
    decreases keys.len() - from,
{
    if from < keys.len() {
        assert(keys.push(k)[from] == keys[from]);
        if keys[from] != pane {
            lemma_key_index_push(keys, k, pane, from + 1);
        }
    } else {
        assert(keys.push(k)[from] == k);
        assert(key_index_from(keys.push(k), pane, from + 1) == -1);
    }
}

/// The Pane keys of a sequence of entries.
spec fn keys_of(panes: Seq<PaneEntry>) -> Seq<PaneId> {
    panes.map_values(|e: PaneEntry| e.pane)
}

/// The per-Pane models of a sequence of entries (first entry per key wins).
spec fn map_of(panes: Seq<PaneEntry>) -> Map<PaneId, PaneModel> {
    Map::new(
        |p: PaneId| key_index_from(keys_of(panes), p, 0) != -1,
        |p: PaneId| panes[key_index_from(keys_of(panes), p, 0)].state@,
    )
}

proof fn lemma_update_entry(panes: Seq<PaneEntry>, i: int, e: PaneEntry)
    requires
        0 <= i < panes.len(),
        e.pane == panes[i].pane,
        i == key_index_from(keys_of(panes), e.pane, 0),
    ensures
        keys_of(panes.update(i, e)) == keys_of(panes),
        map_of(panes.update(i, e)) == map_of(panes).insert(e.pane, e.state@),
{
    let new = panes.update(i, e);
    assert(keys_of(new) =~= keys_of(panes));
    assert forall|p: PaneId| #[trigger] map_of(new).contains_key(p) == map_of(panes).insert(e.pane, e.state@).contains_key(p) by {
        if p == e.pane {
            assert(keys_of(panes)[i] == e.pane);
        }
    }
    assert forall|p: PaneId| #[trigger] map_of(new).contains_key(p) implies map_of(new)[p] == map_of(panes).insert(e.pane, e.state@)[p] by {
        lemma_key_index_range(keys_of(panes), p, 0);
        let k = key_index_from(keys_of(panes), p, 0);
        if p != e.pane {
            assert(k != i);
        }
    }
    assert(map_of(new) =~= map_of(panes).insert(e.pane, e.state@));
}

/// Abstract composer state: per-Pane models and the last rejection.
pub struct ComposerModel {
    pub panes: Map<PaneId, PaneModel>,
    pub last_error: Option<ComposerError>,
}

/// Every Pane's next request id is positive, so no request is ever
/// numbered 0.
pub open spec fn composer_wf(m: ComposerModel) -> bool {
    forall|p: PaneId| m.panes.contains_key(p) ==> #[trigger] m.panes[p].next_request_id != 0
}

/// Every composer action keeps request ids positive, and a submission
/// hands out a positive request id.
pub proof fn composer_actions_keep_request_ids_positive(
    old_m: ComposerModel,
    n: ComposerModel,
    action: ComposerAction,
    r: Result<Option<u64>, ComposerError>,
)
    requires
        composer_wf(old_m),
        spec_apply_post(old_m, n, action, r),
        r is Err ==> n.panes == old_m.panes,
    ensures
        composer_wf(n),
        r matches Ok(Some(id)) ==> id != 0,
{
    assert forall|p: PaneId| n.panes.contains_key(p) implies #[trigger] n.panes[p].next_request_id
        != 0 by {
        if old_m.panes.contains_key(p) {
            assert(old_m.panes[p].next_request_id != 0);
        }
    }
}

/// What one composer action does: its result and the state after it.
pub open spec fn spec_apply_post(
    old_m: ComposerModel,
    n: ComposerModel,
    action: ComposerAction,
    r: Result<Option<u64>, ComposerError>,
) -> bool {
    match action {
        ComposerAction::EnsurePane { pane } => {
            &&& r == Ok::<Option<u64>, ComposerError>(None)
            &&& n.last_error.is_none()
            &&& n.panes == (if old_m.panes.contains_key(pane) {
                old_m.panes
            } else {
                old_m.panes.insert(pane, fresh_pane())
            })
        },
        ComposerAction::SetDraft { pane, text, epoch } => {
            let o = old_m.panes;
            if !o.contains_key(pane) {
                &&& r == Err::<Option<u64>, ComposerError>(ComposerError::UnknownPane)
                &&& n.last_error == Some(ComposerError::UnknownPane)
            } else if o[pane].epoch != epoch {
                &&& r == Err::<Option<u64>, ComposerError>(ComposerError::StaleEpoch)
                &&& n.last_error.is_none()
            } else {
                &&& r == Ok::<Option<u64>, ComposerError>(None)
                &&& n.last_error.is_none()
                &&& n.panes == o.insert(
                    pane,
                    PaneModel { draft: text@, ..o[pane] },
                )
            }
        },
        ComposerAction::Submit { pane, epoch } => {
            let o = old_m.panes;
            if !o.contains_key(pane) {
                &&& r == Err::<Option<u64>, ComposerError>(ComposerError::UnknownPane)
                &&& n.last_error == Some(ComposerError::UnknownPane)
            } else if o[pane].epoch != epoch {
                &&& r == Err::<Option<u64>, ComposerError>(ComposerError::StaleEpoch)
                &&& n.last_error.is_none()
            } else if o[pane].draft.len() == 0 {
                &&& r == Err::<Option<u64>, ComposerError>(ComposerError::EmptyDraft)
                &&& n.last_error == Some(ComposerError::EmptyDraft)
            } else if !spec_can_submit(o[pane]) {
                &&& r == Err::<Option<u64>, ComposerError>(ComposerError::SubmitDisabled)
                &&& n.last_error == Some(ComposerError::SubmitDisabled)
            } else {
                &&& r == Ok::<Option<u64>, ComposerError>(Some(o[pane].next_request_id))
                &&& n.last_error.is_none()
                &&& n.panes == o.insert(
                    pane,
                    PaneModel {
                        pending_request_id: Some(o[pane].next_request_id),
                        next_request_id: after_request(o[pane].next_request_id),
                        epoch: bumped(o[pane].epoch),
                        ..o[pane]
                    },
                )
            }
        },
        ComposerAction::ApplyResult { pane, request_id, accepted } => {
            let o = old_m.panes;
            if !o.contains_key(pane) {
                &&& r == Err::<Option<u64>, ComposerError>(ComposerError::UnknownPane)
                &&& n.last_error == Some(ComposerError::UnknownPane)
            } else if o[pane].pending_request_id != Some(request_id) {
                &&& r == Err::<Option<u64>, ComposerError>(ComposerError::StaleRequest)
                &&& n.last_error == Some(ComposerError::StaleRequest)
            } else {
                &&& r == Ok::<Option<u64>, ComposerError>(None)
                &&& n.last_error.is_none()
                &&& n.panes == o.insert(
                    pane,
                    PaneModel {
                        pending_request_id: None,
                        draft: if accepted {
                            Seq::empty()
                        } else {
                            o[pane].draft
                        },
                        epoch: bumped(o[pane].epoch),
                        ..o[pane]
                    },
                )
            }
        },
        ComposerAction::SetBusy { pane, process } => {
            let o = old_m.panes;
            let base = if o.contains_key(pane) {
                o[pane]
            } else {
                fresh_pane()
            };
            let wanted = opt_chars(process);
            &&& r == Ok::<Option<u64>, ComposerError>(None)
            &&& n.last_error.is_none()
            &&& n.panes == o.insert(
                pane,
                if base.busy_process == wanted {
                    base
                } else {
                    PaneModel { busy_process: wanted, epoch: bumped(base.epoch), ..base }
                },
            )
        },
        ComposerAction::ApplyPresentation { pane, mode, input_route } => {
            let o = old_m.panes;
            let base = if o.contains_key(pane) {
                o[pane]
            } else {
                fresh_pane()
            };
            &&& r == Ok::<Option<u64>, ComposerError>(None)
            &&& n.last_error.is_none()
            &&& n.panes == o.insert(
                pane,
                if base.presentation_mode == mode && base.input_route == input_route {
                    base
                } else {
                    PaneModel {
                        presentation_mode: mode,
                        input_route,
                        epoch: bumped(base.epoch),
                        ..base
                    }
                },
            )
        },
        ComposerAction::ApplyRuntimeBlocks { pane, records } => {
            let o = old_m.panes;
            let base = if o.contains_key(pane) {
                o[pane]
            } else {
                fresh_pane()
            };
            &&& r == Ok::<Option<u64>, ComposerError>(None)
            &&& n.last_error.is_none()
            &&& n.panes == o.insert(
                pane,
                PaneModel { blocks: spec_project_records(pane, records@), ..base },
            )
        },
    }
}

/// Authoritative headed composer/Block-projection state.
#[derive(Debug)]
pub struct ComposerState {
    panes: Vec<PaneEntry>,
    last_error: Option<ComposerError>,
}

impl ComposerState {
    closed spec fn keys(&self) -> Seq<PaneId> {
        keys_of(self.panes@)
    }

    /// Per-Pane models, keyed by Pane.
    pub closed spec fn pane_map(&self) -> Map<PaneId, PaneModel> {
        map_of(self.panes@)
    }

    /// The last rejection recorded by `apply`.
    pub closed spec fn spec_last_error(&self) -> Option<ComposerError> {
        self.last_error
    }

    pub open spec fn model(&self) -> ComposerModel {
        ComposerModel { panes: self.pane_map(), last_error: self.spec_last_error() }
    }

    pub fn new() -> (r: Self)
        ensures
            r.model().panes == Map::<PaneId, PaneModel>::empty(),
            r.model().last_error.is_none(),
            composer_wf(r.model()),
    {
        let r = ComposerState { panes: Vec::new(), last_error: None };
        assert(r.pane_map() =~= Map::<PaneId, PaneModel>::empty());
        r
    }

    fn find(&self, pane: PaneId) -> (r: Option<usize>)
        ensures
            r matches Some(i) ==> i as int == key_index_from(self.keys(), pane, 0) && i
                < self.panes@.len() && self.panes@[i as int].pane == pane,
            r is None ==> key_index_from(self.keys(), pane, 0) == -1,
            r is Some <==> self.pane_map().contains_key(pane),
    {
        let mut i: usize = 0;
        while i < self.panes.len()
            invariant
                0 <= i <= self.panes@.len(),
                key_index_from(self.keys(), pane, 0) == key_index_from(self.keys(), pane, i as int),
            decreases self.panes@.len() - i,
        {
            assert(self.keys()[i as int] == self.panes@[i as int].pane);
            if self.panes[i].pane == pane {
                return Some(i);
            }
            i = i + 1;
        }
        None
    }

    /// Replace the state of the entry at `i` (keys unchanged).
    fn set_entry(&mut self, i: usize, state: PaneComposer)
        requires
            i < old(self).panes@.len(),
            i as int == key_index_from(old(self).keys(), old(self).panes@[i as int].pane, 0),
        ensures
            final(self).pane_map() == old(self).pane_map().insert(
                old(self).panes@[i as int].pane,
                state@,
            ),
            final(self).last_error == old(self).last_error,
            final(self).panes@.len() == old(self).panes@.len(),
            final(self).keys() == old(self).keys(),
            final(self).panes@[i as int].pane == old(self).panes@[i as int].pane,
    {
        let pane = self.panes[i].pane;
        let entry = PaneEntry { pane, state };
        proof {
            lemma_update_entry(self.panes@, i as int, entry);
        }
        self.panes.set(i, entry);
    }

    /// Take the state of entry `i` out, leaving a fresh placeholder.
    fn take_entry(&mut self, i: usize) -> (r: PaneComposer)
        requires
            i < old(self).panes@.len(),
            i as int == key_index_from(old(self).keys(), old(self).panes@[i as int].pane, 0),
        ensures
            r@ == old(self).panes@[i as int].state@,
            final(self).keys() == old(self).keys(),
            final(self).last_error == old(self).last_error,
            final(self).panes@.len() == old(self).panes@.len(),
            final(self).panes@[i as int].pane == old(self).panes@[i as int].pane,
            final(self).pane_map() == old(self).pane_map().insert(
                old(self).panes@[i as int].pane,
                fresh_pane(),
            ),
    {
        let pane = self.panes[i].pane;
        let mut entry = PaneEntry { pane, state: PaneComposer::new() };
        proof {
            lemma_update_entry(self.panes@, i as int, entry);
        }
        self.panes.set_and_swap(i, &mut entry);
        entry.state
    }

    /// Ensure `pane` has a composer; returns its index.
    fn ensure(&mut self, pane: PaneId) -> (r: usize)
        ensures
            r < final(self).panes@.len(),
            final(self).panes@[r as int].pane == pane,
            final(self).keys()[r as int] == pane,
            r as int == key_index_from(final(self).keys(), pane, 0),
            final(self).pane_map() == if old(self).pane_map().contains_key(pane) {
                old(self).pane_map()
            } else {
                old(self).pane_map().insert(pane, fresh_pane())
            },
            final(self).last_error == old(self).last_error,
    {
        match self.find(pane) {
            Some(i) => i,
            None => {
                let ghost old_keys = self.keys();
                let ghost old_map = self.pane_map();
                let n = self.panes.len();
                self.panes.push(PaneEntry { pane, state: PaneComposer::new() });
                assert(self.keys() =~= old_keys.push(pane));
                assert forall|p: PaneId| #[trigger] key_index_from(self.keys(), p, 0) == if key_index_from(old_keys, p, 0) != -1 {
                    key_index_from(old_keys, p, 0)
                } else if p == pane {
                    n as int
                } else {
                    -1
                } by {
                    lemma_key_index_push(old_keys, pane, p, 0);
                }
                assert forall|p: PaneId| key_index_from(old_keys, p, 0) != -1 implies #[trigger] self.panes@[key_index_from(old_keys, p, 0)] == old(self).panes@[key_index_from(old_keys, p, 0)] by {
                    lemma_key_index_range(old_keys, p, 0);
                }
                assert(self.pane_map() =~= old_map.insert(pane, fresh_pane()));
                n
            },
        }
    }

    fn fail_with<T>(&mut self, error: ComposerError) -> (r: Result<T, ComposerError>)
        ensures
            r == Err::<T, ComposerError>(error),
            final(self).last_error == Some(error),
            final(self).panes == old(self).panes,
    {
        self.last_error = Some(error);
        Err(error)
    }

    /// Apply one composer action. Rejections leave every Pane unchanged; no
    /// action changes a Pane other than the one it addresses; request ids
    /// stay positive, so a submission never hands out 0.
    pub fn apply(&mut self, action: ComposerAction) -> (r: Result<Option<u64>, ComposerError>)
        ensures
            // Rejections never change any Pane.
            r is Err ==> final(self).model().panes == old(self).model().panes,
            // Only the addressed Pane can change.
            final(self).model().panes.remove(spec_action_pane(action)) == old(
                self,
            ).model().panes.remove(spec_action_pane(action)),
            spec_apply_post(old(self).model(), final(self).model(), action, r),
            composer_wf(old(self).model()) ==> composer_wf(final(self).model()),
            composer_wf(old(self).model()) ==> (r matches Ok(Some(id)) ==> id != 0),
    {
        let ghost before = self.model();
        let r = self.apply_action(action);
        proof {
            if composer_wf(before) {
                composer_actions_keep_request_ids_positive(before, self.model(), action, r);
            }
        }
        r
    }

    #[verifier::rlimit(50)]
    fn apply_action(&mut self, action: ComposerAction) -> (r: Result<Option<u64>, ComposerError>)
        ensures
            r is Err ==> final(self).model().panes == old(self).model().panes,
            final(self).model().panes.remove(spec_action_pane(action)) == old(
                self,
            ).model().panes.remove(spec_action_pane(action)),
            spec_apply_post(old(self).model(), final(self).model(), action, r),
    {
        self.last_error = None;
        let ghost o = self.pane_map();
        match action {
            ComposerAction::EnsurePane { pane } => {
                let _ = self.ensure(pane);
                assert(self.pane_map().remove(pane) =~= o.remove(pane));
                Ok(None)
            },
            ComposerAction::SetDraft { pane, text, epoch } => {
                let found = self.find(pane);
                match found {
                    None => {
                        let r = self.fail_with(ComposerError::UnknownPane);
                        assert(self.pane_map() =~= o);
                        r
                    },
                    Some(i) => {
                        if let Err(stale) = self.panes[i].state.require_epoch(epoch) {
                            assert(self.pane_map() =~= o);
                            return Err(stale);
                        }
                        let mut state = self.take_entry(i);
                        state.draft = text;
                        let ghost sv = state@;
                        self.set_entry(i, state);
                        assert(self.pane_map() =~= o.insert(pane, sv));
                        assert(self.pane_map().remove(pane) =~= o.remove(pane));
                        Ok(None)
                    },
                }
            },
            ComposerAction::Submit { pane, epoch } => {
                let found = self.find(pane);
                match found {
                    None => {
                        let r = self.fail_with(ComposerError::UnknownPane);
                        assert(self.pane_map() =~= o);
                        r
                    },
                    Some(i) => {
                        if let Err(stale) = self.panes[i].state.require_epoch(epoch) {
                            assert(self.pane_map() =~= o);
                            return Err(stale);
                        }
                        if self.panes[i].state.draft.as_str().is_empty() {
                            let r = self.fail_with(ComposerError::EmptyDraft);
                            assert(self.pane_map() =~= o);
                            return r;
                        }
                        if !self.panes[i].state.can_submit() {
                            let r = self.fail_with(ComposerError::SubmitDisabled);
                            assert(self.pane_map() =~= o);
                            return r;
                        }
                        let mut state = self.take_entry(i);
                        let request_id = state.allocate_request_id();
                        state.pending_request_id = Some(request_id);
                        state.bump_epoch();
                        let ghost sv = state@;
                        self.set_entry(i, state);
                        assert(self.pane_map() =~= o.insert(pane, sv));
                        assert(self.pane_map().remove(pane) =~= o.remove(pane));
                        Ok(Some(request_id))
                    },
                }
            },
            ComposerAction::ApplyResult { pane, request_id, accepted } => {
                let found = self.find(pane);
                match found {
                    None => {
                        let r = self.fail_with(ComposerError::UnknownPane);
                        assert(self.pane_map() =~= o);
                        r
                    },
                    Some(i) => {
                        if self.panes[i].state.pending_request_id != Some(request_id) {
                            let r = self.fail_with(ComposerError::StaleRequest);
                            assert(self.pane_map() =~= o);
                            return r;
                        }
                        let mut state = self.take_entry(i);
                        state.pending_request_id = None;
                        if accepted {
                            state.draft = String::new();
                        }
                        state.bump_epoch();
                        let ghost sv = state@;
                        self.set_entry(i, state);
                        assert(self.pane_map() =~= o.insert(pane, sv));
                        assert(self.pane_map().remove(pane) =~= o.remove(pane));
                        Ok(None)
                    },
                }
            },
            ComposerAction::SetBusy { pane, process } => {
                let ghost base = if o.contains_key(pane) {
                    o[pane]
                } else {
                    fresh_pane()
                };
                let ghost wanted = opt_chars(process);
                let i = self.ensure(pane);
                assert(self.pane_map()[pane] == self.panes@[i as int].state@);
                let mut state = self.take_entry(i);
                assert(state@ == base);
                if !opt_string_eq(&state.busy_process, &process) {
                    state.busy_process = process;
                    state.bump_epoch();
                    assert(state@ == PaneModel { busy_process: wanted, epoch: bumped(base.epoch), ..base });
                } else {
                    assert(base.busy_process == wanted);
                }
                let ghost sv = state@;
                self.set_entry(i, state);
                assert(self.pane_map() =~= o.insert(pane, sv));
                assert(self.pane_map().remove(pane) =~= o.remove(pane));
                Ok(None)
            },
            ComposerAction::ApplyPresentation { pane, mode, input_route } => {
                let ghost base = if o.contains_key(pane) {
                    o[pane]
                } else {
                    fresh_pane()
                };
                let i = self.ensure(pane);
                assert(self.pane_map()[pane] == self.panes@[i as int].state@);
                let mut state = self.take_entry(i);
                assert(state@ == base);
                if state.presentation_mode != mode || state.input_route != input_route {
                    state.presentation_mode = mode;
                    state.input_route = input_route;
                    state.bump_epoch();
                }
                let ghost sv = state@;
                self.set_entry(i, state);
                assert(self.pane_map() =~= o.insert(pane, sv));
                assert(self.pane_map().remove(pane) =~= o.remove(pane));
                Ok(None)
            },
            ComposerAction::ApplyRuntimeBlocks { pane, records } => {
                let ghost base = if o.contains_key(pane) {
                    o[pane]
                } else {
                    fresh_pane()
                };
                let i = self.ensure(pane);
                assert(self.pane_map()[pane] == self.panes@[i as int].state@);
                let mut state = self.take_entry(i);
                assert(state@ == base);
                state.blocks = PaneComposer::project_blocks(pane, &records);
                let ghost sv = state@;
                self.set_entry(i, state);
                assert(self.pane_map() =~= o.insert(pane, sv));
                assert(self.pane_map().remove(pane) =~= o.remove(pane));
                Ok(None)
            },
        }
    }

    /// Snapshot one Pane composer; `UnknownPane` when the Pane was never ensured.
    pub fn snapshot(&self, pane: PaneId) -> (r: Result<ComposerSnapshot, ComposerError>)
        ensures
            !self.model().panes.contains_key(pane) ==> r == Err::<ComposerSnapshot, ComposerError>(
                ComposerError::UnknownPane,
            ),
            self.model().panes.contains_key(pane) ==> (r matches Ok(s) && {
                let m = self.model().panes[pane];
                &&& s.pane == pane
                &&& s.draft@ == m.draft
                &&& s.mode@ == spec_mode(m)
                &&& s.can_submit == spec_can_submit(m)
                &&& s.pending_request_id == m.pending_request_id
                &&& s.epoch == m.epoch
                &&& s.allows_direct_terminal == (m.input_route == InputRoute::DirectTerminal)
                &&& blocks_view(s.blocks@) == m.blocks
                &&& s.last_error == self.model().last_error
            }),
    {
        let found = self.find(pane);
        match found {
            None => Err(ComposerError::UnknownPane),
            Some(i) => {
                let composer = &self.panes[i].state;
                Ok(
                    ComposerSnapshot {
                        pane,
                        draft: copy_string(&composer.draft),
                        mode: composer.mode(),
                        can_submit: composer.can_submit(),
                        pending_request_id: composer.pending_request_id,
                        epoch: composer.epoch,
                        allows_direct_terminal: composer.input_route == InputRoute::DirectTerminal,
                        blocks: duplicate_blocks(&composer.blocks),
                        last_error: self.last_error,
                    },
                )
            },
        }
    }
}

} // verus!
