//! Portable shell chrome: agents, inspector, attention, left-panel mode,
//! center surface mode, command palette, and which shell regions are visible.
//!
//! Inspector and attention projections are derived from an authoritative
//! `ShellSnapshot` plus activity rows supplied by the host. This module does
//! not own Workspace/Tab/Pane identities or fabricate Runtime telemetry.

use vstd::prelude::*;

use crate::chrome_palette::{
    builtin, clamp_selected, filter_command_ids, filter_commands, lemma_filter_len, move_selected,
    rows_of, spec_clamp, spec_filter, spec_move, PaletteCommandId, PaletteCommandRow,
};
use crate::composer::{blocks_view, BlockModel, BlockPresentationState, BlockProjection};
use crate::ids::{BlockId, TabId, WorkspaceId};
use crate::shell::{LayoutDescription, ShellPaneRow, ShellSnapshot, ShellTabRow, ShellWorkspaceRow};
use crate::text::{
    copy_string, decimal, i32_to_string, owned, push_str, signed_decimal, str_eq, u64_to_string,
};

verus! {

/// Product chrome for the left context list.
#[derive(Clone, Copy, Debug, PartialEq, Eq, Structural)]
pub enum LeftPanelMode {
    Workspaces,
    Tabs,
}

/// Product chrome for the center surface (Core Terminal default vs Agents).
#[derive(Clone, Copy, Debug, PartialEq, Eq, Structural)]
pub enum CenterSurface {
    /// Default Core Terminal center.
    Core,
    /// Agents management list for the active Workspace agent rows.
    Agents,
}

/// Product inspector filter. Filtering never invents rows.
#[derive(Clone, Copy, Debug, PartialEq, Eq, Structural)]
pub enum InspectorMode {
    Context,
    Workspace,
    Tab,
    Pane,
    /// Focused-pane Block projection rows only (empty when none exist).
    Blocks,
}

/// Display state for one agent row. This is not Runtime telemetry.
#[derive(Clone, Copy, Debug, PartialEq, Eq, Structural)]
pub enum AgentActivity {
    Running,
    Waiting,
    Attention,
    Idle,
}

/// The label shown for an agent activity.
pub open spec fn activity_label(a: AgentActivity) -> Seq<char> {
    match a {
        AgentActivity::Running => "Running"@,
        AgentActivity::Waiting => "Waiting"@,
        AgentActivity::Attention => "Attention"@,
        AgentActivity::Idle => "Idle"@,
    }
}

impl AgentActivity {
    fn label(self) -> (r: &'static str)
        ensures
            r@ == activity_label(self),
    {
        match self {
            AgentActivity::Running => "Running",
            AgentActivity::Waiting => "Waiting",
            AgentActivity::Attention => "Attention",
            AgentActivity::Idle => "Idle",
        }
    }
}

/// Host-facing agent identity. Not a Runtime/Execution/Workspace authority.
#[derive(Clone, Debug, PartialEq, Eq, Hash)]
pub struct AgentId(String);

impl View for AgentId {
    type V = Seq<char>;

    closed spec fn view(&self) -> Seq<char> {
        self.0@
    }
}

impl AgentId {
    pub fn new(id: &str) -> (r: Self)
        ensures
            r@ == id@,
    {
        AgentId(owned(id))
    }

    pub fn as_str(&self) -> (r: &str)
        ensures
            r@ == self@,
    {
        self.0.as_str()
    }

    /// A copy with the same characters.
    pub fn duplicate(&self) -> (r: Self)
        ensures
            r@ == self@,
    {
        AgentId(copy_string(&self.0))
    }

    /// Whether two ids have the same characters.
    pub fn same(&self, other: &AgentId) -> (r: bool)
        ensures
            r == (self@ == other@),
    {
        self.0 == other.0
    }
}

/// Host-facing attention identity.
#[derive(Clone, Debug, PartialEq, Eq, Hash)]
pub struct AttentionId(String);

impl View for AttentionId {
    type V = Seq<char>;

    closed spec fn view(&self) -> Seq<char> {
        self.0@
    }
}

impl AttentionId {
    pub fn new(id: &str) -> (r: Self)
        ensures
            r@ == id@,
    {
        AttentionId(owned(id))
    }

    pub fn as_str(&self) -> (r: &str)
        ensures
            r@ == self@,
    {
        self.0.as_str()
    }

    /// A copy with the same characters.
    pub fn duplicate(&self) -> (r: Self)
        ensures
            r@ == self@,
    {
        AttentionId(copy_string(&self.0))
    }

    /// Whether two ids have the same characters.
    pub fn same(&self, other: &AttentionId) -> (r: bool)
        ensures
            r == (self@ == other@),
    {
        self.0 == other.0
    }
}

#[derive(Clone, Debug, PartialEq, Eq)]
pub struct AgentRecord {
    pub id: AgentId,
    pub name: String,
    pub activity: AgentActivity,
}

/// Abstract agent row.
pub struct AgentModel {
    pub id: Seq<char>,
    pub name: Seq<char>,
    pub activity: AgentActivity,
}

impl View for AgentRecord {
    type V = AgentModel;

    open spec fn view(&self) -> AgentModel {
        AgentModel { id: self.id@, name: self.name@, activity: self.activity }
    }
}

impl AgentRecord {
    /// A field-for-field copy.
    pub fn duplicate(&self) -> (r: Self)
        ensures
            r@ == self@,
    {
        AgentRecord { id: self.id.duplicate(), name: copy_string(&self.name), activity: self.activity }
    }
}

/// The abstract rows of a vector of agents.
pub open spec fn agents_view(s: Seq<AgentRecord>) -> Seq<AgentModel> {
    s.map_values(|a: AgentRecord| a@)
}

fn copy_agents(v: &Vec<AgentRecord>) -> (r: Vec<AgentRecord>)
    ensures
        agents_view(r@) == agents_view(v@),
{
    let mut out: Vec<AgentRecord> = Vec::new();
    let mut i: usize = 0;
    while i < v.len()
        invariant
            0 <= i <= v@.len(),
            out@.len() == i,
            forall|j: int| 0 <= j < i ==> (#[trigger] out@[j])@ == v@[j]@,
        decreases v@.len() - i,
    {
        out.push(v[i].duplicate());
        i = i + 1;
    }
    assert(agents_view(out@) =~= agents_view(v@));
    out
}

#[derive(Clone, Debug, PartialEq, Eq)]
pub struct AttentionItem {
    pub id: AttentionId,
    pub title: String,
    pub detail: String,
    pub workspace: Option<WorkspaceId>,
    pub tab: Option<TabId>,
    pub agent: Option<AgentId>,
}

/// Abstract attention item.
pub struct AttentionModel {
    pub id: Seq<char>,
    pub title: Seq<char>,
    pub detail: Seq<char>,
    pub workspace: Option<WorkspaceId>,
    pub tab: Option<TabId>,
    pub agent: Option<Seq<char>>,
}

/// The characters of an optional agent id.
pub open spec fn opt_agent_view(a: Option<AgentId>) -> Option<Seq<char>> {
    match a {
        Some(v) => Some(v@),
        None => None,
    }
}

impl View for AttentionItem {
    type V = AttentionModel;

    open spec fn view(&self) -> AttentionModel {
        AttentionModel {
            id: self.id@,
            title: self.title@,
            detail: self.detail@,
            workspace: self.workspace,
            tab: self.tab,
            agent: opt_agent_view(self.agent),
        }
    }
}

fn copy_opt_agent(a: &Option<AgentId>) -> (r: Option<AgentId>)
    ensures
        opt_agent_view(r) == opt_agent_view(*a),
{
    match a {
        Some(v) => Some(v.duplicate()),
        None => None,
    }
}

impl AttentionItem {
    /// A field-for-field copy.
    pub fn duplicate(&self) -> (r: Self)
        ensures
            r@ == self@,
    {
        AttentionItem {
            id: self.id.duplicate(),
            title: copy_string(&self.title),
            detail: copy_string(&self.detail),
            workspace: self.workspace,
            tab: self.tab,
            agent: copy_opt_agent(&self.agent),
        }
    }
}

/// The abstract items of a vector of attention items.
pub open spec fn attention_view(s: Seq<AttentionItem>) -> Seq<AttentionModel> {
    s.map_values(|a: AttentionItem| a@)
}

fn copy_attention(v: &Vec<AttentionItem>) -> (r: Vec<AttentionItem>)
    ensures
        attention_view(r@) == attention_view(v@),
{
    let mut out: Vec<AttentionItem> = Vec::new();
    let mut i: usize = 0;
    while i < v.len()
        invariant
            0 <= i <= v@.len(),
            out@.len() == i,
            forall|j: int| 0 <= j < i ==> (#[trigger] out@[j])@ == v@[j]@,
        decreases v@.len() - i,
    {
        out.push(v[i].duplicate());
        i = i + 1;
    }
    assert(attention_view(out@) =~= attention_view(v@));
    out
}

#[derive(Clone, Debug, PartialEq, Eq)]
pub struct InspectorRow {
    pub id: String,
    pub section: String,
    pub label: String,
    pub value: String,
}

/// Abstract inspector row.
pub struct RowModel {
    pub id: Seq<char>,
    pub section: Seq<char>,
    pub label: Seq<char>,
    pub value: Seq<char>,
}

impl View for InspectorRow {
    type V = RowModel;

    open spec fn view(&self) -> RowModel {
        RowModel { id: self.id@, section: self.section@, label: self.label@, value: self.value@ }
    }
}

impl InspectorRow {
    /// A field-for-field copy.
    pub fn duplicate(&self) -> (r: Self)
        ensures
            r@ == self@,
    {
        InspectorRow {
            id: copy_string(&self.id),
            section: copy_string(&self.section),
            label: copy_string(&self.label),
            value: copy_string(&self.value),
        }
    }
}

/// The abstract rows of a vector of inspector rows.
pub open spec fn rows_view(s: Seq<InspectorRow>) -> Seq<RowModel> {
    s.map_values(|r: InspectorRow| r@)
}

/// An inspector row from its four texts.
pub open spec fn mk_row(id: Seq<char>, section: Seq<char>, label: Seq<char>, value: Seq<char>) -> RowModel {
    RowModel { id, section, label, value }
}

fn row(id: &str, section: &str, label: &str, value: String) -> (r: InspectorRow)
    ensures
        r@ == mk_row(id@, section@, label@, value@),
{
    InspectorRow { id: owned(id), section: owned(section), label: owned(label), value }
}

#[derive(Clone, Copy, Debug, PartialEq, Eq, Structural)]
pub enum ChromeError {
    UnknownAgent,
    UnknownAttention,
    UnknownWorkspace,
    UnknownTab,
    /// Palette run with no selectable filtered command (fail-closed).
    EmptyPaletteSelection,
    /// Inspector Block selection that is not on the focused Pane projection.
    UnknownBlock,
}

/// The message text of a chrome error.
pub open spec fn spec_chrome_error_message(e: ChromeError) -> Seq<char> {
    match e {
        ChromeError::UnknownAgent => "Unknown agent."@,
        ChromeError::UnknownAttention => "Unknown attention item."@,
        ChromeError::UnknownWorkspace => "Attention target Workspace does not exist."@,
        ChromeError::UnknownTab => "Attention target Tab does not exist."@,
        ChromeError::EmptyPaletteSelection => "No palette command is selected."@,
        ChromeError::UnknownBlock => "Unknown Block."@,
    }
}

impl ChromeError {
    /// Human-readable message for the error.
    pub fn message(self) -> (r: &'static str)
        ensures
            r@ == spec_chrome_error_message(self),
    {
        match self {
            ChromeError::UnknownAgent => "Unknown agent.",
            ChromeError::UnknownAttention => "Unknown attention item.",
            ChromeError::UnknownWorkspace => "Attention target Workspace does not exist.",
            ChromeError::UnknownTab => "Attention target Tab does not exist.",
            ChromeError::EmptyPaletteSelection => "No palette command is selected.",
            ChromeError::UnknownBlock => "Unknown Block.",
        }
    }
}

#[derive(Clone, Debug, PartialEq, Eq)]
pub enum ChromeAction {
    SetLeftPanel(LeftPanelMode),
    SetInspectorMode(InspectorMode),
    /// Switch the center surface between Core Terminal and Agents.
    SetCenterSurface(CenterSurface),
    SelectAgent { id: AgentId },
    OpenAttention { id: AttentionId },
    ReplaceAgents { workspace: WorkspaceId, agents: Vec<AgentRecord> },
    ReplaceAttention { items: Vec<AttentionItem> },
    /// Host applied a Workspace/Tab/Pane navigation action. Clears agent
    /// selection without inventing new composition identities.
    ContextNavigated,
    /// Shell-region visibility.
    SetShellVisibility { left: bool, inspector: bool, tab_strip: bool },
    /// Attention popover open/closed.
    SetAttentionPopover { open: bool },
    /// Global command palette open/closed. Opening resets query/selection.
    SetPaletteOpen { open: bool },
    SetPaletteQuery { query: String },
    PaletteMove { delta: i32 },
    /// Run the selected filtered command. Fails closed when none is selectable.
    PaletteRun,
    /// Bind inspector to one focused-pane Block. Switches mode to Blocks.
    SelectBlock { id: BlockId },
    /// Clear Block selection and return inspector to Context.
    ClearBlockSelection,
}

/// Navigation / palette dispatch the host (App root) must apply.
#[derive(Clone, Copy, Debug, PartialEq, Eq, Default, Structural)]
pub struct ChromeEffect {
    pub select_workspace: Option<WorkspaceId>,
    pub select_tab: Option<TabId>,
    pub palette_command: Option<PaletteCommandId>,
}

/// The effect that asks the host for nothing.
pub open spec fn no_effect() -> ChromeEffect {
    ChromeEffect { select_workspace: None, select_tab: None, palette_command: None }
}

fn empty_effect() -> (r: ChromeEffect)
    ensures
        r == no_effect(),
{
    ChromeEffect { select_workspace: None, select_tab: None, palette_command: None }
}

#[derive(Clone, Debug, PartialEq, Eq)]
pub struct ChromeSnapshot {
    pub left_panel: LeftPanelMode,
    pub inspector_mode: InspectorMode,
    pub center_surface: CenterSurface,
    pub left_visible: bool,
    pub inspector_visible: bool,
    pub tab_strip_visible: bool,
    pub attention_popover_open: bool,
    pub palette_open: bool,
    pub palette_query: String,
    pub palette_selected: usize,
    pub palette_commands: Vec<PaletteCommandRow>,
    pub selected_agent: Option<AgentId>,
    pub selected_block: Option<BlockId>,
    pub agents: Vec<AgentRecord>,
    pub inspector_rows: Vec<InspectorRow>,
    pub visible_inspector_rows: Vec<InspectorRow>,
    pub attention_items: Vec<AttentionItem>,
    pub last_error: Option<ChromeError>,
}

// ---------------------------------------------------------------------------
// First-match lookups.
// ---------------------------------------------------------------------------

/// The first Workspace row with id `id` at or after `from`.
pub open spec fn workspace_row_from(rows: Seq<ShellWorkspaceRow>, id: WorkspaceId, from: int) -> Option<
    ShellWorkspaceRow,
>
    decreases rows.len() - from,
{
    if from < 0 || from >= rows.len() {
        None
    } else if rows[from].id == id {
        Some(rows[from])
    } else {
        workspace_row_from(rows, id, from + 1)
    }
}

/// The first Tab row with id `id` at or after `from`.
pub open spec fn tab_row_from(rows: Seq<ShellTabRow>, id: TabId, from: int) -> Option<ShellTabRow>
    decreases rows.len() - from,
{
    if from < 0 || from >= rows.len() {
        None
    } else if rows[from].id == id {
        Some(rows[from])
    } else {
        tab_row_from(rows, id, from + 1)
    }
}

/// The first Pane row with id `id` at or after `from`.
pub open spec fn pane_row_from(rows: Seq<ShellPaneRow>, id: crate::ids::PaneId, from: int) -> Option<
    ShellPaneRow,
>
    decreases rows.len() - from,
{
    if from < 0 || from >= rows.len() {
        None
    } else if rows[from].id == id {
        Some(rows[from])
    } else {
        pane_row_from(rows, id, from + 1)
    }
}

/// The first Block with id `id` at or after `from`.
pub open spec fn block_from(blocks: Seq<BlockModel>, id: BlockId, from: int) -> Option<BlockModel>
    decreases blocks.len() - from,
{
    if from < 0 || from >= blocks.len() {
        None
    } else if blocks[from].id == id {
        Some(blocks[from])
    } else {
        block_from(blocks, id, from + 1)
    }
}

/// The first agent with id `id` at or after `from`.
pub open spec fn agent_from(agents: Seq<AgentModel>, id: Seq<char>, from: int) -> Option<AgentModel>
    decreases agents.len() - from,
{
    if from < 0 || from >= agents.len() {
        None
    } else if agents[from].id == id {
        Some(agents[from])
    } else {
        agent_from(agents, id, from + 1)
    }
}

/// Index of the first attention item with id `id` at or after `from`, or -1.
pub open spec fn attention_index_from(items: Seq<AttentionModel>, id: Seq<char>, from: int) -> int
    decreases items.len() - from,
{
    if from < 0 || from >= items.len() {
        -1
    } else if items[from].id == id {
        from
    } else {
        attention_index_from(items, id, from + 1)
    }
}

/// Agents stored per Workspace, first entry per Workspace wins.
pub type AgentTable = Seq<(WorkspaceId, Seq<AgentModel>)>;

/// Index of the first table entry for `w` at or after `from`, or -1.
pub open spec fn table_index_from(t: AgentTable, w: WorkspaceId, from: int) -> int
    decreases t.len() - from,
{
    if from < 0 || from >= t.len() {
        -1
    } else if t[from].0 == w {
        from
    } else {
        table_index_from(t, w, from + 1)
    }
}

/// The agent rows recorded for Workspace `w` (none when never replaced).
pub open spec fn agents_for(t: AgentTable, w: WorkspaceId) -> Seq<AgentModel> {
    let k = table_index_from(t, w, 0);
    if k >= 0 {
        t[k].1
    } else {
        Seq::empty()
    }
}

/// The table after replacing the rows of `w` with `agents`.
pub open spec fn replace_agents(t: AgentTable, w: WorkspaceId, agents: Seq<AgentModel>) -> AgentTable {
    let k = table_index_from(t, w, 0);
    if k >= 0 {
        t.update(k, (w, agents))
    } else {
        t.push((w, agents))
    }
}

/// Some agent in `agents` has id `id`.
pub open spec fn has_agent(agents: Seq<AgentModel>, id: Seq<char>) -> bool {
    agent_from(agents, id, 0) is Some
}

proof fn lemma_table_index(t: AgentTable, w: WorkspaceId, from: int)
    requires
        0 <= from,
    ensures
        table_index_from(t, w, from) == -1 || (from <= table_index_from(t, w, from) < t.len()
            && t[table_index_from(t, w, from)].0 == w),
        forall|j: int|
            from <= j < t.len() && (table_index_from(t, w, from) == -1 || j < table_index_from(
                t,
                w,
                from,
            )) ==> #[trigger] t[j].0 != w,
    decreases t.len() - from,
{
    if from < t.len() && t[from].0 != w {
        lemma_table_index(t, w, from + 1);
    }
}

proof fn lemma_table_index_same(t: AgentTable, u: AgentTable, w: WorkspaceId, from: int)
    requires
        0 <= from,
        t.len() <= u.len(),
        forall|j: int| from <= j < t.len() ==> (#[trigger] u[j]).0 == t[j].0,
        table_index_from(t, w, from) != -1 || (forall|j: int|
            t.len() <= j < u.len() ==> (#[trigger] u[j]).0 != w),
    ensures
        table_index_from(u, w, from) == table_index_from(t, w, from),
    decreases u.len() - from,
{
    if from < t.len() {
        if t[from].0 != w {
            lemma_table_index_same(t, u, w, from + 1);
        }
    } else if from < u.len() {
        assert(u[from].0 != w);
        lemma_table_index_same(t, u, w, from + 1);
    }
}

/// Replacing the agent rows of one Workspace gives exactly those rows for
/// it and leaves every other Workspace's rows unchanged.
pub proof fn replaced_agents_are_read_back(
    t: AgentTable,
    w: WorkspaceId,
    agents: Seq<AgentModel>,
    other: WorkspaceId,
)
    ensures
        agents_for(replace_agents(t, w, agents), w) == agents,
        other != w ==> agents_for(replace_agents(t, w, agents), other) == agents_for(t, other),
{
    let u = replace_agents(t, w, agents);
    lemma_table_index(t, w, 0);
    lemma_table_index(t, other, 0);
    let k = table_index_from(t, w, 0);
    if k >= 0 {
        lemma_table_index_same(t, u, w, 0);
        lemma_table_index_same(t, u, other, 0);
    } else {
        assert forall|j: int| 0 <= j < t.len() implies (#[trigger] u[j]).0 == t[j].0 by {}
        if other != w {
            lemma_table_index_same(t, u, other, 0);
        }
        lemma_table_index(u, w, 0);
        assert(u[t.len() as int].0 == w);
        assert(table_index_from(u, w, 0) == t.len()) by {
            lemma_table_index_prefix(u, w, t.len() as int);
        }
    }
}

proof fn lemma_table_index_prefix(t: AgentTable, w: WorkspaceId, k: int)
    requires
        0 <= k < t.len(),
        t[k].0 == w,
        forall|j: int| 0 <= j < k ==> (#[trigger] t[j]).0 != w,
    ensures
        table_index_from(t, w, 0) == k,
{
    lemma_table_index_prefix_from(t, w, 0, k);
}

proof fn lemma_table_index_prefix_from(t: AgentTable, w: WorkspaceId, from: int, k: int)
    requires
        0 <= from <= k < t.len(),
        t[k].0 == w,
        forall|j: int| from <= j < k ==> (#[trigger] t[j]).0 != w,
    ensures
        table_index_from(t, w, from) == k,
    decreases k - from,
{
    if from < k {
        lemma_table_index_prefix_from(t, w, from + 1, k);
    }
}

// ---------------------------------------------------------------------------
// Inspector rows.
// ---------------------------------------------------------------------------

/// The label of a Block lifecycle state.
pub open spec fn block_state_label(s: BlockPresentationState) -> Seq<char> {
    match s {
        BlockPresentationState::Running => "Running"@,
        BlockPresentationState::Completed => "Completed"@,
        BlockPresentationState::Failed => "Failed"@,
    }
}

fn block_state_label_exec(s: BlockPresentationState) -> (r: &'static str)
    ensures
        r@ == block_state_label(s),
{
    match s {
        BlockPresentationState::Running => "Running",
        BlockPresentationState::Completed => "Completed",
        BlockPresentationState::Failed => "Failed",
    }
}

/// The label of a Tab layout.
pub open spec fn layout_label(l: LayoutDescription) -> Seq<char> {
    match l {
        LayoutDescription::Single => "Single pane"@,
        LayoutDescription::SplitRight => "Split right"@,
        LayoutDescription::SplitDown => "Split down"@,
    }
}

fn layout_label_exec(l: LayoutDescription) -> (r: &'static str)
    ensures
        r@ == layout_label(l),
{
    match l {
        LayoutDescription::Single => "Single pane",
        LayoutDescription::SplitRight => "Split right",
        LayoutDescription::SplitDown => "Split down",
    }
}

/// Placeholder shown for a missing value.
pub open spec fn dash() -> Seq<char> {
    "\u{2014}"@
}

/// The text, or the placeholder when absent.
pub open spec fn or_dash(o: Option<Seq<char>>) -> Seq<char> {
    match o {
        Some(t) => t,
        None => dash(),
    }
}

/// Summary row of the Block at `index`: `block-{index}-command`, and the
/// command with its state label.
pub open spec fn block_summary_row(index: int, b: BlockModel) -> RowModel {
    mk_row(
        "block-"@ + decimal(index as nat) + "-command"@,
        "Block"@,
        "Command"@,
        b.command + " \u{b7} "@ + block_state_label(b.state),
    )
}

/// One summary row per Block, in order.
pub open spec fn spec_block_summary_rows(blocks: Seq<BlockModel>) -> Seq<RowModel> {
    Seq::new(blocks.len(), |i: int| block_summary_row(i, blocks[i]))
}

/// Detail rows of one selected Block: command, state, start line, the end
/// line and exit code when known, and the focused Pane title.
pub open spec fn spec_block_detail_rows(b: BlockModel, pane_title: Option<Seq<char>>) -> Seq<
    RowModel,
> {
    let base = seq![
        mk_row("block-command"@, "Block"@, "Command"@, b.command),
        mk_row("block-state"@, "Block"@, "State"@, block_state_label(b.state)),
        mk_row("block-start-line"@, "Block"@, "Start line"@, decimal(b.start_line as nat)),
    ];
    let with_end = match b.end_line {
        Some(e) => base.push(mk_row("block-end-line"@, "Block"@, "End line"@, decimal(e as nat))),
        None => base,
    };
    let with_exit = match b.exit_status {
        Some(x) => with_end.push(
            mk_row("block-exit"@, "Block"@, "Exit code"@, signed_decimal(x as int)),
        ),
        None => with_end,
    };
    with_exit.push(mk_row("block-pane"@, "Block"@, "Pane"@, or_dash(pane_title)))
}

/// The inspector rows: the selected Block's details when it is on the
/// focused Pane; else the selected agent's rows when it belongs to the active
/// Workspace; else Workspace, Tab and Pane context followed by one summary
/// row per Block.
pub open spec fn spec_inspector_rows(
    agents: AgentTable,
    selected_agent: Option<Seq<char>>,
    shell: ShellSnapshot,
    blocks: Seq<BlockModel>,
    selected_block: Option<BlockId>,
) -> Seq<RowModel> {
    let ws = workspace_row_from(shell.workspaces@, shell.active_workspace, 0);
    let tab = tab_row_from(shell.tabs@, shell.active_tab, 0);
    let pane = pane_row_from(shell.panes@, shell.focused_pane, 0);
    let pane_title = match pane {
        Some(p) => Some(p.title@),
        None => None,
    };
    let ws_name = match ws {
        Some(w) => Some(w.name@),
        None => None,
    };
    let block = match selected_block {
        Some(b) => block_from(blocks, b, 0),
        None => None,
    };
    let agent = match selected_agent {
        Some(a) => agent_from(agents_for(agents, shell.active_workspace), a, 0),
        None => None,
    };
    if block is Some {
        spec_block_detail_rows(block->0, pane_title)
    } else if agent is Some {
        seq![
            mk_row("agent-name"@, "Agent"@, "Name"@, agent->0.name),
            mk_row("agent-state"@, "Agent"@, "State"@, activity_label(agent->0.activity)),
            mk_row("agent-workspace"@, "Workspace"@, "Name"@, or_dash(ws_name)),
        ]
    } else {
        seq![
            mk_row("workspace-name"@, "Workspace"@, "Name"@, or_dash(ws_name)),
            mk_row(
                "workspace-path"@,
                "Workspace"@,
                "Path"@,
                or_dash(
                    match ws {
                        Some(w) => crate::shell::opt_view(w.detail),
                        None => None,
                    },
                ),
            ),
            mk_row(
                "tab-name"@,
                "Tab"@,
                "Name"@,
                or_dash(
                    match tab {
                        Some(t) => Some(t.title@),
                        None => None,
                    },
                ),
            ),
            mk_row(
                "tab-panes"@,
                "Tab"@,
                "Panes"@,
                or_dash(
                    match tab {
                        Some(t) => Some(decimal(t.pane_count as nat)),
                        None => None,
                    },
                ),
            ),
            mk_row("tab-layout"@, "Tab"@, "Layout"@, layout_label(shell.layout)),
            mk_row("pane-name"@, "Active Pane"@, "Pane"@, or_dash(pane_title)),
            mk_row("pane-focus"@, "Active Pane"@, "Focus"@, "Focused"@),
        ] + spec_block_summary_rows(blocks)
    }
}

/// The section an inspector mode shows (`None` shows every row).
pub open spec fn mode_section(mode: InspectorMode) -> Option<Seq<char>> {
    match mode {
        InspectorMode::Context => None,
        InspectorMode::Workspace => Some("Workspace"@),
        InspectorMode::Tab => Some("Tab"@),
        InspectorMode::Pane => Some("Active Pane"@),
        InspectorMode::Blocks => Some("Block"@),
    }
}

fn mode_section_exec(mode: InspectorMode) -> (r: Option<&'static str>)
    ensures
        match r {
            Some(s) => mode_section(mode) == Some(s@),
            None => mode_section(mode) is None,
        },
{
    match mode {
        InspectorMode::Context => None,
        InspectorMode::Workspace => Some("Workspace"),
        InspectorMode::Tab => Some("Tab"),
        InspectorMode::Pane => Some("Active Pane"),
        InspectorMode::Blocks => Some("Block"),
    }
}

/// Rows in section `section`.
pub open spec fn in_section(section: Seq<char>) -> spec_fn(RowModel) -> bool {
    |r: RowModel| r.section == section
}

/// The rows an inspector mode shows, in order.
pub open spec fn spec_filter_rows(rows: Seq<RowModel>, mode: InspectorMode) -> Seq<RowModel> {
    match mode_section(mode) {
        None => rows,
        Some(section) => rows.filter(in_section(section)),
    }
}

fn copy_rows(rows: &Vec<InspectorRow>) -> (r: Vec<InspectorRow>)
    ensures
        rows_view(r@) == rows_view(rows@),
{
    let mut out: Vec<InspectorRow> = Vec::new();
    let mut i: usize = 0;
    while i < rows.len()
        invariant
            0 <= i <= rows@.len(),
            out@.len() == i,
            forall|j: int| 0 <= j < i ==> (#[trigger] out@[j])@ == rows@[j]@,
        decreases rows@.len() - i,
    {
        out.push(rows[i].duplicate());
        i = i + 1;
    }
    assert(rows_view(out@) =~= rows_view(rows@));
    out
}

fn filter_rows(rows: &Vec<InspectorRow>, mode: InspectorMode) -> (r: Vec<InspectorRow>)
    ensures
        rows_view(r@) == spec_filter_rows(rows_view(rows@), mode),
{
    let section = match mode_section_exec(mode) {
        None => {
            return copy_rows(rows);
        },
        Some(s) => s,
    };
    let ghost pred = in_section(section@);
    let ghost all = rows_view(rows@);
    let mut out: Vec<InspectorRow> = Vec::new();
    let mut i: usize = 0;
    while i < rows.len()
        invariant
            0 <= i <= rows@.len(),
            all == rows_view(rows@),
            pred == in_section(section@),
            rows_view(out@) == all.subrange(0, i as int).filter(pred),
        decreases rows@.len() - i,
    {
        proof {
            reveal(Seq::filter);
            assert(all.subrange(0, i + 1).drop_last() =~= all.subrange(0, i as int));
            assert(all.subrange(0, i + 1).last() == rows@[i as int]@);
        }
        if str_eq(rows[i].section.as_str(), section) {
            let ghost before = out@;
            out.push(rows[i].duplicate());
            assert(rows_view(out@) =~= rows_view(before).push(rows@[i as int]@));
        }
        i = i + 1;
    }
    assert(all.subrange(0, rows@.len() as int) =~= all);
    out
}

fn block_summary_rows(blocks: &[BlockProjection]) -> (r: Vec<InspectorRow>)
    ensures
        rows_view(r@) == spec_block_summary_rows(blocks_view(blocks@)),
{
    let ghost bv = blocks_view(blocks@);
    let mut out: Vec<InspectorRow> = Vec::new();
    let mut i: usize = 0;
    while i < blocks.len()
        invariant
            0 <= i <= blocks@.len(),
            bv == blocks_view(blocks@),
            out@.len() == i,
            forall|j: int| 0 <= j < i ==> (#[trigger] out@[j])@ == block_summary_row(j, bv[j]),
        decreases blocks@.len() - i,
    {
        let block = &blocks[i];
        let mut id = owned("block-");
        let number = u64_to_string(i as u64);
        push_str(&mut id, number.as_str());
        push_str(&mut id, "-command");
        let mut value = copy_string(&block.command);
        push_str(&mut value, " \u{b7} ");
        push_str(&mut value, block_state_label_exec(block.state));
        out.push(row_from_strings(id, owned("Block"), owned("Command"), value));
        assert(bv[i as int] == block@);
        i = i + 1;
    }
    assert(rows_view(out@) =~= spec_block_summary_rows(bv));
    out
}

fn row_from_strings(id: String, section: String, label: String, value: String) -> (r: InspectorRow)
    ensures
        r@ == mk_row(id@, section@, label@, value@),
{
    InspectorRow { id, section, label, value }
}

pub(crate) fn dash_string() -> (r: String)
    ensures
        r@ == dash(),
{
    owned("\u{2014}")
}

fn block_detail_rows(block: &BlockProjection, pane_title: Option<&String>) -> (r: Vec<InspectorRow>)
    ensures
        rows_view(r@) == spec_block_detail_rows(
            block@,
            match pane_title {
                Some(t) => Some(t@),
                None => None,
            },
        ),
{
    let mut rows: Vec<InspectorRow> = Vec::new();
    rows.push(row("block-command", "Block", "Command", copy_string(&block.command)));
    rows.push(row("block-state", "Block", "State", owned(block_state_label_exec(block.state))));
    rows.push(row("block-start-line", "Block", "Start line", u64_to_string(block.start_line)));
    match block.end_line {
        Some(end_line) => {
            rows.push(row("block-end-line", "Block", "End line", u64_to_string(end_line)));
        },
        None => {},
    }
    match block.exit_status {
        Some(exit_status) => {
            rows.push(row("block-exit", "Block", "Exit code", i32_to_string(exit_status)));
        },
        None => {},
    }
    let title = match pane_title {
        Some(t) => copy_string(t),
        None => dash_string(),
    };
    rows.push(row("block-pane", "Block", "Pane", title));
    assert(rows_view(rows@) =~= spec_block_detail_rows(
        block@,
        match pane_title {
            Some(t) => Some(t@),
            None => None,
        },
    ));
    rows
}

pub(crate) fn find_workspace_row(rows: &Vec<ShellWorkspaceRow>, id: WorkspaceId) -> (r: Option<usize>)
    ensures
        match r {
            Some(k) => k < rows@.len() && workspace_row_from(rows@, id, 0) == Some(rows@[k as int]),
            None => workspace_row_from(rows@, id, 0) is None,
        },
{
    let mut i: usize = 0;
    while i < rows.len()
        invariant
            0 <= i <= rows@.len(),
            workspace_row_from(rows@, id, 0) == workspace_row_from(rows@, id, i as int),
        decreases rows@.len() - i,
    {
        if rows[i].id == id {
            return Some(i);
        }
        i = i + 1;
    }
    None
}

pub(crate) fn find_tab_row(rows: &Vec<ShellTabRow>, id: TabId) -> (r: Option<usize>)
    ensures
        match r {
            Some(k) => k < rows@.len() && tab_row_from(rows@, id, 0) == Some(rows@[k as int]),
            None => tab_row_from(rows@, id, 0) is None,
        },
{
    let mut i: usize = 0;
    while i < rows.len()
        invariant
            0 <= i <= rows@.len(),
            tab_row_from(rows@, id, 0) == tab_row_from(rows@, id, i as int),
        decreases rows@.len() - i,
    {
        if rows[i].id == id {
            return Some(i);
        }
        i = i + 1;
    }
    None
}

pub(crate) fn find_pane_row(rows: &Vec<ShellPaneRow>, id: crate::ids::PaneId) -> (r: Option<usize>)
    ensures
        match r {
            Some(k) => k < rows@.len() && pane_row_from(rows@, id, 0) == Some(rows@[k as int]),
            None => pane_row_from(rows@, id, 0) is None,
        },
{
    let mut i: usize = 0;
    while i < rows.len()
        invariant
            0 <= i <= rows@.len(),
            pane_row_from(rows@, id, 0) == pane_row_from(rows@, id, i as int),
        decreases rows@.len() - i,
    {
        if rows[i].id == id {
            return Some(i);
        }
        i = i + 1;
    }
    None
}

fn find_block(blocks: &[BlockProjection], id: BlockId) -> (r: Option<usize>)
    ensures
        match r {
            Some(k) => k < blocks@.len() && block_from(blocks_view(blocks@), id, 0) == Some(
                blocks@[k as int]@,
            ),
            None => block_from(blocks_view(blocks@), id, 0) is None,
        },
{
    let ghost bv = blocks_view(blocks@);
    let mut i: usize = 0;
    while i < blocks.len()
        invariant
            0 <= i <= blocks@.len(),
            bv == blocks_view(blocks@),
            block_from(bv, id, 0) == block_from(bv, id, i as int),
        decreases blocks@.len() - i,
    {
        assert(bv[i as int] == blocks@[i as int]@);
        if blocks[i].id == id {
            return Some(i);
        }
        i = i + 1;
    }
    None
}

fn find_agent(agents: &Vec<AgentRecord>, id: &AgentId) -> (r: Option<usize>)
    ensures
        match r {
            Some(k) => k < agents@.len() && agent_from(agents_view(agents@), id@, 0) == Some(
                agents@[k as int]@,
            ),
            None => agent_from(agents_view(agents@), id@, 0) is None,
        },
{
    let ghost av = agents_view(agents@);
    let mut i: usize = 0;
    while i < agents.len()
        invariant
            0 <= i <= agents@.len(),
            av == agents_view(agents@),
            agent_from(av, id@, 0) == agent_from(av, id@, i as int),
        decreases agents@.len() - i,
    {
        assert(av[i as int] == agents@[i as int]@);
        if agents[i].id.same(id) {
            return Some(i);
        }
        i = i + 1;
    }
    None
}

// ---------------------------------------------------------------------------
// Chrome state.
// ---------------------------------------------------------------------------

/// Authoritative chrome/inspector/attention product state.
#[derive(Debug)]
pub struct ChromeState {
    left_panel: LeftPanelMode,
    inspector_mode: InspectorMode,
    center_surface: CenterSurface,
    left_visible: bool,
    inspector_visible: bool,
    tab_strip_visible: bool,
    attention_popover_open: bool,
    palette_open: bool,
    palette_query: String,
    palette_selected: usize,
    selected_agent: Option<AgentId>,
    selected_block: Option<BlockId>,
    agents: Vec<(WorkspaceId, Vec<AgentRecord>)>,
    attention: Vec<AttentionItem>,
    last_error: Option<ChromeError>,
}

/// Abstract chrome state.
pub struct ChromeModel {
    pub left_panel: LeftPanelMode,
    pub inspector_mode: InspectorMode,
    pub center_surface: CenterSurface,
    pub left_visible: bool,
    pub inspector_visible: bool,
    pub tab_strip_visible: bool,
    pub attention_popover_open: bool,
    pub palette_open: bool,
    pub palette_query: Seq<char>,
    pub palette_selected: usize,
    pub selected_agent: Option<Seq<char>>,
    pub selected_block: Option<BlockId>,
    pub agents: AgentTable,
    pub attention: Seq<AttentionModel>,
    pub last_error: Option<ChromeError>,
}

/// The abstract agent table of stored entries.
pub open spec fn table_view(v: Seq<(WorkspaceId, Vec<AgentRecord>)>) -> AgentTable {
    v.map_values(|e: (WorkspaceId, Vec<AgentRecord>)| (e.0, agents_view(e.1@)))
}

impl View for ChromeState {
    type V = ChromeModel;

    closed spec fn view(&self) -> ChromeModel {
        ChromeModel {
            left_panel: self.left_panel,
            inspector_mode: self.inspector_mode,
            center_surface: self.center_surface,
            left_visible: self.left_visible,
            inspector_visible: self.inspector_visible,
            tab_strip_visible: self.tab_strip_visible,
            attention_popover_open: self.attention_popover_open,
            palette_open: self.palette_open,
            palette_query: self.palette_query@,
            palette_selected: self.palette_selected,
            selected_agent: opt_agent_view(self.selected_agent),
            selected_block: self.selected_block,
            agents: table_view(self.agents@),
            attention: attention_view(self.attention@),
            last_error: self.last_error,
        }
    }
}

/// The initial chrome: Workspaces list, Context inspector, Core center, every
/// shell region visible, popover and palette closed, nothing selected.
pub open spec fn initial_chrome() -> ChromeModel {
    ChromeModel {
        left_panel: LeftPanelMode::Workspaces,
        inspector_mode: InspectorMode::Context,
        center_surface: CenterSurface::Core,
        left_visible: true,
        inspector_visible: true,
        tab_strip_visible: true,
        attention_popover_open: false,
        palette_open: false,
        palette_query: Seq::empty(),
        palette_selected: 0,
        selected_agent: None,
        selected_block: None,
        agents: Seq::empty(),
        attention: Seq::empty(),
        last_error: None,
    }
}

/// The palette selection always indexes the catalog.
pub open spec fn chrome_wf(m: ChromeModel) -> bool {
    m.palette_selected < builtin().len()
}

/// `m` with `e` recorded as the last error and nothing else changed.
pub open spec fn failed(m: ChromeModel, e: ChromeError) -> ChromeModel {
    ChromeModel { last_error: Some(e), ..m }
}

/// Whether a Block with id `id` is among `blocks`.
pub open spec fn has_block(blocks: Seq<BlockModel>, id: BlockId) -> bool {
    block_from(blocks, id, 0) is Some
}

/// What opening attention item `id` does.
pub open spec fn spec_open_attention(
    o: ChromeModel,
    n: ChromeModel,
    id: Seq<char>,
    shell: ShellSnapshot,
    r: Result<ChromeEffect, ChromeError>,
) -> bool {
    let k = attention_index_from(o.attention, id, 0);
    let base = ChromeModel { last_error: None, ..o };
    if k < 0 {
        r == Err::<ChromeEffect, ChromeError>(ChromeError::UnknownAttention) && n == failed(
            o,
            ChromeError::UnknownAttention,
        )
    } else {
        let item = o.attention[k];
        let workspace_missing = match item.workspace {
            Some(w) => workspace_row_from(shell.workspaces@, w, 0) is None,
            None => false,
        };
        let tab_missing = match item.tab {
            Some(t) => item.workspace is None && tab_row_from(shell.tabs@, t, 0) is None,
            None => false,
        };
        let agent_missing = match item.agent {
            Some(a) => !has_agent(
                agents_for(
                    o.agents,
                    match item.workspace {
                        Some(w) => w,
                        None => shell.active_workspace,
                    },
                ),
                a,
            ),
            None => false,
        };
        if workspace_missing {
            r == Err::<ChromeEffect, ChromeError>(ChromeError::UnknownWorkspace) && n == failed(
                o,
                ChromeError::UnknownWorkspace,
            )
        } else if tab_missing {
            r == Err::<ChromeEffect, ChromeError>(ChromeError::UnknownTab) && n == failed(
                o,
                ChromeError::UnknownTab,
            )
        } else if agent_missing {
            r == Err::<ChromeEffect, ChromeError>(ChromeError::UnknownAgent) && n == failed(
                o,
                ChromeError::UnknownAgent,
            )
        } else {
            &&& r == Ok::<ChromeEffect, ChromeError>(
                ChromeEffect {
                    select_workspace: item.workspace,
                    select_tab: item.tab,
                    palette_command: None,
                },
            )
            &&& n == ChromeModel {
                selected_agent: item.agent,
                attention: o.attention.remove(k),
                attention_popover_open: false,
                ..base
            }
        }
    }
}

/// What one chrome action does: its result and the state after it.
pub open spec fn spec_chrome_apply(
    o: ChromeModel,
    n: ChromeModel,
    action: ChromeAction,
    shell: ShellSnapshot,
    blocks: Seq<BlockModel>,
    r: Result<ChromeEffect, ChromeError>,
) -> bool {
    let base = ChromeModel { last_error: None, ..o };
    let ok = r == Ok::<ChromeEffect, ChromeError>(no_effect());
    match action {
        ChromeAction::SetLeftPanel(mode) => ok && n == ChromeModel {
            left_panel: mode,
            selected_agent: None,
            ..base
        },
        ChromeAction::SetInspectorMode(mode) => ok && n == ChromeModel {
            inspector_mode: mode,
            selected_block: if mode != InspectorMode::Blocks {
                None
            } else {
                o.selected_block
            },
            ..base
        },
        ChromeAction::SetCenterSurface(mode) => ok && n == ChromeModel {
            center_surface: mode,
            ..base
        },
        ChromeAction::SelectAgent { id } => if !has_agent(
            agents_for(o.agents, shell.active_workspace),
            id@,
        ) {
            r == Err::<ChromeEffect, ChromeError>(ChromeError::UnknownAgent) && n == failed(
                o,
                ChromeError::UnknownAgent,
            )
        } else {
            ok && n == ChromeModel { selected_agent: Some(id@), selected_block: None, ..base }
        },
        ChromeAction::OpenAttention { id } => spec_open_attention(o, n, id@, shell, r),
        ChromeAction::ReplaceAgents { workspace, agents } => {
            let t = replace_agents(o.agents, workspace, agents_view(agents@));
            let sel = match o.selected_agent {
                Some(a) => if has_agent(agents_for(t, shell.active_workspace), a) {
                    Some(a)
                } else {
                    None
                },
                None => None,
            };
            ok && n == ChromeModel { agents: t, selected_agent: sel, ..base }
        },
        ChromeAction::ReplaceAttention { items } => ok && n == ChromeModel {
            attention: attention_view(items@),
            ..base
        },
        ChromeAction::ContextNavigated => ok && n == ChromeModel {
            selected_agent: None,
            selected_block: None,
            ..base
        },
        ChromeAction::SetShellVisibility { left, inspector, tab_strip } => ok && n == ChromeModel {
            left_visible: left,
            inspector_visible: inspector,
            tab_strip_visible: tab_strip,
            ..base
        },
        ChromeAction::SetAttentionPopover { open } => ok && n == ChromeModel {
            attention_popover_open: open,
            ..base
        },
        ChromeAction::SetPaletteOpen { open } => ok && n == ChromeModel {
            palette_open: open,
            palette_query: Seq::empty(),
            palette_selected: 0,
            ..base
        },
        ChromeAction::SetPaletteQuery { query } => ok && n == ChromeModel {
            palette_query: query@,
            palette_selected: spec_clamp(o.palette_selected, spec_filter(query@).len() as usize),
            ..base
        },
        ChromeAction::PaletteMove { delta } => ok && n == ChromeModel {
            palette_selected: spec_move(
                o.palette_selected,
                delta,
                spec_filter(o.palette_query).len() as usize,
            ),
            ..base
        },
        ChromeAction::PaletteRun => {
            let f = spec_filter(o.palette_query);
            if !o.palette_open || o.palette_selected >= f.len() {
                r == Err::<ChromeEffect, ChromeError>(ChromeError::EmptyPaletteSelection) && n
                    == failed(o, ChromeError::EmptyPaletteSelection)
            } else {
                &&& r == Ok::<ChromeEffect, ChromeError>(
                    ChromeEffect {
                        select_workspace: None,
                        select_tab: None,
                        palette_command: Some(f[o.palette_selected as int]),
                    },
                )
                &&& n == ChromeModel {
                    palette_open: false,
                    palette_query: Seq::empty(),
                    palette_selected: 0,
                    ..base
                }
            }
        },
        ChromeAction::SelectBlock { id } => if !has_block(blocks, id) {
            r == Err::<ChromeEffect, ChromeError>(ChromeError::UnknownBlock) && n == failed(
                o,
                ChromeError::UnknownBlock,
            )
        } else {
            ok && n == ChromeModel {
                selected_block: Some(id),
                selected_agent: None,
                inspector_mode: InspectorMode::Blocks,
                ..base
            }
        },
        ChromeAction::ClearBlockSelection => ok && n == ChromeModel {
            selected_block: None,
            inspector_mode: InspectorMode::Context,
            ..base
        },
    }
}

/// The Block selection a snapshot shows: kept only while on the focused Pane.
pub open spec fn visible_block(selected: Option<BlockId>, blocks: Seq<BlockModel>) -> Option<BlockId> {
    match selected {
        Some(b) => if has_block(blocks, b) {
            Some(b)
        } else {
            None
        },
        None => None,
    }
}

/// The palette rows a snapshot lists: the filtered catalog while open.
pub open spec fn listed_commands(m: ChromeModel) -> Seq<PaletteCommandId> {
    if m.palette_open {
        spec_filter(m.palette_query)
    } else {
        Seq::empty()
    }
}

impl ChromeState {
    pub fn new() -> (r: Self)
        ensures
            r@ == initial_chrome(),
            chrome_wf(r@),
    {
        let r = ChromeState {
            left_panel: LeftPanelMode::Workspaces,
            inspector_mode: InspectorMode::Context,
            center_surface: CenterSurface::Core,
            left_visible: true,
            inspector_visible: true,
            tab_strip_visible: true,
            attention_popover_open: false,
            palette_open: false,
            palette_query: String::new(),
            palette_selected: 0,
            selected_agent: None,
            selected_block: None,
            agents: Vec::new(),
            attention: Vec::new(),
            last_error: None,
        };
        assert(r@.agents =~= initial_chrome().agents);
        assert(r@.attention =~= initial_chrome().attention);
        r
    }

    /// Index of the stored agent entry for `w`.
    fn table_index(&self, w: WorkspaceId) -> (r: Option<usize>)
        ensures
            match r {
                Some(k) => k < self.agents@.len() && table_index_from(self@.agents, w, 0) == k,
                None => table_index_from(self@.agents, w, 0) == -1,
            },
    {
        let ghost t = self@.agents;
        let mut i: usize = 0;
        while i < self.agents.len()
            invariant
                0 <= i <= self.agents@.len(),
                t == self@.agents,
                t.len() == self.agents@.len(),
                table_index_from(t, w, 0) == table_index_from(t, w, i as int),
            decreases self.agents@.len() - i,
        {
            assert(t[i as int].0 == self.agents@[i as int].0);
            if self.agents[i].0 == w {
                return Some(i);
            }
            i = i + 1;
        }
        None
    }

    /// Locate agent `id` among the rows of Workspace `w`.
    fn find_agent_in(&self, w: WorkspaceId, id: &AgentId) -> (r: Option<(usize, usize)>)
        ensures
            match r {
                Some((k, j)) => k < self.agents@.len() && j < self.agents@[k as int].1@.len()
                    && agent_from(agents_for(self@.agents, w), id@, 0) == Some(
                    self.agents@[k as int].1@[j as int]@,
                ),
                None => !has_agent(agents_for(self@.agents, w), id@),
            },
    {
        match self.table_index(w) {
            None => None,
            Some(k) => {
                assert(self@.agents[k as int].1 == agents_view(self.agents@[k as int].1@));
                match find_agent(&self.agents[k].1, id) {
                    Some(j) => Some((k, j)),
                    None => None,
                }
            },
        }
    }

    fn fail<T>(&mut self, error: ChromeError) -> (r: Result<T, ChromeError>)
        ensures
            r == Err::<T, ChromeError>(error),
            final(self)@ == failed(old(self)@, error),
    {
        self.last_error = Some(error);
        Err(error)
    }

    fn dismiss_palette(&mut self)
        ensures
            final(self)@ == (ChromeModel {
                palette_open: false,
                palette_query: Seq::empty(),
                palette_selected: 0,
                ..old(self)@
            }),
    {
        self.palette_open = false;
        self.palette_query = String::new();
        self.palette_selected = 0;
    }

    fn run_palette(&mut self) -> (r: Result<ChromeEffect, ChromeError>)
        ensures
            ({
                let o = old(self)@;
                let f = spec_filter(o.palette_query);
                if !o.palette_open || o.palette_selected >= f.len() {
                    r == Err::<ChromeEffect, ChromeError>(ChromeError::EmptyPaletteSelection)
                        && final(self)@ == failed(o, ChromeError::EmptyPaletteSelection)
                } else {
                    r == Ok::<ChromeEffect, ChromeError>(
                        ChromeEffect {
                            select_workspace: None,
                            select_tab: None,
                            palette_command: Some(f[o.palette_selected as int]),
                        },
                    ) && final(self)@ == (ChromeModel {
                        palette_open: false,
                        palette_query: Seq::empty(),
                        palette_selected: 0,
                        ..o
                    })
                }
            }),
    {
        if !self.palette_open {
            return self.fail(ChromeError::EmptyPaletteSelection);
        }
        let commands = filter_command_ids(self.palette_query.as_str());
        if self.palette_selected >= commands.len() {
            return self.fail(ChromeError::EmptyPaletteSelection);
        }
        let command = commands[self.palette_selected];
        self.dismiss_palette();
        Ok(ChromeEffect { select_workspace: None, select_tab: None, palette_command: Some(command) })
    }

    fn attention_index(&self, id: &AttentionId) -> (r: Option<usize>)
        ensures
            match r {
                Some(k) => k < self.attention@.len() && attention_index_from(self@.attention, id@, 0)
                    == k,
                None => attention_index_from(self@.attention, id@, 0) == -1,
            },
    {
        let ghost items = self@.attention;
        let mut i: usize = 0;
        while i < self.attention.len()
            invariant
                0 <= i <= self.attention@.len(),
                items == self@.attention,
                items.len() == self.attention@.len(),
                attention_index_from(items, id@, 0) == attention_index_from(items, id@, i as int),
            decreases self.attention@.len() - i,
        {
            assert(items[i as int] == self.attention@[i as int]@);
            if self.attention[i].id.same(id) {
                return Some(i);
            }
            i = i + 1;
        }
        None
    }

    fn open_attention(&mut self, id: &AttentionId, shell: &ShellSnapshot) -> (r: Result<
        ChromeEffect,
        ChromeError,
    >)
        requires
            old(self)@.last_error is None,
        ensures
            spec_open_attention(old(self)@, final(self)@, id@, *shell, r),
    {
        let index = match self.attention_index(id) {
            Some(k) => k,
            None => {
                return self.fail(ChromeError::UnknownAttention);
            },
        };
        let ghost o = self@;
        assert(o.attention[index as int] == self.attention@[index as int]@);
        let item = self.attention[index].duplicate();
        match item.workspace {
            Some(workspace) => {
                if find_workspace_row(&shell.workspaces, workspace).is_none() {
                    return self.fail(ChromeError::UnknownWorkspace);
                }
            },
            None => {},
        }
        match item.tab {
            Some(tab) => {
                if item.workspace.is_none() && find_tab_row(&shell.tabs, tab).is_none() {
                    return self.fail(ChromeError::UnknownTab);
                }
            },
            None => {},
        }
        match &item.agent {
            Some(agent) => {
                let workspace = match item.workspace {
                    Some(w) => w,
                    None => shell.active_workspace,
                };
                if self.find_agent_in(workspace, agent).is_none() {
                    return self.fail(ChromeError::UnknownAgent);
                }
                self.selected_agent = Some(agent.duplicate());
            },
            None => {
                self.selected_agent = None;
            },
        }
        let ghost before = self.attention@;
        self.attention.remove(index);
        assert(attention_view(self.attention@) =~= attention_view(before).remove(index as int));
        self.attention_popover_open = false;
        Ok(ChromeEffect { select_workspace: item.workspace, select_tab: item.tab, palette_command: None })
    }

    /// Drop Block selection when the focused Pane projection no longer contains it.
    pub fn retain_selected_block(&mut self, focused_blocks: &[BlockProjection])
        ensures
            final(self)@ == (ChromeModel {
                selected_block: visible_block(old(self)@.selected_block, blocks_view(focused_blocks@)),
                ..old(self)@
            }),
    {
        match self.selected_block {
            Some(id) => {
                if find_block(focused_blocks, id).is_none() {
                    self.selected_block = None;
                }
            },
            None => {},
        }
    }

    fn inspector_rows(
        &self,
        shell: &ShellSnapshot,
        focused_blocks: &[BlockProjection],
        selected_block: Option<BlockId>,
    ) -> (r: Vec<InspectorRow>)
        ensures
            rows_view(r@) == spec_inspector_rows(
                self@.agents,
                self@.selected_agent,
                *shell,
                blocks_view(focused_blocks@),
                selected_block,
            ),
    {
        let ws = find_workspace_row(&shell.workspaces, shell.active_workspace);
        let tab = find_tab_row(&shell.tabs, shell.active_tab);
        let pane = find_pane_row(&shell.panes, shell.focused_pane);
        let pane_title: Option<&String> = match pane {
            Some(k) => Some(&shell.panes[k].title),
            None => None,
        };
        match selected_block {
            Some(block_id) => {
                match find_block(focused_blocks, block_id) {
                    Some(j) => {
                        return block_detail_rows(&focused_blocks[j], pane_title);
                    },
                    None => {},
                }
            },
            None => {},
        }
        let ws_name = match ws {
            Some(k) => copy_string(&shell.workspaces[k].name),
            None => dash_string(),
        };
        match &self.selected_agent {
            Some(selected) => {
                match self.find_agent_in(shell.active_workspace, selected) {
                    Some((k, j)) => {
                        let agent = &self.agents[k].1[j];
                        let mut rows: Vec<InspectorRow> = Vec::new();
                        rows.push(row("agent-name", "Agent", "Name", copy_string(&agent.name)));
                        rows.push(row("agent-state", "Agent", "State", owned(agent.activity.label())));
                        rows.push(row("agent-workspace", "Workspace", "Name", ws_name));
                        assert(rows_view(rows@) =~= spec_inspector_rows(
                            self@.agents,
                            self@.selected_agent,
                            *shell,
                            blocks_view(focused_blocks@),
                            selected_block,
                        ));
                        return rows;
                    },
                    None => {},
                }
            },
            None => {},
        }
        let path = match ws {
            Some(k) => match &shell.workspaces[k].detail {
                Some(d) => copy_string(d),
                None => dash_string(),
            },
            None => dash_string(),
        };
        let tab_name = match tab {
            Some(k) => copy_string(&shell.tabs[k].title),
            None => dash_string(),
        };
        let tab_panes = match tab {
            Some(k) => u64_to_string(shell.tabs[k].pane_count),
            None => dash_string(),
        };
        let pane_name = match pane_title {
            Some(t) => copy_string(t),
            None => dash_string(),
        };
        let mut rows: Vec<InspectorRow> = Vec::new();
        rows.push(row("workspace-name", "Workspace", "Name", ws_name));
        rows.push(row("workspace-path", "Workspace", "Path", path));
        rows.push(row("tab-name", "Tab", "Name", tab_name));
        rows.push(row("tab-panes", "Tab", "Panes", tab_panes));
        rows.push(row("tab-layout", "Tab", "Layout", owned(layout_label_exec(shell.layout))));
        rows.push(row("pane-name", "Active Pane", "Pane", pane_name));
        rows.push(row("pane-focus", "Active Pane", "Focus", owned("Focused")));
        let ghost head = rows_view(rows@);
        let mut summary = block_summary_rows(focused_blocks);
        rows.append(&mut summary);
        assert(rows_view(rows@) =~= head + spec_block_summary_rows(blocks_view(focused_blocks@)));
        rows
    }

    pub fn snapshot_with_blocks(&self, shell: &ShellSnapshot, focused_blocks: &[BlockProjection]) -> (r:
        ChromeSnapshot)
        ensures
            ({
                let m = self@;
                let blocks = blocks_view(focused_blocks@);
                let sel = visible_block(m.selected_block, blocks);
                let rows = spec_inspector_rows(m.agents, m.selected_agent, *shell, blocks, sel);
                &&& r.left_panel == m.left_panel
                &&& r.inspector_mode == m.inspector_mode
                &&& r.center_surface == m.center_surface
                &&& r.left_visible == m.left_visible
                &&& r.inspector_visible == m.inspector_visible
                &&& r.tab_strip_visible == m.tab_strip_visible
                &&& r.attention_popover_open == m.attention_popover_open
                &&& r.palette_open == m.palette_open
                &&& r.palette_query@ == m.palette_query
                &&& rows_of(r.palette_commands@, listed_commands(m))
                &&& r.palette_selected == spec_clamp(
                    m.palette_selected,
                    listed_commands(m).len() as usize,
                )
                &&& opt_agent_view(r.selected_agent) == m.selected_agent
                &&& r.selected_block == sel
                &&& agents_view(r.agents@) == agents_for(m.agents, shell.active_workspace)
                &&& rows_view(r.inspector_rows@) == rows
                &&& rows_view(r.visible_inspector_rows@) == spec_filter_rows(rows, m.inspector_mode)
                &&& attention_view(r.attention_items@) == m.attention
                &&& r.last_error == m.last_error
            }),
    {
        let selected_block = match self.selected_block {
            Some(id) => if find_block(focused_blocks, id).is_some() {
                Some(id)
            } else {
                None
            },
            None => None,
        };
        let inspector_rows = self.inspector_rows(shell, focused_blocks, selected_block);
        let visible_inspector_rows = filter_rows(&inspector_rows, self.inspector_mode);
        let palette_commands = if self.palette_open {
            filter_commands(self.palette_query.as_str())
        } else {
            Vec::new()
        };
        let palette_selected = clamp_selected(self.palette_selected, palette_commands.len());
        let agents = match self.table_index(shell.active_workspace) {
            Some(k) => {
                assert(self@.agents[k as int].1 == agents_view(self.agents@[k as int].1@));
                copy_agents(&self.agents[k].1)
            },
            None => {
                let v: Vec<AgentRecord> = Vec::new();
                assert(agents_view(v@) =~= Seq::<AgentModel>::empty());
                v
            },
        };
        ChromeSnapshot {
            left_panel: self.left_panel,
            inspector_mode: self.inspector_mode,
            center_surface: self.center_surface,
            left_visible: self.left_visible,
            inspector_visible: self.inspector_visible,
            tab_strip_visible: self.tab_strip_visible,
            attention_popover_open: self.attention_popover_open,
            palette_open: self.palette_open,
            palette_query: copy_string(&self.palette_query),
            palette_selected,
            palette_commands,
            selected_agent: copy_opt_agent(&self.selected_agent),
            selected_block,
            agents,
            inspector_rows,
            visible_inspector_rows,
            attention_items: copy_attention(&self.attention),
            last_error: self.last_error,
        }
    }

    pub fn snapshot(&self, shell: &ShellSnapshot) -> (r: ChromeSnapshot)
        ensures
            ({
                let m = self@;
                let rows = spec_inspector_rows(m.agents, m.selected_agent, *shell, Seq::empty(), None);
                &&& r.left_panel == m.left_panel
                &&& r.inspector_mode == m.inspector_mode
                &&& r.center_surface == m.center_surface
                &&& r.left_visible == m.left_visible
                &&& r.inspector_visible == m.inspector_visible
                &&& r.tab_strip_visible == m.tab_strip_visible
                &&& r.attention_popover_open == m.attention_popover_open
                &&& r.palette_open == m.palette_open
                &&& r.palette_query@ == m.palette_query
                &&& rows_of(r.palette_commands@, listed_commands(m))
                &&& r.palette_selected == spec_clamp(
                    m.palette_selected,
                    listed_commands(m).len() as usize,
                )
                &&& opt_agent_view(r.selected_agent) == m.selected_agent
                &&& r.selected_block is None
                &&& agents_view(r.agents@) == agents_for(m.agents, shell.active_workspace)
                &&& rows_view(r.inspector_rows@) == rows
                &&& rows_view(r.visible_inspector_rows@) == spec_filter_rows(rows, m.inspector_mode)
                &&& attention_view(r.attention_items@) == m.attention
                &&& r.last_error == m.last_error
            }),
    {
        let none: Vec<BlockProjection> = Vec::new();
        let r = self.snapshot_with_blocks(shell, none.as_slice());
        assert(blocks_view(none@) =~= Seq::<BlockModel>::empty());
        r
    }

    /// Apply a chrome action. `focused_blocks` validates Block selection
    /// against the authoritative focused-Pane composer projection. Rejected
    /// actions change nothing but the recorded error.
    #[verifier::rlimit(40)]
    pub fn apply_with_blocks(
        &mut self,
        action: ChromeAction,
        shell: &ShellSnapshot,
        focused_blocks: &[BlockProjection],
    ) -> (r: Result<ChromeEffect, ChromeError>)
        requires
            chrome_wf(old(self)@),
            action matches ChromeAction::PaletteMove { delta } ==> old(self)@.palette_selected
                + delta <= i32::MAX,
        ensures
            chrome_wf(final(self)@),
            spec_chrome_apply(
                old(self)@,
                final(self)@,
                action,
                *shell,
                blocks_view(focused_blocks@),
                r,
            ),
            r matches Err(e) ==> final(self)@ == failed(old(self)@, e),
            r is Ok ==> final(self)@.last_error is None,
    {
        self.last_error = None;
        proof {
            lemma_filter_len(self@.palette_query);
        }
        match action {
            ChromeAction::SetLeftPanel(mode) => {
                self.left_panel = mode;
                self.selected_agent = None;
                Ok(empty_effect())
            },
            ChromeAction::SetInspectorMode(mode) => {
                self.inspector_mode = mode;
                if mode != InspectorMode::Blocks {
                    self.selected_block = None;
                }
                Ok(empty_effect())
            },
            ChromeAction::SetCenterSurface(mode) => {
                self.center_surface = mode;
                Ok(empty_effect())
            },
            ChromeAction::SelectAgent { id } => {
                if self.find_agent_in(shell.active_workspace, &id).is_none() {
                    return self.fail(ChromeError::UnknownAgent);
                }
                self.selected_agent = Some(id);
                self.selected_block = None;
                Ok(empty_effect())
            },
            ChromeAction::OpenAttention { id } => self.open_attention(&id, shell),
            ChromeAction::ReplaceAgents { workspace, agents } => {
                let ghost before = self.agents@;
                let ghost av = agents_view(agents@);
                match self.table_index(workspace) {
                    Some(k) => {
                        self.agents.set(k, (workspace, agents));
                        assert(table_view(self.agents@) =~= table_view(before).update(
                            k as int,
                            (workspace, av),
                        ));
                    },
                    None => {
                        self.agents.push((workspace, agents));
                        assert(table_view(self.agents@) =~= table_view(before).push(
                            (workspace, av),
                        ));
                    },
                }
                let keep = match &self.selected_agent {
                    Some(selected) => self.find_agent_in(shell.active_workspace, selected).is_some(),
                    None => true,
                };
                if !keep {
                    self.selected_agent = None;
                }
                Ok(empty_effect())
            },
            ChromeAction::ReplaceAttention { items } => {
                self.attention = items;
                Ok(empty_effect())
            },
            ChromeAction::ContextNavigated => {
                self.selected_agent = None;
                self.selected_block = None;
                Ok(empty_effect())
            },
            ChromeAction::SetShellVisibility { left, inspector, tab_strip } => {
                self.left_visible = left;
                self.inspector_visible = inspector;
                self.tab_strip_visible = tab_strip;
                Ok(empty_effect())
            },
            ChromeAction::SetAttentionPopover { open } => {
                self.attention_popover_open = open;
                Ok(empty_effect())
            },
            ChromeAction::SetPaletteOpen { open } => {
                self.palette_open = open;
                self.palette_query = String::new();
                self.palette_selected = 0;
                Ok(empty_effect())
            },
            ChromeAction::SetPaletteQuery { query } => {
                self.palette_query = query;
                let len = filter_commands(self.palette_query.as_str()).len();
                proof {
                    lemma_filter_len(self@.palette_query);
                }
                self.palette_selected = clamp_selected(self.palette_selected, len);
                Ok(empty_effect())
            },
            ChromeAction::PaletteMove { delta } => {
                let len = filter_commands(self.palette_query.as_str()).len();
                self.palette_selected = move_selected(self.palette_selected, delta, len);
                Ok(empty_effect())
            },
            ChromeAction::PaletteRun => self.run_palette(),
            ChromeAction::SelectBlock { id } => {
                if find_block(focused_blocks, id).is_none() {
                    return self.fail(ChromeError::UnknownBlock);
                }
                self.selected_block = Some(id);
                self.selected_agent = None;
                self.inspector_mode = InspectorMode::Blocks;
                Ok(empty_effect())
            },
            ChromeAction::ClearBlockSelection => {
                self.selected_block = None;
                self.inspector_mode = InspectorMode::Context;
                Ok(empty_effect())
            },
        }
    }

    /// Apply a chrome action with no focused-Pane Blocks.
    pub fn apply(&mut self, action: ChromeAction, shell: &ShellSnapshot) -> (r: Result<
        ChromeEffect,
        ChromeError,
    >)
        requires
            chrome_wf(old(self)@),
            action matches ChromeAction::PaletteMove { delta } ==> old(self)@.palette_selected
                + delta <= i32::MAX,
        ensures
            chrome_wf(final(self)@),
            spec_chrome_apply(old(self)@, final(self)@, action, *shell, Seq::empty(), r),
            r matches Err(e) ==> final(self)@ == failed(old(self)@, e),
    {
        let none: Vec<BlockProjection> = Vec::new();
        assert(blocks_view(none@) =~= Seq::<BlockModel>::empty());
        self.apply_with_blocks(action, shell, none.as_slice())
    }
}

} // verus!
