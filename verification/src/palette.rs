//! Global keyboard-first command palette.
//!
//! The palette owns open/query/selected-index state. The command list itself
//! is never stored: `build_commands` derives it from the current
//! `ShellSnapshot`/`ChromeSnapshot` every time it is needed, so it can never
//! present a stale or invented action. Filtering is a case-insensitive
//! prefix-then-substring match.

use vstd::prelude::*;

use crate::chrome_palette::{clamp_selected, spec_clamp};
use crate::chrome::{
    agents_view, attention_view, AgentId, AgentModel, AttentionId, AttentionModel, ChromeSnapshot,
    InspectorMode, LeftPanelMode,
};
use crate::composer::history::clamp_int;
use crate::ids::{PaneId, TabId, WorkspaceId};
use crate::shell::{ShellPaneRow, ShellSnapshot, ShellTabRow, ShellWorkspaceRow, SplitAxis};
use crate::text::{
    chars_of, contains, contains_chars, copy_string, is_prefix, owned, push_str, spec_to_lowercase,
    starts_with_chars, to_lowercase,
};

verus! {

/// Maximum rows projected to the host for one filter result.
pub const PALETTE_VISIBLE_ROWS: usize = 12;

/// A product action the palette can run. Never stored across snapshots;
/// always resolved from the currently selected, currently filtered row.
#[derive(Clone, Debug, PartialEq, Eq)]
pub enum PaletteCommand {
    CreateTab,
    SplitFocused(SplitAxis),
    SwitchWorkspace(WorkspaceId),
    SwitchTab(TabId),
    FocusPane(PaneId),
    SetLeftPanel(LeftPanelMode),
    SetShellVisibility { left: bool, inspector: bool, tab_strip: bool },
    SetInspectorMode(InspectorMode),
    OpenAttention(AttentionId),
    FocusAgent(AgentId),
}

/// Abstract palette command.
pub enum CommandModel {
    CreateTab,
    SplitFocused(SplitAxis),
    SwitchWorkspace(WorkspaceId),
    SwitchTab(TabId),
    FocusPane(PaneId),
    SetLeftPanel(LeftPanelMode),
    SetShellVisibility { left: bool, inspector: bool, tab_strip: bool },
    SetInspectorMode(InspectorMode),
    OpenAttention(Seq<char>),
    FocusAgent(Seq<char>),
}

impl View for PaletteCommand {
    type V = CommandModel;

    open spec fn view(&self) -> CommandModel {
        match self {
            PaletteCommand::CreateTab => CommandModel::CreateTab,
            PaletteCommand::SplitFocused(a) => CommandModel::SplitFocused(*a),
            PaletteCommand::SwitchWorkspace(w) => CommandModel::SwitchWorkspace(*w),
            PaletteCommand::SwitchTab(t) => CommandModel::SwitchTab(*t),
            PaletteCommand::FocusPane(p) => CommandModel::FocusPane(*p),
            PaletteCommand::SetLeftPanel(m) => CommandModel::SetLeftPanel(*m),
            PaletteCommand::SetShellVisibility { left, inspector, tab_strip } =>
                CommandModel::SetShellVisibility {
                left: *left,
                inspector: *inspector,
                tab_strip: *tab_strip,
            },
            PaletteCommand::SetInspectorMode(m) => CommandModel::SetInspectorMode(*m),
            PaletteCommand::OpenAttention(id) => CommandModel::OpenAttention(id@),
            PaletteCommand::FocusAgent(id) => CommandModel::FocusAgent(id@),
        }
    }
}

impl PaletteCommand {
    /// A field-for-field copy.
    pub fn duplicate(&self) -> (r: Self)
        ensures
            r@ == self@,
    {
        match self {
            PaletteCommand::CreateTab => PaletteCommand::CreateTab,
            PaletteCommand::SplitFocused(a) => PaletteCommand::SplitFocused(*a),
            PaletteCommand::SwitchWorkspace(w) => PaletteCommand::SwitchWorkspace(*w),
            PaletteCommand::SwitchTab(t) => PaletteCommand::SwitchTab(*t),
            PaletteCommand::FocusPane(p) => PaletteCommand::FocusPane(*p),
            PaletteCommand::SetLeftPanel(m) => PaletteCommand::SetLeftPanel(*m),
            PaletteCommand::SetShellVisibility { left, inspector, tab_strip } =>
                PaletteCommand::SetShellVisibility {
                left: *left,
                inspector: *inspector,
                tab_strip: *tab_strip,
            },
            PaletteCommand::SetInspectorMode(m) => PaletteCommand::SetInspectorMode(*m),
            PaletteCommand::OpenAttention(id) => PaletteCommand::OpenAttention(id.duplicate()),
            PaletteCommand::FocusAgent(id) => PaletteCommand::FocusAgent(id.duplicate()),
        }
    }
}

/// One enumerated command with its row label and category.
#[derive(Clone, Debug, PartialEq, Eq)]
pub struct PaletteEntry {
    pub label: String,
    pub category: &'static str,
    pub command: PaletteCommand,
}

/// Abstract palette entry.
pub struct EntryModel {
    pub label: Seq<char>,
    pub category: Seq<char>,
    pub command: CommandModel,
}

impl View for PaletteEntry {
    type V = EntryModel;

    open spec fn view(&self) -> EntryModel {
        EntryModel { label: self.label@, category: self.category@, command: self.command@ }
    }
}

impl PaletteEntry {
    /// A field-for-field copy.
    pub fn duplicate(&self) -> (r: Self)
        ensures
            r@ == self@,
    {
        PaletteEntry {
            label: copy_string(&self.label),
            category: self.category,
            command: self.command.duplicate(),
        }
    }
}

/// The abstract entries of a vector of entries.
pub open spec fn entries_view(s: Seq<PaletteEntry>) -> Seq<EntryModel> {
    s.map_values(|e: PaletteEntry| e@)
}

/// An entry from its parts.
pub open spec fn mk_entry(label: Seq<char>, category: Seq<char>, command: CommandModel) -> EntryModel {
    EntryModel { label, category, command }
}

#[derive(Clone, Copy, Debug, PartialEq, Eq, Structural)]
pub enum PaletteError {
    /// A query/move/run/close action arrived while the palette is closed.
    NotOpen,
    /// Run was dispatched with no row at the current selection.
    NoSelection,
}

/// The message text of a palette error.
pub open spec fn spec_palette_error_message(e: PaletteError) -> Seq<char> {
    match e {
        PaletteError::NotOpen => "Command palette is not open."@,
        PaletteError::NoSelection => "No command palette row is selected."@,
    }
}

impl PaletteError {
    /// Human-readable message for the error.
    pub fn message(self) -> (r: &'static str)
        ensures
            r@ == spec_palette_error_message(self),
    {
        match self {
            PaletteError::NotOpen => "Command palette is not open.",
            PaletteError::NoSelection => "No command palette row is selected.",
        }
    }
}

/// Typed host -> palette command.
#[derive(Clone, Debug, PartialEq, Eq)]
pub enum PaletteAction {
    Open,
    SetQuery(String),
    MoveSelection(i32),
    Close,
}

/// One read-only projected row. `category` groups rows in the host overlay.
#[derive(Clone, Debug, PartialEq, Eq)]
pub struct PaletteRow {
    pub label: String,
    pub category: &'static str,
}

/// Read-only projection for native hosts.
#[derive(Clone, Debug, PartialEq, Eq)]
pub struct PaletteSnapshot {
    pub open: bool,
    pub query: String,
    pub selected: usize,
    pub rows: Vec<PaletteRow>,
    pub last_error: Option<PaletteError>,
}

// ---------------------------------------------------------------------------
// Command enumeration.
// ---------------------------------------------------------------------------

/// Label shown for a left-panel mode.
pub open spec fn left_panel_label(mode: LeftPanelMode) -> Seq<char> {
    match mode {
        LeftPanelMode::Workspaces => "Workspaces"@,
        LeftPanelMode::Tabs => "Tabs"@,
    }
}

fn left_panel_label_exec(mode: LeftPanelMode) -> (r: &'static str)
    ensures
        r@ == left_panel_label(mode),
{
    match mode {
        LeftPanelMode::Workspaces => "Workspaces",
        LeftPanelMode::Tabs => "Tabs",
    }
}

/// Label shown for an inspector mode.
pub open spec fn inspector_mode_label(mode: InspectorMode) -> Seq<char> {
    match mode {
        InspectorMode::Context => "Context"@,
        InspectorMode::Workspace => "Workspace"@,
        InspectorMode::Tab => "Tab"@,
        InspectorMode::Pane => "Pane"@,
        InspectorMode::Blocks => "Block"@,
    }
}

fn inspector_mode_label_exec(mode: InspectorMode) -> (r: &'static str)
    ensures
        r@ == inspector_mode_label(mode),
{
    match mode {
        InspectorMode::Context => "Context",
        InspectorMode::Workspace => "Workspace",
        InspectorMode::Tab => "Tab",
        InspectorMode::Pane => "Pane",
        InspectorMode::Blocks => "Block",
    }
}

/// Switch entries for every Workspace but the active one.
pub open spec fn workspace_entries(rows: Seq<ShellWorkspaceRow>, active: WorkspaceId) -> Seq<
    EntryModel,
>
    decreases rows.len(),
{
    if rows.len() == 0 {
        Seq::empty()
    } else {
        let prev = workspace_entries(rows.drop_last(), active);
        let r = rows.last();
        if r.id == active {
            prev
        } else {
            prev.push(
                mk_entry(
                    "Switch to Workspace: "@ + r.name@,
                    "Workspace"@,
                    CommandModel::SwitchWorkspace(r.id),
                ),
            )
        }
    }
}

/// Switch entries for every Tab but the active one.
pub open spec fn tab_entries(rows: Seq<ShellTabRow>, active: TabId) -> Seq<EntryModel>
    decreases rows.len(),
{
    if rows.len() == 0 {
        Seq::empty()
    } else {
        let prev = tab_entries(rows.drop_last(), active);
        let r = rows.last();
        if r.id == active {
            prev
        } else {
            prev.push(mk_entry("Switch to Tab: "@ + r.title@, "Tab"@, CommandModel::SwitchTab(r.id)))
        }
    }
}

/// Focus entries for every Pane but the focused one.
pub open spec fn pane_entries(rows: Seq<ShellPaneRow>, focused: PaneId) -> Seq<EntryModel>
    decreases rows.len(),
{
    if rows.len() == 0 {
        Seq::empty()
    } else {
        let prev = pane_entries(rows.drop_last(), focused);
        let r = rows.last();
        if r.id == focused {
            prev
        } else {
            prev.push(mk_entry("Focus Pane: "@ + r.title@, "Pane"@, CommandModel::FocusPane(r.id)))
        }
    }
}

/// Inspector-mode entries for each of `modes` but the current one.
pub open spec fn mode_entries(modes: Seq<InspectorMode>, current: InspectorMode) -> Seq<EntryModel>
    decreases modes.len(),
{
    if modes.len() == 0 {
        Seq::empty()
    } else {
        let prev = mode_entries(modes.drop_last(), current);
        let m = modes.last();
        if m == current {
            prev
        } else {
            prev.push(
                mk_entry(
                    "Inspector: "@ + inspector_mode_label(m),
                    "View"@,
                    CommandModel::SetInspectorMode(m),
                ),
            )
        }
    }
}

/// The inspector modes the palette offers; Blocks is entered only by
/// selecting a Block.
pub open spec fn offered_modes() -> Seq<InspectorMode> {
    seq![InspectorMode::Context, InspectorMode::Workspace, InspectorMode::Tab, InspectorMode::Pane]
}

/// One entry per attention item.
pub open spec fn attention_entries(items: Seq<AttentionModel>) -> Seq<EntryModel>
    decreases items.len(),
{
    if items.len() == 0 {
        Seq::empty()
    } else {
        attention_entries(items.drop_last()).push(
            mk_entry(
                "Attention: "@ + items.last().title,
                "Attention"@,
                CommandModel::OpenAttention(items.last().id),
            ),
        )
    }
}

/// One entry per agent but the selected one.
pub open spec fn agent_entries(agents: Seq<AgentModel>, selected: Option<Seq<char>>) -> Seq<
    EntryModel,
>
    decreases agents.len(),
{
    if agents.len() == 0 {
        Seq::empty()
    } else {
        let prev = agent_entries(agents.drop_last(), selected);
        let a = agents.last();
        if selected == Some(a.id) {
            prev
        } else {
            prev.push(mk_entry("Focus Agent: "@ + a.name, "Agent"@, CommandModel::FocusAgent(a.id)))
        }
    }
}

/// The left-panel mode other than `mode`.
pub open spec fn other_left_panel(mode: LeftPanelMode) -> LeftPanelMode {
    match mode {
        LeftPanelMode::Workspaces => LeftPanelMode::Tabs,
        LeftPanelMode::Tabs => LeftPanelMode::Workspaces,
    }
}

/// The View entries: the other left-panel mode, then the three region toggles.
pub open spec fn view_entries(c: ChromeSnapshot) -> Seq<EntryModel> {
    let other = other_left_panel(c.left_panel);
    seq![
        mk_entry(
            "Show "@ + left_panel_label(other) + " in Left Panel"@,
            "View"@,
            CommandModel::SetLeftPanel(other),
        ),
        mk_entry(
            if c.left_visible {
                "Hide Left Panel"@
            } else {
                "Show Left Panel"@
            },
            "View"@,
            CommandModel::SetShellVisibility {
                left: !c.left_visible,
                inspector: c.inspector_visible,
                tab_strip: c.tab_strip_visible,
            },
        ),
        mk_entry(
            if c.inspector_visible {
                "Hide Inspector"@
            } else {
                "Show Inspector"@
            },
            "View"@,
            CommandModel::SetShellVisibility {
                left: c.left_visible,
                inspector: !c.inspector_visible,
                tab_strip: c.tab_strip_visible,
            },
        ),
        mk_entry(
            if c.tab_strip_visible {
                "Hide Tab Strip"@
            } else {
                "Show Tab Strip"@
            },
            "View"@,
            CommandModel::SetShellVisibility {
                left: c.left_visible,
                inspector: c.inspector_visible,
                tab_strip: !c.tab_strip_visible,
            },
        ),
    ]
}

/// The Navigation entries allowed by shell policy.
pub open spec fn navigation_entries(allows_tab_creation: bool, allows_pane_splitting: bool) -> Seq<
    EntryModel,
> {
    let tab = if allows_tab_creation {
        seq![mk_entry("New Tab"@, "Navigation"@, CommandModel::CreateTab)]
    } else {
        Seq::empty()
    };
    let split = if allows_pane_splitting {
        seq![
            mk_entry("Split Pane Right"@, "Navigation"@, CommandModel::SplitFocused(SplitAxis::Right)),
            mk_entry("Split Pane Down"@, "Navigation"@, CommandModel::SplitFocused(SplitAxis::Down)),
        ]
    } else {
        Seq::empty()
    };
    tab + split
}

/// Every currently available command, in category order. A command whose
/// effect would be a no-op against the current state (the active
/// Workspace/Tab, the focused Pane, the current inspector mode, the selected
/// agent) is omitted.
pub open spec fn spec_build_commands(
    shell: ShellSnapshot,
    chrome: ChromeSnapshot,
    allows_tab_creation: bool,
    allows_pane_splitting: bool,
) -> Seq<EntryModel> {
    navigation_entries(allows_tab_creation, allows_pane_splitting) + workspace_entries(
        shell.workspaces@,
        shell.active_workspace,
    ) + tab_entries(shell.tabs@, shell.active_tab) + pane_entries(shell.panes@, shell.focused_pane)
        + view_entries(chrome) + mode_entries(offered_modes(), chrome.inspector_mode)
        + attention_entries(attention_view(chrome.attention_items@)) + agent_entries(
        agents_view(chrome.agents@),
        crate::chrome::opt_agent_view(chrome.selected_agent),
    )
}

fn prefixed(prefix: &str, tail: &String) -> (r: String)
    ensures
        r@ == prefix@ + tail@,
{
    let mut s = owned(prefix);
    push_str(&mut s, tail.as_str());
    s
}

fn entry(label: String, category: &'static str, command: PaletteCommand) -> (r: PaletteEntry)
    ensures
        r@ == mk_entry(label@, category@, command@),
{
    PaletteEntry { label, category, command }
}

fn push_workspace_entries(entries: &mut Vec<PaletteEntry>, shell: &ShellSnapshot)
    ensures
        entries_view(final(entries)@) == entries_view(old(entries)@) + workspace_entries(
            shell.workspaces@,
            shell.active_workspace,
        ),
{
    let ghost start = entries_view(entries@);
    let rows = &shell.workspaces;
    let mut i: usize = 0;
    while i < rows.len()
        invariant
            0 <= i <= rows@.len(),
            entries_view(entries@) == start + workspace_entries(
                rows@.subrange(0, i as int),
                shell.active_workspace,
            ),
        decreases rows@.len() - i,
    {
        assert(rows@.subrange(0, i + 1).drop_last() =~= rows@.subrange(0, i as int));
        let r = &rows[i];
        if r.id != shell.active_workspace {
            let ghost before = entries@;
            entries.push(
                entry(
                    prefixed("Switch to Workspace: ", &r.name),
                    "Workspace",
                    PaletteCommand::SwitchWorkspace(r.id),
                ),
            );
            assert(entries_view(entries@) =~= entries_view(before).push(entries@.last()@));
        }
        i = i + 1;
    }
    assert(rows@.subrange(0, rows@.len() as int) =~= rows@);
}

fn push_tab_entries(entries: &mut Vec<PaletteEntry>, shell: &ShellSnapshot)
    ensures
        entries_view(final(entries)@) == entries_view(old(entries)@) + tab_entries(
            shell.tabs@,
            shell.active_tab,
        ),
{
    let ghost start = entries_view(entries@);
    let rows = &shell.tabs;
    let mut i: usize = 0;
    while i < rows.len()
        invariant
            0 <= i <= rows@.len(),
            entries_view(entries@) == start + tab_entries(rows@.subrange(0, i as int), shell.active_tab),
        decreases rows@.len() - i,
    {
        assert(rows@.subrange(0, i + 1).drop_last() =~= rows@.subrange(0, i as int));
        let r = &rows[i];
        if r.id != shell.active_tab {
            let ghost before = entries@;
            entries.push(
                entry(prefixed("Switch to Tab: ", &r.title), "Tab", PaletteCommand::SwitchTab(r.id)),
            );
            assert(entries_view(entries@) =~= entries_view(before).push(entries@.last()@));
        }
        i = i + 1;
    }
    assert(rows@.subrange(0, rows@.len() as int) =~= rows@);
}

fn push_pane_entries(entries: &mut Vec<PaletteEntry>, shell: &ShellSnapshot)
    ensures
        entries_view(final(entries)@) == entries_view(old(entries)@) + pane_entries(
            shell.panes@,
            shell.focused_pane,
        ),
{
    let ghost start = entries_view(entries@);
    let rows = &shell.panes;
    let mut i: usize = 0;
    while i < rows.len()
        invariant
            0 <= i <= rows@.len(),
            entries_view(entries@) == start + pane_entries(
                rows@.subrange(0, i as int),
                shell.focused_pane,
            ),
        decreases rows@.len() - i,
    {
        assert(rows@.subrange(0, i + 1).drop_last() =~= rows@.subrange(0, i as int));
        let r = &rows[i];
        if r.id != shell.focused_pane {
            let ghost before = entries@;
            entries.push(
                entry(prefixed("Focus Pane: ", &r.title), "Pane", PaletteCommand::FocusPane(r.id)),
            );
            assert(entries_view(entries@) =~= entries_view(before).push(entries@.last()@));
        }
        i = i + 1;
    }
    assert(rows@.subrange(0, rows@.len() as int) =~= rows@);
}

fn push_mode_entries(entries: &mut Vec<PaletteEntry>, current: InspectorMode)
    ensures
        entries_view(final(entries)@) == entries_view(old(entries)@) + mode_entries(
            offered_modes(),
            current,
        ),
{
    let ghost start = entries_view(entries@);
    let modes = vec![
        InspectorMode::Context,
        InspectorMode::Workspace,
        InspectorMode::Tab,
        InspectorMode::Pane,
    ];
    assert(modes@ =~= offered_modes());
    let mut i: usize = 0;
    while i < modes.len()
        invariant
            0 <= i <= modes@.len(),
            modes@ == offered_modes(),
            entries_view(entries@) == start + mode_entries(modes@.subrange(0, i as int), current),
        decreases modes@.len() - i,
    {
        assert(modes@.subrange(0, i + 1).drop_last() =~= modes@.subrange(0, i as int));
        let mode = modes[i];
        if mode != current {
            let ghost before = entries@;
            let mut label = owned("Inspector: ");
            push_str(&mut label, inspector_mode_label_exec(mode));
            entries.push(entry(label, "View", PaletteCommand::SetInspectorMode(mode)));
            assert(entries_view(entries@) =~= entries_view(before).push(entries@.last()@));
        }
        i = i + 1;
    }
    assert(modes@.subrange(0, modes@.len() as int) =~= modes@);
}

fn push_attention_entries(entries: &mut Vec<PaletteEntry>, chrome: &ChromeSnapshot)
    ensures
        entries_view(final(entries)@) == entries_view(old(entries)@) + attention_entries(
            attention_view(chrome.attention_items@),
        ),
{
    let ghost start = entries_view(entries@);
    let items = &chrome.attention_items;
    let ghost all = attention_view(items@);
    let mut i: usize = 0;
    while i < items.len()
        invariant
            0 <= i <= items@.len(),
            all == attention_view(items@),
            entries_view(entries@) == start + attention_entries(all.subrange(0, i as int)),
        decreases items@.len() - i,
    {
        assert(all.subrange(0, i + 1).drop_last() =~= all.subrange(0, i as int));
        assert(all.subrange(0, i + 1).last() == items@[i as int]@);
        let item = &items[i];
        let ghost before = entries@;
        entries.push(
            entry(
                prefixed("Attention: ", &item.title),
                "Attention",
                PaletteCommand::OpenAttention(item.id.duplicate()),
            ),
        );
        assert(entries_view(entries@) =~= entries_view(before).push(entries@.last()@));
        i = i + 1;
    }
    assert(all.subrange(0, all.len() as int) =~= all);
}

fn push_agent_entries(entries: &mut Vec<PaletteEntry>, chrome: &ChromeSnapshot)
    ensures
        entries_view(final(entries)@) == entries_view(old(entries)@) + agent_entries(
            agents_view(chrome.agents@),
            crate::chrome::opt_agent_view(chrome.selected_agent),
        ),
{
    let ghost start = entries_view(entries@);
    let agents = &chrome.agents;
    let ghost all = agents_view(agents@);
    let ghost selected = crate::chrome::opt_agent_view(chrome.selected_agent);
    let mut i: usize = 0;
    while i < agents.len()
        invariant
            0 <= i <= agents@.len(),
            all == agents_view(agents@),
            selected == crate::chrome::opt_agent_view(chrome.selected_agent),
            entries_view(entries@) == start + agent_entries(all.subrange(0, i as int), selected),
        decreases agents@.len() - i,
    {
        assert(all.subrange(0, i + 1).drop_last() =~= all.subrange(0, i as int));
        assert(all.subrange(0, i + 1).last() == agents@[i as int]@);
        let agent = &agents[i];
        let is_selected = match &chrome.selected_agent {
            Some(s) => s.same(&agent.id),
            None => false,
        };
        if !is_selected {
            let ghost before = entries@;
            entries.push(
                entry(
                    prefixed("Focus Agent: ", &agent.name),
                    "Agent",
                    PaletteCommand::FocusAgent(agent.id.duplicate()),
                ),
            );
            assert(entries_view(entries@) =~= entries_view(before).push(entries@.last()@));
        }
        i = i + 1;
    }
    assert(all.subrange(0, all.len() as int) =~= all);
}

/// Enumerate currently available palette commands from authoritative state.
pub fn build_commands(
    shell: &ShellSnapshot,
    chrome: &ChromeSnapshot,
    allows_tab_creation: bool,
    allows_pane_splitting: bool,
) -> (r: Vec<PaletteEntry>)
    ensures
        entries_view(r@) == spec_build_commands(
            *shell,
            *chrome,
            allows_tab_creation,
            allows_pane_splitting,
        ),
{
    let mut entries: Vec<PaletteEntry> = Vec::new();
    if allows_tab_creation {
        entries.push(entry(owned("New Tab"), "Navigation", PaletteCommand::CreateTab));
    }
    if allows_pane_splitting {
        entries.push(
            entry(
                owned("Split Pane Right"),
                "Navigation",
                PaletteCommand::SplitFocused(SplitAxis::Right),
            ),
        );
        entries.push(
            entry(
                owned("Split Pane Down"),
                "Navigation",
                PaletteCommand::SplitFocused(SplitAxis::Down),
            ),
        );
    }
    assert(entries_view(entries@) =~= navigation_entries(allows_tab_creation, allows_pane_splitting));
    push_workspace_entries(&mut entries, shell);
    push_tab_entries(&mut entries, shell);
    push_pane_entries(&mut entries, shell);
    let ghost before_view = entries_view(entries@);
    let other = match chrome.left_panel {
        LeftPanelMode::Workspaces => LeftPanelMode::Tabs,
        LeftPanelMode::Tabs => LeftPanelMode::Workspaces,
    };
    let mut label = owned("Show ");
    push_str(&mut label, left_panel_label_exec(other));
    push_str(&mut label, " in Left Panel");
    entries.push(entry(label, "View", PaletteCommand::SetLeftPanel(other)));
    entries.push(
        entry(
            if chrome.left_visible {
                owned("Hide Left Panel")
            } else {
                owned("Show Left Panel")
            },
            "View",
            PaletteCommand::SetShellVisibility {
                left: !chrome.left_visible,
                inspector: chrome.inspector_visible,
                tab_strip: chrome.tab_strip_visible,
            },
        ),
    );
    entries.push(
        entry(
            if chrome.inspector_visible {
                owned("Hide Inspector")
            } else {
                owned("Show Inspector")
            },
            "View",
            PaletteCommand::SetShellVisibility {
                left: chrome.left_visible,
                inspector: !chrome.inspector_visible,
                tab_strip: chrome.tab_strip_visible,
            },
        ),
    );
    entries.push(
        entry(
            if chrome.tab_strip_visible {
                owned("Hide Tab Strip")
            } else {
                owned("Show Tab Strip")
            },
            "View",
            PaletteCommand::SetShellVisibility {
                left: chrome.left_visible,
                inspector: chrome.inspector_visible,
                tab_strip: !chrome.tab_strip_visible,
            },
        ),
    );
    assert(entries_view(entries@) =~= before_view + view_entries(*chrome));
    push_mode_entries(&mut entries, chrome.inspector_mode);
    push_attention_entries(&mut entries, chrome);
    push_agent_entries(&mut entries, chrome);
    entries
}

// ---------------------------------------------------------------------------
// Filtering.
// ---------------------------------------------------------------------------

/// Match strength. Prefix sorts before Substring.
#[derive(Clone, Copy, Debug, PartialEq, Eq, Structural)]
pub enum MatchClass {
    Prefix,
    Substring,
}

/// How a lower-cased label matches a lower-cased query: an empty query or a
/// prefix is a Prefix match, any other occurrence a Substring match.
pub open spec fn palette_class(q: Seq<char>, label: Seq<char>) -> Option<MatchClass> {
    if q.len() == 0 {
        Some(MatchClass::Prefix)
    } else if is_prefix(q, label) {
        Some(MatchClass::Prefix)
    } else if contains(label, q) {
        Some(MatchClass::Substring)
    } else {
        None
    }
}

/// Entries whose lower-cased label matches `q` with class `c`.
pub open spec fn has_class(q: Seq<char>, c: MatchClass) -> spec_fn(EntryModel) -> bool {
    |e: EntryModel| palette_class(q, spec_to_lowercase(e.label)) == Some(c)
}

/// The filtered rows for `query`: prefix matches, then substring matches,
/// each in enumeration order, bounded to `PALETTE_VISIBLE_ROWS`.
pub open spec fn spec_palette_filter(entries: Seq<EntryModel>, query: Seq<char>) -> Seq<EntryModel> {
    let q = spec_to_lowercase(query);
    let all = entries.filter(has_class(q, MatchClass::Prefix)) + entries.filter(
        has_class(q, MatchClass::Substring),
    );
    all.take(
        if all.len() < PALETTE_VISIBLE_ROWS {
            all.len() as int
        } else {
            PALETTE_VISIBLE_ROWS as int
        },
    )
}

fn classify(q: &Vec<char>, label: &str) -> (r: Option<MatchClass>)
    ensures
        r == palette_class(q@, spec_to_lowercase(label@)),
{
    if q.len() == 0 {
        return Some(MatchClass::Prefix);
    }
    let lowered = to_lowercase(label);
    let l = chars_of(lowered.as_str());
    if starts_with_chars(l.as_slice(), q.as_slice()) {
        return Some(MatchClass::Prefix);
    }
    if contains_chars(l.as_slice(), q.as_slice()) {
        return Some(MatchClass::Substring);
    }
    None
}

fn collect_class(entries: &Vec<PaletteEntry>, q: &Vec<char>, class: MatchClass) -> (r: Vec<PaletteEntry>)
    ensures
        entries_view(r@) == entries_view(entries@).filter(has_class(q@, class)),
{
    let ghost all = entries_view(entries@);
    let ghost pred = has_class(q@, class);
    let mut out: Vec<PaletteEntry> = Vec::new();
    let mut i: usize = 0;
    while i < entries.len()
        invariant
            0 <= i <= entries@.len(),
            all == entries_view(entries@),
            pred == has_class(q@, class),
            entries_view(out@) == all.subrange(0, i as int).filter(pred),
        decreases entries@.len() - i,
    {
        proof {
            reveal(Seq::filter);
            assert(all.subrange(0, i + 1).drop_last() =~= all.subrange(0, i as int));
            assert(all.subrange(0, i + 1).last() == entries@[i as int]@);
        }
        let c = classify(q, entries[i].label.as_str());
        if c == Some(class) {
            let ghost before = out@;
            out.push(entries[i].duplicate());
            assert(entries_view(out@) =~= entries_view(before).push(entries@[i as int]@));
        }
        i = i + 1;
    }
    assert(all.subrange(0, entries@.len() as int) =~= all);
    out
}

/// Case-insensitive prefix-then-substring filter, bounded to the visible rows.
pub fn filter(entries: &Vec<PaletteEntry>, query: &str) -> (r: Vec<PaletteEntry>)
    ensures
        entries_view(r@) == spec_palette_filter(entries_view(entries@), query@),
{
    let lowered = to_lowercase(query);
    let q = chars_of(lowered.as_str());
    let prefix = collect_class(entries, &q, MatchClass::Prefix);
    let substring = collect_class(entries, &q, MatchClass::Substring);
    let ghost all = entries_view(prefix@) + entries_view(substring@);
    let mut out: Vec<PaletteEntry> = Vec::new();
    let mut i: usize = 0;
    while i < prefix.len() && i < PALETTE_VISIBLE_ROWS
        invariant
            0 <= i <= prefix@.len(),
            i <= PALETTE_VISIBLE_ROWS,
            all == entries_view(prefix@) + entries_view(substring@),
            out@.len() == i,
            entries_view(out@) == all.take(i as int),
        decreases prefix@.len() - i,
    {
        let ghost before = out@;
        out.push(prefix[i].duplicate());
        assert(all[i as int] == prefix@[i as int]@);
        assert(entries_view(out@) =~= entries_view(before).push(prefix@[i as int]@));
        assert(entries_view(out@) =~= all.take(i + 1));
        i = i + 1;
    }
    let mut j: usize = 0;
    while j < substring.len() && out.len() < PALETTE_VISIBLE_ROWS
        invariant
            0 <= j <= substring@.len(),
            out@.len() <= PALETTE_VISIBLE_ROWS,
            all == entries_view(prefix@) + entries_view(substring@),
            (out@.len() < PALETTE_VISIBLE_ROWS && j > 0) ==> out@.len() == prefix@.len() + j,
            out@.len() < PALETTE_VISIBLE_ROWS ==> out@.len() == prefix@.len() + j,
            out@.len() <= all.len(),
            entries_view(out@) == all.take(out@.len() as int),
        decreases substring@.len() - j,
    {
        let ghost k: int = out@.len() as int;
        let ghost before = out@;
        out.push(substring[j].duplicate());
        assert(entries_view(out@) =~= entries_view(before).push(substring@[j as int]@));
        assert(all[k] == substring@[j as int]@);
        assert(entries_view(out@) =~= all.take(k + 1));
        j = j + 1;
    }
    assert(entries_view(out@) =~= spec_palette_filter(entries_view(entries@), query@));
    out
}

// ---------------------------------------------------------------------------
// Palette state.
// ---------------------------------------------------------------------------

/// Authoritative global command-palette state.
#[derive(Clone, Debug)]
pub struct PaletteState {
    open: bool,
    query: String,
    selected: usize,
    last_error: Option<PaletteError>,
}

/// Abstract palette state.
pub struct PaletteModel {
    pub open: bool,
    pub query: Seq<char>,
    pub selected: usize,
    pub last_error: Option<PaletteError>,
}

impl View for PaletteState {
    type V = PaletteModel;

    closed spec fn view(&self) -> PaletteModel {
        PaletteModel {
            open: self.open,
            query: self.query@,
            selected: self.selected,
            last_error: self.last_error,
        }
    }
}

/// The closed palette with no query, no selection and no error.
pub open spec fn closed_palette() -> PaletteModel {
    PaletteModel { open: false, query: Seq::empty(), selected: 0, last_error: None }
}

/// What one palette action does: its result and the state after it.
pub open spec fn spec_palette_apply(
    o: PaletteModel,
    n: PaletteModel,
    action: PaletteAction,
    row_count: usize,
    r: Result<(), PaletteError>,
) -> bool {
    let base = PaletteModel { last_error: None, ..o };
    match action {
        PaletteAction::Open => r is Ok && n == if o.open {
            base
        } else {
            PaletteModel { open: true, query: Seq::empty(), selected: 0, ..base }
        },
        PaletteAction::SetQuery(q) => if !o.open {
            r == Err::<(), PaletteError>(PaletteError::NotOpen) && n == PaletteModel {
                last_error: Some(PaletteError::NotOpen),
                ..o
            }
        } else {
            r is Ok && n == if o.query == q@ {
                base
            } else {
                PaletteModel { query: q@, selected: 0, ..base }
            }
        },
        PaletteAction::MoveSelection(delta) => if !o.open {
            r == Err::<(), PaletteError>(PaletteError::NotOpen) && n == PaletteModel {
                last_error: Some(PaletteError::NotOpen),
                ..o
            }
        } else {
            r is Ok && n == PaletteModel {
                selected: if row_count == 0 {
                    0
                } else {
                    clamp_int(o.selected + delta, 0, row_count - 1) as usize
                },
                ..base
            }
        },
        PaletteAction::Close => r is Ok && n == PaletteModel {
            open: false,
            query: Seq::empty(),
            selected: 0,
            ..base
        },
    }
}

/// The snapshot rows show each filtered entry's label and category.
pub open spec fn rows_show(rows: Seq<PaletteRow>, entries: Seq<EntryModel>) -> bool {
    rows.len() == entries.len() && forall|i: int|
        0 <= i < rows.len() ==> (#[trigger] rows[i]).label@ == entries[i].label
            && rows[i].category@ == entries[i].category
}

impl Default for PaletteState {
    fn default() -> (r: Self)
        ensures
            r@ == closed_palette(),
    {
        PaletteState::new()
    }
}

impl PaletteState {
    pub fn new() -> (r: Self)
        ensures
            r@ == closed_palette(),
    {
        PaletteState { open: false, query: String::new(), selected: 0, last_error: None }
    }

    pub fn is_open(&self) -> (r: bool)
        ensures
            r == self@.open,
    {
        self.open
    }

    pub fn query(&self) -> (r: &str)
        ensures
            r@ == self@.query,
    {
        self.query.as_str()
    }

    /// Apply a palette action. `row_count` is the filtered row count at the
    /// moment of the call; only `MoveSelection` uses it.
    pub fn apply(&mut self, action: PaletteAction, row_count: usize) -> (r: Result<(), PaletteError>)
        ensures
            spec_palette_apply(old(self)@, final(self)@, action, row_count, r),
    {
        self.last_error = None;
        match action {
            PaletteAction::Open => {
                if !self.open {
                    self.open = true;
                    self.query = String::new();
                    self.selected = 0;
                }
                Ok(())
            },
            PaletteAction::SetQuery(query) => {
                if !self.open {
                    return self.fail(PaletteError::NotOpen);
                }
                if self.query != query {
                    self.query = query;
                    self.selected = 0;
                }
                Ok(())
            },
            PaletteAction::MoveSelection(delta) => {
                if !self.open {
                    return self.fail(PaletteError::NotOpen);
                }
                if row_count == 0 {
                    self.selected = 0;
                    return Ok(());
                }
                let last = (row_count - 1) as i128;
                let next = self.selected as i128 + delta as i128;
                let clamped = if next < 0 {
                    0
                } else if next > last {
                    last
                } else {
                    next
                };
                self.selected = clamped as usize;
                Ok(())
            },
            PaletteAction::Close => {
                self.close();
                Ok(())
            },
        }
    }

    /// Close without going through `apply`; used after a successful run.
    pub fn close(&mut self)
        ensures
            final(self)@ == (PaletteModel {
                open: false,
                query: Seq::empty(),
                selected: 0,
                ..old(self)@
            }),
    {
        self.open = false;
        self.query = String::new();
        self.selected = 0;
    }

    fn fail(&mut self, error: PaletteError) -> (r: Result<(), PaletteError>)
        ensures
            r == Err::<(), PaletteError>(error),
            final(self)@ == (PaletteModel { last_error: Some(error), ..old(self)@ }),
    {
        self.last_error = Some(error);
        Err(error)
    }

    /// Project the palette. Shell policy flags are passed through so a
    /// command that would deterministically fail is never shown.
    pub fn snapshot(
        &self,
        shell: &ShellSnapshot,
        chrome: &ChromeSnapshot,
        allows_tab_creation: bool,
        allows_pane_splitting: bool,
    ) -> (r: PaletteSnapshot)
        ensures
            r.last_error == self@.last_error,
            r.open == self@.open,
            !self@.open ==> r.query@.len() == 0 && r.selected == 0 && r.rows@.len() == 0,
            self@.open ==> ({
                let f = spec_palette_filter(
                    spec_build_commands(*shell, *chrome, allows_tab_creation, allows_pane_splitting),
                    self@.query,
                );
                &&& r.query@ == self@.query
                &&& r.selected == spec_clamp(self@.selected, f.len() as usize)
                &&& rows_show(r.rows@, f)
            }),
    {
        if !self.open {
            return PaletteSnapshot {
                open: false,
                query: String::new(),
                selected: 0,
                rows: Vec::new(),
                last_error: self.last_error,
            };
        }
        let commands = build_commands(shell, chrome, allows_tab_creation, allows_pane_splitting);
        let filtered = filter(&commands, self.query.as_str());
        let selected = clamp_selected(self.selected, filtered.len());
        let ghost f = entries_view(filtered@);
        let mut rows: Vec<PaletteRow> = Vec::new();
        let mut i: usize = 0;
        while i < filtered.len()
            invariant
                0 <= i <= filtered@.len(),
                f == entries_view(filtered@),
                rows@.len() == i,
                forall|j: int|
                    0 <= j < i ==> (#[trigger] rows@[j]).label@ == f[j].label && rows@[j].category@
                        == f[j].category,
            decreases filtered@.len() - i,
        {
            rows.push(
                PaletteRow {
                    label: copy_string(&filtered[i].label),
                    category: filtered[i].category,
                },
            );
            i = i + 1;
        }
        PaletteSnapshot {
            open: true,
            query: copy_string(&self.query),
            selected,
            rows,
            last_error: self.last_error,
        }
    }

    /// The command bound to the current selection, or `None` while closed or
    /// with no matching row. Always resolved against a fresh command list.
    pub fn resolve(
        &self,
        shell: &ShellSnapshot,
        chrome: &ChromeSnapshot,
        allows_tab_creation: bool,
        allows_pane_splitting: bool,
    ) -> (r: Option<PaletteCommand>)
        ensures
            ({
                let f = spec_palette_filter(
                    spec_build_commands(*shell, *chrome, allows_tab_creation, allows_pane_splitting),
                    self@.query,
                );
                if !self@.open || f.len() == 0 {
                    r is None
                } else {
                    r matches Some(c) && c@ == f[spec_clamp(self@.selected, f.len() as usize) as int].command
                }
            }),
    {
        if !self.open {
            return None;
        }
        let commands = build_commands(shell, chrome, allows_tab_creation, allows_pane_splitting);
        let filtered = filter(&commands, self.query.as_str());
        let index = clamp_selected(self.selected, filtered.len());
        if index < filtered.len() {
            Some(filtered[index].command.duplicate())
        } else {
            None
        }
    }
}

} // verus!
