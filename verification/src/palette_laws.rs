//! Laws of the palette's command list: what `build_commands` offers follows
//! shell policy, leaves out every no-op, offers one row per reachable target,
//! and, where the targets have distinct ids, never offers a command twice.

use vstd::prelude::*;

use crate::chrome::{agents_view, attention_view, AgentModel, AttentionModel, InspectorMode};
use crate::palette::{
    has_class, spec_palette_filter, MatchClass, PALETTE_VISIBLE_ROWS, navigation_entries, view_entries, agent_entries, attention_entries, inspector_mode_label, mk_entry, mode_entries,
    offered_modes, pane_entries, spec_build_commands, tab_entries, workspace_entries,
    CommandModel, EntryModel,
};
use crate::shell::{ShellPaneRow, ShellSnapshot, ShellTabRow, ShellWorkspaceRow, SplitAxis};
use crate::chrome::{opt_agent_view, ChromeSnapshot};
use crate::ids::{PaneId, TabId, WorkspaceId};
use crate::text::{contains, is_prefix, spec_to_lowercase};

verus! {

broadcast use vstd::seq_lib::group_seq_properties;

/// The commands of a list of entries, in order.
pub open spec fn commands_of(s: Seq<EntryModel>) -> Seq<CommandModel> {
    s.map_values(|e: EntryModel| e.command)
}

/// One entry per row that `keep` accepts, in row order.
pub open spec fn kept_entries<T>(
    rows: Seq<T>,
    keep: spec_fn(T) -> bool,
    mk: spec_fn(T) -> EntryModel,
) -> Seq<EntryModel>
    decreases rows.len(),
{
    if rows.len() == 0 {
        Seq::empty()
    } else {
        let prev = kept_entries(rows.drop_last(), keep, mk);
        if keep(rows.last()) {
            prev.push(mk(rows.last()))
        } else {
            prev
        }
    }
}

/// The row from which entry `k` of `kept_entries` is made.
spec fn kept_row<T>(rows: Seq<T>, keep: spec_fn(T) -> bool, mk: spec_fn(T) -> EntryModel, k: int) -> int
    decreases rows.len(),
{
    if rows.len() == 0 {
        0
    } else if keep(rows.last()) && k == kept_entries(rows.drop_last(), keep, mk).len() {
        rows.len() - 1
    } else {
        kept_row(rows.drop_last(), keep, mk, k)
    }
}

/// Every entry of `kept_entries` is made from a kept row.
proof fn lemma_kept_entry_from<T>(
    rows: Seq<T>,
    keep: spec_fn(T) -> bool,
    mk: spec_fn(T) -> EntryModel,
)
    ensures
        forall|k: int|
            #![trigger kept_entries(rows, keep, mk)[k]]
            #![trigger kept_row(rows, keep, mk, k)]
            0 <= k < kept_entries(rows, keep, mk).len() ==> 0 <= kept_row(rows, keep, mk, k)
                < rows.len() && keep(rows[kept_row(rows, keep, mk, k)]) && kept_entries(
                rows,
                keep,
                mk,
            )[k] == mk(rows[kept_row(rows, keep, mk, k)]),
    decreases rows.len(),
{
    if rows.len() > 0 {
        let d = rows.drop_last();
        let prev = kept_entries(d, keep, mk);
        lemma_kept_entry_from(d, keep, mk);
        assert forall|k: int|
            #![trigger kept_entries(rows, keep, mk)[k]]
            #![trigger kept_row(rows, keep, mk, k)]
            0 <= k < kept_entries(rows, keep, mk).len() implies 0 <= kept_row(rows, keep, mk, k)
                < rows.len() && keep(rows[kept_row(rows, keep, mk, k)]) && kept_entries(
                rows,
                keep,
                mk,
            )[k] == mk(rows[kept_row(rows, keep, mk, k)]) by {
            if k < prev.len() {
                let j = kept_row(d, keep, mk, k);
                assert(kept_entries(d, keep, mk)[k] == mk(d[j]));
                assert(rows[j] == d[j]);
                assert(kept_row(rows, keep, mk, k) == j);
            } else {
                assert(keep(rows.last()));
                assert(kept_row(rows, keep, mk, k) == rows.len() - 1);
            }
        }
    }
}

/// Every command of `kept_entries` is made from a kept row.
proof fn lemma_kept_from<T>(rows: Seq<T>, keep: spec_fn(T) -> bool, mk: spec_fn(T) -> EntryModel)
    ensures
        forall|c: CommandModel|
            #[trigger] commands_of(kept_entries(rows, keep, mk)).contains(c) ==> exists|j: int|
                0 <= j < rows.len() && keep(rows[j]) && c == mk(#[trigger] rows[j]).command,
{
    lemma_kept_entry_from(rows, keep, mk);
    let e = kept_entries(rows, keep, mk);
    assert forall|c: CommandModel| #[trigger] commands_of(e).contains(c) implies exists|j: int|
        0 <= j < rows.len() && keep(rows[j]) && c == mk(#[trigger] rows[j]).command by {
        let k = choose|k: int| 0 <= k < commands_of(e).len() && commands_of(e)[k] == c;
        assert(0 <= k < e.len());
        let j = kept_row(rows, keep, mk, k);
        assert(e[k] == mk(rows[j]));
    }
}

/// Every kept row has its entry in `kept_entries`.
proof fn lemma_kept_has<T>(rows: Seq<T>, keep: spec_fn(T) -> bool, mk: spec_fn(T) -> EntryModel)
    ensures
        forall|j: int|
            0 <= j < rows.len() && #[trigger] keep(rows[j]) ==> kept_entries(rows, keep, mk).contains(
                mk(rows[j]),
            ),
    decreases rows.len(),
{
    if rows.len() > 0 {
        let e = kept_entries(rows, keep, mk);
        let d = rows.drop_last();
        let prev = kept_entries(d, keep, mk);
        lemma_kept_has(d, keep, mk);
        let n = rows.len() - 1;
        assert forall|j: int| 0 <= j < rows.len() && #[trigger] keep(rows[j]) implies e.contains(
            mk(rows[j]),
        ) by {
            if j < n {
                assert(d[j] == rows[j]);
                assert(keep(d[j]));
                let k = choose|k: int| 0 <= k < prev.len() && prev[k] == mk(d[j]);
                assert(e[k] == prev[k]);
            } else {
                assert(e[e.len() - 1] == mk(rows[j]));
            }
        }
    }
}

/// Rows whose entries carry distinct commands give a list in which no
/// command repeats.
proof fn lemma_kept_distinct<T>(
    rows: Seq<T>,
    keep: spec_fn(T) -> bool,
    mk: spec_fn(T) -> EntryModel,
)
    requires
        forall|i: int, j: int|
            0 <= i < rows.len() && 0 <= j < rows.len() && i != j && keep(rows[i]) && keep(rows[j])
                ==> #[trigger] mk(rows[i]).command != #[trigger] mk(rows[j]).command,
    ensures
        commands_of(kept_entries(rows, keep, mk)).no_duplicates(),
    decreases rows.len(),
{
    if rows.len() > 0 {
        let e = kept_entries(rows, keep, mk);
        let d = rows.drop_last();
        let prev = kept_entries(d, keep, mk);
        let n = rows.len() - 1;
        assert forall|i: int, j: int|
            0 <= i < d.len() && 0 <= j < d.len() && i != j && keep(d[i]) && keep(d[j]) implies #[trigger] mk(
            d[i],
        ).command != #[trigger] mk(d[j]).command by {
            assert(d[i] == rows[i] && d[j] == rows[j]);
        }
        lemma_kept_distinct(d, keep, mk);
        lemma_kept_entry_from(d, keep, mk);
        if keep(rows.last()) {
            let cp = commands_of(prev);
            let ce = commands_of(e);
            assert(ce =~= cp.push(mk(rows.last()).command));
            assert forall|a: int| 0 <= a < cp.len() implies cp[a] != mk(rows[n]).command by {
                let j = kept_row(d, keep, mk, a);
                assert(prev[a] == mk(d[j]));
                assert(d[j] == rows[j]);
                assert(mk(rows[j]).command != mk(rows[n]).command);
            }
            assert forall|a: int, b: int|
                0 <= a < ce.len() && 0 <= b < ce.len() && a != b implies ce[a] != ce[b] by {
                if a < cp.len() && b < cp.len() {
                    assert(ce[a] == cp[a] && ce[b] == cp[b]);
                } else if a < cp.len() {
                    assert(ce[a] == cp[a]);
                } else if b < cp.len() {
                    assert(ce[b] == cp[b]);
                }
            }
        } else {
            assert(e == prev);
        }
    }
}

// ---------------------------------------------------------------------------
// The rows of each category.
// ---------------------------------------------------------------------------

/// The row that switches to Workspace row `r`.
pub open spec fn workspace_entry(r: ShellWorkspaceRow) -> EntryModel {
    mk_entry("Switch to Workspace: "@ + r.name@, "Workspace"@, CommandModel::SwitchWorkspace(r.id))
}

/// The row that switches to Tab row `r`.
pub open spec fn tab_entry(r: ShellTabRow) -> EntryModel {
    mk_entry("Switch to Tab: "@ + r.title@, "Tab"@, CommandModel::SwitchTab(r.id))
}

/// The row that focuses Pane row `r`.
pub open spec fn pane_entry(r: ShellPaneRow) -> EntryModel {
    mk_entry("Focus Pane: "@ + r.title@, "Pane"@, CommandModel::FocusPane(r.id))
}

/// The row that sets inspector mode `m`.
pub open spec fn mode_entry(m: InspectorMode) -> EntryModel {
    mk_entry("Inspector: "@ + inspector_mode_label(m), "View"@, CommandModel::SetInspectorMode(m))
}

/// The row that opens attention item `a`.
pub open spec fn attention_entry(a: AttentionModel) -> EntryModel {
    mk_entry("Attention: "@ + a.title, "Attention"@, CommandModel::OpenAttention(a.id))
}

/// The row that focuses agent `a`.
pub open spec fn agent_entry(a: AgentModel) -> EntryModel {
    mk_entry("Focus Agent: "@ + a.name, "Agent"@, CommandModel::FocusAgent(a.id))
}

spec fn keep_workspace(active: WorkspaceId) -> spec_fn(ShellWorkspaceRow) -> bool {
    |r: ShellWorkspaceRow| r.id != active
}

spec fn make_workspace() -> spec_fn(ShellWorkspaceRow) -> EntryModel {
    |r: ShellWorkspaceRow| workspace_entry(r)
}

spec fn keep_tab(active: TabId) -> spec_fn(ShellTabRow) -> bool {
    |r: ShellTabRow| r.id != active
}

spec fn make_tab() -> spec_fn(ShellTabRow) -> EntryModel {
    |r: ShellTabRow| tab_entry(r)
}

spec fn keep_pane(focused: PaneId) -> spec_fn(ShellPaneRow) -> bool {
    |r: ShellPaneRow| r.id != focused
}

spec fn make_pane() -> spec_fn(ShellPaneRow) -> EntryModel {
    |r: ShellPaneRow| pane_entry(r)
}

spec fn keep_mode(current: InspectorMode) -> spec_fn(InspectorMode) -> bool {
    |m: InspectorMode| m != current
}

spec fn make_mode() -> spec_fn(InspectorMode) -> EntryModel {
    |m: InspectorMode| mode_entry(m)
}

spec fn keep_attention() -> spec_fn(AttentionModel) -> bool {
    |a: AttentionModel| true
}

spec fn make_attention() -> spec_fn(AttentionModel) -> EntryModel {
    |a: AttentionModel| attention_entry(a)
}

spec fn keep_agent(selected: Option<Seq<char>>) -> spec_fn(AgentModel) -> bool {
    |a: AgentModel| selected != Some(a.id)
}

spec fn make_agent() -> spec_fn(AgentModel) -> EntryModel {
    |a: AgentModel| agent_entry(a)
}

proof fn lemma_workspace_kept(rows: Seq<ShellWorkspaceRow>, active: WorkspaceId)
    ensures
        workspace_entries(rows, active) == kept_entries(rows, keep_workspace(active), make_workspace()),
    decreases rows.len(),
{
    if rows.len() > 0 {
        lemma_workspace_kept(rows.drop_last(), active);
    }
}

proof fn lemma_tab_kept(rows: Seq<ShellTabRow>, active: TabId)
    ensures
        tab_entries(rows, active) == kept_entries(rows, keep_tab(active), make_tab()),
    decreases rows.len(),
{
    if rows.len() > 0 {
        lemma_tab_kept(rows.drop_last(), active);
    }
}

proof fn lemma_pane_kept(rows: Seq<ShellPaneRow>, focused: PaneId)
    ensures
        pane_entries(rows, focused) == kept_entries(rows, keep_pane(focused), make_pane()),
    decreases rows.len(),
{
    if rows.len() > 0 {
        lemma_pane_kept(rows.drop_last(), focused);
    }
}

proof fn lemma_mode_kept(modes: Seq<InspectorMode>, current: InspectorMode)
    ensures
        mode_entries(modes, current) == kept_entries(modes, keep_mode(current), make_mode()),
    decreases modes.len(),
{
    if modes.len() > 0 {
        lemma_mode_kept(modes.drop_last(), current);
    }
}

proof fn lemma_attention_kept(items: Seq<AttentionModel>)
    ensures
        attention_entries(items) == kept_entries(items, keep_attention(), make_attention()),
    decreases items.len(),
{
    if items.len() > 0 {
        lemma_attention_kept(items.drop_last());
    }
}

proof fn lemma_agent_kept(agents: Seq<AgentModel>, selected: Option<Seq<char>>)
    ensures
        agent_entries(agents, selected) == kept_entries(agents, keep_agent(selected), make_agent()),
    decreases agents.len(),
{
    if agents.len() > 0 {
        lemma_agent_kept(agents.drop_last(), selected);
    }
}

/// The category of a command, in the order the palette lists them:
/// navigation, Workspaces, Tabs, Panes, view, inspector modes, attention,
/// agents.
spec fn command_kind(c: CommandModel) -> int {
    match c {
        CommandModel::CreateTab => 0,
        CommandModel::SplitFocused(_) => 1,
        CommandModel::SwitchWorkspace(_) => 2,
        CommandModel::SwitchTab(_) => 3,
        CommandModel::FocusPane(_) => 4,
        CommandModel::SetLeftPanel(_) => 5,
        CommandModel::SetShellVisibility { .. } => 6,
        CommandModel::SetInspectorMode(_) => 7,
        CommandModel::OpenAttention(_) => 8,
        CommandModel::FocusAgent(_) => 9,
    }
}

proof fn lemma_commands_concat(a: Seq<EntryModel>, b: Seq<EntryModel>)
    ensures
        commands_of(a + b) == commands_of(a) + commands_of(b),
{
    assert(commands_of(a + b) =~= commands_of(a) + commands_of(b));
}

proof fn lemma_workspace_facts(rows: Seq<ShellWorkspaceRow>, active: WorkspaceId)
    ensures
        forall|c: CommandModel|
            #[trigger] commands_of(workspace_entries(rows, active)).contains(c) ==> exists|j: int|
                0 <= j < rows.len() && rows[j].id != active && c == CommandModel::SwitchWorkspace(
                    #[trigger] rows[j].id,
                ),
        forall|j: int|
            0 <= j < rows.len() && rows[j].id != active ==> workspace_entries(rows, active).contains(
                workspace_entry(#[trigger] rows[j]),
            ),
        rows.map_values(|r: ShellWorkspaceRow| r.id).no_duplicates() ==> commands_of(
            workspace_entries(rows, active),
        ).no_duplicates(),
{
    let keep = keep_workspace(active);
    let mk = make_workspace();
    lemma_workspace_kept(rows, active);
    lemma_kept_from(rows, keep, mk);
    lemma_kept_has(rows, keep, mk);
    assert forall|j: int| 0 <= j < rows.len() && rows[j].id != active implies workspace_entries(
        rows,
        active,
    ).contains(workspace_entry(#[trigger] rows[j])) by {
        assert(keep(rows[j]));
    }
    let ids = rows.map_values(|r: ShellWorkspaceRow| r.id);
    if ids.no_duplicates() {
        assert forall|i: int, j: int|
            0 <= i < rows.len() && 0 <= j < rows.len() && i != j && keep(rows[i]) && keep(rows[j])
                implies #[trigger] mk(rows[i]).command != #[trigger] mk(rows[j]).command by {
            assert(ids[i] == rows[i].id && ids[j] == rows[j].id);
        }
        lemma_kept_distinct(rows, keep, mk);
    }
}

proof fn lemma_tab_facts(rows: Seq<ShellTabRow>, active: TabId)
    ensures
        forall|c: CommandModel|
            #[trigger] commands_of(tab_entries(rows, active)).contains(c) ==> exists|j: int|
                0 <= j < rows.len() && rows[j].id != active && c == CommandModel::SwitchTab(
                    #[trigger] rows[j].id,
                ),
        forall|j: int|
            0 <= j < rows.len() && rows[j].id != active ==> tab_entries(rows, active).contains(
                tab_entry(#[trigger] rows[j]),
            ),
        rows.map_values(|r: ShellTabRow| r.id).no_duplicates() ==> commands_of(
            tab_entries(rows, active),
        ).no_duplicates(),
{
    let keep = keep_tab(active);
    let mk = make_tab();
    lemma_tab_kept(rows, active);
    lemma_kept_from(rows, keep, mk);
    lemma_kept_has(rows, keep, mk);
    assert forall|j: int| 0 <= j < rows.len() && rows[j].id != active implies tab_entries(
        rows,
        active,
    ).contains(tab_entry(#[trigger] rows[j])) by {
        assert(keep(rows[j]));
    }
    let ids = rows.map_values(|r: ShellTabRow| r.id);
    if ids.no_duplicates() {
        assert forall|i: int, j: int|
            0 <= i < rows.len() && 0 <= j < rows.len() && i != j && keep(rows[i]) && keep(rows[j])
                implies #[trigger] mk(rows[i]).command != #[trigger] mk(rows[j]).command by {
            assert(ids[i] == rows[i].id && ids[j] == rows[j].id);
        }
        lemma_kept_distinct(rows, keep, mk);
    }
}

proof fn lemma_pane_facts(rows: Seq<ShellPaneRow>, focused: PaneId)
    ensures
        forall|c: CommandModel|
            #[trigger] commands_of(pane_entries(rows, focused)).contains(c) ==> exists|j: int|
                0 <= j < rows.len() && rows[j].id != focused && c == CommandModel::FocusPane(
                    #[trigger] rows[j].id,
                ),
        forall|j: int|
            0 <= j < rows.len() && rows[j].id != focused ==> pane_entries(rows, focused).contains(
                pane_entry(#[trigger] rows[j]),
            ),
        rows.map_values(|r: ShellPaneRow| r.id).no_duplicates() ==> commands_of(
            pane_entries(rows, focused),
        ).no_duplicates(),
{
    let keep = keep_pane(focused);
    let mk = make_pane();
    lemma_pane_kept(rows, focused);
    lemma_kept_from(rows, keep, mk);
    lemma_kept_has(rows, keep, mk);
    assert forall|j: int| 0 <= j < rows.len() && rows[j].id != focused implies pane_entries(
        rows,
        focused,
    ).contains(pane_entry(#[trigger] rows[j])) by {
        assert(keep(rows[j]));
    }
    let ids = rows.map_values(|r: ShellPaneRow| r.id);
    if ids.no_duplicates() {
        assert forall|i: int, j: int|
            0 <= i < rows.len() && 0 <= j < rows.len() && i != j && keep(rows[i]) && keep(rows[j])
                implies #[trigger] mk(rows[i]).command != #[trigger] mk(rows[j]).command by {
            assert(ids[i] == rows[i].id && ids[j] == rows[j].id);
        }
        lemma_kept_distinct(rows, keep, mk);
    }
}

proof fn lemma_attention_facts(items: Seq<AttentionModel>)
    ensures
        forall|c: CommandModel|
            #[trigger] commands_of(attention_entries(items)).contains(c) ==> exists|j: int|
                0 <= j < items.len() && c == CommandModel::OpenAttention(#[trigger] items[j].id),
        forall|j: int|
            0 <= j < items.len() ==> attention_entries(items).contains(
                attention_entry(#[trigger] items[j]),
            ),
        items.map_values(|a: AttentionModel| a.id).no_duplicates() ==> commands_of(
            attention_entries(items),
        ).no_duplicates(),
{
    let keep = keep_attention();
    let mk = make_attention();
    lemma_attention_kept(items);
    lemma_kept_from(items, keep, mk);
    lemma_kept_has(items, keep, mk);
    assert forall|j: int| 0 <= j < items.len() implies attention_entries(items).contains(
        attention_entry(#[trigger] items[j]),
    ) by {
        assert(keep(items[j]));
    }
    let ids = items.map_values(|a: AttentionModel| a.id);
    if ids.no_duplicates() {
        assert forall|i: int, j: int|
            0 <= i < items.len() && 0 <= j < items.len() && i != j && keep(items[i]) && keep(items[j])
                implies #[trigger] mk(items[i]).command != #[trigger] mk(items[j]).command by {
            assert(ids[i] == items[i].id && ids[j] == items[j].id);
        }
        lemma_kept_distinct(items, keep, mk);
    }
}

proof fn lemma_agent_facts(agents: Seq<AgentModel>, selected: Option<Seq<char>>)
    ensures
        forall|c: CommandModel|
            #[trigger] commands_of(agent_entries(agents, selected)).contains(c) ==> exists|j: int|
                0 <= j < agents.len() && selected != Some(agents[j].id) && c
                    == CommandModel::FocusAgent(#[trigger] agents[j].id),
        forall|j: int|
            0 <= j < agents.len() && selected != Some(agents[j].id) ==> agent_entries(
                agents,
                selected,
            ).contains(agent_entry(#[trigger] agents[j])),
        agents.map_values(|a: AgentModel| a.id).no_duplicates() ==> commands_of(
            agent_entries(agents, selected),
        ).no_duplicates(),
{
    let keep = keep_agent(selected);
    let mk = make_agent();
    lemma_agent_kept(agents, selected);
    lemma_kept_from(agents, keep, mk);
    lemma_kept_has(agents, keep, mk);
    assert forall|j: int| 0 <= j < agents.len() && selected != Some(agents[j].id) implies agent_entries(
        agents,
        selected,
    ).contains(agent_entry(#[trigger] agents[j])) by {
        assert(keep(agents[j]));
    }
    let ids = agents.map_values(|a: AgentModel| a.id);
    if ids.no_duplicates() {
        assert forall|i: int, j: int|
            0 <= i < agents.len() && 0 <= j < agents.len() && i != j && keep(agents[i]) && keep(
                agents[j],
            ) implies #[trigger] mk(agents[i]).command != #[trigger] mk(agents[j]).command by {
            assert(ids[i] == agents[i].id && ids[j] == agents[j].id);
        }
        lemma_kept_distinct(agents, keep, mk);
    }
}

proof fn lemma_navigation_facts(t: bool, p: bool)
    ensures
        commands_of(navigation_entries(t, p)).contains(CommandModel::CreateTab) == t,
        commands_of(navigation_entries(t, p)).contains(CommandModel::SplitFocused(SplitAxis::Right))
            == p,
        commands_of(navigation_entries(t, p)).contains(CommandModel::SplitFocused(SplitAxis::Down))
            == p,
        forall|c: CommandModel|
            #[trigger] commands_of(navigation_entries(t, p)).contains(c) ==> command_kind(c) <= 1,
        commands_of(navigation_entries(t, p)).no_duplicates(),
{
    let c = commands_of(navigation_entries(t, p));
    let tab = CommandModel::CreateTab;
    let right = CommandModel::SplitFocused(SplitAxis::Right);
    let down = CommandModel::SplitFocused(SplitAxis::Down);
    if t && p {
        assert(c =~= seq![tab, right, down]);
        assert(c[0] == tab && c[1] == right && c[2] == down);
    } else if t {
        assert(c =~= seq![tab]);
        assert(c[0] == tab);
    } else if p {
        assert(c =~= seq![right, down]);
        assert(c[0] == right && c[1] == down);
    } else {
        assert(c =~= Seq::<CommandModel>::empty());
    }
}

proof fn lemma_view_facts(chrome: ChromeSnapshot)
    ensures
        forall|c: CommandModel|
            #[trigger] commands_of(view_entries(chrome)).contains(c) ==> command_kind(c) == 5
                || command_kind(c) == 6,
        commands_of(view_entries(chrome)).no_duplicates(),
{
    let c = commands_of(view_entries(chrome));
    assert(c.len() == 4);
    assert forall|x: CommandModel| #[trigger] c.contains(x) implies command_kind(x) == 5
        || command_kind(x) == 6 by {
        let k = choose|k: int| 0 <= k < c.len() && c[k] == x;
        assert(0 <= k < 4);
    }
    assert forall|a: int, b: int| 0 <= a < c.len() && 0 <= b < c.len() && a != b implies c[a]
        != c[b] by {
        assert(0 <= a < 4 && 0 <= b < 4);
    }
}

proof fn lemma_mode_facts(current: InspectorMode)
    ensures
        forall|c: CommandModel|
            #[trigger] commands_of(mode_entries(offered_modes(), current)).contains(c) ==> command_kind(c)
                == 7 && c != CommandModel::SetInspectorMode(current) && c
                != CommandModel::SetInspectorMode(InspectorMode::Blocks),
        forall|m: InspectorMode|
            m != InspectorMode::Blocks && m != current ==> mode_entries(offered_modes(), current).contains(
                #[trigger] mode_entry(m),
            ),
        commands_of(mode_entries(offered_modes(), current)).no_duplicates(),
{
    let modes = offered_modes();
    let keep = keep_mode(current);
    let mk = make_mode();
    lemma_mode_kept(modes, current);
    lemma_kept_from(modes, keep, mk);
    lemma_kept_has(modes, keep, mk);
    assert(modes[0] == InspectorMode::Context && modes[1] == InspectorMode::Workspace && modes[2]
        == InspectorMode::Tab && modes[3] == InspectorMode::Pane);
    assert forall|c: CommandModel| #[trigger] commands_of(mode_entries(modes, current)).contains(c)
        implies command_kind(c) == 7 && c != CommandModel::SetInspectorMode(current) && c
        != CommandModel::SetInspectorMode(InspectorMode::Blocks) by {
        let j = choose|j: int| 0 <= j < modes.len() && keep(modes[j]) && c == mk(#[trigger] modes[j]).command;
        assert(0 <= j < 4);
    }
    assert forall|m: InspectorMode| m != InspectorMode::Blocks && m != current implies mode_entries(
        modes,
        current,
    ).contains(#[trigger] mode_entry(m)) by {
        let j: int = match m {
            InspectorMode::Context => 0,
            InspectorMode::Workspace => 1,
            InspectorMode::Tab => 2,
            _ => 3,
        };
        assert(modes[j] == m);
        assert(keep(modes[j]));
    }
    assert forall|i: int, j: int|
        0 <= i < modes.len() && 0 <= j < modes.len() && i != j && keep(modes[i]) && keep(modes[j])
            implies #[trigger] mk(modes[i]).command != #[trigger] mk(modes[j]).command by {
        assert(0 <= i < 4 && 0 <= j < 4);
    }
    lemma_kept_distinct(modes, keep, mk);
}

// ---------------------------------------------------------------------------
// The whole list.
// ---------------------------------------------------------------------------

/// The commands of the palette's list are those of its categories in order.
proof fn lemma_build_parts(
    shell: ShellSnapshot,
    chrome: ChromeSnapshot,
    allows_tab_creation: bool,
    allows_pane_splitting: bool,
)
    ensures
        commands_of(
            spec_build_commands(shell, chrome, allows_tab_creation, allows_pane_splitting),
        ) == commands_of(navigation_entries(allows_tab_creation, allows_pane_splitting))
            + commands_of(workspace_entries(shell.workspaces@, shell.active_workspace))
            + commands_of(tab_entries(shell.tabs@, shell.active_tab)) + commands_of(
            pane_entries(shell.panes@, shell.focused_pane),
        ) + commands_of(view_entries(chrome)) + commands_of(
            mode_entries(offered_modes(), chrome.inspector_mode),
        ) + commands_of(attention_entries(attention_view(chrome.attention_items@)))
            + commands_of(
            agent_entries(agents_view(chrome.agents@), opt_agent_view(chrome.selected_agent)),
        ),
{
    let n = navigation_entries(allows_tab_creation, allows_pane_splitting);
    let w = workspace_entries(shell.workspaces@, shell.active_workspace);
    let t = tab_entries(shell.tabs@, shell.active_tab);
    let p = pane_entries(shell.panes@, shell.focused_pane);
    let v = view_entries(chrome);
    let m = mode_entries(offered_modes(), chrome.inspector_mode);
    let a = attention_entries(attention_view(chrome.attention_items@));
    let g = agent_entries(agents_view(chrome.agents@), opt_agent_view(chrome.selected_agent));
    lemma_commands_concat(n, w);
    lemma_commands_concat(n + w, t);
    lemma_commands_concat(n + w + t, p);
    lemma_commands_concat(n + w + t + p, v);
    lemma_commands_concat(n + w + t + p + v, m);
    lemma_commands_concat(n + w + t + p + v + m, a);
    lemma_commands_concat(n + w + t + p + v + m + a, g);
}

/// The palette's Navigation rows follow shell policy: "New Tab" is offered
/// exactly when Tab creation is allowed, and each split direction exactly
/// when Pane splitting is allowed.
pub proof fn build_commands_follow_policy(
    shell: ShellSnapshot,
    chrome: ChromeSnapshot,
    allows_tab_creation: bool,
    allows_pane_splitting: bool,
)
    ensures
        commands_of(
            spec_build_commands(shell, chrome, allows_tab_creation, allows_pane_splitting),
        ).contains(CommandModel::CreateTab) == allows_tab_creation,
        commands_of(
            spec_build_commands(shell, chrome, allows_tab_creation, allows_pane_splitting),
        ).contains(CommandModel::SplitFocused(SplitAxis::Right)) == allows_pane_splitting,
        commands_of(
            spec_build_commands(shell, chrome, allows_tab_creation, allows_pane_splitting),
        ).contains(CommandModel::SplitFocused(SplitAxis::Down)) == allows_pane_splitting,
{
    lemma_build_parts(shell, chrome, allows_tab_creation, allows_pane_splitting);
    lemma_navigation_facts(allows_tab_creation, allows_pane_splitting);
    lemma_workspace_facts(shell.workspaces@, shell.active_workspace);
    lemma_tab_facts(shell.tabs@, shell.active_tab);
    lemma_pane_facts(shell.panes@, shell.focused_pane);
    lemma_view_facts(chrome);
    lemma_mode_facts(chrome.inspector_mode);
    lemma_attention_facts(attention_view(chrome.attention_items@));
    lemma_agent_facts(agents_view(chrome.agents@), opt_agent_view(chrome.selected_agent));
}

/// The palette never offers a command that would change nothing: switching
/// to the active Workspace or Tab, focusing the focused Pane, setting the
/// current inspector mode, entering the Blocks mode (reached only by
/// selecting a Block), or focusing the selected agent.
pub proof fn build_commands_omit_no_ops(
    shell: ShellSnapshot,
    chrome: ChromeSnapshot,
    allows_tab_creation: bool,
    allows_pane_splitting: bool,
)
    ensures
        !commands_of(spec_build_commands(shell, chrome, allows_tab_creation, allows_pane_splitting)).contains(CommandModel::SwitchWorkspace(shell.active_workspace)),
        !commands_of(spec_build_commands(shell, chrome, allows_tab_creation, allows_pane_splitting)).contains(CommandModel::SwitchTab(shell.active_tab)),
        !commands_of(spec_build_commands(shell, chrome, allows_tab_creation, allows_pane_splitting)).contains(CommandModel::FocusPane(shell.focused_pane)),
        !commands_of(spec_build_commands(shell, chrome, allows_tab_creation, allows_pane_splitting)).contains(CommandModel::SetInspectorMode(chrome.inspector_mode)),
        !commands_of(spec_build_commands(shell, chrome, allows_tab_creation, allows_pane_splitting)).contains(CommandModel::SetInspectorMode(InspectorMode::Blocks)),
        chrome.selected_agent matches Some(a) ==> !commands_of(spec_build_commands(shell, chrome, allows_tab_creation, allows_pane_splitting)).contains(CommandModel::FocusAgent(a@)),
{
    lemma_build_parts(shell, chrome, allows_tab_creation, allows_pane_splitting);
    lemma_navigation_facts(allows_tab_creation, allows_pane_splitting);
    lemma_workspace_facts(shell.workspaces@, shell.active_workspace);
    lemma_tab_facts(shell.tabs@, shell.active_tab);
    lemma_pane_facts(shell.panes@, shell.focused_pane);
    lemma_view_facts(chrome);
    lemma_mode_facts(chrome.inspector_mode);
    lemma_attention_facts(attention_view(chrome.attention_items@));
    lemma_agent_facts(agents_view(chrome.agents@), opt_agent_view(chrome.selected_agent));
}

/// The palette offers one row, labelled with the target's name, for every
/// Workspace but the active one, every Tab but the active one, every Pane but
/// the focused one, every inspector mode but the current one and Blocks,
/// every attention item, and every agent but the selected one; and its
/// switch, focus and open commands name nothing else.
pub proof fn build_commands_offer_every_target(
    shell: ShellSnapshot,
    chrome: ChromeSnapshot,
    allows_tab_creation: bool,
    allows_pane_splitting: bool,
)
    ensures
        forall|j: int|
            0 <= j < shell.workspaces@.len() && shell.workspaces@[j].id != shell.active_workspace
                ==> spec_build_commands(shell, chrome, allows_tab_creation, allows_pane_splitting).contains(workspace_entry(#[trigger] shell.workspaces@[j])),
        forall|j: int|
            0 <= j < shell.tabs@.len() && shell.tabs@[j].id != shell.active_tab ==> spec_build_commands(shell, chrome, allows_tab_creation, allows_pane_splitting).contains(
                tab_entry(#[trigger] shell.tabs@[j]),
            ),
        forall|j: int|
            0 <= j < shell.panes@.len() && shell.panes@[j].id != shell.focused_pane ==> spec_build_commands(shell, chrome, allows_tab_creation, allows_pane_splitting).contains(
                pane_entry(#[trigger] shell.panes@[j]),
            ),
        forall|m: InspectorMode|
            m != InspectorMode::Blocks && m != chrome.inspector_mode ==> spec_build_commands(shell, chrome, allows_tab_creation, allows_pane_splitting).contains(
                #[trigger] mode_entry(m),
            ),
        forall|j: int|
            0 <= j < chrome.attention_items@.len() ==> spec_build_commands(shell, chrome, allows_tab_creation, allows_pane_splitting).contains(
                attention_entry(#[trigger] attention_view(chrome.attention_items@)[j]),
            ),
        forall|j: int|
            0 <= j < chrome.agents@.len() && opt_agent_view(chrome.selected_agent) != Some(
                agents_view(chrome.agents@)[j].id,
            ) ==> spec_build_commands(shell, chrome, allows_tab_creation, allows_pane_splitting).contains(agent_entry(#[trigger] agents_view(chrome.agents@)[j])),
        forall|w: WorkspaceId|
            #[trigger] commands_of(spec_build_commands(shell, chrome, allows_tab_creation, allows_pane_splitting)).contains(CommandModel::SwitchWorkspace(w)) ==> exists|j: int|
                0 <= j < shell.workspaces@.len() && #[trigger] shell.workspaces@[j].id == w,
        forall|t: TabId|
            #[trigger] commands_of(spec_build_commands(shell, chrome, allows_tab_creation, allows_pane_splitting)).contains(CommandModel::SwitchTab(t)) ==> exists|j: int|
                0 <= j < shell.tabs@.len() && #[trigger] shell.tabs@[j].id == t,
        forall|p: PaneId|
            #[trigger] commands_of(spec_build_commands(shell, chrome, allows_tab_creation, allows_pane_splitting)).contains(CommandModel::FocusPane(p)) ==> exists|j: int|
                0 <= j < shell.panes@.len() && #[trigger] shell.panes@[j].id == p,
        forall|id: Seq<char>|
            #[trigger] commands_of(spec_build_commands(shell, chrome, allows_tab_creation, allows_pane_splitting)).contains(CommandModel::OpenAttention(id)) ==> exists|j: int|
                0 <= j < chrome.attention_items@.len() && #[trigger] attention_view(
                    chrome.attention_items@,
                )[j].id == id,
        forall|id: Seq<char>|
            #[trigger] commands_of(spec_build_commands(shell, chrome, allows_tab_creation, allows_pane_splitting)).contains(CommandModel::FocusAgent(id)) ==> exists|j: int|
                0 <= j < chrome.agents@.len() && #[trigger] agents_view(chrome.agents@)[j].id == id,
{
    lemma_build_parts(shell, chrome, allows_tab_creation, allows_pane_splitting);
    lemma_navigation_facts(allows_tab_creation, allows_pane_splitting);
    lemma_workspace_facts(shell.workspaces@, shell.active_workspace);
    lemma_tab_facts(shell.tabs@, shell.active_tab);
    lemma_pane_facts(shell.panes@, shell.focused_pane);
    lemma_view_facts(chrome);
    lemma_mode_facts(chrome.inspector_mode);
    lemma_attention_facts(attention_view(chrome.attention_items@));
    lemma_agent_facts(agents_view(chrome.agents@), opt_agent_view(chrome.selected_agent));
}

/// The ids within each list of the snapshots are distinct.
pub open spec fn distinct_targets(shell: ShellSnapshot, chrome: ChromeSnapshot) -> bool {
    &&& shell.workspaces@.map_values(|r: ShellWorkspaceRow| r.id).no_duplicates()
    &&& shell.tabs@.map_values(|r: ShellTabRow| r.id).no_duplicates()
    &&& shell.panes@.map_values(|r: ShellPaneRow| r.id).no_duplicates()
    &&& attention_view(chrome.attention_items@).map_values(|a: AttentionModel| a.id).no_duplicates()
    &&& agents_view(chrome.agents@).map_values(|a: AgentModel| a.id).no_duplicates()
}

proof fn lemma_concat_distinct(a: Seq<CommandModel>, b: Seq<CommandModel>, lo: int)
    requires
        a.no_duplicates(),
        b.no_duplicates(),
        forall|c: CommandModel| #[trigger] a.contains(c) ==> command_kind(c) < lo,
        forall|c: CommandModel| #[trigger] b.contains(c) ==> command_kind(c) >= lo,
    ensures
        (a + b).no_duplicates(),
{
    assert forall|i: int, j: int| 0 <= i < a.len() && 0 <= j < b.len() implies a[i] != b[j] by {
        assert(a.contains(a[i]));
        assert(b.contains(b[j]));
    }
    vstd::seq_lib::lemma_no_dup_in_concat(a, b);
}

/// Where the ids within each list are distinct, the palette never offers the
/// same command twice; with the law above, every target has exactly one row.
pub proof fn build_commands_no_repeats(
    shell: ShellSnapshot,
    chrome: ChromeSnapshot,
    allows_tab_creation: bool,
    allows_pane_splitting: bool,
)
    requires
        distinct_targets(shell, chrome),
    ensures
        commands_of(spec_build_commands(shell, chrome, allows_tab_creation, allows_pane_splitting)).no_duplicates(),
{
    lemma_build_parts(shell, chrome, allows_tab_creation, allows_pane_splitting);
    lemma_navigation_facts(allows_tab_creation, allows_pane_splitting);
    lemma_workspace_facts(shell.workspaces@, shell.active_workspace);
    lemma_tab_facts(shell.tabs@, shell.active_tab);
    lemma_pane_facts(shell.panes@, shell.focused_pane);
    lemma_view_facts(chrome);
    lemma_mode_facts(chrome.inspector_mode);
    lemma_attention_facts(attention_view(chrome.attention_items@));
    lemma_agent_facts(agents_view(chrome.agents@), opt_agent_view(chrome.selected_agent));
    let n = commands_of(navigation_entries(allows_tab_creation, allows_pane_splitting));
    let w = commands_of(workspace_entries(shell.workspaces@, shell.active_workspace));
    let t = commands_of(tab_entries(shell.tabs@, shell.active_tab));
    let p = commands_of(pane_entries(shell.panes@, shell.focused_pane));
    let v = commands_of(view_entries(chrome));
    let m = commands_of(mode_entries(offered_modes(), chrome.inspector_mode));
    let a = commands_of(attention_entries(attention_view(chrome.attention_items@)));
    let g = commands_of(
        agent_entries(agents_view(chrome.agents@), opt_agent_view(chrome.selected_agent)),
    );
    lemma_concat_distinct(n, w, 2);
    lemma_concat_distinct(n + w, t, 3);
    lemma_concat_distinct(n + w + t, p, 4);
    lemma_concat_distinct(n + w + t + p, v, 5);
    lemma_concat_distinct(n + w + t + p + v, m, 7);
    lemma_concat_distinct(n + w + t + p + v + m, a, 8);
    lemma_concat_distinct(n + w + t + p + v + m + a, g, 9);
}

// ---------------------------------------------------------------------------
// Filtering the list by a typed query.
// ---------------------------------------------------------------------------

/// The palette filter matches case-insensitively: both the query and each
/// label are lower-cased before matching. Every kept row is an entry whose
/// lower-cased label starts with, or contains, the lower-cased query (any
/// entry when the query lowers to nothing); while the result is below the
/// row limit, every such entry is kept; and no row whose label does not start
/// with the query comes before one whose label does.
pub proof fn palette_filter_matches_case_insensitively(entries: Seq<EntryModel>, query: Seq<char>)
    ensures
        forall|i: int|
            0 <= i < spec_palette_filter(entries, query).len() ==> {
                let row = #[trigger] spec_palette_filter(entries, query)[i];
                &&& entries.contains(row)
                &&& (spec_to_lowercase(query).len() == 0 || is_prefix(
                    spec_to_lowercase(query),
                    spec_to_lowercase(row.label),
                ) || contains(spec_to_lowercase(row.label), spec_to_lowercase(query)))
            },
        spec_palette_filter(entries, query).len() < PALETTE_VISIBLE_ROWS ==> forall|k: int|
            0 <= k < entries.len() && (is_prefix(
                spec_to_lowercase(query),
                spec_to_lowercase(entries[k].label),
            ) || contains(spec_to_lowercase(entries[k].label), spec_to_lowercase(query)))
                ==> spec_palette_filter(entries, query).contains(#[trigger] entries[k]),
        forall|i: int, j: int|
            0 <= i < j < spec_palette_filter(entries, query).len() && is_prefix(
                spec_to_lowercase(query),
                spec_to_lowercase((#[trigger] spec_palette_filter(entries, query)[j]).label),
            ) ==> is_prefix(
                spec_to_lowercase(query),
                spec_to_lowercase((#[trigger] spec_palette_filter(entries, query)[i]).label),
            ) || spec_to_lowercase(query).len() == 0,
{
    broadcast use vstd::seq_lib::group_filter_ensures;

    let q = spec_to_lowercase(query);
    let pre = entries.filter(has_class(q, MatchClass::Prefix));
    let sub = entries.filter(has_class(q, MatchClass::Substring));
    let all = pre + sub;
    let r = spec_palette_filter(entries, query);
    assert(r == all.take(if all.len() < PALETTE_VISIBLE_ROWS {
        all.len() as int
    } else {
        PALETTE_VISIBLE_ROWS as int
    }));
    assert forall|i: int| 0 <= i < r.len() implies {
        let row = #[trigger] r[i];
        &&& entries.contains(row)
        &&& (q.len() == 0 || is_prefix(q, spec_to_lowercase(row.label)) || contains(
            spec_to_lowercase(row.label),
            q,
        ))
    } by {
        assert(r[i] == all[i]);
        if i < pre.len() {
            assert(has_class(q, MatchClass::Prefix)(pre[i]));
            assert(pre.contains(pre[i]));
            entries.lemma_filter_contains_rev(has_class(q, MatchClass::Prefix), pre[i]);
        } else {
            let m = i - pre.len();
            assert(all[i] == sub[m]);
            assert(has_class(q, MatchClass::Substring)(sub[m]));
            assert(sub.contains(sub[m]));
            entries.lemma_filter_contains_rev(has_class(q, MatchClass::Substring), sub[m]);
        }
    }
    if r.len() < PALETTE_VISIBLE_ROWS {
        assert(r =~= all);
        assert forall|k: int|
            0 <= k < entries.len() && (is_prefix(q, spec_to_lowercase(entries[k].label)) || contains(
                spec_to_lowercase(entries[k].label),
                q,
            )) implies r.contains(#[trigger] entries[k]) by {
            if has_class(q, MatchClass::Prefix)(entries[k]) {
                entries.lemma_filter_contains(has_class(q, MatchClass::Prefix), k);
                let m = choose|m: int| 0 <= m < pre.len() && pre[m] == entries[k];
                assert(all[m] == entries[k]);
            } else {
                assert(has_class(q, MatchClass::Substring)(entries[k]));
                entries.lemma_filter_contains(has_class(q, MatchClass::Substring), k);
                let m = choose|m: int| 0 <= m < sub.len() && sub[m] == entries[k];
                assert(all[pre.len() + m] == entries[k]);
            }
        }
    }
    assert forall|i: int, j: int|
        0 <= i < j < r.len() && is_prefix(q, spec_to_lowercase((#[trigger] r[j]).label)) implies is_prefix(
        q,
        spec_to_lowercase((#[trigger] r[i]).label),
    ) || q.len() == 0 by {
        assert(r[i] == all[i] && r[j] == all[j]);
        if j >= pre.len() {
            assert(all[j] == sub[j - pre.len()]);
            assert(has_class(q, MatchClass::Substring)(sub[j - pre.len()]));
        } else {
            assert(all[i] == pre[i]);
            assert(has_class(q, MatchClass::Prefix)(pre[i]));
        }
    }
}

} // verus!
