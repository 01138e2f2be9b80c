//! Built-in global command-palette catalog and query filtering. Filtering is
//! a case-insensitive substring match over command titles and ids.

use vstd::prelude::*;

use crate::text::{
    chars_of, contains, contains_chars, owned, spec_to_lowercase, str_eq, to_lowercase, trim,
    trim_str,
};

verus! {

/// Stable product identity for one built-in palette command.
#[derive(Clone, Copy, Debug, PartialEq, Eq, Structural, Hash)]
pub enum PaletteCommandId {
    CreateTab,
    SplitRight,
    SplitDown,
    ToggleLeft,
    ToggleInspector,
    ToggleAttentionPopover,
    ShowWorkspaces,
    ShowTabs,
    ShowCoreCenter,
    ShowAgentsCenter,
    InspectorContext,
    InspectorWorkspace,
    InspectorTab,
    InspectorPane,
    InspectorBlocks,
}

/// The stable string id of a command.
pub open spec fn spec_command_id(c: PaletteCommandId) -> Seq<char> {
    match c {
        PaletteCommandId::CreateTab => "create-tab"@,
        PaletteCommandId::SplitRight => "split-right"@,
        PaletteCommandId::SplitDown => "split-down"@,
        PaletteCommandId::ToggleLeft => "toggle-left"@,
        PaletteCommandId::ToggleInspector => "toggle-inspector"@,
        PaletteCommandId::ToggleAttentionPopover => "toggle-attention"@,
        PaletteCommandId::ShowWorkspaces => "show-workspaces"@,
        PaletteCommandId::ShowTabs => "show-tabs"@,
        PaletteCommandId::ShowCoreCenter => "show-core-center"@,
        PaletteCommandId::ShowAgentsCenter => "show-agents-center"@,
        PaletteCommandId::InspectorContext => "inspector-context"@,
        PaletteCommandId::InspectorWorkspace => "inspector-workspace"@,
        PaletteCommandId::InspectorTab => "inspector-tab"@,
        PaletteCommandId::InspectorPane => "inspector-pane"@,
        PaletteCommandId::InspectorBlocks => "inspector-blocks"@,
    }
}

/// The display title of a command.
pub open spec fn spec_command_title(c: PaletteCommandId) -> Seq<char> {
    match c {
        PaletteCommandId::CreateTab => "Create Tab"@,
        PaletteCommandId::SplitRight => "Split Right"@,
        PaletteCommandId::SplitDown => "Split Down"@,
        PaletteCommandId::ToggleLeft => "Toggle Left Panel"@,
        PaletteCommandId::ToggleInspector => "Toggle Inspector"@,
        PaletteCommandId::ToggleAttentionPopover => "Toggle Attention Popover"@,
        PaletteCommandId::ShowWorkspaces => "Show Workspaces"@,
        PaletteCommandId::ShowTabs => "Show Tabs"@,
        PaletteCommandId::ShowCoreCenter => "Show Core Terminal"@,
        PaletteCommandId::ShowAgentsCenter => "Show Agents"@,
        PaletteCommandId::InspectorContext => "Inspector: Context"@,
        PaletteCommandId::InspectorWorkspace => "Inspector: Workspace"@,
        PaletteCommandId::InspectorTab => "Inspector: Tab"@,
        PaletteCommandId::InspectorPane => "Inspector: Pane"@,
        PaletteCommandId::InspectorBlocks => "Inspector: Blocks"@,
    }
}

/// The built-in catalog, in display order.
pub open spec fn builtin() -> Seq<PaletteCommandId> {
    seq![PaletteCommandId::CreateTab, PaletteCommandId::SplitRight, PaletteCommandId::SplitDown, PaletteCommandId::ToggleLeft, PaletteCommandId::ToggleInspector, PaletteCommandId::ToggleAttentionPopover, PaletteCommandId::ShowWorkspaces, PaletteCommandId::ShowTabs, PaletteCommandId::ShowCoreCenter, PaletteCommandId::ShowAgentsCenter, PaletteCommandId::InspectorContext, PaletteCommandId::InspectorWorkspace, PaletteCommandId::InspectorTab, PaletteCommandId::InspectorPane, PaletteCommandId::InspectorBlocks]
}

impl PaletteCommandId {
    pub fn as_str(self) -> (r: &'static str)
        ensures
            r@ == spec_command_id(self),
    {
        match self {
            PaletteCommandId::CreateTab => "create-tab",
            PaletteCommandId::SplitRight => "split-right",
            PaletteCommandId::SplitDown => "split-down",
            PaletteCommandId::ToggleLeft => "toggle-left",
            PaletteCommandId::ToggleInspector => "toggle-inspector",
            PaletteCommandId::ToggleAttentionPopover => "toggle-attention",
            PaletteCommandId::ShowWorkspaces => "show-workspaces",
            PaletteCommandId::ShowTabs => "show-tabs",
            PaletteCommandId::ShowCoreCenter => "show-core-center",
            PaletteCommandId::ShowAgentsCenter => "show-agents-center",
            PaletteCommandId::InspectorContext => "inspector-context",
            PaletteCommandId::InspectorWorkspace => "inspector-workspace",
            PaletteCommandId::InspectorTab => "inspector-tab",
            PaletteCommandId::InspectorPane => "inspector-pane",
            PaletteCommandId::InspectorBlocks => "inspector-blocks",
        }
    }

    pub fn title(self) -> (r: &'static str)
        ensures
            r@ == spec_command_title(self),
    {
        match self {
            PaletteCommandId::CreateTab => "Create Tab",
            PaletteCommandId::SplitRight => "Split Right",
            PaletteCommandId::SplitDown => "Split Down",
            PaletteCommandId::ToggleLeft => "Toggle Left Panel",
            PaletteCommandId::ToggleInspector => "Toggle Inspector",
            PaletteCommandId::ToggleAttentionPopover => "Toggle Attention Popover",
            PaletteCommandId::ShowWorkspaces => "Show Workspaces",
            PaletteCommandId::ShowTabs => "Show Tabs",
            PaletteCommandId::ShowCoreCenter => "Show Core Terminal",
            PaletteCommandId::ShowAgentsCenter => "Show Agents",
            PaletteCommandId::InspectorContext => "Inspector: Context",
            PaletteCommandId::InspectorWorkspace => "Inspector: Workspace",
            PaletteCommandId::InspectorTab => "Inspector: Tab",
            PaletteCommandId::InspectorPane => "Inspector: Pane",
            PaletteCommandId::InspectorBlocks => "Inspector: Blocks",
        }
    }

    /// The catalog command whose id is `id`, if any.
    pub fn from_str_id(id: &str) -> (r: Option<Self>)
        ensures
            r matches Some(c) ==> spec_command_id(c) == id@ && builtin().contains(c),
            r is None ==> forall|i: int| 0 <= i < builtin().len() ==> spec_command_id(#[trigger] builtin()[i]) != id@,
    {
        let all = builtin_commands();
        let mut i: usize = 0;
        while i < all.len()
            invariant
                all@ == builtin(),
                0 <= i <= all@.len(),
                forall|j: int| 0 <= j < i ==> spec_command_id(#[trigger] builtin()[j]) != id@,
            decreases all@.len() - i,
        {
            let cmd = all[i];
            if str_eq(cmd.as_str(), id) {
                assert(builtin()[i as int] == cmd);
                return Some(cmd);
            }
            i = i + 1;
        }
        None
    }
}

/// The built-in catalog as a vector.
pub fn builtin_commands() -> (r: Vec<PaletteCommandId>)
    ensures
        r@ == builtin(),
{
    let r = vec![
        PaletteCommandId::CreateTab,
        PaletteCommandId::SplitRight,
        PaletteCommandId::SplitDown,
        PaletteCommandId::ToggleLeft,
        PaletteCommandId::ToggleInspector,
        PaletteCommandId::ToggleAttentionPopover,
        PaletteCommandId::ShowWorkspaces,
        PaletteCommandId::ShowTabs,
        PaletteCommandId::ShowCoreCenter,
        PaletteCommandId::ShowAgentsCenter,
        PaletteCommandId::InspectorContext,
        PaletteCommandId::InspectorWorkspace,
        PaletteCommandId::InspectorTab,
        PaletteCommandId::InspectorPane,
        PaletteCommandId::InspectorBlocks
    ];
    assert(r@ =~= builtin());
    r
}

/// Host-facing filtered palette row. Identities are catalog ids.
#[derive(Clone, Debug, PartialEq, Eq)]
pub struct PaletteCommandRow {
    pub id: String,
    pub title: String,
}

/// The lower-cased, trimmed query used for matching.
pub open spec fn spec_needle(query: Seq<char>) -> Seq<char> {
    spec_to_lowercase(trim(query))
}

/// Whether a command is listed for `needle` (empty needle lists everything).
pub open spec fn command_matches(c: PaletteCommandId, needle: Seq<char>) -> bool {
    needle.len() == 0 || contains(spec_to_lowercase(spec_command_title(c)), needle) || contains(
        spec_to_lowercase(spec_command_id(c)),
        needle,
    )
}

/// The commands of `cmds` that match `needle`, in order.
pub open spec fn select_commands(cmds: Seq<PaletteCommandId>, needle: Seq<char>) -> Seq<
    PaletteCommandId,
>
    decreases cmds.len(),
{
    if cmds.len() == 0 {
        Seq::empty()
    } else if command_matches(cmds.last(), needle) {
        select_commands(cmds.drop_last(), needle).push(cmds.last())
    } else {
        select_commands(cmds.drop_last(), needle)
    }
}

/// The catalog commands listed for `query`, in catalog order.
pub open spec fn spec_filter(query: Seq<char>) -> Seq<PaletteCommandId> {
    select_commands(builtin(), spec_needle(query))
}

proof fn lemma_select_len(cmds: Seq<PaletteCommandId>, needle: Seq<char>)
    ensures
        select_commands(cmds, needle).len() <= cmds.len(),
    decreases cmds.len(),
{
    if cmds.len() > 0 {
        lemma_select_len(cmds.drop_last(), needle);
    }
}

/// A filtered list never holds more rows than the catalog.
pub proof fn lemma_filter_len(query: Seq<char>)
    ensures
        spec_filter(query).len() <= builtin().len(),
{
    lemma_select_len(builtin(), spec_needle(query));
}

/// `rows` are exactly the rows of `cmds`: catalog id and title of each.
pub open spec fn rows_of(rows: Seq<PaletteCommandRow>, cmds: Seq<PaletteCommandId>) -> bool {
    rows.len() == cmds.len() && forall|i: int|
        0 <= i < rows.len() ==> (#[trigger] rows[i]).id@ == spec_command_id(cmds[i])
            && rows[i].title@ == spec_command_title(cmds[i])
}

fn command_matches_exec(c: PaletteCommandId, needle: &Vec<char>) -> (r: bool)
    ensures
        r == command_matches(c, needle@),
{
    if needle.len() == 0 {
        return true;
    }
    let title = to_lowercase(c.title());
    let title_chars = chars_of(title.as_str());
    if contains_chars(title_chars.as_slice(), needle.as_slice()) {
        return true;
    }
    let id = to_lowercase(c.as_str());
    let id_chars = chars_of(id.as_str());
    contains_chars(id_chars.as_slice(), needle.as_slice())
}

/// Which command ids of the catalog a query lists.
pub fn filter_command_ids(query: &str) -> (r: Vec<PaletteCommandId>)
    ensures
        r@ == spec_filter(query@),
{
    let trimmed = trim_str(query);
    let lowered = to_lowercase(trimmed.as_str());
    let needle = chars_of(lowered.as_str());
    let all = builtin_commands();
    let mut out: Vec<PaletteCommandId> = Vec::new();
    let mut i: usize = 0;
    while i < all.len()
        invariant
            all@ == builtin(),
            needle@ == spec_needle(query@),
            0 <= i <= all@.len(),
            out@ == select_commands(all@.subrange(0, i as int), needle@),
        decreases all@.len() - i,
    {
        assert(all@.subrange(0, i + 1).drop_last() == all@.subrange(0, i as int));
        if command_matches_exec(all[i], &needle) {
            out.push(all[i]);
        }
        i = i + 1;
    }
    assert(all@.subrange(0, all@.len() as int) == all@);
    out
}

/// Case-insensitive substring filter over the built-in catalog.
pub fn filter_commands(query: &str) -> (r: Vec<PaletteCommandRow>)
    ensures
        rows_of(r@, spec_filter(query@)),
{
    let ids = filter_command_ids(query);
    let mut rows: Vec<PaletteCommandRow> = Vec::new();
    let mut i: usize = 0;
    while i < ids.len()
        invariant
            0 <= i <= ids@.len(),
            rows_of(rows@, ids@.subrange(0, i as int)),
        decreases ids@.len() - i,
    {
        let cmd = ids[i];
        rows.push(PaletteCommandRow { id: owned(cmd.as_str()), title: owned(cmd.title()) });
        i = i + 1;
    }
    assert(ids@.subrange(0, ids@.len() as int) == ids@);
    rows
}

/// Clamp selection into `[0, len)` or `0` when empty (fail-closed empty run).
pub fn clamp_selected(selected: usize, filtered_len: usize) -> (r: usize)
    ensures
        r == spec_clamp(selected, filtered_len),
{
    if filtered_len == 0 {
        0
    } else if selected < filtered_len {
        selected
    } else {
        filtered_len - 1
    }
}

/// `selected` clamped into `[0, len)`, or `0` for an empty list.
pub open spec fn spec_clamp(selected: usize, len: usize) -> usize {
    if len == 0 {
        0
    } else if selected < len {
        selected
    } else {
        (len - 1) as usize
    }
}

/// Selection after moving by `delta` with wrap-around (Euclidean remainder);
/// empty lists stay at `0`.
pub open spec fn spec_move(selected: usize, delta: i32, len: usize) -> usize {
    if len == 0 {
        0
    } else {
        ((selected + delta) % (len as int)) as usize
    }
}

/// Move selection by `delta` with wrap-around. Empty lists stay at `0`.
pub fn move_selected(selected: usize, delta: i32, filtered_len: usize) -> (r: usize)
    requires
        filtered_len > 0 ==> (selected <= i32::MAX && filtered_len <= i32::MAX && i32::MIN
            <= selected + delta <= i32::MAX),
    ensures
        r == spec_move(selected, delta, filtered_len),
        filtered_len > 0 ==> r < filtered_len,
{
    if filtered_len == 0 {
        return 0;
    }
    let len: i64 = filtered_len as i64;
    let sum: i64 = selected as i64 + delta as i64;
    if sum >= 0 {
        let r = (sum as u64 % len as u64) as usize;
        assert(r as int == (selected + delta) % (len as int));
        r
    } else {
        let m: u64 = ((0i64 - sum) as u64) % (len as u64);
        let r: usize = if m == 0 { 0 } else { (len as u64 - m) as usize };
        proof {
            lemma_negative_mod(-(sum as int), len as int, m as int);
        }
        r
    }
}

proof fn lemma_negative_mod(a: int, len: int, m: int)
    requires
        a > 0,
        len > 0,
        m == a % len,
    ensures
        (-a) % len == if m == 0 { 0 } else { len - m },
{
    vstd::arithmetic::div_mod::lemma_fundamental_div_mod(a, len);
    let q = a / len;
    assert(a == len * q + m);
    if m == 0 {
        assert(-a == (-q) * len + 0) by (nonlinear_arith)
            requires a == len * q + m, m == 0;
        vstd::arithmetic::div_mod::lemma_fundamental_div_mod_converse(-a, len, -q, 0);
    } else {
        assert(0 <= m < len) by {
            vstd::arithmetic::div_mod::lemma_mod_bound(a, len);
        }
        assert(-a == (-q - 1) * len + (len - m)) by (nonlinear_arith)
            requires a == len * q + m;
        vstd::arithmetic::div_mod::lemma_fundamental_div_mod_converse(-a, len, -q - 1, len - m);
    }
}

/// The selection after any move is inside a non-empty list.
pub proof fn moved_selection_stays_in_range(selected: usize, delta: i32, len: usize)
    requires
        len > 0,
        len <= i32::MAX,
    ensures
        spec_move(selected, delta, len) < len,
{
}

/// The predicate a catalog command must meet to be listed for `needle`.
pub open spec fn matches_needle(needle: Seq<char>) -> spec_fn(PaletteCommandId) -> bool {
    |c: PaletteCommandId| command_matches(c, needle)
}

proof fn lemma_select_is_filter(cmds: Seq<PaletteCommandId>, needle: Seq<char>)
    ensures
        select_commands(cmds, needle) == cmds.filter(matches_needle(needle)),
    decreases cmds.len(),
{
    reveal(Seq::filter);
    if cmds.len() > 0 {
        lemma_select_is_filter(cmds.drop_last(), needle);
    }
}

proof fn lemma_select_members(cmds: Seq<PaletteCommandId>, needle: Seq<char>)
    ensures
        forall|c: PaletteCommandId|
            #[trigger] select_commands(cmds, needle).contains(c) <==> cmds.contains(c)
                && command_matches(c, needle),
    decreases cmds.len(),
{
    broadcast use vstd::seq_lib::group_seq_properties;

    if cmds.len() > 0 {
        let d = cmds.drop_last();
        let l = cmds.last();
        lemma_select_members(d, needle);
        assert(cmds =~= d.push(l));
        assert forall|c: PaletteCommandId|
            #[trigger] select_commands(cmds, needle).contains(c) <==> cmds.contains(c)
                && command_matches(c, needle) by {
            assert(cmds.contains(c) <==> (c == l || d.contains(c)));
            if command_matches(l, needle) {
                assert(select_commands(cmds, needle) == select_commands(d, needle).push(l));
            } else {
                assert(select_commands(cmds, needle) == select_commands(d, needle));
            }
        }
    }
}

proof fn lemma_select_all(cmds: Seq<PaletteCommandId>, needle: Seq<char>)
    requires
        needle.len() == 0,
    ensures
        select_commands(cmds, needle) == cmds,
    decreases cmds.len(),
{
    if cmds.len() > 0 {
        lemma_select_all(cmds.drop_last(), needle);
        assert(cmds =~= cmds.drop_last().push(cmds.last()));
    }
}

/// The command filter lists, in catalog order, exactly the catalog commands
/// whose lower-cased title or id contains the trimmed, lower-cased query; a
/// query that trims to nothing lists the whole catalog.
pub proof fn filter_commands_selects_in_catalog_order(query: Seq<char>)
    ensures
        spec_filter(query) == builtin().filter(matches_needle(spec_needle(query))),
        forall|c: PaletteCommandId|
            #[trigger] spec_filter(query).contains(c) <==> builtin().contains(c) && (spec_needle(
                query,
            ).len() == 0 || contains(spec_to_lowercase(spec_command_title(c)), spec_needle(query))
                || contains(spec_to_lowercase(spec_command_id(c)), spec_needle(query))),
        spec_needle(query).len() == 0 ==> spec_filter(query) == builtin(),
{
    lemma_select_is_filter(builtin(), spec_needle(query));
    lemma_select_members(builtin(), spec_needle(query));
    if spec_needle(query).len() == 0 {
        lemma_select_all(builtin(), spec_needle(query));
    }
}

} // verus!
