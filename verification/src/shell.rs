//! Workspace/Tab/Pane composition seen by the chrome, palette and product
//! reducers: the seeded Workspaces, each with its Tabs (one Pane per Tab),
//! the active Workspace and each Workspace's active Tab.

use vstd::prelude::*;

use crate::ids::{ExecutionId, PaneId, TabId, WorkspaceId};
use crate::text::{copy_string, decimal, owned, push_str, u64_to_string};

verus! {

#[derive(Clone, Copy, Debug, PartialEq, Eq, Structural)]
pub enum LayoutDescription {
    Single,
    SplitRight,
    SplitDown,
}

#[derive(Clone, Copy, Debug, PartialEq, Eq, Structural)]
pub enum SplitAxis {
    Right,
    Down,
}

#[derive(Clone, Debug, PartialEq, Eq)]
pub struct ShellPaneSeed {
    pub id: PaneId,
    pub title: String,
    pub allows_implicit_execution_bootstrap: bool,
}

#[derive(Clone, Debug, PartialEq, Eq)]
pub struct ShellTabSeed {
    pub id: TabId,
    pub title: String,
    pub attention: bool,
    pub pane: ShellPaneSeed,
}

#[derive(Clone, Debug, PartialEq, Eq)]
pub struct ShellWorkspaceSeed {
    pub id: WorkspaceId,
    pub name: String,
    pub detail: Option<String>,
    pub attention: bool,
    pub active_tab: TabId,
    pub tabs: Vec<ShellTabSeed>,
}

/// One Workspace row of a snapshot.
#[derive(Clone, Debug, PartialEq, Eq)]
pub struct ShellWorkspaceRow {
    pub id: WorkspaceId,
    pub name: String,
    pub detail: Option<String>,
    pub attention: bool,
}

/// One Tab row (of the active Workspace) of a snapshot.
#[derive(Clone, Debug, PartialEq, Eq)]
pub struct ShellTabRow {
    pub id: TabId,
    pub title: String,
    pub attention: bool,
    pub pane_count: u64,
}

/// One Pane row (of the active Tab) of a snapshot.
#[derive(Clone, Debug, PartialEq, Eq)]
pub struct ShellPaneRow {
    pub id: PaneId,
    pub title: String,
    /// The execution bound to the Pane; the composition itself binds none.
    pub execution: Option<ExecutionId>,
}

/// Read-only projection of the composition.
#[derive(Clone, Debug, PartialEq, Eq)]
pub struct ShellSnapshot {
    pub active_workspace: WorkspaceId,
    pub active_tab: TabId,
    pub focused_pane: PaneId,
    pub workspaces: Vec<ShellWorkspaceRow>,
    pub tabs: Vec<ShellTabRow>,
    pub panes: Vec<ShellPaneRow>,
    pub layout: LayoutDescription,
}

#[derive(Clone, Copy, Debug, PartialEq, Eq, Structural)]
pub enum ShellError {
    EmptyComposition,
    UnknownWorkspace,
    UnknownTab,
    UnknownPane,
    TabCreationDisallowed,
}

#[derive(Clone, Copy, Debug, PartialEq, Eq, Structural)]
pub enum ShellAction {
    SelectWorkspace { id: WorkspaceId },
    SelectTab { id: TabId },
    FocusPane { id: PaneId },
    CreateTab,
}

/// The optional string's characters.
pub open spec fn opt_view(s: Option<String>) -> Option<Seq<char>> {
    match s {
        Some(v) => Some(v@),
        None => None,
    }
}

/// `w` names an active Tab that it holds.
pub open spec fn workspace_wf(w: ShellWorkspaceSeed) -> bool {
    exists|i: int| 0 <= i < w.tabs@.len() && (#[trigger] w.tabs@[i]).id == w.active_tab
}

/// Index of the first Tab of `tabs` with id `id` at or after `from`, if any.
pub open spec fn tab_index_from(tabs: Seq<ShellTabSeed>, id: TabId, from: int) -> int
    decreases tabs.len() - from,
{
    if from < 0 || from >= tabs.len() {
        -1
    } else if tabs[from].id == id {
        from
    } else {
        tab_index_from(tabs, id, from + 1)
    }
}

/// The active Tab of a well-formed Workspace.
pub open spec fn active_tab_of(w: ShellWorkspaceSeed) -> ShellTabSeed {
    w.tabs@[tab_index_from(w.tabs@, w.active_tab, 0)]
}

/// Index of a Workspace with id `id`, if any.
fn find_workspace(ws: &Vec<ShellWorkspaceSeed>, id: WorkspaceId) -> (r: Option<usize>)
    ensures
        r matches Some(k) ==> k < ws@.len() && ws@[k as int].id == id,
        r is None ==> forall|j: int| 0 <= j < ws@.len() ==> (#[trigger] ws@[j]).id != id,
{
    let mut k: usize = 0;
    while k < ws.len()
        invariant
            0 <= k <= ws@.len(),
            forall|j: int| 0 <= j < k ==> (#[trigger] ws@[j]).id != id,
        decreases ws@.len() - k,
    {
        if ws[k].id == id {
            return Some(k);
        }
        k = k + 1;
    }
    None
}

/// Index of a Tab of `w` with id `id`, if any.
fn find_tab(w: &ShellWorkspaceSeed, id: TabId) -> (r: Option<usize>)
    ensures
        r matches Some(k) ==> k < w.tabs@.len() && w.tabs@[k as int].id == id,
        r is None ==> forall|j: int| 0 <= j < w.tabs@.len() ==> (#[trigger] w.tabs@[j]).id != id,
{
    let mut k: usize = 0;
    while k < w.tabs.len()
        invariant
            0 <= k <= w.tabs@.len(),
            forall|j: int| 0 <= j < k ==> (#[trigger] w.tabs@[j]).id != id,
        decreases w.tabs@.len() - k,
    {
        if w.tabs[k].id == id {
            return Some(k);
        }
        k = k + 1;
    }
    None
}

/// Whether a Workspace holds its active Tab.
fn has_active_tab(w: &ShellWorkspaceSeed) -> (r: bool)
    ensures
        r == workspace_wf(*w),
{
    let mut k: usize = 0;
    while k < w.tabs.len()
        invariant
            0 <= k <= w.tabs@.len(),
            forall|j: int| 0 <= j < k ==> (#[trigger] w.tabs@[j]).id != w.active_tab,
        decreases w.tabs@.len() - k,
    {
        if w.tabs[k].id == w.active_tab {
            return true;
        }
        k = k + 1;
    }
    false
}

proof fn lemma_tab_index_range(tabs: Seq<ShellTabSeed>, id: TabId, from: int)
    ensures
        tab_index_from(tabs, id, from) == -1 || (from <= tab_index_from(tabs, id, from) < tabs.len()
            && tabs[tab_index_from(tabs, id, from)].id == id),
    decreases tabs.len() - from,
{
    if 0 <= from < tabs.len() && tabs[from].id != id {
        lemma_tab_index_range(tabs, id, from + 1);
    }
}

proof fn lemma_tab_index_from(tabs: Seq<ShellTabSeed>, id: TabId, from: int, k: int)
    requires
        0 <= from <= k < tabs.len(),
        tabs[k].id == id,
    ensures
        from <= tab_index_from(tabs, id, from) <= k,
        tabs[tab_index_from(tabs, id, from)].id == id,
    decreases k - from,
{
    if tabs[from].id != id {
        lemma_tab_index_from(tabs, id, from + 1, k);
    }
}

/// A Workspace row agrees with its seed.
pub open spec fn workspace_row_of(r: ShellWorkspaceRow, w: ShellWorkspaceSeed) -> bool {
    r.id == w.id && r.name@ == w.name@ && opt_view(r.detail) == opt_view(w.detail) && r.attention
        == w.attention
}

/// A Tab row agrees with its seed.
pub open spec fn tab_row_of(r: ShellTabRow, t: ShellTabSeed) -> bool {
    r.id == t.id && r.title@ == t.title@ && r.attention == t.attention && r.pane_count == 1
}

/// Sole portable owner of the Workspace/Tab/Pane composition.
#[derive(Debug)]
pub struct ShellState {
    workspaces: Vec<ShellWorkspaceSeed>,
    active: usize,
    allows_tab_creation: bool,
    allows_pane_splitting: bool,
    next_fresh: u64,
}

impl ShellState {
    pub closed spec fn spec_workspaces(&self) -> Seq<ShellWorkspaceSeed> {
        self.workspaces@
    }

    pub closed spec fn spec_active(&self) -> int {
        self.active as int
    }

    pub closed spec fn spec_allows_tab_creation(&self) -> bool {
        self.allows_tab_creation
    }

    pub closed spec fn spec_allows_pane_splitting(&self) -> bool {
        self.allows_pane_splitting
    }

    /// The active Workspace record.
    pub open spec fn active_workspace(&self) -> ShellWorkspaceSeed {
        self.spec_workspaces()[self.spec_active()]
    }

    /// The composition is well formed: an active Workspace exists and every
    /// Workspace holds its active Tab.
    pub open spec fn wf(&self) -> bool {
        &&& 0 <= self.spec_active() < self.spec_workspaces().len()
        &&& forall|i: int|
            0 <= i < self.spec_workspaces().len() ==> workspace_wf(
                #[trigger] self.spec_workspaces()[i],
            )
    }

    /// Build a composition from seeds. Fails when there is no Workspace, the
    /// active Workspace is not seeded, or a Workspace lacks its active Tab.
    #[verifier::loop_isolation(false)]
    pub fn from_workspaces(
        workspaces: Vec<ShellWorkspaceSeed>,
        active_workspace: WorkspaceId,
        allows_tab_creation: bool,
        allows_pane_splitting: bool,
    ) -> (r: Result<Self, ShellError>)
        ensures
            workspaces@.len() == 0 ==> r == Err::<Self, ShellError>(ShellError::EmptyComposition),
            r matches Ok(s) ==> {
                &&& s.wf()
                &&& s.spec_workspaces() == workspaces@
                &&& s.active_workspace().id == active_workspace
                &&& s.spec_allows_tab_creation() == allows_tab_creation
                &&& s.spec_allows_pane_splitting() == allows_pane_splitting
            },
            r is Ok <==> (workspaces@.len() > 0 && (exists|i: int|
                0 <= i < workspaces@.len() && (#[trigger] workspaces@[i]).id == active_workspace)
                && forall|i: int| 0 <= i < workspaces@.len() ==> workspace_wf(#[trigger] workspaces@[i])),
            r matches Err(e) ==> workspaces@.len() > 0 ==> (e == ShellError::UnknownWorkspace || e
                == ShellError::UnknownTab),
    {
        if workspaces.len() == 0 {
            return Err(ShellError::EmptyComposition);
        }
        let mut i: usize = 0;
        while i < workspaces.len()
            invariant
                0 <= i <= workspaces@.len(),
                forall|j: int| 0 <= j < i ==> workspace_wf(#[trigger] workspaces@[j]),
            decreases workspaces@.len() - i,
        {
            if !has_active_tab(&workspaces[i]) {
                return Err(ShellError::UnknownTab);
            }
            i = i + 1;
        }
        let mut active: usize = 0;
        while active < workspaces.len()
            invariant
                0 <= active <= workspaces@.len(),
                forall|j: int| 0 <= j < active ==> (#[trigger] workspaces@[j]).id != active_workspace,
            decreases workspaces@.len() - active,
        {
            if workspaces[active].id == active_workspace {
                let r = ShellState {
                    workspaces,
                    active,
                    allows_tab_creation,
                    allows_pane_splitting,
                    next_fresh: 1,
                };
                return Ok(r);
            }
            active = active + 1;
        }
        Err(ShellError::UnknownWorkspace)
    }

    /// The M001 local composition: Workspace "Local" (detail `detail`) with
    /// one Tab "Terminal" holding one Pane; Tab creation and splitting are
    /// not offered.
    pub fn m001_local(detail: &str) -> (r: Self)
        ensures
            r.wf(),
            r.spec_workspaces().len() == 1,
            r.active_workspace().id.value() == crate::ids::DEFAULT_WORKSPACE,
            r.active_workspace().name@ == "Local"@,
            opt_view(r.active_workspace().detail) == Some(detail@),
            r.active_workspace().tabs@.len() == 1,
            r.active_workspace().tabs@[0].title@ == "Terminal"@,
            r.active_workspace().tabs@[0].pane.title@ == "Pane 1"@,
            r.active_workspace().tabs@[0].id.value() == LOCAL_TAB,
            r.active_workspace().tabs@[0].pane.id.value() == LOCAL_PANE,
            r.active_workspace().active_tab == r.active_workspace().tabs@[0].id,
            !r.spec_allows_tab_creation(),
            !r.spec_allows_pane_splitting(),
    {
        let tab = TabId::from_raw(LOCAL_TAB);
        let pane = ShellPaneSeed {
            id: PaneId::from_raw(LOCAL_PANE),
            title: owned("Pane 1"),
            allows_implicit_execution_bootstrap: true,
        };
        let mut tabs: Vec<ShellTabSeed> = Vec::new();
        tabs.push(ShellTabSeed { id: tab, title: owned("Terminal"), attention: false, pane });
        let ws = ShellWorkspaceSeed {
            id: WorkspaceId::m001_default(),
            name: owned("Local"),
            detail: Some(owned(detail)),
            attention: false,
            active_tab: tab,
            tabs,
        };
        assert(ws.tabs@[0].id == ws.active_tab);
        let mut workspaces: Vec<ShellWorkspaceSeed> = Vec::new();
        workspaces.push(ws);
        ShellState {
            workspaces,
            active: 0,
            allows_tab_creation: false,
            allows_pane_splitting: false,
            next_fresh: 1,
        }
    }

    /// Whether new Tabs may be created.
    pub fn allows_tab_creation(&self) -> (r: bool)
        ensures
            r == self.spec_allows_tab_creation(),
    {
        self.allows_tab_creation
    }

    /// Whether the focused Pane may be split.
    pub fn allows_pane_splitting(&self) -> (r: bool)
        ensures
            r == self.spec_allows_pane_splitting(),
    {
        self.allows_pane_splitting
    }

    fn active_tab_index(w: &ShellWorkspaceSeed) -> (r: usize)
        requires
            workspace_wf(*w),
        ensures
            r == tab_index_from(w.tabs@, w.active_tab, 0),
            r < w.tabs@.len(),
            w.tabs@[r as int].id == w.active_tab,
    {
        proof {
            let k = choose|k: int| 0 <= k < w.tabs@.len() && (#[trigger] w.tabs@[k]).id == w.active_tab;
            lemma_tab_index_from(w.tabs@, w.active_tab, 0, k);
        }
        let mut i: usize = 0;
        while i < w.tabs.len()
            invariant
                0 <= i <= w.tabs@.len(),
                workspace_wf(*w),
                tab_index_from(w.tabs@, w.active_tab, 0) == tab_index_from(
                    w.tabs@,
                    w.active_tab,
                    i as int,
                ),
                0 <= tab_index_from(w.tabs@, w.active_tab, 0) < w.tabs@.len(),
                i <= tab_index_from(w.tabs@, w.active_tab, 0),
            decreases w.tabs@.len() - i,
        {
            if w.tabs[i].id == w.active_tab {
                return i;
            }
            proof {
                lemma_tab_index_range(w.tabs@, w.active_tab, i + 1);
            }
            i = i + 1;
        }
        i
    }

    /// The focused Pane: the Pane of the active Workspace's active Tab.
    pub open spec fn focused_pane(&self) -> PaneId {
        active_tab_of(self.active_workspace()).pane.id
    }

    /// `r` projects this composition: the active Workspace, Tab and Pane, one
    /// row per Workspace, one row per Tab of the active Workspace, and the
    /// focused Pane as the only Pane row.
    pub open spec fn is_snapshot_of(&self, r: ShellSnapshot) -> bool {
        &&& r.active_workspace == self.active_workspace().id
        &&& r.active_tab == self.active_workspace().active_tab
        &&& r.focused_pane == self.focused_pane()
        &&& r.workspaces@.len() == self.spec_workspaces().len()
        &&& forall|i: int|
            0 <= i < r.workspaces@.len() ==> workspace_row_of(
                #[trigger] r.workspaces@[i],
                self.spec_workspaces()[i],
            )
        &&& r.tabs@.len() == self.active_workspace().tabs@.len()
        &&& forall|i: int|
            0 <= i < r.tabs@.len() ==> tab_row_of(
                #[trigger] r.tabs@[i],
                self.active_workspace().tabs@[i],
            )
        &&& r.panes@.len() == 1
        &&& r.panes@[0].id == r.focused_pane
        &&& r.panes@[0].title@ == active_tab_of(self.active_workspace()).pane.title@
        &&& r.panes@[0].execution is None
        &&& r.layout == LayoutDescription::Single
    }

    /// Some Tab of some Workspace holds the Pane `pane`.
    pub open spec fn spec_has_pane(&self, pane: PaneId) -> bool {
        exists|w: int, t: int|
            0 <= w < self.spec_workspaces().len() && 0 <= t < self.spec_workspaces()[w].tabs@.len()
                && #[trigger] self.spec_workspaces()[w].tabs@[t].pane.id == pane
    }

    /// Whether the composition holds the Pane `pane`.
    pub fn has_pane(&self, pane: PaneId) -> (r: bool)
        ensures
            r == self.spec_has_pane(pane),
    {
        let mut w: usize = 0;
        while w < self.workspaces.len()
            invariant
                0 <= w <= self.workspaces@.len(),
                forall|a: int, t: int|
                    0 <= a < w && 0 <= t < self.workspaces@[a].tabs@.len()
                        ==> #[trigger] self.workspaces@[a].tabs@[t].pane.id != pane,
            decreases self.workspaces@.len() - w,
        {
            let tabs = &self.workspaces[w].tabs;
            let mut t: usize = 0;
            while t < tabs.len()
                invariant
                    0 <= w < self.workspaces@.len(),
                    tabs@ == self.workspaces@[w as int].tabs@,
                    0 <= t <= tabs@.len(),
                    forall|a: int, u: int|
                        0 <= a < w && 0 <= u < self.workspaces@[a].tabs@.len()
                            ==> #[trigger] self.workspaces@[a].tabs@[u].pane.id != pane,
                    forall|u: int| 0 <= u < t ==> #[trigger] tabs@[u].pane.id != pane,
                decreases tabs@.len() - t,
            {
                if tabs[t].pane.id == pane {
                    assert(self.spec_workspaces()[w as int].tabs@[t as int].pane.id == pane);
                    return true;
                }
                t += 1;
            }
            w += 1;
        }
        false
    }

    /// Project the composition for hosts.
    #[verifier::loop_isolation(false)]
    pub fn snapshot(&self) -> (r: ShellSnapshot)
        requires
            self.wf(),
        ensures
            self.is_snapshot_of(r),
    {
        let ws = &self.workspaces[self.active];
        let mut workspaces: Vec<ShellWorkspaceRow> = Vec::new();
        let mut i: usize = 0;
        while i < self.workspaces.len()
            invariant
                0 <= i <= self.workspaces@.len(),
                workspaces@.len() == i,
                forall|j: int|
                    0 <= j < i ==> workspace_row_of(
                        #[trigger] workspaces@[j],
                        self.workspaces@[j],
                    ),
            decreases self.workspaces@.len() - i,
        {
            let w = &self.workspaces[i];
            let detail = match &w.detail {
                Some(d) => Some(copy_string(d)),
                None => None,
            };
            workspaces.push(
                ShellWorkspaceRow {
                    id: w.id,
                    name: copy_string(&w.name),
                    detail,
                    attention: w.attention,
                },
            );
            i = i + 1;
        }
        let mut tabs: Vec<ShellTabRow> = Vec::new();
        let mut k: usize = 0;
        while k < ws.tabs.len()
            invariant
                0 <= k <= ws.tabs@.len(),
                tabs@.len() == k,
                forall|j: int| 0 <= j < k ==> tab_row_of(#[trigger] tabs@[j], ws.tabs@[j]),
            decreases ws.tabs@.len() - k,
        {
            let t = &ws.tabs[k];
            tabs.push(
                ShellTabRow {
                    id: t.id,
                    title: copy_string(&t.title),
                    attention: t.attention,
                    pane_count: 1,
                },
            );
            k = k + 1;
        }
        assert(workspace_wf(self.workspaces@[self.active as int]));
        let index = Self::active_tab_index(ws);
        let tab = &ws.tabs[index];
        let mut panes: Vec<ShellPaneRow> = Vec::new();
        panes.push(
            ShellPaneRow { id: tab.pane.id, title: copy_string(&tab.pane.title), execution: None },
        );
        ShellSnapshot {
            active_workspace: ws.id,
            active_tab: ws.active_tab,
            focused_pane: tab.pane.id,
            workspaces,
            tabs,
            panes,
            layout: LayoutDescription::Single,
        }
    }

    /// Apply one composition action. On error nothing changes.
    #[verifier::loop_isolation(false)]
    pub fn apply(&mut self, action: ShellAction) -> (r: Result<(), ShellError>)
        requires
            old(self).wf(),
        ensures
            final(self).wf(),
            r is Err ==> final(self).spec_workspaces() == old(self).spec_workspaces()
                && final(self).spec_active() == old(self).spec_active(),
            final(self).spec_allows_tab_creation() == old(self).spec_allows_tab_creation(),
            final(self).spec_allows_pane_splitting() == old(self).spec_allows_pane_splitting(),
            match action {
                ShellAction::SelectWorkspace { id } => {
                    &&& r is Ok <==> exists|i: int|
                        0 <= i < old(self).spec_workspaces().len() && (
                        #[trigger] old(self).spec_workspaces()[i]).id == id
                    &&& r is Err ==> r == Err::<(), ShellError>(ShellError::UnknownWorkspace)
                    &&& r is Ok ==> final(self).spec_workspaces() == old(self).spec_workspaces()
                        && final(self).active_workspace().id == id
                },
                ShellAction::SelectTab { id } => {
                    &&& r is Ok <==> exists|i: int|
                        0 <= i < old(self).active_workspace().tabs@.len() && (
                        #[trigger] old(self).active_workspace().tabs@[i]).id == id
                    &&& r is Err ==> r == Err::<(), ShellError>(ShellError::UnknownTab)
                    &&& r is Ok ==> final(self).spec_active() == old(self).spec_active()
                        && final(self).active_workspace().active_tab == id
                        && final(self).active_workspace().tabs@ == old(self).active_workspace().tabs@
                        && final(self).spec_workspaces().len() == old(self).spec_workspaces().len()
                },
                ShellAction::FocusPane { id } => {
                    &&& r is Ok <==> id == active_tab_of(old(self).active_workspace()).pane.id
                    &&& r is Err ==> r == Err::<(), ShellError>(ShellError::UnknownPane)
                    &&& final(self).spec_workspaces() == old(self).spec_workspaces()
                    &&& final(self).spec_active() == old(self).spec_active()
                    &&& *final(self) == *old(self)
                },
                ShellAction::CreateTab => {
                    &&& r is Ok <==> old(self).spec_allows_tab_creation()
                    &&& r is Err ==> r == Err::<(), ShellError>(ShellError::TabCreationDisallowed)
                    &&& r is Ok ==> final(self).spec_active() == old(self).spec_active()
                        && final(self).active_workspace().tabs@.len()
                        == old(self).active_workspace().tabs@.len() + 1
                        && final(self).active_workspace().tabs@.subrange(
                        0,
                        old(self).active_workspace().tabs@.len() as int,
                    ) == old(self).active_workspace().tabs@
                        && final(self).active_workspace().active_tab
                        == final(self).active_workspace().tabs@.last().id
                        && (final(self).active_workspace().tabs@.len() <= u64::MAX
                        ==> final(self).active_workspace().tabs@.last().title@ == "Terminal "@
                        + decimal(final(self).active_workspace().tabs@.len()))
                },
            },
    {
        match action {
            ShellAction::SelectWorkspace { id } => {
                let found = find_workspace(&self.workspaces, id);
                match found {
                    Some(i) => {
                        self.active = i;
                        Ok(())
                    },
                    None => Err(ShellError::UnknownWorkspace),
                }
            },
            ShellAction::SelectTab { id } => {
                let active = self.active;
                let found = find_tab(&self.workspaces[active], id);
                match found {
                    Some(k) => {
                        let ghost old_ws = self.workspaces@;
                        let mut updated = self.workspaces.remove(active);
                        updated.active_tab = id;
                        assert(updated.tabs@[k as int].id == id);
                        self.workspaces.insert(active, updated);
                        assert forall|j: int|
                            0 <= j < self.workspaces@.len() implies workspace_wf(
                            #[trigger] self.workspaces@[j],
                        ) by {
                            if j != active as int {
                                assert(self.workspaces@[j] == old_ws[j]);
                            } else {
                                assert(self.workspaces@[j].tabs@[k as int].id == id);
                            }
                        }
                        Ok(())
                    },
                    None => Err(ShellError::UnknownTab),
                }
            },
            ShellAction::FocusPane { id } => {
                let ws = &self.workspaces[self.active];
                let index = Self::active_tab_index(ws);
                if ws.tabs[index].pane.id == id {
                    Ok(())
                } else {
                    Err(ShellError::UnknownPane)
                }
            },
            ShellAction::CreateTab => {
                if !self.allows_tab_creation {
                    return Err(ShellError::TabCreationDisallowed);
                }
                let active = self.active;
                let ghost old_ws = self.workspaces@;
                let fresh = self.next_fresh;
                self.next_fresh = if fresh == u64::MAX { 1 } else { fresh + 1 };
                let mut updated = self.workspaces.remove(active);
                let ghost old_tabs = updated.tabs@;
                let existing: u64 = updated.tabs.len() as u64;
                let count: u64 = if existing < u64::MAX {
                    existing + 1
                } else {
                    u64::MAX
                };
                let mut title = owned("Terminal ");
                let number = u64_to_string(count);
                push_str(&mut title, number.as_str());
                let tab_id = TabId::from_raw(FRESH_TAB_NAMESPACE | fresh as u128);
                let pane_id = PaneId::from_raw(FRESH_PANE_NAMESPACE | fresh as u128);
                let tab = ShellTabSeed {
                    id: tab_id,
                    title,
                    attention: false,
                    pane: ShellPaneSeed {
                        id: pane_id,
                        title: owned("Pane 1"),
                        allows_implicit_execution_bootstrap: false,
                    },
                };
                updated.tabs.push(tab);
                updated.active_tab = tab_id;
                proof {
                    let n = updated.tabs@.len() - 1;
                    assert(updated.tabs@[n].id == tab_id);
                    assert(updated.tabs@.subrange(0, n) == old_tabs);
                }
                self.workspaces.insert(active, updated);
                assert forall|j: int|
                    0 <= j < self.workspaces@.len() implies workspace_wf(
                    #[trigger] self.workspaces@[j],
                ) by {
                    if j != active as int {
                        assert(self.workspaces@[j] == old_ws[j]);
                    } else {
                        let n = self.workspaces@[j].tabs@.len() - 1;
                        assert(self.workspaces@[j].tabs@[n].id == tab_id);
                    }
                }
                Ok(())
            },
        }
    }
}

/// Raw identity of the M001 local Tab.
pub const LOCAL_TAB: u128 = 0x5345_5941_4c2d_4d30_3031_2d54_4142_0001;
/// Raw identity of the M001 local Pane.
pub const LOCAL_PANE: u128 = 0x5345_5941_4c2d_4d30_3031_2d50_414e_0001;
/// Namespace of Tabs created by the shell.
pub const FRESH_TAB_NAMESPACE: u128 = 0x5345_5941_4c2d_5441_4200_0000_0000_0000;
/// Namespace of Panes created by the shell.
pub const FRESH_PANE_NAMESPACE: u128 = 0x5345_5941_4c2d_5041_4e00_0000_0000_0000;

} // verus!
