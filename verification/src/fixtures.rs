//! Shared product fixtures for tests and native host previews.

use vstd::prelude::*;

use crate::ids::{PaneId, TabId, WorkspaceId};
use crate::product::ProductSession;
use crate::shell::{ShellPaneSeed, ShellState, ShellTabSeed, ShellWorkspaceSeed};
use crate::text::owned;

verus! {

/// M001 production fixture: one workspace, one tab, one pane.
pub fn production_session() -> (r: ProductSession)
    ensures
        r.wf(),
        r.shell_state().spec_workspaces().len() == 1,
        r.shell_state().active_workspace().name@ == "Local"@,
        r.composer_model().panes[r.focused()] == crate::composer::fresh_pane(),
{
    ProductSession::m001_local("local")
}

/// Raw identities of the preview fixture: every byte of each identity is
/// the same (so the value reads the same in either byte order).
pub const PREVIEW_LOCAL_WORKSPACE: u128 = 0xa1a1_a1a1_a1a1_a1a1_a1a1_a1a1_a1a1_a1a1;
pub const PREVIEW_OTHER_WORKSPACE: u128 = 0xa2a2_a2a2_a2a2_a2a2_a2a2_a2a2_a2a2_a2a2;
pub const PREVIEW_LOCAL_TAB: u128 = 0xb1b1_b1b1_b1b1_b1b1_b1b1_b1b1_b1b1_b1b1;
pub const PREVIEW_OTHER_TAB: u128 = 0xb2b2_b2b2_b2b2_b2b2_b2b2_b2b2_b2b2_b2b2;
pub const PREVIEW_LOCAL_PANE: u128 = 0xc1c1_c1c1_c1c1_c1c1_c1c1_c1c1_c1c1_c1c1;
pub const PREVIEW_OTHER_PANE: u128 = 0xc2c2_c2c2_c2c2_c2c2_c2c2_c2c2_c2c2_c2c2;

/// One preview Workspace holding one Tab with one Pane titled "Pane 1".
pub open spec fn preview_workspace(
    w: ShellWorkspaceSeed,
    id: u128,
    name: Seq<char>,
    detail: Seq<char>,
    tab: u128,
    tab_title: Seq<char>,
    pane: u128,
    bootstrap: bool,
) -> bool {
    &&& w.id.value() == id
    &&& w.name@ == name
    &&& crate::shell::opt_view(w.detail) == Some(detail)
    &&& !w.attention
    &&& w.active_tab.value() == tab
    &&& w.tabs@.len() == 1
    &&& w.tabs@[0].id.value() == tab
    &&& w.tabs@[0].title@ == tab_title
    &&& !w.tabs@[0].attention
    &&& w.tabs@[0].pane.id.value() == pane
    &&& w.tabs@[0].pane.title@ == "Pane 1"@
    &&& w.tabs@[0].pane.allows_implicit_execution_bootstrap == bootstrap
}

/// Deterministic two-workspace fixture used by chrome/inspector tests:
/// "Seyal OSS" (active; "~/Projects/seyal", Tab "Core Terminal") and
/// "Payments" ("~/Projects/payments", Tab "API"), each with one Pane; Tab
/// creation and splitting are offered.
pub fn preview_shell() -> (r: ShellState)
    ensures
        r.wf(),
        r.spec_workspaces().len() == 2,
        preview_workspace(
            r.spec_workspaces()[0],
            PREVIEW_LOCAL_WORKSPACE,
            "Seyal OSS"@,
            "~/Projects/seyal"@,
            PREVIEW_LOCAL_TAB,
            "Core Terminal"@,
            PREVIEW_LOCAL_PANE,
            true,
        ),
        preview_workspace(
            r.spec_workspaces()[1],
            PREVIEW_OTHER_WORKSPACE,
            "Payments"@,
            "~/Projects/payments"@,
            PREVIEW_OTHER_TAB,
            "API"@,
            PREVIEW_OTHER_PANE,
            false,
        ),
        r.active_workspace().id == r.spec_workspaces()[0].id,
        r.spec_allows_tab_creation(),
        r.spec_allows_pane_splitting(),
{
    let local = WorkspaceId::from_raw(PREVIEW_LOCAL_WORKSPACE);
    let other = WorkspaceId::from_raw(PREVIEW_OTHER_WORKSPACE);
    let local_tab = TabId::from_raw(PREVIEW_LOCAL_TAB);
    let other_tab = TabId::from_raw(PREVIEW_OTHER_TAB);
    let workspaces = vec![
        ShellWorkspaceSeed {
            id: local,
            name: owned("Seyal OSS"),
            detail: Some(owned("~/Projects/seyal")),
            attention: false,
            active_tab: local_tab,
            tabs: vec![
                ShellTabSeed {
                    id: local_tab,
                    title: owned("Core Terminal"),
                    attention: false,
                    pane: ShellPaneSeed {
                        id: PaneId::from_raw(PREVIEW_LOCAL_PANE),
                        title: owned("Pane 1"),
                        allows_implicit_execution_bootstrap: true,
                    },
                },
            ],
        },
        ShellWorkspaceSeed {
            id: other,
            name: owned("Payments"),
            detail: Some(owned("~/Projects/payments")),
            attention: false,
            active_tab: other_tab,
            tabs: vec![
                ShellTabSeed {
                    id: other_tab,
                    title: owned("API"),
                    attention: false,
                    pane: ShellPaneSeed {
                        id: PaneId::from_raw(PREVIEW_OTHER_PANE),
                        title: owned("Pane 1"),
                        allows_implicit_execution_bootstrap: false,
                    },
                },
            ],
        },
    ];
    proof {
        assert(workspaces@[0].tabs@[0].id == workspaces@[0].active_tab);
        assert(workspaces@[1].tabs@[0].id == workspaces@[1].active_tab);
        assert(crate::shell::workspace_wf(workspaces@[0]));
        assert(crate::shell::workspace_wf(workspaces@[1]));
        assert(workspaces@[0].id == local);
    }
    match ShellState::from_workspaces(workspaces, local, true, true) {
        Ok(s) => s,
        Err(_) => vstd::pervasive::unreached(),
    }
}

} // verus!
