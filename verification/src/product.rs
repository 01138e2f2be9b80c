//! Combined headed product session for the thin native host.
//!
//! Owns the portable reducers (shell, chrome, composer, presentation) and
//! exposes one action/snapshot seam.

use vstd::prelude::*;

use crate::chrome::{
    chrome_wf, dash_string, find_pane_row, find_tab_row, find_workspace_row, or_dash,
    pane_row_from, tab_row_from, workspace_row_from, ChromeAction, ChromeModel, ChromeState,
    LeftPanelMode,
};
use crate::composer::{
    after_request, bumped, spec_can_submit, spec_composer_error_message, spec_mode, ComposerAction,
    ComposerError, ComposerMode, ComposerModel, ComposerState, PaneModel,
};
use crate::ids::PaneId;
use crate::presentation::{PresentationMode, PresentationModel, PresentationSession, spec_route};
use crate::shell::{ShellSnapshot, ShellState};
use crate::text::{copy_string, owned};

verus! {

/// One headed product session. Hosts dispatch `ProductAction` and render
/// `ProductSnapshot`.
#[derive(Debug)]
pub struct ProductSession {
    shell: ShellState,
    chrome: ChromeState,
    composer: ComposerState,
    presentation: PresentationSession,
}

#[derive(Clone, Debug, PartialEq, Eq)]
pub enum ProductAction {
    SetDraft(String),
    Submit,
    SetLeftPanelWorkspaces,
    SetLeftPanelTabs,
}

#[derive(Clone, Debug, PartialEq, Eq)]
pub struct ProductSnapshot {
    pub shell: ShellSnapshot,
    pub workspace_name: String,
    pub tab_title: String,
    pub pane_title: String,
    pub draft: String,
    pub can_submit: bool,
    pub composer_hidden: bool,
    pub composer_busy: bool,
    pub composer_epoch: u64,
    pub presentation: PresentationMode,
    pub left_panel_tabs: bool,
}

/// What submitting the focused draft yields: an empty draft and an
/// unavailable composer are rejected; otherwise the next request id.
pub open spec fn submit_outcome(p: PaneModel) -> Result<Option<u64>, ComposerError> {
    if p.draft.len() == 0 {
        Err(ComposerError::EmptyDraft)
    } else if !spec_can_submit(p) {
        Err(ComposerError::SubmitDisabled)
    } else {
        Ok(Some(p.next_request_id))
    }
}

/// The focused composer after a successful submit.
pub open spec fn submitted(p: PaneModel) -> PaneModel {
    PaneModel {
        pending_request_id: Some(p.next_request_id),
        next_request_id: after_request(p.next_request_id),
        epoch: bumped(p.epoch),
        ..p
    }
}

impl ProductSession {
    pub closed spec fn shell_state(&self) -> ShellState {
        self.shell
    }

    pub closed spec fn chrome_model(&self) -> ChromeModel {
        self.chrome@
    }

    pub closed spec fn composer_model(&self) -> ComposerModel {
        self.composer.model()
    }

    pub closed spec fn presentation_model(&self) -> PresentationModel {
        self.presentation@
    }

    /// The focused Pane of the composition.
    pub open spec fn focused(&self) -> PaneId {
        self.shell_state().focused_pane()
    }

    /// The composition is well formed and the focused Pane has a composer.
    pub open spec fn wf(&self) -> bool {
        &&& self.shell_state().wf()
        &&& chrome_wf(self.chrome_model())
        &&& self.composer_model().panes.contains_key(self.focused())
    }

    /// The M001 local session: one Workspace, Tab and Pane, a Flow
    /// presentation, and a fresh composer for the focused Pane.
    pub fn m001_local(detail: &str) -> (r: Self)
        ensures
            r.wf(),
            r.composer_model().panes.dom() == set![r.focused()],
            r.composer_model().panes[r.focused()] == crate::composer::fresh_pane(),
            r.presentation_model() == (PresentationModel {
                mode: PresentationMode::Flow,
                identity: None,
                epoch: 1,
                input_route: spec_route(PresentationMode::Flow),
                last_transition_was_explicit: false,
            }),
            r.chrome_model() == crate::chrome::initial_chrome(),
            r.shell_state().spec_workspaces().len() == 1,
            r.shell_state().active_workspace().name@ == "Local"@,
            crate::shell::opt_view(r.shell_state().active_workspace().detail) == Some(detail@),
            r.shell_state().active_workspace().id.value() == crate::ids::DEFAULT_WORKSPACE,
            r.shell_state().active_workspace().tabs@.len() == 1,
            r.shell_state().active_workspace().tabs@[0].title@ == "Terminal"@,
            r.shell_state().active_workspace().tabs@[0].id.value() == crate::shell::LOCAL_TAB,
            r.shell_state().active_workspace().tabs@[0].pane.title@ == "Pane 1"@,
            r.shell_state().active_workspace().tabs@[0].pane.id.value()
                == crate::shell::LOCAL_PANE,
            r.shell_state().active_workspace().active_tab
                == r.shell_state().active_workspace().tabs@[0].id,
            !r.shell_state().spec_allows_tab_creation(),
            !r.shell_state().spec_allows_pane_splitting(),
    {
        let shell = ShellState::m001_local(detail);
        let focused = shell.snapshot().focused_pane;
        let mut composer = ComposerState::new();
        let _ = composer.apply(ComposerAction::EnsurePane { pane: focused });
        assert(composer.model().panes =~= Map::<PaneId, PaneModel>::empty().insert(
            focused,
            crate::composer::fresh_pane(),
        ));
        ProductSession {
            chrome: ChromeState::new(),
            composer,
            presentation: PresentationSession::new(None, PresentationMode::Flow),
            shell,
        }
    }

    fn focused_pane(&self) -> (r: PaneId)
        requires
            self.shell_state().wf(),
        ensures
            r == self.focused(),
    {
        self.shell.snapshot().focused_pane
    }

    fn message(e: ComposerError) -> (r: String)
        ensures
            r@ == spec_composer_error_message(e),
    {
        owned(e.message())
    }

    /// Apply one product action to the focused Pane's composer or the chrome.
    /// The composition and presentation are never changed.
    pub fn apply(&mut self, action: ProductAction) -> (r: Result<(), String>)
        requires
            old(self).wf(),
        ensures
            final(self).wf(),
            final(self).shell_state() == old(self).shell_state(),
            final(self).presentation_model() == old(self).presentation_model(),
            ({
                let f = old(self).focused();
                let oc = old(self).composer_model();
                let p = oc.panes[f];
                match action {
                    ProductAction::SetDraft(text) => {
                        &&& r is Ok
                        &&& final(self).chrome_model() == old(self).chrome_model()
                        &&& final(self).composer_model() == ComposerModel {
                            panes: oc.panes.insert(f, PaneModel { draft: text@, ..p }),
                            last_error: None,
                        }
                    },
                    ProductAction::Submit => {
                        &&& final(self).chrome_model() == old(self).chrome_model()
                        &&& match submit_outcome(p) {
                            Ok(_) => r is Ok && final(self).composer_model() == ComposerModel {
                                panes: oc.panes.insert(f, submitted(p)),
                                last_error: None,
                            },
                            Err(e) => (r matches Err(s) && s@ == spec_composer_error_message(e))
                                && final(self).composer_model() == ComposerModel {
                                panes: oc.panes,
                                last_error: Some(e),
                            },
                        }
                    },
                    ProductAction::SetLeftPanelWorkspaces => {
                        &&& r is Ok
                        &&& final(self).composer_model() == oc
                        &&& final(self).chrome_model() == ChromeModel {
                            left_panel: LeftPanelMode::Workspaces,
                            selected_agent: None,
                            last_error: None,
                            ..old(self).chrome_model()
                        }
                    },
                    ProductAction::SetLeftPanelTabs => {
                        &&& r is Ok
                        &&& final(self).composer_model() == oc
                        &&& final(self).chrome_model() == ChromeModel {
                            left_panel: LeftPanelMode::Tabs,
                            selected_agent: None,
                            last_error: None,
                            ..old(self).chrome_model()
                        }
                    },
                }
            }),
    {
        let pane = self.focused_pane();
        match action {
            ProductAction::SetDraft(text) => {
                let epoch = match self.composer.snapshot(pane) {
                    Ok(s) => s.epoch,
                    Err(e) => {
                        return Err(Self::message(e));
                    },
                };
                match self.composer.apply(ComposerAction::SetDraft { pane, text, epoch }) {
                    Ok(_) => Ok(()),
                    Err(e) => Err(Self::message(e)),
                }
            },
            ProductAction::Submit => {
                let epoch = match self.composer.snapshot(pane) {
                    Ok(s) => s.epoch,
                    Err(e) => {
                        return Err(Self::message(e));
                    },
                };
                match self.composer.apply(ComposerAction::Submit { pane, epoch }) {
                    Ok(_) => Ok(()),
                    Err(e) => Err(Self::message(e)),
                }
            },
            ProductAction::SetLeftPanelWorkspaces => {
                let shell = self.shell.snapshot();
                match self.chrome.apply(ChromeAction::SetLeftPanel(LeftPanelMode::Workspaces), &shell) {
                    Ok(_) => Ok(()),
                    Err(e) => Err(owned(e.message())),
                }
            },
            ProductAction::SetLeftPanelTabs => {
                let shell = self.shell.snapshot();
                match self.chrome.apply(ChromeAction::SetLeftPanel(LeftPanelMode::Tabs), &shell) {
                    Ok(_) => Ok(()),
                    Err(e) => Err(owned(e.message())),
                }
            },
        }
    }

    /// Project the session: the composition, the active names, the focused
    /// composer, the presentation mode and the left-panel mode.
    pub fn snapshot(&self) -> (r: ProductSnapshot)
        requires
            self.wf(),
        ensures
            self.shell_state().is_snapshot_of(r.shell),
            r.workspace_name@ == or_dash(
                match workspace_row_from(r.shell.workspaces@, r.shell.active_workspace, 0) {
                    Some(w) => Some(w.name@),
                    None => None,
                },
            ),
            r.tab_title@ == or_dash(
                match tab_row_from(r.shell.tabs@, r.shell.active_tab, 0) {
                    Some(t) => Some(t.title@),
                    None => None,
                },
            ),
            r.pane_title@ == or_dash(
                match pane_row_from(r.shell.panes@, r.shell.focused_pane, 0) {
                    Some(p) => Some(p.title@),
                    None => None,
                },
            ),
            ({
                let p = self.composer_model().panes[self.focused()];
                &&& r.draft@ == p.draft
                &&& r.can_submit == spec_can_submit(p)
                &&& r.composer_hidden == (spec_mode(p) is Hidden)
                &&& r.composer_busy == (spec_mode(p) is Busy)
                &&& r.composer_epoch == p.epoch
            }),
            r.presentation == self.presentation_model().mode,
            r.left_panel_tabs == (self.chrome_model().left_panel == LeftPanelMode::Tabs),
    {
        let shell = self.shell.snapshot();
        let chrome = self.chrome.snapshot(&shell);
        let composer = match self.composer.snapshot(shell.focused_pane) {
            Ok(s) => s,
            Err(_) => vstd::pervasive::unreached(),
        };
        let workspace_name = match find_workspace_row(&shell.workspaces, shell.active_workspace) {
            Some(k) => copy_string(&shell.workspaces[k].name),
            None => dash_string(),
        };
        let tab_title = match find_tab_row(&shell.tabs, shell.active_tab) {
            Some(k) => copy_string(&shell.tabs[k].title),
            None => dash_string(),
        };
        let pane_title = match find_pane_row(&shell.panes, shell.focused_pane) {
            Some(k) => copy_string(&shell.panes[k].title),
            None => dash_string(),
        };
        let composer_hidden = match composer.mode {
            ComposerMode::Hidden => true,
            _ => false,
        };
        let composer_busy = match composer.mode {
            ComposerMode::Busy { .. } => true,
            _ => false,
        };
        ProductSnapshot {
            shell,
            workspace_name,
            tab_title,
            pane_title,
            draft: composer.draft,
            can_submit: composer.can_submit,
            composer_hidden,
            composer_busy,
            composer_epoch: composer.epoch,
            presentation: self.presentation.snapshot().mode,
            left_panel_tabs: chrome.left_panel == LeftPanelMode::Tabs,
        }
    }
}

} // verus!
