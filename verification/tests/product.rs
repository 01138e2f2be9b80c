use seyal_client::fixtures::{preview_shell, production_session};
use seyal_client::presentation::PresentationMode;
use seyal_client::product::{ProductAction, ProductSession};

#[test]
fn m001_session_exposes_flow_composer_without_swift_state() {
    let session = ProductSession::m001_local("~/Projects/seyal");
    let snap = session.snapshot();
    assert_eq!(snap.workspace_name, "Local");
    assert_eq!(snap.tab_title, "Terminal");
    assert_eq!(snap.presentation, PresentationMode::Flow);
    assert!(!snap.composer_hidden);
    assert!(!snap.can_submit);
    assert!(snap.draft.is_empty());
}

#[test]
fn draft_and_submit_are_rust_actions() {
    let mut session = ProductSession::m001_local("local");
    session
        .apply(ProductAction::SetDraft("echo hi".into()))
        .unwrap();
    assert_eq!(session.snapshot().draft, "echo hi");
    assert!(session.snapshot().can_submit);
    session.apply(ProductAction::Submit).unwrap();
    assert_eq!(session.snapshot().draft, "echo hi");
    assert!(session.snapshot().composer_busy);
    assert!(!session.snapshot().can_submit);
}

#[test]
fn left_panel_action_does_not_invent_workspace_identities() {
    let mut session = ProductSession::m001_local("local");
    let before = session.snapshot().shell.active_workspace;
    session.apply(ProductAction::SetLeftPanelTabs).unwrap();
    let after = session.snapshot();
    assert!(after.left_panel_tabs);
    assert_eq!(after.shell.active_workspace, before);
    assert_eq!(after.shell.workspaces.len(), 1);
}

#[test]
fn rust_fixtures_replace_swift_preview_construction() {
    let production = production_session().snapshot();
    assert_eq!(production.workspace_name, "Local");
    assert!(production.draft.is_empty());
    let preview = preview_shell().snapshot();
    assert_eq!(preview.workspaces.len(), 2);
    assert_eq!(preview.workspaces[0].name, "Seyal OSS");
}

#[test]
fn submitting_an_empty_draft_reports_the_composer_message() {
    let mut session = ProductSession::m001_local("local");
    assert_eq!(
        session.apply(ProductAction::Submit),
        Err("Composer draft is empty.".to_string())
    );
    session.apply(ProductAction::SetDraft("ls".into())).unwrap();
    session.apply(ProductAction::Submit).unwrap();
    assert_eq!(
        session.apply(ProductAction::Submit),
        Err("Composer submit is unavailable.".to_string())
    );
    session.apply(ProductAction::SetLeftPanelWorkspaces).unwrap();
    assert!(!session.snapshot().left_panel_tabs);
    assert_eq!(session.snapshot().pane_title, "Pane 1");
}
