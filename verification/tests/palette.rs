use seyal_client::chrome::{
    AgentActivity, AgentId, AgentRecord, AttentionId, AttentionItem, ChromeAction, ChromeState,
};
use seyal_client::ids::{PaneId, TabId, WorkspaceId};
use seyal_client::palette::{
    build_commands, filter, PaletteAction, PaletteCommand, PaletteEntry, PaletteError, PaletteRow,
    PaletteState,
    PALETTE_VISIBLE_ROWS,
};
use seyal_client::shell::{
    ShellAction, ShellPaneSeed, ShellState, ShellTabSeed, ShellWorkspaceSeed, SplitAxis,
};

fn seed_shell() -> ShellState {
    let workspace = WorkspaceId::from_bytes([1; 16]);
    let tab = TabId::from_bytes([1; 16]);
    let pane = PaneId::from_bytes([1; 16]);
    ShellState::from_workspaces(
        vec![ShellWorkspaceSeed {
            id: workspace,
            name: "Seyal OSS".into(),
            detail: None,
            attention: false,
            active_tab: tab,
            tabs: vec![ShellTabSeed {
                id: tab,
                title: "Core Terminal".into(),
                attention: false,
                pane: ShellPaneSeed {
                    id: pane,
                    title: "Pane 1".into(),
                    allows_implicit_execution_bootstrap: true,
                },
            }],
        }],
        workspace,
        true,
        true,
    )
    .expect("seed shell")
}

fn labels(rows: &[PaletteRow]) -> Vec<&str> {
    rows.iter().map(|row| row.label.as_str()).collect()
}

#[test]
fn closed_palette_snapshots_empty_and_every_action_but_open_fails_closed() {
    let shell = seed_shell().snapshot();
    let chrome = ChromeState::new().snapshot(&shell);
    let mut palette = PaletteState::new();
    let snap = palette.snapshot(&shell, &chrome, true, true);
    assert!(!snap.open);
    assert!(snap.rows.is_empty());
    assert!(palette.resolve(&shell, &chrome, true, true).is_none());
    assert_eq!(
        palette.apply(PaletteAction::SetQuery("x".into()), 0),
        Err(PaletteError::NotOpen)
    );
    assert_eq!(
        palette.apply(PaletteAction::MoveSelection(1), 0),
        Err(PaletteError::NotOpen)
    );
    // Close while already closed is idempotent, not an error.
    assert_eq!(palette.apply(PaletteAction::Close, 0), Ok(()));
}

#[test]
fn open_lists_commands_and_reopen_does_not_reset_an_existing_query() {
    let shell = seed_shell().snapshot();
    let chrome = ChromeState::new().snapshot(&shell);
    let mut palette = PaletteState::new();
    palette.apply(PaletteAction::Open, 0).unwrap();
    let snap = palette.snapshot(&shell, &chrome, true, true);
    assert!(snap.open);
    assert!(labels(&snap.rows).contains(&"New Tab"));
    assert!(!labels(&snap.rows).contains(&"Switch to Tab: Core Terminal"));
    palette
        .apply(PaletteAction::SetQuery("split".into()), 0)
        .unwrap();
    palette.apply(PaletteAction::Open, 0).unwrap();
    assert_eq!(palette.query(), "split", "reopen is a no-op while open");
}

fn entry(label: &str) -> PaletteEntry {
    PaletteEntry {
        label: label.to_owned(),
        category: "Test",
        command: PaletteCommand::CreateTab,
    }
}

#[test]
fn filter_ranks_prefix_before_substring_and_is_case_insensitive() {
    let entries = vec![
        entry("Switch to Tab: Agent Development"),
        entry("Tab Strip: Show"),
        entry("Unrelated"),
    ];
    let filtered = filter(&entries, "tab");
    assert_eq!(
        filtered
            .iter()
            .map(|e| e.label.as_str())
            .collect::<Vec<_>>(),
        vec!["Tab Strip: Show", "Switch to Tab: Agent Development"],
        "prefix match ranks before a later substring hit; non-matches are excluded"
    );
}

#[test]
fn filter_caps_results_at_the_visible_row_limit() {
    let entries: Vec<PaletteEntry> = (0..(PALETTE_VISIBLE_ROWS + 5))
        .map(|i| entry(&format!("Command {i}")))
        .collect();
    assert_eq!(filter(&entries, "").len(), PALETTE_VISIBLE_ROWS);
    assert_eq!(filter(&entries, "command").len(), PALETTE_VISIBLE_ROWS);
}

#[test]
fn build_commands_excludes_no_ops_and_includes_split_and_new_tab() {
    let mut shell = seed_shell();
    shell.apply(ShellAction::CreateTab).unwrap();
    let snap = shell.snapshot();
    let chrome = ChromeState::new().snapshot(&snap);
    let mut palette = PaletteState::new();
    palette.apply(PaletteAction::Open, 0).unwrap();
    let rows = palette.snapshot(&snap, &chrome, true, true).rows;
    let labels = labels(&rows);
    assert!(labels.contains(&"New Tab"));
    assert!(labels.contains(&"Split Pane Right"));
    assert!(labels.contains(&"Split Pane Down"));
    // CreateTab made "Terminal 2" the active tab; only the now-inactive
    // "Core Terminal" is offered as a switch target.
    assert!(labels.contains(&"Switch to Tab: Core Terminal"));
    assert!(
        !labels.iter().any(|label| label.contains("Terminal 2")),
        "the active Tab is not offered as a switch target"
    );
    assert!(
        !labels.iter().any(|label| label.starts_with("Focus Pane:")),
        "single-Pane Tab has no other Pane to focus"
    );
}

#[test]
fn move_selection_clamps_and_resets_on_query_change() {
    let shell = seed_shell().snapshot();
    let chrome = ChromeState::new().snapshot(&shell);
    let mut palette = PaletteState::new();
    palette.apply(PaletteAction::Open, 0).unwrap();
    let row_count = palette.snapshot(&shell, &chrome, true, true).rows.len();
    palette
        .apply(PaletteAction::MoveSelection(1), row_count)
        .unwrap();
    assert_eq!(palette.snapshot(&shell, &chrome, true, true).selected, 1);
    palette
        .apply(PaletteAction::MoveSelection(50), row_count)
        .unwrap();
    assert_eq!(
        palette.snapshot(&shell, &chrome, true, true).selected,
        row_count - 1
    );
    palette
        .apply(PaletteAction::MoveSelection(-50), row_count)
        .unwrap();
    assert_eq!(palette.snapshot(&shell, &chrome, true, true).selected, 0);
    palette
        .apply(PaletteAction::SetQuery("split".into()), row_count)
        .unwrap();
    assert_eq!(
        palette.snapshot(&shell, &chrome, true, true).selected,
        0,
        "filter change resets selection"
    );
}

#[test]
fn resolve_tracks_selection_and_closing_stops_resolving() {
    let shell = seed_shell().snapshot();
    let chrome = ChromeState::new().snapshot(&shell);
    let mut palette = PaletteState::new();
    palette.apply(PaletteAction::Open, 0).unwrap();
    palette
        .apply(PaletteAction::SetQuery("split pane down".into()), 0)
        .unwrap();
    assert_eq!(
        palette.resolve(&shell, &chrome, true, true),
        Some(PaletteCommand::SplitFocused(SplitAxis::Down))
    );
    palette.close();
    assert!(!palette.is_open());
    assert!(palette.resolve(&shell, &chrome, true, true).is_none());
    assert_eq!(palette.query(), "", "close clears the query");
}

#[test]
fn no_match_resolves_to_none() {
    let shell = seed_shell().snapshot();
    let chrome = ChromeState::new().snapshot(&shell);
    let mut palette = PaletteState::new();
    palette.apply(PaletteAction::Open, 0).unwrap();
    palette
        .apply(PaletteAction::SetQuery("zzz-no-such-command".into()), 0)
        .unwrap();
    assert!(palette
        .snapshot(&shell, &chrome, true, true)
        .rows
        .is_empty());
    assert!(palette.resolve(&shell, &chrome, true, true).is_none());
}

#[test]
fn attention_and_agent_rows_are_sourced_only_from_chrome() {
    let shell = seed_shell().snapshot();
    let mut chrome = ChromeState::new();
    chrome
        .apply(
            ChromeAction::ReplaceAgents {
                workspace: shell.active_workspace,
                agents: vec![AgentRecord {
                    id: AgentId::new("agent-1"),
                    name: "Pilot".into(),
                    activity: AgentActivity::Running,
                }],
            },
            &shell,
        )
        .unwrap();
    chrome
        .apply(
            ChromeAction::ReplaceAttention {
                items: vec![AttentionItem {
                    id: AttentionId::new("att-1"),
                    title: "Build failed".into(),
                    detail: "exit 1".into(),
                    workspace: None,
                    tab: None,
                    agent: None,
                }],
            },
            &shell,
        )
        .unwrap();
    let snap = chrome.snapshot(&shell);
    let mut palette = PaletteState::new();
    palette.apply(PaletteAction::Open, 0).unwrap();
    let rows = palette.snapshot(&shell, &snap, true, true).rows;
    assert!(labels(&rows).contains(&"Attention: Build failed"));
    assert!(labels(&rows).contains(&"Focus Agent: Pilot"));
    // A selected agent is not offered again.
    chrome
        .apply(
            ChromeAction::SelectAgent {
                id: AgentId::new("agent-1"),
            },
            &shell,
        )
        .unwrap();
    let after = chrome.snapshot(&shell);
    let rows = palette.snapshot(&shell, &after, true, true).rows;
    assert!(!labels(&rows).contains(&"Focus Agent: Pilot"));
}

#[test]
fn build_commands_omits_create_tab_and_split_when_shell_policy_disallows_them() {
    let shell = ShellState::m001_local("local").snapshot();
    let chrome = ChromeState::new().snapshot(&shell);
    let mut palette = PaletteState::new();
    palette.apply(PaletteAction::Open, 0).unwrap();
    let rows = palette.snapshot(&shell, &chrome, false, false).rows;
    let labels = labels(&rows);
    assert!(!labels.contains(&"New Tab"));
    assert!(!labels.contains(&"Split Pane Right"));
    assert!(!labels.contains(&"Split Pane Down"));
    assert!(
        !labels.is_empty(),
        "view/inspector toggle commands remain available"
    );
}

#[test]
fn view_and_inspector_rows_follow_current_chrome() {
    let shell = seed_shell().snapshot();
    let chrome = ChromeState::new().snapshot(&shell);
    let mut palette = PaletteState::new();
    palette.apply(PaletteAction::Open, 0).unwrap();
    let rows = palette.snapshot(&shell, &chrome, false, false).rows;
    let labels = labels(&rows);
    assert_eq!(
        labels,
        vec![
            "Show Tabs in Left Panel",
            "Hide Left Panel",
            "Hide Inspector",
            "Hide Tab Strip",
            "Inspector: Workspace",
            "Inspector: Tab",
            "Inspector: Pane",
        ]
    );
    assert_eq!(rows[0].category, "View");
}

#[test]
fn resolve_picks_the_clamped_selection() {
    let shell = seed_shell().snapshot();
    let chrome = ChromeState::new().snapshot(&shell);
    let mut palette = PaletteState::new();
    palette.apply(PaletteAction::Open, 0).unwrap();
    palette.apply(PaletteAction::SetQuery("hide".into()), 0).unwrap();
    palette.apply(PaletteAction::MoveSelection(10), 3).unwrap();
    assert_eq!(
        palette.resolve(&shell, &chrome, true, true),
        Some(PaletteCommand::SetShellVisibility {
            left: true,
            inspector: true,
            tab_strip: false,
        })
    );
    assert_eq!(PaletteError::NotOpen.message(), "Command palette is not open.");
}

#[test]
fn build_commands_offers_each_command_once() {
    let mut shell = seed_shell();
    shell.apply(ShellAction::CreateTab).unwrap();
    let snap = shell.snapshot();
    let chrome = ChromeState::new().snapshot(&snap);
    let entries = build_commands(&snap, &chrome, true, true);
    for (i, a) in entries.iter().enumerate() {
        for b in entries.iter().skip(i + 1) {
            assert_ne!(a.command, b.command);
        }
    }
    let without = build_commands(&snap, &chrome, false, false);
    assert!(!without.iter().any(|e| e.command == PaletteCommand::CreateTab));
    assert!(!without
        .iter()
        .any(|e| e.command == PaletteCommand::SplitFocused(SplitAxis::Right)));
    assert!(!entries
        .iter()
        .any(|e| e.command == PaletteCommand::SwitchTab(snap.active_tab)));
}
