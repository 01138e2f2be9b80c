use seyal_client::chrome::{
    AgentActivity, AgentId, AgentRecord, AttentionId, AttentionItem, CenterSurface,
    ChromeAction, ChromeError, ChromeSnapshot, ChromeState, InspectorMode, LeftPanelMode,
};
use seyal_client::chrome_palette::PaletteCommandId;
use seyal_client::composer::{BlockPresentationState, BlockProjection};
use seyal_client::ids::{BlockId, PaneId, TabId, WorkspaceId};
use seyal_client::shell::{ShellAction, ShellPaneSeed, ShellSnapshot, ShellState, ShellTabSeed, ShellWorkspaceSeed};

fn workspace(tag: u8) -> WorkspaceId {
    WorkspaceId::from_bytes([tag; 16])
}

fn tab(tag: u8) -> TabId {
    TabId::from_bytes([tag; 16])
}

fn pane(tag: u8) -> PaneId {
    PaneId::from_bytes([tag; 16])
}

fn seed_shell() -> ShellState {
    let local = workspace(1);
    let other = workspace(2);
    let local_tab = tab(1);
    let agent_tab = tab(2);
    let other_tab = tab(3);
    ShellState::from_workspaces(
        vec![
            ShellWorkspaceSeed {
                id: local,
                name: "Seyal OSS".into(),
                detail: Some("~/Projects/seyal".into()),
                attention: false,
                active_tab: local_tab,
                tabs: vec![
                    ShellTabSeed {
                        id: local_tab,
                        title: "Core Terminal".into(),
                        attention: false,
                        pane: ShellPaneSeed {
                            id: pane(1),
                            title: "Pane 1".into(),
                            allows_implicit_execution_bootstrap: true,
                        },
                    },
                    ShellTabSeed {
                        id: agent_tab,
                        title: "Agent Development".into(),
                        attention: false,
                        pane: ShellPaneSeed {
                            id: pane(2),
                            title: "Pane 2".into(),
                            allows_implicit_execution_bootstrap: false,
                        },
                    },
                ],
            },
            ShellWorkspaceSeed {
                id: other,
                name: "Payments".into(),
                detail: Some("~/Projects/payments".into()),
                attention: true,
                active_tab: other_tab,
                tabs: vec![ShellTabSeed {
                    id: other_tab,
                    title: "API".into(),
                    attention: false,
                    pane: ShellPaneSeed {
                        id: pane(3),
                        title: "Pane 1".into(),
                        allows_implicit_execution_bootstrap: false,
                    },
                }],
            },
        ],
        local,
        true,
        true,
    )
    .expect("seed")
}

fn pilot() -> AgentRecord {
    AgentRecord {
        id: AgentId::new("agent-pilot"),
        name: "Pilot Code".into(),
        activity: AgentActivity::Running,
    }
}

fn seed_agents(chrome: &mut ChromeState, shell: &ShellSnapshot) {
    chrome
        .apply(
            ChromeAction::ReplaceAgents {
                workspace: shell.active_workspace,
                agents: vec![
                    pilot(),
                    AgentRecord {
                        id: AgentId::new("agent-codex"),
                        name: "Codex".into(),
                        activity: AgentActivity::Attention,
                    },
                ],
            },
            shell,
        )
        .unwrap();
}

#[test]
fn inspector_does_not_fabricate_runtime_telemetry() {
    let shell = seed_shell();
    let snap = shell.snapshot();
    let mut chrome = ChromeState::new();
    seed_agents(&mut chrome, &snap);
    let rows = chrome.snapshot(&snap).inspector_rows;
    let labels: Vec<_> = rows.iter().map(|row| row.label.as_str()).collect();
    assert_eq!(
        labels,
        ["Name", "Path", "Name", "Panes", "Layout", "Pane", "Focus"]
    );
    assert!(rows.iter().all(|row| {
        !row.label.contains("CPU")
            && !row.label.contains("RSS")
            && !row.label.contains("PTY")
            && !row.value.contains("pid")
    }));
    assert_eq!(rows[0].value, "Seyal OSS");
    assert_eq!(rows[1].value, "~/Projects/seyal");
}

#[test]
fn inspector_mode_filters_existing_context_only() {
    let shell = seed_shell();
    let snap = shell.snapshot();
    let mut chrome = ChromeState::new();
    chrome
        .apply(ChromeAction::SetInspectorMode(InspectorMode::Tab), &snap)
        .unwrap();
    let visible = chrome.snapshot(&snap).visible_inspector_rows;
    assert!(visible.iter().all(|row| row.section == "Tab"));
    assert_eq!(visible.len(), 3);
    assert!(!visible.iter().any(|row| row.section == "Workspace"));
}

#[test]
fn selected_agent_uses_activity_rows_not_runtime_metrics() {
    let shell = seed_shell();
    let snap = shell.snapshot();
    let mut chrome = ChromeState::new();
    seed_agents(&mut chrome, &snap);
    chrome
        .apply(
            ChromeAction::SelectAgent {
                id: AgentId::new("agent-pilot"),
            },
            &snap,
        )
        .unwrap();
    let rows = chrome.snapshot(&snap).inspector_rows;
    assert_eq!(rows[0].section, "Agent");
    assert_eq!(rows[0].value, "Pilot Code");
    assert_eq!(rows[1].value, "Running");
    assert!(rows.iter().all(|row| row.label != "CPU"));
}

#[test]
fn left_panel_mode_does_not_invent_workspace_or_tab_identities() {
    let mut shell = seed_shell();
    let before = shell.snapshot();
    let mut chrome = ChromeState::new();
    chrome
        .apply(ChromeAction::SetLeftPanel(LeftPanelMode::Tabs), &before)
        .unwrap();
    let after_shell = shell.snapshot();
    assert_eq!(after_shell.active_workspace, before.active_workspace);
    assert_eq!(after_shell.active_tab, before.active_tab);
    assert_eq!(after_shell.workspaces, before.workspaces);
    assert_eq!(
        chrome.snapshot(&after_shell).left_panel,
        LeftPanelMode::Tabs
    );
    assert!(chrome.snapshot(&after_shell).selected_agent.is_none());
    shell.apply(ShellAction::SelectTab { id: tab(2) }).unwrap();
    chrome
        .apply(ChromeAction::ContextNavigated, &shell.snapshot())
        .unwrap();
    assert_eq!(shell.snapshot().active_tab, tab(2));
    assert!(chrome.snapshot(&shell.snapshot()).selected_agent.is_none());
}

#[test]
fn core_terminal_chrome_is_visible_by_default_and_can_recede() {
    let shell = seed_shell();
    let snap = shell.snapshot();
    let mut chrome = ChromeState::new();
    let initial = chrome.snapshot(&snap);
    assert!(initial.left_visible);
    assert!(initial.inspector_visible);
    assert!(initial.tab_strip_visible);
    chrome
        .apply(
            ChromeAction::SetShellVisibility {
                left: false,
                inspector: false,
                tab_strip: false,
            },
            &snap,
        )
        .unwrap();
    let receded = chrome.snapshot(&snap);
    assert!(!receded.left_visible);
    assert!(!receded.inspector_visible);
    assert!(!receded.tab_strip_visible);
}

#[test]
fn attention_popover_toggles_and_closes_on_open() {
    let shell = seed_shell();
    let snap = shell.snapshot();
    let mut chrome = ChromeState::new();
    assert!(!chrome.snapshot(&snap).attention_popover_open);
    chrome
        .apply(ChromeAction::SetAttentionPopover { open: true }, &snap)
        .unwrap();
    assert!(chrome.snapshot(&snap).attention_popover_open);
    seed_agents(&mut chrome, &snap);
    chrome
        .apply(
            ChromeAction::ReplaceAttention {
                items: vec![AttentionItem {
                    id: AttentionId::new("attention-preview-tab"),
                    title: "Preview attention item".into(),
                    detail: "Open Agent Development".into(),
                    workspace: Some(workspace(1)),
                    tab: Some(tab(2)),
                    agent: Some(AgentId::new("agent-codex")),
                }],
            },
            &snap,
        )
        .unwrap();
    chrome
        .apply(
            ChromeAction::OpenAttention {
                id: AttentionId::new("attention-preview-tab"),
            },
            &snap,
        )
        .unwrap();
    assert!(!chrome.snapshot(&shell.snapshot()).attention_popover_open);
    assert!(chrome
        .snapshot(&shell.snapshot())
        .attention_items
        .is_empty());
}

#[test]
fn attention_item_navigates_then_dismisses() {
    let mut shell = seed_shell();
    let snap = shell.snapshot();
    let mut chrome = ChromeState::new();
    seed_agents(&mut chrome, &snap);
    chrome
        .apply(
            ChromeAction::ReplaceAttention {
                items: vec![AttentionItem {
                    id: AttentionId::new("attention-preview-tab"),
                    title: "Preview attention item".into(),
                    detail: "Open Agent Development".into(),
                    workspace: Some(workspace(1)),
                    tab: Some(tab(2)),
                    agent: Some(AgentId::new("agent-codex")),
                }],
            },
            &snap,
        )
        .unwrap();
    let effect = chrome
        .apply(
            ChromeAction::OpenAttention {
                id: AttentionId::new("attention-preview-tab"),
            },
            &snap,
        )
        .unwrap();
    assert_eq!(effect.select_workspace, Some(workspace(1)));
    assert_eq!(effect.select_tab, Some(tab(2)));
    if let Some(id) = effect.select_workspace {
        shell.apply(ShellAction::SelectWorkspace { id }).unwrap();
    }
    if let Some(id) = effect.select_tab {
        shell.apply(ShellAction::SelectTab { id }).unwrap();
    }
    let after = chrome.snapshot(&shell.snapshot());
    assert!(after.attention_items.is_empty());
    assert_eq!(after.selected_agent, Some(AgentId::new("agent-codex")));
    assert_eq!(shell.snapshot().active_tab, tab(2));
}

#[test]
fn unknown_attention_or_agent_fails_closed() {
    let shell = seed_shell();
    let snap = shell.snapshot();
    let mut chrome = ChromeState::new();
    seed_agents(&mut chrome, &snap);
    assert_eq!(
        chrome.apply(
            ChromeAction::OpenAttention {
                id: AttentionId::new("missing")
            },
            &snap
        ),
        Err(ChromeError::UnknownAttention)
    );
    assert_eq!(
        chrome.apply(
            ChromeAction::SelectAgent {
                id: AgentId::new("ghost")
            },
            &snap
        ),
        Err(ChromeError::UnknownAgent)
    );
    assert!(chrome.snapshot(&snap).attention_items.is_empty());
    assert!(chrome.snapshot(&snap).selected_agent.is_none());
}

#[test]
fn attention_unknown_workspace_does_not_dismiss() {
    let shell = seed_shell();
    let snap = shell.snapshot();
    let mut chrome = ChromeState::new();
    chrome
        .apply(
            ChromeAction::ReplaceAttention {
                items: vec![AttentionItem {
                    id: AttentionId::new("bad-workspace"),
                    title: "Ghost".into(),
                    detail: "Missing".into(),
                    workspace: Some(workspace(9)),
                    tab: None,
                    agent: None,
                }],
            },
            &snap,
        )
        .unwrap();
    assert_eq!(
        chrome.apply(
            ChromeAction::OpenAttention {
                id: AttentionId::new("bad-workspace")
            },
            &snap
        ),
        Err(ChromeError::UnknownWorkspace)
    );
    assert_eq!(chrome.snapshot(&snap).attention_items.len(), 1);
}

#[test]
fn palette_opens_filters_runs_and_dismisses() {
    let shell = seed_shell();
    let snap = shell.snapshot();
    let mut chrome = ChromeState::new();
    assert!(!chrome.snapshot(&snap).palette_open);
    chrome
        .apply(ChromeAction::SetPaletteOpen { open: true }, &snap)
        .unwrap();
    let open = chrome.snapshot(&snap);
    assert!(open.palette_open);
    assert!(open.palette_query.is_empty());
    assert_eq!(open.palette_selected, 0);
    assert!(!open.palette_commands.is_empty());
    chrome
        .apply(
            ChromeAction::SetPaletteQuery {
                query: "split".into(),
            },
            &snap,
        )
        .unwrap();
    let filtered = chrome.snapshot(&snap);
    assert_eq!(filtered.palette_commands.len(), 2);
    assert_eq!(filtered.palette_commands[0].id, "split-right");
    chrome
        .apply(ChromeAction::PaletteMove { delta: 1 }, &snap)
        .unwrap();
    assert_eq!(chrome.snapshot(&snap).palette_selected, 1);
    let effect = chrome.apply(ChromeAction::PaletteRun, &snap).unwrap();
    assert_eq!(effect.palette_command, Some(PaletteCommandId::SplitDown));
    let closed = chrome.snapshot(&snap);
    assert!(!closed.palette_open);
    assert!(closed.palette_query.is_empty());
    assert!(closed.palette_commands.is_empty());
}

#[test]
fn palette_run_fails_closed_when_empty() {
    let shell = seed_shell();
    let snap = shell.snapshot();
    let mut chrome = ChromeState::new();
    assert_eq!(
        chrome.apply(ChromeAction::PaletteRun, &snap),
        Err(ChromeError::EmptyPaletteSelection)
    );
    chrome
        .apply(ChromeAction::SetPaletteOpen { open: true }, &snap)
        .unwrap();
    chrome
        .apply(
            ChromeAction::SetPaletteQuery {
                query: "no-such-command".into(),
            },
            &snap,
        )
        .unwrap();
    assert!(chrome.snapshot(&snap).palette_commands.is_empty());
    assert_eq!(
        chrome.apply(ChromeAction::PaletteRun, &snap),
        Err(ChromeError::EmptyPaletteSelection)
    );
    assert!(chrome.snapshot(&snap).palette_open);
    chrome
        .apply(ChromeAction::SetPaletteOpen { open: false }, &snap)
        .unwrap();
    assert!(!chrome.snapshot(&snap).palette_open);
}

fn sample_blocks(pane: PaneId) -> Vec<BlockProjection> {
    vec![
        BlockProjection {
            pane,
            id: BlockId::from_bytes([0x21; 16]),
            command: "echo hi".into(),
            state: BlockPresentationState::Completed,
            start_line: 1,
            end_line: Some(1),
            exit_status: Some(0),
        },
        BlockProjection {
            pane,
            id: BlockId::from_bytes([0x22; 16]),
            command: "sleep 1".into(),
            state: BlockPresentationState::Running,
            start_line: 2,
            end_line: None,
            exit_status: None,
        },
    ]
}

#[test]
fn blocks_mode_is_empty_when_focused_pane_has_no_blocks() {
    let shell = seed_shell();
    let snap = shell.snapshot();
    let mut chrome = ChromeState::new();
    chrome
        .apply(ChromeAction::SetInspectorMode(InspectorMode::Blocks), &snap)
        .unwrap();
    let visible = chrome
        .snapshot_with_blocks(&snap, &[])
        .visible_inspector_rows;
    assert!(visible.is_empty());
    assert!(visible.iter().all(|row| !row.label.contains("CPU")));
}

#[test]
fn block_inspector_rows_come_from_rust_projection_only() {
    let shell = seed_shell();
    let snap = shell.snapshot();
    let mut chrome = ChromeState::new();
    let blocks = sample_blocks(snap.focused_pane);
    chrome
        .apply(ChromeAction::SetInspectorMode(InspectorMode::Blocks), &snap)
        .unwrap();
    let visible = chrome
        .snapshot_with_blocks(&snap, &blocks)
        .visible_inspector_rows;
    assert_eq!(visible.len(), 2);
    assert!(visible.iter().all(|row| row.section == "Block"));
    assert_eq!(visible[0].value, "echo hi · Completed");
    assert_eq!(visible[1].value, "sleep 1 · Running");
    assert!(visible.iter().all(|row| {
        !row.label.contains("CPU")
            && !row.label.contains("RSS")
            && !row.label.contains("Duration")
            && !row.value.contains("pid")
    }));
}

#[test]
fn selected_block_shows_authoritative_detail_fields_only() {
    let shell = seed_shell();
    let snap = shell.snapshot();
    let mut chrome = ChromeState::new();
    let blocks = sample_blocks(snap.focused_pane);
    chrome
        .apply_with_blocks(
            ChromeAction::SelectBlock { id: blocks[0].id },
            &snap,
            &blocks,
        )
        .unwrap();
    let after = chrome.snapshot_with_blocks(&snap, &blocks);
    assert_eq!(after.inspector_mode, InspectorMode::Blocks);
    assert_eq!(after.selected_block, Some(blocks[0].id));
    let labels: Vec<_> = after
        .visible_inspector_rows
        .iter()
        .map(|row| row.label.as_str())
        .collect();
    assert_eq!(
        labels,
        [
            "Command",
            "State",
            "Start line",
            "End line",
            "Exit code",
            "Pane"
        ]
    );
    assert_eq!(after.visible_inspector_rows[0].value, "echo hi");
    assert_eq!(after.visible_inspector_rows[1].value, "Completed");
    assert_eq!(after.visible_inspector_rows[4].value, "0");
    assert_eq!(
        chrome.apply_with_blocks(
            ChromeAction::SelectBlock {
                id: BlockId::from_bytes([0x99; 16]),
            },
            &snap,
            &blocks,
        ),
        Err(ChromeError::UnknownBlock)
    );
    chrome
        .apply(ChromeAction::ClearBlockSelection, &snap)
        .unwrap();
    assert!(chrome
        .snapshot_with_blocks(&snap, &blocks)
        .selected_block
        .is_none());
    assert_eq!(
        chrome.snapshot_with_blocks(&snap, &blocks).inspector_mode,
        InspectorMode::Context
    );
}

#[test]
fn center_surface_defaults_to_core_and_switches_to_agents() {
    let shell = seed_shell();
    let snap = shell.snapshot();
    let mut chrome = ChromeState::new();
    assert_eq!(chrome.snapshot(&snap).center_surface, CenterSurface::Core);
    chrome
        .apply(ChromeAction::SetCenterSurface(CenterSurface::Agents), &snap)
        .unwrap();
    assert_eq!(
        chrome.snapshot(&snap).center_surface,
        CenterSurface::Agents
    );
    // Mode switch does not invent agents or clear an existing selection
    // path — Agents center reuses the same authority as left inventory.
    seed_agents(&mut chrome, &snap);
    chrome
        .apply(
            ChromeAction::SelectAgent {
                id: AgentId::new("agent-pilot"),
            },
            &snap,
        )
        .unwrap();
    chrome
        .apply(ChromeAction::SetCenterSurface(CenterSurface::Core), &snap)
        .unwrap();
    let after = chrome.snapshot(&snap);
    assert_eq!(after.center_surface, CenterSurface::Core);
    assert_eq!(after.selected_agent, Some(AgentId::new("agent-pilot")));
    assert_eq!(after.agents.len(), 2);
}

#[test]
fn agents_center_selection_fails_closed_for_unknown_agent() {
    let shell = seed_shell();
    let snap = shell.snapshot();
    let mut chrome = ChromeState::new();
    seed_agents(&mut chrome, &snap);
    chrome
        .apply(ChromeAction::SetCenterSurface(CenterSurface::Agents), &snap)
        .unwrap();
    assert_eq!(
        chrome.apply(
            ChromeAction::SelectAgent {
                id: AgentId::new("missing-agent"),
            },
            &snap,
        ),
        Err(ChromeError::UnknownAgent)
    );
    let after = chrome.snapshot(&snap);
    assert_eq!(after.center_surface, CenterSurface::Agents);
    assert!(after.selected_agent.is_none());
    assert_eq!(after.last_error, Some(ChromeError::UnknownAgent));
}

#[test]
fn block_summary_rows_are_numbered_in_order() {
    let shell = seed_shell();
    let snap = shell.snapshot();
    let chrome = ChromeState::new();
    let blocks = sample_blocks(snap.focused_pane);
    let rows = chrome.snapshot_with_blocks(&snap, &blocks).inspector_rows;
    assert_eq!(rows.len(), 9);
    assert_eq!(rows[7].id, "block-0-command");
    assert_eq!(rows[8].id, "block-1-command");
    assert_eq!(rows[4].value, "Single pane");
    assert_eq!(rows[3].value, "1");
}

#[test]
fn running_block_detail_omits_end_line_and_exit_code() {
    let shell = seed_shell();
    let snap = shell.snapshot();
    let mut chrome = ChromeState::new();
    let blocks = sample_blocks(snap.focused_pane);
    chrome
        .apply_with_blocks(ChromeAction::SelectBlock { id: blocks[1].id }, &snap, &blocks)
        .unwrap();
    let rows = chrome.snapshot_with_blocks(&snap, &blocks).inspector_rows;
    let labels: Vec<_> = rows.iter().map(|row| row.label.as_str()).collect();
    assert_eq!(labels, ["Command", "State", "Start line", "Pane"]);
    assert_eq!(rows[3].value, "Pane 1");
    let without_blocks = chrome.snapshot(&snap);
    assert!(without_blocks.selected_block.is_none());
}

#[test]
fn replacing_agents_drops_a_selection_that_no_longer_exists() {
    let shell = seed_shell();
    let snap = shell.snapshot();
    let mut chrome = ChromeState::new();
    seed_agents(&mut chrome, &snap);
    chrome
        .apply(ChromeAction::SelectAgent { id: AgentId::new("agent-codex") }, &snap)
        .unwrap();
    chrome
        .apply(
            ChromeAction::ReplaceAgents {
                workspace: snap.active_workspace,
                agents: vec![pilot()],
            },
            &snap,
        )
        .unwrap();
    let after = chrome.snapshot(&snap);
    assert!(after.selected_agent.is_none());
    assert_eq!(after.agents.len(), 1);
}

#[test]
fn attention_without_workspace_for_unknown_tab_fails_closed() {
    let shell = seed_shell();
    let snap = shell.snapshot();
    let mut chrome = ChromeState::new();
    chrome
        .apply(
            ChromeAction::ReplaceAttention {
                items: vec![AttentionItem {
                    id: AttentionId::new("bad-tab"),
                    title: "Ghost".into(),
                    detail: "Missing".into(),
                    workspace: None,
                    tab: Some(tab(9)),
                    agent: None,
                }],
            },
            &snap,
        )
        .unwrap();
    assert_eq!(
        chrome.apply(ChromeAction::OpenAttention { id: AttentionId::new("bad-tab") }, &snap),
        Err(ChromeError::UnknownTab)
    );
    assert_eq!(chrome.snapshot(&snap).attention_items.len(), 1);
    assert_eq!(ChromeError::UnknownTab.message(), "Attention target Tab does not exist.");
}

#[test]
fn palette_move_wraps_around_the_filtered_rows() {
    let shell = seed_shell();
    let snap = shell.snapshot();
    let mut chrome = ChromeState::new();
    chrome.apply(ChromeAction::SetPaletteOpen { open: true }, &snap).unwrap();
    chrome
        .apply(ChromeAction::SetPaletteQuery { query: "split".into() }, &snap)
        .unwrap();
    chrome.apply(ChromeAction::PaletteMove { delta: -1 }, &snap).unwrap();
    assert_eq!(chrome.snapshot(&snap).palette_selected, 1);
    let effect = chrome.apply(ChromeAction::PaletteRun, &snap).unwrap();
    assert_eq!(effect.palette_command, Some(PaletteCommandId::SplitDown));
}

#[test]
fn missing_composition_rows_show_placeholders() {
    let snap = ShellSnapshot {
        active_workspace: workspace(7),
        active_tab: tab(7),
        focused_pane: pane(7),
        workspaces: vec![],
        tabs: vec![],
        panes: vec![],
        layout: seyal_client::shell::LayoutDescription::SplitDown,
    };
    let rows = ChromeState::new().snapshot(&snap).inspector_rows;
    assert_eq!(rows[0].value, "\u{2014}");
    assert_eq!(rows[1].value, "\u{2014}");
    assert_eq!(rows[3].value, "\u{2014}");
    assert_eq!(rows[4].value, "Split down");
    assert_eq!(rows[5].value, "\u{2014}");
}
