use seyal_client::chrome::{ChromeAction, ChromeState};
use seyal_client::appearance::MaterialIntent;
use seyal_client::chrome_depth::{
    depth_for_surface, project_chrome_surfaces, ChromeDepthSignals, ChromeSurface, DepthLevel,
};
use seyal_client::composer::{ComposerAction, ComposerState};
use seyal_client::fixtures::preview_shell;

fn rest_signals() -> ChromeDepthSignals {
    ChromeDepthSignals {
        left_visible: true,
        inspector_visible: true,
        tab_strip_visible: true,
        attention_popover_open: false,
        palette_open: false,
        has_selected_agent: false,
        composer_available: true,
        composer_editing: false,
    }
}

#[test]
fn resting_chrome_maps_to_receded_utility() {
    let signals = rest_signals();
    assert_eq!(depth_for_surface(ChromeSurface::Left, signals), DepthLevel::RecededUtility);
    assert_eq!(depth_for_surface(ChromeSurface::Inspector, signals), DepthLevel::RecededUtility);
    assert_eq!(depth_for_surface(ChromeSurface::TabStrip, signals), DepthLevel::RecededUtility);
    assert_eq!(depth_for_surface(ChromeSurface::Composer, signals), DepthLevel::RecededUtility);
    assert_eq!(
        depth_for_surface(ChromeSurface::AttentionPopover, signals),
        DepthLevel::RecededUtility
    );
    assert_eq!(
        depth_for_surface(ChromeSurface::PaletteOverlay, signals),
        DepthLevel::RecededUtility
    );
}

#[test]
fn selected_agent_promotes_left_and_inspector_to_active() {
    let mut signals = rest_signals();
    signals.has_selected_agent = true;
    assert_eq!(depth_for_surface(ChromeSurface::Left, signals), DepthLevel::ActiveUtility);
    assert_eq!(depth_for_surface(ChromeSurface::Inspector, signals), DepthLevel::ActiveUtility);
    assert_eq!(depth_for_surface(ChromeSurface::TabStrip, signals), DepthLevel::RecededUtility);
}

#[test]
fn attention_popover_uses_d3_and_recedes_side_chrome() {
    let mut signals = rest_signals();
    signals.attention_popover_open = true;
    signals.has_selected_agent = true;
    assert_eq!(
        depth_for_surface(ChromeSurface::AttentionPopover, signals),
        DepthLevel::Attention
    );
    assert_eq!(depth_for_surface(ChromeSurface::Left, signals), DepthLevel::RecededUtility);
    assert_eq!(depth_for_surface(ChromeSurface::Inspector, signals), DepthLevel::RecededUtility);
}

#[test]
fn palette_overlay_uses_active_utility_and_recedes_composer() {
    let mut signals = rest_signals();
    signals.palette_open = true;
    signals.composer_editing = true;
    assert_eq!(
        depth_for_surface(ChromeSurface::PaletteOverlay, signals),
        DepthLevel::ActiveUtility
    );
    assert_eq!(depth_for_surface(ChromeSurface::Composer, signals), DepthLevel::RecededUtility);
    assert_eq!(depth_for_surface(ChromeSurface::Left, signals), DepthLevel::RecededUtility);
}

#[test]
fn composer_editing_promotes_to_active_utility() {
    let mut signals = rest_signals();
    signals.composer_editing = true;
    assert_eq!(depth_for_surface(ChromeSurface::Composer, signals), DepthLevel::ActiveUtility);
}

#[test]
fn chrome_surfaces_never_take_truth_depth() {
    let busy = ChromeDepthSignals {
        attention_popover_open: true,
        palette_open: true,
        has_selected_agent: true,
        composer_editing: true,
        ..rest_signals()
    };
    for signals in [rest_signals(), busy] {
        for surface in ChromeSurface::ALL {
            assert_ne!(depth_for_surface(surface, signals), DepthLevel::Truth);
        }
    }
}

#[test]
fn signals_follow_chrome_and_the_focused_draft() {
    let shell = preview_shell();
    let snap = shell.snapshot();
    let mut chrome = ChromeState::new();
    chrome.apply(ChromeAction::SetPaletteOpen { open: true }, &snap).unwrap();
    let mut composer = ComposerState::new();
    composer
        .apply(ComposerAction::EnsurePane { pane: snap.focused_pane })
        .unwrap();
    let empty = composer.snapshot(snap.focused_pane).unwrap();
    let signals = ChromeDepthSignals::from_snapshots(&chrome.snapshot(&snap), Some(&empty));
    assert!(signals.palette_open);
    assert!(signals.composer_available);
    assert!(!signals.composer_editing);
    composer
        .apply(ComposerAction::SetDraft {
            pane: snap.focused_pane,
            text: "ls".into(),
            epoch: empty.epoch,
        })
        .unwrap();
    let drafted = composer.snapshot(snap.focused_pane).unwrap();
    let signals = ChromeDepthSignals::from_snapshots(&chrome.snapshot(&snap), Some(&drafted));
    assert!(signals.composer_editing);
    let none = ChromeDepthSignals::from_snapshots(&chrome.snapshot(&snap), None);
    assert!(!none.composer_available);
}

#[test]
fn surfaces_project_in_order_with_their_materials() {
    let rows = project_chrome_surfaces(rest_signals(), true);
    let surfaces: Vec<ChromeSurface> = rows.iter().map(|r| r.surface).collect();
    assert_eq!(surfaces, ChromeSurface::ALL.to_vec());
    assert!(rows
        .iter()
        .all(|r| r.depth == DepthLevel::RecededUtility && r.intent == MaterialIntent::Frosted));
    let tonal = project_chrome_surfaces(rest_signals(), false);
    assert!(tonal.iter().all(|r| r.intent == MaterialIntent::Tonal));
}
