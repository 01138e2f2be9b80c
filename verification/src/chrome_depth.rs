//! Adaptive Depth roles for thin-host chrome regions.
//!
//! The library decides which depth role each existing chrome surface
//! receives; the host only realizes the resolved material. Roles are derived
//! from a `ChromeSnapshot` and the focused Pane's `ComposerSnapshot`.

use vstd::prelude::*;

use crate::chrome::ChromeSnapshot;
use crate::appearance::{material_intent, spec_material_intent, MaterialIntent};
use crate::composer::{ComposerMode, ComposerSnapshot};

verus! {

/// Adaptive Depth level. Truth is the terminal canvas; chrome uses the
/// utility levels, and Attention only for the attention popover.
#[derive(Clone, Copy, Debug, PartialEq, Eq, Structural, Hash)]
pub enum DepthLevel {
    Truth,
    RecededUtility,
    ActiveUtility,
    Attention,
}

/// Existing chrome regions that receive Adaptive Depth treatment.
#[derive(Clone, Copy, Debug, PartialEq, Eq, Structural, Hash)]
pub enum ChromeSurface {
    Left,
    Inspector,
    TabStrip,
    AttentionPopover,
    PaletteOverlay,
    Composer,
}

impl ChromeSurface {
    pub const ALL: [ChromeSurface; 6] = [
        ChromeSurface::Left,
        ChromeSurface::Inspector,
        ChromeSurface::TabStrip,
        ChromeSurface::AttentionPopover,
        ChromeSurface::PaletteOverlay,
        ChromeSurface::Composer,
    ];
}

/// Focus/attention signals used for Adaptive Depth focus gravity, derived
/// from existing chrome/composer bits.
#[derive(Clone, Copy, Debug, PartialEq, Eq, Structural)]
pub struct ChromeDepthSignals {
    pub left_visible: bool,
    pub inspector_visible: bool,
    pub tab_strip_visible: bool,
    pub attention_popover_open: bool,
    pub palette_open: bool,
    pub has_selected_agent: bool,
    pub composer_available: bool,
    pub composer_editing: bool,
}

impl ChromeDepthSignals {
    /// Signals of the current chrome and focused composer. The composer is
    /// editing when it is available and holds a draft.
    pub fn from_snapshots(chrome: &ChromeSnapshot, composer: Option<&ComposerSnapshot>) -> (r: Self)
        ensures
            r.left_visible == chrome.left_visible,
            r.inspector_visible == chrome.inspector_visible,
            r.tab_strip_visible == chrome.tab_strip_visible,
            r.attention_popover_open == chrome.attention_popover_open,
            r.palette_open == chrome.palette_open,
            r.has_selected_agent == chrome.selected_agent.is_some(),
            r.composer_available == (composer matches Some(s) && s.mode is Available),
            r.composer_editing == (composer matches Some(s) && s.mode is Available
                && s.draft@.len() > 0),
    {
        let (composer_available, composer_editing) = match composer {
            Some(snap) => {
                let available = match snap.mode {
                    ComposerMode::Available => true,
                    _ => false,
                };
                let editing = available && !snap.draft.as_str().is_empty();
                (available, editing)
            },
            None => (false, false),
        };
        ChromeDepthSignals {
            left_visible: chrome.left_visible,
            inspector_visible: chrome.inspector_visible,
            tab_strip_visible: chrome.tab_strip_visible,
            attention_popover_open: chrome.attention_popover_open,
            palette_open: chrome.palette_open,
            has_selected_agent: chrome.selected_agent.is_some(),
            composer_available,
            composer_editing,
        }
    }
}

/// The depth role of a side region (left panel or inspector): active only
/// while visible, not covered by an overlay, and an agent is selected.
pub open spec fn side_depth(visible: bool, s: ChromeDepthSignals) -> DepthLevel {
    if visible && !s.attention_popover_open && !s.palette_open && s.has_selected_agent {
        DepthLevel::ActiveUtility
    } else {
        DepthLevel::RecededUtility
    }
}

/// The depth role of each chrome surface for the current signals.
pub open spec fn spec_depth(surface: ChromeSurface, s: ChromeDepthSignals) -> DepthLevel {
    match surface {
        ChromeSurface::Left => side_depth(s.left_visible, s),
        ChromeSurface::Inspector => side_depth(s.inspector_visible, s),
        ChromeSurface::TabStrip => DepthLevel::RecededUtility,
        ChromeSurface::AttentionPopover => if s.attention_popover_open {
            DepthLevel::Attention
        } else {
            DepthLevel::RecededUtility
        },
        ChromeSurface::PaletteOverlay => if s.palette_open {
            DepthLevel::ActiveUtility
        } else {
            DepthLevel::RecededUtility
        },
        ChromeSurface::Composer => if s.composer_available && !s.attention_popover_open
            && !s.palette_open && s.composer_editing {
            DepthLevel::ActiveUtility
        } else {
            DepthLevel::RecededUtility
        },
    }
}

/// Map a chrome surface to its Adaptive Depth level for the current signals.
/// Truth stays on the terminal canvas and is never a chrome role; Attention
/// is reserved for an open attention popover.
pub fn depth_for_surface(surface: ChromeSurface, signals: ChromeDepthSignals) -> (r: DepthLevel)
    ensures
        r == spec_depth(surface, signals),
        r != DepthLevel::Truth,
        r == DepthLevel::Attention ==> surface == ChromeSurface::AttentionPopover,
{
    match surface {
        ChromeSurface::Left => {
            if !signals.left_visible {
                return DepthLevel::RecededUtility;
            }
            if signals.attention_popover_open || signals.palette_open {
                DepthLevel::RecededUtility
            } else if signals.has_selected_agent {
                DepthLevel::ActiveUtility
            } else {
                DepthLevel::RecededUtility
            }
        },
        ChromeSurface::Inspector => {
            if !signals.inspector_visible {
                return DepthLevel::RecededUtility;
            }
            if signals.attention_popover_open || signals.palette_open {
                DepthLevel::RecededUtility
            } else if signals.has_selected_agent {
                DepthLevel::ActiveUtility
            } else {
                DepthLevel::RecededUtility
            }
        },
        ChromeSurface::TabStrip => DepthLevel::RecededUtility,
        ChromeSurface::AttentionPopover => {
            if signals.attention_popover_open {
                DepthLevel::Attention
            } else {
                DepthLevel::RecededUtility
            }
        },
        ChromeSurface::PaletteOverlay => {
            if signals.palette_open {
                DepthLevel::ActiveUtility
            } else {
                DepthLevel::RecededUtility
            }
        },
        ChromeSurface::Composer => {
            if !signals.composer_available {
                DepthLevel::RecededUtility
            } else if signals.attention_popover_open || signals.palette_open {
                DepthLevel::RecededUtility
            } else if signals.composer_editing {
                DepthLevel::ActiveUtility
            } else {
                DepthLevel::RecededUtility
            }
        },
    }
}

/// An open overlay (attention popover or palette) recedes every side region
/// and the composer: overlays own focus gravity.
pub proof fn overlays_recede_side_chrome(s: ChromeDepthSignals)
    requires
        s.attention_popover_open || s.palette_open,
    ensures
        spec_depth(ChromeSurface::Left, s) == DepthLevel::RecededUtility,
        spec_depth(ChromeSurface::Inspector, s) == DepthLevel::RecededUtility,
        spec_depth(ChromeSurface::Composer, s) == DepthLevel::RecededUtility,
        spec_depth(ChromeSurface::TabStrip, s) == DepthLevel::RecededUtility,
{
}

/// The chrome surfaces in the order a projection lists them.
pub open spec fn all_surfaces() -> Seq<ChromeSurface> {
    seq![
        ChromeSurface::Left,
        ChromeSurface::Inspector,
        ChromeSurface::TabStrip,
        ChromeSurface::AttentionPopover,
        ChromeSurface::PaletteOverlay,
        ChromeSurface::Composer,
    ]
}

/// One projected chrome surface: its depth level and material intent.
#[derive(Clone, Copy, Debug, PartialEq, Eq, Structural)]
pub struct SurfaceProjection {
    pub surface: ChromeSurface,
    pub depth: DepthLevel,
    pub intent: MaterialIntent,
}

/// The projection of one surface under `signals`, with frost allowed or not.
pub open spec fn spec_project_surface(
    surface: ChromeSurface,
    signals: ChromeDepthSignals,
    frost: bool,
) -> SurfaceProjection {
    SurfaceProjection {
        surface,
        depth: spec_depth(surface, signals),
        intent: spec_material_intent(spec_depth(surface, signals), frost),
    }
}

fn project_surface(surface: ChromeSurface, signals: ChromeDepthSignals, frost: bool) -> (r:
    SurfaceProjection)
    ensures
        r == spec_project_surface(surface, signals, frost),
{
    let depth = depth_for_surface(surface, signals);
    SurfaceProjection { surface, depth, intent: material_intent(depth, frost) }
}

/// Project every chrome surface, in order: each gets the depth level its
/// signals call for and the material intent of that level.
pub fn project_chrome_surfaces(signals: ChromeDepthSignals, frost: bool) -> (r: Vec<
    SurfaceProjection,
>)
    ensures
        r@ == all_surfaces().map_values(
            |s: ChromeSurface| spec_project_surface(s, signals, frost),
        ),
{
    let mut r: Vec<SurfaceProjection> = Vec::new();
    r.push(project_surface(ChromeSurface::Left, signals, frost));
    r.push(project_surface(ChromeSurface::Inspector, signals, frost));
    r.push(project_surface(ChromeSurface::TabStrip, signals, frost));
    r.push(project_surface(ChromeSurface::AttentionPopover, signals, frost));
    r.push(project_surface(ChromeSurface::PaletteOverlay, signals, frost));
    r.push(project_surface(ChromeSurface::Composer, signals, frost));
    assert(r@ =~= all_surfaces().map_values(
        |s: ChromeSurface| spec_project_surface(s, signals, frost),
    ));
    r
}

} // verus!
