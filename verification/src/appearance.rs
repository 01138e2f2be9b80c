//! The discrete choices of theme resolution: which appearance applies and
//! which material each depth level gets. Colors, opacities and fonts are
//! resolved by the host from these choices.

use vstd::prelude::*;

use crate::chrome_depth::DepthLevel;
use crate::config::AppearancePreference;

verus! {

/// The appearance the interface is drawn in.
#[derive(Clone, Copy, Debug, PartialEq, Eq, Structural)]
pub enum ResolvedAppearance {
    Light,
    Dark,
}

/// How a depth level's surface is drawn.
#[derive(Clone, Copy, Debug, PartialEq, Eq, Structural)]
pub enum MaterialIntent {
    Opaque,
    Tonal,
    Frosted,
}

/// The appearance a preference resolves to: `System` follows the platform.
pub open spec fn spec_resolve_appearance(
    preference: AppearancePreference,
    platform: ResolvedAppearance,
) -> ResolvedAppearance {
    match preference {
        AppearancePreference::System => platform,
        AppearancePreference::Light => ResolvedAppearance::Light,
        AppearancePreference::Dark => ResolvedAppearance::Dark,
    }
}

/// Resolve the user's appearance preference against the platform's.
pub fn resolve_appearance(preference: AppearancePreference, platform: ResolvedAppearance) -> (r:
    ResolvedAppearance)
    ensures
        r == spec_resolve_appearance(preference, platform),
{
    match preference {
        AppearancePreference::System => platform,
        AppearancePreference::Light => ResolvedAppearance::Light,
        AppearancePreference::Dark => ResolvedAppearance::Dark,
    }
}

/// Frosted materials are allowed unless the user asked for reduced material
/// or the system asks to reduce transparency.
pub fn frost_allowed(reduced_material: bool, reduce_transparency: bool) -> (r: bool)
    ensures
        r == (!reduced_material && !reduce_transparency),
{
    !reduced_material && !reduce_transparency
}

/// The material of a depth level: the terminal canvas is always opaque; the
/// utility and attention levels are frosted where frost is allowed and
/// tonal otherwise.
pub open spec fn spec_material_intent(depth: DepthLevel, frost: bool) -> MaterialIntent {
    if depth == DepthLevel::Truth {
        MaterialIntent::Opaque
    } else if frost {
        MaterialIntent::Frosted
    } else {
        MaterialIntent::Tonal
    }
}

/// Choose the material of one depth level.
pub fn material_intent(depth: DepthLevel, frost: bool) -> (r: MaterialIntent)
    ensures
        r == spec_material_intent(depth, frost),
{
    match depth {
        DepthLevel::Truth => MaterialIntent::Opaque,
        _ => if frost {
            MaterialIntent::Frosted
        } else {
            MaterialIntent::Tonal
        },
    }
}

} // verus!
