use seyal_client::appearance::{
    frost_allowed, material_intent, resolve_appearance, MaterialIntent, ResolvedAppearance,
};
use seyal_client::chrome_depth::DepthLevel;
use seyal_client::config::AppearancePreference;

#[test]
fn system_appearance_follows_the_platform() {
    assert_eq!(
        resolve_appearance(AppearancePreference::System, ResolvedAppearance::Dark),
        ResolvedAppearance::Dark
    );
    assert_eq!(
        resolve_appearance(AppearancePreference::System, ResolvedAppearance::Light),
        ResolvedAppearance::Light
    );
    assert_eq!(
        resolve_appearance(AppearancePreference::Light, ResolvedAppearance::Dark),
        ResolvedAppearance::Light
    );
    assert_eq!(
        resolve_appearance(AppearancePreference::Dark, ResolvedAppearance::Light),
        ResolvedAppearance::Dark
    );
}

#[test]
fn reduced_material_or_transparency_disables_frost() {
    assert!(frost_allowed(false, false));
    assert!(!frost_allowed(true, false));
    assert!(!frost_allowed(false, true));
    assert_eq!(material_intent(DepthLevel::Truth, true), MaterialIntent::Opaque);
    assert_eq!(material_intent(DepthLevel::RecededUtility, true), MaterialIntent::Frosted);
    assert_eq!(material_intent(DepthLevel::ActiveUtility, false), MaterialIntent::Tonal);
    assert_eq!(material_intent(DepthLevel::Attention, false), MaterialIntent::Tonal);
}
