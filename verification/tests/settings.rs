use seyal_client::config::AppearancePreference;
use seyal_client::settings::{
    env_setting_updates, toml_setting_updates, FontRole, NumberSetting, SettingUpdate,
    ENV_APPEARANCE, ENV_REDUCED_MATERIAL,
};
use seyal_client::toml::parse_toml;

fn updates(text: &str) -> Vec<SettingUpdate> {
    toml_setting_updates(&parse_toml(text).unwrap())
}

#[test]
fn recognised_settings_come_out_in_documented_order() {
    let text = "[terminal.font]\nsize = 15\nfamily = \"Iosevka\"\n\
                [ui]\nappearance = \"dark\"\nreduced-material = true\nwindow-padding = 4\n\
                [ui.font]\nfallbacks = [\" Inter \", \"\", \"Helvetica\"]\n";
    assert_eq!(
        updates(text),
        vec![
            SettingUpdate::Appearance(AppearancePreference::Dark),
            SettingUpdate::ReducedMaterial(true),
            SettingUpdate::Number(NumberSetting::WindowPadding, "4".to_string()),
            SettingUpdate::Fallbacks(
                FontRole::Ui,
                vec!["Inter".to_string(), "Helvetica".to_string()]
            ),
            SettingUpdate::Family(FontRole::Terminal, "Iosevka".to_string()),
            SettingUpdate::Number(NumberSetting::TerminalFontSize, "15".to_string()),
        ]
    );
}

#[test]
fn unknown_keys_are_warned_in_key_order_before_values() {
    let text = "[ui]\nzeta = 1\nalpha = 2\nappearance = \"light\"\n[terminal]\nshell = \"zsh\"\n";
    assert_eq!(
        updates(text),
        vec![
            SettingUpdate::Warning("unknown key ui.alpha ignored".to_string()),
            SettingUpdate::Warning("unknown key ui.zeta ignored".to_string()),
            SettingUpdate::Warning("unknown key terminal.shell ignored".to_string()),
            SettingUpdate::Appearance(AppearancePreference::Light),
        ]
    );
}

#[test]
fn mistyped_values_are_warned_and_skipped() {
    let text = "[ui]\nappearance = \"sepia\"\nreduced-material = \"yes\"\nutility-opacity = true\n\
                [ui.font]\nfamily = 3\nfallbacks = [\"A\", 1]\n";
    assert_eq!(
        updates(text),
        vec![
            SettingUpdate::Warning("ui.appearance ignored; expected system|light|dark".to_string()),
            SettingUpdate::Warning("ui.reduced-material ignored; expected boolean".to_string()),
            SettingUpdate::Warning("ui.utility-opacity ignored; expected number".to_string()),
            SettingUpdate::Warning("ui.font.family ignored; expected string".to_string()),
            SettingUpdate::Warning("ui.font.fallbacks ignored; expected array of strings".to_string()),
        ]
    );
}

#[test]
fn a_non_table_section_is_treated_as_empty() {
    assert_eq!(updates("ui = 3\nterminal = true\n"), vec![]);
    assert_eq!(updates(""), vec![]);
}

#[test]
fn environment_appearance_and_reduced_material() {
    let env = vec![
        (ENV_APPEARANCE.to_string(), "light".to_string()),
        (ENV_APPEARANCE.to_string(), " dark ".to_string()),
        (ENV_REDUCED_MATERIAL.to_string(), "1".to_string()),
    ];
    assert_eq!(
        env_setting_updates(&env),
        vec![
            SettingUpdate::Appearance(AppearancePreference::Dark),
            SettingUpdate::ReducedMaterial(true),
        ]
    );
}

#[test]
fn environment_rejects_unknown_words_and_other_flags() {
    let env = vec![
        (ENV_APPEARANCE.to_string(), "sepia".to_string()),
        (ENV_REDUCED_MATERIAL.to_string(), "true".to_string()),
    ];
    assert_eq!(
        env_setting_updates(&env),
        vec![SettingUpdate::Warning(
            "SEYAL_UI_APPEARANCE ignored; expected system|light|dark".to_string()
        )]
    );
    assert_eq!(env_setting_updates(&[]), vec![]);
}
