use seyal_client::config::{sanitize_families, AppearancePreference, ConfigurationDiagnostics};
use seyal_client::toml::{parse_toml, table_index, TomlValue};

fn get<'a>(table: &'a Vec<(String, TomlValue)>, key: &str) -> &'a TomlValue {
    &table[table_index(table, key).expect("key")].1
}

#[test]
fn tables_keys_and_values_parse() {
    let root = parse_toml(
        "# settings\n[ui]\nappearance = \"dark\" # trailing\nsize = 12.5\nfonts = [\"Menlo\", \"SF Mono\"]\n[ui.extra]\nflag = true\n",
    )
    .unwrap();
    assert_eq!(root.len(), 1);
    let ui = get(&root, "ui").as_table().unwrap();
    let keys: Vec<&str> = ui.iter().map(|(k, _)| k.as_str()).collect();
    assert_eq!(keys, vec!["appearance", "extra", "fonts", "size"]);
    assert_eq!(get(ui, "appearance").as_str(), Some("dark"));
    assert_eq!(get(ui, "size").as_number(), Some("12.5"));
    assert_eq!(
        get(ui, "fonts").as_string_array(),
        Some(vec!["Menlo".to_string(), "SF Mono".to_string()])
    );
    let extra = get(ui, "extra").as_table().unwrap();
    assert_eq!(get(extra, "flag").as_bool(), Some(true));
}

#[test]
fn malformed_lines_report_their_line_number() {
    assert_eq!(parse_toml("a = 1\n[ui").unwrap_err().0, "line 2: invalid table header");
    assert_eq!(parse_toml("[  ]").unwrap_err().0, "line 1: empty table name");
    assert_eq!(parse_toml("\n\njust words").unwrap_err().0, "line 3: expected key = value");
    assert_eq!(parse_toml(" = 1").unwrap_err().0, "line 1: empty key");
    assert_eq!(parse_toml("a = nope").unwrap_err().0, "line 1: unsupported value 'nope'");
    assert_eq!(parse_toml("a = \"open").unwrap_err().0, "line 1: unterminated string");
    assert_eq!(parse_toml("a = [1, 2").unwrap_err().0, "line 1: unterminated array");
}

#[test]
fn strings_unescape_and_keep_hashes_inside_quotes() {
    let root = parse_toml("a = \"x\\ty # not a comment\\\"\"").unwrap();
    assert_eq!(get(&root, "a").as_str(), Some("x\ty # not a comment\""));
    assert_eq!(parse_toml("a = \"bad\\\"").unwrap_err().0, "line 1: unterminated escape");
}

#[test]
fn numbers_follow_the_float_grammar() {
    for text in ["1", "-2.5", "+.5", "3.", "1e9", "2E-3", "inf", "-Infinity", "NaN"] {
        let root = parse_toml(&format!("n = {text}")).unwrap();
        assert_eq!(get(&root, "n").as_number(), Some(text));
    }
    for text in [".", "1e", "1.2.3", "e5", "--1", "0x10"] {
        assert!(parse_toml(&format!("n = {text}")).is_err(), "{text}");
    }
}

#[test]
fn later_keys_replace_earlier_ones_and_arrays_nest() {
    let root = parse_toml("a = 1\na = [true, [false], \"s\"]\n").unwrap();
    match get(&root, "a") {
        TomlValue::Array(items) => {
            assert_eq!(items.len(), 3);
            assert_eq!(items[0].as_bool(), Some(true));
            assert!(matches!(&items[1], TomlValue::Array(inner) if inner.len() == 1));
            assert_eq!(items[2].as_str(), Some("s"));
        }
        other => panic!("unexpected {other:?}"),
    }
    assert_eq!(get(&root, "a").as_string_array(), None);
}

#[test]
fn appearance_words_and_families_are_trimmed() {
    assert_eq!(AppearancePreference::parse(" dark "), Some(AppearancePreference::Dark));
    assert_eq!(AppearancePreference::parse("system"), Some(AppearancePreference::System));
    assert_eq!(AppearancePreference::parse("Light"), None);
    assert_eq!(
        sanitize_families(&vec![" Menlo ".to_string(), "   ".to_string(), "SF Mono".to_string()]),
        vec!["Menlo".to_string(), "SF Mono".to_string()]
    );
    let clean = ConfigurationDiagnostics { warnings: vec![], used_full_default_fallback: false };
    assert!(clean.is_clean());
    let fallback = ConfigurationDiagnostics { warnings: vec![], used_full_default_fallback: true };
    assert!(!fallback.is_clean());
}
