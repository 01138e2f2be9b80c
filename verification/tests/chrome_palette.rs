use seyal_client::chrome_palette::{
    builtin_commands, clamp_selected, filter_commands, move_selected, PaletteCommandId,
};

#[test]
fn empty_query_lists_all_builtin_commands() {
    let rows = filter_commands("");
    assert_eq!(rows.len(), builtin_commands().len());
    assert_eq!(rows[0].id, "create-tab");
    assert_eq!(rows[0].title, "Create Tab");
}

#[test]
fn filter_is_case_insensitive_substring() {
    let rows = filter_commands("SpLiT");
    let ids: Vec<_> = rows.iter().map(|row| row.id.as_str()).collect();
    assert_eq!(ids, ["split-right", "split-down"]);
    assert!(filter_commands("zzzz-missing").is_empty());
}

#[test]
fn selection_helpers_fail_closed_on_empty() {
    assert_eq!(clamp_selected(3, 0), 0);
    assert_eq!(move_selected(0, 1, 0), 0);
    assert_eq!(clamp_selected(9, 3), 2);
    assert_eq!(move_selected(0, -1, 3), 2);
    assert_eq!(move_selected(2, 1, 3), 0);
}

#[test]
fn ids_round_trip_through_their_strings() {
    for command in builtin_commands() {
        assert_eq!(PaletteCommandId::from_str_id(command.as_str()), Some(command));
    }
    assert_eq!(PaletteCommandId::from_str_id("no-such-id"), None);
}

#[test]
fn query_is_trimmed_and_matches_ids_too() {
    let rows = filter_commands("  inspector-pane ");
    assert_eq!(rows.len(), 1);
    assert_eq!(rows[0].title, "Inspector: Pane");
    assert_eq!(move_selected(1, -7, 4), 2);
}

#[test]
fn filter_keeps_catalog_order() {
    let all: Vec<String> = filter_commands("  ").into_iter().map(|row| row.id).collect();
    let catalog: Vec<String> =
        builtin_commands().iter().map(|c| c.as_str().to_string()).collect();
    assert_eq!(all, catalog);
    let inspector: Vec<String> =
        filter_commands(" INSPECTOR ").into_iter().map(|row| row.id).collect();
    assert_eq!(
        inspector,
        [
            "toggle-inspector",
            "inspector-context",
            "inspector-workspace",
            "inspector-tab",
            "inspector-pane",
            "inspector-blocks"
        ]
    );
}
