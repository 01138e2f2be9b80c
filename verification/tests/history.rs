use seyal_client::composer::history::{
    HistoryEntry, HistoryOverlay, PaneHistory, HISTORY_CAPACITY, HISTORY_VISIBLE_ROWS,
};

fn history(commands: &[&str]) -> PaneHistory {
    let mut history = PaneHistory::default();
    for command in commands {
        history.record(command);
    }
    history
}

fn commands(entries: &[HistoryEntry]) -> Vec<&str> {
    entries.iter().map(|e| e.command.as_str()).collect()
}

#[test]
fn empty_query_returns_most_recent_first() {
    let history = history(&["git status", "ls -la", "cargo test"]);
    assert_eq!(
        commands(&history.rank("")),
        vec!["cargo test", "ls -la", "git status"]
    );
}

#[test]
fn consecutive_duplicate_refreshes_recency_without_duplicating() {
    let repeated = history(&["ls", "git status", "git status"]);
    assert_eq!(repeated.len(), 2);
    assert_eq!(commands(&repeated.rank("")), vec!["git status", "ls"]);
    let bumped = history(&["git status", "ls", "git status"]);
    assert_eq!(bumped.len(), 3);
}

#[test]
fn blank_and_trailing_newline_commands_are_normalized() {
    let history = history(&["", "   ", "echo hi\r", "echo hi\n"]);
    assert_eq!(history.len(), 1);
    assert_eq!(commands(&history.rank("")), vec!["echo hi"]);
}

#[test]
fn capacity_evicts_oldest() {
    let mut history = PaneHistory::default();
    for index in 0..(HISTORY_CAPACITY + 5) {
        history.record(&format!("cmd {index}"));
    }
    assert_eq!(history.len(), HISTORY_CAPACITY);
    let all = history.rank("cmd");
    assert_eq!(all[0].command, format!("cmd {}", HISTORY_CAPACITY + 4));
    assert!(history.rank("cmd 0").iter().all(|e| e.command != "cmd 0"));
}

#[test]
fn ranking_prefers_prefix_then_token_then_subsequence() {
    let history = history(&[
        "cat hello",
        "make check",
        "cargo check",
        "ck",
        "chk-lint",
        "check-all",
    ]);
    assert_eq!(
        commands(&history.rank("ch")),
        vec![
            "check-all",
            "chk-lint",
            "cargo check",
            "make check",
            "cat hello"
        ]
    );
}

#[test]
fn ranking_is_case_insensitive_and_bounded() {
    let mut history = PaneHistory::default();
    for index in 0..20 {
        history.record(&format!("Echo {index}"));
    }
    let rows = history.rank("echo");
    assert_eq!(rows.len(), HISTORY_VISIBLE_ROWS);
    assert_eq!(rows[0].command, "Echo 19");
}

#[test]
fn non_matching_query_yields_no_rows() {
    let history = history(&["git status", "ls"]);
    assert!(history.rank("zzz").is_empty());
    assert!(history.rank("s l").is_empty());
}

#[test]
fn subsequence_ignores_query_whitespace() {
    let history = history(&["git commit -m fix"]);
    assert_eq!(commands(&history.rank("gc m")), vec!["git commit -m fix"]);
}

#[test]
fn overlay_selection_clamps_and_steps() {
    let mut overlay = HistoryOverlay::default();
    overlay.step(1, 3);
    overlay.step(1, 3);
    overlay.step(1, 3);
    assert_eq!(overlay.selected, 2);
    overlay.step(-5, 3);
    assert_eq!(overlay.selected, 0);
    overlay.selected = 7;
    overlay.clamp(3);
    assert_eq!(overlay.selected, 2);
    overlay.clamp(0);
    assert_eq!(overlay.selected, 0);
    overlay.step(1, 0);
    assert_eq!(overlay.selected, 0);
}

#[test]
fn repeated_command_refreshes_its_ordinal() {
    let history = history(&["ls", "ls"]);
    let rows = history.rank("");
    assert_eq!(rows.len(), 1);
    assert_eq!(rows[0].seq, 2);
}

#[test]
fn recording_keeps_the_newest_entry_last_in_recency() {
    let mut history = PaneHistory::default();
    history.record("a");
    history.record("b");
    history.record("a");
    let rows = history.rank("");
    assert_eq!(commands(&rows), vec!["a", "b", "a"]);
    assert_eq!(rows[0].seq, 3);
}

#[test]
fn ordinals_increase_in_submission_order() {
    let history = history(&["a", "b", "c", "b"]);
    let rows = history.rank("");
    assert_eq!(commands(&rows), vec!["b", "c", "b", "a"]);
    let seqs: Vec<u64> = rows.iter().map(|e| e.seq).collect();
    assert_eq!(seqs, vec![4, 3, 2, 1]);
}
