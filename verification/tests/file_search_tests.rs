use codex_sandbox::file_search::FileMatch;
use codex_sandbox::file_search::FileSearchPopup;
use codex_sandbox::file_search::MAX_POPUP_ROWS;

fn make_match(path: &str) -> FileMatch {
    FileMatch {
        score: 0,
        path: path.to_string(),
        indices: None,
    }
}

#[test]
fn test_scroll_down_stays_within_window() {
    let mut popup = FileSearchPopup::new();
    let matches: Vec<FileMatch> = (0..20)
        .map(|i| make_match(&format!("file{i}.rs")))
        .collect();

    popup.set_query("test");
    popup.set_matches("test", matches);

    assert_eq!(popup.state.selected_idx, Some(0));
    assert_eq!(popup.state.scroll_top, 0);

    // MAX_POPUP_ROWS = 8, so items 0-7 should have scroll_top = 0
    for i in 1..8 {
        popup.move_down();
        assert_eq!(popup.state.selected_idx, Some(i));
        assert_eq!(
            popup.state.scroll_top, 0,
            "scroll_top should be 0 for items 0-7"
        );
    }

    popup.move_down();
    assert_eq!(popup.state.selected_idx, Some(8));
    assert_eq!(
        popup.state.scroll_top, 1,
        "scroll_top should be 1 when selection is at 8"
    );

    popup.move_down();
    assert_eq!(popup.state.selected_idx, Some(9));
    assert_eq!(
        popup.state.scroll_top, 2,
        "scroll_top should be 2 when selection is at 9"
    );
}

#[test]
fn test_scroll_up_basic() {
    let mut popup = FileSearchPopup::new();
    let matches: Vec<FileMatch> = (0..20)
        .map(|i| make_match(&format!("file{i}.rs")))
        .collect();

    popup.set_query("test");
    popup.set_matches("test", matches);
    popup.state.selected_idx = Some(5);
    popup.state.scroll_top = 2;

    popup.move_up();
    assert_eq!(popup.state.selected_idx, Some(4));
    assert_eq!(popup.state.scroll_top, 2);

    popup.move_up();
    popup.move_up();
    assert_eq!(popup.state.selected_idx, Some(2));
    assert_eq!(popup.state.scroll_top, 2);

    popup.move_up();
    assert_eq!(popup.state.selected_idx, Some(1));
    assert_eq!(popup.state.scroll_top, 1);
}

#[test]
fn test_set_matches_clamps_selection() {
    let mut popup = FileSearchPopup::new();
    let matches1: Vec<FileMatch> = (0..10)
        .map(|i| make_match(&format!("file{i}.rs")))
        .collect();

    popup.set_query("test");
    popup.set_matches("test", matches1);
    popup.state.selected_idx = Some(9);

    let matches2: Vec<FileMatch> = (0..5).map(|i| make_match(&format!("file{i}.rs"))).collect();
    popup.set_query("test2");
    popup.set_matches("test2", matches2);

    assert_eq!(popup.state.selected_idx, Some(4));
}

#[test]
fn test_invariant_always_maintained() {
    let mut popup = FileSearchPopup::new();
    let matches: Vec<FileMatch> = (0..20)
        .map(|i| make_match(&format!("file{i}.rs")))
        .collect();

    popup.set_query("test");
    popup.set_matches("test", matches);

    const VISIBLE_COUNT: usize = MAX_POPUP_ROWS;

    // Test invariant after many down movements
    for _ in 0..15 {
        popup.move_down();
        if let Some(sel) = popup.state.selected_idx {
            assert!(
                sel >= popup.state.scroll_top && sel < popup.state.scroll_top + VISIBLE_COUNT,
                "INVARIANT VIOLATED: selection {} not in [scroll_top={}, scroll_top+{})",
                sel,
                popup.state.scroll_top,
                VISIBLE_COUNT
            );
        }
    }

    // Test invariant after moving back up
    for _ in 0..10 {
        popup.move_up();
        if let Some(sel) = popup.state.selected_idx {
            assert!(
                sel >= popup.state.scroll_top && sel < popup.state.scroll_top + VISIBLE_COUNT,
                "INVARIANT VIOLATED: selection {} not in [scroll_top={}, scroll_top+{})",
                sel,
                popup.state.scroll_top,
                VISIBLE_COUNT
            );
        }
    }
}

#[test]
fn test_no_skipping_on_scroll() {
    let mut popup = FileSearchPopup::new();
    let matches: Vec<FileMatch> = (0..20)
        .map(|i| make_match(&format!("file{i}.rs")))
        .collect();

    popup.set_query("test");
    popup.set_matches("test", matches);

    let mut prev_sel = popup
        .state
        .selected_idx
        .expect("Expected initial selection to be set");

    for _ in 0..15 {
        popup.move_down();
        let curr_sel = popup
            .state
            .selected_idx
            .expect("Expected selection to remain set during navigation");
        assert_eq!(
            curr_sel,
            prev_sel + 1,
            "Selection skipped from {prev_sel} to {curr_sel}"
        );
        prev_sel = curr_sel;
    }
}

#[test]
fn test_all_results_scrollable() {
    let mut popup = FileSearchPopup::new();
    // Create 100 matches to test scrolling through all results
    let matches: Vec<FileMatch> = (0..100)
        .map(|i| make_match(&format!("file{i}.rs")))
        .collect();

    popup.set_query("test");
    popup.set_matches("test", matches);

    // All results should be immediately available
    assert_eq!(popup.displayed_count, 100);
    assert_eq!(popup.matches.len(), 100);
    assert_eq!(popup.state.selected_idx, Some(0));

    // Should be able to scroll through all 100 items
    for i in 1..100 {
        popup.move_down();
        assert_eq!(popup.state.selected_idx, Some(i));
    }

    // Should stop at last item
    popup.move_down();
    assert_eq!(popup.state.selected_idx, Some(99));
}

#[test]
fn test_selected_match_returns_path() {
    let mut popup = FileSearchPopup::new();
    let matches: Vec<FileMatch> = (0..3)
        .map(|i| make_match(&format!("file{i}.rs")))
        .collect();
    popup.set_query("f");
    popup.set_matches("f", matches);
    assert_eq!(popup.selected_match(), Some("file0.rs"));
    popup.move_down();
    assert_eq!(popup.selected_match(), Some("file1.rs"));
}

#[test]
fn test_stale_results_are_ignored() {
    let mut popup = FileSearchPopup::new();
    popup.set_query("fresh");
    popup.set_matches("stale", vec![make_match("old.rs")]);
    assert_eq!(popup.matches.len(), 0);
    assert!(popup.waiting);
}

#[test]
fn test_set_query_keeps_matches_on_extension() {
    let mut popup = FileSearchPopup::new();
    popup.set_query("te");
    popup.set_matches("te", vec![make_match("a.rs"), make_match("b.rs")]);
    popup.set_query("test");
    assert_eq!(popup.matches.len(), 2);

    popup.set_query("other");
    assert_eq!(popup.matches.len(), 0);
}

#[test]
fn test_calculate_required_height() {
    let mut popup = FileSearchPopup::new();
    assert_eq!(popup.calculate_required_height(), 1);
    popup.set_query("f");
    popup.set_matches(
        "f",
        (0..20).map(|i| make_match(&format!("f{i}.rs"))).collect(),
    );
    assert_eq!(popup.calculate_required_height(), 8);
    popup.set_query("x");
    popup.set_matches("x", vec![make_match("x.rs")]);
    assert_eq!(popup.calculate_required_height(), 1);
}

#[test]
fn test_visible_rows_follow_scroll() {
    let mut popup = FileSearchPopup::new();
    assert_eq!(popup.empty_message(), Some("no matches"));
    popup.set_query("f");
    assert_eq!(popup.empty_message(), Some("loading..."));

    let matches: Vec<FileMatch> = (0..20)
        .map(|i| make_match(&format!("file{i}.rs")))
        .collect();
    popup.set_matches("f", matches);
    assert_eq!(popup.empty_message(), None);

    let rows = popup.visible_rows();
    assert_eq!(rows.len(), 8);
    assert_eq!(rows[0], "file0.rs");
    assert_eq!(rows[7], "file7.rs");

    for _ in 0..9 {
        popup.move_down();
    }
    let rows = popup.visible_rows();
    assert_eq!(rows.len(), 8);
    assert_eq!(rows[0], "file2.rs");
    assert_eq!(rows[7], "file9.rs");
}
