use codex_sandbox::usage_bar::RateLimitSnapshotDisplay;
use codex_sandbox::usage_bar::RateLimitWindowDisplay;
use codex_sandbox::usage_bar::UrgencyLevel;
use codex_sandbox::usage_bar::UsageStatusBar;
use codex_sandbox::usage_bar::status_bar_line;

fn to_centipercent(p: f64) -> u64 {
    (p * 100.0).round() as u64
}

fn create_test_snapshot(
    primary_percent: Option<f64>,
    secondary_percent: Option<f64>,
) -> RateLimitSnapshotDisplay {
    RateLimitSnapshotDisplay {
        primary: primary_percent.map(|used_percent| RateLimitWindowDisplay {
            used_centipercent: to_centipercent(used_percent),
            resets_at: Some("in 30m".to_string()),
            window_minutes: Some(300),
        }),
        secondary: secondary_percent.map(|used_percent| RateLimitWindowDisplay {
            used_centipercent: to_centipercent(used_percent),
            resets_at: Some("in 2h".to_string()),
            window_minutes: Some(10080),
        }),
    }
}

// Core visibility tests
#[test]
fn test_should_show_below_threshold() {
    let mut bar = UsageStatusBar::new();
    bar.update_snapshot(Some(create_test_snapshot(Some(50.0), Some(60.0))));
    assert!(!bar.should_show());
}

#[test]
fn test_should_show_above_threshold() {
    let mut bar = UsageStatusBar::new();
    bar.update_snapshot(Some(create_test_snapshot(Some(75.0), Some(60.0))));
    assert!(bar.should_show());
}

#[test]
fn test_should_show_dismissed() {
    let mut bar = UsageStatusBar::new();
    bar.update_snapshot(Some(create_test_snapshot(Some(85.0), Some(75.0))));
    assert!(bar.should_show());

    bar.dismiss();
    assert!(!bar.should_show());
}

// Window selection tests
#[test]
fn test_most_urgent_window_selects_highest() {
    let mut bar = UsageStatusBar::new();
    bar.update_snapshot(Some(create_test_snapshot(Some(75.0), Some(85.0))));

    let info = bar.get_urgent_window_info().unwrap();
    assert_eq!(info.centipercent, 8500);
}

#[test]
fn test_selects_secondary_when_higher() {
    let mut bar = UsageStatusBar::new();
    bar.update_snapshot(Some(create_test_snapshot(Some(75.0), Some(95.0))));

    let info = bar.get_urgent_window_info().unwrap();
    assert_eq!(info.centipercent, 9500);
}

// Dismiss behavior tests
#[test]
fn test_dismiss_resets_on_new_snapshot() {
    let mut bar = UsageStatusBar::new();
    bar.update_snapshot(Some(create_test_snapshot(Some(80.0), None)));
    bar.dismiss();
    assert!(bar.is_dismissed());

    bar.update_snapshot(Some(create_test_snapshot(Some(85.0), None)));
    assert!(!bar.is_dismissed());
}

#[test]
fn test_dismiss_persists_on_insignificant_change() {
    let mut bar = UsageStatusBar::new();
    bar.update_snapshot(Some(create_test_snapshot(Some(80.0), None)));
    bar.dismiss();
    assert!(bar.is_dismissed());

    bar.update_snapshot(Some(create_test_snapshot(Some(82.0), None)));
    assert!(bar.is_dismissed());
}

// Boundary value tests
#[test]
fn test_boundary_at_exactly_70_percent() {
    let mut bar = UsageStatusBar::new();
    bar.update_snapshot(Some(create_test_snapshot(Some(70.0), None)));
    assert!(bar.should_show());

    bar.update_snapshot(Some(create_test_snapshot(Some(69.99), None)));
    assert!(!bar.should_show());
}

#[test]
fn test_urgency_boundary_values() {
    assert_eq!(
        UrgencyLevel::from_percent(to_centipercent(69.9)),
        UrgencyLevel::Warning
    );
    assert_eq!(
        UrgencyLevel::from_percent(to_centipercent(79.9)),
        UrgencyLevel::Warning
    );
    assert_eq!(
        UrgencyLevel::from_percent(to_centipercent(80.0)),
        UrgencyLevel::Elevated
    );
    assert_eq!(
        UrgencyLevel::from_percent(to_centipercent(89.9)),
        UrgencyLevel::Elevated
    );
    assert_eq!(
        UrgencyLevel::from_percent(to_centipercent(90.0)),
        UrgencyLevel::Critical
    );
    assert_eq!(
        UrgencyLevel::from_percent(to_centipercent(100.0)),
        UrgencyLevel::Critical
    );
}

// Urgency level tests
#[test]
fn test_urgency_levels() {
    assert_eq!(UrgencyLevel::from_percent(7500), UrgencyLevel::Warning);
    assert_eq!(UrgencyLevel::from_percent(8500), UrgencyLevel::Elevated);
    assert_eq!(UrgencyLevel::from_percent(9500), UrgencyLevel::Critical);
}

#[test]
fn test_urgency_level_labels() {
    assert_eq!(UrgencyLevel::Warning.label(), "WARNING");
    assert_eq!(UrgencyLevel::Elevated.label(), "ALERT");
    assert_eq!(UrgencyLevel::Critical.label(), "CRITICAL");
}

// Edge case tests
#[test]
fn test_both_windows_none() {
    let mut bar = UsageStatusBar::new();
    let snapshot = RateLimitSnapshotDisplay {
        primary: None,
        secondary: None,
    };
    bar.update_snapshot(Some(snapshot));
    assert!(!bar.should_show());
}

#[test]
fn test_default_trait() {
    let bar = UsageStatusBar::default();
    assert!(!bar.is_dismissed());
    assert!(bar.snapshot.is_none());
}

// Helper method tests
#[test]
fn test_significant_change_detection() {
    let mut bar = UsageStatusBar::new();
    bar.update_snapshot(Some(create_test_snapshot(Some(70.0), None)));

    let old = bar.snapshot.clone().unwrap();
    let new = create_test_snapshot(Some(71.0), None);
    assert!(!bar.has_significant_change(&old, &new));

    let new = create_test_snapshot(Some(76.0), None);
    assert!(bar.has_significant_change(&old, &new));
}

#[test]
fn test_max_percent_from_snapshot() {
    let bar = UsageStatusBar::new();

    let snapshot = create_test_snapshot(Some(80.0), Some(60.0));
    assert_eq!(bar.max_percent_from_snapshot(&snapshot), Some(8000));

    let snapshot = create_test_snapshot(Some(60.0), Some(90.0));
    assert_eq!(bar.max_percent_from_snapshot(&snapshot), Some(9000));

    let snapshot = create_test_snapshot(None, Some(75.0));
    assert_eq!(bar.max_percent_from_snapshot(&snapshot), Some(7500));

    let snapshot = create_test_snapshot(None, None);
    assert_eq!(bar.max_percent_from_snapshot(&snapshot), None);
}

#[test]
fn test_get_urgent_window_info_returns_none_when_below_threshold() {
    let mut bar = UsageStatusBar::new();
    bar.update_snapshot(Some(create_test_snapshot(Some(50.0), Some(60.0))));
    assert!(bar.get_urgent_window_info().is_none());
}

#[test]
fn test_get_urgent_window_info_contains_correct_fields() {
    let mut bar = UsageStatusBar::new();
    bar.update_snapshot(Some(create_test_snapshot(Some(80.0), None)));

    let info = bar.get_urgent_window_info().unwrap();
    assert_eq!(info.centipercent, 8000);
    assert_eq!(info.reset_at, Some("in 30m".to_string()));
    assert_eq!(info.window_label, "5h");
}

#[test]
fn test_get_footer_text_format() {
    let mut bar = UsageStatusBar::new();
    bar.update_snapshot(Some(create_test_snapshot(Some(85.0), None)));

    let text = bar.get_footer_text().unwrap();
    assert_eq!(text.text, "85% of limit (resets in 30m)");
    assert!(!text.at_limit);
}

#[test]
fn test_get_footer_text_weekly_format() {
    let mut bar = UsageStatusBar::new();
    bar.update_snapshot(Some(create_test_snapshot(None, Some(95.0))));

    let text = bar.get_footer_text().unwrap();
    assert_eq!(text.text, "95% of weekly limit (resets in 2h)");
    assert!(!text.at_limit);
}

#[test]
fn test_get_footer_text_at_100_percent() {
    let mut bar = UsageStatusBar::new();
    bar.update_snapshot(Some(create_test_snapshot(Some(100.0), None)));

    let text = bar.get_footer_text().unwrap();
    assert_eq!(text.text, "limit reached (resets in 30m)");
    assert!(text.at_limit);
}

#[test]
fn test_get_footer_text_above_100_percent() {
    let mut bar = UsageStatusBar::new();
    bar.update_snapshot(Some(create_test_snapshot(Some(120.0), None)));

    let text = bar.get_footer_text().unwrap();
    assert_eq!(text.text, "limit reached (resets in 30m)");
    assert!(text.at_limit);
}

#[test]
fn test_get_footer_text_weekly_at_100_percent() {
    let mut bar = UsageStatusBar::new();
    bar.update_snapshot(Some(create_test_snapshot(None, Some(100.0))));

    let text = bar.get_footer_text().unwrap();
    assert_eq!(text.text, "weekly limit reached (resets in 2h)");
    assert!(text.at_limit);
}

#[test]
fn test_footer_percent_rounds_half_to_even() {
    let mut bar = UsageStatusBar::new();
    bar.update_snapshot(Some(create_test_snapshot(Some(84.5), None)));
    let text = bar.get_footer_text().unwrap();
    assert_eq!(text.text, "84% of limit (resets in 30m)");

    bar.update_snapshot(Some(create_test_snapshot(Some(85.5), None)));
    let text = bar.get_footer_text().unwrap();
    assert_eq!(text.text, "86% of limit (resets in 30m)");
}

#[test]
fn test_status_bar_line_text() {
    let mut bar = UsageStatusBar::new();
    bar.update_snapshot(Some(create_test_snapshot(Some(85.0), None)));
    let info = bar.get_urgent_window_info().unwrap();
    assert_eq!(
        status_bar_line(&info),
        "ALERT: 85% of 5h limit used (resets in 30m) [Press Esc to dismiss]"
    );
}

#[test]
fn test_dismiss_clears_footer_text() {
    let mut bar = UsageStatusBar::new();
    bar.update_snapshot(Some(create_test_snapshot(Some(85.0), None)));

    // Verify banner is shown
    assert!(bar.should_show());
    assert!(bar.get_footer_text().is_some());

    // Dismiss the banner
    bar.dismiss();

    // Verify banner is cleared
    assert!(!bar.should_show());
    assert!(bar.get_footer_text().is_none());
}
