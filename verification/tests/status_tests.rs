use codex_sandbox::policy::AbsPath;
use codex_sandbox::status::format_reset_duration;
use codex_sandbox::status::format_tokens_compact;
use codex_sandbox::status::format_window_duration;
use codex_sandbox::status::compose_agents_summary;
use codex_sandbox::status::compose_model_display;
use codex_sandbox::status::compose_account_display;
use codex_sandbox::status::AccountTokens;
use codex_sandbox::status::AuthAccountInfo;
use codex_sandbox::status::StatusAccountDisplay;
use codex_sandbox::pathshow::format_directory_display;
use codex_sandbox::strutil::title_case;

fn path(parts: &[&str]) -> AbsPath {
    AbsPath {
        parts: parts.iter().map(|p| p.to_string()).collect(),
    }
}

#[test]
fn test_format_reset_duration_days() {
    assert_eq!(format_reset_duration(86400), "in 1d");
    assert_eq!(format_reset_duration(172800), "in 2d");
}

#[test]
fn test_format_reset_duration_hours() {
    assert_eq!(format_reset_duration(3600), "in 1h");
    assert_eq!(format_reset_duration(7200), "in 2h");
    assert_eq!(format_reset_duration(10800), "in 3h");
}

#[test]
fn test_format_reset_duration_minutes() {
    assert_eq!(format_reset_duration(60), "in 1m");
    assert_eq!(format_reset_duration(1800), "in 30m");
    assert_eq!(format_reset_duration(3540), "in 59m");
}

#[test]
fn test_format_reset_duration_less_than_minute() {
    assert_eq!(format_reset_duration(0), "in <1m");
    assert_eq!(format_reset_duration(30), "in <1m");
    assert_eq!(format_reset_duration(59), "in <1m");
}

#[test]
fn test_format_window_duration_with_value() {
    let result = format_window_duration(Some(300), "default");
    assert_eq!(result, "5h");
}

#[test]
fn test_format_window_duration_none() {
    let result = format_window_duration(None, "weekly");
    assert_eq!(result, "weekly");
}

#[test]
fn test_format_tokens_compact_small_values() {
    assert_eq!(format_tokens_compact(0), "0");
    assert_eq!(format_tokens_compact(999), "999");
}

#[test]
fn test_format_tokens_compact_thousands() {
    assert_eq!(format_tokens_compact(1000), "1K");
    assert_eq!(format_tokens_compact(1500), "1.5K");
    assert_eq!(format_tokens_compact(1230), "1.23K");
    assert_eq!(format_tokens_compact(12300), "12.3K");
    assert_eq!(format_tokens_compact(123000), "123K");
    assert_eq!(format_tokens_compact(999_994), "1000K");
    // Each branch rounds once from the exact ratio.
    assert_eq!(format_tokens_compact(10_049), "10K");
    assert_eq!(format_tokens_compact(100_495), "100K");
}

#[test]
fn test_format_tokens_compact_large_units() {
    assert_eq!(format_tokens_compact(1_000_000), "1M");
    assert_eq!(format_tokens_compact(2_560_000), "2.56M");
    assert_eq!(format_tokens_compact(1_000_000_000), "1B");
    assert_eq!(format_tokens_compact(1_500_000_000_000), "1.5T");
}

#[test]
fn test_title_case_basic() {
    assert_eq!(title_case("plus"), "Plus");
    assert_eq!(title_case("PRO"), "Pro");
    assert_eq!(title_case(""), "");
}

#[test]
fn test_compose_model_display_details() {
    let model = "gpt-5".to_string();
    let entries = vec![
        ("reasoning effort".to_string(), "High".to_string()),
        ("reasoning summaries".to_string(), " None ".to_string()),
    ];
    let (name, details) = compose_model_display(&model, &entries);
    assert_eq!(name, "gpt-5");
    assert_eq!(details, vec!["reasoning high", "summaries off"]);
}

#[test]
fn test_compose_model_display_summary_text() {
    let model = "gpt-5".to_string();
    let entries = vec![(
        "reasoning summaries".to_string(),
        "Detailed".to_string(),
    )];
    let (_, details) = compose_model_display(&model, &entries);
    assert_eq!(details, vec!["summaries detailed"]);

    let blank = vec![("reasoning summaries".to_string(), "   ".to_string())];
    let (_, details) = compose_model_display(&model, &blank);
    assert!(details.is_empty());

    // Trimming covers Unicode whitespace, here no-break spaces.
    let padded = vec![(
        "reasoning summaries".to_string(),
        "\u{a0}None\u{a0}".to_string(),
    )];
    let (_, details) = compose_model_display(&model, &padded);
    assert_eq!(details, vec!["summaries off"]);
}

#[test]
fn test_compose_agents_summary_none() {
    let cwd = path(&["home", "user", "repo"]);
    assert_eq!(compose_agents_summary(None, &cwd), "<none>");
    let empty: Vec<AbsPath> = Vec::new();
    assert_eq!(compose_agents_summary(Some(&empty), &cwd), "<none>");
}

#[test]
fn test_compose_agents_summary_displays() {
    let cwd = path(&["home", "user", "repo"]);
    let docs = vec![
        // Directly in the working directory.
        path(&["home", "user", "repo", "AGENTS.md"]),
        // In an ancestor of the working directory.
        path(&["home", "user", "AGENTS.md"]),
        // Below the working directory.
        path(&["home", "user", "repo", "sub", "AGENTS.md"]),
        // Unrelated.
        path(&["etc", "AGENTS.md"]),
    ];
    assert_eq!(
        compose_agents_summary(Some(&docs), &cwd),
        "AGENTS.md, ../AGENTS.md, sub/AGENTS.md, /etc/AGENTS.md"
    );
}

#[test]
fn test_compose_account_display_cases() {
    assert!(compose_account_display(None).is_none());

    let with_tokens = AuthAccountInfo {
        tokens: Some(AccountTokens {
            email: Some("dev@example.com".to_string()),
            chatgpt_plan_type: Some("plus".to_string()),
        }),
        openai_api_key: None,
    };
    match compose_account_display(Some(&with_tokens)) {
        Some(StatusAccountDisplay::ChatGpt { email, plan }) => {
            assert_eq!(email, Some("dev@example.com".to_string()));
            assert_eq!(plan, Some("Plus".to_string()));
        }
        _ => panic!("expected a signed-in account display"),
    }

    let with_key = AuthAccountInfo {
        tokens: None,
        openai_api_key: Some("sk-test".to_string()),
    };
    assert!(matches!(
        compose_account_display(Some(&with_key)),
        Some(StatusAccountDisplay::ApiKey)
    ));

    let empty_key = AuthAccountInfo {
        tokens: None,
        openai_api_key: Some(String::new()),
    };
    assert!(compose_account_display(Some(&empty_key)).is_none());
}

#[test]
fn test_format_directory_display_home_relative() {
    let home = path(&["home", "user"]);
    let dir = path(&["home", "user", "proj"]);
    assert_eq!(format_directory_display(&dir, Some(&home), None), "~/proj");
    assert_eq!(format_directory_display(&home, Some(&home), None), "~");
    let other = path(&["srv", "data"]);
    assert_eq!(format_directory_display(&other, Some(&home), None), "/srv/data");
    assert_eq!(format_directory_display(&other, None, None), "/srv/data");
}

#[test]
fn test_format_directory_display_truncation() {
    let home = path(&["home", "user"]);
    let dir = path(&["home", "user", "projects", "very-long-directory-name"]);
    let full = format_directory_display(&dir, Some(&home), None);
    assert_eq!(full, "~/projects/very-long-directory-name");

    // Width zero clears the display entirely.
    assert_eq!(format_directory_display(&dir, Some(&home), Some(0)), "");

    // A narrow limit keeps both ends around an ellipsis; if the width
    // functions handed back something wrong, the text would not shrink.
    let narrow = format_directory_display(&dir, Some(&home), Some(12));
    assert!(narrow.contains('\u{2026}'), "expected an ellipsis in {narrow:?}");
    assert!(unicode_width::UnicodeWidthStr::width(narrow.as_str()) <= 12);
    // The width tables count the ellipsis as one column, as the library's
    // fits-within-the-limit guarantee assumes.
    assert_eq!(unicode_width::UnicodeWidthChar::width('\u{2026}'), Some(1));
    assert!(narrow.starts_with("~/"));
    assert!(narrow.ends_with("name"));

    // A generous limit leaves the text alone.
    assert_eq!(
        format_directory_display(&dir, Some(&home), Some(80)),
        "~/projects/very-long-directory-name"
    );
}
