use gitfetch_rs::config::Config;
use gitfetch_rs::formatter::{DisplayFormatter, Layout, VisualOptions};
use gitfetch_rs::graph::{Day, Week};
use gitfetch_rs::measure::{truncate_to_width, visible_width};
use gitfetch_rs::stats::{
    IssueSections, PullRequestSections, RenderStats, SectionEntry, SectionItem, UserData,
};

fn empty_entry() -> SectionEntry {
    SectionEntry { total_count: 0, items: Vec::new() }
}

fn test_user() -> UserData {
    UserData {
        login: "testuser".to_string(),
        name: Some("Test User".to_string()),
        bio: None,
        company: None,
        blog: None,
        location: None,
        email: None,
        public_repos: 0,
        followers: 0,
        following: 0,
        created_at: None,
    }
}

fn stats_with(
    pull_requests: Option<PullRequestSections>,
    issues: Option<IssueSections>,
) -> RenderStats {
    RenderStats { total_stars: 0, languages: Vec::new(), weeks: Vec::new(), pull_requests, issues }
}

fn pr_sections() -> PullRequestSections {
    PullRequestSections {
        awaiting_review: empty_entry(),
        open: empty_entry(),
        mentions: empty_entry(),
    }
}

fn issue_sections() -> IssueSections {
    IssueSections { assigned: empty_entry(), created: empty_entry(), mentions: empty_entry() }
}

fn formatter_with(opts: VisualOptions) -> DisplayFormatter {
    DisplayFormatter::with_terminal(Config::default(), opts, 80, 24)
}

#[test]
fn test_format_pull_requests_with_data() {
    let formatter = formatter_with(VisualOptions::default());
    let user = test_user();
    let stats = stats_with(Some(pr_sections()), None);

    // This should not panic even with PR data
    let lines = formatter.display("testuser", &user, &stats, "");
    assert!(!lines.is_empty());
}

#[test]
fn test_format_issues_with_data() {
    let formatter = formatter_with(VisualOptions::default());
    let user = test_user();
    let stats = stats_with(None, Some(issue_sections()));

    // This should not panic even with issue data
    let lines = formatter.display("testuser", &user, &stats, "");
    assert!(!lines.is_empty());
}

#[test]
fn test_no_pr_option() {
    let opts = VisualOptions { no_pr: true, ..Default::default() };
    let formatter = formatter_with(opts);
    let user = test_user();
    let stats = stats_with(Some(pr_sections()), None);

    // Should work with no_pr flag
    let lines = formatter.display("testuser", &user, &stats, "");
    assert!(!lines.is_empty());
}

#[test]
fn test_no_issues_option() {
    let opts = VisualOptions { no_issues: true, ..Default::default() };
    let formatter = formatter_with(opts);
    let user = test_user();
    let stats = stats_with(None, Some(issue_sections()));

    // Should work with no_issues flag
    let lines = formatter.display("testuser", &user, &stats, "");
    assert!(!lines.is_empty());
}

#[test]
fn test_empty_pr_data() {
    let formatter = formatter_with(VisualOptions::default());
    let user = test_user();
    let stats = stats_with(Some(pr_sections()), None);

    // Should handle zero values gracefully
    let lines = formatter.display("testuser", &user, &stats, "");
    assert!(!lines.is_empty());
}

#[test]
fn test_combined_pr_and_issues() {
    let formatter = formatter_with(VisualOptions::default());
    let user = test_user();
    let stats = stats_with(Some(pr_sections()), Some(issue_sections()));

    // Should display both sections
    let lines = formatter.display("testuser", &user, &stats, "");
    assert!(!lines.is_empty());
}

#[test]
fn colorize_keeps_visible_width() {
    let formatter = formatter_with(VisualOptions::default());
    for color in ["header", "orange", "green", "muted", "bold", "red", "nonsense"] {
        for text in ["", "plain", "wide 好 text", "nested \x1b[31mcode\x1b[0m"] {
            let wrapped = formatter.colorize(text, color);
            assert_eq!(visible_width(&wrapped), visible_width(text));
        }
    }
}

#[test]
fn visible_width_counts_cells_not_bytes() {
    assert_eq!(visible_width("abc"), 3);
    assert_eq!(visible_width("好"), 2);
    assert_eq!(visible_width("\x1b[38;2;1;2;3mab\x1b[0m"), 2);
    assert_eq!(visible_width("\x1b[31m"), 0);
    assert_eq!(visible_width(""), 0);
}

#[test]
fn truncate_fits_budget_and_marks_cut() {
    let out = truncate_to_width("hello world", 5);
    assert_eq!(out, "hell…");
    assert!(visible_width(&out) <= 5);
    assert!(out.ends_with('…'));

    // a string that already fits comes back unchanged
    assert_eq!(truncate_to_width("hi", 5), "hi");

    // multi-byte characters are never split
    let cut = truncate_to_width("日本語テキスト", 5);
    assert!(cut.ends_with('…'));
    assert!(visible_width(&cut) <= 5);
}

#[test]
fn combine_columns_packs_by_budget() {
    let formatter = formatter_with(VisualOptions::default());
    let columns = vec![vec!["aaaaaaaaaa".to_string()], vec!["bbbbbbbb".to_string()]];

    // budget 30: margin 4 + 10 + gap 3 + 8 = 25 fits in one row-group
    let one = formatter.combine_section_grid(&columns, 30);
    assert_eq!(one, vec!["    aaaaaaaaaa   bbbbbbbb".to_string()]);

    // budget 20: the second column no longer fits beside the first
    let two = formatter.combine_section_grid(&columns, 20);
    assert_eq!(
        two,
        vec!["    aaaaaaaaaa".to_string(), "".to_string(), "    bbbbbbbb".to_string()],
    );
}

#[test]
fn achievements_derive_fixed_entries() {
    let formatter = formatter_with(VisualOptions::default());
    let entries = formatter.derive_achievements(3, 10, 1500);
    assert_eq!(entries.len(), 3);
    assert!(entries[0].0.contains("Current Streak"));
    assert_eq!(entries[0].1, "3 days");
    assert!(entries[1].0.contains("Best Streak"));
    assert_eq!(entries[1].1, "10 days");
    assert!(entries[2].0.contains("Contributions"));
    assert_eq!(entries[2].1, "1k+");
}

#[test]
fn achievements_singular_day_and_no_badge() {
    let formatter = formatter_with(VisualOptions::default());
    let entries = formatter.derive_achievements(1, 1, 99);
    assert_eq!(entries.len(), 2);
    assert_eq!(entries[0].1, "1 day");
    assert_eq!(entries[1].1, "1 day");

    let none = formatter.derive_achievements(0, 0, 0);
    assert!(none.is_empty());

    let top = formatter.derive_achievements(0, 0, 10000);
    assert_eq!(top.len(), 1);
    assert_eq!(top[0].1, "10k+");
}

fn full_payload() -> (UserData, RenderStats) {
    let mut weeks = Vec::new();
    for w in 0..52 {
        let mut days = Vec::new();
        for d in 0..7 {
            days.push(Day {
                contribution_count: 1,
                date: format!("2024-{:02}-{:02}", (w / 5) + 1, d + 1),
            });
        }
        weeks.push(Week { contribution_days: days });
    }
    let stats = RenderStats {
        total_stars: 12,
        languages: vec![("Rust".to_string(), 600), ("Go".to_string(), 400)],
        weeks,
        pull_requests: Some(pr_sections()),
        issues: Some(issue_sections()),
    };
    (test_user(), stats)
}

#[test]
fn wide_terminal_selects_full_layout() {
    let formatter =
        DisplayFormatter::with_terminal(Config::default(), VisualOptions::default(), 200, 50);
    let (user, stats) = full_payload();
    let lines = formatter.display("testuser", &user, &stats, "");
    let joined = lines.join("\n");
    // the language block appears only in the full layout
    assert!(joined.contains("TOP LANGUAGES"));
    assert!(joined.contains("Rust"));
}

#[test]
fn narrow_terminal_falls_back_to_minimal() {
    let formatter =
        DisplayFormatter::with_terminal(Config::default(), VisualOptions::default(), 60, 20);
    let (user, stats) = full_payload();
    let lines = formatter.display("testuser", &user, &stats, "");
    let joined = lines.join("\n");
    // minimal shows the grid alone: no sidebar sections at all
    assert!(!joined.contains("TOP LANGUAGES"));
    assert!(!joined.contains("ACHIEVEMENTS"));
    assert!(!joined.contains("PULL REQUESTS"));
}

#[test]
fn timeline_bypass_emits_supplied_text() {
    let opts = VisualOptions { graph_timeline: true, ..Default::default() };
    let formatter = formatter_with(opts);
    let (user, stats) = full_payload();
    let lines = formatter.display("testuser", &user, &stats, "o---o---o");
    assert_eq!(lines, vec!["".to_string(), "o---o---o".to_string()]);
}

#[test]
fn graph_only_bypass_shows_grid_alone() {
    let opts = VisualOptions { graph_only: true, ..Default::default() };
    let formatter = formatter_with(opts);
    let (user, stats) = full_payload();
    let lines = formatter.display("testuser", &user, &stats, "");
    let joined = lines.join("\n");
    assert!(!joined.contains("ACHIEVEMENTS"));
    assert!(!joined.contains("PULL REQUESTS"));
    assert_eq!(lines.last().unwrap(), "");
}

#[test]
fn languages_render_sorted_with_percent_column() {
    let formatter = formatter_with(VisualOptions::default());
    let stats = RenderStats {
        total_stars: 0,
        languages: vec![
            ("Go".to_string(), 375),
            ("Rust".to_string(), 625),
        ],
        weeks: Vec::new(),
        pull_requests: None,
        issues: None,
    };
    let lines = formatter.format_languages(&stats);
    assert!(lines[0].contains("TOP LANGUAGES"));
    // sorted descending: Rust first, with its one-decimal column
    assert!(lines[2].contains("Rust"));
    assert!(lines[2].contains(" 62.5%"));
    assert!(lines[3].contains("Go"));
    assert!(lines[3].contains(" 37.5%"));
}

#[test]
fn section_items_are_bulleted_and_truncated() {
    let formatter = formatter_with(VisualOptions::default());
    let stats = stats_with(
        Some(PullRequestSections {
            awaiting_review: SectionEntry {
                total_count: 2,
                items: vec![
                    SectionItem {
                        title: "a very long pull request title that keeps going".to_string(),
                        repo: "owner/repository-with-a-long-name".to_string(),
                    },
                    SectionItem { title: "short".to_string(), repo: "".to_string() },
                ],
            },
            open: empty_entry(),
            mentions: empty_entry(),
        }),
        None,
    );
    let lines = formatter.format_pull_requests(&stats);
    let joined = lines.join("\n");
    assert!(joined.contains("PULL REQUESTS"));
    assert!(joined.contains("Awaiting Review"));
    assert!(joined.contains("• a very long pull reques…"));
    assert!(joined.contains("• short"));
    assert!(joined.contains("• None"));
}

#[test]
fn label_pads_to_fixed_column_in_bold() {
    let formatter = formatter_with(VisualOptions::default());
    assert_eq!(formatter.label("Bio"), "\x1b[1mBio:        \x1b[0m");
}

#[test]
fn negotiator_picks_layout_by_terminal_size() {
    let (user, stats) = full_payload();
    let wide =
        DisplayFormatter::with_terminal(Config::default(), VisualOptions::default(), 200, 50);
    assert_eq!(wide.determine_layout("testuser", &user, &stats), Layout::Full);
    let narrow =
        DisplayFormatter::with_terminal(Config::default(), VisualOptions::default(), 60, 20);
    assert_eq!(narrow.determine_layout("testuser", &user, &stats), Layout::Minimal);
}

#[test]
fn language_ties_keep_payload_order() {
    let formatter = formatter_with(VisualOptions::default());
    let stats = RenderStats {
        total_stars: 0,
        languages: vec![
            ("First".to_string(), 500),
            ("Second".to_string(), 500),
            ("Top".to_string(), 900),
        ],
        weeks: Vec::new(),
        pull_requests: None,
        issues: None,
    };
    let lines = formatter.format_languages(&stats);
    assert!(lines[2].contains("Top"));
    assert!(lines[3].contains("First"));
    assert!(lines[4].contains("Second"));
}

#[test]
fn jupyter_notebook_is_shortened() {
    let formatter = formatter_with(VisualOptions::default());
    let stats = RenderStats {
        total_stars: 0,
        languages: vec![("Jupyter Notebook".to_string(), 1000)],
        weeks: Vec::new(),
        pull_requests: None,
        issues: None,
    };
    let lines = formatter.format_languages(&stats);
    assert!(lines[2].contains("Jupyter:"));
    assert!(!lines[2].contains("Notebook"));
}
