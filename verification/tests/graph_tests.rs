use gitfetch_rs::config::ColorConfig;
use gitfetch_rs::graph::{ContributionGraph, Day, Week};

fn week_of(counts: &[u32], dates: &[&str]) -> Week {
    let mut days = Vec::new();
    let mut i = 0;
    while i < counts.len() {
        days.push(Day { contribution_count: counts[i], date: dates[i].to_string() });
        i += 1;
    }
    Week { contribution_days: days }
}

#[test]
fn test_contribution_graph_from_json() {
    // the payload of one week with three days, already parsed into the
    // typed calendar the boundary produces
    let weeks = vec![week_of(&[0, 5, 10], &["2024-01-01", "2024-01-02", "2024-01-03"])];
    let graph = ContributionGraph::from_weeks(weeks);
    let lines = graph.render(None, None, "■", &ColorConfig::default(), false, false);
    assert!(!lines.is_empty());
}

#[test]
fn test_contribution_graph_from_grid() {
    let grid = vec![
        vec![0, 1, 2, 3, 4],
        vec![1, 2, 3, 4, 0],
        vec![2, 3, 4, 0, 1],
        vec![3, 4, 0, 1, 2],
        vec![4, 0, 1, 2, 3],
        vec![0, 1, 2, 3, 4],
        vec![1, 2, 3, 4, 0],
    ];
    let graph = ContributionGraph::from_grid(grid);
    let lines = graph.render(None, None, "■", &ColorConfig::default(), false, false);
    assert!(!lines.is_empty());
}

#[test]
fn test_contribution_graph_empty() {
    let _graph = ContributionGraph::from_weeks(Vec::new());
    // Empty graph should not panic
    assert!(true);
}

#[test]
fn test_contribution_graph_from_empty_grid() {
    let grid: Vec<Vec<u8>> = vec![];
    let _graph = ContributionGraph::from_grid(grid);
    // Empty grid should not panic
    assert!(true);
}

#[test]
fn total_equals_sum_of_day_counts() {
    let grid = vec![
        vec![1, 2, 3],
        vec![4, 5, 6],
    ];
    // rows are weekdays, columns are weeks; missing rows read as zero
    let graph = ContributionGraph::from_grid(grid);
    assert_eq!(graph.calculate_total_contributions(), 21);

    let empty = ContributionGraph::from_weeks(Vec::new());
    assert_eq!(empty.calculate_total_contributions(), 0);
}

#[test]
fn streaks_of_empty_grid_are_zero() {
    let graph = ContributionGraph::from_weeks(Vec::new());
    assert_eq!(graph.calculate_streaks(), (0, 0));
}

#[test]
fn streaks_current_and_longest() {
    // counts in chronological order: 2 1 0 3 4 5 — scanned most recent
    // first, the leading run is 3 (5, 4, 3) and the longest run is 3
    let weeks = vec![week_of(
        &[2, 1, 0, 3, 4, 5],
        &["2024-01-01", "2024-01-02", "2024-01-03", "2024-01-04", "2024-01-05", "2024-01-06"],
    )];
    let graph = ContributionGraph::from_weeks(weeks);
    let (current, longest) = graph.calculate_streaks();
    assert_eq!(current, 3);
    assert_eq!(longest, 3);
}

#[test]
fn streaks_current_zero_when_most_recent_day_idle() {
    let weeks = vec![week_of(
        &[1, 1, 1, 1, 0],
        &["2024-01-01", "2024-01-02", "2024-01-03", "2024-01-04", "2024-01-05"],
    )];
    let graph = ContributionGraph::from_weeks(weeks);
    let (current, longest) = graph.calculate_streaks();
    assert_eq!(current, 0);
    assert_eq!(longest, 4);
}

#[test]
fn current_streak_never_exceeds_longest() {
    let samples: Vec<Vec<u32>> = vec![
        vec![],
        vec![0],
        vec![5],
        vec![1, 0, 1, 1, 1],
        vec![3, 3, 3],
        vec![0, 2, 0, 2, 2, 0],
    ];
    for counts in samples {
        let dates: Vec<String> = (0..counts.len()).map(|i| format!("2024-01-{:02}", i + 1)).collect();
        let date_refs: Vec<&str> = dates.iter().map(|s| s.as_str()).collect();
        let graph = ContributionGraph::from_weeks(vec![week_of(&counts, &date_refs)]);
        let (current, longest) = graph.calculate_streaks();
        assert!(current <= longest);
    }
}

#[test]
fn recent_weeks_keeps_last_n_in_order() {
    let grid = vec![vec![1, 2, 3, 4, 5]];
    let graph = ContributionGraph::from_grid(grid);
    let recent = graph.get_recent_weeks(3);
    assert_eq!(recent.len(), 3);
    // the trailing window: columns 2, 3, 4 of the source grid
    assert_eq!(recent[0].contribution_days[0].contribution_count, 3);
    assert_eq!(recent[1].contribution_days[0].contribution_count, 4);
    assert_eq!(recent[2].contribution_days[0].contribution_count, 5);
    // asking for more weeks than exist returns them all
    let all = graph.get_recent_weeks(10);
    assert_eq!(all.len(), 5);
}

#[test]
fn from_pattern_grid_empty_gives_empty_total() {
    let graph = ContributionGraph::from_grid(Vec::new());
    assert_eq!(graph.calculate_total_contributions(), 0);
    // an empty calendar renders an empty line sequence, or a single empty
    // header line when the month ruler is requested
    let lines = graph.render(None, None, "■", &ColorConfig::default(), false, true);
    assert!(lines.is_empty());
    let with_ruler = graph.render(None, None, "■", &ColorConfig::default(), true, true);
    assert_eq!(with_ruler, vec!["".to_string()]);
}

#[test]
fn month_header_marks_first_week_of_each_month() {
    let weeks = vec![
        week_of(&[1], &["2023-01-01"]),
        week_of(&[1], &["2023-01-08"]),
        week_of(&[1], &["2023-02-05"]),
    ];
    let graph = ContributionGraph::from_weeks(Vec::new());
    let line = graph.build_month_line(&weeks);
    // Jan at the left margin; Feb right-aligned so its last character
    // lands at column margin + 6
    assert_eq!(line, "    Jan Feb");
    let chars: Vec<char> = line.chars().collect();
    assert_eq!(chars[4..7].iter().collect::<String>(), "Jan");
    assert_eq!(chars[10], 'b');
}

#[test]
fn month_header_empty_without_weeks() {
    let graph = ContributionGraph::from_weeks(Vec::new());
    let line = graph.build_month_line(&Vec::new());
    assert_eq!(line, "");
}

#[test]
fn render_honors_pinned_width_and_clamped_height() {
    let grid = vec![vec![1, 1, 1, 1, 1, 1, 1, 1, 1, 1]];
    let graph = ContributionGraph::from_grid(grid);
    // pinned width keeps only the last two weeks; height is clamped to 7
    let lines = graph.render(Some(2), Some(9), "■", &ColorConfig::default(), false, true);
    assert_eq!(lines.len(), 7);
    // a spaced cell is an escape run, the glyph, a reset and one space:
    // two week columns make two cells per row
    assert_eq!(lines[0].matches('■').count(), 2);
    // the height is clamped from below too: zero still shows one day row
    let one = graph.render(Some(2), Some(0), "■", &ColorConfig::default(), false, true);
    assert_eq!(one.len(), 1);
}

#[test]
fn from_grid_short_rows_read_as_zero() {
    // ragged matrix: the second row is shorter than the first
    let grid = vec![vec![5, 5, 5], vec![7]];
    let graph = ContributionGraph::from_grid(grid);
    // 3 weeks of 7 days: row 0 gives 5s, row 1 gives 7 then zeroes
    assert_eq!(graph.calculate_total_contributions(), 15 + 7);
}

#[test]
fn month_header_skips_unparsed_dates() {
    let weeks = vec![
        week_of(&[1], &["not a date"]),
        week_of(&[1], &["2023-03-01"]),
    ];
    let graph = ContributionGraph::from_weeks(Vec::new());
    let line = graph.build_month_line(&weeks);
    // the first column cannot be parsed, and the second has no parsed
    // predecessor to differ from, so nothing is printed after the margin
    assert_eq!(line, "    ");
}
