//! The contribution calendar: weeks of daily activity counts, their
//! aggregates (total, streaks), and a trailing-window view. Contracts speak
//! of the calendar through `weeks_view`: the sequence of weeks, each week
//! the sequence of its days.

use vstd::prelude::*;

use crate::colors::{ansi_bg_of, ansi_color_of, hex_to_rgb, push_ansi_bg, push_ansi_fg};
use crate::config::ColorConfig;
use crate::fmt_num::{dec_rep, push_u64};
use crate::measure::sgr_reset;
use crate::strutil::{char_run, push_spaces};

verus! {

broadcast use vstd::string::group_string_axioms;

/// One calendar day: its activity count and its date string.
#[derive(Debug)]
pub struct Day {
    pub contribution_count: u32,
    pub date: String,
}

/// One week column: its days, oldest first.
#[derive(Debug)]
pub struct Week {
    pub contribution_days: Vec<Day>,
}

/// The calendar: week columns in chronological order, oldest first.
pub struct ContributionGraph {
    weeks: Vec<Week>,
}

impl Clone for Day {
    fn clone(&self) -> (r: Day)
        ensures
            r == *self,
    {
        Day { contribution_count: self.contribution_count, date: self.date.clone() }
    }
}

impl Clone for Week {
    fn clone(&self) -> (r: Week)
        ensures
            r.contribution_days@ == self.contribution_days@,
    {
        let mut days: Vec<Day> = Vec::new();
        let mut i: usize = 0;
        while i < self.contribution_days.len()
            invariant
                i <= self.contribution_days@.len(),
                days@ == self.contribution_days@.take(i as int),
            decreases self.contribution_days@.len() - i,
        {
            days.push(self.contribution_days[i].clone());
            proof {
                assert(days@ =~= self.contribution_days@.take(i + 1));
            }
            i = i + 1;
        }
        proof {
            assert(days@ =~= self.contribution_days@);
        }
        Week { contribution_days: days }
    }
}

/// A week sequence as its days: the shape every calendar contract speaks of.
pub open spec fn weeks_view(weeks: Seq<Week>) -> Seq<Seq<Day>> {
    weeks.map_values(|w: Week| w.contribution_days@)
}

/// Copies a week list, day for day.
pub fn clone_weeks(v: &Vec<Week>) -> (r: Vec<Week>)
    ensures
        weeks_view(r@) == weeks_view(v@),
{
    let mut r: Vec<Week> = Vec::new();
    let mut i: usize = 0;
    while i < v.len()
        invariant
            i <= v@.len(),
            r@.len() == i,
            forall|k: int|
                0 <= k < i ==> (#[trigger] r@[k]).contribution_days@
                    == v@[k].contribution_days@,
        decreases v@.len() - i,
    {
        r.push(v[i].clone());
        i = i + 1;
    }
    proof {
        assert forall|k: int| 0 <= k < r@.len() implies weeks_view(r@)[k] == weeks_view(v@)[k] by {
            assert(weeks_view(r@)[k] == r@[k].contribution_days@);
            assert(weeks_view(v@)[k] == v@[k].contribution_days@);
        }
        assert(weeks_view(r@) =~= weeks_view(v@));
    }
    r
}

/// The activity counts of one week's days, in day order.
pub open spec fn counts_of_week(days: Seq<Day>) -> Seq<u32> {
    days.map_values(|d: Day| d.contribution_count)
}

/// Every day's count across the calendar, oldest week first, day order
/// kept within each week.
pub open spec fn all_counts(ws: Seq<Seq<Day>>) -> Seq<u32>
    decreases ws.len(),
{
    if ws.len() == 0 {
        Seq::empty()
    } else {
        all_counts(ws.drop_last()) + counts_of_week(ws.last())
    }
}

/// Sum of a sequence of counts.
pub open spec fn sum_counts(s: Seq<u32>) -> int
    decreases s.len(),
{
    if s.len() == 0 {
        0
    } else {
        sum_counts(s.drop_last()) + s.last()
    }
}

/// Sum of every day's count in the calendar.
pub open spec fn total_of(ws: Seq<Seq<Day>>) -> int {
    sum_counts(all_counts(ws))
}

pub proof fn lemma_sum_counts_nonneg(s: Seq<u32>)
    ensures
        sum_counts(s) >= 0,
    decreases s.len(),
{
    if s.len() > 0 {
        lemma_sum_counts_nonneg(s.drop_last());
    }
}

proof fn lemma_sum_counts_push(s: Seq<u32>, x: u32)
    ensures
        sum_counts(s.push(x)) == sum_counts(s) + x,
{
    assert(s.push(x).drop_last() =~= s);
}

/// Length of the leading run of strictly positive counts.
pub open spec fn leading_run(s: Seq<u32>) -> int
    decreases s.len(),
{
    if s.len() == 0 || s[0] == 0 {
        0
    } else {
        1 + leading_run(s.skip(1))
    }
}

/// A scan over the counts, extending the current run on a positive count
/// and resetting it at a zero, keeping the best run seen.
pub open spec fn streak_scan(s: Seq<u32>, cur: int, best: int) -> int
    decreases s.len(),
{
    if s.len() == 0 {
        best
    } else if s[0] > 0 {
        streak_scan(s.skip(1), cur + 1, if cur + 1 > best {
            cur + 1
        } else {
            best
        })
    } else {
        streak_scan(s.skip(1), 0, best)
    }
}

/// Length of the longest run of consecutive strictly positive counts.
pub open spec fn longest_run(s: Seq<u32>) -> int {
    streak_scan(s, 0, 0)
}

proof fn lemma_scan_ge(s: Seq<u32>, cur: int, best: int)
    requires
        0 <= cur <= best,
    ensures
        streak_scan(s, cur, best) >= cur + leading_run(s),
        streak_scan(s, cur, best) >= best,
    decreases s.len(),
{
    if s.len() > 0 {
        if s[0] > 0 {
            lemma_scan_ge(s.skip(1), cur + 1, if cur + 1 > best {
                cur + 1
            } else {
                best
            });
        } else {
            lemma_scan_ge(s.skip(1), 0, best);
        }
    }
}

/// The current streak can never exceed the longest streak: the leading run
/// of any count sequence is one of its runs.
pub proof fn lemma_current_le_longest(s: Seq<u32>)
    ensures
        leading_run(s) <= longest_run(s),
{
    lemma_scan_ge(s, 0, 0);
}

proof fn lemma_leading_run_is(s: Seq<u32>, i: int)
    requires
        0 <= i <= s.len(),
        forall|j: int| 0 <= j < i ==> s[j] > 0,
        i == s.len() || s[i] == 0,
    ensures
        leading_run(s) == i,
    decreases i,
{
    if i > 0 {
        assert(s[0] > 0);
        assert(forall|j: int| 0 <= j < i - 1 ==> s.skip(1)[j] == s[j + 1]);
        lemma_leading_run_is(s.skip(1), i - 1);
    }
}

/// A value capped at what a `u32` can hold.
pub open spec fn cap_u32(x: int) -> int {
    if x <= u32::MAX as int {
        x
    } else {
        u32::MAX as int
    }
}

/// The month number a date string carries, as the calendar parser reads it.
pub uninterp spec fn parsed_month(s: Seq<char>) -> Option<u32>;

/// Relies on `chrono::NaiveDate::parse_from_str` with the `%Y-%m-%d`
/// format and `chrono::Datelike::month`: the month number (1 to 12) of a
/// date string that parses, `None` when it does not. The result depends on
/// the characters alone.
#[verifier::external_body]
fn month_from_date(s: &str) -> (r: Option<u32>)
    ensures
        r == parsed_month(s@),
        r is Some ==> 1 <= r->0 <= 12,
{
    match chrono::NaiveDate::parse_from_str(s, "%Y-%m-%d") {
        Ok(d) => Some(chrono::Datelike::month(&d)),
        Err(_) => None,
    }
}

/// The three-letter abbreviation of month `m` (1 to 12).
pub open spec fn month_abbrev(m: int) -> Seq<char> {
    if m == 1 {
        seq!['J', 'a', 'n']
    } else if m == 2 {
        seq!['F', 'e', 'b']
    } else if m == 3 {
        seq!['M', 'a', 'r']
    } else if m == 4 {
        seq!['A', 'p', 'r']
    } else if m == 5 {
        seq!['M', 'a', 'y']
    } else if m == 6 {
        seq!['J', 'u', 'n']
    } else if m == 7 {
        seq!['J', 'u', 'l']
    } else if m == 8 {
        seq!['A', 'u', 'g']
    } else if m == 9 {
        seq!['S', 'e', 'p']
    } else if m == 10 {
        seq!['O', 'c', 't']
    } else if m == 11 {
        seq!['N', 'o', 'v']
    } else {
        seq!['D', 'e', 'c']
    }
}

/// The abbreviation of month `m` as a string slice.
fn month_name(m: u32) -> (r: &'static str)
    requires
        1 <= m <= 12,
    ensures
        r@ == month_abbrev(m as int),
{
    let r: &'static str = if m == 1 {
        "Jan"
    } else if m == 2 {
        "Feb"
    } else if m == 3 {
        "Mar"
    } else if m == 4 {
        "Apr"
    } else if m == 5 {
        "May"
    } else if m == 6 {
        "Jun"
    } else if m == 7 {
        "Jul"
    } else if m == 8 {
        "Aug"
    } else if m == 9 {
        "Sep"
    } else if m == 10 {
        "Oct"
    } else {
        if m == 11 {
            "Nov"
        } else {
            "Dec"
        }
    };
    proof {
        reveal_strlit("Jan");
        reveal_strlit("Feb");
        reveal_strlit("Mar");
        reveal_strlit("Apr");
        reveal_strlit("May");
        reveal_strlit("Jun");
        reveal_strlit("Jul");
        reveal_strlit("Aug");
        reveal_strlit("Sep");
        reveal_strlit("Oct");
        reveal_strlit("Nov");
        reveal_strlit("Dec");
        assert(r@ =~= month_abbrev(m as int));
    }
    r
}

/// Twice `i`, saturated at `usize::MAX`.
pub open spec fn twice_sat(i: int) -> int {
    if 2 * i > usize::MAX as int {
        usize::MAX as int
    } else {
        2 * i
    }
}

/// What week column `idx` adds to the month ruler when the text so far is
/// `cur_len` characters wide: the month abbreviation of its first day at
/// the left edge for column zero, right-aligned at column `2 * (idx + 1)`
/// (at least one space away) when the month changed from the previous
/// column, and nothing otherwise or when the date does not parse.
pub open spec fn month_piece(ws: Seq<Seq<Day>>, idx: int, cur_len: int) -> Seq<char> {
    if 0 <= idx < ws.len() && ws[idx].len() > 0 && parsed_month(ws[idx][0].date@) is Some {
        let m = parsed_month(ws[idx][0].date@)->0;
        if idx == 0 {
            month_abbrev(m as int)
        } else if ws[idx - 1].len() > 0 && parsed_month(ws[idx - 1][0].date@) is Some
            && parsed_month(ws[idx - 1][0].date@)->0 != m {
            let target = twice_sat(idx + 1);
            let pad = if target - cur_len - 3 >= 1 {
                target - cur_len - 3
            } else {
                1
            };
            char_run(' ', pad) + month_abbrev(m as int)
        } else {
            Seq::empty()
        }
    } else {
        Seq::empty()
    }
}

/// The month ruler text over the first `i` week columns.
pub open spec fn month_line_upto(ws: Seq<Seq<Day>>, i: int) -> Seq<char>
    decreases i,
{
    if i <= 0 {
        Seq::empty()
    } else {
        let prev = month_line_upto(ws, i - 1);
        prev + month_piece(ws, i - 1, prev.len() as int)
    }
}

/// The whole month ruler line: the left margin plus the ruler text; the
/// empty string for an empty window.
pub open spec fn month_line_seq(ws: Seq<Seq<Day>>) -> Seq<char> {
    if ws.len() == 0 {
        Seq::empty()
    } else {
        char_run(' ', 4) + month_line_upto(ws, ws.len() as int)
    }
}

/// The palette color for a day count: fixed thresholds 0, 1-2, 3-6, 7-12,
/// and 13 or more.
pub open spec fn level_hex(colors: ColorConfig, count: u32) -> Seq<char> {
    if count == 0 {
        colors.level_0@
    } else if count <= 2 {
        colors.level_1@
    } else if count <= 6 {
        colors.level_2@
    } else if count <= 12 {
        colors.level_3@
    } else {
        colors.level_4@
    }
}

/// One cell in block style: two blank cells on the level color as
/// background, then the style reset.
pub open spec fn block_plain_seq(hex: Seq<char>) -> Seq<char> {
    ansi_bg_of(hex) + seq![' ', ' '] + sgr_reset()
}

/// One cell in spaced style: the glyph on the level color as foreground,
/// the style reset, then one plain separator space.
pub open spec fn block_spaced_seq(hex: Seq<char>, glyph: Seq<char>) -> Seq<char> {
    ansi_color_of(hex) + glyph + sgr_reset() + seq![' ']
}

/// The cells of one rendered row: day `day_idx` of every week column in
/// order; a week without that day contributes nothing.
pub open spec fn row_cells(
    ws: Seq<Seq<Day>>,
    day_idx: int,
    spaced: bool,
    glyph: Seq<char>,
    colors: ColorConfig,
) -> Seq<char>
    decreases ws.len(),
{
    if ws.len() == 0 {
        Seq::empty()
    } else {
        row_cells(ws.drop_last(), day_idx, spaced, glyph, colors) + (if 0 <= day_idx
            < ws.last().len() {
            if spaced {
                block_spaced_seq(level_hex(colors, ws.last()[day_idx].contribution_count), glyph)
            } else {
                block_plain_seq(level_hex(colors, ws.last()[day_idx].contribution_count))
            }
        } else {
            Seq::empty()
        })
    }
}

/// The trailing window of at most `limit` weeks.
pub open spec fn window(ws: Seq<Seq<Day>>, limit: int) -> Seq<Seq<Day>> {
    ws.skip(
        if ws.len() <= limit {
            0
        } else {
            ws.len() - limit
        },
    )
}

/// Every line the renderer produces for a window: the month ruler first
/// when asked for, then one row per day index, each the left margin, the
/// row's cells, and a closing style reset. An empty window produces no day
/// rows: the empty line sequence, or the bare ruler line alone.
pub open spec fn render_lines_spec(
    ws: Seq<Seq<Day>>,
    num_days: int,
    glyph: Seq<char>,
    colors: ColorConfig,
    show_date: bool,
    spaced: bool,
) -> Seq<Seq<char>> {
    let rows = Seq::new(
        if ws.len() == 0 || num_days < 0 {
            0
        } else {
            num_days as nat
        },
        |d: int| char_run(' ', 4) + row_cells(ws, d, spaced, glyph, colors) + sgr_reset(),
    );
    if show_date {
        seq![month_line_seq(ws)] + rows
    } else {
        rows
    }
}

/// The week count the renderer shows when none is pinned.
pub open spec fn default_weeks() -> int {
    52
}

/// The day count a week shows, clamped to at least one day and at most a
/// full week.
pub open spec fn clamped_days(height: Option<usize>) -> int {
    match height {
        Some(h) => if h < 1 {
            1int
        } else if h > 7 {
            7int
        } else {
            h as int
        },
        None => 7,
    }
}

/// The date written into synthetic pattern grids: January 2023, the column
/// number (starting at one) as a zero-padded two-digit day.
pub open spec fn grid_date_seq(col: int) -> Seq<char> {
    let day = col + 1;
    seq!['2', '0', '2', '3', '-', '0', '1', '-'] + if day < 10 {
        seq!['0'] + dec_rep(day)
    } else {
        dec_rep(day)
    }
}

/// The calendar a row-major intensity matrix describes: empty when the
/// matrix (or its first row) is empty; otherwise one week per column of
/// the first row, seven days each, day `r` of week `c` carrying the value
/// at row `r`, column `c` (zero when the matrix is short there) under the
/// synthetic date of column `c`.
pub open spec fn grid_weeks_shape(grid: Seq<Seq<u8>>, ws: Seq<Seq<Day>>) -> bool {
    &&& (grid.len() == 0 || grid[0].len() == 0) ==> ws.len() == 0
    &&& (grid.len() > 0 && grid[0].len() > 0) ==> {
        &&& ws.len() == grid[0].len()
        &&& forall|c: int|
            0 <= c < ws.len() ==> {
                &&& (#[trigger] ws[c]).len() == 7
                &&& forall|r: int|
                    0 <= r < 7 ==> {
                        &&& (#[trigger] ws[c][r]).contribution_count as int == (if r < grid.len()
                            && c < grid[r].len() {
                            grid[r][c] as int
                        } else {
                            0
                        })
                        &&& ws[c][r].date@ == grid_date_seq(c)
                    }
            }
    }
}

impl ContributionGraph {
    /// The calendar's weeks as day sequences, oldest first.
    pub closed spec fn spec_weeks(&self) -> Seq<Seq<Day>> {
        weeks_view(self.weeks@)
    }

    /// A calendar over already-built weeks. The surrounding program parses
    /// a provider payload into weeks of days and hands them in here.
    pub fn from_weeks(weeks: Vec<Week>) -> (g: ContributionGraph)
        ensures
            g.spec_weeks() == weeks_view(weeks@),
    {
        ContributionGraph { weeks }
    }

    /// Builds a calendar from a row-major intensity matrix: row `r` holds
    /// weekday `r` across up to seven rows, column `c` becomes week `c`.
    /// A short row or column reads as zero. An empty matrix, or one whose
    /// first row is empty, yields an empty calendar; this cannot fail.
    pub fn from_grid(grid: Vec<Vec<u8>>) -> (g: ContributionGraph)
        ensures
            grid_weeks_shape(grid.deep_view(), g.spec_weeks()),
    {
        if grid.len() == 0 || grid[0].len() == 0 {
            let g = ContributionGraph { weeks: Vec::new() };
            proof {
                assert(g.spec_weeks().len() == 0);
            }
            return g;
        }
        let num_columns: usize = grid[0].len();
        let mut weeks: Vec<Week> = Vec::new();
        let mut col: usize = 0;
        while col < num_columns
            invariant
                grid@.len() > 0,
                num_columns == grid@[0]@.len(),
                col <= num_columns,
                weeks@.len() == col,
                forall|c: int|
                    0 <= c < col ==> {
                        &&& (#[trigger] weeks@[c]).contribution_days@.len() == 7
                        &&& forall|r: int|
                            0 <= r < 7 ==> {
                                &&& (#[trigger] weeks@[c].contribution_days@[r]).contribution_count
                                    as int == (if r < grid@.len() && c < grid@[r]@.len() {
                                    grid@[r]@[c] as int
                                } else {
                                    0
                                })
                                &&& weeks@[c].contribution_days@[r].date@ == grid_date_seq(c)
                            }
                    },
            decreases num_columns - col,
        {
            let mut date = String::new();
            date.append("2023-01-");
            if col + 1 < 10 {
                date.append("0");
            }
            push_u64(&mut date, (col + 1) as u64);
            proof {
                reveal_strlit("2023-01-");
                reveal_strlit("0");
                assert(date@ =~= grid_date_seq(col as int));
            }

            let mut week_days: Vec<Day> = Vec::new();
            let mut row: usize = 0;
            while row < 7
                invariant
                    grid@.len() > 0,
                    col < num_columns,
                    num_columns == grid@[0]@.len(),
                    row <= 7,
                    date@ == grid_date_seq(col as int),
                    week_days@.len() == row,
                    forall|r: int|
                        0 <= r < row ==> {
                            &&& (#[trigger] week_days@[r]).contribution_count as int == (if r
                                < grid@.len() && (col as int) < grid@[r]@.len() {
                                grid@[r]@[col as int] as int
                            } else {
                                0
                            })
                            &&& week_days@[r].date@ == grid_date_seq(col as int)
                        },
                decreases 7 - row,
            {
                let intensity: u8 = if row < grid.len() && col < grid[row].len() {
                    grid[row][col]
                } else {
                    0
                };
                week_days.push(Day { contribution_count: intensity as u32, date: date.clone() });
                row = row + 1;
            }
            weeks.push(Week { contribution_days: week_days });
            col = col + 1;
        }
        let g = ContributionGraph { weeks };
        proof {
            assert(g.spec_weeks().len() == num_columns);
            assert(forall|c: int|
                0 <= c < num_columns ==> #[trigger] g.spec_weeks()[c]
                    == g.weeks@[c].contribution_days@);
        }
        g
    }

    /// Every day's count, oldest week first.
    fn collect_counts(&self) -> (v: Vec<u32>)
        ensures
            v@ == all_counts(self.spec_weeks()),
    {
        let mut v: Vec<u32> = Vec::new();
        let mut i: usize = 0;
        while i < self.weeks.len()
            invariant
                i <= self.weeks@.len(),
                v@ == all_counts(weeks_view(self.weeks@).take(i as int)),
            decreases self.weeks@.len() - i,
        {
            let days = &self.weeks[i].contribution_days;
            let ghost counts_before = v@;
            let mut j: usize = 0;
            while j < days.len()
                invariant
                    i < self.weeks@.len(),
                    days == &self.weeks@[i as int].contribution_days,
                    j <= days@.len(),
                    v@ == counts_before + counts_of_week(days@.take(j as int)),
                decreases days@.len() - j,
            {
                v.push(days[j].contribution_count);
                proof {
                    assert(counts_of_week(days@.take(j + 1)) =~= counts_of_week(
                        days@.take(j as int),
                    ).push(days@[j as int].contribution_count));
                    assert(v@ =~= counts_before + counts_of_week(days@.take(j + 1)));
                }
                j = j + 1;
            }
            proof {
                assert(days@.take(days@.len() as int) =~= days@);
                assert(weeks_view(self.weeks@).take(i + 1).drop_last() =~~= weeks_view(
                    self.weeks@,
                ).take(i as int));
                assert(weeks_view(self.weeks@).take(i + 1).last() == days@);
                assert(v@ == all_counts(weeks_view(self.weeks@).take(i + 1)));
            }
            i = i + 1;
        }
        proof {
            assert(weeks_view(self.weeks@).take(self.weeks@.len() as int) =~~= weeks_view(
                self.weeks@,
            ));
        }
        v
    }

    /// Sum of every day's count, saturated at `u32::MAX` (which no real
    /// calendar reaches).
    pub fn calculate_total_contributions(&self) -> (r: u32)
        ensures
            r as int == cap_u32(total_of(self.spec_weeks())),
    {
        let counts = self.collect_counts();
        let mut sum: u32 = 0;
        let mut i: usize = 0;
        while i < counts.len()
            invariant
                i <= counts@.len(),
                sum as int == cap_u32(sum_counts(counts@.take(i as int))),
            decreases counts@.len() - i,
        {
            proof {
                lemma_sum_counts_push(counts@.take(i as int), counts@[i as int]);
                assert(counts@.take(i as int).push(counts@[i as int]) =~= counts@.take(i + 1));
                lemma_sum_counts_nonneg(counts@.take(i as int));
            }
            sum = sum.saturating_add(counts[i]);
            i = i + 1;
        }
        proof {
            assert(counts@.take(counts@.len() as int) =~= counts@);
        }
        sum
    }

    /// The current and longest streaks, scanned most-recent day first:
    /// the current streak is the leading run of positive counts, the
    /// longest is the best run anywhere. Both are saturated at `u32::MAX`;
    /// the current streak never exceeds the longest.
    pub fn calculate_streaks(&self) -> (r: (u32, u32))
        ensures
            r.0 as int == cap_u32(leading_run(all_counts(self.spec_weeks()).reverse())),
            r.1 as int == cap_u32(longest_run(all_counts(self.spec_weeks()).reverse())),
            r.0 <= r.1,
    {
        let counts = self.collect_counts();
        let n: usize = counts.len();
        let mut rev: Vec<u32> = Vec::new();
        let mut k: usize = 0;
        while k < n
            invariant
                n == counts@.len(),
                k <= n,
                rev@.len() == k,
                forall|j: int| 0 <= j < k ==> rev@[j] == counts@[n - 1 - j],
            decreases n - k,
        {
            rev.push(counts[n - 1 - k]);
            k = k + 1;
        }
        proof {
            assert(rev@ =~= counts@.reverse());
        }

        let mut current: u32 = 0;
        let mut i: usize = 0;
        while i < n && rev[i] > 0
            invariant
                n == rev@.len(),
                i <= n,
                forall|j: int| 0 <= j < i ==> rev@[j] > 0,
                current as int == cap_u32(i as int),
            decreases n - i,
        {
            current = current.saturating_add(1);
            i = i + 1;
        }
        proof {
            lemma_leading_run_is(rev@, i as int);
        }

        let mut temp: u32 = 0;
        let mut best: u32 = 0;
        let ghost mut gtemp: int = 0;
        let ghost mut gbest: int = 0;
        proof {
            assert(rev@.skip(0) =~= rev@);
        }
        let mut m: usize = 0;
        while m < n
            invariant
                n == rev@.len(),
                m <= n,
                0 <= gtemp <= gbest,
                temp as int == cap_u32(gtemp),
                best as int == cap_u32(gbest),
                longest_run(rev@) == streak_scan(rev@.skip(m as int), gtemp, gbest),
            decreases n - m,
        {
            proof {
                assert(rev@.skip(m as int)[0] == rev@[m as int]);
                assert(rev@.skip(m as int).skip(1) =~= rev@.skip(m + 1));
            }
            if rev[m] > 0 {
                temp = temp.saturating_add(1);
                if temp > best {
                    best = temp;
                }
                proof {
                    gtemp = gtemp + 1;
                    gbest = if gtemp > gbest {
                        gtemp
                    } else {
                        gbest
                    };
                }
            } else {
                temp = 0;
                proof {
                    gtemp = 0;
                }
            }
            m = m + 1;
        }
        proof {
            assert(rev@.skip(n as int) =~= Seq::<u32>::empty());
            lemma_current_le_longest(rev@);
        }
        (current, best)
    }

    /// One cell in block style for a day count.
    pub fn get_contribution_block(&self, count: u32, colors: &ColorConfig) -> (r: String)
        ensures
            r@ == block_plain_seq(level_hex(*colors, count)),
    {
        let hex: &String = if count == 0 {
            &colors.level_0
        } else if count <= 2 {
            &colors.level_1
        } else if count <= 6 {
            &colors.level_2
        } else if count <= 12 {
            &colors.level_3
        } else {
            &colors.level_4
        };
        let (cr, cg, cb) = hex_to_rgb(hex.as_str());
        let mut s = String::new();
        push_ansi_bg(&mut s, cr, cg, cb);
        s.append("  \u{1b}[0m");
        proof {
            reveal_strlit("  \u{1b}[0m");
            assert(s@ =~= block_plain_seq(level_hex(*colors, count)));
        }
        s
    }

    /// One cell in spaced style for a day count.
    pub fn get_contribution_block_spaced(
        &self,
        count: u32,
        custom_box: &str,
        colors: &ColorConfig,
    ) -> (r: String)
        ensures
            r@ == block_spaced_seq(level_hex(*colors, count), custom_box@),
    {
        let hex: &String = if count == 0 {
            &colors.level_0
        } else if count <= 2 {
            &colors.level_1
        } else if count <= 6 {
            &colors.level_2
        } else if count <= 12 {
            &colors.level_3
        } else {
            &colors.level_4
        };
        let (cr, cg, cb) = hex_to_rgb(hex.as_str());
        let mut s = String::new();
        push_ansi_fg(&mut s, cr, cg, cb);
        s.append(custom_box);
        s.append("\u{1b}[0m ");
        proof {
            reveal_strlit("\u{1b}[0m ");
            assert(s@ =~= block_spaced_seq(level_hex(*colors, count), custom_box@));
        }
        s
    }

    /// The month ruler over the given week columns: each column whose first
    /// day starts a new month prints that month's abbreviation, the first
    /// column at the left edge, later ones right-aligned at twice their
    /// one-based index.
    pub fn build_month_line(&self, weeks: &Vec<Week>) -> (r: String)
        ensures
            r@ == month_line_seq(weeks_view(weeks@)),
    {
        let ghost ws = weeks_view(weeks@);
        if weeks.len() == 0 {
            let r = String::new();
            return r;
        }
        let mut line = String::new();
        let mut idx: usize = 0;
        while idx < weeks.len()
            invariant
                weeks@.len() > 0,
                idx <= weeks@.len(),
                ws == weeks_view(weeks@),
                line@ == month_line_upto(ws, idx as int),
            decreases weeks@.len() - idx,
        {
            let ghost cur_len = line@.len() as int;
            let days = &weeks[idx].contribution_days;
            proof {
                assert(ws[idx as int] == days@);
            }
            if days.len() > 0 {
                match month_from_date(days[0].date.as_str()) {
                    Some(m) => {
                        if idx == 0 {
                            line.append(month_name(m));
                            proof {
                                assert(line@ =~= month_line_upto(ws, idx + 1));
                            }
                        } else {
                            let prev_days = &weeks[idx - 1].contribution_days;
                            proof {
                                assert(ws[idx - 1] == prev_days@);
                            }
                            let mut changed = false;
                            if prev_days.len() > 0 {
                                match month_from_date(prev_days[0].date.as_str()) {
                                    Some(pm) => {
                                        if pm != m {
                                            changed = true;
                                        }
                                    },
                                    None => {},
                                }
                            }
                            if changed {
                                let target: usize = if idx + 1 <= usize::MAX / 2 {
                                    (idx + 1) * 2
                                } else {
                                    usize::MAX
                                };
                                let cur: usize = line.as_str().unicode_len();
                                let pad0: usize = target.saturating_sub(cur).saturating_sub(3);
                                let pad: usize = if pad0 < 1 {
                                    1
                                } else {
                                    pad0
                                };
                                push_spaces(&mut line, pad);
                                line.append(month_name(m));
                                proof {
                                    assert(line@ =~= month_line_upto(ws, idx + 1));
                                }
                            } else {
                                proof {
                                    assert(month_piece(ws, idx as int, cur_len)
                                        =~= Seq::<char>::empty());
                                    assert(line@ =~= month_line_upto(ws, idx + 1));
                                }
                            }
                        }
                    },
                    None => {
                        proof {
                            assert(month_piece(ws, idx as int, cur_len) =~= Seq::<char>::empty());
                            assert(line@ =~= month_line_upto(ws, idx + 1));
                        }
                    },
                }
            } else {
                proof {
                    assert(month_piece(ws, idx as int, cur_len) =~= Seq::<char>::empty());
                    assert(line@ =~= month_line_upto(ws, idx + 1));
                }
            }
            idx = idx + 1;
        }
        let mut r = String::new();
        r.append("    ");
        r.append(line.as_str());
        proof {
            reveal_strlit("    ");
            assert("    "@ =~= char_run(' ', 4));
            assert(r@ =~= month_line_seq(ws));
        }
        r
    }

    /// Renders the calendar: at most `width` (default 52) most recent
    /// weeks, the first `height` (default 7, clamped to 1..7) days of
    /// each, one line per day index under an optional month ruler. An
    /// empty calendar renders no day rows at all: the empty line sequence,
    /// or a single empty ruler line; this cannot fail.
    pub fn render(
        &self,
        width: Option<usize>,
        height: Option<usize>,
        custom_box: &str,
        colors: &ColorConfig,
        show_date: bool,
        spaced: bool,
    ) -> (lines: Vec<String>)
        ensures
            lines.deep_view() == render_lines_spec(
                window(
                    self.spec_weeks(),
                    match width {
                        Some(w) => w as int,
                        None => default_weeks(),
                    },
                ),
                clamped_days(height),
                custom_box@,
                *colors,
                show_date,
                spaced,
            ),
    {
        let num_weeks: usize = match width {
            Some(w) => w,
            None => 52,
        };
        let recent = self.get_recent_weeks(num_weeks);
        let ghost ws = weeks_view(recent@);
        proof {
            assert(ws == window(
                self.spec_weeks(),
                match width {
                    Some(w) => w as int,
                    None => default_weeks(),
                },
            ));
        }
        let mut lines: Vec<String> = Vec::new();
        if show_date {
            let month_line = self.build_month_line(&recent);
            lines.push(month_line);
        }
        let hdr: usize = if show_date {
            1
        } else {
            0
        };
        let num_days: usize = match height {
            Some(h) => if h < 1 {
                1
            } else if h > 7 {
                7
            } else {
                h
            },
            None => 7,
        };
        let shown_days: usize = if recent.len() == 0 {
            0
        } else {
            num_days
        };
        let mut day_idx: usize = 0;
        while day_idx < shown_days
            invariant
                num_days as int == clamped_days(height),
                shown_days == if ws.len() == 0 {
                    0int
                } else {
                    num_days as int
                },
                hdr == if show_date {
                    1int
                } else {
                    0int
                },
                day_idx <= shown_days,
                ws == weeks_view(recent@),
                lines@.len() == hdr + day_idx,
                show_date ==> lines@[0]@ == month_line_seq(ws),
                forall|d: int|
                    0 <= d < day_idx ==> (#[trigger] lines@[hdr + d])@ == char_run(' ', 4)
                        + row_cells(ws, d, spaced, custom_box@, *colors) + sgr_reset(),
            decreases shown_days - day_idx,
        {
            let mut row = String::new();
            row.append("    ");
            proof {
                reveal_strlit("    ");
                assert(row@ =~= char_run(' ', 4) + row_cells(
                    ws.take(0),
                    day_idx as int,
                    spaced,
                    custom_box@,
                    *colors,
                ));
            }
            let mut wi: usize = 0;
            while wi < recent.len()
                invariant
                    wi <= recent@.len(),
                    ws == weeks_view(recent@),
                    row@ == char_run(' ', 4) + row_cells(
                        ws.take(wi as int),
                        day_idx as int,
                        spaced,
                        custom_box@,
                        *colors,
                    ),
                decreases recent@.len() - wi,
            {
                let week = &recent[wi];
                proof {
                    assert(ws[wi as int] == week.contribution_days@);
                    assert(ws.take(wi + 1).drop_last() =~= ws.take(wi as int));
                    assert(ws.take(wi + 1).last() == ws[wi as int]);
                }
                if day_idx < week.contribution_days.len() {
                    let count = week.contribution_days[day_idx].contribution_count;
                    let block = if spaced {
                        self.get_contribution_block_spaced(count, custom_box, colors)
                    } else {
                        self.get_contribution_block(count, colors)
                    };
                    row.append(block.as_str());
                }
                proof {
                    assert(row@ =~= char_run(' ', 4) + row_cells(
                        ws.take(wi + 1),
                        day_idx as int,
                        spaced,
                        custom_box@,
                        *colors,
                    ));
                }
                wi = wi + 1;
            }
            row.append("\u{1b}[0m");
            proof {
                reveal_strlit("\u{1b}[0m");
                assert(ws.take(recent@.len() as int) =~= ws);
                assert(row@ =~= char_run(' ', 4) + row_cells(
                    ws,
                    day_idx as int,
                    spaced,
                    custom_box@,
                    *colors,
                ) + sgr_reset());
            }
            lines.push(row);
            day_idx = day_idx + 1;
        }
        proof {
            let spec_res = render_lines_spec(
                ws,
                clamped_days(height),
                custom_box@,
                *colors,
                show_date,
                spaced,
            );
            assert(spec_res.len() == hdr + shown_days);
            assert forall|i: int| 0 <= i < lines@.len() implies lines.deep_view()[i]
                == spec_res[i] by {
                assert(lines.deep_view()[i] == lines@[i]@);
                if show_date && i == 0 {
                    assert(spec_res[0] == month_line_seq(ws));
                } else {
                    let d = i - hdr;
                    assert(lines@[hdr + d]@ == char_run(' ', 4) + row_cells(
                        ws,
                        d,
                        spaced,
                        custom_box@,
                        *colors,
                    ) + sgr_reset());
                    assert(spec_res[i] == char_run(' ', 4) + row_cells(
                        ws,
                        d,
                        spaced,
                        custom_box@,
                        *colors,
                    ) + sgr_reset());
                }
            }
            assert(lines.deep_view() =~= spec_res);
        }
        lines
    }

    /// The last `min(limit, len)` weeks, chronological order kept: the
    /// window is right-aligned on the most recent week, dropping only from
    /// the front.
    pub fn get_recent_weeks(&self, limit: usize) -> (r: Vec<Week>)
        ensures
            weeks_view(r@) == self.spec_weeks().skip(
                if self.spec_weeks().len() <= limit {
                    0
                } else {
                    self.spec_weeks().len() - limit
                },
            ),
            r@.len() == (if self.spec_weeks().len() <= limit {
                self.spec_weeks().len()
            } else {
                limit as nat
            }),
    {
        let n: usize = self.weeks.len();
        let start: usize = if n <= limit {
            0
        } else {
            n - limit
        };
        let mut r: Vec<Week> = Vec::new();
        let mut i: usize = start;
        while i < n
            invariant
                n == self.weeks@.len(),
                start <= i <= n,
                r@.len() == i - start,
                forall|k: int|
                    0 <= k < r@.len() ==> (#[trigger] r@[k]).contribution_days@ == self.weeks@[
                        start + k
                    ].contribution_days@,
            decreases n - i,
        {
            r.push(self.weeks[i].clone());
            i = i + 1;
        }
        proof {
            assert forall|k: int|
                0 <= k < r@.len() implies weeks_view(r@)[k] == weeks_view(self.weeks@).skip(
                start as int,
            )[k] by {
                assert(weeks_view(r@)[k] == r@[k].contribution_days@);
                assert(weeks_view(self.weeks@)[start + k] == self.weeks@[
                    start + k
                ].contribution_days@);
            }
            assert(weeks_view(r@) =~= weeks_view(self.weeks@).skip(start as int));
        }
        r
    }
}

} // verus!
