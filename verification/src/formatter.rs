//! The layout negotiator and section composer: builds each layout
//! candidate's styled lines, measures them against the terminal, and keeps
//! the first candidate that fits, falling back to the minimal one.

use vstd::prelude::*;

use crate::colors::{ansi_fg_seq, lemma_ansi_fg_is_csi, lemma_csi_of_body, push_ansi_fg};
use crate::config::Config;
use crate::fmt_num::{dec_rep, dec_rep_signed, digit_char, push_i64, u64_string};
use crate::graph::{
    all_counts, cap_u32, leading_run, longest_run, total_of, weeks_view, ContributionGraph,
};
use crate::measure::{
    is_csi_m_seq, lemma_sgr_reset_is_csi, lemma_vis_width_styled, max_line_width, max_vis_width,
    sgr_reset, truncate_to_width, truncated_spec, vis_width, visible_width,
};
use crate::stats::{RenderStats, SectionEntry, UserData};
use crate::strutil::{char_run, clone_lines, push_char, push_char_run, push_spaces, str_eq, trim_end_spec};

verus! {

broadcast use vstd::string::group_string_axioms;

/// The visual knobs one invocation runs under.
#[derive(Debug, Clone, Default)]
pub struct VisualOptions {
    pub graph_only: bool,
    pub spaced: bool,
    pub graph_timeline: bool,
    pub width: Option<usize>,
    pub height: Option<usize>,
    pub no_achievements: bool,
    pub no_languages: bool,
    pub no_issues: bool,
    pub no_pr: bool,
    pub no_account: bool,
    pub no_grid: bool,
}

/// The layout candidates, in decreasing information density.
#[derive(Debug, PartialEq, Eq, Structural, Clone, Copy)]
pub enum Layout {
    Full,
    Compact,
    Minimal,
}

/// Builds every styled line of the summary for one terminal snapshot.
pub struct DisplayFormatter {
    pub config: Config,
    pub terminal_width: usize,
    pub terminal_height: usize,
    pub visual_opts: VisualOptions,
}

/// The color escape run each style name stands for; unknown names reset.
pub open spec fn color_code_of(name: Seq<char>) -> Seq<char> {
    if name == "header"@ {
        ansi_fg_seq(118, 215, 161)
    } else if name == "orange"@ {
        ansi_fg_seq(255, 184, 108)
    } else if name == "green"@ {
        ansi_fg_seq(80, 250, 123)
    } else if name == "muted"@ {
        ansi_fg_seq(68, 71, 90)
    } else if name == "bold"@ {
        seq!['\u{1b}', '[', '1', 'm']
    } else if name == "red"@ {
        seq!['\u{1b}', '[', '9', '1', 'm']
    } else if name == "yellow"@ {
        seq!['\u{1b}', '[', '9', '3', 'm']
    } else if name == "cyan"@ {
        seq!['\u{1b}', '[', '9', '6', 'm']
    } else if name == "magenta"@ {
        seq!['\u{1b}', '[', '9', '5', 'm']
    } else {
        sgr_reset()
    }
}

/// Text wrapped in a named color: the color's escape run, the text, and
/// the style reset.
pub open spec fn colorize_spec(text: Seq<char>, color: Seq<char>) -> Seq<char> {
    color_code_of(color) + text + sgr_reset()
}

/// Every style name maps to one complete escape run.
pub proof fn lemma_color_code_is_csi(name: Seq<char>)
    ensures
        is_csi_m_seq(color_code_of(name)),
{
    lemma_ansi_fg_is_csi(118, 215, 161);
    lemma_ansi_fg_is_csi(255, 184, 108);
    lemma_ansi_fg_is_csi(80, 250, 123);
    lemma_ansi_fg_is_csi(68, 71, 90);
    lemma_csi_of_body(seq!['1']);
    assert(seq!['\u{1b}', '['] + seq!['1'] + seq!['m'] =~= seq!['\u{1b}', '[', '1', 'm']);
    lemma_csi_of_body(seq!['9', '1']);
    assert(seq!['\u{1b}', '['] + seq!['9', '1'] + seq!['m'] =~= seq!['\u{1b}', '[', '9', '1', 'm']);
    lemma_csi_of_body(seq!['9', '3']);
    assert(seq!['\u{1b}', '['] + seq!['9', '3'] + seq!['m'] =~= seq!['\u{1b}', '[', '9', '3', 'm']);
    lemma_csi_of_body(seq!['9', '6']);
    assert(seq!['\u{1b}', '['] + seq!['9', '6'] + seq!['m'] =~= seq!['\u{1b}', '[', '9', '6', 'm']);
    lemma_csi_of_body(seq!['9', '5']);
    assert(seq!['\u{1b}', '['] + seq!['9', '5'] + seq!['m'] =~= seq!['\u{1b}', '[', '9', '5', 'm']);
    lemma_sgr_reset_is_csi();
}

/// Wrapping any text in any named color leaves its visible width exactly
/// as it was: width decisions cannot depend on styling.
pub proof fn lemma_colorize_width_invariant(text: Seq<char>, color: Seq<char>)
    ensures
        vis_width(colorize_spec(text, color)) == vis_width(text),
{
    lemma_color_code_is_csi(color);
    lemma_vis_width_styled(color_code_of(color), text);
}

/// `s` padded on the right with spaces up to `w` characters.
pub open spec fn pad_right(s: Seq<char>, w: int) -> Seq<char> {
    s + char_run(' ', w - s.len())
}

/// `s` padded on the left with spaces up to `w` characters.
pub open spec fn pad_left(s: Seq<char>, w: int) -> Seq<char> {
    char_run(' ', w - s.len()) + s
}

/// A labelled field name: the text and a colon, padded to twelve
/// characters, in bold.
pub open spec fn label_spec(text: Seq<char>) -> Seq<char> {
    colorize_spec(pad_right(text + seq![':'], 12), "bold"@)
}

/// A percentage in tenths of a percent as the fixed-width column text:
/// one decimal digit, right-aligned to five characters.
pub open spec fn pct_rep(m: int) -> Seq<char> {
    pad_left(dec_rep(m / 10) + seq!['.', digit_char(m % 10)], 5)
}

/// A progress bar: `width` cells (at least one), the leading share filled
/// in green for `m` tenths of a percent (clamped to one thousand), the
/// rest hollow.
pub open spec fn progress_bar_spec(m: int, width: int) -> Seq<char> {
    let w = if width < 1 {
        1int
    } else {
        width
    };
    let capped = if m < 0 {
        0int
    } else if m > 1000 {
        1000int
    } else {
        m
    };
    let filled0 = (capped * w + 500) / 1000;
    let filled = if filled0 > w {
        w
    } else {
        filled0
    };
    colorize_spec(char_run('\u{25b0}', filled), "green"@) + char_run('\u{25b1}', w - filled)
}

/// One line of two blocks side by side: the left text padded to `pad_to`
/// visible cells, a two-space gap, then the right text.
pub open spec fn pair_line_spec(l: Seq<char>, r: Seq<char>, pad_to: int) -> Seq<char> {
    l + char_run(' ', pad_to - vis_width(l)) + seq![' ', ' '] + r
}

/// Two blocks side by side, row by row; a block without a row contributes
/// the empty text.
pub open spec fn pair_lines_spec(ls: Seq<Seq<char>>, rs: Seq<Seq<char>>, pad_to: int) -> Seq<
    Seq<char>,
> {
    let n = if ls.len() >= rs.len() {
        ls.len()
    } else {
        rs.len()
    };
    Seq::new(
        n,
        |i: int|
            pair_line_spec(
                if i < ls.len() {
                    ls[i]
                } else {
                    Seq::empty()
                },
                if i < rs.len() {
                    rs[i]
                } else {
                    Seq::empty()
                },
                pad_to,
            ),
    )
}

/// Largest line count over the columns of one row-group.
pub open spec fn group_max_lines(row: Seq<Seq<Seq<char>>>) -> int
    decreases row.len(),
{
    if row.len() == 0 {
        0
    } else {
        let rest = group_max_lines(row.drop_last());
        if row.last().len() >= rest {
            row.last().len() as int
        } else {
            rest
        }
    }
}

/// One padded cell of a combined line: the column's text at `li` (empty
/// past its end), padded to the column's width, and the gap unless the
/// column closes its row.
pub open spec fn combine_part(col: Seq<Seq<char>>, li: int, last: bool) -> Seq<char> {
    let text = if 0 <= li < col.len() {
        col[li]
    } else {
        Seq::empty()
    };
    text + char_run(' ', max_vis_width(col) - vis_width(text)) + (if last {
        Seq::<char>::empty()
    } else {
        char_run(' ', 3)
    })
}

/// The cells of one combined line, joined in column order from `j` on.
pub open spec fn combine_parts(row: Seq<Seq<Seq<char>>>, li: int, j: int) -> Seq<char>
    decreases row.len() - j,
{
    if j < 0 || j >= row.len() {
        Seq::empty()
    } else {
        combine_part(row[j], li, j == row.len() - 1) + combine_parts(row, li, j + 1)
    }
}

/// One line of a combined row-group: the left margin, then the padded
/// cells with trailing whitespace trimmed.
pub open spec fn group_line(row: Seq<Seq<Seq<char>>>, li: int) -> Seq<char> {
    char_run(' ', 4) + trim_end_spec(combine_parts(row, li, 0))
}

/// Every line of one row-group.
pub open spec fn group_lines(row: Seq<Seq<Seq<char>>>) -> Seq<Seq<char>> {
    Seq::new(
        if group_max_lines(row) >= 0 {
            group_max_lines(row) as nat
        } else {
            0
        },
        |li: int| group_line(row, li),
    )
}

/// Greedy packing of the non-empty columns into row-groups: scanning in
/// order with the running width `cur_w` (the margin plus the widths and
/// gaps placed so far), a column joins the current group unless that
/// would exceed the budget, in which case the group closes and the column
/// starts the next one.
pub open spec fn pack_groups_from(
    cols: Seq<Seq<Seq<char>>>,
    limit: int,
    i: int,
    cur: Seq<Seq<Seq<char>>>,
    cur_w: int,
    done: Seq<Seq<Seq<Seq<char>>>>,
) -> Seq<Seq<Seq<Seq<char>>>>
    decreases cols.len() - i,
{
    if i < 0 || i >= cols.len() {
        if cur.len() > 0 {
            done.push(cur)
        } else {
            done
        }
    } else if cols[i].len() == 0 {
        pack_groups_from(cols, limit, i + 1, cur, cur_w, done)
    } else {
        let w = max_vis_width(cols[i]);
        let proj = if cur.len() == 0 {
            w
        } else {
            w + 3
        };
        if cur.len() > 0 && cur_w + proj > limit {
            pack_groups_from(cols, limit, i + 1, seq![cols[i]], 4 + w, done.push(cur))
        } else {
            pack_groups_from(cols, limit, i + 1, cur.push(cols[i]), cur_w + proj, done)
        }
    }
}

/// The row-groups the greedy packing forms for a width budget.
pub open spec fn pack_groups(cols: Seq<Seq<Seq<char>>>, limit: int) -> Seq<Seq<Seq<Seq<char>>>> {
    pack_groups_from(cols, limit, 0, Seq::empty(), 4, Seq::empty())
}

/// Every combined line from group `gi` on: each group's lines, one blank
/// separator line between neighbouring groups.
pub open spec fn combined_lines_from(groups: Seq<Seq<Seq<Seq<char>>>>, gi: int) -> Seq<Seq<char>>
    decreases groups.len() - gi,
{
    if gi < 0 || gi >= groups.len() {
        Seq::empty()
    } else {
        group_lines(groups[gi]) + (if gi < groups.len() - 1 {
            seq![Seq::<char>::empty()]
        } else {
            Seq::<Seq<char>>::empty()
        }) + combined_lines_from(groups, gi + 1)
    }
}

/// What packing a column list into a width budget produces.
pub open spec fn combine_spec(cols: Seq<Seq<Seq<char>>>, limit: int) -> Seq<Seq<char>> {
    combined_lines_from(pack_groups(cols, limit), 0)
}

impl DisplayFormatter {
    /// A formatter over one snapshot of the terminal size; the surrounding
    /// program samples the terminal once and hands the numbers in.
    pub fn with_terminal(
        config: Config,
        visual_opts: VisualOptions,
        terminal_width: usize,
        terminal_height: usize,
    ) -> (r: DisplayFormatter)
        ensures
            r.config == config,
            r.visual_opts == visual_opts,
            r.terminal_width == terminal_width,
            r.terminal_height == terminal_height,
    {
        DisplayFormatter { config, terminal_width, terminal_height, visual_opts }
    }

    /// Visible width of a line: the one measurement every alignment and
    /// fit decision uses.
    pub fn display_width(&self, text: &str) -> (r: usize)
        ensures
            r as int == vis_width(text@),
    {
        visible_width(text)
    }

    /// Wraps text in a named color.
    pub fn colorize(&self, text: &str, color: &str) -> (r: String)
        ensures
            r@ == colorize_spec(text@, color@),
    {
        let mut s = String::new();
        if str_eq(color, "header") {
            push_ansi_fg(&mut s, 118, 215, 161);
        } else if str_eq(color, "orange") {
            push_ansi_fg(&mut s, 255, 184, 108);
        } else if str_eq(color, "green") {
            push_ansi_fg(&mut s, 80, 250, 123);
        } else if str_eq(color, "muted") {
            push_ansi_fg(&mut s, 68, 71, 90);
        } else if str_eq(color, "bold") {
            s.append("\u{1b}[1m");
            proof {
                reveal_strlit("\u{1b}[1m");
                assert(s@ =~= color_code_of(color@));
            }
        } else if str_eq(color, "red") {
            s.append("\u{1b}[91m");
            proof {
                reveal_strlit("\u{1b}[91m");
                assert(s@ =~= color_code_of(color@));
            }
        } else if str_eq(color, "yellow") {
            s.append("\u{1b}[93m");
            proof {
                reveal_strlit("\u{1b}[93m");
                assert(s@ =~= color_code_of(color@));
            }
        } else if str_eq(color, "cyan") {
            s.append("\u{1b}[96m");
            proof {
                reveal_strlit("\u{1b}[96m");
                assert(s@ =~= color_code_of(color@));
            }
        } else if str_eq(color, "magenta") {
            s.append("\u{1b}[95m");
            proof {
                reveal_strlit("\u{1b}[95m");
                assert(s@ =~= color_code_of(color@));
            }
        } else {
            s.append("\u{1b}[0m");
            proof {
                reveal_strlit("\u{1b}[0m");
                assert(s@ =~= color_code_of(color@));
            }
        }
        s.append(text);
        s.append("\u{1b}[0m");
        proof {
            reveal_strlit("\u{1b}[0m");
            assert(s@ =~= colorize_spec(text@, color@));
        }
        s
    }

    /// A labelled field name, bold and padded to a fixed column.
    pub fn label(&self, text: &str) -> (r: String)
        ensures
            r@ == label_spec(text@),
    {
        let mut padded = String::new();
        padded.append(text);
        padded.append(":");
        let len: usize = padded.as_str().unicode_len();
        if len < 12 {
            push_spaces(&mut padded, 12 - len);
        }
        proof {
            reveal_strlit(":");
            assert(padded@ =~= pad_right(text@ + seq![':'], 12));
        }
        self.colorize(padded.as_str(), "bold")
    }

    /// Truncates text to a visible width, appending an ellipsis when
    /// anything was cut.
    pub fn truncate_text(&self, text: &str, max_width: usize) -> (r: String)
        ensures
            r@ == truncated_spec(text@, max_width as int),
    {
        truncate_to_width(text, max_width)
    }

    /// Two blocks side by side, the left padded to a fixed width.
    pub fn pair_side_by_side(
        &self,
        left: &Vec<String>,
        right: &Vec<String>,
        pad_to: usize,
    ) -> (r: Vec<String>)
        ensures
            r.deep_view() == pair_lines_spec(left.deep_view(), right.deep_view(), pad_to as int),
    {
        let nl: usize = left.len();
        let nr: usize = right.len();
        let n: usize = if nl >= nr {
            nl
        } else {
            nr
        };
        let mut out: Vec<String> = Vec::new();
        let mut i: usize = 0;
        while i < n
            invariant
                nl == left@.len(),
                nr == right@.len(),
                n == if nl >= nr {
                    nl
                } else {
                    nr
                },
                i <= n,
                out@.len() == i,
                out.deep_view() =~= pair_lines_spec(
                    left.deep_view(),
                    right.deep_view(),
                    pad_to as int,
                ).take(i as int),
            decreases n - i,
        {
            let mut line = String::new();
            let lw: usize;
            if i < nl {
                line.append(left[i].as_str());
                lw = visible_width(left[i].as_str());
            } else {
                lw = 0;
                proof {
                    crate::measure::lemma_seq_cells_nonneg(Seq::<char>::empty());
                    assert(crate::measure::strip_from(Seq::<char>::empty(), 0)
                        =~= Seq::<char>::empty());
                }
            }
            push_spaces(&mut line, pad_to.saturating_sub(lw));
            line.append("  ");
            if i < nr {
                line.append(right[i].as_str());
            }
            let ghost line_v = line@;
            out.push(line);
            proof {
                reveal_strlit("  ");
                let lseq: Seq<char> = if i < left@.len() {
                    left.deep_view()[i as int]
                } else {
                    Seq::empty()
                };
                let rseq: Seq<char> = if i < right@.len() {
                    right.deep_view()[i as int]
                } else {
                    Seq::empty()
                };
                if i < left@.len() {
                    assert(left.deep_view()[i as int] == left@[i as int]@);
                }
                if i < right@.len() {
                    assert(right.deep_view()[i as int] == right@[i as int]@);
                }
                assert(line_v =~= pair_line_spec(lseq, rseq, pad_to as int));
                let sp = pair_lines_spec(left.deep_view(), right.deep_view(), pad_to as int);
                assert(sp[i as int] == pair_line_spec(lseq, rseq, pad_to as int));
                assert(out.deep_view().len() == i + 1);
                assert(out.deep_view()[i as int] == line_v);
                assert(forall|k: int|
                    0 <= k < i ==> #[trigger] out.deep_view()[k] == sp.take(i as int)[k]);
                assert(out.deep_view() =~= sp.take(i + 1));
            }
            i = i + 1;
        }
        proof {
            let spec_res = pair_lines_spec(left.deep_view(), right.deep_view(), pad_to as int);
            assert(spec_res.take(n as int) =~= spec_res);
            assert(out.deep_view() =~= spec_res);
        }
        out
    }

    /// Packs text columns into row-groups bounded by a width budget: each
    /// group holds as many columns as fit side by side; groups follow one
    /// another separated by one blank line. Within a group, each column is
    /// padded to its own width, a three-space gap stands between columns,
    /// and each produced line drops its trailing whitespace behind a
    /// four-space left margin.
    pub fn combine_section_grid(&self, columns: &Vec<Vec<String>>, width_limit: usize) -> (r: Vec<
        String,
    >)
        ensures
            r.deep_view() == combine_spec(columns.deep_view(), width_limit as int),
    {
        let ghost cols_v = columns.deep_view();
        let mut groups: Vec<Vec<Vec<String>>> = Vec::new();
        let mut cur: Vec<Vec<String>> = Vec::new();
        let mut cur_w: u128 = 4;
        proof {
            assert(cur.deep_view() =~= Seq::<Seq<Seq<char>>>::empty());
            assert(groups.deep_view() =~= Seq::<Seq<Seq<Seq<char>>>>::empty());
        }
        let mut i: usize = 0;
        while i < columns.len()
            invariant
                cols_v == columns.deep_view(),
                i <= cols_v.len(),
                cur_w <= usize::MAX as u128 + 4,
                cur.deep_view().len() == 0 ==> cur_w == 4,
                pack_groups(cols_v, width_limit as int) == pack_groups_from(
                    cols_v,
                    width_limit as int,
                    i as int,
                    cur.deep_view(),
                    cur_w as int,
                    groups.deep_view(),
                ),
            decreases cols_v.len() - i,
        {
            let col = &columns[i];
            proof {
                assert(cols_v[i as int] =~~= col.deep_view());
            }
            if col.len() > 0 {
                let w = max_line_width(col);
                let proj: u128 = if cur.len() == 0 {
                    w as u128
                } else {
                    w as u128 + 3
                };
                if cur.len() > 0 && cur_w + proj > width_limit as u128 {
                    let ghost old_groups_v = groups.deep_view();
                    let ghost old_cur_v = cur.deep_view();
                    groups.push(cur);
                    cur = Vec::new();
                    cur.push(clone_lines(col));
                    cur_w = 4 + w as u128;
                    proof {
                        assert(groups.deep_view() =~~= old_groups_v.push(old_cur_v));
                        assert(cur.deep_view() =~~= seq![cols_v[i as int]]);
                    }
                } else {
                    let ghost old_cur = cur.deep_view();
                    cur.push(clone_lines(col));
                    cur_w = cur_w + proj;
                    proof {
                        assert(cur.deep_view() =~~= old_cur.push(cols_v[i as int]));
                    }
                }
            }
            i = i + 1;
        }
        if cur.len() > 0 {
            groups.push(cur);
        }
        let ghost groups_v = groups.deep_view();
        proof {
            assert(groups_v =~~= pack_groups(cols_v, width_limit as int));
        }

        let mut out: Vec<String> = Vec::new();
        let mut gi: usize = 0;
        while gi < groups.len()
            invariant
                groups_v == groups.deep_view(),
                gi <= groups_v.len(),
                combined_lines_from(groups_v, 0) == out.deep_view() + combined_lines_from(
                    groups_v,
                    gi as int,
                ),
            decreases groups_v.len() - gi,
        {
            let row = &groups[gi];
            let ghost row_v = groups_v[gi as int];
            proof {
                assert(row_v =~~= row.deep_view());
            }
            let mut max_lines: usize = 0;
            let mut j: usize = 0;
            while j < row.len()
                invariant
                    row_v == row.deep_view(),
                    j <= row_v.len(),
                    max_lines as int == group_max_lines(row_v.take(j as int)),
                decreases row_v.len() - j,
            {
                proof {
                    assert(row_v.take(j + 1).drop_last() =~= row_v.take(j as int));
                    assert(row_v.take(j + 1).last() =~~= row_v[j as int]);
                }
                if row[j].len() > max_lines {
                    max_lines = row[j].len();
                }
                j = j + 1;
            }
            proof {
                assert(row_v.take(row_v.len() as int) =~= row_v);
            }

            let ghost before_group = out.deep_view();
            let mut li: usize = 0;
            while li < max_lines
                invariant
                    groups_v == groups.deep_view(),
                    gi < groups_v.len(),
                    row_v == row.deep_view(),
                    max_lines as int == group_max_lines(row_v),
                    li <= max_lines,
                    out@.len() == before_group.len() + li,
                    out.deep_view() =~= before_group + group_lines(row_v).take(li as int),
                decreases max_lines - li,
            {
                let mut parts = String::new();
                let mut j2: usize = 0;
                while j2 < row.len()
                    invariant
                        row_v == row.deep_view(),
                        j2 <= row_v.len(),
                        combine_parts(row_v, li as int, 0) == parts@ + combine_parts(
                            row_v,
                            li as int,
                            j2 as int,
                        ),
                    decreases row_v.len() - j2,
                {
                    let ghost p_before = parts@;
                    let colw = max_line_width(&row[j2]);
                    let tw: usize;
                    if li < row[j2].len() {
                        parts.append(row[j2][li].as_str());
                        tw = visible_width(row[j2][li].as_str());
                    } else {
                        tw = 0;
                        proof {
                            crate::measure::lemma_seq_cells_nonneg(Seq::<char>::empty());
                            assert(crate::measure::strip_from(Seq::<char>::empty(), 0)
                                =~= Seq::<char>::empty());
                        }
                    }
                    push_spaces(&mut parts, colw.saturating_sub(tw));
                    if j2 + 1 < row.len() {
                        parts.append("   ");
                    }
                    proof {
                        reveal_strlit("   ");
                        assert(parts@ =~= p_before + combine_part(
                            row_v[j2 as int],
                            li as int,
                            j2 as int == row_v.len() - 1,
                        ));
                        assert(p_before + combine_parts(row_v, li as int, j2 as int) =~= parts@
                            + combine_parts(row_v, li as int, j2 + 1));
                    }
                    j2 = j2 + 1;
                }
                let trimmed = crate::strutil::trim_end_str(parts.as_str());
                let mut line = String::new();
                line.append("    ");
                line.append(trimmed.as_str());
                let ghost line_v = line@;
                let ghost out_before = out.deep_view();
                out.push(line);
                proof {
                    reveal_strlit("    ");
                    assert("    "@ =~= char_run(' ', 4));
                    assert(combine_parts(row_v, li as int, row_v.len() as int)
                        =~= Seq::<char>::empty());
                    assert(parts@ =~= combine_parts(row_v, li as int, 0));
                    assert(line_v =~= group_line(row_v, li as int));
                    let gl = group_lines(row_v);
                    assert(gl[li as int] == group_line(row_v, li as int));
                    assert(out.deep_view().len() == out_before.len() + 1);
                    assert(out.deep_view()[out_before.len() as int] == line_v);
                    assert(forall|k: int|
                        0 <= k < out_before.len() ==> #[trigger] out.deep_view()[k]
                            == out_before[k]);
                    assert(out.deep_view() =~= before_group + gl.take(li + 1));
                }
                li = li + 1;
            }
            proof {
                assert(group_lines(row_v).take(group_lines(row_v).len() as int) =~= group_lines(
                    row_v,
                ));
            }
            if gi + 1 < groups.len() {
                out.push(String::new());
                proof {
                    assert(out.deep_view() =~= before_group + group_lines(row_v) + seq![
                        Seq::<char>::empty()
                    ]);
                }
            }
            gi = gi + 1;
        }
        proof {
            assert(out.deep_view() + combined_lines_from(groups_v, groups_v.len() as int)
                =~= out.deep_view());
            assert(out.deep_view() =~= combine_spec(cols_v, width_limit as int));
        }
        out
    }

    /// A progress bar for a percentage given in tenths of a percent.
    pub fn render_progress_bar(&self, permille: u32, width: usize) -> (r: String)
        ensures
            r@ == progress_bar_spec(permille as int, width as int),
    {
        let w: usize = if width < 1 {
            1
        } else {
            width
        };
        let capped: u32 = if permille > 1000 {
            1000
        } else {
            permille
        };
        proof {
            assert(capped as int * w as int <= 1000 * usize::MAX as int) by (nonlinear_arith)
                requires
                    capped <= 1000,
                    w <= usize::MAX,
            ;
        }
        let filled0: u128 = (capped as u128 * w as u128 + 500) / 1000;
        let filled: usize = if filled0 > w as u128 {
            w
        } else {
            filled0 as usize
        };
        let mut bar = String::new();
        push_char_run(&mut bar, '\u{25b0}', filled);
        let colored = self.colorize(bar.as_str(), "green");
        let mut s = String::new();
        s.append(colored.as_str());
        push_char_run(&mut s, '\u{25b1}', w - filled);
        proof {
            assert(s@ =~= progress_bar_spec(permille as int, width as int));
        }
        s
    }

    /// The language block: heading, rule, and the top five languages by
    /// percentage, highest first (ties keep the payload's order), each
    /// with its bar and its percentage column. Empty when the payload
    /// names no language.
    pub fn format_languages(&self, stats: &RenderStats) -> (r: Vec<String>)
        ensures
            stats.languages@.len() == 0 ==> r@.len() == 0,
            stats.languages@.len() > 0 ==> r.deep_view() == languages_lines_spec(
                sort_desc(stats.languages@),
            ),
    {
        let mut lines: Vec<String> = Vec::new();
        if stats.languages.len() == 0 {
            return lines;
        }
        let sorted = sort_langs(&stats.languages);
        let ghost sv = sorted@;
        lines.push(self.colorize("TOP LANGUAGES", "header"));
        let mut rule = String::new();
        push_char_run(&mut rule, '\u{2500}', 13);
        lines.push(self.colorize(rule.as_str(), "muted"));
        let n: usize = if sorted.len() > 5 {
            5
        } else {
            sorted.len()
        };
        let ghost spec_lines = languages_lines_spec(sv);
        proof {
            assert(lines.deep_view() =~= spec_lines.take(2));
        }
        let mut i: usize = 0;
        while i < n
            invariant
                sv == sorted@,
                n == if sv.len() > 5 {
                    5int
                } else {
                    sv.len() as int
                },
                spec_lines == languages_lines_spec(sv),
                i <= n,
                lines@.len() == 2 + i,
                lines.deep_view() =~= spec_lines.take(2 + i),
            decreases n - i,
        {
            let name = &sorted[i].0;
            let m: u32 = sorted[i].1;
            let lowered = lower_ascii_str(name.as_str());
            let display: &str = if str_eq(lowered.as_str(), "jupyter notebook") {
                "Jupyter"
            } else {
                name.as_str()
            };
            proof {
                assert(display@ == lang_display_name(name@));
            }
            let mut line = self.label(display);
            line.append(" ");
            let bar = self.render_progress_bar(m, 24);
            line.append(bar.as_str());
            line.append(" ");
            let pct = pct_string(m);
            line.append(pct.as_str());
            line.append("%");
            let ghost line_v = line@;
            lines.push(line);
            proof {
                reveal_strlit(" ");
                reveal_strlit("%");
                assert(line_v =~= language_line_spec(sv[i as int].0@, sv[i as int].1 as int));
                assert(spec_lines[2 + i] == language_line_spec(sv[i as int].0@, sv[i as int].1 as int));
                assert(lines.deep_view() =~= spec_lines.take(2 + i + 1));
            }
            i = i + 1;
        }
        proof {
            assert(spec_lines.take(spec_lines.len() as int) =~= spec_lines);
        }
        lines
    }

    /// The achievement entries for given aggregates: the engine behind the
    /// achievement block.
    pub fn derive_achievements(&self, current: u32, longest: u32, total: u32) -> (r: Vec<
        (String, String),
    >)
        ensures
            r.deep_view() == achievement_entries_spec(
                current as int,
                longest as int,
                total as int,
            ),
    {
        let ghost spec_entries = achievement_entries_spec(
            current as int,
            longest as int,
            total as int,
        );
        let mut entries: Vec<(String, String)> = Vec::new();
        if current > 0 {
            let mut lbl = self.colorize("\u{1f525}", "red");
            lbl.append(" Current Streak");
            let mut val = u64_string(current as u64);
            if current == 1 {
                val.append(" day");
            } else {
                val.append(" days");
            }
            entries.push((lbl, val));
        }
        if longest > 0 {
            let mut lbl = self.colorize("\u{2b50}", "yellow");
            lbl.append(" Best Streak");
            let mut val = u64_string(longest as u64);
            if longest == 1 {
                val.append(" day");
            } else {
                val.append(" days");
            }
            entries.push((lbl, val));
        }
        if total >= 10000 {
            let mut lbl = self.colorize("\u{1f48e}", "magenta");
            lbl.append(" Contributions");
            entries.push((lbl, "10k+".to_owned()));
        } else if total >= 5000 {
            let mut lbl = self.colorize("\u{1f451}", "yellow");
            lbl.append(" Contributions");
            entries.push((lbl, "5k+".to_owned()));
        } else if total >= 1000 {
            let mut lbl = self.colorize("\u{1f396}\u{fe0f}", "cyan");
            lbl.append(" Contributions");
            entries.push((lbl, "1k+".to_owned()));
        } else if total >= 100 {
            let mut lbl = self.colorize("\u{1f3c6}", "yellow");
            lbl.append(" Contributions");
            entries.push((lbl, "100+".to_owned()));
        }
        proof {
            assert(entries.deep_view() =~~= spec_entries);
        }
        entries
    }

    /// The achievement block for a calendar: empty when nothing was earned,
    /// otherwise a heading, a rule, and one aligned line per entry.
    pub fn format_achievements(&self, graph: &ContributionGraph) -> (r: Vec<String>)
        ensures
            r.deep_view() == achievements_lines_spec(
                cap_u32(leading_run(all_counts(graph.spec_weeks()).reverse())),
                cap_u32(longest_run(all_counts(graph.spec_weeks()).reverse())),
                cap_u32(total_of(graph.spec_weeks())),
            ),
    {
        let (current, longest) = graph.calculate_streaks();
        let total = graph.calculate_total_contributions();
        let ghost spec_lines = achievements_lines_spec(
            current as int,
            longest as int,
            total as int,
        );
        let entries = self.derive_achievements(current, longest, total);
        let ghost ev = entries.deep_view();
        let mut lines: Vec<String> = Vec::new();
        if entries.len() == 0 {
            return lines;
        }
        lines.push(self.colorize("ACHIEVEMENTS", "header"));
        let mut rule = String::new();
        push_char_run(&mut rule, '\u{2500}', 12);
        lines.push(self.colorize(rule.as_str(), "muted"));

        let mut label_width: usize = 0;
        let mut j: usize = 0;
        while j < entries.len()
            invariant
                ev == entries.deep_view(),
                j <= ev.len(),
                label_width as int == max_label_width(ev.take(j as int)),
            decreases ev.len() - j,
        {
            proof {
                assert(ev.take(j + 1).drop_last() =~~= ev.take(j as int));
                assert(ev.take(j + 1).last() == ev[j as int]);
            }
            let w = visible_width(entries[j].0.as_str());
            if w > label_width {
                label_width = w;
            }
            j = j + 1;
        }
        proof {
            assert(ev.take(ev.len() as int) =~~= ev);
        }

        proof {
            assert(lines.deep_view() =~= spec_lines.take(2));
        }
        let mut i: usize = 0;
        while i < entries.len()
            invariant
                ev == entries.deep_view(),
                ev == achievement_entries_spec(current as int, longest as int, total as int),
                ev.len() > 0,
                spec_lines == achievements_lines_spec(
                    current as int,
                    longest as int,
                    total as int,
                ),
                label_width as int == max_label_width(ev),
                i <= ev.len(),
                lines@.len() == 2 + i,
                lines.deep_view() =~= spec_lines.take(2 + i),
            decreases ev.len() - i,
        {
            let lw = visible_width(entries[i].0.as_str());
            let mut line = String::new();
            line.append(entries[i].0.as_str());
            push_spaces(&mut line, label_width.saturating_sub(lw));
            line.append("  ");
            line.append(entries[i].1.as_str());
            let ghost line_v = line@;
            lines.push(line);
            proof {
                reveal_strlit("  ");
                assert(line_v =~= ev[i as int].0 + char_run(
                    ' ',
                    max_label_width(ev) - vis_width(ev[i as int].0),
                ) + seq![' ', ' '] + ev[i as int].1);
                assert(spec_lines[2 + i] == line_v);
                assert(lines.deep_view() =~= spec_lines.take(2 + i + 1));
            }
            i = i + 1;
        }
        proof {
            assert(spec_lines.take(spec_lines.len() as int) =~= spec_lines);
        }
        lines
    }

    /// The account block for a user and the year's total.
    pub fn format_user_info(&self, user: &UserData, stats: &RenderStats, total_contribs: u32) -> (r:
        Vec<String>)
        ensures
            r.deep_view() == user_info_lines_spec(*user, stats.total_stars, total_contribs as int),
    {
        let ghost spec_lines = user_info_lines_spec(
            *user,
            stats.total_stars,
            total_contribs as int,
        );
        let name: &str = match &user.name {
            Some(n) => n.as_str(),
            None => "Unknown",
        };
        let total_str = u64_string(total_contribs as u64);

        let mut header = self.colorize(name, "header");
        header.append(" - ");
        let colored_total = self.colorize(total_str.as_str(), "orange");
        header.append(colored_total.as_str());
        header.append(" ");
        let tail = self.colorize("contributions this year", "header");
        header.append(tail.as_str());

        let mut plain = String::new();
        plain.append(name);
        plain.append(" - ");
        plain.append(total_str.as_str());
        plain.append(" contributions this year");
        let plain_len: usize = plain.as_str().len();
        let mut rule = String::new();
        push_char_run(&mut rule, '\u{2500}', plain_len);
        let sep = self.colorize(rule.as_str(), "muted");

        let mut lines: Vec<String> = Vec::new();
        lines.push(header);
        lines.push(sep);
        proof {
            reveal_strlit(" - ");
            reveal_strlit(" ");
            reveal_strlit(" contributions this year");
            let nm: Seq<char> = if user.name is Some {
                user.name->0@
            } else {
                "Unknown"@
            };
            assert(name@ == nm);
            assert(lines.deep_view()[0] =~= header_line_spec(nm, total_contribs as int));
            let plain_spec = nm + " - "@ + dec_rep(total_contribs as int)
                + " contributions this year"@;
            assert(plain@ =~= plain_spec);
            assert(plain_len as int == (vstd::utf8::encode_utf8(plain_spec).len() as usize) as int);
            assert(lines.deep_view()[1] =~= colorize_spec(
                char_run('\u{2500}', (vstd::utf8::encode_utf8(plain_spec).len() as usize) as int),
                "muted"@,
            ));
            assert(lines.deep_view() =~= spec_lines.take(2));
        }

        match &user.bio {
            Some(bio) => {
                if !bio.as_str().is_empty() {
                    let chars = crate::strutil::chars_of(bio.as_str());
                    let mut flat: Vec<char> = Vec::new();
                    let mut i: usize = 0;
                    while i < chars.len()
                        invariant
                            chars@ == user.bio->0@,
                            i <= chars@.len(),
                            flat@ == flatten_nl(chars@.take(i as int)),
                        decreases chars@.len() - i,
                    {
                        let c = chars[i];
                        flat.push(
                            if c == '\n' {
                                ' '
                            } else {
                                c
                            },
                        );
                        proof {
                            assert(flat@ =~= flatten_nl(chars@.take(i + 1)));
                        }
                        i = i + 1;
                    }
                    proof {
                        assert(flatten_nl(chars@.take(chars@.len() as int)) =~= flatten_nl(chars@));
                    }
                    let mut kept: Vec<char> = Vec::new();
                    let cap: usize = if flat.len() > 80 {
                        80
                    } else {
                        flat.len()
                    };
                    let mut k: usize = 0;
                    while k < cap
                        invariant
                            cap <= flat@.len(),
                            k <= cap,
                            kept@ == flat@.take(k as int),
                        decreases cap - k,
                    {
                        kept.push(flat[k]);
                        proof {
                            assert(kept@ =~= flat@.take(k + 1));
                        }
                        k = k + 1;
                    }
                    let mut line = self.label("Bio");
                    line.append(" ");
                    let body = crate::strutil::string_of(&kept);
                    line.append(body.as_str());
                    let ghost line_v = line@;
                    lines.push(line);
                    proof {
                        reveal_strlit(" ");
                        assert(flat@.take(flat@.len() as int) =~= flat@);
                        assert(line_v =~= spec_lines[2]);
                        assert(lines.deep_view() =~= spec_lines.take(3));
                    }
                }
            },
            None => {},
        }

        match &user.company {
            Some(company) => {
                if !company.as_str().is_empty() {
                    let mut line = self.label("Company");
                    line.append(" ");
                    line.append(company.as_str());
                    let ghost line_v = line@;
                    let ghost before = lines.deep_view();
                    lines.push(line);
                    proof {
                        reveal_strlit(" ");
                        assert(line_v == label_spec("Company"@) + seq![' '] + user.company->0@);
                        assert(lines.deep_view() =~= before.push(line_v));
                        assert(lines.deep_view() =~= spec_lines.take(lines@.len() as int));
                    }
                }
            },
            None => {},
        }

        match &user.blog {
            Some(blog) => {
                if !blog.as_str().is_empty() {
                    let mut line = self.label("Website");
                    line.append(" ");
                    line.append(blog.as_str());
                    let ghost line_v = line@;
                    let ghost before = lines.deep_view();
                    lines.push(line);
                    proof {
                        reveal_strlit(" ");
                        assert(line_v == label_spec("Website"@) + seq![' '] + user.blog->0@);
                        assert(lines.deep_view() =~= before.push(line_v));
                        assert(lines.deep_view() =~= spec_lines.take(lines@.len() as int));
                    }
                }
            },
            None => {},
        }

        let mut stars = self.label("Stars");
        stars.append(" ");
        push_i64(&mut stars, stats.total_stars);
        stars.append(" \u{2b50}");
        let ghost stars_v = stars@;
        lines.push(stars);
        proof {
            reveal_strlit(" ");
            reveal_strlit(" \u{2b50}");
            assert(stars_v =~= label_spec("Stars"@) + seq![' '] + dec_rep_signed(
                stats.total_stars as int,
            ) + " \u{2b50}"@);
            assert(lines.deep_view() =~= spec_lines);
        }
        lines
    }

    /// The lines of one pull-request or issue heading.
    fn format_section(&self, label: &str, e: &SectionEntry, label_width: usize) -> (r: Vec<String>)
        ensures
            r.deep_view() == section_lines_spec(
                label@,
                e.total_count,
                crate::stats::entry_view(*e).1,
                label_width as int,
            ),
    {
        let ghost items_v = crate::stats::entry_view(*e).1;
        let ghost spec_lines = section_lines_spec(
            label@,
            e.total_count,
            items_v,
            label_width as int,
        );
        let mut padded = String::new();
        padded.append(label);
        padded.append(":");
        let len: usize = padded.as_str().unicode_len();
        if len < label_width {
            push_spaces(&mut padded, label_width - len);
        }
        proof {
            reveal_strlit(":");
            assert(padded@ =~= pad_right(label@ + seq![':'], label_width as int));
        }
        let mut head = self.colorize(padded.as_str(), "header");
        head.append(" ");
        push_i64(&mut head, e.total_count);
        let ghost head_v = head@;
        let mut lines: Vec<String> = Vec::new();
        lines.push(head);
        proof {
            reveal_strlit(" ");
            assert(head_v =~= spec_lines[0]);
            assert(lines.deep_view() =~= spec_lines.take(1));
        }
        if e.items.len() == 0 {
            let mut none_line = String::new();
            none_line.append("  ");
            let muted = self.colorize("\u{2022} None", "muted");
            none_line.append(muted.as_str());
            let ghost nl_v = none_line@;
            lines.push(none_line);
            proof {
                reveal_strlit("  ");
                assert(nl_v =~= seq![' ', ' '] + colorize_spec("\u{2022} None"@, "muted"@));
                assert(lines.deep_view() =~= spec_lines);
            }
        } else {
            let k: usize = if e.items.len() > 3 {
                3
            } else {
                e.items.len()
            };
            let mut i: usize = 0;
            while i < k
                invariant
                    items_v == crate::stats::entry_view(*e).1,
                    spec_lines == section_lines_spec(
                        label@,
                        e.total_count,
                        items_v,
                        label_width as int,
                    ),
                    items_v.len() > 0,
                    k == if items_v.len() > 3 {
                        3int
                    } else {
                        items_v.len() as int
                    },
                    i <= k,
                    lines@.len() == 1 + i,
                    lines.deep_view() =~= spec_lines.take(1 + i),
                decreases k - i,
            {
                let title = &e.items[i].title;
                let repo = &e.items[i].repo;
                let mut bullet = String::new();
                bullet.append("\u{2022} ");
                let t = self.truncate_text(title.as_str(), 24);
                bullet.append(t.as_str());
                if !repo.as_str().is_empty() {
                    bullet.append(" (");
                    let rp = self.truncate_text(repo.as_str(), 16);
                    bullet.append(rp.as_str());
                    bullet.append(")");
                }
                let mut line = String::new();
                line.append("  ");
                line.append(bullet.as_str());
                let ghost line_v = line@;
                lines.push(line);
                proof {
                    reveal_strlit("\u{2022} ");
                    reveal_strlit(" (");
                    reveal_strlit(")");
                    reveal_strlit("  ");
                    assert(items_v[i as int] == crate::stats::item_view(e.items@[i as int]));
                    assert(line_v =~= seq![' ', ' '] + bullet_spec(
                        items_v[i as int].0,
                        items_v[i as int].1,
                    ));
                    assert(spec_lines[1 + i] == seq![' ', ' '] + bullet_spec(
                        items_v[i as int].0,
                        items_v[i as int].1,
                    ));
                    assert(lines.deep_view() =~= spec_lines.take(1 + i + 1));
                }
                i = i + 1;
            }
            proof {
                assert(spec_lines.take(spec_lines.len() as int) =~= spec_lines);
            }
        }
        lines
    }

    /// The pull-request block; empty when the payload carried no
    /// pull-request object.
    pub fn format_pull_requests(&self, stats: &RenderStats) -> (r: Vec<String>)
        ensures
            stats.pull_requests is None ==> r@.len() == 0,
            stats.pull_requests is Some ==> r.deep_view() == pr_lines_spec(
                crate::stats::entry_view(stats.pull_requests->0.awaiting_review),
                crate::stats::entry_view(stats.pull_requests->0.open),
                crate::stats::entry_view(stats.pull_requests->0.mentions),
            ),
    {
        let mut lines: Vec<String> = Vec::new();
        match &stats.pull_requests {
            None => lines,
            Some(pr) => {
                lines.push(self.colorize("PULL REQUESTS", "header"));
                let mut rule = String::new();
                push_char_run(&mut rule, '\u{2500}', 13);
                lines.push(self.colorize(rule.as_str(), "muted"));
                let mut a = self.format_section("Awaiting Review", &pr.awaiting_review, 17);
                let mut o = self.format_section("Your Open PRs", &pr.open, 17);
                let mut m = self.format_section("Mentions", &pr.mentions, 17);
                let ghost parts = lines.deep_view() + a.deep_view() + o.deep_view()
                    + m.deep_view();
                lines.append(&mut a);
                lines.append(&mut o);
                lines.append(&mut m);
                proof {
                    assert(lines.deep_view() =~= parts);
                    assert(lines.deep_view() =~= pr_lines_spec(
                        crate::stats::entry_view(stats.pull_requests->0.awaiting_review),
                        crate::stats::entry_view(stats.pull_requests->0.open),
                        crate::stats::entry_view(stats.pull_requests->0.mentions),
                    ));
                }
                lines
            },
        }
    }

    /// The issue block; empty when the payload carried no issue object.
    pub fn format_issues(&self, stats: &RenderStats) -> (r: Vec<String>)
        ensures
            stats.issues is None ==> r@.len() == 0,
            stats.issues is Some ==> r.deep_view() == issues_lines_spec(
                crate::stats::entry_view(stats.issues->0.assigned),
                crate::stats::entry_view(stats.issues->0.created),
                crate::stats::entry_view(stats.issues->0.mentions),
            ),
    {
        let mut lines: Vec<String> = Vec::new();
        match &stats.issues {
            None => lines,
            Some(iss) => {
                lines.push(self.colorize("ISSUES", "header"));
                let mut rule = String::new();
                push_char_run(&mut rule, '\u{2500}', 6);
                lines.push(self.colorize(rule.as_str(), "muted"));
                let mut a = self.format_section("Assigned", &iss.assigned, 16);
                let mut c = self.format_section("Created (open)", &iss.created, 16);
                let mut m = self.format_section("Mentions", &iss.mentions, 16);
                let ghost parts = lines.deep_view() + a.deep_view() + c.deep_view()
                    + m.deep_view();
                lines.append(&mut a);
                lines.append(&mut c);
                lines.append(&mut m);
                proof {
                    assert(lines.deep_view() =~= parts);
                    assert(lines.deep_view() =~= issues_lines_spec(
                        crate::stats::entry_view(stats.issues->0.assigned),
                        crate::stats::entry_view(stats.issues->0.created),
                        crate::stats::entry_view(stats.issues->0.mentions),
                    ));
                }
                lines
            },
        }
    }
}

/// The lowercased form of an ASCII letter; any other character unchanged.
pub open spec fn downcase_char(c: char) -> char {
    if c == 'A' {
        'a'
    } else if c == 'B' {
        'b'
    } else if c == 'C' {
        'c'
    } else if c == 'D' {
        'd'
    } else if c == 'E' {
        'e'
    } else if c == 'F' {
        'f'
    } else if c == 'G' {
        'g'
    } else if c == 'H' {
        'h'
    } else if c == 'I' {
        'i'
    } else if c == 'J' {
        'j'
    } else if c == 'K' {
        'k'
    } else if c == 'L' {
        'l'
    } else if c == 'M' {
        'm'
    } else if c == 'N' {
        'n'
    } else if c == 'O' {
        'o'
    } else if c == 'P' {
        'p'
    } else if c == 'Q' {
        'q'
    } else if c == 'R' {
        'r'
    } else if c == 'S' {
        's'
    } else if c == 'T' {
        't'
    } else if c == 'U' {
        'u'
    } else if c == 'V' {
        'v'
    } else if c == 'W' {
        'w'
    } else if c == 'X' {
        'x'
    } else if c == 'Y' {
        'y'
    } else if c == 'Z' {
        'z'
    } else {
        c
    }
}

/// A string lowered letter by letter.
pub open spec fn lower_ascii(s: Seq<char>) -> Seq<char> {
    s.map_values(|c: char| downcase_char(c))
}

/// The lowercased form of an ASCII letter; any other character unchanged.
fn downcase_char_exec(c: char) -> (r: char)
    ensures
        r == downcase_char(c),
{
    if c == 'A' {
        'a'
    } else if c == 'B' {
        'b'
    } else if c == 'C' {
        'c'
    } else if c == 'D' {
        'd'
    } else if c == 'E' {
        'e'
    } else if c == 'F' {
        'f'
    } else if c == 'G' {
        'g'
    } else if c == 'H' {
        'h'
    } else if c == 'I' {
        'i'
    } else if c == 'J' {
        'j'
    } else if c == 'K' {
        'k'
    } else if c == 'L' {
        'l'
    } else if c == 'M' {
        'm'
    } else if c == 'N' {
        'n'
    } else if c == 'O' {
        'o'
    } else if c == 'P' {
        'p'
    } else if c == 'Q' {
        'q'
    } else if c == 'R' {
        'r'
    } else if c == 'S' {
        's'
    } else if c == 'T' {
        't'
    } else if c == 'U' {
        'u'
    } else if c == 'V' {
        'v'
    } else if c == 'W' {
        'w'
    } else if c == 'X' {
        'x'
    } else if c == 'Y' {
        'y'
    } else if c == 'Z' {
        'z'
    } else {
        c
    }
}

/// A string lowered letter by letter.
fn lower_ascii_str(s: &str) -> (r: String)
    ensures
        r@ == lower_ascii(s@),
{
    let v = crate::strutil::chars_of(s);
    let mut out = String::new();
    let mut i: usize = 0;
    while i < v.len()
        invariant
            v@ == s@,
            i <= v@.len(),
            out@ == lower_ascii(s@.take(i as int)),
        decreases v@.len() - i,
    {
        push_char(&mut out, downcase_char_exec(v[i]));
        proof {
            assert(out@ =~= lower_ascii(s@.take(i + 1)));
        }
        i = i + 1;
    }
    proof {
        assert(lower_ascii(s@.take(s@.len() as int)) =~= lower_ascii(s@));
    }
    out
}

/// Places a language entry into an already descending list: before the
/// first entry with a percentage at most its own, so that earlier entries
/// keep their place among equals.
pub open spec fn insert_desc(x: (String, u32), s: Seq<(String, u32)>) -> Seq<(String, u32)>
    decreases s.len(),
{
    if s.len() == 0 {
        seq![x]
    } else if s[0].1 <= x.1 {
        seq![x] + s
    } else {
        seq![s[0]] + insert_desc(x, s.skip(1))
    }
}

/// The language list sorted by percentage, highest first, ties keeping
/// their original order.
pub open spec fn sort_desc(s: Seq<(String, u32)>) -> Seq<(String, u32)>
    decreases s.len(),
{
    if s.len() == 0 {
        Seq::empty()
    } else {
        insert_desc(s[0], sort_desc(s.skip(1)))
    }
}

proof fn lemma_insert_desc_at(s: Seq<(String, u32)>, x: (String, u32), k: int)
    requires
        0 <= k <= s.len(),
        forall|j: int| 0 <= j < k ==> (#[trigger] s[j]).1 > x.1,
        k == s.len() || s[k].1 <= x.1,
    ensures
        insert_desc(x, s) == s.insert(k, x),
    decreases k,
{
    if k == 0 {
        if s.len() == 0 {
            assert(insert_desc(x, s) =~= s.insert(0, x));
        } else {
            assert(insert_desc(x, s) =~= s.insert(0, x));
        }
    } else {
        assert(s[0].1 > x.1);
        assert(forall|j: int| 0 <= j < k - 1 ==> (#[trigger] s.skip(1)[j]).1 > x.1) by {
            assert(forall|j: int| 0 <= j < k - 1 ==> s.skip(1)[j] == s[j + 1]);
        }
        lemma_insert_desc_at(s.skip(1), x, k - 1);
        assert(seq![s[0]] + s.skip(1).insert(k - 1, x) =~= s.insert(k, x));
    }
}

/// Sorts the language list by percentage, highest first, stably.
fn sort_langs(v: &Vec<(String, u32)>) -> (r: Vec<(String, u32)>)
    ensures
        r@ == sort_desc(v@),
{
    let n: usize = v.len();
    let mut r: Vec<(String, u32)> = Vec::new();
    proof {
        assert(v@.skip(n as int) =~= Seq::<(String, u32)>::empty());
    }
    let mut i: usize = n;
    while i > 0
        invariant
            n == v@.len(),
            i <= n,
            r@ == sort_desc(v@.skip(i as int)),
        decreases i,
    {
        i = i - 1;
        let x = (v[i].0.clone(), v[i].1);
        proof {
            assert(x == v@[i as int]);
        }
        let mut k: usize = 0;
        while k < r.len() && r[k].1 > x.1
            invariant
                k <= r@.len(),
                forall|j: int| 0 <= j < k ==> (#[trigger] r@[j]).1 > x.1,
            decreases r@.len() - k,
        {
            k = k + 1;
        }
        let ghost old_r = r@;
        r.insert(k, x);
        proof {
            lemma_insert_desc_at(old_r, v@[i as int], k as int);
            assert(r@ == insert_desc(v@[i as int], old_r));
            assert(v@.skip(i as int)[0] == v@[i as int]);
            assert(v@.skip(i as int).skip(1) =~= v@.skip(i + 1));
        }
    }
    proof {
        assert(v@.skip(0) =~= v@);
    }
    r
}

/// The column name a language is shown under.
pub open spec fn lang_display_name(name: Seq<char>) -> Seq<char> {
    if lower_ascii(name) == "jupyter notebook"@ {
        "Jupyter"@
    } else {
        name
    }
}

/// One language row: its label, a progress bar, and the percentage column.
pub open spec fn language_line_spec(name: Seq<char>, m: int) -> Seq<char> {
    label_spec(lang_display_name(name)) + seq![' '] + progress_bar_spec(m, 24) + seq![' ']
        + pct_rep(m) + seq!['%']
}

/// The language block over an already sorted list: a heading, a rule, and
/// the top five languages.
pub open spec fn languages_lines_spec(sorted: Seq<(String, u32)>) -> Seq<Seq<char>> {
    let n: int = if sorted.len() > 5 {
        5int
    } else {
        sorted.len() as int
    };
    seq![
        colorize_spec("TOP LANGUAGES"@, "header"@),
        colorize_spec(char_run('\u{2500}', 13), "muted"@),
    ] + Seq::new(n as nat, |i: int| language_line_spec(sorted[i].0@, sorted[i].1 as int))
}

/// The streak value text: the day count with singular or plural unit.
pub open spec fn streak_value_spec(n: int) -> Seq<char> {
    dec_rep(n) + (if n == 1 {
        " day"@
    } else {
        " days"@
    })
}

/// The achievement entries derived from the aggregates, in their fixed
/// order: the current streak when positive, the best streak when positive,
/// and exactly one volume badge for the highest total threshold met among
/// one hundred, one thousand, five thousand and ten thousand.
pub open spec fn achievement_entries_spec(cur: int, longest: int, total: int) -> Seq<
    (Seq<char>, Seq<char>),
> {
    (if cur > 0 {
        seq![
            (colorize_spec("\u{1f525}"@, "red"@) + " Current Streak"@, streak_value_spec(cur)),
        ]
    } else {
        Seq::empty()
    }) + (if longest > 0 {
        seq![(colorize_spec("\u{2b50}"@, "yellow"@) + " Best Streak"@, streak_value_spec(longest))]
    } else {
        Seq::empty()
    }) + (if total >= 10000 {
        seq![(colorize_spec("\u{1f48e}"@, "magenta"@) + " Contributions"@, "10k+"@)]
    } else if total >= 5000 {
        seq![(colorize_spec("\u{1f451}"@, "yellow"@) + " Contributions"@, "5k+"@)]
    } else if total >= 1000 {
        seq![(colorize_spec("\u{1f396}\u{fe0f}"@, "cyan"@) + " Contributions"@, "1k+"@)]
    } else if total >= 100 {
        seq![(colorize_spec("\u{1f3c6}"@, "yellow"@) + " Contributions"@, "100+"@)]
    } else {
        Seq::empty()
    })
}

/// Widest label over the achievement entries.
pub open spec fn max_label_width(entries: Seq<(Seq<char>, Seq<char>)>) -> int
    decreases entries.len(),
{
    if entries.len() == 0 {
        0
    } else {
        let rest = max_label_width(entries.drop_last());
        let lw = vis_width(entries.last().0);
        if lw >= rest {
            lw
        } else {
            rest
        }
    }
}

/// The achievement block: empty when there are no entries, otherwise a
/// heading, a rule, and one aligned line per entry.
pub open spec fn achievements_lines_spec(cur: int, longest: int, total: int) -> Seq<Seq<char>> {
    let entries = achievement_entries_spec(cur, longest, total);
    if entries.len() == 0 {
        Seq::empty()
    } else {
        let lw = max_label_width(entries);
        seq![
            colorize_spec("ACHIEVEMENTS"@, "header"@),
            colorize_spec(char_run('\u{2500}', 12), "muted"@),
        ] + Seq::new(
            entries.len(),
            |i: int|
                entries[i].0 + char_run(' ', lw - vis_width(entries[i].0)) + seq![' ', ' ']
                    + entries[i].1,
        )
    }
}

/// One item bullet: the truncated title, and the truncated repository
/// name in parentheses when there is one.
pub open spec fn bullet_spec(title: Seq<char>, repo: Seq<char>) -> Seq<char> {
    "\u{2022} "@ + truncated_spec(title, 24) + (if repo.len() > 0 {
        " ("@ + truncated_spec(repo, 16) + seq![')']
    } else {
        Seq::empty()
    })
}

/// The lines of one pull-request or issue heading: the padded label in the
/// heading color and the count, then up to three item bullets, or a muted
/// `None` bullet when the heading has no items.
pub open spec fn section_lines_spec(
    label: Seq<char>,
    total: i64,
    items: Seq<(Seq<char>, Seq<char>)>,
    label_width: int,
) -> Seq<Seq<char>> {
    let head = colorize_spec(pad_right(label + seq![':'], label_width), "header"@) + seq![' ']
        + dec_rep_signed(total as int);
    let k: int = if items.len() > 3 {
        3int
    } else {
        items.len() as int
    };
    let body = if items.len() == 0 {
        seq![seq![' ', ' '] + colorize_spec("\u{2022} None"@, "muted"@)]
    } else {
        Seq::new(k as nat, |i: int| seq![' ', ' '] + bullet_spec(items[i].0, items[i].1))
    };
    seq![head] + body
}

/// The pull-request block: its heading and rule, then the three headings.
pub open spec fn pr_lines_spec(
    awaiting: (i64, Seq<(Seq<char>, Seq<char>)>),
    open_prs: (i64, Seq<(Seq<char>, Seq<char>)>),
    mentions: (i64, Seq<(Seq<char>, Seq<char>)>),
) -> Seq<Seq<char>> {
    seq![
        colorize_spec("PULL REQUESTS"@, "header"@),
        colorize_spec(char_run('\u{2500}', 13), "muted"@),
    ] + section_lines_spec("Awaiting Review"@, awaiting.0, awaiting.1, 17)
        + section_lines_spec("Your Open PRs"@, open_prs.0, open_prs.1, 17)
        + section_lines_spec("Mentions"@, mentions.0, mentions.1, 17)
}

/// The issue block: its heading and rule, then the three headings.
pub open spec fn issues_lines_spec(
    assigned: (i64, Seq<(Seq<char>, Seq<char>)>),
    created: (i64, Seq<(Seq<char>, Seq<char>)>),
    mentions: (i64, Seq<(Seq<char>, Seq<char>)>),
) -> Seq<Seq<char>> {
    seq![colorize_spec("ISSUES"@, "header"@), colorize_spec(char_run('\u{2500}', 6), "muted"@)]
        + section_lines_spec("Assigned"@, assigned.0, assigned.1, 16)
        + section_lines_spec("Created (open)"@, created.0, created.1, 16)
        + section_lines_spec("Mentions"@, mentions.0, mentions.1, 16)
}

/// The account header line: the user's name and the year's total, colored.
pub open spec fn header_line_spec(name: Seq<char>, total: int) -> Seq<char> {
    colorize_spec(name, "header"@) + " - "@ + colorize_spec(dec_rep(total), "orange"@) + seq![' ']
        + colorize_spec("contributions this year"@, "header"@)
}

/// Newlines replaced by spaces.
pub open spec fn flatten_nl(s: Seq<char>) -> Seq<char> {
    s.map_values(
        |c: char|
            if c == '\n' {
                ' '
            } else {
                c
            },
    )
}

/// The account block: the colored header, a muted rule as wide (in bytes)
/// as the header's plain text, the optional bio (newlines flattened,
/// capped at eighty characters), company and website lines when present,
/// and the star count.
pub open spec fn user_info_lines_spec(user: UserData, total_stars: i64, total: int) -> Seq<
    Seq<char>,
> {
    let name: Seq<char> = if user.name is Some {
        user.name->0@
    } else {
        "Unknown"@
    };
    let plain = name + " - "@ + dec_rep(total) + " contributions this year"@;
    seq![
        header_line_spec(name, total),
        colorize_spec(
            char_run('\u{2500}', (vstd::utf8::encode_utf8(plain).len() as usize) as int),
            "muted"@,
        ),
    ] + (if user.bio is Some && user.bio->0@.len() > 0 {
        let t = flatten_nl(user.bio->0@);
        seq![
            label_spec("Bio"@) + seq![' '] + (if t.len() > 80 {
                t.take(80)
            } else {
                t
            }),
        ]
    } else {
        Seq::empty()
    }) + (if user.company is Some && user.company->0@.len() > 0 {
        seq![label_spec("Company"@) + seq![' '] + user.company->0@]
    } else {
        Seq::empty()
    }) + (if user.blog is Some && user.blog->0@.len() > 0 {
        seq![label_spec("Website"@) + seq![' '] + user.blog->0@]
    } else {
        Seq::empty()
    }) + seq![
        label_spec("Stars"@) + seq![' '] + dec_rep_signed(total_stars as int) + " \u{2b50}"@,
    ]
}

/// The glyph a contribution cell is drawn with: the configured character,
/// or the filled square.
pub open spec fn glyph_of(cfg: Config) -> Seq<char> {
    if cfg.custom_box is Some {
        cfg.custom_box->0@
    } else {
        "\u{25a0}"@
    }
}

/// The graph's cell-width budget for the full layout: three quarters of
/// the terminal width less a ten-cell margin, never below fifty; a pinned
/// width wins unchanged.
pub open spec fn graph_full_width(opts: VisualOptions, tw: int) -> int {
    match opts.width {
        Some(w) => w as int,
        None => {
            let b = if tw > 10 {
                tw - 10
            } else {
                0
            };
            let c = if b < 50 {
                50int
            } else {
                b
            };
            let e = (c * 3) / 4;
            if e < 50 {
                50int
            } else {
                e
            }
        },
    }
}

/// The graph's cell-width budget for the compact layout: three quarters
/// of the terminal width less a forty-cell sidebar, never below thirty
/// cells of input; a pinned width wins unchanged.
pub open spec fn graph_compact_width(opts: VisualOptions, tw: int) -> int {
    match opts.width {
        Some(w) => w as int,
        None => {
            let b = if tw > 40 {
                tw - 40
            } else {
                0
            };
            let c = if b < 40 {
                40int
            } else {
                b
            };
            (c * 3) / 4
        },
    }
}

/// How many week columns a cell-width budget buys: each week takes two
/// cells after a four-cell margin, at least thirteen and at most
/// fifty-two weeks; a pinned width is already a week count and is used
/// as it stands.
pub open spec fn weeks_for(width_opt: Option<usize>, wc: int) -> int {
    match width_opt {
        Some(w) => w as int,
        None => {
            let avail = if wc > 4 {
                wc - 4
            } else {
                0
            };
            let w0 = avail / 2;
            let w1 = if w0 < 13 {
                13int
            } else {
                w0
            };
            if w1 > 52 {
                52int
            } else {
                w1
            }
        },
    }
}

/// The graph block lines for a cell-width budget: the most recent weeks
/// that fit, a month ruler on top.
pub open spec fn graph_block_spec(
    stats: RenderStats,
    cfg: Config,
    opts: VisualOptions,
    wc: int,
) -> Seq<Seq<char>> {
    crate::graph::render_lines_spec(
        crate::graph::window(weeks_view(stats.weeks@), weeks_for(opts.width, wc)),
        crate::graph::clamped_days(opts.height),
        glyph_of(cfg),
        cfg.colors,
        true,
        opts.spaced,
    )
}

/// The graph block when no budget applies (the graph-only and minimal
/// paths): a pinned week count, or the fifty-two week default.
pub open spec fn graph_plain_spec(stats: RenderStats, cfg: Config, opts: VisualOptions) -> Seq<
    Seq<char>,
> {
    crate::graph::render_lines_spec(
        crate::graph::window(
            weeks_view(stats.weeks@),
            match opts.width {
                Some(w) => w as int,
                None => crate::graph::default_weeks(),
            },
        ),
        crate::graph::clamped_days(opts.height),
        glyph_of(cfg),
        cfg.colors,
        true,
        opts.spaced,
    )
}

/// The year's total as the renderer reports it.
pub open spec fn spec_total(stats: RenderStats) -> int {
    cap_u32(total_of(weeks_view(stats.weeks@)))
}

/// The name shown in compact and minimal headers: the profile name, or the
/// queried username when the profile carries none.
pub open spec fn fallback_name(user: UserData, username: Seq<char>) -> Seq<char> {
    if user.name is Some {
        user.name->0@
    } else {
        username
    }
}

/// The pull-request block of the full layout, empty when switched off or
/// absent from the payload.
pub open spec fn full_pr_spec(stats: RenderStats, opts: VisualOptions) -> Seq<Seq<char>> {
    if !opts.no_pr && stats.pull_requests is Some {
        pr_lines_spec(
            crate::stats::entry_view(stats.pull_requests->0.awaiting_review),
            crate::stats::entry_view(stats.pull_requests->0.open),
            crate::stats::entry_view(stats.pull_requests->0.mentions),
        )
    } else {
        Seq::empty()
    }
}

/// The issue block of the full layout, empty when switched off or absent
/// from the payload.
pub open spec fn full_issues_spec(stats: RenderStats, opts: VisualOptions) -> Seq<Seq<char>> {
    if !opts.no_issues && stats.issues is Some {
        issues_lines_spec(
            crate::stats::entry_view(stats.issues->0.assigned),
            crate::stats::entry_view(stats.issues->0.created),
            crate::stats::entry_view(stats.issues->0.mentions),
        )
    } else {
        Seq::empty()
    }
}

/// The columns placed under the full layout's graph: both blocks when they
/// fit side by side within the graph's budget, one alone when only one
/// exists, and neither when both exist but do not fit.
pub open spec fn full_section_cols(
    prl: Seq<Seq<char>>,
    isl: Seq<Seq<char>>,
    gw: int,
) -> Seq<Seq<Seq<char>>> {
    if prl.len() > 0 && isl.len() > 0 {
        if max_vis_width(prl) + max_vis_width(isl) + 3 <= gw {
            seq![prl, isl]
        } else {
            Seq::empty()
        }
    } else if prl.len() > 0 {
        seq![prl]
    } else if isl.len() > 0 {
        seq![isl]
    } else {
        Seq::empty()
    }
}

/// The full layout's left block: the graph, and beneath it, after one
/// blank line, the packed pull-request and issue columns.
pub open spec fn full_left_spec(
    stats: RenderStats,
    cfg: Config,
    opts: VisualOptions,
    tw: int,
) -> Seq<Seq<char>> {
    let gw = graph_full_width(opts, tw);
    let gl: Seq<Seq<char>> = if !opts.no_grid {
        graph_block_spec(stats, cfg, opts, gw)
    } else {
        Seq::empty()
    };
    let cols = full_section_cols(full_pr_spec(stats, opts), full_issues_spec(stats, opts), gw);
    if cols.len() > 0 {
        (if gl.len() > 0 {
            gl + seq![Seq::<char>::empty()]
        } else {
            gl
        }) + combine_spec(cols, gw)
    } else {
        gl
    }
}

/// A block appended after an existing one, separated by one blank line
/// when both have content.
pub open spec fn append_block(acc: Seq<Seq<char>>, block: Seq<Seq<char>>) -> Seq<Seq<char>> {
    if block.len() > 0 {
        (if acc.len() > 0 {
            acc + seq![Seq::<char>::empty()]
        } else {
            acc
        }) + block
    } else {
        acc
    }
}

/// The full layout's sidebar: the account block, the language block (only
/// on a terminal at least 120 cells wide), and the achievement block.
pub open spec fn full_right_spec(
    user: UserData,
    stats: RenderStats,
    opts: VisualOptions,
    tw: int,
) -> Seq<Seq<char>> {
    let acct: Seq<Seq<char>> = if !opts.no_account {
        user_info_lines_spec(user, stats.total_stars, spec_total(stats))
    } else {
        Seq::empty()
    };
    let langs: Seq<Seq<char>> = if !opts.no_languages && tw >= 120 && stats.languages@.len() > 0 {
        languages_lines_spec(sort_desc(stats.languages@))
    } else {
        Seq::empty()
    };
    let ach: Seq<Seq<char>> = if !opts.no_achievements {
        achievements_lines_spec(
            cap_u32(leading_run(all_counts(weeks_view(stats.weeks@)).reverse())),
            cap_u32(longest_run(all_counts(weeks_view(stats.weeks@)).reverse())),
            spec_total(stats),
        )
    } else {
        Seq::empty()
    };
    append_block(append_block(acct, langs), ach)
}

/// Every line of the full layout candidate: a leading blank line, then the
/// left block and the sidebar side by side, the left padded to its own
/// widest line.
pub open spec fn full_lines_spec(
    user: UserData,
    stats: RenderStats,
    cfg: Config,
    opts: VisualOptions,
    tw: int,
) -> Seq<Seq<char>> {
    let left = full_left_spec(stats, cfg, opts, tw);
    let right = full_right_spec(user, stats, opts, tw);
    seq![Seq::<char>::empty()] + pair_lines_spec(left, right, max_vis_width(left))
}

/// Every line of the compact layout candidate: a leading blank line, then
/// the graph (or, without a grid, the header line) beside the compact
/// sidebar of header and achievements, the left padded to the graph's
/// cell-width budget.
pub open spec fn compact_lines_spec(
    user: UserData,
    stats: RenderStats,
    cfg: Config,
    opts: VisualOptions,
    username: Seq<char>,
    tw: int,
) -> Seq<Seq<char>> {
    let gw = graph_compact_width(opts, tw);
    let header = header_line_spec(fallback_name(user, username), spec_total(stats));
    let left: Seq<Seq<char>> = if !opts.no_grid {
        graph_block_spec(stats, cfg, opts, gw)
    } else {
        seq![header]
    };
    let acct: Seq<Seq<char>> = if !opts.no_account {
        seq![header]
    } else {
        Seq::empty()
    };
    let ach: Seq<Seq<char>> = if !opts.no_achievements {
        achievements_lines_spec(
            cap_u32(leading_run(all_counts(weeks_view(stats.weeks@)).reverse())),
            cap_u32(longest_run(all_counts(weeks_view(stats.weeks@)).reverse())),
            spec_total(stats),
        )
    } else {
        Seq::empty()
    };
    let right = append_block(acct, ach);
    seq![Seq::<char>::empty()] + pair_lines_spec(left, right, gw)
}

/// Every line of the minimal layout candidate: a leading blank line, then
/// the graph alone, or the bare header line when the grid is switched off.
pub open spec fn minimal_lines_spec(
    user: UserData,
    stats: RenderStats,
    cfg: Config,
    opts: VisualOptions,
    username: Seq<char>,
) -> Seq<Seq<char>> {
    if opts.no_grid {
        seq![
            Seq::<char>::empty(),
            header_line_spec(fallback_name(user, username), spec_total(stats)),
        ]
    } else {
        seq![Seq::<char>::empty()] + graph_plain_spec(stats, cfg, opts)
    }
}

/// The height budget candidates are held to: the terminal rows less the
/// two rows reserved for blank padding.
pub open spec fn avail_height(th: int) -> int {
    if th > 2 {
        th - 2
    } else {
        0
    }
}

/// Whether a candidate fits the terminal: its widest line within the
/// columns, and its line count, with the trailing blank line, within the
/// height budget.
pub open spec fn fits(lines: Seq<Seq<char>>, tw: int, th: int) -> bool {
    max_vis_width(lines) <= tw && lines.len() + 1 <= avail_height(th)
}

/// The layout the negotiator settles on: the first of full, compact and
/// minimal whose candidate fits; minimal unconditionally as last resort.
pub open spec fn chosen_layout(
    user: UserData,
    stats: RenderStats,
    cfg: Config,
    opts: VisualOptions,
    username: Seq<char>,
    tw: int,
    th: int,
) -> Layout {
    if fits(full_lines_spec(user, stats, cfg, opts, tw), tw, th) {
        Layout::Full
    } else if fits(compact_lines_spec(user, stats, cfg, opts, username, tw), tw, th) {
        Layout::Compact
    } else {
        Layout::Minimal
    }
}

/// The lines of one layout's candidate.
pub open spec fn layout_lines_spec(
    layout: Layout,
    user: UserData,
    stats: RenderStats,
    cfg: Config,
    opts: VisualOptions,
    username: Seq<char>,
    tw: int,
) -> Seq<Seq<char>> {
    match layout {
        Layout::Full => full_lines_spec(user, stats, cfg, opts, tw),
        Layout::Compact => compact_lines_spec(user, stats, cfg, opts, username, tw),
        Layout::Minimal => minimal_lines_spec(user, stats, cfg, opts, username),
    }
}

/// The fixed-width percentage column text for tenths of a percent.
pub fn pct_string(permille: u32) -> (r: String)
    ensures
        r@ == pct_rep(permille as int),
{
    let digits = u64_string((permille / 10) as u64);
    let len: usize = digits.as_str().unicode_len();
    let mut s = String::new();
    if len < 3 {
        push_spaces(&mut s, 5 - (len + 2));
    }
    s.append(digits.as_str());
    s.append(".");
    let d: u32 = permille % 10;
    let dc: char = if d == 0 {
        '0'
    } else if d == 1 {
        '1'
    } else if d == 2 {
        '2'
    } else if d == 3 {
        '3'
    } else if d == 4 {
        '4'
    } else if d == 5 {
        '5'
    } else if d == 6 {
        '6'
    } else if d == 7 {
        '7'
    } else if d == 8 {
        '8'
    } else {
        '9'
    };
    push_char(&mut s, dc);
    proof {
        reveal_strlit(".");
        assert(s@ =~= pct_rep(permille as int));
    }
    s
}

impl DisplayFormatter {
    /// The account header line with the username as name fallback.
    fn header_line(&self, username: &str, user: &UserData, total: u32) -> (r: String)
        ensures
            r@ == header_line_spec(fallback_name(*user, username@), total as int),
    {
        let name: &str = match &user.name {
            Some(n) => n.as_str(),
            None => username,
        };
        let mut s = self.colorize(name, "header");
        s.append(" - ");
        let t = u64_string(total as u64);
        let ct = self.colorize(t.as_str(), "orange");
        s.append(ct.as_str());
        s.append(" ");
        let tail = self.colorize("contributions this year", "header");
        s.append(tail.as_str());
        proof {
            reveal_strlit(" ");
            assert(s@ =~= header_line_spec(fallback_name(*user, username@), total as int));
        }
        s
    }

    /// The graph block at its natural width: a pinned week count or the
    /// fifty-two week default.
    fn get_contribution_graph_lines(&self, graph: &ContributionGraph, stats: &RenderStats) -> (r:
        Vec<String>)
        requires
            graph.spec_weeks() == weeks_view(stats.weeks@),
        ensures
            r.deep_view() == graph_plain_spec(*stats, self.config, self.visual_opts),
    {
        let custom_box: &str = match &self.config.custom_box {
            Some(b) => b.as_str(),
            None => "\u{25a0}",
        };
        proof {
            assert(custom_box@ == glyph_of(self.config));
        }
        graph.render(
            self.visual_opts.width,
            self.visual_opts.height,
            custom_box,
            &self.config.colors,
            true,
            self.visual_opts.spaced,
        )
    }

    /// The graph block for a cell-width budget: the budget buys week
    /// columns at two cells each after the margin, clamped between
    /// thirteen and fifty-two; a pinned width wins unchanged.
    fn get_contribution_graph_lines_with_width(
        &self,
        graph: &ContributionGraph,
        stats: &RenderStats,
        width_constraint: usize,
    ) -> (r: Vec<String>)
        requires
            graph.spec_weeks() == weeks_view(stats.weeks@),
        ensures
            r.deep_view() == graph_block_spec(
                *stats,
                self.config,
                self.visual_opts,
                width_constraint as int,
            ),
    {
        let weeks: usize = match self.visual_opts.width {
            Some(w) => w,
            None => {
                let avail: usize = if width_constraint > 4 {
                    width_constraint - 4
                } else {
                    0
                };
                let w0: usize = avail / 2;
                let w1: usize = if w0 < 13 {
                    13
                } else {
                    w0
                };
                if w1 > 52 {
                    52
                } else {
                    w1
                }
            },
        };
        proof {
            assert(weeks as int == weeks_for(self.visual_opts.width, width_constraint as int));
        }
        let custom_box: &str = match &self.config.custom_box {
            Some(b) => b.as_str(),
            None => "\u{25a0}",
        };
        proof {
            assert(custom_box@ == glyph_of(self.config));
        }
        graph.render(
            Some(weeks),
            self.visual_opts.height,
            custom_box,
            &self.config.colors,
            true,
            self.visual_opts.spaced,
        )
    }

    /// The minimal layout candidate: the graph alone, or the bare header
    /// line when the grid is switched off. This is the last-resort layout;
    /// building it cannot fail.
    pub fn display_minimal(&self, username: &str, user: &UserData, stats: &RenderStats) -> (r: Vec<
        String,
    >)
        ensures
            r.deep_view() == minimal_lines_spec(
                *user,
                *stats,
                self.config,
                self.visual_opts,
                username@,
            ),
    {
        let graph = ContributionGraph::from_weeks(crate::graph::clone_weeks(&stats.weeks));
        let mut lines: Vec<String> = Vec::new();
        lines.push(String::new());
        if self.visual_opts.no_grid {
            let total = graph.calculate_total_contributions();
            lines.push(self.header_line(username, user, total));
            proof {
                assert(lines.deep_view() =~= minimal_lines_spec(
                    *user,
                    *stats,
                    self.config,
                    self.visual_opts,
                    username@,
                ));
            }
        } else {
            let mut gl = self.get_contribution_graph_lines(&graph, stats);
            let ghost gl_v = gl.deep_view();
            lines.append(&mut gl);
            proof {
                assert(lines.deep_view() =~= seq![Seq::<char>::empty()] + gl_v);
                assert(lines.deep_view() =~= minimal_lines_spec(
                    *user,
                    *stats,
                    self.config,
                    self.visual_opts,
                    username@,
                ));
            }
        }
        lines
    }

    /// The compact layout candidate: the graph (or the header line when
    /// the grid is off) beside the compact sidebar of header and
    /// achievements.
    pub fn display_compact(&self, username: &str, user: &UserData, stats: &RenderStats) -> (r: Vec<
        String,
    >)
        ensures
            r.deep_view() == compact_lines_spec(
                *user,
                *stats,
                self.config,
                self.visual_opts,
                username@,
                self.terminal_width as int,
            ),
    {
        let ghost tw = self.terminal_width as int;
        let graph = ContributionGraph::from_weeks(crate::graph::clone_weeks(&stats.weeks));
        let gw: usize = match self.visual_opts.width {
            Some(w) => w,
            None => {
                let b: usize = if self.terminal_width > 40 {
                    self.terminal_width - 40
                } else {
                    0
                };
                let c: usize = if b < 40 {
                    40
                } else {
                    b
                };
                ((c as u128 * 3) / 4) as usize
            },
        };
        proof {
            assert(gw as int == graph_compact_width(self.visual_opts, tw));
        }
        let total = graph.calculate_total_contributions();
        let left: Vec<String> = if !self.visual_opts.no_grid {
            self.get_contribution_graph_lines_with_width(&graph, stats, gw)
        } else {
            let mut l: Vec<String> = Vec::new();
            l.push(self.header_line(username, user, total));
            l
        };

        let mut right: Vec<String> = Vec::new();
        if !self.visual_opts.no_account {
            right.push(self.header_line(username, user, total));
        }
        let ghost acct_v = right.deep_view();
        if !self.visual_opts.no_achievements {
            let mut ach = self.format_achievements(&graph);
            let ghost ach_v = ach.deep_view();
            if ach.len() > 0 {
                if right.len() > 0 {
                    right.push(String::new());
                }
                right.append(&mut ach);
            }
            proof {
                assert(right.deep_view() =~= append_block(acct_v, ach_v));
            }
        }
        let body = self.pair_side_by_side(&left, &right, gw);
        let ghost body_v = body.deep_view();
        let mut lines: Vec<String> = Vec::new();
        lines.push(String::new());
        let mut body_m = body;
        lines.append(&mut body_m);
        proof {
            assert(lines.deep_view() =~= seq![Seq::<char>::empty()] + body_v);
            assert(lines.deep_view() =~= compact_lines_spec(
                *user,
                *stats,
                self.config,
                self.visual_opts,
                username@,
                tw,
            ));
        }
        lines
    }

    #[verifier::rlimit(100)]
    /// The full layout candidate: the graph with the pull-request and
    /// issue columns packed beneath it, beside the sidebar of account,
    /// languages and achievements.
    pub fn display_full(&self, username: &str, user: &UserData, stats: &RenderStats) -> (r: Vec<
        String,
    >)
        ensures
            r.deep_view() == full_lines_spec(
                *user,
                *stats,
                self.config,
                self.visual_opts,
                self.terminal_width as int,
            ),
    {
        let ghost tw = self.terminal_width as int;
        let graph = ContributionGraph::from_weeks(crate::graph::clone_weeks(&stats.weeks));
        let gw: usize = match self.visual_opts.width {
            Some(w) => w,
            None => {
                let b: usize = if self.terminal_width > 10 {
                    self.terminal_width - 10
                } else {
                    0
                };
                let c: usize = if b < 50 {
                    50
                } else {
                    b
                };
                let e: usize = ((c as u128 * 3) / 4) as usize;
                if e < 50 {
                    50
                } else {
                    e
                }
            },
        };
        proof {
            assert(gw as int == graph_full_width(self.visual_opts, tw));
        }

        let mut graph_lines: Vec<String> = if !self.visual_opts.no_grid {
            self.get_contribution_graph_lines_with_width(&graph, stats, gw)
        } else {
            Vec::new()
        };
        let ghost gl_v = graph_lines.deep_view();
        proof {
            if self.visual_opts.no_grid {
                assert(gl_v =~= Seq::<Seq<char>>::empty());
            }
        }

        let pr_lines: Vec<String> = if !self.visual_opts.no_pr {
            self.format_pull_requests(stats)
        } else {
            Vec::new()
        };
        let issue_lines: Vec<String> = if !self.visual_opts.no_issues {
            self.format_issues(stats)
        } else {
            Vec::new()
        };
        let ghost prl = full_pr_spec(*stats, self.visual_opts);
        let ghost isl = full_issues_spec(*stats, self.visual_opts);
        proof {
            assert(pr_lines.deep_view() =~~= prl);
            assert(issue_lines.deep_view() =~~= isl);
        }

        let mut cols: Vec<Vec<String>> = Vec::new();
        if pr_lines.len() > 0 && issue_lines.len() > 0 {
            let pw = max_line_width(&pr_lines);
            let iw = max_line_width(&issue_lines);
            if pw as u128 + iw as u128 + 3 <= gw as u128 {
                cols.push(pr_lines);
                cols.push(issue_lines);
            }
        } else if pr_lines.len() > 0 {
            cols.push(pr_lines);
        } else if issue_lines.len() > 0 {
            cols.push(issue_lines);
        }
        proof {
            assert(cols.deep_view() =~~= full_section_cols(prl, isl, gw as int));
        }

        if cols.len() > 0 {
            if graph_lines.len() > 0 {
                graph_lines.push(String::new());
            }
            let mut combined = self.combine_section_grid(&cols, gw);
            graph_lines.append(&mut combined);
        }
        proof {
            assert(graph_lines.deep_view() =~= full_left_spec(
                *stats,
                self.config,
                self.visual_opts,
                tw,
            ));
        }

        let mut right: Vec<String> = Vec::new();
        if !self.visual_opts.no_account {
            let total = graph.calculate_total_contributions();
            let mut ui = self.format_user_info(user, stats, total);
            right.append(&mut ui);
        }
        let ghost acct_v = right.deep_view();
        if !self.visual_opts.no_languages && self.terminal_width >= 120 {
            let mut ll = self.format_languages(stats);
            let ghost ll_v = ll.deep_view();
            if ll.len() > 0 {
                if right.len() > 0 {
                    right.push(String::new());
                }
                right.append(&mut ll);
            }
            proof {
                assert(right.deep_view() =~= append_block(acct_v, ll_v));
            }
        }
        let ghost with_langs_v = right.deep_view();
        if !self.visual_opts.no_achievements {
            let mut al = self.format_achievements(&graph);
            let ghost al_v = al.deep_view();
            if al.len() > 0 {
                if right.len() > 0 {
                    right.push(String::new());
                }
                right.append(&mut al);
            }
            proof {
                assert(right.deep_view() =~= append_block(with_langs_v, al_v));
            }
        }
        proof {
            assert(right.deep_view() =~= full_right_spec(
                *user,
                *stats,
                self.visual_opts,
                tw,
            ));
        }

        let max_left = max_line_width(&graph_lines);
        let body = self.pair_side_by_side(&graph_lines, &right, max_left);
        let ghost body_v = body.deep_view();
        let mut lines: Vec<String> = Vec::new();
        lines.push(String::new());
        let mut body_m = body;
        lines.append(&mut body_m);
        proof {
            assert(lines.deep_view() =~= seq![Seq::<char>::empty()] + body_v);
            assert(lines.deep_view() =~= full_lines_spec(
                *user,
                *stats,
                self.config,
                self.visual_opts,
                tw,
            ));
        }
        lines
    }

    /// The layout the negotiator settles on for this terminal snapshot:
    /// the candidates are built and measured in order full, compact,
    /// minimal, and the first that fits wins; minimal is the last resort.
    pub fn determine_layout(&self, username: &str, user: &UserData, stats: &RenderStats) -> (r:
        Layout)
        ensures
            r == chosen_layout(
                *user,
                *stats,
                self.config,
                self.visual_opts,
                username@,
                self.terminal_width as int,
                self.terminal_height as int,
            ),
    {
        let full = self.display_full(username, user, stats);
        if self.fits_terminal(&full) {
            return Layout::Full;
        }
        let compact = self.display_compact(username, user, stats);
        if self.fits_terminal(&compact) {
            return Layout::Compact;
        }
        Layout::Minimal
    }

    /// Whether a candidate fits the terminal snapshot.
    fn fits_terminal(&self, lines: &Vec<String>) -> (r: bool)
        ensures
            r == fits(lines.deep_view(), self.terminal_width as int, self.terminal_height as int),
    {
        let w = max_line_width(lines);
        let avail: usize = if self.terminal_height > 2 {
            self.terminal_height - 2
        } else {
            0
        };
        w <= self.terminal_width && (lines.len() as u128 + 1 <= avail as u128)
    }

    /// Every line of the summary. The timeline bypass emits the externally
    /// supplied text unexamined; the graph-only bypass emits the graph
    /// block with no fit check. Otherwise the full, compact and minimal
    /// candidates are built and measured in order and the first that fits
    /// the terminal is kept, minimal unconditionally as last resort. Every
    /// path ends with one blank line; this cannot fail.
    pub fn display(&self, username: &str, user: &UserData, stats: &RenderStats, timeline: &str) -> (r:
        Vec<String>)
        ensures
            self.visual_opts.graph_timeline ==> r.deep_view() == seq![Seq::<char>::empty(), timeline@],
            !self.visual_opts.graph_timeline && self.visual_opts.graph_only ==> r.deep_view()
                == graph_plain_spec(*stats, self.config, self.visual_opts) + seq![Seq::<char>::empty()],
            !self.visual_opts.graph_timeline && !self.visual_opts.graph_only ==> r.deep_view()
                == layout_lines_spec(
                chosen_layout(
                    *user,
                    *stats,
                    self.config,
                    self.visual_opts,
                    username@,
                    self.terminal_width as int,
                    self.terminal_height as int,
                ),
                *user,
                *stats,
                self.config,
                self.visual_opts,
                username@,
                self.terminal_width as int,
            ) + seq![Seq::<char>::empty()],
    {
        if self.visual_opts.graph_timeline {
            let mut lines: Vec<String> = Vec::new();
            lines.push(String::new());
            lines.push(timeline.to_owned());
            proof {
                assert(lines.deep_view() =~= seq![Seq::<char>::empty(), timeline@]);
            }
            return lines;
        }
        if self.visual_opts.graph_only {
            let graph = ContributionGraph::from_weeks(crate::graph::clone_weeks(&stats.weeks));
            let mut lines = self.get_contribution_graph_lines(&graph, stats);
            let ghost gl_v = lines.deep_view();
            lines.push(String::new());
            proof {
                assert(lines.deep_view() =~= gl_v + seq![Seq::<char>::empty()]);
            }
            return lines;
        }
        let mut full = self.display_full(username, user, stats);
        if self.fits_terminal(&full) {
            let ghost fv = full.deep_view();
            full.push(String::new());
            proof {
                assert(full.deep_view() =~= fv + seq![Seq::<char>::empty()]);
            }
            return full;
        }
        let mut compact = self.display_compact(username, user, stats);
        if self.fits_terminal(&compact) {
            let ghost cv = compact.deep_view();
            compact.push(String::new());
            proof {
                assert(compact.deep_view() =~= cv + seq![Seq::<char>::empty()]);
            }
            return compact;
        }
        let mut minimal = self.display_minimal(username, user, stats);
        let ghost mv = minimal.deep_view();
        minimal.push(String::new());
        proof {
            assert(minimal.deep_view() =~= mv + seq![Seq::<char>::empty()]);
        }
        minimal
    }

    /// The synthetic-grid simulation: the matrix rendered as a calendar at
    /// full width and height, without a month ruler.
    pub fn display_simulation_from_grid(&self, grid: Vec<Vec<u8>>) -> (r: Vec<String>)
        ensures
            exists|ws: Seq<Seq<crate::graph::Day>>|
                {
                    &&& #[trigger] crate::graph::grid_weeks_shape(grid.deep_view(), ws)
                    &&& r.deep_view() == crate::graph::render_lines_spec(
                        crate::graph::window(ws, crate::graph::default_weeks()),
                        7,
                        glyph_of(self.config),
                        self.config.colors,
                        false,
                        self.visual_opts.spaced,
                    )
                },
    {
        let ghost grid_v = grid.deep_view();
        let graph = ContributionGraph::from_grid(grid);
        let custom_box: &str = match &self.config.custom_box {
            Some(b) => b.as_str(),
            None => "\u{25a0}",
        };
        proof {
            assert(custom_box@ == glyph_of(self.config));
        }
        let r = graph.render(
            None,
            None,
            custom_box,
            &self.config.colors,
            false,
            self.visual_opts.spaced,
        );
        proof {
            assert(crate::graph::grid_weeks_shape(grid_v, graph.spec_weeks()));
            assert(r.deep_view() == crate::graph::render_lines_spec(
                crate::graph::window(graph.spec_weeks(), crate::graph::default_weeks()),
                7,
                glyph_of(self.config),
                self.config.colors,
                false,
                self.visual_opts.spaced,
            ));
        }
        r
    }
}


} // verus!
