//! On-screen measurement of styled text: the visible width of a string once
//! its color escape runs are removed, and character-safe truncation.
//!
//! An escape run is `ESC` `[` followed by digits and semicolons and closed by
//! `m`; anything else, including an unterminated run, stays in the text. The
//! width of what remains is the sum of the per-character terminal cell widths.

use vstd::prelude::*;

use crate::strutil::{chars_of, string_of};

verus! {

broadcast use vstd::string::group_string_axioms;

/// Terminal cell width of one character, as the width tables give it.
pub uninterp spec fn char_width_of(c: char) -> nat;

/// Cell width used by every measurement: the table width, capped at three.
/// The executable width function always reports at most three, so the cap
/// never changes a real value; it gives the spec an unconditional bound.
pub open spec fn cell_width(c: char) -> nat {
    if char_width_of(c) <= 3 {
        char_width_of(c)
    } else {
        3
    }
}

/// Relies on `unicode_width::UnicodeWidthChar::width`: the character's
/// displayed width in columns, `None` for a control character, which
/// counts as zero here. The width tables yield 0 to 3 columns; three
/// occurs for exactly one character, the Khmer sign Beyyal.
#[verifier::external_body]
pub fn char_terminal_width(c: char) -> (r: usize)
    ensures
        r as nat == char_width_of(c),
        r <= 3,
{
    unicode_width::UnicodeWidthChar::width(c).unwrap_or(0)
}

/// Whether `c` may stand in the body of an escape run: a digit or `;`.
pub open spec fn is_csi_body_char(c: char) -> bool {
    (48 <= c as u32 && c as u32 <= 57) || c as u32 == 59
}

/// First index at or after `j` that does not hold a body character
/// (`s.len()` if the run reaches the end).
pub open spec fn csi_end(s: Seq<char>, j: int) -> int
    decreases s.len() - j,
{
    if j < 0 || j >= s.len() {
        j
    } else if is_csi_body_char(s[j]) {
        csi_end(s, j + 1)
    } else {
        j
    }
}

pub proof fn lemma_csi_end_bounds(s: Seq<char>, j: int)
    requires
        0 <= j <= s.len(),
    ensures
        j <= csi_end(s, j) <= s.len(),
    decreases s.len() - j,
{
    if j < s.len() && is_csi_body_char(s[j]) {
        lemma_csi_end_bounds(s, j + 1);
    }
}

/// Whether a complete escape run `ESC [ body* m` starts at index `i`.
pub open spec fn is_esc_seq_at(s: Seq<char>, i: int) -> bool {
    &&& 0 <= i
    &&& i + 1 < s.len()
    &&& s[i] == '\u{1b}'
    &&& s[i + 1] == '['
    &&& csi_end(s, i + 2) < s.len()
    &&& s[csi_end(s, i + 2)] == 'm'
}

/// Index just past the escape run that starts at `i`.
pub open spec fn esc_skip(s: Seq<char>, i: int) -> int {
    csi_end(s, i + 2) + 1
}

/// The characters of `s` from index `i` on, with every escape run removed.
pub open spec fn strip_from(s: Seq<char>, i: int) -> Seq<char>
    decreases s.len() - i,
    via strip_from_dec
{
    if i < 0 || i >= s.len() {
        Seq::empty()
    } else if is_esc_seq_at(s, i) {
        strip_from(s, esc_skip(s, i))
    } else {
        seq![s[i]] + strip_from(s, i + 1)
    }
}

#[via_fn]
proof fn strip_from_dec(s: Seq<char>, i: int) {
    if 0 <= i && i < s.len() && is_esc_seq_at(s, i) {
        lemma_csi_end_bounds(s, i + 2);
    }
}

/// The visible text of `s`: what remains after removing escape runs.
pub open spec fn stripped(s: Seq<char>) -> Seq<char> {
    strip_from(s, 0)
}

/// Sum of the cell widths of a character sequence.
pub open spec fn seq_cells(s: Seq<char>) -> int
    decreases s.len(),
{
    if s.len() == 0 {
        0
    } else {
        seq_cells(s.drop_last()) + cell_width(s.last())
    }
}

pub proof fn lemma_seq_cells_nonneg(s: Seq<char>)
    ensures
        0 <= seq_cells(s) <= 3 * s.len(),
    decreases s.len(),
{
    if s.len() > 0 {
        lemma_seq_cells_nonneg(s.drop_last());
    }
}

pub proof fn lemma_seq_cells_push(s: Seq<char>, c: char)
    ensures
        seq_cells(s.push(c)) == seq_cells(s) + cell_width(c),
{
    assert(s.push(c).drop_last() =~= s);
}

/// The exact display width of `s`: cell widths summed over its visible text.
pub open spec fn display_cells(s: Seq<char>) -> int {
    seq_cells(stripped(s))
}

/// Display width as the executable measurement reports it: the exact width,
/// saturated at `usize::MAX` (which no realizable string reaches).
pub open spec fn vis_width(s: Seq<char>) -> int {
    if display_cells(s) <= usize::MAX as int {
        display_cells(s)
    } else {
        usize::MAX as int
    }
}

/// Whether `c` is one complete escape run and nothing else.
pub open spec fn is_csi_m_seq(c: Seq<char>) -> bool {
    &&& c.len() >= 3
    &&& c[0] == '\u{1b}'
    &&& c[1] == '['
    &&& c.last() == 'm'
    &&& forall|j: int| 2 <= j < c.len() - 1 ==> is_csi_body_char(c[j])
}

/// The style-reset escape run appended after every colored block.
pub open spec fn sgr_reset() -> Seq<char> {
    seq!['\u{1b}', '[', '0', 'm']
}

pub proof fn lemma_sgr_reset_is_csi()
    ensures
        is_csi_m_seq(sgr_reset()),
{
    assert(sgr_reset()[2] == '0');
    assert(forall|j: int| 2 <= j < sgr_reset().len() - 1 ==> is_csi_body_char(sgr_reset()[j]));
}

/// Every character of the run from `j` up to its end is a body character.
proof fn lemma_csi_run_body(s: Seq<char>, j: int, l: int)
    requires
        0 <= j <= l < csi_end(s, j),
        j <= s.len(),
    ensures
        is_csi_body_char(s[l]),
    decreases l - j,
{
    lemma_csi_end_bounds(s, j);
    if j < l {
        lemma_csi_end_bounds(s, j + 1);
        lemma_csi_run_body(s, j + 1, l);
    }
}

/// The character at the end of a run, when in range, is no body character.
proof fn lemma_csi_end_stop(s: Seq<char>, j: int)
    requires
        0 <= j <= s.len(),
    ensures
        csi_end(s, j) < s.len() ==> !is_csi_body_char(s[csi_end(s, j)]),
    decreases s.len() - j,
{
    if j < s.len() && is_csi_body_char(s[j]) {
        lemma_csi_end_stop(s, j + 1);
    }
}

/// When `[j, k)` holds only body characters and `k` does not, the run from
/// `j` ends exactly at `k`.
proof fn lemma_csi_end_is(s: Seq<char>, j: int, k: int)
    requires
        0 <= j <= k <= s.len(),
        forall|l: int| j <= l < k ==> is_csi_body_char(s[l]),
        k == s.len() || !is_csi_body_char(s[k]),
    ensures
        csi_end(s, j) == k,
    decreases k - j,
{
    if j < k {
        lemma_csi_end_is(s, j + 1, k);
    }
}

/// The run end, computed past an untouched prefix, shifts by that prefix.
proof fn lemma_csi_end_offset(a: Seq<char>, b: Seq<char>, j: int)
    requires
        0 <= j <= b.len(),
    ensures
        csi_end(a + b, a.len() + j) == a.len() + csi_end(b, j),
    decreases b.len() - j,
{
    if j < b.len() {
        assert((a + b)[a.len() + j] == b[j]);
        if is_csi_body_char(b[j]) {
            lemma_csi_end_offset(a, b, j + 1);
        }
    }
}

/// Stripping from a position past a prefix sees only the suffix.
proof fn lemma_strip_offset(a: Seq<char>, b: Seq<char>, i: int)
    requires
        0 <= i <= b.len(),
    ensures
        strip_from(a + b, a.len() + i) == strip_from(b, i),
    decreases b.len() - i,
{
    let s = a + b;
    if i >= b.len() {
        assert(strip_from(s, a.len() + i) == Seq::<char>::empty());
    } else {
        assert(s[a.len() + i] == b[i]);
        if i + 1 < b.len() {
            assert(s[a.len() + i + 1] == b[i + 1]);
        }
        if i + 2 <= b.len() {
            lemma_csi_end_offset(a, b, i + 2);
            lemma_csi_end_bounds(b, i + 2);
        }
        if is_esc_seq_at(b, i) {
            let e = csi_end(b, i + 2);
            assert(s[a.len() + e] == b[e]);
            assert(is_esc_seq_at(s, a.len() + i));
            lemma_strip_offset(a, b, e + 1);
        } else {
            assert(!is_esc_seq_at(s, a.len() + i)) by {
                if a.len() + i + 1 < s.len() && s[a.len() + i] == '\u{1b}' && s[a.len() + i + 1]
                    == '[' {
                    assert(i + 1 < b.len());
                    let e = csi_end(b, i + 2);
                    if e < b.len() {
                        assert(s[a.len() + e] == b[e]);
                    }
                }
            }
            lemma_strip_offset(a, b, i + 1);
            assert(seq![s[a.len() + i]] + strip_from(b, i + 1) =~= seq![b[i]] + strip_from(
                b,
                i + 1,
            ));
        }
    }
}

/// A complete escape run in front of any text strips away entirely.
pub proof fn lemma_strip_csi_prefix(c: Seq<char>, rest: Seq<char>)
    requires
        is_csi_m_seq(c),
    ensures
        strip_from(c + rest, 0) == strip_from(rest, 0),
{
    let s = c + rest;
    assert(s[0] == '\u{1b}');
    assert(s[1] == '[');
    assert forall|l: int| 2 <= l < c.len() - 1 implies is_csi_body_char(s[l]) by {
        assert(s[l] == c[l]);
    }
    assert(s[c.len() - 1] == c.last());
    assert(!is_csi_body_char('m'));
    lemma_csi_end_is(s, 2, c.len() - 1);
    assert(is_esc_seq_at(s, 0));
    assert(strip_from(s, 0) == strip_from(s, c.len() as int));
    lemma_strip_offset(c, rest, 0);
}

/// A complete escape run appended after any text strips away entirely.
pub proof fn lemma_strip_csi_suffix(t: Seq<char>, r: Seq<char>, i: int)
    requires
        is_csi_m_seq(r),
        0 <= i <= t.len(),
    ensures
        strip_from(t + r, i) == strip_from(t, i),
    decreases t.len() - i,
{
    let s = t + r;
    if i == t.len() {
        lemma_strip_offset(t, r, 0);
        assert(r + Seq::<char>::empty() =~= r);
        lemma_strip_csi_prefix(r, Seq::<char>::empty());
        assert(strip_from(s, i) == Seq::<char>::empty());
    } else {
        assert(s[i] == t[i]);
        if i + 1 < t.len() {
            assert(s[i + 1] == t[i + 1]);
        } else {
            // the last character of `t`: in `s` the next one is the start
            // of `r`, which is no `[`
            assert(i + 1 < s.len() ==> s[i + 1] == r[0]);
        }
        if is_esc_seq_at(t, i) {
            let e = csi_end(t, i + 2);
            lemma_csi_end_bounds(t, i + 2);
            assert forall|l: int| i + 2 <= l < e implies is_csi_body_char(s[l]) by {
                lemma_csi_run_body(t, i + 2, l);
                assert(s[l] == t[l]);
            }
            assert(s[e] == t[e]);
            assert(!is_csi_body_char('m'));
            lemma_csi_end_is(s, i + 2, e);
            assert(is_esc_seq_at(s, i));
            lemma_strip_csi_suffix(t, r, e + 1);
        } else {
            if i + 1 < t.len() && t[i] == '\u{1b}' && t[i + 1] == '[' {
                let e = csi_end(t, i + 2);
                lemma_csi_end_bounds(t, i + 2);
                assert forall|l: int| i + 2 <= l < e implies is_csi_body_char(s[l]) by {
                    lemma_csi_run_body(t, i + 2, l);
                    assert(s[l] == t[l]);
                }
                if e < t.len() {
                    assert(s[e] == t[e]);
                    lemma_csi_end_stop(t, i + 2);
                    lemma_csi_end_is(s, i + 2, e);
                    assert(!is_esc_seq_at(s, i));
                } else {
                    assert(s[e] == r[0]);
                    assert(!is_csi_body_char('\u{1b}'));
                    lemma_csi_end_is(s, i + 2, e);
                    assert(s[csi_end(s, i + 2)] == '\u{1b}');
                    assert(!is_esc_seq_at(s, i));
                }
            } else {
                assert(!is_esc_seq_at(s, i));
            }
            lemma_strip_csi_suffix(t, r, i + 1);
            assert(seq![s[i]] + strip_from(t, i + 1) =~= seq![t[i]] + strip_from(t, i + 1));
        }
    }
}

/// Wrapping text in one color run and the reset run leaves its visible
/// width unchanged, whatever the text holds.
pub proof fn lemma_vis_width_styled(code: Seq<char>, text: Seq<char>)
    requires
        is_csi_m_seq(code),
    ensures
        vis_width(code + text + sgr_reset()) == vis_width(text),
        stripped(code + text + sgr_reset()) == stripped(text),
{
    lemma_sgr_reset_is_csi();
    assert(code + text + sgr_reset() =~= code + (text + sgr_reset()));
    lemma_strip_csi_prefix(code, text + sgr_reset());
    lemma_strip_csi_suffix(text, sgr_reset(), 0);
}

/// Removes every escape run from `v`.
pub fn strip_ansi_chars(v: &Vec<char>) -> (r: Vec<char>)
    ensures
        r@ == strip_from(v@, 0),
{
    let n: usize = v.len();
    let mut out: Vec<char> = Vec::new();
    let mut i: usize = 0;
    while i < n
        invariant
            n == v@.len(),
            i <= n,
            strip_from(v@, 0) == out@ + strip_from(v@, i as int),
        decreases n - i,
    {
        let ghost prev: int = i as int;
        if v[i] == '\u{1b}' && i + 1 < n && v[i + 1] == '[' {
            let mut j: usize = i + 2;
            while j < n && ((48 <= v[j] as u32 && v[j] as u32 <= 57) || v[j] as u32 == 59)
                invariant
                    n == v@.len(),
                    i + 2 <= j <= n,
                    csi_end(v@, i + 2) == csi_end(v@, j as int),
                decreases n - j,
            {
                j = j + 1;
            }
            proof {
                assert(csi_end(v@, j as int) == j as int);
            }
            if j < n && v[j] == 'm' {
                proof {
                    assert(is_esc_seq_at(v@, prev));
                    assert(strip_from(v@, prev) == strip_from(v@, j + 1));
                }
                i = j + 1;
            } else {
                proof {
                    assert(!is_esc_seq_at(v@, prev));
                    assert(strip_from(v@, prev) == seq![v@[prev]] + strip_from(v@, prev + 1));
                    assert(out@.push(v@[prev]) + strip_from(v@, prev + 1) =~= out@ + strip_from(
                        v@,
                        prev,
                    ));
                }
                out.push(v[i]);
                i = i + 1;
            }
        } else {
            proof {
                assert(!is_esc_seq_at(v@, prev));
                assert(strip_from(v@, prev) == seq![v@[prev]] + strip_from(v@, prev + 1));
                assert(out@.push(v@[prev]) + strip_from(v@, prev + 1) =~= out@ + strip_from(
                    v@,
                    prev,
                ));
            }
            out.push(v[i]);
            i = i + 1;
        }
    }
    proof {
        assert(out@ + strip_from(v@, n as int) =~= out@);
    }
    out
}

/// Sum of cell widths of `v`, saturated at `usize::MAX`.
fn sum_cells(v: &Vec<char>) -> (r: usize)
    ensures
        r as int == if seq_cells(v@) <= usize::MAX as int {
            seq_cells(v@)
        } else {
            usize::MAX as int
        },
{
    let n: usize = v.len();
    let mut sum: usize = 0;
    let mut i: usize = 0;
    while i < n
        invariant
            n == v@.len(),
            i <= n,
            sum as int == if seq_cells(v@.take(i as int)) <= usize::MAX as int {
                seq_cells(v@.take(i as int))
            } else {
                usize::MAX as int
            },
        decreases n - i,
    {
        let w = char_terminal_width(v[i]);
        proof {
            lemma_seq_cells_push(v@.take(i as int), v@[i as int]);
            assert(v@.take(i as int).push(v@[i as int]) =~= v@.take(i + 1));
            lemma_seq_cells_nonneg(v@.take(i as int));
        }
        sum = sum.saturating_add(w);
        i = i + 1;
    }
    proof {
        assert(v@.take(n as int) =~= v@);
    }
    sum
}

/// Visible width of a character vector: strip escape runs, sum cell widths.
pub fn visible_width_chars(v: &Vec<char>) -> (r: usize)
    ensures
        r as int == vis_width(v@),
{
    let stripped_v = strip_ansi_chars(v);
    sum_cells(&stripped_v)
}

/// Visible width of a string: the single source of truth for every
/// alignment and fit decision.
pub fn visible_width(s: &str) -> (r: usize)
    ensures
        r as int == vis_width(s@),
{
    let v = chars_of(s);
    visible_width_chars(&v)
}

/// Index of the first character that no longer fits when truncating `s` to
/// width `max`: scanning from `i`, the first position whose prefix, with
/// the ellipsis appended, would exceed `max` (the length when none does).
pub open spec fn trunc_scan(s: Seq<char>, max: int, i: int) -> int
    decreases s.len() - i,
{
    if i < 0 || i >= s.len() {
        i
    } else if vis_width(s.take(i + 1).push('\u{2026}')) > max {
        i
    } else {
        trunc_scan(s, max, i + 1)
    }
}

/// What truncation returns: the text itself when it fits within `max`,
/// otherwise the longest prefix that, followed by an ellipsis, still fits
/// (greedily, measuring each prefix), with the ellipsis appended.
pub open spec fn truncated_spec(s: Seq<char>, max: int) -> Seq<char> {
    if vis_width(s) <= max {
        s
    } else {
        s.take(trunc_scan(s, max, 0)) + seq!['\u{2026}']
    }
}

/// Truncates `text` to at most `max_width` visible cells, appending an
/// ellipsis when anything was cut; characters are kept whole.
pub fn truncate_to_width(text: &str, max_width: usize) -> (r: String)
    ensures
        r@ == truncated_spec(text@, max_width as int),
{
    let full = visible_width(text);
    if full <= max_width {
        return text.to_owned();
    }
    let v = chars_of(text);
    let n: usize = v.len();
    let mut out: Vec<char> = Vec::new();
    let mut i: usize = 0;
    while i < n
        invariant
            n == v@.len(),
            v@ == text@,
            i <= n,
            out@ == v@.take(i as int),
            vis_width(v@) > max_width,
            trunc_scan(v@, max_width as int, 0) == trunc_scan(v@, max_width as int, i as int),
        decreases n - i,
    {
        let mut cand: Vec<char> = Vec::new();
        let mut j: usize = 0;
        while j < i + 1
            invariant
                i < n,
                n == v@.len(),
                j <= i + 1,
                cand@ == v@.take(j as int),
            decreases i + 1 - j,
        {
            cand.push(v[j]);
            proof {
                assert(cand@ =~= v@.take(j + 1));
            }
            j = j + 1;
        }
        cand.push('\u{2026}');
        proof {
            assert(cand@ =~= v@.take(i + 1).push('\u{2026}'));
        }
        let w = visible_width_chars(&cand);
        if w > max_width {
            proof {
                assert(trunc_scan(v@, max_width as int, i as int) == i as int);
            }
            out.push('\u{2026}');
            let ghost final_out = out@;
            proof {
                assert(vis_width(text@) > max_width as int);
                assert(trunc_scan(text@, max_width as int, 0) == i as int);
                assert(truncated_spec(text@, max_width as int) == text@.take(i as int) + seq![
                    '\u{2026}'
                ]);
                assert(final_out =~= text@.take(i as int) + seq!['\u{2026}']);
            }
            let r = string_of(&out);
            return r;
        }
        out.push(v[i]);
        proof {
            assert(out@ =~= v@.take(i + 1));
        }
        i = i + 1;
    }
    proof {
        assert(trunc_scan(v@, max_width as int, n as int) == n as int);
        assert(v@.take(n as int) =~= v@);
    }
    out.push('\u{2026}');
    let ghost final_out = out@;
    proof {
        assert(final_out =~= truncated_spec(text@, max_width as int));
    }
    let r = string_of(&out);
    r
}

/// Largest visible width over a list of lines (zero when empty).
pub open spec fn max_vis_width(lines: Seq<Seq<char>>) -> int
    decreases lines.len(),
{
    if lines.len() == 0 {
        0
    } else {
        let rest = max_vis_width(lines.drop_last());
        let lw = vis_width(lines.last());
        if lw >= rest {
            lw
        } else {
            rest
        }
    }
}

pub proof fn lemma_max_vis_width_nonneg(lines: Seq<Seq<char>>)
    ensures
        0 <= max_vis_width(lines) <= usize::MAX as int,
    decreases lines.len(),
{
    if lines.len() > 0 {
        lemma_max_vis_width_nonneg(lines.drop_last());
    }
}

/// Largest visible width over the given lines.
pub fn max_line_width(lines: &Vec<String>) -> (r: usize)
    ensures
        r as int == max_vis_width(lines.deep_view()),
{
    let mut best: usize = 0;
    let mut i: usize = 0;
    while i < lines.len()
        invariant
            i <= lines@.len(),
            best as int == max_vis_width(lines.deep_view().take(i as int)),
        decreases lines@.len() - i,
    {
        proof {
            assert(lines.deep_view().take(i + 1).drop_last() =~= lines.deep_view().take(i as int));
            assert(lines.deep_view().take(i + 1).last() == lines@[i as int]@);
        }
        let w = visible_width(lines[i].as_str());
        if w > best {
            best = w;
        }
        i = i + 1;
    }
    proof {
        assert(lines.deep_view().take(lines.deep_view().len() as int) =~= lines.deep_view());
    }
    best
}

} // verus!
