//! Hex color parsing and ANSI escape building: a `#rrggbb` string becomes a
//! 24-bit foreground or background escape run. Malformed input degrades to
//! the zero component, never to a failure.

use vstd::prelude::*;

use crate::fmt_num::{dec_rep, digit_char, push_u64};
use crate::measure::{is_csi_body_char, is_csi_m_seq};
use crate::strutil::chars_of;

verus! {

broadcast use vstd::string::group_string_axioms;

/// `s` with every leading `#` removed.
pub open spec fn skip_hashes(s: Seq<char>) -> Seq<char>
    decreases s.len(),
{
    if s.len() > 0 && s[0] == '#' {
        skip_hashes(s.skip(1))
    } else {
        s
    }
}

/// Value of a hexadecimal digit, `-1` for any other character.
pub open spec fn hex_digit_val(c: char) -> int {
    let u = c as u32;
    if 48 <= u && u <= 57 {
        u - 48
    } else if 97 <= u && u <= 102 {
        u - 87
    } else if 65 <= u && u <= 70 {
        u - 55
    } else {
        -1
    }
}

/// Value of the two-character group at `i`, read as a hexadecimal byte the
/// way the standard radix parser reads it (a leading plus sign admitted);
/// zero when the group is missing or malformed.
pub open spec fn hex_pair_val(s: Seq<char>, i: int) -> int {
    if 0 <= i && i + 1 < s.len() {
        let hi = hex_digit_val(s[i]);
        let lo = hex_digit_val(s[i + 1]);
        if hi >= 0 && lo >= 0 {
            16 * hi + lo
        } else if s[i] == '+' && lo >= 0 {
            lo
        } else {
            0
        }
    } else {
        0
    }
}

/// The red, green and blue components encoded in a hex color string.
pub open spec fn rgb_of_hex(s: Seq<char>) -> (int, int, int) {
    let h = skip_hashes(s);
    (hex_pair_val(h, 0), hex_pair_val(h, 2), hex_pair_val(h, 4))
}

/// Value of the hexadecimal digit `c`, `-1` when `c` is none.
fn hex_digit_exec(c: char) -> (r: i32)
    ensures
        r as int == hex_digit_val(c),
{
    let u = c as u32;
    if 48 <= u && u <= 57 {
        (u - 48) as i32
    } else if 97 <= u && u <= 102 {
        (u - 87) as i32
    } else if 65 <= u && u <= 70 {
        (u - 55) as i32
    } else {
        -1i32
    }
}

/// The hexadecimal byte at character offset `i` of `v`, zero when missing
/// or malformed.
fn hex_pair_exec(v: &Vec<char>, i: usize) -> (r: u8)
    ensures
        r as int == hex_pair_val(v@, i as int),
{
    let n: usize = v.len();
    if i < usize::MAX && i + 1 < n {
        let hi = hex_digit_exec(v[i]);
        let lo = hex_digit_exec(v[i + 1]);
        assert(-1 <= hi as int <= 15 && -1 <= lo as int <= 15);
        if hi >= 0 && lo >= 0 {
            assert(hex_pair_val(v@, i as int) == 16 * hi as int + lo as int);
            (16 * hi + lo) as u8
        } else if v[i] == '+' && lo >= 0 {
            assert(hex_pair_val(v@, i as int) == lo as int);
            lo as u8
        } else {
            assert(hex_pair_val(v@, i as int) == 0);
            0
        }
    } else {
        assert(hex_pair_val(v@, i as int) == 0);
        0
    }
}

/// Reads a `#rrggbb` (or `rrggbb`) color into its components; any missing
/// or malformed two-digit group counts as zero.
pub fn hex_to_rgb(hex: &str) -> (r: (u8, u8, u8))
    ensures
        (r.0 as int, r.1 as int, r.2 as int) == rgb_of_hex(hex@),
{
    let v = chars_of(hex);
    proof {
        assert(v@.skip(0) =~= v@);
    }
    let mut i: usize = 0;
    while i < v.len() && v[i] == '#'
        invariant
            i <= v@.len(),
            skip_hashes(v@) == skip_hashes(v@.skip(i as int)),
        decreases v@.len() - i,
    {
        proof {
            assert(v@.skip(i as int).skip(1) =~= v@.skip(i + 1));
        }
        i = i + 1;
    }
    proof {
        assert(skip_hashes(v@.skip(i as int)) == v@.skip(i as int));
    }
    let mut h: Vec<char> = Vec::new();
    let mut j: usize = i;
    while j < v.len()
        invariant
            i <= j <= v@.len(),
            h@ == v@.skip(i as int).take(j - i),
        decreases v@.len() - j,
    {
        h.push(v[j]);
        proof {
            assert(h@ =~= v@.skip(i as int).take(j + 1 - i));
        }
        j = j + 1;
    }
    proof {
        assert(h@ =~= v@.skip(i as int));
    }
    let r0 = hex_pair_exec(&h, 0);
    let g0 = hex_pair_exec(&h, 2);
    let b0 = hex_pair_exec(&h, 4);
    (r0, g0, b0)
}

/// The 24-bit foreground escape run for the given components.
pub open spec fn ansi_fg_seq(r: int, g: int, b: int) -> Seq<char> {
    seq!['\u{1b}', '['] + seq!['3', '8', ';', '2', ';'] + dec_rep(r) + seq![';'] + dec_rep(g)
        + seq![';'] + dec_rep(b) + seq!['m']
}

/// The 24-bit background escape run for the given components.
pub open spec fn ansi_bg_seq(r: int, g: int, b: int) -> Seq<char> {
    seq!['\u{1b}', '['] + seq!['4', '8', ';', '2', ';'] + dec_rep(r) + seq![';'] + dec_rep(g)
        + seq![';'] + dec_rep(b) + seq!['m']
}

/// Every character of a decimal digit string may stand in an escape body.
pub proof fn lemma_dec_rep_body(n: int)
    ensures
        forall|j: int| 0 <= j < dec_rep(n).len() ==> is_csi_body_char(dec_rep(n)[j]),
    decreases n,
{
    if n < 10 {
        assert(dec_rep(n) == seq![digit_char(n)]);
    } else {
        lemma_dec_rep_body(n / 10);
        assert(forall|j: int| 0 <= j < dec_rep(n).len() - 1 ==> dec_rep(n)[j] == dec_rep(
            n / 10,
        )[j]);
    }
}

/// `ESC [` plus any body characters plus `m` is one complete escape run.
pub proof fn lemma_csi_of_body(body: Seq<char>)
    requires
        forall|j: int| 0 <= j < body.len() ==> is_csi_body_char(body[j]),
    ensures
        is_csi_m_seq(seq!['\u{1b}', '['] + body + seq!['m']),
{
    let s = seq!['\u{1b}', '['] + body + seq!['m'];
    assert(s[0] == '\u{1b}');
    assert(s[1] == '[');
    assert(s.last() == 'm');
    assert forall|j: int| 2 <= j < s.len() - 1 implies is_csi_body_char(s[j]) by {
        assert(s[j] == body[j - 2]);
    }
}

/// The foreground escape run is one complete escape run.
pub proof fn lemma_ansi_fg_is_csi(r: int, g: int, b: int)
    ensures
        is_csi_m_seq(ansi_fg_seq(r, g, b)),
{
    let body = seq!['3', '8', ';', '2', ';'] + dec_rep(r) + seq![';'] + dec_rep(g) + seq![';']
        + dec_rep(b);
    lemma_dec_rep_body(r);
    lemma_dec_rep_body(g);
    lemma_dec_rep_body(b);
    assert(forall|j: int| 0 <= j < body.len() ==> is_csi_body_char(body[j]));
    lemma_csi_of_body(body);
    assert(ansi_fg_seq(r, g, b) =~= seq!['\u{1b}', '['] + body + seq!['m']);
}

/// The background escape run is one complete escape run.
pub proof fn lemma_ansi_bg_is_csi(r: int, g: int, b: int)
    ensures
        is_csi_m_seq(ansi_bg_seq(r, g, b)),
{
    let body = seq!['4', '8', ';', '2', ';'] + dec_rep(r) + seq![';'] + dec_rep(g) + seq![';']
        + dec_rep(b);
    lemma_dec_rep_body(r);
    lemma_dec_rep_body(g);
    lemma_dec_rep_body(b);
    assert(forall|j: int| 0 <= j < body.len() ==> is_csi_body_char(body[j]));
    lemma_csi_of_body(body);
    assert(ansi_bg_seq(r, g, b) =~= seq!['\u{1b}', '['] + body + seq!['m']);
}

/// Appends the foreground escape run for `(r, g, b)` to `s`.
pub fn push_ansi_fg(s: &mut String, r: u8, g: u8, b: u8)
    ensures
        final(s)@ == old(s)@ + ansi_fg_seq(r as int, g as int, b as int),
{
    s.append("\u{1b}[38;2;");
    push_u64(s, r as u64);
    s.append(";");
    push_u64(s, g as u64);
    s.append(";");
    push_u64(s, b as u64);
    s.append("m");
    proof {
        reveal_strlit("\u{1b}[38;2;");
        reveal_strlit(";");
        reveal_strlit("m");
        assert(s@ =~= old(s)@ + ansi_fg_seq(r as int, g as int, b as int));
    }
}

/// Appends the background escape run for `(r, g, b)` to `s`.
pub fn push_ansi_bg(s: &mut String, r: u8, g: u8, b: u8)
    ensures
        final(s)@ == old(s)@ + ansi_bg_seq(r as int, g as int, b as int),
{
    s.append("\u{1b}[48;2;");
    push_u64(s, r as u64);
    s.append(";");
    push_u64(s, g as u64);
    s.append(";");
    push_u64(s, b as u64);
    s.append("m");
    proof {
        reveal_strlit("\u{1b}[48;2;");
        reveal_strlit(";");
        reveal_strlit("m");
        assert(s@ =~= old(s)@ + ansi_bg_seq(r as int, g as int, b as int));
    }
}

/// The foreground escape run named by a hex color string.
pub open spec fn ansi_color_of(hex: Seq<char>) -> Seq<char> {
    ansi_fg_seq(rgb_of_hex(hex).0, rgb_of_hex(hex).1, rgb_of_hex(hex).2)
}

/// The background escape run named by a hex color string.
pub open spec fn ansi_bg_of(hex: Seq<char>) -> Seq<char> {
    ansi_bg_seq(rgb_of_hex(hex).0, rgb_of_hex(hex).1, rgb_of_hex(hex).2)
}

/// Turns a hex color into its foreground escape run; this cannot fail, and
/// the result is always returned.
pub fn get_ansi_color(hex: &str) -> (r: Result<String, String>)
    ensures
        r is Ok,
        r->Ok_0@ == ansi_color_of(hex@),
{
    let (cr, cg, cb) = hex_to_rgb(hex);
    let mut s = String::new();
    push_ansi_fg(&mut s, cr, cg, cb);
    proof {
        assert(s@ =~= ansi_color_of(hex@));
    }
    Ok(s)
}

} // verus!
