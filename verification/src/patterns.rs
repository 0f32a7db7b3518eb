//! The glyph table for "simulate text or shape as a grid" mode: fixed
//! seven-row intensity bitmaps for the letters, the space, and the named
//! shapes, and the builders that concatenate them into one wide grid.

use vstd::prelude::*;

use crate::strutil::{chars_of, push_char, str_eq};

verus! {

broadcast use vstd::string::group_string_axioms;

/// A glyph bitmap: rows of intensity values.
pub type Pattern = Vec<Vec<u8>>;

/// Whether text mode supports the (already uppercased) character.
pub open spec fn is_supported_char(c: char) -> bool {
    (65 <= c as u32 && c as u32 <= 90) || c == ' '
}

/// The uppercased form of an ASCII letter; any other character unchanged.
pub open spec fn upcase_char(c: char) -> char {
    if c == 'a' {
        'A'
    } else if c == 'b' {
        'B'
    } else if c == 'c' {
        'C'
    } else if c == 'd' {
        'D'
    } else if c == 'e' {
        'E'
    } else if c == 'f' {
        'F'
    } else if c == 'g' {
        'G'
    } else if c == 'h' {
        'H'
    } else if c == 'i' {
        'I'
    } else if c == 'j' {
        'J'
    } else if c == 'k' {
        'K'
    } else if c == 'l' {
        'L'
    } else if c == 'm' {
        'M'
    } else if c == 'n' {
        'N'
    } else if c == 'o' {
        'O'
    } else if c == 'p' {
        'P'
    } else if c == 'q' {
        'Q'
    } else if c == 'r' {
        'R'
    } else if c == 's' {
        'S'
    } else if c == 't' {
        'T'
    } else if c == 'u' {
        'U'
    } else if c == 'v' {
        'V'
    } else if c == 'w' {
        'W'
    } else if c == 'x' {
        'X'
    } else if c == 'y' {
        'Y'
    } else if c == 'z' {
        'Z'
    } else {
        c
    }
}

/// The uppercased form of an ASCII letter; any other character unchanged.
fn upcase_char_exec(c: char) -> (r: char)
    ensures
        r == upcase_char(c),
{
    if c == 'a' {
        'A'
    } else if c == 'b' {
        'B'
    } else if c == 'c' {
        'C'
    } else if c == 'd' {
        'D'
    } else if c == 'e' {
        'E'
    } else if c == 'f' {
        'F'
    } else if c == 'g' {
        'G'
    } else if c == 'h' {
        'H'
    } else if c == 'i' {
        'I'
    } else if c == 'j' {
        'J'
    } else if c == 'k' {
        'K'
    } else if c == 'l' {
        'L'
    } else if c == 'm' {
        'M'
    } else if c == 'n' {
        'N'
    } else if c == 'o' {
        'O'
    } else if c == 'p' {
        'P'
    } else if c == 'q' {
        'Q'
    } else if c == 'r' {
        'R'
    } else if c == 's' {
        'S'
    } else if c == 't' {
        'T'
    } else if c == 'u' {
        'U'
    } else if c == 'v' {
        'V'
    } else if c == 'w' {
        'W'
    } else if c == 'x' {
        'X'
    } else if c == 'y' {
        'Y'
    } else if c == 'z' {
        'Z'
    } else {
        c
    }
}

/// The names the glyph table holds: one-character names for each supported
/// character, and the named shapes.
pub open spec fn is_known_pattern_name(s: Seq<char>) -> bool {
    (s.len() == 1 && is_supported_char(s[0])) || s == "heart"@ || s == "octocat"@
}

/// Whether the table holds an entry under `name`.
pub open spec fn assoc_has(ps: Seq<(String, Pattern)>, name: Seq<char>) -> bool {
    exists|i: int| 0 <= i < ps.len() && ps[i].0@ == name
}

/// The glyph bitmap a single supported character stands for; any other
/// character maps to the empty bitmap.
pub open spec fn glyph_rows_char(c: char) -> Seq<Seq<u8>> {
    if c == 'A' {
        seq![
            seq![0u8, 3u8, 3u8, 3u8, 3u8, 3u8, 0u8],
            seq![3u8, 0u8, 0u8, 0u8, 0u8, 0u8, 3u8],
            seq![3u8, 0u8, 0u8, 0u8, 0u8, 0u8, 3u8],
            seq![3u8, 3u8, 3u8, 3u8, 3u8, 3u8, 3u8],
            seq![3u8, 0u8, 0u8, 0u8, 0u8, 0u8, 3u8],
            seq![3u8, 0u8, 0u8, 0u8, 0u8, 0u8, 3u8],
            seq![3u8, 0u8, 0u8, 0u8, 0u8, 0u8, 3u8],
        ]
    } else if c == 'B' {
        seq![
            seq![3u8, 3u8, 3u8, 3u8, 3u8, 3u8, 0u8],
            seq![3u8, 0u8, 0u8, 0u8, 0u8, 0u8, 3u8],
            seq![3u8, 0u8, 0u8, 0u8, 0u8, 0u8, 3u8],
            seq![3u8, 3u8, 3u8, 3u8, 3u8, 3u8, 0u8],
            seq![3u8, 0u8, 0u8, 0u8, 0u8, 0u8, 3u8],
            seq![3u8, 0u8, 0u8, 0u8, 0u8, 0u8, 3u8],
            seq![3u8, 3u8, 3u8, 3u8, 3u8, 3u8, 0u8],
        ]
    } else if c == 'C' {
        seq![
            seq![0u8, 3u8, 3u8, 3u8, 3u8, 3u8, 0u8],
            seq![3u8, 0u8, 0u8, 0u8, 0u8, 0u8, 3u8],
            seq![3u8, 0u8, 0u8, 0u8, 0u8, 0u8, 0u8],
            seq![3u8, 0u8, 0u8, 0u8, 0u8, 0u8, 0u8],
            seq![3u8, 0u8, 0u8, 0u8, 0u8, 0u8, 0u8],
            seq![3u8, 0u8, 0u8, 0u8, 0u8, 0u8, 3u8],
            seq![0u8, 3u8, 3u8, 3u8, 3u8, 3u8, 0u8],
        ]
    } else if c == 'D' {
        seq![
            seq![3u8, 3u8, 3u8, 3u8, 3u8, 3u8, 0u8],
            seq![3u8, 0u8, 0u8, 0u8, 0u8, 0u8, 3u8],
            seq![3u8, 0u8, 0u8, 0u8, 0u8, 0u8, 3u8],
            seq![3u8, 0u8, 0u8, 0u8, 0u8, 0u8, 3u8],
            seq![3u8, 0u8, 0u8, 0u8, 0u8, 0u8, 3u8],
            seq![3u8, 0u8, 0u8, 0u8, 0u8, 0u8, 3u8],
            seq![3u8, 3u8, 3u8, 3u8, 3u8, 3u8, 0u8],
        ]
    } else if c == 'E' {
        seq![
            seq![3u8, 3u8, 3u8, 3u8, 3u8, 3u8, 3u8],
            seq![3u8, 0u8, 0u8, 0u8, 0u8, 0u8, 0u8],
            seq![3u8, 0u8, 0u8, 0u8, 0u8, 0u8, 0u8],
            seq![3u8, 3u8, 3u8, 3u8, 3u8, 3u8, 0u8],
            seq![3u8, 0u8, 0u8, 0u8, 0u8, 0u8, 0u8],
            seq![3u8, 0u8, 0u8, 0u8, 0u8, 0u8, 0u8],
            seq![3u8, 3u8, 3u8, 3u8, 3u8, 3u8, 3u8],
        ]
    } else if c == 'F' {
        seq![
            seq![3u8, 3u8, 3u8, 3u8, 3u8, 3u8, 3u8],
            seq![3u8, 0u8, 0u8, 0u8, 0u8, 0u8, 0u8],
            seq![3u8, 0u8, 0u8, 0u8, 0u8, 0u8, 0u8],
            seq![3u8, 3u8, 3u8, 3u8, 3u8, 3u8, 0u8],
            seq![3u8, 0u8, 0u8, 0u8, 0u8, 0u8, 0u8],
            seq![3u8, 0u8, 0u8, 0u8, 0u8, 0u8, 0u8],
            seq![3u8, 0u8, 0u8, 0u8, 0u8, 0u8, 0u8],
        ]
    } else if c == 'G' {
        seq![
            seq![0u8, 3u8, 3u8, 3u8, 3u8, 3u8, 0u8],
            seq![3u8, 0u8, 0u8, 0u8, 0u8, 0u8, 3u8],
            seq![3u8, 0u8, 0u8, 0u8, 0u8, 0u8, 0u8],
            seq![3u8, 0u8, 3u8, 3u8, 3u8, 3u8, 3u8],
            seq![3u8, 0u8, 0u8, 0u8, 0u8, 0u8, 3u8],
            seq![3u8, 0u8, 0u8, 0u8, 0u8, 0u8, 3u8],
            seq![0u8, 3u8, 3u8, 3u8, 3u8, 3u8, 0u8],
        ]
    } else if c == 'H' {
        seq![
            seq![3u8, 0u8, 0u8, 0u8, 0u8, 0u8, 3u8],
            seq![3u8, 0u8, 0u8, 0u8, 0u8, 0u8, 3u8],
            seq![3u8, 0u8, 0u8, 0u8, 0u8, 0u8, 3u8],
            seq![3u8, 3u8, 3u8, 3u8, 3u8, 3u8, 3u8],
            seq![3u8, 0u8, 0u8, 0u8, 0u8, 0u8, 3u8],
            seq![3u8, 0u8, 0u8, 0u8, 0u8, 0u8, 3u8],
            seq![3u8, 0u8, 0u8, 0u8, 0u8, 0u8, 3u8],
        ]
    } else if c == 'I' {
        seq![
            seq![3u8, 3u8, 3u8, 3u8, 3u8, 3u8, 3u8],
            seq![0u8, 0u8, 0u8, 3u8, 0u8, 0u8, 0u8],
            seq![0u8, 0u8, 0u8, 3u8, 0u8, 0u8, 0u8],
            seq![0u8, 0u8, 0u8, 3u8, 0u8, 0u8, 0u8],
            seq![0u8, 0u8, 0u8, 3u8, 0u8, 0u8, 0u8],
            seq![0u8, 0u8, 0u8, 3u8, 0u8, 0u8, 0u8],
            seq![3u8, 3u8, 3u8, 3u8, 3u8, 3u8, 3u8],
        ]
    } else if c == 'J' {
        seq![
            seq![3u8, 3u8, 3u8, 3u8, 3u8, 3u8, 3u8],
            seq![0u8, 0u8, 0u8, 0u8, 0u8, 3u8, 0u8],
            seq![0u8, 0u8, 0u8, 0u8, 0u8, 3u8, 0u8],
            seq![0u8, 0u8, 0u8, 0u8, 0u8, 3u8, 0u8],
            seq![0u8, 0u8, 0u8, 0u8, 0u8, 3u8, 0u8],
            seq![3u8, 0u8, 0u8, 0u8, 0u8, 3u8, 0u8],
            seq![0u8, 3u8, 3u8, 3u8, 3u8, 0u8, 0u8],
        ]
    } else if c == 'K' {
        seq![
            seq![3u8, 0u8, 0u8, 0u8, 0u8, 3u8, 0u8],
            seq![3u8, 0u8, 0u8, 0u8, 3u8, 0u8, 0u8],
            seq![3u8, 0u8, 0u8, 3u8, 0u8, 0u8, 0u8],
            seq![3u8, 3u8, 3u8, 0u8, 0u8, 0u8, 0u8],
            seq![3u8, 0u8, 0u8, 3u8, 0u8, 0u8, 0u8],
            seq![3u8, 0u8, 0u8, 0u8, 3u8, 0u8, 0u8],
            seq![3u8, 0u8, 0u8, 0u8, 0u8, 3u8, 0u8],
        ]
    } else if c == 'L' {
        seq![
            seq![3u8, 0u8, 0u8, 0u8, 0u8, 0u8, 0u8],
            seq![3u8, 0u8, 0u8, 0u8, 0u8, 0u8, 0u8],
            seq![3u8, 0u8, 0u8, 0u8, 0u8, 0u8, 0u8],
            seq![3u8, 0u8, 0u8, 0u8, 0u8, 0u8, 0u8],
            seq![3u8, 0u8, 0u8, 0u8, 0u8, 0u8, 0u8],
            seq![3u8, 0u8, 0u8, 0u8, 0u8, 0u8, 0u8],
            seq![3u8, 3u8, 3u8, 3u8, 3u8, 3u8, 3u8],
        ]
    } else if c == 'M' {
        seq![
            seq![3u8, 0u8, 0u8, 0u8, 0u8, 0u8, 3u8],
            seq![3u8, 3u8, 0u8, 0u8, 0u8, 3u8, 3u8],
            seq![3u8, 0u8, 3u8, 0u8, 3u8, 0u8, 3u8],
            seq![3u8, 0u8, 0u8, 3u8, 0u8, 0u8, 3u8],
            seq![3u8, 0u8, 0u8, 0u8, 0u8, 0u8, 3u8],
            seq![3u8, 0u8, 0u8, 0u8, 0u8, 0u8, 3u8],
            seq![3u8, 0u8, 0u8, 0u8, 0u8, 0u8, 3u8],
        ]
    } else if c == 'N' {
        seq![
            seq![3u8, 0u8, 0u8, 0u8, 0u8, 0u8, 3u8],
            seq![3u8, 3u8, 0u8, 0u8, 0u8, 0u8, 3u8],
            seq![3u8, 0u8, 3u8, 0u8, 0u8, 0u8, 3u8],
            seq![3u8, 0u8, 0u8, 3u8, 0u8, 0u8, 3u8],
            seq![3u8, 0u8, 0u8, 0u8, 3u8, 0u8, 3u8],
            seq![3u8, 0u8, 0u8, 0u8, 0u8, 3u8, 3u8],
            seq![3u8, 0u8, 0u8, 0u8, 0u8, 0u8, 3u8],
        ]
    } else if c == 'O' {
        seq![
            seq![0u8, 3u8, 3u8, 3u8, 3u8, 3u8, 0u8],
            seq![3u8, 0u8, 0u8, 0u8, 0u8, 0u8, 3u8],
            seq![3u8, 0u8, 0u8, 0u8, 0u8, 0u8, 3u8],
            seq![3u8, 0u8, 0u8, 0u8, 0u8, 0u8, 3u8],
            seq![3u8, 0u8, 0u8, 0u8, 0u8, 0u8, 3u8],
            seq![3u8, 0u8, 0u8, 0u8, 0u8, 0u8, 3u8],
            seq![0u8, 3u8, 3u8, 3u8, 3u8, 3u8, 0u8],
        ]
    } else if c == 'P' {
        seq![
            seq![3u8, 3u8, 3u8, 3u8, 3u8, 3u8, 0u8],
            seq![3u8, 0u8, 0u8, 0u8, 0u8, 0u8, 3u8],
            seq![3u8, 0u8, 0u8, 0u8, 0u8, 0u8, 3u8],
            seq![3u8, 3u8, 3u8, 3u8, 3u8, 3u8, 0u8],
            seq![3u8, 0u8, 0u8, 0u8, 0u8, 0u8, 0u8],
            seq![3u8, 0u8, 0u8, 0u8, 0u8, 0u8, 0u8],
            seq![3u8, 0u8, 0u8, 0u8, 0u8, 0u8, 0u8],
        ]
    } else if c == 'Q' {
        seq![
            seq![0u8, 3u8, 3u8, 3u8, 3u8, 3u8, 0u8],
            seq![3u8, 0u8, 0u8, 0u8, 0u8, 0u8, 3u8],
            seq![3u8, 0u8, 0u8, 0u8, 0u8, 0u8, 3u8],
            seq![3u8, 0u8, 0u8, 0u8, 0u8, 0u8, 3u8],
            seq![3u8, 0u8, 0u8, 0u8, 3u8, 0u8, 3u8],
            seq![3u8, 0u8, 0u8, 0u8, 0u8, 3u8, 0u8],
            seq![0u8, 3u8, 3u8, 3u8, 3u8, 0u8, 3u8],
        ]
    } else if c == 'R' {
        seq![
            seq![3u8, 3u8, 3u8, 3u8, 3u8, 3u8, 0u8],
            seq![3u8, 0u8, 0u8, 0u8, 0u8, 0u8, 3u8],
            seq![3u8, 0u8, 0u8, 0u8, 0u8, 0u8, 3u8],
            seq![3u8, 3u8, 3u8, 3u8, 3u8, 3u8, 0u8],
            seq![3u8, 0u8, 0u8, 3u8, 0u8, 0u8, 0u8],
            seq![3u8, 0u8, 0u8, 0u8, 3u8, 0u8, 0u8],
            seq![3u8, 0u8, 0u8, 0u8, 0u8, 3u8, 0u8],
        ]
    } else if c == 'S' {
        seq![
            seq![0u8, 3u8, 3u8, 3u8, 3u8, 3u8, 3u8],
            seq![3u8, 0u8, 0u8, 0u8, 0u8, 0u8, 0u8],
            seq![3u8, 0u8, 0u8, 0u8, 0u8, 0u8, 0u8],
            seq![0u8, 3u8, 3u8, 3u8, 3u8, 3u8, 0u8],
            seq![0u8, 0u8, 0u8, 0u8, 0u8, 0u8, 3u8],
            seq![0u8, 0u8, 0u8, 0u8, 0u8, 0u8, 3u8],
            seq![3u8, 3u8, 3u8, 3u8, 3u8, 3u8, 0u8],
        ]
    } else if c == 'T' {
        seq![
            seq![3u8, 3u8, 3u8, 3u8, 3u8, 3u8, 3u8],
            seq![0u8, 0u8, 0u8, 3u8, 0u8, 0u8, 0u8],
            seq![0u8, 0u8, 0u8, 3u8, 0u8, 0u8, 0u8],
            seq![0u8, 0u8, 0u8, 3u8, 0u8, 0u8, 0u8],
            seq![0u8, 0u8, 0u8, 3u8, 0u8, 0u8, 0u8],
            seq![0u8, 0u8, 0u8, 3u8, 0u8, 0u8, 0u8],
            seq![0u8, 0u8, 0u8, 3u8, 0u8, 0u8, 0u8],
        ]
    } else if c == 'U' {
        seq![
            seq![3u8, 0u8, 0u8, 0u8, 0u8, 0u8, 3u8],
            seq![3u8, 0u8, 0u8, 0u8, 0u8, 0u8, 3u8],
            seq![3u8, 0u8, 0u8, 0u8, 0u8, 0u8, 3u8],
            seq![3u8, 0u8, 0u8, 0u8, 0u8, 0u8, 3u8],
            seq![3u8, 0u8, 0u8, 0u8, 0u8, 0u8, 3u8],
            seq![3u8, 0u8, 0u8, 0u8, 0u8, 0u8, 3u8],
            seq![0u8, 3u8, 3u8, 3u8, 3u8, 3u8, 0u8],
        ]
    } else if c == 'V' {
        seq![
            seq![3u8, 0u8, 0u8, 0u8, 0u8, 0u8, 3u8],
            seq![3u8, 0u8, 0u8, 0u8, 0u8, 0u8, 3u8],
            seq![3u8, 0u8, 0u8, 0u8, 0u8, 0u8, 3u8],
            seq![3u8, 0u8, 0u8, 0u8, 0u8, 0u8, 3u8],
            seq![3u8, 0u8, 0u8, 0u8, 0u8, 0u8, 3u8],
            seq![0u8, 3u8, 0u8, 0u8, 0u8, 3u8, 0u8],
            seq![0u8, 0u8, 3u8, 3u8, 3u8, 0u8, 0u8],
        ]
    } else if c == 'W' {
        seq![
            seq![3u8, 0u8, 0u8, 0u8, 0u8, 0u8, 3u8],
            seq![3u8, 0u8, 0u8, 0u8, 0u8, 0u8, 3u8],
            seq![3u8, 0u8, 0u8, 0u8, 0u8, 0u8, 3u8],
            seq![3u8, 0u8, 0u8, 3u8, 0u8, 0u8, 3u8],
            seq![3u8, 0u8, 3u8, 0u8, 3u8, 0u8, 3u8],
            seq![3u8, 3u8, 0u8, 0u8, 0u8, 3u8, 3u8],
            seq![3u8, 0u8, 0u8, 0u8, 0u8, 0u8, 3u8],
        ]
    } else if c == 'X' {
        seq![
            seq![3u8, 0u8, 0u8, 0u8, 0u8, 0u8, 3u8],
            seq![0u8, 3u8, 0u8, 0u8, 0u8, 3u8, 0u8],
            seq![0u8, 0u8, 3u8, 0u8, 3u8, 0u8, 0u8],
            seq![0u8, 0u8, 0u8, 3u8, 0u8, 0u8, 0u8],
            seq![0u8, 0u8, 3u8, 0u8, 3u8, 0u8, 0u8],
            seq![0u8, 3u8, 0u8, 0u8, 0u8, 3u8, 0u8],
            seq![3u8, 0u8, 0u8, 0u8, 0u8, 0u8, 3u8],
        ]
    } else if c == 'Y' {
        seq![
            seq![3u8, 0u8, 0u8, 0u8, 0u8, 0u8, 3u8],
            seq![0u8, 3u8, 0u8, 0u8, 0u8, 3u8, 0u8],
            seq![0u8, 0u8, 3u8, 0u8, 3u8, 0u8, 0u8],
            seq![0u8, 0u8, 0u8, 3u8, 0u8, 0u8, 0u8],
            seq![0u8, 0u8, 0u8, 3u8, 0u8, 0u8, 0u8],
            seq![0u8, 0u8, 0u8, 3u8, 0u8, 0u8, 0u8],
            seq![0u8, 0u8, 0u8, 3u8, 0u8, 0u8, 0u8],
        ]
    } else if c == 'Z' {
        seq![
            seq![3u8, 3u8, 3u8, 3u8, 3u8, 3u8, 3u8],
            seq![0u8, 0u8, 0u8, 0u8, 0u8, 3u8, 0u8],
            seq![0u8, 0u8, 0u8, 0u8, 3u8, 0u8, 0u8],
            seq![0u8, 0u8, 0u8, 3u8, 0u8, 0u8, 0u8],
            seq![0u8, 0u8, 3u8, 0u8, 0u8, 0u8, 0u8],
            seq![0u8, 3u8, 0u8, 0u8, 0u8, 0u8, 0u8],
            seq![3u8, 3u8, 3u8, 3u8, 3u8, 3u8, 3u8],
        ]
    } else if c == ' ' {
        seq![
            seq![0u8, 0u8, 0u8, 0u8, 0u8, 0u8, 0u8],
            seq![0u8, 0u8, 0u8, 0u8, 0u8, 0u8, 0u8],
            seq![0u8, 0u8, 0u8, 0u8, 0u8, 0u8, 0u8],
            seq![0u8, 0u8, 0u8, 0u8, 0u8, 0u8, 0u8],
            seq![0u8, 0u8, 0u8, 0u8, 0u8, 0u8, 0u8],
            seq![0u8, 0u8, 0u8, 0u8, 0u8, 0u8, 0u8],
            seq![0u8, 0u8, 0u8, 0u8, 0u8, 0u8, 0u8],
        ]
    } else {
        Seq::empty()
    }
}

/// The glyph bitmap each known name stands for: the fixed table, written
/// out so that the grid builders' contracts can speak of the exact cells
/// they produce. Unknown names map to the empty bitmap.
pub open spec fn glyph_rows_spec(name: Seq<char>) -> Seq<Seq<u8>> {
    if name.len() == 1 {
        glyph_rows_char(name[0])
    } else if name == "heart"@ {
        seq![
            seq![0u8, 4u8, 4u8, 0u8, 4u8, 4u8, 0u8],
            seq![4u8, 2u8, 2u8, 4u8, 2u8, 2u8, 4u8],
            seq![4u8, 2u8, 2u8, 2u8, 2u8, 2u8, 4u8],
            seq![4u8, 2u8, 2u8, 2u8, 2u8, 2u8, 4u8],
            seq![0u8, 4u8, 2u8, 2u8, 2u8, 4u8, 0u8],
            seq![0u8, 0u8, 4u8, 2u8, 4u8, 0u8, 0u8],
            seq![0u8, 0u8, 0u8, 4u8, 0u8, 0u8, 0u8],
        ]
    } else if name == "octocat"@ {
        seq![
            seq![0u8, 0u8, 0u8, 4u8, 0u8, 0u8, 0u8, 4u8, 0u8],
            seq![0u8, 0u8, 4u8, 4u8, 4u8, 4u8, 4u8, 4u8, 4u8],
            seq![0u8, 0u8, 4u8, 1u8, 3u8, 3u8, 3u8, 1u8, 4u8],
            seq![0u8, 0u8, 4u8, 3u8, 3u8, 3u8, 3u8, 3u8, 4u8],
            seq![4u8, 0u8, 3u8, 4u8, 3u8, 3u8, 3u8, 4u8, 3u8],
            seq![0u8, 4u8, 0u8, 0u8, 4u8, 4u8, 4u8, 0u8, 0u8],
            seq![0u8, 0u8, 4u8, 4u8, 4u8, 4u8, 4u8, 4u8, 4u8],
        ]
    } else {
        Seq::empty()
    }
}

/// Every cell of the bitmap is an intensity of at most four.
pub open spec fn pattern_cells_le4(rows: Seq<Seq<u8>>) -> bool {
    forall|r: int, c: int|
        0 <= r < rows.len() && 0 <= c < rows[r].len() ==> (#[trigger] rows[r][c]) <= 4
}

/// Every row of the bitmap is exactly `w` columns wide.
pub open spec fn pattern_width(rows: Seq<Seq<u8>>, w: int) -> bool {
    forall|r: int| 0 <= r < rows.len() ==> (#[trigger] rows[r]).len() == w
}

/// The spec table is well formed for every known name: seven rows, every
/// cell an intensity of at most four, letter and space glyphs seven
/// columns wide, the named shapes seven and nine columns wide.
#[verifier::rlimit(100)]
pub proof fn lemma_glyph_rows_wf(name: Seq<char>)
    requires
        is_known_pattern_name(name),
    ensures
        glyph_rows_spec(name).len() == 7,
        pattern_cells_le4(glyph_rows_spec(name)),
        name.len() == 1 ==> pattern_width(glyph_rows_spec(name), 7),
        name == "heart"@ ==> pattern_width(glyph_rows_spec(name), 7),
        name == "octocat"@ ==> pattern_width(glyph_rows_spec(name), 9),
{
    reveal_strlit("heart");
    reveal_strlit("octocat");
    if name.len() == 1 {
        let c = name[0];
        assert(is_supported_char(c));
        if c == ' ' {
            assert(pattern_width(glyph_rows_spec(name), 7));
            assert(pattern_cells_le4(glyph_rows_spec(name)));
        } else {
            let u = c as u32;
            assert(65 <= u && u <= 90);
            if u == 65 {
                vstd::utf8::char_u32_cast(c, u);
                vstd::utf8::char_u32_cast('A', u);
                assert(c == 'A');
                assert(pattern_width(glyph_rows_spec(name), 7));
                assert(pattern_cells_le4(glyph_rows_spec(name)));
            } else if u == 66 {
                vstd::utf8::char_u32_cast(c, u);
                vstd::utf8::char_u32_cast('B', u);
                assert(c == 'B');
                assert(pattern_width(glyph_rows_spec(name), 7));
                assert(pattern_cells_le4(glyph_rows_spec(name)));
            } else if u == 67 {
                vstd::utf8::char_u32_cast(c, u);
                vstd::utf8::char_u32_cast('C', u);
                assert(c == 'C');
                assert(pattern_width(glyph_rows_spec(name), 7));
                assert(pattern_cells_le4(glyph_rows_spec(name)));
            } else if u == 68 {
                vstd::utf8::char_u32_cast(c, u);
                vstd::utf8::char_u32_cast('D', u);
                assert(c == 'D');
                assert(pattern_width(glyph_rows_spec(name), 7));
                assert(pattern_cells_le4(glyph_rows_spec(name)));
            } else if u == 69 {
                vstd::utf8::char_u32_cast(c, u);
                vstd::utf8::char_u32_cast('E', u);
                assert(c == 'E');
                assert(pattern_width(glyph_rows_spec(name), 7));
                assert(pattern_cells_le4(glyph_rows_spec(name)));
            } else if u == 70 {
                vstd::utf8::char_u32_cast(c, u);
                vstd::utf8::char_u32_cast('F', u);
                assert(c == 'F');
                assert(pattern_width(glyph_rows_spec(name), 7));
                assert(pattern_cells_le4(glyph_rows_spec(name)));
            } else if u == 71 {
                vstd::utf8::char_u32_cast(c, u);
                vstd::utf8::char_u32_cast('G', u);
                assert(c == 'G');
                assert(pattern_width(glyph_rows_spec(name), 7));
                assert(pattern_cells_le4(glyph_rows_spec(name)));
            } else if u == 72 {
                vstd::utf8::char_u32_cast(c, u);
                vstd::utf8::char_u32_cast('H', u);
                assert(c == 'H');
                assert(pattern_width(glyph_rows_spec(name), 7));
                assert(pattern_cells_le4(glyph_rows_spec(name)));
            } else if u == 73 {
                vstd::utf8::char_u32_cast(c, u);
                vstd::utf8::char_u32_cast('I', u);
                assert(c == 'I');
                assert(pattern_width(glyph_rows_spec(name), 7));
                assert(pattern_cells_le4(glyph_rows_spec(name)));
            } else if u == 74 {
                vstd::utf8::char_u32_cast(c, u);
                vstd::utf8::char_u32_cast('J', u);
                assert(c == 'J');
                assert(pattern_width(glyph_rows_spec(name), 7));
                assert(pattern_cells_le4(glyph_rows_spec(name)));
            } else if u == 75 {
                vstd::utf8::char_u32_cast(c, u);
                vstd::utf8::char_u32_cast('K', u);
                assert(c == 'K');
                assert(pattern_width(glyph_rows_spec(name), 7));
                assert(pattern_cells_le4(glyph_rows_spec(name)));
            } else if u == 76 {
                vstd::utf8::char_u32_cast(c, u);
                vstd::utf8::char_u32_cast('L', u);
                assert(c == 'L');
                assert(pattern_width(glyph_rows_spec(name), 7));
                assert(pattern_cells_le4(glyph_rows_spec(name)));
            } else if u == 77 {
                vstd::utf8::char_u32_cast(c, u);
                vstd::utf8::char_u32_cast('M', u);
                assert(c == 'M');
                assert(pattern_width(glyph_rows_spec(name), 7));
                assert(pattern_cells_le4(glyph_rows_spec(name)));
            } else if u == 78 {
                vstd::utf8::char_u32_cast(c, u);
                vstd::utf8::char_u32_cast('N', u);
                assert(c == 'N');
                assert(pattern_width(glyph_rows_spec(name), 7));
                assert(pattern_cells_le4(glyph_rows_spec(name)));
            } else if u == 79 {
                vstd::utf8::char_u32_cast(c, u);
                vstd::utf8::char_u32_cast('O', u);
                assert(c == 'O');
                assert(pattern_width(glyph_rows_spec(name), 7));
                assert(pattern_cells_le4(glyph_rows_spec(name)));
            } else if u == 80 {
                vstd::utf8::char_u32_cast(c, u);
                vstd::utf8::char_u32_cast('P', u);
                assert(c == 'P');
                assert(pattern_width(glyph_rows_spec(name), 7));
                assert(pattern_cells_le4(glyph_rows_spec(name)));
            } else if u == 81 {
                vstd::utf8::char_u32_cast(c, u);
                vstd::utf8::char_u32_cast('Q', u);
                assert(c == 'Q');
                assert(pattern_width(glyph_rows_spec(name), 7));
                assert(pattern_cells_le4(glyph_rows_spec(name)));
            } else if u == 82 {
                vstd::utf8::char_u32_cast(c, u);
                vstd::utf8::char_u32_cast('R', u);
                assert(c == 'R');
                assert(pattern_width(glyph_rows_spec(name), 7));
                assert(pattern_cells_le4(glyph_rows_spec(name)));
            } else if u == 83 {
                vstd::utf8::char_u32_cast(c, u);
                vstd::utf8::char_u32_cast('S', u);
                assert(c == 'S');
                assert(pattern_width(glyph_rows_spec(name), 7));
                assert(pattern_cells_le4(glyph_rows_spec(name)));
            } else if u == 84 {
                vstd::utf8::char_u32_cast(c, u);
                vstd::utf8::char_u32_cast('T', u);
                assert(c == 'T');
                assert(pattern_width(glyph_rows_spec(name), 7));
                assert(pattern_cells_le4(glyph_rows_spec(name)));
            } else if u == 85 {
                vstd::utf8::char_u32_cast(c, u);
                vstd::utf8::char_u32_cast('U', u);
                assert(c == 'U');
                assert(pattern_width(glyph_rows_spec(name), 7));
                assert(pattern_cells_le4(glyph_rows_spec(name)));
            } else if u == 86 {
                vstd::utf8::char_u32_cast(c, u);
                vstd::utf8::char_u32_cast('V', u);
                assert(c == 'V');
                assert(pattern_width(glyph_rows_spec(name), 7));
                assert(pattern_cells_le4(glyph_rows_spec(name)));
            } else if u == 87 {
                vstd::utf8::char_u32_cast(c, u);
                vstd::utf8::char_u32_cast('W', u);
                assert(c == 'W');
                assert(pattern_width(glyph_rows_spec(name), 7));
                assert(pattern_cells_le4(glyph_rows_spec(name)));
            } else if u == 88 {
                vstd::utf8::char_u32_cast(c, u);
                vstd::utf8::char_u32_cast('X', u);
                assert(c == 'X');
                assert(pattern_width(glyph_rows_spec(name), 7));
                assert(pattern_cells_le4(glyph_rows_spec(name)));
            } else if u == 89 {
                vstd::utf8::char_u32_cast(c, u);
                vstd::utf8::char_u32_cast('Y', u);
                assert(c == 'Y');
                assert(pattern_width(glyph_rows_spec(name), 7));
                assert(pattern_cells_le4(glyph_rows_spec(name)));
            } else if u == 90 {
                vstd::utf8::char_u32_cast(c, u);
                vstd::utf8::char_u32_cast('Z', u);
                assert(c == 'Z');
                assert(pattern_width(glyph_rows_spec(name), 7));
                assert(pattern_cells_le4(glyph_rows_spec(name)));
            } else {
                assert(false);
            }
        }
    } else if name == "heart"@ {
        assert(pattern_width(glyph_rows_spec(name), 7));
        assert(pattern_cells_le4(glyph_rows_spec(name)));
    } else {
        assert(name == "octocat"@);
        assert(pattern_width(glyph_rows_spec(name), 9));
        assert(pattern_cells_le4(glyph_rows_spec(name)));
    }
}

/// The stored bitmap under the name `A`.
fn glyph_rows_a() -> (r: Pattern)
    ensures
        r.deep_view() == glyph_rows_spec(seq!['A']),
        r@.len() == 7,
{
    let rows: Pattern =
    vec![
        vec![0u8, 3u8, 3u8, 3u8, 3u8, 3u8, 0u8],
        vec![3u8, 0u8, 0u8, 0u8, 0u8, 0u8, 3u8],
        vec![3u8, 0u8, 0u8, 0u8, 0u8, 0u8, 3u8],
        vec![3u8, 3u8, 3u8, 3u8, 3u8, 3u8, 3u8],
        vec![3u8, 0u8, 0u8, 0u8, 0u8, 0u8, 3u8],
        vec![3u8, 0u8, 0u8, 0u8, 0u8, 0u8, 3u8],
        vec![3u8, 0u8, 0u8, 0u8, 0u8, 0u8, 3u8],
    ];
    proof {
        assert(rows.deep_view() =~~= glyph_rows_spec(seq!['A']));
    }
    rows
}

/// The stored bitmap under the name `B`.
fn glyph_rows_b() -> (r: Pattern)
    ensures
        r.deep_view() == glyph_rows_spec(seq!['B']),
        r@.len() == 7,
{
    let rows: Pattern =
    vec![
        vec![3u8, 3u8, 3u8, 3u8, 3u8, 3u8, 0u8],
        vec![3u8, 0u8, 0u8, 0u8, 0u8, 0u8, 3u8],
        vec![3u8, 0u8, 0u8, 0u8, 0u8, 0u8, 3u8],
        vec![3u8, 3u8, 3u8, 3u8, 3u8, 3u8, 0u8],
        vec![3u8, 0u8, 0u8, 0u8, 0u8, 0u8, 3u8],
        vec![3u8, 0u8, 0u8, 0u8, 0u8, 0u8, 3u8],
        vec![3u8, 3u8, 3u8, 3u8, 3u8, 3u8, 0u8],
    ];
    proof {
        assert(rows.deep_view() =~~= glyph_rows_spec(seq!['B']));
    }
    rows
}

/// The stored bitmap under the name `C`.
fn glyph_rows_c() -> (r: Pattern)
    ensures
        r.deep_view() == glyph_rows_spec(seq!['C']),
        r@.len() == 7,
{
    let rows: Pattern =
    vec![
        vec![0u8, 3u8, 3u8, 3u8, 3u8, 3u8, 0u8],
        vec![3u8, 0u8, 0u8, 0u8, 0u8, 0u8, 3u8],
        vec![3u8, 0u8, 0u8, 0u8, 0u8, 0u8, 0u8],
        vec![3u8, 0u8, 0u8, 0u8, 0u8, 0u8, 0u8],
        vec![3u8, 0u8, 0u8, 0u8, 0u8, 0u8, 0u8],
        vec![3u8, 0u8, 0u8, 0u8, 0u8, 0u8, 3u8],
        vec![0u8, 3u8, 3u8, 3u8, 3u8, 3u8, 0u8],
    ];
    proof {
        assert(rows.deep_view() =~~= glyph_rows_spec(seq!['C']));
    }
    rows
}

/// The stored bitmap under the name `D`.
fn glyph_rows_d() -> (r: Pattern)
    ensures
        r.deep_view() == glyph_rows_spec(seq!['D']),
        r@.len() == 7,
{
    let rows: Pattern =
    vec![
        vec![3u8, 3u8, 3u8, 3u8, 3u8, 3u8, 0u8],
        vec![3u8, 0u8, 0u8, 0u8, 0u8, 0u8, 3u8],
        vec![3u8, 0u8, 0u8, 0u8, 0u8, 0u8, 3u8],
        vec![3u8, 0u8, 0u8, 0u8, 0u8, 0u8, 3u8],
        vec![3u8, 0u8, 0u8, 0u8, 0u8, 0u8, 3u8],
        vec![3u8, 0u8, 0u8, 0u8, 0u8, 0u8, 3u8],
        vec![3u8, 3u8, 3u8, 3u8, 3u8, 3u8, 0u8],
    ];
    proof {
        assert(rows.deep_view() =~~= glyph_rows_spec(seq!['D']));
    }
    rows
}

/// The stored bitmap under the name `E`.
fn glyph_rows_e() -> (r: Pattern)
    ensures
        r.deep_view() == glyph_rows_spec(seq!['E']),
        r@.len() == 7,
{
    let rows: Pattern =
    vec![
        vec![3u8, 3u8, 3u8, 3u8, 3u8, 3u8, 3u8],
        vec![3u8, 0u8, 0u8, 0u8, 0u8, 0u8, 0u8],
        vec![3u8, 0u8, 0u8, 0u8, 0u8, 0u8, 0u8],
        vec![3u8, 3u8, 3u8, 3u8, 3u8, 3u8, 0u8],
        vec![3u8, 0u8, 0u8, 0u8, 0u8, 0u8, 0u8],
        vec![3u8, 0u8, 0u8, 0u8, 0u8, 0u8, 0u8],
        vec![3u8, 3u8, 3u8, 3u8, 3u8, 3u8, 3u8],
    ];
    proof {
        assert(rows.deep_view() =~~= glyph_rows_spec(seq!['E']));
    }
    rows
}

/// The stored bitmap under the name `F`.
fn glyph_rows_f() -> (r: Pattern)
    ensures
        r.deep_view() == glyph_rows_spec(seq!['F']),
        r@.len() == 7,
{
    let rows: Pattern =
    vec![
        vec![3u8, 3u8, 3u8, 3u8, 3u8, 3u8, 3u8],
        vec![3u8, 0u8, 0u8, 0u8, 0u8, 0u8, 0u8],
        vec![3u8, 0u8, 0u8, 0u8, 0u8, 0u8, 0u8],
        vec![3u8, 3u8, 3u8, 3u8, 3u8, 3u8, 0u8],
        vec![3u8, 0u8, 0u8, 0u8, 0u8, 0u8, 0u8],
        vec![3u8, 0u8, 0u8, 0u8, 0u8, 0u8, 0u8],
        vec![3u8, 0u8, 0u8, 0u8, 0u8, 0u8, 0u8],
    ];
    proof {
        assert(rows.deep_view() =~~= glyph_rows_spec(seq!['F']));
    }
    rows
}

/// The stored bitmap under the name `G`.
fn glyph_rows_g() -> (r: Pattern)
    ensures
        r.deep_view() == glyph_rows_spec(seq!['G']),
        r@.len() == 7,
{
    let rows: Pattern =
    vec![
        vec![0u8, 3u8, 3u8, 3u8, 3u8, 3u8, 0u8],
        vec![3u8, 0u8, 0u8, 0u8, 0u8, 0u8, 3u8],
        vec![3u8, 0u8, 0u8, 0u8, 0u8, 0u8, 0u8],
        vec![3u8, 0u8, 3u8, 3u8, 3u8, 3u8, 3u8],
        vec![3u8, 0u8, 0u8, 0u8, 0u8, 0u8, 3u8],
        vec![3u8, 0u8, 0u8, 0u8, 0u8, 0u8, 3u8],
        vec![0u8, 3u8, 3u8, 3u8, 3u8, 3u8, 0u8],
    ];
    proof {
        assert(rows.deep_view() =~~= glyph_rows_spec(seq!['G']));
    }
    rows
}

/// The stored bitmap under the name `H`.
fn glyph_rows_h() -> (r: Pattern)
    ensures
        r.deep_view() == glyph_rows_spec(seq!['H']),
        r@.len() == 7,
{
    let rows: Pattern =
    vec![
        vec![3u8, 0u8, 0u8, 0u8, 0u8, 0u8, 3u8],
        vec![3u8, 0u8, 0u8, 0u8, 0u8, 0u8, 3u8],
        vec![3u8, 0u8, 0u8, 0u8, 0u8, 0u8, 3u8],
        vec![3u8, 3u8, 3u8, 3u8, 3u8, 3u8, 3u8],
        vec![3u8, 0u8, 0u8, 0u8, 0u8, 0u8, 3u8],
        vec![3u8, 0u8, 0u8, 0u8, 0u8, 0u8, 3u8],
        vec![3u8, 0u8, 0u8, 0u8, 0u8, 0u8, 3u8],
    ];
    proof {
        assert(rows.deep_view() =~~= glyph_rows_spec(seq!['H']));
    }
    rows
}

/// The stored bitmap under the name `I`.
fn glyph_rows_i() -> (r: Pattern)
    ensures
        r.deep_view() == glyph_rows_spec(seq!['I']),
        r@.len() == 7,
{
    let rows: Pattern =
    vec![
        vec![3u8, 3u8, 3u8, 3u8, 3u8, 3u8, 3u8],
        vec![0u8, 0u8, 0u8, 3u8, 0u8, 0u8, 0u8],
        vec![0u8, 0u8, 0u8, 3u8, 0u8, 0u8, 0u8],
        vec![0u8, 0u8, 0u8, 3u8, 0u8, 0u8, 0u8],
        vec![0u8, 0u8, 0u8, 3u8, 0u8, 0u8, 0u8],
        vec![0u8, 0u8, 0u8, 3u8, 0u8, 0u8, 0u8],
        vec![3u8, 3u8, 3u8, 3u8, 3u8, 3u8, 3u8],
    ];
    proof {
        assert(rows.deep_view() =~~= glyph_rows_spec(seq!['I']));
    }
    rows
}

/// The stored bitmap under the name `J`.
fn glyph_rows_j() -> (r: Pattern)
    ensures
        r.deep_view() == glyph_rows_spec(seq!['J']),
        r@.len() == 7,
{
    let rows: Pattern =
    vec![
        vec![3u8, 3u8, 3u8, 3u8, 3u8, 3u8, 3u8],
        vec![0u8, 0u8, 0u8, 0u8, 0u8, 3u8, 0u8],
        vec![0u8, 0u8, 0u8, 0u8, 0u8, 3u8, 0u8],
        vec![0u8, 0u8, 0u8, 0u8, 0u8, 3u8, 0u8],
        vec![0u8, 0u8, 0u8, 0u8, 0u8, 3u8, 0u8],
        vec![3u8, 0u8, 0u8, 0u8, 0u8, 3u8, 0u8],
        vec![0u8, 3u8, 3u8, 3u8, 3u8, 0u8, 0u8],
    ];
    proof {
        assert(rows.deep_view() =~~= glyph_rows_spec(seq!['J']));
    }
    rows
}

/// The stored bitmap under the name `K`.
fn glyph_rows_k() -> (r: Pattern)
    ensures
        r.deep_view() == glyph_rows_spec(seq!['K']),
        r@.len() == 7,
{
    let rows: Pattern =
    vec![
        vec![3u8, 0u8, 0u8, 0u8, 0u8, 3u8, 0u8],
        vec![3u8, 0u8, 0u8, 0u8, 3u8, 0u8, 0u8],
        vec![3u8, 0u8, 0u8, 3u8, 0u8, 0u8, 0u8],
        vec![3u8, 3u8, 3u8, 0u8, 0u8, 0u8, 0u8],
        vec![3u8, 0u8, 0u8, 3u8, 0u8, 0u8, 0u8],
        vec![3u8, 0u8, 0u8, 0u8, 3u8, 0u8, 0u8],
        vec![3u8, 0u8, 0u8, 0u8, 0u8, 3u8, 0u8],
    ];
    proof {
        assert(rows.deep_view() =~~= glyph_rows_spec(seq!['K']));
    }
    rows
}

/// The stored bitmap under the name `L`.
fn glyph_rows_l() -> (r: Pattern)
    ensures
        r.deep_view() == glyph_rows_spec(seq!['L']),
        r@.len() == 7,
{
    let rows: Pattern =
    vec![
        vec![3u8, 0u8, 0u8, 0u8, 0u8, 0u8, 0u8],
        vec![3u8, 0u8, 0u8, 0u8, 0u8, 0u8, 0u8],
        vec![3u8, 0u8, 0u8, 0u8, 0u8, 0u8, 0u8],
        vec![3u8, 0u8, 0u8, 0u8, 0u8, 0u8, 0u8],
        vec![3u8, 0u8, 0u8, 0u8, 0u8, 0u8, 0u8],
        vec![3u8, 0u8, 0u8, 0u8, 0u8, 0u8, 0u8],
        vec![3u8, 3u8, 3u8, 3u8, 3u8, 3u8, 3u8],
    ];
    proof {
        assert(rows.deep_view() =~~= glyph_rows_spec(seq!['L']));
    }
    rows
}

/// The stored bitmap under the name `M`.
fn glyph_rows_m() -> (r: Pattern)
    ensures
        r.deep_view() == glyph_rows_spec(seq!['M']),
        r@.len() == 7,
{
    let rows: Pattern =
    vec![
        vec![3u8, 0u8, 0u8, 0u8, 0u8, 0u8, 3u8],
        vec![3u8, 3u8, 0u8, 0u8, 0u8, 3u8, 3u8],
        vec![3u8, 0u8, 3u8, 0u8, 3u8, 0u8, 3u8],
        vec![3u8, 0u8, 0u8, 3u8, 0u8, 0u8, 3u8],
        vec![3u8, 0u8, 0u8, 0u8, 0u8, 0u8, 3u8],
        vec![3u8, 0u8, 0u8, 0u8, 0u8, 0u8, 3u8],
        vec![3u8, 0u8, 0u8, 0u8, 0u8, 0u8, 3u8],
    ];
    proof {
        assert(rows.deep_view() =~~= glyph_rows_spec(seq!['M']));
    }
    rows
}

/// The stored bitmap under the name `N`.
fn glyph_rows_n() -> (r: Pattern)
    ensures
        r.deep_view() == glyph_rows_spec(seq!['N']),
        r@.len() == 7,
{
    let rows: Pattern =
    vec![
        vec![3u8, 0u8, 0u8, 0u8, 0u8, 0u8, 3u8],
        vec![3u8, 3u8, 0u8, 0u8, 0u8, 0u8, 3u8],
        vec![3u8, 0u8, 3u8, 0u8, 0u8, 0u8, 3u8],
        vec![3u8, 0u8, 0u8, 3u8, 0u8, 0u8, 3u8],
        vec![3u8, 0u8, 0u8, 0u8, 3u8, 0u8, 3u8],
        vec![3u8, 0u8, 0u8, 0u8, 0u8, 3u8, 3u8],
        vec![3u8, 0u8, 0u8, 0u8, 0u8, 0u8, 3u8],
    ];
    proof {
        assert(rows.deep_view() =~~= glyph_rows_spec(seq!['N']));
    }
    rows
}

/// The stored bitmap under the name `O`.
fn glyph_rows_o() -> (r: Pattern)
    ensures
        r.deep_view() == glyph_rows_spec(seq!['O']),
        r@.len() == 7,
{
    let rows: Pattern =
    vec![
        vec![0u8, 3u8, 3u8, 3u8, 3u8, 3u8, 0u8],
        vec![3u8, 0u8, 0u8, 0u8, 0u8, 0u8, 3u8],
        vec![3u8, 0u8, 0u8, 0u8, 0u8, 0u8, 3u8],
        vec![3u8, 0u8, 0u8, 0u8, 0u8, 0u8, 3u8],
        vec![3u8, 0u8, 0u8, 0u8, 0u8, 0u8, 3u8],
        vec![3u8, 0u8, 0u8, 0u8, 0u8, 0u8, 3u8],
        vec![0u8, 3u8, 3u8, 3u8, 3u8, 3u8, 0u8],
    ];
    proof {
        assert(rows.deep_view() =~~= glyph_rows_spec(seq!['O']));
    }
    rows
}

/// The stored bitmap under the name `P`.
fn glyph_rows_p() -> (r: Pattern)
    ensures
        r.deep_view() == glyph_rows_spec(seq!['P']),
        r@.len() == 7,
{
    let rows: Pattern =
    vec![
        vec![3u8, 3u8, 3u8, 3u8, 3u8, 3u8, 0u8],
        vec![3u8, 0u8, 0u8, 0u8, 0u8, 0u8, 3u8],
        vec![3u8, 0u8, 0u8, 0u8, 0u8, 0u8, 3u8],
        vec![3u8, 3u8, 3u8, 3u8, 3u8, 3u8, 0u8],
        vec![3u8, 0u8, 0u8, 0u8, 0u8, 0u8, 0u8],
        vec![3u8, 0u8, 0u8, 0u8, 0u8, 0u8, 0u8],
        vec![3u8, 0u8, 0u8, 0u8, 0u8, 0u8, 0u8],
    ];
    proof {
        assert(rows.deep_view() =~~= glyph_rows_spec(seq!['P']));
    }
    rows
}

/// The stored bitmap under the name `Q`.
fn glyph_rows_q() -> (r: Pattern)
    ensures
        r.deep_view() == glyph_rows_spec(seq!['Q']),
        r@.len() == 7,
{
    let rows: Pattern =
    vec![
        vec![0u8, 3u8, 3u8, 3u8, 3u8, 3u8, 0u8],
        vec![3u8, 0u8, 0u8, 0u8, 0u8, 0u8, 3u8],
        vec![3u8, 0u8, 0u8, 0u8, 0u8, 0u8, 3u8],
        vec![3u8, 0u8, 0u8, 0u8, 0u8, 0u8, 3u8],
        vec![3u8, 0u8, 0u8, 0u8, 3u8, 0u8, 3u8],
        vec![3u8, 0u8, 0u8, 0u8, 0u8, 3u8, 0u8],
        vec![0u8, 3u8, 3u8, 3u8, 3u8, 0u8, 3u8],
    ];
    proof {
        assert(rows.deep_view() =~~= glyph_rows_spec(seq!['Q']));
    }
    rows
}

/// The stored bitmap under the name `R`.
fn glyph_rows_r() -> (r: Pattern)
    ensures
        r.deep_view() == glyph_rows_spec(seq!['R']),
        r@.len() == 7,
{
    let rows: Pattern =
    vec![
        vec![3u8, 3u8, 3u8, 3u8, 3u8, 3u8, 0u8],
        vec![3u8, 0u8, 0u8, 0u8, 0u8, 0u8, 3u8],
        vec![3u8, 0u8, 0u8, 0u8, 0u8, 0u8, 3u8],
        vec![3u8, 3u8, 3u8, 3u8, 3u8, 3u8, 0u8],
        vec![3u8, 0u8, 0u8, 3u8, 0u8, 0u8, 0u8],
        vec![3u8, 0u8, 0u8, 0u8, 3u8, 0u8, 0u8],
        vec![3u8, 0u8, 0u8, 0u8, 0u8, 3u8, 0u8],
    ];
    proof {
        assert(rows.deep_view() =~~= glyph_rows_spec(seq!['R']));
    }
    rows
}

/// The stored bitmap under the name `S`.
fn glyph_rows_s() -> (r: Pattern)
    ensures
        r.deep_view() == glyph_rows_spec(seq!['S']),
        r@.len() == 7,
{
    let rows: Pattern =
    vec![
        vec![0u8, 3u8, 3u8, 3u8, 3u8, 3u8, 3u8],
        vec![3u8, 0u8, 0u8, 0u8, 0u8, 0u8, 0u8],
        vec![3u8, 0u8, 0u8, 0u8, 0u8, 0u8, 0u8],
        vec![0u8, 3u8, 3u8, 3u8, 3u8, 3u8, 0u8],
        vec![0u8, 0u8, 0u8, 0u8, 0u8, 0u8, 3u8],
        vec![0u8, 0u8, 0u8, 0u8, 0u8, 0u8, 3u8],
        vec![3u8, 3u8, 3u8, 3u8, 3u8, 3u8, 0u8],
    ];
    proof {
        assert(rows.deep_view() =~~= glyph_rows_spec(seq!['S']));
    }
    rows
}

/// The stored bitmap under the name `T`.
fn glyph_rows_t() -> (r: Pattern)
    ensures
        r.deep_view() == glyph_rows_spec(seq!['T']),
        r@.len() == 7,
{
    let rows: Pattern =
    vec![
        vec![3u8, 3u8, 3u8, 3u8, 3u8, 3u8, 3u8],
        vec![0u8, 0u8, 0u8, 3u8, 0u8, 0u8, 0u8],
        vec![0u8, 0u8, 0u8, 3u8, 0u8, 0u8, 0u8],
        vec![0u8, 0u8, 0u8, 3u8, 0u8, 0u8, 0u8],
        vec![0u8, 0u8, 0u8, 3u8, 0u8, 0u8, 0u8],
        vec![0u8, 0u8, 0u8, 3u8, 0u8, 0u8, 0u8],
        vec![0u8, 0u8, 0u8, 3u8, 0u8, 0u8, 0u8],
    ];
    proof {
        assert(rows.deep_view() =~~= glyph_rows_spec(seq!['T']));
    }
    rows
}

/// The stored bitmap under the name `U`.
fn glyph_rows_u() -> (r: Pattern)
    ensures
        r.deep_view() == glyph_rows_spec(seq!['U']),
        r@.len() == 7,
{
    let rows: Pattern =
    vec![
        vec![3u8, 0u8, 0u8, 0u8, 0u8, 0u8, 3u8],
        vec![3u8, 0u8, 0u8, 0u8, 0u8, 0u8, 3u8],
        vec![3u8, 0u8, 0u8, 0u8, 0u8, 0u8, 3u8],
        vec![3u8, 0u8, 0u8, 0u8, 0u8, 0u8, 3u8],
        vec![3u8, 0u8, 0u8, 0u8, 0u8, 0u8, 3u8],
        vec![3u8, 0u8, 0u8, 0u8, 0u8, 0u8, 3u8],
        vec![0u8, 3u8, 3u8, 3u8, 3u8, 3u8, 0u8],
    ];
    proof {
        assert(rows.deep_view() =~~= glyph_rows_spec(seq!['U']));
    }
    rows
}

/// The stored bitmap under the name `V`.
fn glyph_rows_v() -> (r: Pattern)
    ensures
        r.deep_view() == glyph_rows_spec(seq!['V']),
        r@.len() == 7,
{
    let rows: Pattern =
    vec![
        vec![3u8, 0u8, 0u8, 0u8, 0u8, 0u8, 3u8],
        vec![3u8, 0u8, 0u8, 0u8, 0u8, 0u8, 3u8],
        vec![3u8, 0u8, 0u8, 0u8, 0u8, 0u8, 3u8],
        vec![3u8, 0u8, 0u8, 0u8, 0u8, 0u8, 3u8],
        vec![3u8, 0u8, 0u8, 0u8, 0u8, 0u8, 3u8],
        vec![0u8, 3u8, 0u8, 0u8, 0u8, 3u8, 0u8],
        vec![0u8, 0u8, 3u8, 3u8, 3u8, 0u8, 0u8],
    ];
    proof {
        assert(rows.deep_view() =~~= glyph_rows_spec(seq!['V']));
    }
    rows
}

/// The stored bitmap under the name `W`.
fn glyph_rows_w() -> (r: Pattern)
    ensures
        r.deep_view() == glyph_rows_spec(seq!['W']),
        r@.len() == 7,
{
    let rows: Pattern =
    vec![
        vec![3u8, 0u8, 0u8, 0u8, 0u8, 0u8, 3u8],
        vec![3u8, 0u8, 0u8, 0u8, 0u8, 0u8, 3u8],
        vec![3u8, 0u8, 0u8, 0u8, 0u8, 0u8, 3u8],
        vec![3u8, 0u8, 0u8, 3u8, 0u8, 0u8, 3u8],
        vec![3u8, 0u8, 3u8, 0u8, 3u8, 0u8, 3u8],
        vec![3u8, 3u8, 0u8, 0u8, 0u8, 3u8, 3u8],
        vec![3u8, 0u8, 0u8, 0u8, 0u8, 0u8, 3u8],
    ];
    proof {
        assert(rows.deep_view() =~~= glyph_rows_spec(seq!['W']));
    }
    rows
}

/// The stored bitmap under the name `X`.
fn glyph_rows_x() -> (r: Pattern)
    ensures
        r.deep_view() == glyph_rows_spec(seq!['X']),
        r@.len() == 7,
{
    let rows: Pattern =
    vec![
        vec![3u8, 0u8, 0u8, 0u8, 0u8, 0u8, 3u8],
        vec![0u8, 3u8, 0u8, 0u8, 0u8, 3u8, 0u8],
        vec![0u8, 0u8, 3u8, 0u8, 3u8, 0u8, 0u8],
        vec![0u8, 0u8, 0u8, 3u8, 0u8, 0u8, 0u8],
        vec![0u8, 0u8, 3u8, 0u8, 3u8, 0u8, 0u8],
        vec![0u8, 3u8, 0u8, 0u8, 0u8, 3u8, 0u8],
        vec![3u8, 0u8, 0u8, 0u8, 0u8, 0u8, 3u8],
    ];
    proof {
        assert(rows.deep_view() =~~= glyph_rows_spec(seq!['X']));
    }
    rows
}

/// The stored bitmap under the name `Y`.
fn glyph_rows_y() -> (r: Pattern)
    ensures
        r.deep_view() == glyph_rows_spec(seq!['Y']),
        r@.len() == 7,
{
    let rows: Pattern =
    vec![
        vec![3u8, 0u8, 0u8, 0u8, 0u8, 0u8, 3u8],
        vec![0u8, 3u8, 0u8, 0u8, 0u8, 3u8, 0u8],
        vec![0u8, 0u8, 3u8, 0u8, 3u8, 0u8, 0u8],
        vec![0u8, 0u8, 0u8, 3u8, 0u8, 0u8, 0u8],
        vec![0u8, 0u8, 0u8, 3u8, 0u8, 0u8, 0u8],
        vec![0u8, 0u8, 0u8, 3u8, 0u8, 0u8, 0u8],
        vec![0u8, 0u8, 0u8, 3u8, 0u8, 0u8, 0u8],
    ];
    proof {
        assert(rows.deep_view() =~~= glyph_rows_spec(seq!['Y']));
    }
    rows
}

/// The stored bitmap under the name `Z`.
fn glyph_rows_z() -> (r: Pattern)
    ensures
        r.deep_view() == glyph_rows_spec(seq!['Z']),
        r@.len() == 7,
{
    let rows: Pattern =
    vec![
        vec![3u8, 3u8, 3u8, 3u8, 3u8, 3u8, 3u8],
        vec![0u8, 0u8, 0u8, 0u8, 0u8, 3u8, 0u8],
        vec![0u8, 0u8, 0u8, 0u8, 3u8, 0u8, 0u8],
        vec![0u8, 0u8, 0u8, 3u8, 0u8, 0u8, 0u8],
        vec![0u8, 0u8, 3u8, 0u8, 0u8, 0u8, 0u8],
        vec![0u8, 3u8, 0u8, 0u8, 0u8, 0u8, 0u8],
        vec![3u8, 3u8, 3u8, 3u8, 3u8, 3u8, 3u8],
    ];
    proof {
        assert(rows.deep_view() =~~= glyph_rows_spec(seq!['Z']));
    }
    rows
}

/// The stored bitmap under the name `space`.
fn glyph_rows_space() -> (r: Pattern)
    ensures
        r.deep_view() == glyph_rows_spec(seq![' ']),
        r@.len() == 7,
{
    let rows: Pattern =
    vec![
        vec![0u8, 0u8, 0u8, 0u8, 0u8, 0u8, 0u8],
        vec![0u8, 0u8, 0u8, 0u8, 0u8, 0u8, 0u8],
        vec![0u8, 0u8, 0u8, 0u8, 0u8, 0u8, 0u8],
        vec![0u8, 0u8, 0u8, 0u8, 0u8, 0u8, 0u8],
        vec![0u8, 0u8, 0u8, 0u8, 0u8, 0u8, 0u8],
        vec![0u8, 0u8, 0u8, 0u8, 0u8, 0u8, 0u8],
        vec![0u8, 0u8, 0u8, 0u8, 0u8, 0u8, 0u8],
    ];
    proof {
        assert(rows.deep_view() =~~= glyph_rows_spec(seq![' ']));
    }
    rows
}

/// The stored bitmap under the name `heart`.
fn glyph_rows_heart() -> (r: Pattern)
    ensures
        r.deep_view() == glyph_rows_spec("heart"@),
        r@.len() == 7,
{
    let rows: Pattern =
    vec![
        vec![0u8, 4u8, 4u8, 0u8, 4u8, 4u8, 0u8],
        vec![4u8, 2u8, 2u8, 4u8, 2u8, 2u8, 4u8],
        vec![4u8, 2u8, 2u8, 2u8, 2u8, 2u8, 4u8],
        vec![4u8, 2u8, 2u8, 2u8, 2u8, 2u8, 4u8],
        vec![0u8, 4u8, 2u8, 2u8, 2u8, 4u8, 0u8],
        vec![0u8, 0u8, 4u8, 2u8, 4u8, 0u8, 0u8],
        vec![0u8, 0u8, 0u8, 4u8, 0u8, 0u8, 0u8],
    ];
    proof {
        reveal_strlit("heart");
        assert(rows.deep_view() =~~= glyph_rows_spec("heart"@));
    }
    rows
}

/// The stored bitmap under the name `octocat`.
fn glyph_rows_octocat() -> (r: Pattern)
    ensures
        r.deep_view() == glyph_rows_spec("octocat"@),
        r@.len() == 7,
{
    let rows: Pattern =
    vec![
        vec![0u8, 0u8, 0u8, 4u8, 0u8, 0u8, 0u8, 4u8, 0u8],
        vec![0u8, 0u8, 4u8, 4u8, 4u8, 4u8, 4u8, 4u8, 4u8],
        vec![0u8, 0u8, 4u8, 1u8, 3u8, 3u8, 3u8, 1u8, 4u8],
        vec![0u8, 0u8, 4u8, 3u8, 3u8, 3u8, 3u8, 3u8, 4u8],
        vec![4u8, 0u8, 3u8, 4u8, 3u8, 3u8, 3u8, 4u8, 3u8],
        vec![0u8, 4u8, 0u8, 0u8, 4u8, 4u8, 4u8, 0u8, 0u8],
        vec![0u8, 0u8, 4u8, 4u8, 4u8, 4u8, 4u8, 4u8, 4u8],
    ];
    proof {
        reveal_strlit("heart");
        reveal_strlit("octocat");
        assert(rows.deep_view() =~~= glyph_rows_spec("octocat"@));
    }
    rows
}

/// Adds one named glyph to the table.
fn push_pattern(ps: &mut Vec<(String, Pattern)>, name: &str, rows: Pattern)
    requires
        rows@.len() == 7,
        rows.deep_view() == glyph_rows_spec(name@),
    ensures
        final(ps)@.len() == old(ps)@.len() + 1,
        forall|i: int| 0 <= i < old(ps)@.len() ==> final(ps)@[i] == old(ps)@[i],
        final(ps)@[old(ps)@.len() as int].0@ == name@,
        final(ps)@[old(ps)@.len() as int].1@.len() == 7,
        final(ps)@[old(ps)@.len() as int].1 == rows,
        final(ps)@[old(ps)@.len() as int].1.deep_view() == glyph_rows_spec(name@),
{
    let owned: String = name.to_owned();
    ps.push((owned, rows));
}

#[verifier::rlimit(50)]
proof fn lemma_known_names_present(ps: Seq<(String, Pattern)>)
    requires
        ps.len() == 29,
        ps[0].0@ == seq!['A'],
        ps[1].0@ == seq!['B'],
        ps[2].0@ == seq!['C'],
        ps[3].0@ == seq!['D'],
        ps[4].0@ == seq!['E'],
        ps[5].0@ == seq!['F'],
        ps[6].0@ == seq!['G'],
        ps[7].0@ == seq!['H'],
        ps[8].0@ == seq!['I'],
        ps[9].0@ == seq!['J'],
        ps[10].0@ == seq!['K'],
        ps[11].0@ == seq!['L'],
        ps[12].0@ == seq!['M'],
        ps[13].0@ == seq!['N'],
        ps[14].0@ == seq!['O'],
        ps[15].0@ == seq!['P'],
        ps[16].0@ == seq!['Q'],
        ps[17].0@ == seq!['R'],
        ps[18].0@ == seq!['S'],
        ps[19].0@ == seq!['T'],
        ps[20].0@ == seq!['U'],
        ps[21].0@ == seq!['V'],
        ps[22].0@ == seq!['W'],
        ps[23].0@ == seq!['X'],
        ps[24].0@ == seq!['Y'],
        ps[25].0@ == seq!['Z'],
        ps[26].0@ == seq![' '],
        ps[27].0@ == "heart"@,
        ps[28].0@ == "octocat"@,
    ensures
        forall|name: Seq<char>| is_known_pattern_name(name) ==> assoc_has(ps, name),
{
    assert forall|name: Seq<char>| is_known_pattern_name(name) implies assoc_has(ps, name) by {
        if name == "heart"@ {
            assert(ps[27].0@ == name);
        } else if name == "octocat"@ {
            assert(ps[28].0@ == name);
        } else {
            let c = name[0];
            assert(name.len() == 1);
            assert(is_supported_char(c));
            if c == ' ' {
                assert(ps[26].0@ =~= name);
            } else {
                let u = c as u32;
                assert(65 <= u && u <= 90);
                if u == 65 {
                    vstd::utf8::char_u32_cast(c, u);
                    vstd::utf8::char_u32_cast('A', u);
                    assert(c == 'A');
                    assert(ps[0].0@ =~= name);
                } else if u == 66 {
                    vstd::utf8::char_u32_cast(c, u);
                    vstd::utf8::char_u32_cast('B', u);
                    assert(c == 'B');
                    assert(ps[1].0@ =~= name);
                } else if u == 67 {
                    vstd::utf8::char_u32_cast(c, u);
                    vstd::utf8::char_u32_cast('C', u);
                    assert(c == 'C');
                    assert(ps[2].0@ =~= name);
                } else if u == 68 {
                    vstd::utf8::char_u32_cast(c, u);
                    vstd::utf8::char_u32_cast('D', u);
                    assert(c == 'D');
                    assert(ps[3].0@ =~= name);
                } else if u == 69 {
                    vstd::utf8::char_u32_cast(c, u);
                    vstd::utf8::char_u32_cast('E', u);
                    assert(c == 'E');
                    assert(ps[4].0@ =~= name);
                } else if u == 70 {
                    vstd::utf8::char_u32_cast(c, u);
                    vstd::utf8::char_u32_cast('F', u);
                    assert(c == 'F');
                    assert(ps[5].0@ =~= name);
                } else if u == 71 {
                    vstd::utf8::char_u32_cast(c, u);
                    vstd::utf8::char_u32_cast('G', u);
                    assert(c == 'G');
                    assert(ps[6].0@ =~= name);
                } else if u == 72 {
                    vstd::utf8::char_u32_cast(c, u);
                    vstd::utf8::char_u32_cast('H', u);
                    assert(c == 'H');
                    assert(ps[7].0@ =~= name);
                } else if u == 73 {
                    vstd::utf8::char_u32_cast(c, u);
                    vstd::utf8::char_u32_cast('I', u);
                    assert(c == 'I');
                    assert(ps[8].0@ =~= name);
                } else if u == 74 {
                    vstd::utf8::char_u32_cast(c, u);
                    vstd::utf8::char_u32_cast('J', u);
                    assert(c == 'J');
                    assert(ps[9].0@ =~= name);
                } else if u == 75 {
                    vstd::utf8::char_u32_cast(c, u);
                    vstd::utf8::char_u32_cast('K', u);
                    assert(c == 'K');
                    assert(ps[10].0@ =~= name);
                } else if u == 76 {
                    vstd::utf8::char_u32_cast(c, u);
                    vstd::utf8::char_u32_cast('L', u);
                    assert(c == 'L');
                    assert(ps[11].0@ =~= name);
                } else if u == 77 {
                    vstd::utf8::char_u32_cast(c, u);
                    vstd::utf8::char_u32_cast('M', u);
                    assert(c == 'M');
                    assert(ps[12].0@ =~= name);
                } else if u == 78 {
                    vstd::utf8::char_u32_cast(c, u);
                    vstd::utf8::char_u32_cast('N', u);
                    assert(c == 'N');
                    assert(ps[13].0@ =~= name);
                } else if u == 79 {
                    vstd::utf8::char_u32_cast(c, u);
                    vstd::utf8::char_u32_cast('O', u);
                    assert(c == 'O');
                    assert(ps[14].0@ =~= name);
                } else if u == 80 {
                    vstd::utf8::char_u32_cast(c, u);
                    vstd::utf8::char_u32_cast('P', u);
                    assert(c == 'P');
                    assert(ps[15].0@ =~= name);
                } else if u == 81 {
                    vstd::utf8::char_u32_cast(c, u);
                    vstd::utf8::char_u32_cast('Q', u);
                    assert(c == 'Q');
                    assert(ps[16].0@ =~= name);
                } else if u == 82 {
                    vstd::utf8::char_u32_cast(c, u);
                    vstd::utf8::char_u32_cast('R', u);
                    assert(c == 'R');
                    assert(ps[17].0@ =~= name);
                } else if u == 83 {
                    vstd::utf8::char_u32_cast(c, u);
                    vstd::utf8::char_u32_cast('S', u);
                    assert(c == 'S');
                    assert(ps[18].0@ =~= name);
                } else if u == 84 {
                    vstd::utf8::char_u32_cast(c, u);
                    vstd::utf8::char_u32_cast('T', u);
                    assert(c == 'T');
                    assert(ps[19].0@ =~= name);
                } else if u == 85 {
                    vstd::utf8::char_u32_cast(c, u);
                    vstd::utf8::char_u32_cast('U', u);
                    assert(c == 'U');
                    assert(ps[20].0@ =~= name);
                } else if u == 86 {
                    vstd::utf8::char_u32_cast(c, u);
                    vstd::utf8::char_u32_cast('V', u);
                    assert(c == 'V');
                    assert(ps[21].0@ =~= name);
                } else if u == 87 {
                    vstd::utf8::char_u32_cast(c, u);
                    vstd::utf8::char_u32_cast('W', u);
                    assert(c == 'W');
                    assert(ps[22].0@ =~= name);
                } else if u == 88 {
                    vstd::utf8::char_u32_cast(c, u);
                    vstd::utf8::char_u32_cast('X', u);
                    assert(c == 'X');
                    assert(ps[23].0@ =~= name);
                } else if u == 89 {
                    vstd::utf8::char_u32_cast(c, u);
                    vstd::utf8::char_u32_cast('Y', u);
                    assert(c == 'Y');
                    assert(ps[24].0@ =~= name);
                } else if u == 90 {
                    vstd::utf8::char_u32_cast(c, u);
                    vstd::utf8::char_u32_cast('Z', u);
                    assert(c == 'Z');
                    assert(ps[25].0@ =~= name);
                } else {
                    assert(false);
                }
            }
        }
    }
}

/// The glyph table: every letter, the space, and the named shapes, each a
/// seven-row bitmap holding intensities of at most four, letter and space
/// glyphs seven columns wide. Every known name has an entry, every entry
/// bears a known name, and each entry's bitmap is exactly what the spec
/// table gives for its name.
#[verifier::rlimit(100)]
pub fn get_patterns() -> (r: Vec<(String, Pattern)>)
    ensures
        forall|i: int| 0 <= i < r@.len() ==> (#[trigger] r@[i]).1@.len() == 7,
        forall|i: int| 0 <= i < r@.len() ==> is_known_pattern_name((#[trigger] r@[i]).0@),
        forall|name: Seq<char>| is_known_pattern_name(name) ==> assoc_has(r@, name),
        forall|i: int|
            0 <= i < r@.len() ==> (#[trigger] r@[i]).1.deep_view() == glyph_rows_spec(r@[i].0@),
        forall|i: int|
            0 <= i < r@.len() ==> pattern_cells_le4((#[trigger] r@[i]).1.deep_view()),
        forall|i: int|
            0 <= i < r@.len() && r@[i].0@.len() == 1 ==> pattern_width(
                (#[trigger] r@[i]).1.deep_view(),
                7,
            ),
{
    proof {
        reveal_strlit("A");
        reveal_strlit("B");
        reveal_strlit("C");
        reveal_strlit("D");
        reveal_strlit("E");
        reveal_strlit("F");
        reveal_strlit("G");
        reveal_strlit("H");
        reveal_strlit("I");
        reveal_strlit("J");
        reveal_strlit("K");
        reveal_strlit("L");
        reveal_strlit("M");
        reveal_strlit("N");
        reveal_strlit("O");
        reveal_strlit("P");
        reveal_strlit("Q");
        reveal_strlit("R");
        reveal_strlit("S");
        reveal_strlit("T");
        reveal_strlit("U");
        reveal_strlit("V");
        reveal_strlit("W");
        reveal_strlit("X");
        reveal_strlit("Y");
        reveal_strlit("Z");
        reveal_strlit(" ");
        reveal_strlit("heart");
        reveal_strlit("octocat");
    }
    let mut patterns: Vec<(String, Pattern)> = Vec::new();
    proof {
        assert("A"@ =~= seq!['A']);
    }
    push_pattern(&mut patterns, "A", glyph_rows_a());
    proof {
        assert("B"@ =~= seq!['B']);
    }
    push_pattern(&mut patterns, "B", glyph_rows_b());
    proof {
        assert("C"@ =~= seq!['C']);
    }
    push_pattern(&mut patterns, "C", glyph_rows_c());
    proof {
        assert("D"@ =~= seq!['D']);
    }
    push_pattern(&mut patterns, "D", glyph_rows_d());
    proof {
        assert("E"@ =~= seq!['E']);
    }
    push_pattern(&mut patterns, "E", glyph_rows_e());
    proof {
        assert("F"@ =~= seq!['F']);
    }
    push_pattern(&mut patterns, "F", glyph_rows_f());
    proof {
        assert("G"@ =~= seq!['G']);
    }
    push_pattern(&mut patterns, "G", glyph_rows_g());
    proof {
        assert("H"@ =~= seq!['H']);
    }
    push_pattern(&mut patterns, "H", glyph_rows_h());
    proof {
        assert("I"@ =~= seq!['I']);
    }
    push_pattern(&mut patterns, "I", glyph_rows_i());
    proof {
        assert("J"@ =~= seq!['J']);
    }
    push_pattern(&mut patterns, "J", glyph_rows_j());
    proof {
        assert("K"@ =~= seq!['K']);
    }
    push_pattern(&mut patterns, "K", glyph_rows_k());
    proof {
        assert("L"@ =~= seq!['L']);
    }
    push_pattern(&mut patterns, "L", glyph_rows_l());
    proof {
        assert("M"@ =~= seq!['M']);
    }
    push_pattern(&mut patterns, "M", glyph_rows_m());
    proof {
        assert("N"@ =~= seq!['N']);
    }
    push_pattern(&mut patterns, "N", glyph_rows_n());
    proof {
        assert("O"@ =~= seq!['O']);
    }
    push_pattern(&mut patterns, "O", glyph_rows_o());
    proof {
        assert("P"@ =~= seq!['P']);
    }
    push_pattern(&mut patterns, "P", glyph_rows_p());
    proof {
        assert("Q"@ =~= seq!['Q']);
    }
    push_pattern(&mut patterns, "Q", glyph_rows_q());
    proof {
        assert("R"@ =~= seq!['R']);
    }
    push_pattern(&mut patterns, "R", glyph_rows_r());
    proof {
        assert("S"@ =~= seq!['S']);
    }
    push_pattern(&mut patterns, "S", glyph_rows_s());
    proof {
        assert("T"@ =~= seq!['T']);
    }
    push_pattern(&mut patterns, "T", glyph_rows_t());
    proof {
        assert("U"@ =~= seq!['U']);
    }
    push_pattern(&mut patterns, "U", glyph_rows_u());
    proof {
        assert("V"@ =~= seq!['V']);
    }
    push_pattern(&mut patterns, "V", glyph_rows_v());
    proof {
        assert("W"@ =~= seq!['W']);
    }
    push_pattern(&mut patterns, "W", glyph_rows_w());
    proof {
        assert("X"@ =~= seq!['X']);
    }
    push_pattern(&mut patterns, "X", glyph_rows_x());
    proof {
        assert("Y"@ =~= seq!['Y']);
    }
    push_pattern(&mut patterns, "Y", glyph_rows_y());
    proof {
        assert("Z"@ =~= seq!['Z']);
    }
    push_pattern(&mut patterns, "Z", glyph_rows_z());
    proof {
        assert(" "@ =~= seq![' ']);
    }
    push_pattern(&mut patterns, " ", glyph_rows_space());
    push_pattern(&mut patterns, "heart", glyph_rows_heart());
    push_pattern(&mut patterns, "octocat", glyph_rows_octocat());
    proof {
        assert(patterns@[0].0@ =~= seq!['A']);
        assert(patterns@[1].0@ =~= seq!['B']);
        assert(patterns@[2].0@ =~= seq!['C']);
        assert(patterns@[3].0@ =~= seq!['D']);
        assert(patterns@[4].0@ =~= seq!['E']);
        assert(patterns@[5].0@ =~= seq!['F']);
        assert(patterns@[6].0@ =~= seq!['G']);
        assert(patterns@[7].0@ =~= seq!['H']);
        assert(patterns@[8].0@ =~= seq!['I']);
        assert(patterns@[9].0@ =~= seq!['J']);
        assert(patterns@[10].0@ =~= seq!['K']);
        assert(patterns@[11].0@ =~= seq!['L']);
        assert(patterns@[12].0@ =~= seq!['M']);
        assert(patterns@[13].0@ =~= seq!['N']);
        assert(patterns@[14].0@ =~= seq!['O']);
        assert(patterns@[15].0@ =~= seq!['P']);
        assert(patterns@[16].0@ =~= seq!['Q']);
        assert(patterns@[17].0@ =~= seq!['R']);
        assert(patterns@[18].0@ =~= seq!['S']);
        assert(patterns@[19].0@ =~= seq!['T']);
        assert(patterns@[20].0@ =~= seq!['U']);
        assert(patterns@[21].0@ =~= seq!['V']);
        assert(patterns@[22].0@ =~= seq!['W']);
        assert(patterns@[23].0@ =~= seq!['X']);
        assert(patterns@[24].0@ =~= seq!['Y']);
        assert(patterns@[25].0@ =~= seq!['Z']);
        assert(patterns@[26].0@ =~= seq![' ']);
        assert(patterns@[27].0@ == "heart"@);
        assert(patterns@[28].0@ == "octocat"@);
        lemma_known_names_present(patterns@);
        assert forall|i: int|
            0 <= i < patterns@.len() implies pattern_cells_le4(
            (#[trigger] patterns@[i]).1.deep_view(),
        ) by {
            lemma_glyph_rows_wf(patterns@[i].0@);
        }
        assert forall|i: int|
            0 <= i < patterns@.len() && patterns@[i].0@.len() == 1 implies pattern_width(
            (#[trigger] patterns@[i]).1.deep_view(),
            7,
        ) by {
            lemma_glyph_rows_wf(patterns@[i].0@);
        }
    }
    patterns
}

/// The error text mode reports for an unsupported character.
pub open spec fn invalid_char_msg(c: char) -> Seq<char> {
    "Text mode only supports A-Z and space. Use --shape for predefined shapes. Got: '"@
        + seq![c] + seq!['\'']
}

/// The error shape mode reports for an unknown shape name.
pub open spec fn unknown_shape_msg(name: Seq<char>) -> Seq<char> {
    "Unknown shape: "@ + name
}

/// First index at or after `i` whose uppercased character text mode does
/// not support (the length when all are supported).
pub open spec fn first_bad_char(s: Seq<char>, i: int) -> int
    decreases s.len() - i,
{
    if i < 0 || i >= s.len() {
        i
    } else if !is_supported_char(upcase_char(s[i])) {
        i
    } else {
        first_bad_char(s, i + 1)
    }
}

/// First index at or after `i` holding an unknown shape name (the length
/// when all are known).
pub open spec fn first_unknown_shape(ss: Seq<String>, i: int) -> int
    decreases ss.len() - i,
{
    if i < 0 || i >= ss.len() {
        i
    } else if !is_known_pattern_name(ss[i]@) {
        i
    } else {
        first_unknown_shape(ss, i + 1)
    }
}

/// The grid text mode builds over the first `i` characters: starting from
/// seven empty rows, each character appends its (uppercased) glyph's row
/// cells and one spacer cell to every row.
pub open spec fn text_grid_rows(text: Seq<char>, i: int) -> Seq<Seq<u8>>
    decreases i,
{
    if i <= 0 {
        Seq::new(7, |r: int| Seq::<u8>::empty())
    } else {
        let prev = text_grid_rows(text, i - 1);
        let g = glyph_rows_spec(seq![upcase_char(text[i - 1])]);
        Seq::new(7, |r: int| prev[r] + g[r].push(0u8))
    }
}

/// The grid shape mode builds over the first `i` names: starting from
/// seven empty rows, each glyph's row cells are appended, one spacer cell
/// ahead of every glyph but the first.
pub open spec fn shape_grid_rows(shapes: Seq<String>, i: int) -> Seq<Seq<u8>>
    decreases i,
{
    if i <= 0 {
        Seq::new(7, |r: int| Seq::<u8>::empty())
    } else {
        let prev = shape_grid_rows(shapes, i - 1);
        let g = glyph_rows_spec(shapes[i - 1]@);
        Seq::new(
            7,
            |r: int|
                (if i == 1 {
                    prev[r]
                } else {
                    prev[r].push(0u8)
                }) + g[r],
        )
    }
}

/// Every row of the text grid is eight cells per character: each glyph is
/// seven columns wide and carries one spacer column.
proof fn lemma_text_grid_row_len(text: Seq<char>, i: int)
    requires
        0 <= i <= text.len(),
        forall|j: int| 0 <= j < text.len() ==> is_supported_char(upcase_char(text[j])),
    ensures
        text_grid_rows(text, i).len() == 7,
        forall|r: int| 0 <= r < 7 ==> (#[trigger] text_grid_rows(text, i)[r]).len() == 8 * i,
    decreases i,
{
    if i > 0 {
        lemma_text_grid_row_len(text, i - 1);
        let key = seq![upcase_char(text[i - 1])];
        assert(is_known_pattern_name(key));
        lemma_glyph_rows_wf(key);
        assert forall|r: int|
            0 <= r < 7 implies (#[trigger] text_grid_rows(text, i)[r]).len() == 8 * i by {
            assert(text_grid_rows(text, i)[r] == text_grid_rows(text, i - 1)[r] + glyph_rows_spec(
                key,
            )[r].push(0u8));
            assert(glyph_rows_spec(key)[r].len() == 7);
        }
    }
}

/// Looks a name up in the glyph table; the first entry under that name.
fn find_pattern<'a>(patterns: &'a Vec<(String, Pattern)>, name: &str) -> (r: Option<&'a Pattern>)
    ensures
        r is Some <==> assoc_has(patterns@, name@),
        r is Some ==> exists|k: int|
            0 <= k < patterns@.len() && patterns@[k].0@ == name@ && *r->0 == patterns@[k].1,
{
    let mut k: usize = 0;
    while k < patterns.len()
        invariant
            k <= patterns@.len(),
            forall|j: int| 0 <= j < k ==> (#[trigger] patterns@[j]).0@ != name@,
        decreases patterns@.len() - k,
    {
        if str_eq(patterns[k].0.as_str(), name) {
            return Some(&patterns[k].1);
        }
        k = k + 1;
    }
    proof {
        assert(!assoc_has(patterns@, name@));
    }
    None
}

/// Appends every value of `src` to `dst`.
fn append_row(dst: &mut Vec<u8>, src: &Vec<u8>)
    ensures
        final(dst)@ == old(dst)@ + src@,
{
    let mut k: usize = 0;
    while k < src.len()
        invariant
            k <= src@.len(),
            dst@ == old(dst)@ + src@.take(k as int),
        decreases src@.len() - k,
    {
        dst.push(src[k]);
        proof {
            assert(dst@ =~= old(dst)@ + src@.take(k + 1));
        }
        k = k + 1;
    }
    proof {
        assert(old(dst)@ + src@.take(src@.len() as int) =~= old(dst)@ + src@);
    }
}

/// Turns text into one wide intensity grid: each supported character's
/// glyph (letters case-insensitively, and the space), one spacer column
/// after each. Empty text gives an empty grid. Any other character is
/// rejected before any output, naming the first offender; exactly the
/// texts of supported characters are accepted.
pub fn text_to_grid(text: &str) -> (r: Result<Vec<Vec<u8>>, String>)
    ensures
        r is Ok <==> (forall|i: int|
            0 <= i < text@.len() ==> is_supported_char(upcase_char(text@[i]))),
        text@.len() == 0 ==> r is Ok && r->Ok_0@.len() == 0,
        (r is Ok && text@.len() > 0) ==> r->Ok_0@.len() == 7,
        (r is Ok && text@.len() > 0) ==> r->Ok_0.deep_view() == text_grid_rows(
            text@,
            text@.len() as int,
        ),
        (r is Ok && text@.len() > 0) ==> forall|rr: int|
            0 <= rr < 7 ==> (#[trigger] r->Ok_0.deep_view()[rr]).len() == 8 * text@.len(),
        r is Err ==> r->Err_0@ == invalid_char_msg(
            upcase_char(text@[first_bad_char(text@, 0)]),
        ),
{
    let v = chars_of(text);
    let n: usize = v.len();
    if n == 0 {
        return Ok(Vec::new());
    }
    let patterns = get_patterns();
    let mut grid: Vec<Vec<u8>> = Vec::new();
    let mut i: usize = 0;
    while i < n
        invariant
            v@ == text@,
            n == v@.len(),
            n > 0,
            i <= n,
            forall|j: int| 0 <= j < i ==> is_supported_char(upcase_char(v@[j])),
            first_bad_char(v@, 0) == first_bad_char(v@, i as int),
            i == 0 ==> grid@.len() == 0,
            i > 0 ==> grid@.len() == 7,
            i > 0 ==> grid.deep_view() == text_grid_rows(v@, i as int),
            forall|k: int| 0 <= k < patterns@.len() ==> (#[trigger] patterns@[k]).1@.len() == 7,
            forall|k: int|
                0 <= k < patterns@.len() ==> (#[trigger] patterns@[k]).1.deep_view()
                    == glyph_rows_spec(patterns@[k].0@),
            forall|name: Seq<char>| is_known_pattern_name(name) ==> assoc_has(patterns@, name),
        decreases n - i,
    {
        let up = upcase_char_exec(v[i]);
        let supported = (65 <= up as u32 && up as u32 <= 90) || up == ' ';
        if !supported {
            let mut msg = String::new();
            msg.append(
                "Text mode only supports A-Z and space. Use --shape for predefined shapes. Got: '",
            );
            push_char(&mut msg, up);
            msg.append("'");
            proof {
                reveal_strlit("'");
                assert(first_bad_char(v@, i as int) == i as int);
                assert(msg@ =~= invalid_char_msg(upcase_char(text@[first_bad_char(text@, 0)])));
            }
            return Err(msg);
        }
        let mut nm = String::new();
        push_char(&mut nm, up);
        proof {
            assert(nm@ =~= seq![up]);
            assert(is_known_pattern_name(nm@));
        }
        match find_pattern(&patterns, nm.as_str()) {
            Some(p) => {
                let ghost g = glyph_rows_spec(seq![up]);
                proof {
                    let k = choose|k: int|
                        0 <= k < patterns@.len() && patterns@[k].0@ == nm@ && *p == patterns@[
                            k
                        ].1;
                    assert(p.deep_view() == glyph_rows_spec(nm@));
                    assert(p@.len() == 7);
                }
                let ghost target = text_grid_rows(v@, i + 1);
                let first = i == 0;
                let mut new_grid: Vec<Vec<u8>> = Vec::new();
                let mut ri: usize = 0;
                while ri < 7
                    invariant
                        p@.len() == 7,
                        p.deep_view() == g,
                        first == (i == 0),
                        i < n,
                        n == v@.len(),
                        g == glyph_rows_spec(seq![upcase_char(v@[i as int])]),
                        target == text_grid_rows(v@, i + 1),
                        !first ==> grid@.len() == 7,
                        !first ==> grid.deep_view() == text_grid_rows(v@, i as int),
                        ri <= 7,
                        new_grid@.len() == ri,
                        forall|r: int|
                            0 <= r < ri ==> (#[trigger] new_grid.deep_view()[r]) == target[r],
                    decreases 7 - ri,
                {
                    let mut row: Vec<u8> = Vec::new();
                    if !first {
                        append_row(&mut row, &grid[ri]);
                    }
                    append_row(&mut row, &p[ri]);
                    row.push(0);
                    proof {
                        assert(p@[ri as int]@ == g[ri as int]);
                        if first {
                            assert(text_grid_rows(v@, i as int)[ri as int]
                                == Seq::<u8>::empty());
                        } else {
                            assert(grid.deep_view()[ri as int] == grid@[ri as int]@);
                        }
                        assert(row@ =~= target[ri as int]);
                    }
                    let ghost row_v = row@;
                    let ghost prev_deep = new_grid.deep_view();
                    new_grid.push(row);
                    proof {
                        assert forall|r: int|
                            0 <= r < ri + 1 implies (#[trigger] new_grid.deep_view()[r])
                            == target[r] by {
                            if r < ri {
                                assert(new_grid.deep_view()[r] == prev_deep[r]);
                            } else {
                                assert(new_grid.deep_view()[r] == row_v);
                            }
                        }
                    }
                    ri = ri + 1;
                }
                grid = new_grid;
                proof {
                    assert(grid.deep_view() =~~= target);
                }
            },
            None => {
                proof {
                    assert(assoc_has(patterns@, nm@));
                    assert(false);
                }
                return Ok(Vec::new());
            },
        }
        i = i + 1;
    }
    proof {
        lemma_text_grid_row_len(text@, n as int);
    }
    Ok(grid)
}

/// Turns a list of shape names into one wide intensity grid: each named
/// glyph in order, one spacer column between neighbours. An empty list
/// gives an empty grid. An unknown name is rejected before any output,
/// naming the first offender; exactly the lists of known names are
/// accepted.
pub fn shape_to_grid(shapes: &Vec<String>) -> (r: Result<Vec<Vec<u8>>, String>)
    ensures
        r is Ok <==> (forall|i: int|
            0 <= i < shapes@.len() ==> is_known_pattern_name((#[trigger] shapes@[i])@)),
        shapes@.len() == 0 ==> r is Ok && r->Ok_0@.len() == 0,
        (r is Ok && shapes@.len() > 0) ==> r->Ok_0@.len() == 7,
        (r is Ok && shapes@.len() > 0) ==> r->Ok_0.deep_view() == shape_grid_rows(
            shapes@,
            shapes@.len() as int,
        ),
        r is Err ==> r->Err_0@ == unknown_shape_msg(shapes@[first_unknown_shape(shapes@, 0)]@),
{
    let n: usize = shapes.len();
    if n == 0 {
        return Ok(Vec::new());
    }
    let patterns = get_patterns();
    let mut grid: Vec<Vec<u8>> = Vec::new();
    let mut i: usize = 0;
    while i < n
        invariant
            n == shapes@.len(),
            n > 0,
            i <= n,
            forall|j: int| 0 <= j < i ==> is_known_pattern_name((#[trigger] shapes@[j])@),
            first_unknown_shape(shapes@, 0) == first_unknown_shape(shapes@, i as int),
            i == 0 ==> grid@.len() == 0,
            i > 0 ==> grid@.len() == 7,
            i > 0 ==> grid.deep_view() == shape_grid_rows(shapes@, i as int),
            forall|k: int| 0 <= k < patterns@.len() ==> (#[trigger] patterns@[k]).1@.len() == 7,
            forall|k: int|
                0 <= k < patterns@.len() ==> is_known_pattern_name((#[trigger] patterns@[k]).0@),
            forall|k: int|
                0 <= k < patterns@.len() ==> (#[trigger] patterns@[k]).1.deep_view()
                    == glyph_rows_spec(patterns@[k].0@),
            forall|name: Seq<char>| is_known_pattern_name(name) ==> assoc_has(patterns@, name),
        decreases n - i,
    {
        match find_pattern(&patterns, shapes[i].as_str()) {
            Some(p) => {
                let ghost g = glyph_rows_spec(shapes@[i as int]@);
                proof {
                    let k = choose|k: int|
                        0 <= k < patterns@.len() && patterns@[k].0@ == shapes@[i as int]@ && *p
                            == patterns@[k].1;
                    assert(is_known_pattern_name(patterns@[k].0@));
                    assert(is_known_pattern_name(shapes@[i as int]@));
                    assert(p.deep_view() == g);
                    assert(p@.len() == 7);
                }
                let ghost target = shape_grid_rows(shapes@, i + 1);
                let first = i == 0;
                let mut new_grid: Vec<Vec<u8>> = Vec::new();
                let mut ri: usize = 0;
                while ri < 7
                    invariant
                        p@.len() == 7,
                        p.deep_view() == g,
                        first == (i == 0),
                        i < n,
                        n == shapes@.len(),
                        g == glyph_rows_spec(shapes@[i as int]@),
                        target == shape_grid_rows(shapes@, i + 1),
                        !first ==> grid@.len() == 7,
                        !first ==> grid.deep_view() == shape_grid_rows(shapes@, i as int),
                        ri <= 7,
                        new_grid@.len() == ri,
                        forall|r: int|
                            0 <= r < ri ==> (#[trigger] new_grid.deep_view()[r]) == target[r],
                    decreases 7 - ri,
                {
                    let mut row: Vec<u8> = Vec::new();
                    if !first {
                        append_row(&mut row, &grid[ri]);
                        row.push(0);
                    }
                    append_row(&mut row, &p[ri]);
                    proof {
                        assert(p@[ri as int]@ == g[ri as int]);
                        if first {
                            assert(shape_grid_rows(shapes@, i as int)[ri as int]
                                == Seq::<u8>::empty());
                        } else {
                            assert(grid.deep_view()[ri as int] == grid@[ri as int]@);
                        }
                        assert(row@ =~= target[ri as int]);
                    }
                    let ghost row_v = row@;
                    let ghost prev_deep = new_grid.deep_view();
                    new_grid.push(row);
                    proof {
                        assert forall|r: int|
                            0 <= r < ri + 1 implies (#[trigger] new_grid.deep_view()[r])
                            == target[r] by {
                            if r < ri {
                                assert(new_grid.deep_view()[r] == prev_deep[r]);
                            } else {
                                assert(new_grid.deep_view()[r] == row_v);
                            }
                        }
                    }
                    ri = ri + 1;
                }
                grid = new_grid;
                proof {
                    assert(grid.deep_view() =~~= target);
                }
            },
            None => {
                let mut msg = String::new();
                msg.append("Unknown shape: ");
                msg.append(shapes[i].as_str());
                proof {
                    assert(!is_known_pattern_name(shapes@[i as int]@));
                    assert(first_unknown_shape(shapes@, i as int) == i as int);
                    assert(msg@ =~= unknown_shape_msg(
                        shapes@[first_unknown_shape(shapes@, 0)]@,
                    ));
                }
                return Err(msg);
            },
        }
        i = i + 1;
    }
    Ok(grid)
}

} // verus!
