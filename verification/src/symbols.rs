//! The Code 128 symbol table.
//!
//! Code Set B covers the 95 printable ASCII characters, space through tilde.
//! A character's symbol value is its position in that ordered alphabet, so
//! space maps to 0 and tilde to 94.  Symbol values 103 through 105 are the
//! Start codes (104 is Start-Set-B) and 106 is Stop.  Every symbol value in
//! [0, 106] owns a fixed pattern of six run lengths ("module widths") that
//! the layout engine turns into bars.

use vstd::prelude::*;

verus! {

/// Symbol value of the Start-Set-B code.
pub const START_CODE_SET_B: u8 = 104;

/// Symbol value of the Stop code.
pub const STOP: u8 = 106;

/// Holds exactly when `c` is in the Code-Set-B alphabet: printable ASCII,
/// space (0x20) through tilde (0x7e).
pub open spec fn code_b_char(c: char) -> bool {
    32 <= c as u32 <= 126
}

/// Symbol value of a Code-Set-B character: its position within the ordered
/// 95-character alphabet that starts at space.
pub open spec fn char_value(c: char) -> int {
    c as u32 - 32
}

/// The module-width pattern of a symbol value: six run lengths, one per bar.
/// Values outside [0, 106] have no symbol and get an all-zero placeholder.
pub open spec fn pattern(v: u8) -> (u8, u8, u8, u8, u8, u8) {
    match v {
        0 => (2, 1, 2, 2, 2, 2),
        1 => (2, 2, 2, 1, 2, 2),
        2 => (2, 2, 2, 2, 2, 1),
        3 => (1, 2, 1, 2, 2, 3),
        4 => (1, 2, 1, 3, 2, 2),
        5 => (1, 3, 1, 2, 2, 2),
        6 => (1, 2, 2, 2, 1, 3),
        7 => (1, 2, 2, 3, 1, 2),
        8 => (1, 3, 2, 2, 1, 2),
        9 => (2, 2, 1, 2, 1, 3),
        10 => (2, 2, 1, 3, 1, 2),
        11 => (2, 3, 1, 2, 1, 2),
        12 => (1, 1, 2, 2, 3, 2),
        13 => (1, 2, 2, 1, 3, 2),
        14 => (1, 2, 2, 2, 3, 1),
        15 => (1, 1, 3, 2, 2, 2),
        16 => (1, 2, 3, 1, 2, 2),
        17 => (1, 2, 3, 2, 2, 1),
        18 => (2, 2, 3, 2, 1, 1),
        19 => (2, 2, 1, 1, 3, 2),
        20 => (2, 2, 1, 2, 3, 1),
        21 => (2, 1, 3, 2, 1, 2),
        22 => (2, 2, 3, 1, 1, 2),
        23 => (3, 1, 2, 1, 3, 1),
        24 => (3, 1, 1, 2, 2, 2),
        25 => (3, 2, 1, 1, 2, 2),
        26 => (3, 2, 1, 2, 2, 1),
        27 => (3, 1, 2, 2, 1, 2),
        28 => (3, 2, 2, 1, 1, 2),
        29 => (3, 2, 2, 2, 1, 1),
        30 => (2, 1, 2, 1, 2, 3),
        31 => (2, 1, 2, 3, 2, 1),
        32 => (2, 3, 2, 1, 2, 1),
        33 => (1, 1, 1, 3, 2, 3),
        34 => (1, 3, 1, 1, 2, 3),
        35 => (1, 3, 1, 3, 2, 1),
        36 => (1, 1, 2, 3, 1, 3),
        37 => (1, 3, 2, 1, 1, 3),
        38 => (1, 3, 2, 3, 1, 1),
        39 => (2, 1, 1, 3, 1, 3),
        40 => (2, 3, 1, 1, 1, 3),
        41 => (2, 3, 1, 3, 1, 1),
        42 => (1, 1, 2, 1, 3, 3),
        43 => (1, 1, 2, 3, 3, 1),
        44 => (1, 3, 2, 1, 3, 1),
        45 => (1, 1, 3, 1, 2, 3),
        46 => (1, 1, 3, 3, 2, 1),
        47 => (1, 3, 3, 1, 2, 1),
        48 => (3, 1, 3, 1, 2, 1),
        49 => (2, 1, 1, 3, 3, 1),
        50 => (2, 3, 1, 1, 3, 1),
        51 => (2, 1, 3, 1, 1, 3),
        52 => (2, 1, 3, 3, 1, 1),
        53 => (2, 1, 3, 1, 3, 1),
        54 => (3, 1, 1, 1, 2, 3),
        55 => (3, 1, 1, 3, 2, 1),
        56 => (3, 3, 1, 1, 2, 1),
        57 => (3, 1, 2, 1, 1, 3),
        58 => (3, 1, 2, 3, 1, 1),
        59 => (3, 3, 2, 1, 1, 1),
        60 => (3, 1, 4, 1, 1, 1),
        61 => (2, 2, 1, 4, 1, 1),
        62 => (4, 3, 1, 1, 1, 1),
        63 => (1, 1, 1, 2, 2, 4),
        64 => (1, 1, 1, 4, 2, 2),
        65 => (1, 2, 1, 1, 2, 4),
        66 => (1, 2, 1, 4, 2, 1),
        67 => (1, 4, 1, 1, 2, 2),
        68 => (1, 4, 1, 2, 2, 1),
        69 => (1, 1, 2, 2, 1, 4),
        70 => (1, 1, 2, 4, 1, 2),
        71 => (1, 2, 2, 1, 1, 4),
        72 => (1, 2, 2, 4, 1, 1),
        73 => (1, 4, 2, 1, 1, 2),
        74 => (1, 4, 2, 2, 1, 1),
        75 => (2, 4, 1, 2, 1, 1),
        76 => (2, 2, 1, 1, 1, 4),
        77 => (4, 1, 3, 1, 1, 1),
        78 => (2, 4, 1, 1, 1, 2),
        79 => (1, 3, 4, 1, 1, 1),
        80 => (1, 1, 1, 2, 4, 2),
        81 => (1, 2, 1, 1, 4, 2),
        82 => (1, 2, 1, 2, 4, 1),
        83 => (1, 1, 4, 2, 1, 2),
        84 => (1, 2, 4, 1, 1, 2),
        85 => (1, 2, 4, 2, 1, 1),
        86 => (4, 1, 1, 2, 1, 2),
        87 => (4, 2, 1, 1, 1, 2),
        88 => (4, 2, 1, 2, 1, 1),
        89 => (2, 1, 2, 1, 4, 1),
        90 => (2, 1, 4, 1, 2, 1),
        91 => (4, 1, 2, 1, 2, 1),
        92 => (1, 1, 1, 1, 4, 3),
        93 => (1, 1, 1, 3, 4, 1),
        94 => (1, 3, 1, 1, 4, 1),
        95 => (1, 1, 4, 1, 1, 3),
        96 => (1, 1, 4, 3, 1, 1),
        97 => (4, 1, 1, 1, 1, 3),
        98 => (4, 1, 1, 3, 1, 1),
        99 => (1, 1, 3, 1, 4, 1),
        100 => (1, 1, 4, 1, 3, 1),
        101 => (3, 1, 1, 1, 4, 1),
        102 => (4, 1, 1, 1, 3, 1),
        103 => (2, 1, 1, 4, 1, 2),
        104 => (2, 1, 1, 2, 1, 4),
        105 => (2, 1, 1, 2, 3, 2),
        106 => (2, 3, 3, 1, 1, 1),
        _ => (0, 0, 0, 0, 0, 0),
    }
}

/// The width pattern as a sequence of six run lengths.
pub open spec fn pattern_seq(v: u8) -> Seq<u8> {
    seq![pattern(v).0, pattern(v).1, pattern(v).2, pattern(v).3, pattern(v).4, pattern(v).5]
}

/// Total width in modules of a symbol's six runs.
pub open spec fn pattern_width(v: u8) -> int {
    pattern(v).0 + pattern(v).1 + pattern(v).2 + pattern(v).3 + pattern(v).4 + pattern(v).5
}

/// Every legal symbol value occupies exactly 11 modules, each of its six
/// runs between 1 and 4 modules wide.  (The textbook Stop pattern has 13
/// modules; the table truncates it to its first six runs, which also sum to
/// 11, and the layout engine appends the final width-2 bar separately.)
pub proof fn lemma_pattern_width(v: u8)
    requires
        v <= 106,
    ensures
        pattern_width(v) == 11,
        1 <= pattern(v).0 <= 4,
        1 <= pattern(v).1 <= 4,
        1 <= pattern(v).2 <= 4,
        1 <= pattern(v).3 <= 4,
        1 <= pattern(v).4 <= 4,
        1 <= pattern(v).5 <= 4,
{
}

/// Width-pattern invariant: every character of the Code-Set-B alphabet maps
/// to a width pattern whose six run lengths sum to exactly 11 modules.
pub proof fn lemma_char_pattern_width(c: char)
    requires
        code_b_char(c),
    ensures
        pattern_width(char_value(c) as u8) == 11,
{
    lemma_pattern_width(char_value(c) as u8);
}

/// Resolves a character to its Code-Set-B symbol value; characters outside
/// the alphabet (control characters, DEL, non-ASCII) have none.
pub fn symbol_value_for(c: char) -> (r: Option<u8>)
    ensures
        r is Some <==> code_b_char(c),
        r matches Some(v) ==> v as int == char_value(c),
{
    let u: u32 = c as u32;
    if 32 <= u && u <= 126 {
        Some((u - 32) as u8)
    } else {
        None
    }
}

/// The six run lengths of a symbol value, as a tuple.
fn pattern_parts(v: u8) -> (r: (u8, u8, u8, u8, u8, u8))
    requires
        v <= 106,
    ensures
        r == pattern(v),
{
    match v {
        0 => (2, 1, 2, 2, 2, 2),
        1 => (2, 2, 2, 1, 2, 2),
        2 => (2, 2, 2, 2, 2, 1),
        3 => (1, 2, 1, 2, 2, 3),
        4 => (1, 2, 1, 3, 2, 2),
        5 => (1, 3, 1, 2, 2, 2),
        6 => (1, 2, 2, 2, 1, 3),
        7 => (1, 2, 2, 3, 1, 2),
        8 => (1, 3, 2, 2, 1, 2),
        9 => (2, 2, 1, 2, 1, 3),
        10 => (2, 2, 1, 3, 1, 2),
        11 => (2, 3, 1, 2, 1, 2),
        12 => (1, 1, 2, 2, 3, 2),
        13 => (1, 2, 2, 1, 3, 2),
        14 => (1, 2, 2, 2, 3, 1),
        15 => (1, 1, 3, 2, 2, 2),
        16 => (1, 2, 3, 1, 2, 2),
        17 => (1, 2, 3, 2, 2, 1),
        18 => (2, 2, 3, 2, 1, 1),
        19 => (2, 2, 1, 1, 3, 2),
        20 => (2, 2, 1, 2, 3, 1),
        21 => (2, 1, 3, 2, 1, 2),
        22 => (2, 2, 3, 1, 1, 2),
        23 => (3, 1, 2, 1, 3, 1),
        24 => (3, 1, 1, 2, 2, 2),
        25 => (3, 2, 1, 1, 2, 2),
        26 => (3, 2, 1, 2, 2, 1),
        27 => (3, 1, 2, 2, 1, 2),
        28 => (3, 2, 2, 1, 1, 2),
        29 => (3, 2, 2, 2, 1, 1),
        30 => (2, 1, 2, 1, 2, 3),
        31 => (2, 1, 2, 3, 2, 1),
        32 => (2, 3, 2, 1, 2, 1),
        33 => (1, 1, 1, 3, 2, 3),
        34 => (1, 3, 1, 1, 2, 3),
        35 => (1, 3, 1, 3, 2, 1),
        36 => (1, 1, 2, 3, 1, 3),
        37 => (1, 3, 2, 1, 1, 3),
        38 => (1, 3, 2, 3, 1, 1),
        39 => (2, 1, 1, 3, 1, 3),
        40 => (2, 3, 1, 1, 1, 3),
        41 => (2, 3, 1, 3, 1, 1),
        42 => (1, 1, 2, 1, 3, 3),
        43 => (1, 1, 2, 3, 3, 1),
        44 => (1, 3, 2, 1, 3, 1),
        45 => (1, 1, 3, 1, 2, 3),
        46 => (1, 1, 3, 3, 2, 1),
        47 => (1, 3, 3, 1, 2, 1),
        48 => (3, 1, 3, 1, 2, 1),
        49 => (2, 1, 1, 3, 3, 1),
        50 => (2, 3, 1, 1, 3, 1),
        51 => (2, 1, 3, 1, 1, 3),
        52 => (2, 1, 3, 3, 1, 1),
        53 => (2, 1, 3, 1, 3, 1),
        54 => (3, 1, 1, 1, 2, 3),
        55 => (3, 1, 1, 3, 2, 1),
        56 => (3, 3, 1, 1, 2, 1),
        57 => (3, 1, 2, 1, 1, 3),
        58 => (3, 1, 2, 3, 1, 1),
        59 => (3, 3, 2, 1, 1, 1),
        60 => (3, 1, 4, 1, 1, 1),
        61 => (2, 2, 1, 4, 1, 1),
        62 => (4, 3, 1, 1, 1, 1),
        63 => (1, 1, 1, 2, 2, 4),
        64 => (1, 1, 1, 4, 2, 2),
        65 => (1, 2, 1, 1, 2, 4),
        66 => (1, 2, 1, 4, 2, 1),
        67 => (1, 4, 1, 1, 2, 2),
        68 => (1, 4, 1, 2, 2, 1),
        69 => (1, 1, 2, 2, 1, 4),
        70 => (1, 1, 2, 4, 1, 2),
        71 => (1, 2, 2, 1, 1, 4),
        72 => (1, 2, 2, 4, 1, 1),
        73 => (1, 4, 2, 1, 1, 2),
        74 => (1, 4, 2, 2, 1, 1),
        75 => (2, 4, 1, 2, 1, 1),
        76 => (2, 2, 1, 1, 1, 4),
        77 => (4, 1, 3, 1, 1, 1),
        78 => (2, 4, 1, 1, 1, 2),
        79 => (1, 3, 4, 1, 1, 1),
        80 => (1, 1, 1, 2, 4, 2),
        81 => (1, 2, 1, 1, 4, 2),
        82 => (1, 2, 1, 2, 4, 1),
        83 => (1, 1, 4, 2, 1, 2),
        84 => (1, 2, 4, 1, 1, 2),
        85 => (1, 2, 4, 2, 1, 1),
        86 => (4, 1, 1, 2, 1, 2),
        87 => (4, 2, 1, 1, 1, 2),
        88 => (4, 2, 1, 2, 1, 1),
        89 => (2, 1, 2, 1, 4, 1),
        90 => (2, 1, 4, 1, 2, 1),
        91 => (4, 1, 2, 1, 2, 1),
        92 => (1, 1, 1, 1, 4, 3),
        93 => (1, 1, 1, 3, 4, 1),
        94 => (1, 3, 1, 1, 4, 1),
        95 => (1, 1, 4, 1, 1, 3),
        96 => (1, 1, 4, 3, 1, 1),
        97 => (4, 1, 1, 1, 1, 3),
        98 => (4, 1, 1, 3, 1, 1),
        99 => (1, 1, 3, 1, 4, 1),
        100 => (1, 1, 4, 1, 3, 1),
        101 => (3, 1, 1, 1, 4, 1),
        102 => (4, 1, 1, 1, 3, 1),
        103 => (2, 1, 1, 4, 1, 2),
        104 => (2, 1, 1, 2, 1, 4),
        105 => (2, 1, 1, 2, 3, 2),
        106 => (2, 3, 3, 1, 1, 1),
        _ => vstd::pervasive::unreached(),
    }
}

/// Width-pattern lookup, total and panic-free over the full legal symbol
/// value domain [0, 106]; out-of-range values are a caller error.
pub fn width_pattern_for(v: u8) -> (r: [u8; 6])
    requires
        v <= 106,
    ensures
        r@ == pattern_seq(v),
{
    let p = pattern_parts(v);
    let r: [u8; 6] = [p.0, p.1, p.2, p.3, p.4, p.5];
    proof {
        assert(r@ =~= pattern_seq(v));
    }
    r
}

/// Width pattern of a Code-Set-B character, resolved through the symbol
/// table.
pub fn get_widths(character: char) -> (r: [u8; 6])
    requires
        code_b_char(character),
    ensures
        r@ == pattern_seq(char_value(character) as u8),
{
    match symbol_value_for(character) {
        Some(v) => width_pattern_for(v),
        None => vstd::pervasive::unreached(),
    }
}

} // verus!
