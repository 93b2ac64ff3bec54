//! The bar layout engine.
//!
//! A barcode for a Code-Set-B data string is one continuous run of bars,
//! left to right from a caller-supplied starting offset: the six bars of the
//! Start-Set-B pattern, six bars per data character, six bars for the
//! checksum symbol, six bars for the Stop pattern, one synthetic width-2
//! black terminator bar (the final bar of the true 13-module Stop pattern,
//! which the six-entry width table truncates), and a width-10 white trailing
//! quiet zone.  Bar colors alternate black/white from the first Start bar
//! onward; the toggle runs uninterrupted across symbol boundaries, and since
//! every symbol has six bars, each symbol starts black.  Each bar sits at
//! the running offset, which advances by the bar's width.

use vstd::arithmetic::div_mod::{lemma_add_mod_noop, lemma_mod_multiples_vanish};
use vstd::prelude::*;

use crate::checksum::{calculate_checksum, checksum_spec};
use crate::symbols::{
    char_value, code_b_char, lemma_pattern_width, pattern, pattern_width, width_pattern_for,
    START_CODE_SET_B, STOP,
};

verus! {

/// The fill color of one bar.
#[derive(Clone, Copy, Debug, PartialEq, Eq, Structural)]
pub enum BarColor {
    Black,
    White,
}

impl BarColor {
    /// The opposite color.
    pub open spec fn flipped(self) -> BarColor {
        match self {
            BarColor::Black => BarColor::White,
            BarColor::White => BarColor::Black,
        }
    }

    /// Toggles to the opposite color; bar colors alternate by this toggle.
    pub fn flip(self) -> (r: BarColor)
        ensures
            r == self.flipped(),
    {
        match self {
            BarColor::Black => BarColor::White,
            BarColor::White => BarColor::Black,
        }
    }
}

/// One bar of the barcode: a rectangle at horizontal offset `x`, `width`
/// modules wide, in color `color`.  The vertical offset and height are
/// fixed render-time constants, not part of the symbology.
#[derive(Clone, Copy, Debug, PartialEq, Eq, Structural)]
pub struct Bar {
    pub x: i64,
    pub width: u64,
    pub color: BarColor,
}

/// The mathematical model of a bar: offset and width as unbounded integers.
pub ghost struct BarModel {
    pub x: int,
    pub width: int,
    pub color: BarColor,
}

impl View for Bar {
    type V = BarModel;

    open spec fn view(&self) -> BarModel {
        BarModel { x: self.x as int, width: self.width as int, color: self.color }
    }
}

/// The models of a sequence of bars.
pub open spec fn models(bars: Seq<Bar>) -> Seq<BarModel> {
    bars.map_values(|b: Bar| b@)
}

/// The six bars of one symbol, starting at offset `off` with a black bar;
/// each bar sits where the previous one ended, and colors alternate.
pub open spec fn symbol_bars(v: u8, off: int) -> Seq<BarModel> {
    let p = pattern(v);
    seq![
        BarModel { x: off, width: p.0 as int, color: BarColor::Black },
        BarModel { x: off + p.0 as int, width: p.1 as int, color: BarColor::White },
        BarModel { x: off + p.0 + p.1 as int, width: p.2 as int, color: BarColor::Black },
        BarModel { x: off + p.0 + p.1 + p.2 as int, width: p.3 as int, color: BarColor::White },
        BarModel { x: off + p.0 + p.1 + p.2 + p.3 as int, width: p.4 as int, color: BarColor::Black },
        BarModel { x: off + p.0 + p.1 + p.2 + p.3 + p.4 as int, width: p.5 as int, color: BarColor::White },
    ]
}

/// The bars of the data characters, in input order: character `i` occupies
/// the 11 modules starting at `off + 11 * i`.
pub open spec fn data_bars(s: Seq<char>, off: int) -> Seq<BarModel>
    decreases s.len(),
{
    if s.len() == 0 {
        Seq::empty()
    } else {
        data_bars(s.drop_last(), off) + symbol_bars(
            char_value(s.last()) as u8,
            off + 11 * (s.len() - 1),
        )
    }
}

/// The full bar sequence of the barcode for data string `s`, starting at
/// offset `off`: Start-Set-B, the data characters, the checksum symbol, the
/// Stop pattern, the synthetic width-2 black terminator bar, and the
/// width-10 white trailing quiet zone.
pub open spec fn layout_models(s: Seq<char>, off: int) -> Seq<BarModel> {
    symbol_bars(START_CODE_SET_B, off) + data_bars(s, off + 11) + symbol_bars(
        checksum_spec(s) as u8,
        off + 11 * (s.len() + 1),
    ) + symbol_bars(STOP, off + 11 * (s.len() + 2)) + seq![
        BarModel { x: off + 11 * (s.len() + 3), width: 2, color: BarColor::Black },
    ] + seq![BarModel { x: off + 11 * (s.len() + 3) + 2, width: 10, color: BarColor::White }]
}

/// The single error of the encoder: an input character outside the
/// Code-Set-B alphabet, with its 0-based position in the input.
#[derive(Clone, Copy, Debug, PartialEq, Eq, Structural)]
pub struct UnsupportedCharacter {
    pub character: char,
    pub position: usize,
}

/// Scans a string upfront and reports the first character outside the
/// Code-Set-B alphabet, so that encoding is all-or-nothing.
pub fn validate(s: &str) -> (r: Result<(), UnsupportedCharacter>)
    ensures
        r is Ok <==> (forall|i: int| 0 <= i < s@.len() ==> code_b_char(#[trigger] s@[i])),
        r matches Err(e) ==> {
            &&& e.position < s@.len()
            &&& e.character == s@[e.position as int]
            &&& !code_b_char(e.character)
            &&& forall|j: int| 0 <= j < e.position ==> code_b_char(#[trigger] s@[j])
        },
{
    let n: usize = s.unicode_len();
    let mut i: usize = 0;
    while i < n
        invariant
            i <= n,
            n == s@.len(),
            forall|j: int| 0 <= j < i ==> code_b_char(#[trigger] s@[j]),
        decreases n - i,
    {
        let c: char = s.get_char(i);
        let u: u32 = c as u32;
        if u < 32 || u > 126 {
            return Err(UnsupportedCharacter { character: c, position: i });
        }
        i = i + 1;
    }
    Ok(())
}

/// Appends the six bars of symbol `v` at offset `off`, black first with the
/// color toggling after every bar, and returns the offset just past them.
pub(crate) fn push_symbol_bars(bars: &mut Vec<Bar>, v: u8, off: i64) -> (end: i64)
    requires
        v <= 106,
        off + 11 <= i64::MAX,
    ensures
        models(final(bars)@) == models(old(bars)@) + symbol_bars(v, off as int),
        end == off + 11,
{
    proof {
        lemma_pattern_width(v);
    }
    let p: [u8; 6] = width_pattern_for(v);
    let mut color: BarColor = BarColor::Black;
    let mut x: i64 = off;
    bars.push(Bar { x: x, width: p[0] as u64, color: color });
    x = x + p[0] as i64;
    color = color.flip();
    bars.push(Bar { x: x, width: p[1] as u64, color: color });
    x = x + p[1] as i64;
    color = color.flip();
    bars.push(Bar { x: x, width: p[2] as u64, color: color });
    x = x + p[2] as i64;
    color = color.flip();
    bars.push(Bar { x: x, width: p[3] as u64, color: color });
    x = x + p[3] as i64;
    color = color.flip();
    bars.push(Bar { x: x, width: p[4] as u64, color: color });
    x = x + p[4] as i64;
    color = color.flip();
    bars.push(Bar { x: x, width: p[5] as u64, color: color });
    proof {
        assert(models(bars@) =~= models(old(bars)@) + symbol_bars(v, off as int));
    }
    off + 11
}

/// Lays out the full bar sequence for a Code-Set-B data string, starting at
/// the caller-supplied offset, and also returns the updated running offset
/// just past the trailing quiet zone.  Fails on the first character outside
/// the alphabet without producing any bars.
pub fn layout_bars(s: &str, offset: i64) -> (r: Result<(Vec<Bar>, i64), UnsupportedCharacter>)
    requires
        offset as int + 45 + 11 * s@.len() <= i64::MAX as int,
    ensures
        r is Ok <==> (forall|i: int| 0 <= i < s@.len() ==> code_b_char(#[trigger] s@[i])),
        r matches Ok(p) ==> models(p.0@) == layout_models(s@, offset as int) && p.1 as int
            == offset as int + 45 + 11 * s@.len(),
        r matches Err(e) ==> {
            &&& e.position < s@.len()
            &&& e.character == s@[e.position as int]
            &&& !code_b_char(e.character)
            &&& forall|j: int| 0 <= j < e.position ==> code_b_char(#[trigger] s@[j])
        },
{
    match validate(s) {
        Err(e) => {
            return Err(e);
        },
        Ok(()) => {},
    }
    let n: usize = s.unicode_len();
    let mut bars: Vec<Bar> = Vec::new();
    let mut off: i64 = offset;
    off = push_symbol_bars(&mut bars, START_CODE_SET_B, off);
    proof {
        assert(s@.take(0) =~= Seq::<char>::empty());
        assert(models(bars@) =~= symbol_bars(START_CODE_SET_B, offset as int) + data_bars(
            s@.take(0),
            offset as int + 11,
        ));
    }
    let mut i: usize = 0;
    while i < n
        invariant
            i <= n,
            n == s@.len(),
            forall|j: int| 0 <= j < s@.len() ==> code_b_char(#[trigger] s@[j]),
            offset as int + 45 + 11 * s@.len() <= i64::MAX as int,
            off as int == offset as int + 11 * (i as int + 1),
            models(bars@) == symbol_bars(START_CODE_SET_B, offset as int) + data_bars(
                s@.take(i as int),
                offset as int + 11,
            ),
        decreases n - i,
    {
        let c: char = s.get_char(i);
        proof {
            assert(code_b_char(s@[i as int]));
        }
        let u: u32 = c as u32;
        let v: u8 = (u - 32) as u8;
        off = push_symbol_bars(&mut bars, v, off);
        proof {
            let ghost t = s@.take(i as int + 1);
            assert(t.drop_last() =~= s@.take(i as int));
            assert(t.last() == s@[i as int]);
            assert(data_bars(t, offset as int + 11) == data_bars(s@.take(i as int), offset as int + 11)
                + symbol_bars(v, offset as int + 11 + 11 * (i as int)));
            assert(models(bars@) =~= symbol_bars(START_CODE_SET_B, offset as int) + data_bars(
                t,
                offset as int + 11,
            ));
        }
        i = i + 1;
    }
    proof {
        assert(s@.take(n as int) =~= s@);
    }
    let ck: usize = calculate_checksum(s);
    let ckv: u8 = ck as u8;
    off = push_symbol_bars(&mut bars, ckv, off);
    off = push_symbol_bars(&mut bars, STOP, off);
    bars.push(Bar { x: off, width: 2, color: BarColor::Black });
    proof {
        assert(models(bars@) =~= symbol_bars(START_CODE_SET_B, offset as int) + data_bars(
            s@,
            offset as int + 11,
        ) + symbol_bars(checksum_spec(s@) as u8, offset as int + 11 * (s@.len() + 1)) + symbol_bars(
            STOP,
            offset as int + 11 * (s@.len() + 2),
        ) + seq![
            BarModel { x: offset as int + 11 * (s@.len() + 3), width: 2, color: BarColor::Black },
        ]);
    }
    off = off + 2;
    bars.push(Bar { x: off, width: 10, color: BarColor::White });
    off = off + 10;
    proof {
        assert(models(bars@) =~= layout_models(s@, offset as int));
    }
    Ok((bars, off))
}

/// Total width in modules of a sequence of bars.
pub open spec fn total_width(bs: Seq<BarModel>) -> int
    decreases bs.len(),
{
    if bs.len() == 0 {
        0
    } else {
        total_width(bs.drop_last()) + bs.last().width
    }
}

proof fn lemma_total_width_concat(a: Seq<BarModel>, b: Seq<BarModel>)
    ensures
        total_width(a + b) == total_width(a) + total_width(b),
    decreases b.len(),
{
    if b.len() == 0 {
        assert(a + b =~= a);
    } else {
        lemma_total_width_concat(a, b.drop_last());
        assert((a + b).drop_last() =~= a + b.drop_last());
        assert((a + b).last() == b.last());
    }
}

proof fn lemma_symbol_bars_width(v: u8, off: int)
    requires
        v <= 106,
    ensures
        total_width(symbol_bars(v, off)) == 11,
{
    lemma_pattern_width(v);
    let m = symbol_bars(v, off);
    let b5 = m.drop_last();
    let b4 = b5.drop_last();
    let b3 = b4.drop_last();
    let b2 = b3.drop_last();
    let b1 = b2.drop_last();
    let b0 = b1.drop_last();
    assert(m.len() == 6);
    assert(b0.len() == 0);
    assert(total_width(b0) == 0);
    assert(b1.last() == m[0] && total_width(b1) == total_width(b0) + m[0].width);
    assert(b2.last() == m[1] && total_width(b2) == total_width(b1) + m[1].width);
    assert(b3.last() == m[2] && total_width(b3) == total_width(b2) + m[2].width);
    assert(b4.last() == m[3] && total_width(b4) == total_width(b3) + m[3].width);
    assert(b5.last() == m[4] && total_width(b5) == total_width(b4) + m[4].width);
    assert(m.last() == m[5] && total_width(m) == total_width(b5) + m[5].width);
    assert(m[0].width + m[1].width + m[2].width + m[3].width + m[4].width + m[5].width
        == pattern_width(v));
}

proof fn lemma_data_bars_width(s: Seq<char>, off: int)
    requires
        forall|i: int| 0 <= i < s.len() ==> code_b_char(#[trigger] s[i]),
    ensures
        total_width(data_bars(s, off)) == 11 * s.len(),
    decreases s.len(),
{
    if s.len() == 0 {
    } else {
        let head = s.drop_last();
        assert(forall|i: int| 0 <= i < head.len() ==> code_b_char(#[trigger] head[i]));
        lemma_data_bars_width(head, off);
        let v = char_value(s.last()) as u8;
        lemma_symbol_bars_width(v, off + 11 * (s.len() - 1));
        lemma_total_width_concat(data_bars(head, off), symbol_bars(v, off + 11 * (s.len() - 1)));
    }
}

/// Width-sum law: for a string of Code-Set-B characters, the widths of the
/// emitted bars sum to 11 modules for Start-Set-B, 11 per data character,
/// 11 for the checksum symbol, 11 for Stop, 2 for the terminator bar and 10
/// for the trailing quiet zone: 45 + 11 * len modules in all, whatever the
/// starting offset.
pub proof fn lemma_layout_width(s: Seq<char>, off: int)
    requires
        forall|i: int| 0 <= i < s.len() ==> code_b_char(#[trigger] s[i]),
    ensures
        total_width(layout_models(s, off)) == 45 + 11 * s.len(),
{
    let start = symbol_bars(START_CODE_SET_B, off);
    let data = data_bars(s, off + 11);
    let ck = symbol_bars(checksum_spec(s) as u8, off + 11 * (s.len() + 1));
    let stop = symbol_bars(STOP, off + 11 * (s.len() + 2));
    let term = seq![BarModel { x: off + 11 * (s.len() + 3), width: 2, color: BarColor::Black }];
    let quiet = seq![
        BarModel { x: off + 11 * (s.len() + 3) + 2, width: 10, color: BarColor::White },
    ];
    lemma_symbol_bars_width(START_CODE_SET_B, off);
    lemma_data_bars_width(s, off + 11);
    lemma_symbol_bars_width(checksum_spec(s) as u8, off + 11 * (s.len() + 1));
    lemma_symbol_bars_width(STOP, off + 11 * (s.len() + 2));
    assert(term.drop_last() =~= Seq::<BarModel>::empty());
    assert(quiet.drop_last() =~= Seq::<BarModel>::empty());
    assert(total_width(term) == total_width(term.drop_last()) + term.last().width);
    assert(total_width(quiet) == total_width(quiet.drop_last()) + quiet.last().width);
    assert(total_width(term) == 2);
    assert(total_width(quiet) == 10);
    assert(layout_models(s, off) == start + data + ck + stop + term + quiet);
    lemma_total_width_concat(start, data);
    lemma_total_width_concat(start + data, ck);
    lemma_total_width_concat(start + data + ck, stop);
    lemma_total_width_concat(start + data + ck + stop, term);
    lemma_total_width_concat(start + data + ck + stop + term, quiet);
}

/// The color a bar takes at position `i` of an uninterrupted alternating
/// run that starts black.
pub open spec fn stripe(i: int) -> BarColor {
    if i % 2 == 0 {
        BarColor::Black
    } else {
        BarColor::White
    }
}

proof fn lemma_stripe_shift(base: int, j: int)
    requires
        base % 2 == 0,
    ensures
        stripe(base + j) == stripe(j),
{
    lemma_add_mod_noop(base, j, 2);
    if j % 2 == 0 {
        assert((base + j) % 2 == 0);
    } else {
        assert((base + j) % 2 == 1);
    }
}

proof fn lemma_even(k: int)
    ensures
        (2 * k) % 2 == 0,
{
    lemma_mod_multiples_vanish(k, 0, 2);
}

proof fn lemma_symbol_bars_stripes(v: u8, off: int)
    ensures
        symbol_bars(v, off).len() == 6,
        forall|j: int| 0 <= j < 6 ==> #[trigger] symbol_bars(v, off)[j].color == stripe(j),
{
    assert forall|j: int| 0 <= j < 6 implies #[trigger] symbol_bars(v, off)[j].color == stripe(
        j,
    ) by {
        if j == 1 || j == 3 || j == 5 {
            assert(j % 2 == 1);
        } else {
            assert(j % 2 == 0);
        }
    }
}

proof fn lemma_data_bars_stripes(s: Seq<char>, off: int)
    ensures
        data_bars(s, off).len() == 6 * s.len(),
        forall|i: int|
            0 <= i < 6 * s.len() ==> #[trigger] data_bars(s, off)[i].color == stripe(i),
    decreases s.len(),
{
    if s.len() == 0 {
    } else {
        let head = s.drop_last();
        let tail = symbol_bars(char_value(s.last()) as u8, off + 11 * (s.len() - 1));
        lemma_data_bars_stripes(head, off);
        lemma_symbol_bars_stripes(char_value(s.last()) as u8, off + 11 * (s.len() - 1));
        assert forall|i: int|
            0 <= i < 6 * s.len() implies #[trigger] data_bars(s, off)[i].color == stripe(i) by {
            let base = 6 * (s.len() - 1);
            if i < base {
                assert(data_bars(s, off)[i] == data_bars(head, off)[i]);
            } else {
                let j = i - base;
                assert(data_bars(s, off)[i] == tail[j]);
                assert(tail[j].color == stripe(j));
                lemma_even(3 * (s.len() - 1));
                assert(base % 2 == 0);
                lemma_stripe_shift(base, j);
            }
        }
    }
}

proof fn lemma_layout_stripes(s: Seq<char>, off: int)
    ensures
        layout_models(s, off).len() == 6 * s.len() + 20,
        forall|i: int|
            0 <= i < 6 * s.len() + 18 ==> #[trigger] layout_models(s, off)[i].color == stripe(i),
{
    let n = s.len() as int;
    let start = symbol_bars(START_CODE_SET_B, off);
    let data = data_bars(s, off + 11);
    let ck = symbol_bars(checksum_spec(s) as u8, off + 11 * (n + 1));
    let stop = symbol_bars(STOP, off + 11 * (n + 2));
    lemma_symbol_bars_stripes(START_CODE_SET_B, off);
    lemma_data_bars_stripes(s, off + 11);
    lemma_symbol_bars_stripes(checksum_spec(s) as u8, off + 11 * (n + 1));
    lemma_symbol_bars_stripes(STOP, off + 11 * (n + 2));
    assert forall|i: int|
        0 <= i < 6 * s.len() + 18 implies #[trigger] layout_models(s, off)[i].color == stripe(
        i,
    ) by {
        let bs = layout_models(s, off);
        if i < 6 {
            assert(bs[i] == start[i]);
        } else if i < 6 + 6 * n {
            let j = i - 6;
            assert(bs[i] == data[j]);
            lemma_even(3);
            lemma_stripe_shift(6, j);
        } else if i < 12 + 6 * n {
            let j = i - (6 + 6 * n);
            assert(bs[i] == ck[j]);
            lemma_even(3 + 3 * n);
            lemma_stripe_shift(6 + 6 * n, j);
        } else {
            let j = i - (12 + 6 * n);
            assert(bs[i] == stop[j]);
            lemma_even(6 + 3 * n);
            lemma_stripe_shift(12 + 6 * n, j);
        }
    }
}

/// Color-alternation law: across the emitted bar sequence from the Start
/// pattern through the Stop pattern (everything except the forced-black
/// terminator bar and the forced-white quiet zone at the end), consecutive
/// bars never share a color.
pub proof fn lemma_color_alternation(s: Seq<char>, off: int)
    ensures
        forall|i: int|
            0 <= i && i + 1 < layout_models(s, off).len() - 2 ==> #[trigger] layout_models(
                s,
                off,
            )[i].color != layout_models(s, off)[i + 1].color,
{
    lemma_layout_stripes(s, off);
    assert forall|i: int|
        0 <= i && i + 1 < layout_models(s, off).len() - 2 implies #[trigger] layout_models(
        s,
        off,
    )[i].color != layout_models(s, off)[i + 1].color by {
        lemma_add_mod_noop(i, 1, 2);
        assert(stripe(i) != stripe(i + 1)) by {
            if i % 2 == 0 {
                assert((i + 1) % 2 == 1);
            } else {
                assert((i + 1) % 2 == 0);
            }
        }
    }
}

} // verus!
