//! The renderer: bars to SVG rectangle markup.
//!
//! Every bar becomes one `<rect .../>` element carrying its horizontal
//! offset, the fixed vertical offset 10 and height 50, its width in modules
//! (one module renders as one unit), and its fill color.  The string-level
//! entry points wrap the layout engine: [`get_bars_for_string`] yields the
//! markup of the bar sequence alone, and [`generate_barcode`] wraps it in a
//! complete fixed-size SVG document with a leading quiet-zone rectangle.

use vstd::prelude::*;
use vstd::string::StringExecFns;

use crate::layout::{
    layout_bars, layout_models, models, push_symbol_bars, symbol_bars, Bar, BarColor, BarModel,
    UnsupportedCharacter,
};
use crate::symbols::{char_value, code_b_char};

verus! {

/// The decimal digit character for a value in [0, 9].
pub open spec fn digit_char(d: int) -> char {
    if d == 0 {
        '0'
    } else if d == 1 {
        '1'
    } else if d == 2 {
        '2'
    } else if d == 3 {
        '3'
    } else if d == 4 {
        '4'
    } else if d == 5 {
        '5'
    } else if d == 6 {
        '6'
    } else if d == 7 {
        '7'
    } else if d == 8 {
        '8'
    } else {
        '9'
    }
}

/// The decimal digits of a natural number, most significant first, with no
/// leading zeros (a single zero for 0).
pub open spec fn dec_digits(n: nat) -> Seq<char>
    decreases n,
{
    if n < 10 {
        seq![digit_char(n as int)]
    } else {
        dec_digits(n / 10) + seq![digit_char((n % 10) as int)]
    }
}

/// The decimal representation of an integer: a minus sign followed by the
/// digits of the magnitude when negative, the digits alone otherwise.
pub open spec fn dec_rep(x: int) -> Seq<char> {
    if x < 0 {
        seq!['-'] + dec_digits((-x) as nat)
    } else {
        dec_digits(x as nat)
    }
}

/// The fill-attribute name of a bar color.
pub open spec fn color_name(c: BarColor) -> Seq<char> {
    match c {
        BarColor::Black => "black"@,
        BarColor::White => "white"@,
    }
}

/// The markup of one bar: a `<rect/>` element at the bar's offset, vertical
/// offset 10, height 50, the bar's width, and its fill color.
pub open spec fn bar_markup(b: BarModel) -> Seq<char> {
    "<rect x=\""@ + dec_rep(b.x) + "\" y=\"10\" height=\"50\" width=\""@ + dec_rep(b.width)
        + "\" fill=\""@ + color_name(b.color) + "\"/>"@
}

/// The concatenated markup of a sequence of bars, in emission order.
pub open spec fn markup(bs: Seq<BarModel>) -> Seq<char>
    decreases bs.len(),
{
    if bs.len() == 0 {
        Seq::empty()
    } else {
        markup(bs.drop_last()) + bar_markup(bs.last())
    }
}

/// The opening of the SVG document: a fixed 300 by 70 canvas and the
/// leading 10-module quiet-zone rectangle.
pub open spec fn svg_header() -> Seq<char> {
    "<svg width=\"300\" height=\"70\" xmlns=\"http://www.w3.org/2000/svg\">\n    <rect x=\"0\" y=\"10\" width=\"10\" height=\"50\" fill=\"white\"/>"@
}

/// The closing of the SVG document.
pub open spec fn svg_footer() -> Seq<char> {
    "</svg>"@
}

/// Relies on String::push: appends exactly the one character at the end,
/// leaving the rest of the string unchanged.
#[verifier::external_body]
fn push_char(out: &mut String, c: char)
    ensures
        final(out)@ == old(out)@ + seq![c],
{
    out.push(c);
}

/// The decimal digit character for a value in [0, 9].
fn digit_to_char(d: u64) -> (c: char)
    requires
        d < 10,
    ensures
        c == digit_char(d as int),
{
    match d {
        0 => '0',
        1 => '1',
        2 => '2',
        3 => '3',
        4 => '4',
        5 => '5',
        6 => '6',
        7 => '7',
        8 => '8',
        9 => '9',
        _ => vstd::pervasive::unreached(),
    }
}

/// Appends the decimal digits of `n`, most significant first.
fn push_u64_digits(out: &mut String, n: u64)
    ensures
        final(out)@ == old(out)@ + dec_digits(n as nat),
    decreases n,
{
    if n < 10 {
        let c: char = digit_to_char(n);
        push_char(out, c);
    } else {
        push_u64_digits(out, n / 10);
        let c: char = digit_to_char(n % 10);
        push_char(out, c);
        proof {
            assert(out@ =~= old(out)@ + dec_digits(n as nat));
        }
    }
}

/// Appends the decimal representation of `x`, minus sign included when
/// negative.
fn push_i64_decimal(out: &mut String, x: i64)
    ensures
        final(out)@ == old(out)@ + dec_rep(x as int),
{
    if x < 0 {
        push_char(out, '-');
        let m: u64 = (-(x as i128)) as u64;
        proof {
            assert(m as nat == (-(x as int)) as nat);
        }
        push_u64_digits(out, m);
        proof {
            assert(out@ =~= old(out)@ + dec_rep(x as int));
        }
    } else {
        push_u64_digits(out, x as u64);
    }
}

/// Appends the fill-attribute name of a color.
fn push_color_name(out: &mut String, c: BarColor)
    ensures
        final(out)@ == old(out)@ + color_name(c),
{
    match c {
        BarColor::Black => out.append("black"),
        BarColor::White => out.append("white"),
    }
}

/// Appends the `<rect/>` element of one bar.
fn push_bar_markup(out: &mut String, b: &Bar)
    ensures
        final(out)@ == old(out)@ + bar_markup(b@),
{
    out.append("<rect x=\"");
    push_i64_decimal(out, b.x);
    out.append("\" y=\"10\" height=\"50\" width=\"");
    proof {
        assert(b.width as int >= 0);
        assert(dec_rep(b.width as int) == dec_digits(b.width as nat));
    }
    push_u64_digits(out, b.width);
    out.append("\" fill=\"");
    push_color_name(out, b.color);
    out.append("\"/>");
    proof {
        assert(out@ =~= old(out)@ + bar_markup(b@));
    }
}

/// Renders one bar as its `<rect/>` element.
pub fn render_bar(b: &Bar) -> (r: String)
    ensures
        r@ == bar_markup(b@),
{
    let mut out: String = String::new();
    push_bar_markup(&mut out, b);
    proof {
        assert(out@ =~= bar_markup(b@));
    }
    out
}

/// Renders a sequence of bars as concatenated `<rect/>` elements, in order.
pub fn render_bars(bars: &Vec<Bar>) -> (r: String)
    ensures
        r@ == markup(models(bars@)),
{
    let mut out: String = String::new();
    proof {
        assert(models(bars@).take(0) =~= Seq::<BarModel>::empty());
    }
    let mut i: usize = 0;
    while i < bars.len()
        invariant
            i <= bars@.len(),
            out@ == markup(models(bars@).take(i as int)),
        decreases bars@.len() - i,
    {
        let b: Bar = bars[i];
        push_bar_markup(&mut out, &b);
        proof {
            let ghost ms = models(bars@);
            assert(ms.take(i as int + 1).drop_last() =~= ms.take(i as int));
            assert(ms.take(i as int + 1).last() == ms[i as int]);
            assert(ms[i as int] == bars@[i as int]@);
            assert(out@ =~= markup(ms.take(i as int + 1)));
        }
        i = i + 1;
    }
    proof {
        assert(models(bars@).take(bars@.len() as int) =~= models(bars@));
    }
    out
}

/// Renders the six bars of one Code-Set-B character starting at the given
/// offset, black first with colors alternating.
pub fn get_bars_for_character(c: char, offset: i64) -> (r: String)
    requires
        code_b_char(c),
        offset as int + 11 <= i64::MAX as int,
    ensures
        r@ == markup(symbol_bars(char_value(c) as u8, offset as int)),
{
    let u: u32 = c as u32;
    let v: u8 = (u - 32) as u8;
    let mut bars: Vec<Bar> = Vec::new();
    let _end: i64 = push_symbol_bars(&mut bars, v, offset);
    proof {
        assert(models(bars@) =~= symbol_bars(v, offset as int));
    }
    render_bars(&bars)
}

/// Renders the markup of the full bar sequence for a data string, starting
/// at the caller-supplied offset.  Fails on the first character outside the
/// Code-Set-B alphabet, producing no output.
pub fn get_bars_for_string(s: &str, offset: i64) -> (r: Result<String, UnsupportedCharacter>)
    requires
        offset as int + 45 + 11 * s@.len() <= i64::MAX as int,
    ensures
        r is Ok <==> (forall|i: int| 0 <= i < s@.len() ==> code_b_char(#[trigger] s@[i])),
        r matches Ok(out) ==> out@ == markup(layout_models(s@, offset as int)),
        r matches Err(e) ==> {
            &&& e.position < s@.len()
            &&& e.character == s@[e.position as int]
            &&& !code_b_char(e.character)
            &&& forall|j: int| 0 <= j < e.position ==> code_b_char(#[trigger] s@[j])
        },
{
    match layout_bars(s, offset) {
        Ok(p) => Ok(render_bars(&p.0)),
        Err(e) => Err(e),
    }
}

/// Renders a complete SVG document for the barcode of `value`: the fixed
/// 300 by 70 canvas, the leading quiet-zone rectangle, one rectangle per
/// bar of the layout starting at offset 10, and the closing tag.  Fails on
/// the first character outside the Code-Set-B alphabet, producing no
/// output.
pub fn generate_barcode(value: &str) -> (r: Result<String, UnsupportedCharacter>)
    requires
        55 + 11 * value@.len() <= i64::MAX as int,
    ensures
        r is Ok <==> (forall|i: int| 0 <= i < value@.len() ==> code_b_char(#[trigger] value@[i])),
        r matches Ok(out) ==> out@ == svg_header() + markup(layout_models(value@, 10))
            + svg_footer(),
        r matches Err(e) ==> {
            &&& e.position < value@.len()
            &&& e.character == value@[e.position as int]
            &&& !code_b_char(e.character)
            &&& forall|j: int| 0 <= j < e.position ==> code_b_char(#[trigger] value@[j])
        },
{
    let content: String = match get_bars_for_string(value, 10) {
        Ok(c) => c,
        Err(e) => {
            return Err(e);
        },
    };
    let mut out: String = String::new();
    out.append(
        "<svg width=\"300\" height=\"70\" xmlns=\"http://www.w3.org/2000/svg\">\n    <rect x=\"0\" y=\"10\" width=\"10\" height=\"50\" fill=\"white\"/>",
    );
    out.append(content.as_str());
    out.append("</svg>");
    proof {
        assert(out@ =~= svg_header() + markup(layout_models(value@, 10)) + svg_footer());
    }
    Ok(out)
}

/// The alternate document entry point; it renders nothing and returns the
/// empty string.
pub fn get_svg_barcode(_value: &str) -> (r: String)
    ensures
        r@ == Seq::<char>::empty(),
{
    String::new()
}

} // verus!

