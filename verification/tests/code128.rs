use code128::checksum::calculate_checksum;
use code128::layout::{layout_bars, validate, Bar, BarColor, UnsupportedCharacter};
use code128::render::{
    generate_barcode, get_bars_for_character, get_bars_for_string, get_svg_barcode, render_bar,
    render_bars,
};
use code128::symbols::{get_widths, symbol_value_for, width_pattern_for};

#[test]
fn get_widths_for_C() {
    assert_eq!(get_widths('C'), [1, 3, 1, 3, 2, 1])
}

#[test]
fn get_bars_for_C() {
    let mut expected = String::new();
    expected.push_str(r#"<rect x="21" y="10" height="50" width="1" fill="black"/>"#);
    expected.push_str(r#"<rect x="22" y="10" height="50" width="3" fill="white"/>"#);
    expected.push_str(r#"<rect x="25" y="10" height="50" width="1" fill="black"/>"#);
    expected.push_str(r#"<rect x="26" y="10" height="50" width="3" fill="white"/>"#);
    expected.push_str(r#"<rect x="29" y="10" height="50" width="2" fill="black"/>"#);
    expected.push_str(r#"<rect x="31" y="10" height="50" width="1" fill="white"/>"#);

    assert_eq!(get_bars_for_character('C', 21), expected)
}

fn expected_bars_cs() -> String {
    let mut expected = String::new();
    // Start B
    expected.push_str(r#"<rect x="10" y="10" height="50" width="2" fill="black"/>"#);
    expected.push_str(r#"<rect x="12" y="10" height="50" width="1" fill="white"/>"#);
    expected.push_str(r#"<rect x="13" y="10" height="50" width="1" fill="black"/>"#);
    expected.push_str(r#"<rect x="14" y="10" height="50" width="2" fill="white"/>"#);
    expected.push_str(r#"<rect x="16" y="10" height="50" width="1" fill="black"/>"#);
    expected.push_str(r#"<rect x="17" y="10" height="50" width="4" fill="white"/>"#);
    // C
    expected.push_str(r#"<rect x="21" y="10" height="50" width="1" fill="black"/>"#);
    expected.push_str(r#"<rect x="22" y="10" height="50" width="3" fill="white"/>"#);
    expected.push_str(r#"<rect x="25" y="10" height="50" width="1" fill="black"/>"#);
    expected.push_str(r#"<rect x="26" y="10" height="50" width="3" fill="white"/>"#);
    expected.push_str(r#"<rect x="29" y="10" height="50" width="2" fill="black"/>"#);
    expected.push_str(r#"<rect x="31" y="10" height="50" width="1" fill="white"/>"#);
    // S
    expected.push_str(r#"<rect x="32" y="10" height="50" width="2" fill="black"/>"#);
    expected.push_str(r#"<rect x="34" y="10" height="50" width="1" fill="white"/>"#);
    expected.push_str(r#"<rect x="35" y="10" height="50" width="3" fill="black"/>"#);
    expected.push_str(r#"<rect x="38" y="10" height="50" width="1" fill="white"/>"#);
    expected.push_str(r#"<rect x="39" y="10" height="50" width="1" fill="black"/>"#);
    expected.push_str(r#"<rect x="40" y="10" height="50" width="3" fill="white"/>"#);
    // Checksum
    expected.push_str(r#"<rect x="43" y="10" height="50" width="1" fill="black"/>"#);
    expected.push_str(r#"<rect x="44" y="10" height="50" width="3" fill="white"/>"#);
    expected.push_str(r#"<rect x="47" y="10" height="50" width="1" fill="black"/>"#);
    expected.push_str(r#"<rect x="48" y="10" height="50" width="3" fill="white"/>"#);
    expected.push_str(r#"<rect x="51" y="10" height="50" width="2" fill="black"/>"#);
    expected.push_str(r#"<rect x="53" y="10" height="50" width="1" fill="white"/>"#);
    // Stop
    expected.push_str(r#"<rect x="54" y="10" height="50" width="2" fill="black"/>"#);
    expected.push_str(r#"<rect x="56" y="10" height="50" width="3" fill="white"/>"#);
    expected.push_str(r#"<rect x="59" y="10" height="50" width="3" fill="black"/>"#);
    expected.push_str(r#"<rect x="62" y="10" height="50" width="1" fill="white"/>"#);
    expected.push_str(r#"<rect x="63" y="10" height="50" width="1" fill="black"/>"#);
    expected.push_str(r#"<rect x="64" y="10" height="50" width="1" fill="white"/>"#);
    // Stop Bar
    expected.push_str(r#"<rect x="65" y="10" height="50" width="2" fill="black"/>"#);
    // Quiet zone
    expected.push_str(r#"<rect x="67" y="10" height="50" width="10" fill="white"/>"#);
    expected
}

#[test]
fn get_bars_for_CS() {
    assert_eq!(get_bars_for_string("CS", 10).unwrap(), expected_bars_cs())
}

#[test]
fn test_checksum_cse370() {
    assert_eq!(calculate_checksum("cse370"), 7)
}

#[test]
fn checksum_of_empty_string_is_one() {
    assert_eq!(calculate_checksum(""), 1)
}

#[test]
fn widths_sum_to_eleven_for_every_code_b_character() {
    for u in 32u32..=126u32 {
        let c = char::from_u32(u).unwrap();
        let widths = get_widths(c);
        let total: u32 = widths.iter().map(|w| *w as u32).sum();
        assert_eq!(total, 11);
    }
}

#[test]
fn symbol_values_span_the_alphabet() {
    assert_eq!(symbol_value_for(' '), Some(0));
    assert_eq!(symbol_value_for('C'), Some(35));
    assert_eq!(symbol_value_for('~'), Some(94));
    assert_eq!(symbol_value_for('\t'), None);
    assert_eq!(symbol_value_for('\u{1f0}'), None);
}

#[test]
fn width_patterns_of_special_symbols() {
    assert_eq!(width_pattern_for(104), [2, 1, 1, 2, 1, 4]);
    assert_eq!(width_pattern_for(106), [2, 3, 3, 1, 1, 1]);
}

#[test]
fn layout_widths_sum_to_canvas_consumption() {
    let (bars, end) = layout_bars("hello", 10).unwrap();
    let total: u64 = bars.iter().map(|b| b.width).sum();
    assert_eq!(total, 45 + 11 * 5);
    assert_eq!(end, 10 + 45 + 11 * 5);
    assert_eq!(bars.len(), 6 * 5 + 20);
}

#[test]
fn every_printable_ascii_string_encodes() {
    let mut all = String::new();
    for u in 32u32..=126u32 {
        all.push(char::from_u32(u).unwrap());
    }
    assert!(layout_bars(&all, 10).is_ok());
    assert!(get_bars_for_string(&all, 10).is_ok());
    assert!(generate_barcode(&all).is_ok());
}

#[test]
fn colors_alternate_up_to_the_terminator() {
    let (bars, _end) = layout_bars("Verus", 0).unwrap();
    let n = bars.len();
    for i in 0..n - 3 {
        assert_ne!(bars[i].color, bars[i + 1].color);
    }
    assert_eq!(bars[n - 2].color, BarColor::Black);
    assert_eq!(bars[n - 2].width, 2);
    assert_eq!(bars[n - 1].color, BarColor::White);
    assert_eq!(bars[n - 1].width, 10);
}

#[test]
fn character_bars_match_the_golden_vector() {
    // "C" encoded at offset 10 puts the character's six bars at offset 21.
    let (bars, _end) = layout_bars("C", 10).unwrap();
    let xs: Vec<i64> = bars[6..12].iter().map(|b| b.x).collect();
    let widths: Vec<u64> = bars[6..12].iter().map(|b| b.width).collect();
    assert_eq!(xs, vec![21, 22, 25, 26, 29, 31]);
    assert_eq!(widths, vec![1, 3, 1, 3, 2, 1]);
    for (i, b) in bars[6..12].iter().enumerate() {
        let expected = if i % 2 == 0 { BarColor::Black } else { BarColor::White };
        assert_eq!(b.color, expected);
    }
}

#[test]
fn two_character_layout_ends_with_the_quiet_zone() {
    let (bars, end) = layout_bars("CS", 10).unwrap();
    assert_eq!(bars.len(), 32);
    let last = bars[31];
    assert_eq!(last.x, 67);
    assert_eq!(last.width, 10);
    assert_eq!(last.color, BarColor::White);
    assert_eq!(end, 77);
    assert_eq!(render_bars(&bars), expected_bars_cs());
}

#[test]
fn rejects_a_control_character() {
    let err = UnsupportedCharacter { character: '\n', position: 0 };
    assert_eq!(validate("\n"), Err(err));
    assert_eq!(layout_bars("\nabc", 10).unwrap_err(), err);
    assert_eq!(get_bars_for_string("\nabc", 10).unwrap_err(), err);
    assert_eq!(generate_barcode("\nabc").unwrap_err(), err);
}

#[test]
fn rejects_an_accented_letter_at_its_position() {
    let err = UnsupportedCharacter { character: '\u{e9}', position: 3 };
    assert_eq!(generate_barcode("caf\u{e9}").unwrap_err(), err);
    assert_eq!(layout_bars("caf\u{e9} au lait", 10).unwrap_err(), err);
}

#[test]
fn rejects_the_delete_character() {
    let err = UnsupportedCharacter { character: '\u{7f}', position: 1 };
    assert_eq!(validate("a\u{7f}b"), Err(err));
}

#[test]
fn renders_one_bar_with_a_negative_offset() {
    let bar = Bar { x: -3, width: 7, color: BarColor::White };
    assert_eq!(render_bar(&bar), r#"<rect x="-3" y="10" height="50" width="7" fill="white"/>"#);
}

#[test]
fn generates_the_full_svg_document() {
    let mut expected = String::new();
    expected.push_str("<svg width=\"300\" height=\"70\" xmlns=\"http://www.w3.org/2000/svg\">\n");
    expected.push_str(r#"    <rect x="0" y="10" width="10" height="50" fill="white"/>"#);
    expected.push_str(&expected_bars_cs());
    expected.push_str("</svg>");
    assert_eq!(generate_barcode("CS").unwrap(), expected);
}

#[test]
fn alternate_entry_point_renders_nothing() {
    assert_eq!(get_svg_barcode("CS"), "");
}

#[test]
fn empty_string_still_emits_framing() {
    let (bars, end) = layout_bars("", 10).unwrap();
    assert_eq!(bars.len(), 20);
    assert_eq!(end, 10 + 45);
    // The checksum degenerates to 104 % 103 == 1, whose pattern is 2,2,2,1,2,2.
    let ck: Vec<u64> = bars[6..12].iter().map(|b| b.width).collect();
    assert_eq!(ck, vec![2, 2, 2, 1, 2, 2]);
}

#[test]
fn colors_toggle() {
    assert_eq!(BarColor::Black.flip(), BarColor::White);
    assert_eq!(BarColor::White.flip(), BarColor::Black);
}
