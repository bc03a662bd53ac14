//! Tests of the character-set codec: bit-exact table reproduction, the
//! printable ASCII identity, decode failures, and the round trip.

use myros::glyph::{Codec, Glyph, TryFromCharError, REPLACEMENT_INDEX};

/// The canonical 256-entry table, written out independently, row by row.
const EXPECTED_ROWS: [&str; 16] = [
    "\0☺☻♥♦♣♠•◘○◙♂♀♪♫☼",
    "►◄↕‼¶§▬↨↑↓→←∟↔▲▼",
    " !\"#$%&'()*+,-./",
    "0123456789:;<=>?",
    "@ABCDEFGHIJKLMNO",
    "PQRSTUVWXYZ[\\]^_",
    "`abcdefghijklmno",
    "pqrstuvwxyz{|}~⌂",
    "ÇüéâäàåçêëèïîìÄÅ",
    "ÉæÆôöòûùÿÖÜ¢£¥₧ƒ",
    "áíóúñÑªº¿⌐¬½¼¡«»",
    "░▒▓│┤╡╢╖╕╣║╗╝╜╛┐",
    "└┴┬├─┼╞╟╚╔╩╦╠═╬╧",
    "╨╤╥╙╘╒╓╫╪┘┌█▄▌▐▀",
    "αßΓπΣσµτΦΘΩδ∞φε∩",
    "≡±≥≤⌠⌡÷≈°∙·√ⁿ²■\u{00a0}",
];

fn expected_table() -> Vec<char> {
    let mut v: Vec<char> = Vec::new();
    for row in EXPECTED_ROWS.iter() {
        for c in row.chars() {
            v.push(c);
        }
    }
    assert_eq!(v.len(), 256);
    v
}

#[test]
fn table_bit_exact() {
    let codec = Codec::new();
    let expected = expected_table();
    for i in 0..=255u8 {
        assert_eq!(codec.to_char(Glyph::from_index(i)), expected[i as usize]);
    }
}

#[test]
fn printable_ascii_maps_by_identity() {
    let codec = Codec::new();
    let mut b = 0x20u8;
    while b <= 0x7e {
        let c = b as char;
        assert_eq!(codec.from_char(c), Ok(Glyph::from_index(b)));
        b += 1;
    }
}

#[test]
fn unmappable_scalars_fail() {
    let codec = Codec::new();
    for c in ['\u{20ac}', '\u{3042}', '\u{1f600}', '\n', '\t', '\r', '\u{7f}', '\u{ad}'] {
        assert_eq!(codec.from_char(c), Err(TryFromCharError));
    }
}

#[test]
fn round_trip_every_glyph() {
    let codec = Codec::new();
    for i in 0..=255u8 {
        let g = Glyph::from_index(i);
        assert_eq!(codec.from_char(codec.to_char(g)), Ok(g));
    }
}

#[test]
fn nonprintable_rows_decode_to_their_index() {
    let codec = Codec::new();
    let expected = expected_table();
    assert_eq!(codec.from_char(expected[0x01]), Ok(Glyph::from_index(0x01)));
    assert_eq!(codec.from_char(expected[0x1f]), Ok(Glyph::from_index(0x1f)));
    assert_eq!(codec.from_char(expected[0x7f]), Ok(Glyph::from_index(0x7f)));
    assert_eq!(codec.from_char(expected[0xff]), Ok(Glyph::from_index(0xff)));
}

#[test]
fn replacement_glyph_is_fixed() {
    assert_eq!(Glyph::replacement(), Glyph::from_index(0xfe));
    assert_eq!(REPLACEMENT_INDEX, 0xfe);
    let codec = Codec::new();
    assert_eq!(codec.to_char(Glyph::replacement()), '\u{25a0}');
}
