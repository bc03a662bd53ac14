//! The character set: a fixed 256-symbol table mapping glyph indices to
//! Unicode scalars, with encode and decode.
//!
//! Every byte is a valid glyph index. Decoding a scalar back to a glyph is
//! partial: printable ASCII maps by identity, every other scalar is resolved
//! through a reverse table built once, sorted by scalar, and searched by
//! binary search.

use vstd::prelude::*;

verus! {

/// A glyph: a one-byte index into the fixed 256-symbol character set.
#[derive(Debug, Copy, Clone, Eq, PartialEq, Ord, PartialOrd, Default, Structural)]
pub struct Glyph(pub u8);

/// The glyph index that replaces scalars with no glyph of their own.
pub const REPLACEMENT_INDEX: u8 = 0xfe;

impl Glyph {
    /// Returns the `Glyph` by index. This is not the ASCII value: the index
    /// of each glyph comes from the character set's own layout.
    pub fn from_index(index: u8) -> (g: Glyph)
        ensures
            g.0 == index,
    {
        Glyph(index)
    }

    /// The glyph that replaces scalars which cannot be converted.
    pub fn replacement() -> (g: Glyph)
        ensures
            g.0 == REPLACEMENT_INDEX,
    {
        Glyph(REPLACEMENT_INDEX)
    }
}

/// An error from an attempt to convert a scalar that has no glyph.
#[derive(Debug, Copy, Clone, Eq, PartialEq, Default, Structural)]
pub struct TryFromCharError;

/// The character-set table: entry `i` is the scalar displayed for glyph
/// index `i`.
pub open spec fn table() -> Seq<char> {
    seq![
        '\0', '☺', '☻', '♥', '♦', '♣', '♠', '•', '◘', '○', '◙', '♂', '♀', '♪', '♫', '☼',
        '►', '◄', '↕', '‼', '¶', '§', '▬', '↨', '↑', '↓', '→', '←', '∟', '↔', '▲', '▼',
        ' ', '!', '"', '#', '$', '%', '&', '\'', '(', ')', '*', '+', ',', '-', '.', '/',
        '0', '1', '2', '3', '4', '5', '6', '7', '8', '9', ':', ';', '<', '=', '>', '?',
        '@', 'A', 'B', 'C', 'D', 'E', 'F', 'G', 'H', 'I', 'J', 'K', 'L', 'M', 'N', 'O',
        'P', 'Q', 'R', 'S', 'T', 'U', 'V', 'W', 'X', 'Y', 'Z', '[', '\\', ']', '^', '_',
        '`', 'a', 'b', 'c', 'd', 'e', 'f', 'g', 'h', 'i', 'j', 'k', 'l', 'm', 'n', 'o',
        'p', 'q', 'r', 's', 't', 'u', 'v', 'w', 'x', 'y', 'z', '{', '|', '}', '~', '⌂',
        'Ç', 'ü', 'é', 'â', 'ä', 'à', 'å', 'ç', 'ê', 'ë', 'è', 'ï', 'î', 'ì', 'Ä', 'Å',
        'É', 'æ', 'Æ', 'ô', 'ö', 'ò', 'û', 'ù', 'ÿ', 'Ö', 'Ü', '¢', '£', '¥', '₧', 'ƒ',
        'á', 'í', 'ó', 'ú', 'ñ', 'Ñ', 'ª', 'º', '¿', '⌐', '¬', '½', '¼', '¡', '«', '»',
        '░', '▒', '▓', '│', '┤', '╡', '╢', '╖', '╕', '╣', '║', '╗', '╝', '╜', '╛', '┐',
        '└', '┴', '┬', '├', '─', '┼', '╞', '╟', '╚', '╔', '╩', '╦', '╠', '═', '╬', '╧',
        '╨', '╤', '╥', '╙', '╘', '╒', '╓', '╫', '╪', '┘', '┌', '█', '▄', '▌', '▐', '▀',
        'α', 'ß', 'Γ', 'π', 'Σ', 'σ', 'µ', 'τ', 'Φ', 'Θ', 'Ω', 'δ', '∞', 'φ', 'ε', '∩',
        '≡', '±', '≥', '≤', '⌠', '⌡', '÷', '≈', '°', '∙', '·', '√', 'ⁿ', '²', '■', '\u{00a0}',
    ]
}

/// The scalar displayed for a glyph.
pub open spec fn char_of(g: Glyph) -> char {
    table()[g.0 as int]
}

/// Builds the character-set table.
fn build_table() -> (t: [char; 256])
    ensures
        t@ == table(),
{
    let t: [char; 256] = [
        '\0', '☺', '☻', '♥', '♦', '♣', '♠', '•', '◘', '○', '◙', '♂', '♀', '♪', '♫', '☼',
        '►', '◄', '↕', '‼', '¶', '§', '▬', '↨', '↑', '↓', '→', '←', '∟', '↔', '▲', '▼',
        ' ', '!', '"', '#', '$', '%', '&', '\'', '(', ')', '*', '+', ',', '-', '.', '/',
        '0', '1', '2', '3', '4', '5', '6', '7', '8', '9', ':', ';', '<', '=', '>', '?',
        '@', 'A', 'B', 'C', 'D', 'E', 'F', 'G', 'H', 'I', 'J', 'K', 'L', 'M', 'N', 'O',
        'P', 'Q', 'R', 'S', 'T', 'U', 'V', 'W', 'X', 'Y', 'Z', '[', '\\', ']', '^', '_',
        '`', 'a', 'b', 'c', 'd', 'e', 'f', 'g', 'h', 'i', 'j', 'k', 'l', 'm', 'n', 'o',
        'p', 'q', 'r', 's', 't', 'u', 'v', 'w', 'x', 'y', 'z', '{', '|', '}', '~', '⌂',
        'Ç', 'ü', 'é', 'â', 'ä', 'à', 'å', 'ç', 'ê', 'ë', 'è', 'ï', 'î', 'ì', 'Ä', 'Å',
        'É', 'æ', 'Æ', 'ô', 'ö', 'ò', 'û', 'ù', 'ÿ', 'Ö', 'Ü', '¢', '£', '¥', '₧', 'ƒ',
        'á', 'í', 'ó', 'ú', 'ñ', 'Ñ', 'ª', 'º', '¿', '⌐', '¬', '½', '¼', '¡', '«', '»',
        '░', '▒', '▓', '│', '┤', '╡', '╢', '╖', '╕', '╣', '║', '╗', '╝', '╜', '╛', '┐',
        '└', '┴', '┬', '├', '─', '┼', '╞', '╟', '╚', '╔', '╩', '╦', '╠', '═', '╬', '╧',
        '╨', '╤', '╥', '╙', '╘', '╒', '╓', '╫', '╪', '┘', '┌', '█', '▄', '▌', '▐', '▀',
        'α', 'ß', 'Γ', 'π', 'Σ', 'σ', 'µ', 'τ', 'Φ', 'Θ', 'Ω', 'δ', '∞', 'φ', 'ε', '∩',
        '≡', '±', '≥', '≤', '⌠', '⌡', '÷', '≈', '°', '∙', '·', '√', 'ⁿ', '²', '■', '\u{00a0}',
    ];
    t
}

/// The inverse of the table, written out by scalar value: the glyph index
/// displaying a scalar, or -1 for a scalar with no glyph. It certifies
/// that the table is injective; `lemma_table_inverse` holds it to the
/// table itself.
#[verifier::opaque]
pub open spec fn table_index_of(v: u32) -> int {
    if v == 0x0000 {
        0
    } else if v == 0x263a {
        1
    } else if v == 0x263b {
        2
    } else if v == 0x2665 {
        3
    } else if v == 0x2666 {
        4
    } else if v == 0x2663 {
        5
    } else if v == 0x2660 {
        6
    } else if v == 0x2022 {
        7
    } else if v == 0x25d8 {
        8
    } else if v == 0x25cb {
        9
    } else if v == 0x25d9 {
        10
    } else if v == 0x2642 {
        11
    } else if v == 0x2640 {
        12
    } else if v == 0x266a {
        13
    } else if v == 0x266b {
        14
    } else if v == 0x263c {
        15
    } else if v == 0x25ba {
        16
    } else if v == 0x25c4 {
        17
    } else if v == 0x2195 {
        18
    } else if v == 0x203c {
        19
    } else if v == 0x00b6 {
        20
    } else if v == 0x00a7 {
        21
    } else if v == 0x25ac {
        22
    } else if v == 0x21a8 {
        23
    } else if v == 0x2191 {
        24
    } else if v == 0x2193 {
        25
    } else if v == 0x2192 {
        26
    } else if v == 0x2190 {
        27
    } else if v == 0x221f {
        28
    } else if v == 0x2194 {
        29
    } else if v == 0x25b2 {
        30
    } else if v == 0x25bc {
        31
    } else if v == 0x0020 {
        32
    } else if v == 0x0021 {
        33
    } else if v == 0x0022 {
        34
    } else if v == 0x0023 {
        35
    } else if v == 0x0024 {
        36
    } else if v == 0x0025 {
        37
    } else if v == 0x0026 {
        38
    } else if v == 0x0027 {
        39
    } else if v == 0x0028 {
        40
    } else if v == 0x0029 {
        41
    } else if v == 0x002a {
        42
    } else if v == 0x002b {
        43
    } else if v == 0x002c {
        44
    } else if v == 0x002d {
        45
    } else if v == 0x002e {
        46
    } else if v == 0x002f {
        47
    } else if v == 0x0030 {
        48
    } else if v == 0x0031 {
        49
    } else if v == 0x0032 {
        50
    } else if v == 0x0033 {
        51
    } else if v == 0x0034 {
        52
    } else if v == 0x0035 {
        53
    } else if v == 0x0036 {
        54
    } else if v == 0x0037 {
        55
    } else if v == 0x0038 {
        56
    } else if v == 0x0039 {
        57
    } else if v == 0x003a {
        58
    } else if v == 0x003b {
        59
    } else if v == 0x003c {
        60
    } else if v == 0x003d {
        61
    } else if v == 0x003e {
        62
    } else if v == 0x003f {
        63
    } else if v == 0x0040 {
        64
    } else if v == 0x0041 {
        65
    } else if v == 0x0042 {
        66
    } else if v == 0x0043 {
        67
    } else if v == 0x0044 {
        68
    } else if v == 0x0045 {
        69
    } else if v == 0x0046 {
        70
    } else if v == 0x0047 {
        71
    } else if v == 0x0048 {
        72
    } else if v == 0x0049 {
        73
    } else if v == 0x004a {
        74
    } else if v == 0x004b {
        75
    } else if v == 0x004c {
        76
    } else if v == 0x004d {
        77
    } else if v == 0x004e {
        78
    } else if v == 0x004f {
        79
    } else if v == 0x0050 {
        80
    } else if v == 0x0051 {
        81
    } else if v == 0x0052 {
        82
    } else if v == 0x0053 {
        83
    } else if v == 0x0054 {
        84
    } else if v == 0x0055 {
        85
    } else if v == 0x0056 {
        86
    } else if v == 0x0057 {
        87
    } else if v == 0x0058 {
        88
    } else if v == 0x0059 {
        89
    } else if v == 0x005a {
        90
    } else if v == 0x005b {
        91
    } else if v == 0x005c {
        92
    } else if v == 0x005d {
        93
    } else if v == 0x005e {
        94
    } else if v == 0x005f {
        95
    } else if v == 0x0060 {
        96
    } else if v == 0x0061 {
        97
    } else if v == 0x0062 {
        98
    } else if v == 0x0063 {
        99
    } else if v == 0x0064 {
        100
    } else if v == 0x0065 {
        101
    } else if v == 0x0066 {
        102
    } else if v == 0x0067 {
        103
    } else if v == 0x0068 {
        104
    } else if v == 0x0069 {
        105
    } else if v == 0x006a {
        106
    } else if v == 0x006b {
        107
    } else if v == 0x006c {
        108
    } else if v == 0x006d {
        109
    } else if v == 0x006e {
        110
    } else if v == 0x006f {
        111
    } else if v == 0x0070 {
        112
    } else if v == 0x0071 {
        113
    } else if v == 0x0072 {
        114
    } else if v == 0x0073 {
        115
    } else if v == 0x0074 {
        116
    } else if v == 0x0075 {
        117
    } else if v == 0x0076 {
        118
    } else if v == 0x0077 {
        119
    } else if v == 0x0078 {
        120
    } else if v == 0x0079 {
        121
    } else if v == 0x007a {
        122
    } else if v == 0x007b {
        123
    } else if v == 0x007c {
        124
    } else if v == 0x007d {
        125
    } else if v == 0x007e {
        126
    } else if v == 0x2302 {
        127
    } else if v == 0x00c7 {
        128
    } else if v == 0x00fc {
        129
    } else if v == 0x00e9 {
        130
    } else if v == 0x00e2 {
        131
    } else if v == 0x00e4 {
        132
    } else if v == 0x00e0 {
        133
    } else if v == 0x00e5 {
        134
    } else if v == 0x00e7 {
        135
    } else if v == 0x00ea {
        136
    } else if v == 0x00eb {
        137
    } else if v == 0x00e8 {
        138
    } else if v == 0x00ef {
        139
    } else if v == 0x00ee {
        140
    } else if v == 0x00ec {
        141
    } else if v == 0x00c4 {
        142
    } else if v == 0x00c5 {
        143
    } else if v == 0x00c9 {
        144
    } else if v == 0x00e6 {
        145
    } else if v == 0x00c6 {
        146
    } else if v == 0x00f4 {
        147
    } else if v == 0x00f6 {
        148
    } else if v == 0x00f2 {
        149
    } else if v == 0x00fb {
        150
    } else if v == 0x00f9 {
        151
    } else if v == 0x00ff {
        152
    } else if v == 0x00d6 {
        153
    } else if v == 0x00dc {
        154
    } else if v == 0x00a2 {
        155
    } else if v == 0x00a3 {
        156
    } else if v == 0x00a5 {
        157
    } else if v == 0x20a7 {
        158
    } else if v == 0x0192 {
        159
    } else if v == 0x00e1 {
        160
    } else if v == 0x00ed {
        161
    } else if v == 0x00f3 {
        162
    } else if v == 0x00fa {
        163
    } else if v == 0x00f1 {
        164
    } else if v == 0x00d1 {
        165
    } else if v == 0x00aa {
        166
    } else if v == 0x00ba {
        167
    } else if v == 0x00bf {
        168
    } else if v == 0x2310 {
        169
    } else if v == 0x00ac {
        170
    } else if v == 0x00bd {
        171
    } else if v == 0x00bc {
        172
    } else if v == 0x00a1 {
        173
    } else if v == 0x00ab {
        174
    } else if v == 0x00bb {
        175
    } else if v == 0x2591 {
        176
    } else if v == 0x2592 {
        177
    } else if v == 0x2593 {
        178
    } else if v == 0x2502 {
        179
    } else if v == 0x2524 {
        180
    } else if v == 0x2561 {
        181
    } else if v == 0x2562 {
        182
    } else if v == 0x2556 {
        183
    } else if v == 0x2555 {
        184
    } else if v == 0x2563 {
        185
    } else if v == 0x2551 {
        186
    } else if v == 0x2557 {
        187
    } else if v == 0x255d {
        188
    } else if v == 0x255c {
        189
    } else if v == 0x255b {
        190
    } else if v == 0x2510 {
        191
    } else if v == 0x2514 {
        192
    } else if v == 0x2534 {
        193
    } else if v == 0x252c {
        194
    } else if v == 0x251c {
        195
    } else if v == 0x2500 {
        196
    } else if v == 0x253c {
        197
    } else if v == 0x255e {
        198
    } else if v == 0x255f {
        199
    } else if v == 0x255a {
        200
    } else if v == 0x2554 {
        201
    } else if v == 0x2569 {
        202
    } else if v == 0x2566 {
        203
    } else if v == 0x2560 {
        204
    } else if v == 0x2550 {
        205
    } else if v == 0x256c {
        206
    } else if v == 0x2567 {
        207
    } else if v == 0x2568 {
        208
    } else if v == 0x2564 {
        209
    } else if v == 0x2565 {
        210
    } else if v == 0x2559 {
        211
    } else if v == 0x2558 {
        212
    } else if v == 0x2552 {
        213
    } else if v == 0x2553 {
        214
    } else if v == 0x256b {
        215
    } else if v == 0x256a {
        216
    } else if v == 0x2518 {
        217
    } else if v == 0x250c {
        218
    } else if v == 0x2588 {
        219
    } else if v == 0x2584 {
        220
    } else if v == 0x258c {
        221
    } else if v == 0x2590 {
        222
    } else if v == 0x2580 {
        223
    } else if v == 0x03b1 {
        224
    } else if v == 0x00df {
        225
    } else if v == 0x0393 {
        226
    } else if v == 0x03c0 {
        227
    } else if v == 0x03a3 {
        228
    } else if v == 0x03c3 {
        229
    } else if v == 0x00b5 {
        230
    } else if v == 0x03c4 {
        231
    } else if v == 0x03a6 {
        232
    } else if v == 0x0398 {
        233
    } else if v == 0x03a9 {
        234
    } else if v == 0x03b4 {
        235
    } else if v == 0x221e {
        236
    } else if v == 0x03c6 {
        237
    } else if v == 0x03b5 {
        238
    } else if v == 0x2229 {
        239
    } else if v == 0x2261 {
        240
    } else if v == 0x00b1 {
        241
    } else if v == 0x2265 {
        242
    } else if v == 0x2264 {
        243
    } else if v == 0x2320 {
        244
    } else if v == 0x2321 {
        245
    } else if v == 0x00f7 {
        246
    } else if v == 0x2248 {
        247
    } else if v == 0x00b0 {
        248
    } else if v == 0x2219 {
        249
    } else if v == 0x00b7 {
        250
    } else if v == 0x221a {
        251
    } else if v == 0x207f {
        252
    } else if v == 0x00b2 {
        253
    } else if v == 0x25a0 {
        254
    } else if v == 0x00a0 {
        255
    } else {
        -1
    }
}

proof fn lemma_table_inverse_block_0()
    ensures
        forall|i: int| 0 <= i < 64 ==> table_index_of((#[trigger] table()[i]) as u32) == i,
{
    reveal(table_index_of);
    assert forall|i: int| 0 <= i < 64 implies table_index_of((#[trigger] table()[i]) as u32) == i by {
        if i == 0 {
            assert(table_index_of(table()[0] as u32) == 0);
        } else if i == 1 {
            assert(table_index_of(table()[1] as u32) == 1);
        } else if i == 2 {
            assert(table_index_of(table()[2] as u32) == 2);
        } else if i == 3 {
            assert(table_index_of(table()[3] as u32) == 3);
        } else if i == 4 {
            assert(table_index_of(table()[4] as u32) == 4);
        } else if i == 5 {
            assert(table_index_of(table()[5] as u32) == 5);
        } else if i == 6 {
            assert(table_index_of(table()[6] as u32) == 6);
        } else if i == 7 {
            assert(table_index_of(table()[7] as u32) == 7);
        } else if i == 8 {
            assert(table_index_of(table()[8] as u32) == 8);
        } else if i == 9 {
            assert(table_index_of(table()[9] as u32) == 9);
        } else if i == 10 {
            assert(table_index_of(table()[10] as u32) == 10);
        } else if i == 11 {
            assert(table_index_of(table()[11] as u32) == 11);
        } else if i == 12 {
            assert(table_index_of(table()[12] as u32) == 12);
        } else if i == 13 {
            assert(table_index_of(table()[13] as u32) == 13);
        } else if i == 14 {
            assert(table_index_of(table()[14] as u32) == 14);
        } else if i == 15 {
            assert(table_index_of(table()[15] as u32) == 15);
        } else if i == 16 {
            assert(table_index_of(table()[16] as u32) == 16);
        } else if i == 17 {
            assert(table_index_of(table()[17] as u32) == 17);
        } else if i == 18 {
            assert(table_index_of(table()[18] as u32) == 18);
        } else if i == 19 {
            assert(table_index_of(table()[19] as u32) == 19);
        } else if i == 20 {
            assert(table_index_of(table()[20] as u32) == 20);
        } else if i == 21 {
            assert(table_index_of(table()[21] as u32) == 21);
        } else if i == 22 {
            assert(table_index_of(table()[22] as u32) == 22);
        } else if i == 23 {
            assert(table_index_of(table()[23] as u32) == 23);
        } else if i == 24 {
            assert(table_index_of(table()[24] as u32) == 24);
        } else if i == 25 {
            assert(table_index_of(table()[25] as u32) == 25);
        } else if i == 26 {
            assert(table_index_of(table()[26] as u32) == 26);
        } else if i == 27 {
            assert(table_index_of(table()[27] as u32) == 27);
        } else if i == 28 {
            assert(table_index_of(table()[28] as u32) == 28);
        } else if i == 29 {
            assert(table_index_of(table()[29] as u32) == 29);
        } else if i == 30 {
            assert(table_index_of(table()[30] as u32) == 30);
        } else if i == 31 {
            assert(table_index_of(table()[31] as u32) == 31);
        } else if i == 32 {
            assert(table_index_of(table()[32] as u32) == 32);
        } else if i == 33 {
            assert(table_index_of(table()[33] as u32) == 33);
        } else if i == 34 {
            assert(table_index_of(table()[34] as u32) == 34);
        } else if i == 35 {
            assert(table_index_of(table()[35] as u32) == 35);
        } else if i == 36 {
            assert(table_index_of(table()[36] as u32) == 36);
        } else if i == 37 {
            assert(table_index_of(table()[37] as u32) == 37);
        } else if i == 38 {
            assert(table_index_of(table()[38] as u32) == 38);
        } else if i == 39 {
            assert(table_index_of(table()[39] as u32) == 39);
        } else if i == 40 {
            assert(table_index_of(table()[40] as u32) == 40);
        } else if i == 41 {
            assert(table_index_of(table()[41] as u32) == 41);
        } else if i == 42 {
            assert(table_index_of(table()[42] as u32) == 42);
        } else if i == 43 {
            assert(table_index_of(table()[43] as u32) == 43);
        } else if i == 44 {
            assert(table_index_of(table()[44] as u32) == 44);
        } else if i == 45 {
            assert(table_index_of(table()[45] as u32) == 45);
        } else if i == 46 {
            assert(table_index_of(table()[46] as u32) == 46);
        } else if i == 47 {
            assert(table_index_of(table()[47] as u32) == 47);
        } else if i == 48 {
            assert(table_index_of(table()[48] as u32) == 48);
        } else if i == 49 {
            assert(table_index_of(table()[49] as u32) == 49);
        } else if i == 50 {
            assert(table_index_of(table()[50] as u32) == 50);
        } else if i == 51 {
            assert(table_index_of(table()[51] as u32) == 51);
        } else if i == 52 {
            assert(table_index_of(table()[52] as u32) == 52);
        } else if i == 53 {
            assert(table_index_of(table()[53] as u32) == 53);
        } else if i == 54 {
            assert(table_index_of(table()[54] as u32) == 54);
        } else if i == 55 {
            assert(table_index_of(table()[55] as u32) == 55);
        } else if i == 56 {
            assert(table_index_of(table()[56] as u32) == 56);
        } else if i == 57 {
            assert(table_index_of(table()[57] as u32) == 57);
        } else if i == 58 {
            assert(table_index_of(table()[58] as u32) == 58);
        } else if i == 59 {
            assert(table_index_of(table()[59] as u32) == 59);
        } else if i == 60 {
            assert(table_index_of(table()[60] as u32) == 60);
        } else if i == 61 {
            assert(table_index_of(table()[61] as u32) == 61);
        } else if i == 62 {
            assert(table_index_of(table()[62] as u32) == 62);
        } else if i == 63 {
            assert(table_index_of(table()[63] as u32) == 63);
        }
    }
}

proof fn lemma_table_inverse_block_1()
    ensures
        forall|i: int| 64 <= i < 128 ==> table_index_of((#[trigger] table()[i]) as u32) == i,
{
    reveal(table_index_of);
    assert forall|i: int| 64 <= i < 128 implies table_index_of((#[trigger] table()[i]) as u32) == i by {
        if i == 64 {
            assert(table_index_of(table()[64] as u32) == 64);
        } else if i == 65 {
            assert(table_index_of(table()[65] as u32) == 65);
        } else if i == 66 {
            assert(table_index_of(table()[66] as u32) == 66);
        } else if i == 67 {
            assert(table_index_of(table()[67] as u32) == 67);
        } else if i == 68 {
            assert(table_index_of(table()[68] as u32) == 68);
        } else if i == 69 {
            assert(table_index_of(table()[69] as u32) == 69);
        } else if i == 70 {
            assert(table_index_of(table()[70] as u32) == 70);
        } else if i == 71 {
            assert(table_index_of(table()[71] as u32) == 71);
        } else if i == 72 {
            assert(table_index_of(table()[72] as u32) == 72);
        } else if i == 73 {
            assert(table_index_of(table()[73] as u32) == 73);
        } else if i == 74 {
            assert(table_index_of(table()[74] as u32) == 74);
        } else if i == 75 {
            assert(table_index_of(table()[75] as u32) == 75);
        } else if i == 76 {
            assert(table_index_of(table()[76] as u32) == 76);
        } else if i == 77 {
            assert(table_index_of(table()[77] as u32) == 77);
        } else if i == 78 {
            assert(table_index_of(table()[78] as u32) == 78);
        } else if i == 79 {
            assert(table_index_of(table()[79] as u32) == 79);
        } else if i == 80 {
            assert(table_index_of(table()[80] as u32) == 80);
        } else if i == 81 {
            assert(table_index_of(table()[81] as u32) == 81);
        } else if i == 82 {
            assert(table_index_of(table()[82] as u32) == 82);
        } else if i == 83 {
            assert(table_index_of(table()[83] as u32) == 83);
        } else if i == 84 {
            assert(table_index_of(table()[84] as u32) == 84);
        } else if i == 85 {
            assert(table_index_of(table()[85] as u32) == 85);
        } else if i == 86 {
            assert(table_index_of(table()[86] as u32) == 86);
        } else if i == 87 {
            assert(table_index_of(table()[87] as u32) == 87);
        } else if i == 88 {
            assert(table_index_of(table()[88] as u32) == 88);
        } else if i == 89 {
            assert(table_index_of(table()[89] as u32) == 89);
        } else if i == 90 {
            assert(table_index_of(table()[90] as u32) == 90);
        } else if i == 91 {
            assert(table_index_of(table()[91] as u32) == 91);
        } else if i == 92 {
            assert(table_index_of(table()[92] as u32) == 92);
        } else if i == 93 {
            assert(table_index_of(table()[93] as u32) == 93);
        } else if i == 94 {
            assert(table_index_of(table()[94] as u32) == 94);
        } else if i == 95 {
            assert(table_index_of(table()[95] as u32) == 95);
        } else if i == 96 {
            assert(table_index_of(table()[96] as u32) == 96);
        } else if i == 97 {
            assert(table_index_of(table()[97] as u32) == 97);
        } else if i == 98 {
            assert(table_index_of(table()[98] as u32) == 98);
        } else if i == 99 {
            assert(table_index_of(table()[99] as u32) == 99);
        } else if i == 100 {
            assert(table_index_of(table()[100] as u32) == 100);
        } else if i == 101 {
            assert(table_index_of(table()[101] as u32) == 101);
        } else if i == 102 {
            assert(table_index_of(table()[102] as u32) == 102);
        } else if i == 103 {
            assert(table_index_of(table()[103] as u32) == 103);
        } else if i == 104 {
            assert(table_index_of(table()[104] as u32) == 104);
        } else if i == 105 {
            assert(table_index_of(table()[105] as u32) == 105);
        } else if i == 106 {
            assert(table_index_of(table()[106] as u32) == 106);
        } else if i == 107 {
            assert(table_index_of(table()[107] as u32) == 107);
        } else if i == 108 {
            assert(table_index_of(table()[108] as u32) == 108);
        } else if i == 109 {
            assert(table_index_of(table()[109] as u32) == 109);
        } else if i == 110 {
            assert(table_index_of(table()[110] as u32) == 110);
        } else if i == 111 {
            assert(table_index_of(table()[111] as u32) == 111);
        } else if i == 112 {
            assert(table_index_of(table()[112] as u32) == 112);
        } else if i == 113 {
            assert(table_index_of(table()[113] as u32) == 113);
        } else if i == 114 {
            assert(table_index_of(table()[114] as u32) == 114);
        } else if i == 115 {
            assert(table_index_of(table()[115] as u32) == 115);
        } else if i == 116 {
            assert(table_index_of(table()[116] as u32) == 116);
        } else if i == 117 {
            assert(table_index_of(table()[117] as u32) == 117);
        } else if i == 118 {
            assert(table_index_of(table()[118] as u32) == 118);
        } else if i == 119 {
            assert(table_index_of(table()[119] as u32) == 119);
        } else if i == 120 {
            assert(table_index_of(table()[120] as u32) == 120);
        } else if i == 121 {
            assert(table_index_of(table()[121] as u32) == 121);
        } else if i == 122 {
            assert(table_index_of(table()[122] as u32) == 122);
        } else if i == 123 {
            assert(table_index_of(table()[123] as u32) == 123);
        } else if i == 124 {
            assert(table_index_of(table()[124] as u32) == 124);
        } else if i == 125 {
            assert(table_index_of(table()[125] as u32) == 125);
        } else if i == 126 {
            assert(table_index_of(table()[126] as u32) == 126);
        } else if i == 127 {
            assert(table_index_of(table()[127] as u32) == 127);
        }
    }
}

proof fn lemma_table_inverse_block_2()
    ensures
        forall|i: int| 128 <= i < 192 ==> table_index_of((#[trigger] table()[i]) as u32) == i,
{
    reveal(table_index_of);
    assert forall|i: int| 128 <= i < 192 implies table_index_of((#[trigger] table()[i]) as u32) == i by {
        if i == 128 {
            assert(table_index_of(table()[128] as u32) == 128);
        } else if i == 129 {
            assert(table_index_of(table()[129] as u32) == 129);
        } else if i == 130 {
            assert(table_index_of(table()[130] as u32) == 130);
        } else if i == 131 {
            assert(table_index_of(table()[131] as u32) == 131);
        } else if i == 132 {
            assert(table_index_of(table()[132] as u32) == 132);
        } else if i == 133 {
            assert(table_index_of(table()[133] as u32) == 133);
        } else if i == 134 {
            assert(table_index_of(table()[134] as u32) == 134);
        } else if i == 135 {
            assert(table_index_of(table()[135] as u32) == 135);
        } else if i == 136 {
            assert(table_index_of(table()[136] as u32) == 136);
        } else if i == 137 {
            assert(table_index_of(table()[137] as u32) == 137);
        } else if i == 138 {
            assert(table_index_of(table()[138] as u32) == 138);
        } else if i == 139 {
            assert(table_index_of(table()[139] as u32) == 139);
        } else if i == 140 {
            assert(table_index_of(table()[140] as u32) == 140);
        } else if i == 141 {
            assert(table_index_of(table()[141] as u32) == 141);
        } else if i == 142 {
            assert(table_index_of(table()[142] as u32) == 142);
        } else if i == 143 {
            assert(table_index_of(table()[143] as u32) == 143);
        } else if i == 144 {
            assert(table_index_of(table()[144] as u32) == 144);
        } else if i == 145 {
            assert(table_index_of(table()[145] as u32) == 145);
        } else if i == 146 {
            assert(table_index_of(table()[146] as u32) == 146);
        } else if i == 147 {
            assert(table_index_of(table()[147] as u32) == 147);
        } else if i == 148 {
            assert(table_index_of(table()[148] as u32) == 148);
        } else if i == 149 {
            assert(table_index_of(table()[149] as u32) == 149);
        } else if i == 150 {
            assert(table_index_of(table()[150] as u32) == 150);
        } else if i == 151 {
            assert(table_index_of(table()[151] as u32) == 151);
        } else if i == 152 {
            assert(table_index_of(table()[152] as u32) == 152);
        } else if i == 153 {
            assert(table_index_of(table()[153] as u32) == 153);
        } else if i == 154 {
            assert(table_index_of(table()[154] as u32) == 154);
        } else if i == 155 {
            assert(table_index_of(table()[155] as u32) == 155);
        } else if i == 156 {
            assert(table_index_of(table()[156] as u32) == 156);
        } else if i == 157 {
            assert(table_index_of(table()[157] as u32) == 157);
        } else if i == 158 {
            assert(table_index_of(table()[158] as u32) == 158);
        } else if i == 159 {
            assert(table_index_of(table()[159] as u32) == 159);
        } else if i == 160 {
            assert(table_index_of(table()[160] as u32) == 160);
        } else if i == 161 {
            assert(table_index_of(table()[161] as u32) == 161);
        } else if i == 162 {
            assert(table_index_of(table()[162] as u32) == 162);
        } else if i == 163 {
            assert(table_index_of(table()[163] as u32) == 163);
        } else if i == 164 {
            assert(table_index_of(table()[164] as u32) == 164);
        } else if i == 165 {
            assert(table_index_of(table()[165] as u32) == 165);
        } else if i == 166 {
            assert(table_index_of(table()[166] as u32) == 166);
        } else if i == 167 {
            assert(table_index_of(table()[167] as u32) == 167);
        } else if i == 168 {
            assert(table_index_of(table()[168] as u32) == 168);
        } else if i == 169 {
            assert(table_index_of(table()[169] as u32) == 169);
        } else if i == 170 {
            assert(table_index_of(table()[170] as u32) == 170);
        } else if i == 171 {
            assert(table_index_of(table()[171] as u32) == 171);
        } else if i == 172 {
            assert(table_index_of(table()[172] as u32) == 172);
        } else if i == 173 {
            assert(table_index_of(table()[173] as u32) == 173);
        } else if i == 174 {
            assert(table_index_of(table()[174] as u32) == 174);
        } else if i == 175 {
            assert(table_index_of(table()[175] as u32) == 175);
        } else if i == 176 {
            assert(table_index_of(table()[176] as u32) == 176);
        } else if i == 177 {
            assert(table_index_of(table()[177] as u32) == 177);
        } else if i == 178 {
            assert(table_index_of(table()[178] as u32) == 178);
        } else if i == 179 {
            assert(table_index_of(table()[179] as u32) == 179);
        } else if i == 180 {
            assert(table_index_of(table()[180] as u32) == 180);
        } else if i == 181 {
            assert(table_index_of(table()[181] as u32) == 181);
        } else if i == 182 {
            assert(table_index_of(table()[182] as u32) == 182);
        } else if i == 183 {
            assert(table_index_of(table()[183] as u32) == 183);
        } else if i == 184 {
            assert(table_index_of(table()[184] as u32) == 184);
        } else if i == 185 {
            assert(table_index_of(table()[185] as u32) == 185);
        } else if i == 186 {
            assert(table_index_of(table()[186] as u32) == 186);
        } else if i == 187 {
            assert(table_index_of(table()[187] as u32) == 187);
        } else if i == 188 {
            assert(table_index_of(table()[188] as u32) == 188);
        } else if i == 189 {
            assert(table_index_of(table()[189] as u32) == 189);
        } else if i == 190 {
            assert(table_index_of(table()[190] as u32) == 190);
        } else if i == 191 {
            assert(table_index_of(table()[191] as u32) == 191);
        }
    }
}

proof fn lemma_table_inverse_block_3()
    ensures
        forall|i: int| 192 <= i < 256 ==> table_index_of((#[trigger] table()[i]) as u32) == i,
{
    reveal(table_index_of);
    assert forall|i: int| 192 <= i < 256 implies table_index_of((#[trigger] table()[i]) as u32) == i by {
        if i == 192 {
            assert(table_index_of(table()[192] as u32) == 192);
        } else if i == 193 {
            assert(table_index_of(table()[193] as u32) == 193);
        } else if i == 194 {
            assert(table_index_of(table()[194] as u32) == 194);
        } else if i == 195 {
            assert(table_index_of(table()[195] as u32) == 195);
        } else if i == 196 {
            assert(table_index_of(table()[196] as u32) == 196);
        } else if i == 197 {
            assert(table_index_of(table()[197] as u32) == 197);
        } else if i == 198 {
            assert(table_index_of(table()[198] as u32) == 198);
        } else if i == 199 {
            assert(table_index_of(table()[199] as u32) == 199);
        } else if i == 200 {
            assert(table_index_of(table()[200] as u32) == 200);
        } else if i == 201 {
            assert(table_index_of(table()[201] as u32) == 201);
        } else if i == 202 {
            assert(table_index_of(table()[202] as u32) == 202);
        } else if i == 203 {
            assert(table_index_of(table()[203] as u32) == 203);
        } else if i == 204 {
            assert(table_index_of(table()[204] as u32) == 204);
        } else if i == 205 {
            assert(table_index_of(table()[205] as u32) == 205);
        } else if i == 206 {
            assert(table_index_of(table()[206] as u32) == 206);
        } else if i == 207 {
            assert(table_index_of(table()[207] as u32) == 207);
        } else if i == 208 {
            assert(table_index_of(table()[208] as u32) == 208);
        } else if i == 209 {
            assert(table_index_of(table()[209] as u32) == 209);
        } else if i == 210 {
            assert(table_index_of(table()[210] as u32) == 210);
        } else if i == 211 {
            assert(table_index_of(table()[211] as u32) == 211);
        } else if i == 212 {
            assert(table_index_of(table()[212] as u32) == 212);
        } else if i == 213 {
            assert(table_index_of(table()[213] as u32) == 213);
        } else if i == 214 {
            assert(table_index_of(table()[214] as u32) == 214);
        } else if i == 215 {
            assert(table_index_of(table()[215] as u32) == 215);
        } else if i == 216 {
            assert(table_index_of(table()[216] as u32) == 216);
        } else if i == 217 {
            assert(table_index_of(table()[217] as u32) == 217);
        } else if i == 218 {
            assert(table_index_of(table()[218] as u32) == 218);
        } else if i == 219 {
            assert(table_index_of(table()[219] as u32) == 219);
        } else if i == 220 {
            assert(table_index_of(table()[220] as u32) == 220);
        } else if i == 221 {
            assert(table_index_of(table()[221] as u32) == 221);
        } else if i == 222 {
            assert(table_index_of(table()[222] as u32) == 222);
        } else if i == 223 {
            assert(table_index_of(table()[223] as u32) == 223);
        } else if i == 224 {
            assert(table_index_of(table()[224] as u32) == 224);
        } else if i == 225 {
            assert(table_index_of(table()[225] as u32) == 225);
        } else if i == 226 {
            assert(table_index_of(table()[226] as u32) == 226);
        } else if i == 227 {
            assert(table_index_of(table()[227] as u32) == 227);
        } else if i == 228 {
            assert(table_index_of(table()[228] as u32) == 228);
        } else if i == 229 {
            assert(table_index_of(table()[229] as u32) == 229);
        } else if i == 230 {
            assert(table_index_of(table()[230] as u32) == 230);
        } else if i == 231 {
            assert(table_index_of(table()[231] as u32) == 231);
        } else if i == 232 {
            assert(table_index_of(table()[232] as u32) == 232);
        } else if i == 233 {
            assert(table_index_of(table()[233] as u32) == 233);
        } else if i == 234 {
            assert(table_index_of(table()[234] as u32) == 234);
        } else if i == 235 {
            assert(table_index_of(table()[235] as u32) == 235);
        } else if i == 236 {
            assert(table_index_of(table()[236] as u32) == 236);
        } else if i == 237 {
            assert(table_index_of(table()[237] as u32) == 237);
        } else if i == 238 {
            assert(table_index_of(table()[238] as u32) == 238);
        } else if i == 239 {
            assert(table_index_of(table()[239] as u32) == 239);
        } else if i == 240 {
            assert(table_index_of(table()[240] as u32) == 240);
        } else if i == 241 {
            assert(table_index_of(table()[241] as u32) == 241);
        } else if i == 242 {
            assert(table_index_of(table()[242] as u32) == 242);
        } else if i == 243 {
            assert(table_index_of(table()[243] as u32) == 243);
        } else if i == 244 {
            assert(table_index_of(table()[244] as u32) == 244);
        } else if i == 245 {
            assert(table_index_of(table()[245] as u32) == 245);
        } else if i == 246 {
            assert(table_index_of(table()[246] as u32) == 246);
        } else if i == 247 {
            assert(table_index_of(table()[247] as u32) == 247);
        } else if i == 248 {
            assert(table_index_of(table()[248] as u32) == 248);
        } else if i == 249 {
            assert(table_index_of(table()[249] as u32) == 249);
        } else if i == 250 {
            assert(table_index_of(table()[250] as u32) == 250);
        } else if i == 251 {
            assert(table_index_of(table()[251] as u32) == 251);
        } else if i == 252 {
            assert(table_index_of(table()[252] as u32) == 252);
        } else if i == 253 {
            assert(table_index_of(table()[253] as u32) == 253);
        } else if i == 254 {
            assert(table_index_of(table()[254] as u32) == 254);
        } else if i == 255 {
            assert(table_index_of(table()[255] as u32) == 255);
        }
    }
}

/// Each table entry is taken back to its own index by `table_index_of`.
pub proof fn lemma_table_inverse()
    ensures
        forall|i: int| 0 <= i < 256 ==> table_index_of((#[trigger] table()[i]) as u32) == i,
{
    lemma_table_inverse_block_0();
    lemma_table_inverse_block_1();
    lemma_table_inverse_block_2();
    lemma_table_inverse_block_3();
}

proof fn lemma_printable_identity_block_0()
    ensures
        forall|i: int| 0x20 <= i < 0x50 ==> (#[trigger] table()[i]) as u32 == i,
{
    assert forall|i: int| 0x20 <= i < 0x50 implies (#[trigger] table()[i]) as u32 == i by {
        if i == 0x20 {
            assert(table()[0x20] as u32 == 0x20);
        } else if i == 0x21 {
            assert(table()[0x21] as u32 == 0x21);
        } else if i == 0x22 {
            assert(table()[0x22] as u32 == 0x22);
        } else if i == 0x23 {
            assert(table()[0x23] as u32 == 0x23);
        } else if i == 0x24 {
            assert(table()[0x24] as u32 == 0x24);
        } else if i == 0x25 {
            assert(table()[0x25] as u32 == 0x25);
        } else if i == 0x26 {
            assert(table()[0x26] as u32 == 0x26);
        } else if i == 0x27 {
            assert(table()[0x27] as u32 == 0x27);
        } else if i == 0x28 {
            assert(table()[0x28] as u32 == 0x28);
        } else if i == 0x29 {
            assert(table()[0x29] as u32 == 0x29);
        } else if i == 0x2a {
            assert(table()[0x2a] as u32 == 0x2a);
        } else if i == 0x2b {
            assert(table()[0x2b] as u32 == 0x2b);
        } else if i == 0x2c {
            assert(table()[0x2c] as u32 == 0x2c);
        } else if i == 0x2d {
            assert(table()[0x2d] as u32 == 0x2d);
        } else if i == 0x2e {
            assert(table()[0x2e] as u32 == 0x2e);
        } else if i == 0x2f {
            assert(table()[0x2f] as u32 == 0x2f);
        } else if i == 0x30 {
            assert(table()[0x30] as u32 == 0x30);
        } else if i == 0x31 {
            assert(table()[0x31] as u32 == 0x31);
        } else if i == 0x32 {
            assert(table()[0x32] as u32 == 0x32);
        } else if i == 0x33 {
            assert(table()[0x33] as u32 == 0x33);
        } else if i == 0x34 {
            assert(table()[0x34] as u32 == 0x34);
        } else if i == 0x35 {
            assert(table()[0x35] as u32 == 0x35);
        } else if i == 0x36 {
            assert(table()[0x36] as u32 == 0x36);
        } else if i == 0x37 {
            assert(table()[0x37] as u32 == 0x37);
        } else if i == 0x38 {
            assert(table()[0x38] as u32 == 0x38);
        } else if i == 0x39 {
            assert(table()[0x39] as u32 == 0x39);
        } else if i == 0x3a {
            assert(table()[0x3a] as u32 == 0x3a);
        } else if i == 0x3b {
            assert(table()[0x3b] as u32 == 0x3b);
        } else if i == 0x3c {
            assert(table()[0x3c] as u32 == 0x3c);
        } else if i == 0x3d {
            assert(table()[0x3d] as u32 == 0x3d);
        } else if i == 0x3e {
            assert(table()[0x3e] as u32 == 0x3e);
        } else if i == 0x3f {
            assert(table()[0x3f] as u32 == 0x3f);
        } else if i == 0x40 {
            assert(table()[0x40] as u32 == 0x40);
        } else if i == 0x41 {
            assert(table()[0x41] as u32 == 0x41);
        } else if i == 0x42 {
            assert(table()[0x42] as u32 == 0x42);
        } else if i == 0x43 {
            assert(table()[0x43] as u32 == 0x43);
        } else if i == 0x44 {
            assert(table()[0x44] as u32 == 0x44);
        } else if i == 0x45 {
            assert(table()[0x45] as u32 == 0x45);
        } else if i == 0x46 {
            assert(table()[0x46] as u32 == 0x46);
        } else if i == 0x47 {
            assert(table()[0x47] as u32 == 0x47);
        } else if i == 0x48 {
            assert(table()[0x48] as u32 == 0x48);
        } else if i == 0x49 {
            assert(table()[0x49] as u32 == 0x49);
        } else if i == 0x4a {
            assert(table()[0x4a] as u32 == 0x4a);
        } else if i == 0x4b {
            assert(table()[0x4b] as u32 == 0x4b);
        } else if i == 0x4c {
            assert(table()[0x4c] as u32 == 0x4c);
        } else if i == 0x4d {
            assert(table()[0x4d] as u32 == 0x4d);
        } else if i == 0x4e {
            assert(table()[0x4e] as u32 == 0x4e);
        } else if i == 0x4f {
            assert(table()[0x4f] as u32 == 0x4f);
        }
    }
}

proof fn lemma_printable_identity_block_1()
    ensures
        forall|i: int| 0x50 <= i < 0x7f ==> (#[trigger] table()[i]) as u32 == i,
{
    assert forall|i: int| 0x50 <= i < 0x7f implies (#[trigger] table()[i]) as u32 == i by {
        if i == 0x50 {
            assert(table()[0x50] as u32 == 0x50);
        } else if i == 0x51 {
            assert(table()[0x51] as u32 == 0x51);
        } else if i == 0x52 {
            assert(table()[0x52] as u32 == 0x52);
        } else if i == 0x53 {
            assert(table()[0x53] as u32 == 0x53);
        } else if i == 0x54 {
            assert(table()[0x54] as u32 == 0x54);
        } else if i == 0x55 {
            assert(table()[0x55] as u32 == 0x55);
        } else if i == 0x56 {
            assert(table()[0x56] as u32 == 0x56);
        } else if i == 0x57 {
            assert(table()[0x57] as u32 == 0x57);
        } else if i == 0x58 {
            assert(table()[0x58] as u32 == 0x58);
        } else if i == 0x59 {
            assert(table()[0x59] as u32 == 0x59);
        } else if i == 0x5a {
            assert(table()[0x5a] as u32 == 0x5a);
        } else if i == 0x5b {
            assert(table()[0x5b] as u32 == 0x5b);
        } else if i == 0x5c {
            assert(table()[0x5c] as u32 == 0x5c);
        } else if i == 0x5d {
            assert(table()[0x5d] as u32 == 0x5d);
        } else if i == 0x5e {
            assert(table()[0x5e] as u32 == 0x5e);
        } else if i == 0x5f {
            assert(table()[0x5f] as u32 == 0x5f);
        } else if i == 0x60 {
            assert(table()[0x60] as u32 == 0x60);
        } else if i == 0x61 {
            assert(table()[0x61] as u32 == 0x61);
        } else if i == 0x62 {
            assert(table()[0x62] as u32 == 0x62);
        } else if i == 0x63 {
            assert(table()[0x63] as u32 == 0x63);
        } else if i == 0x64 {
            assert(table()[0x64] as u32 == 0x64);
        } else if i == 0x65 {
            assert(table()[0x65] as u32 == 0x65);
        } else if i == 0x66 {
            assert(table()[0x66] as u32 == 0x66);
        } else if i == 0x67 {
            assert(table()[0x67] as u32 == 0x67);
        } else if i == 0x68 {
            assert(table()[0x68] as u32 == 0x68);
        } else if i == 0x69 {
            assert(table()[0x69] as u32 == 0x69);
        } else if i == 0x6a {
            assert(table()[0x6a] as u32 == 0x6a);
        } else if i == 0x6b {
            assert(table()[0x6b] as u32 == 0x6b);
        } else if i == 0x6c {
            assert(table()[0x6c] as u32 == 0x6c);
        } else if i == 0x6d {
            assert(table()[0x6d] as u32 == 0x6d);
        } else if i == 0x6e {
            assert(table()[0x6e] as u32 == 0x6e);
        } else if i == 0x6f {
            assert(table()[0x6f] as u32 == 0x6f);
        } else if i == 0x70 {
            assert(table()[0x70] as u32 == 0x70);
        } else if i == 0x71 {
            assert(table()[0x71] as u32 == 0x71);
        } else if i == 0x72 {
            assert(table()[0x72] as u32 == 0x72);
        } else if i == 0x73 {
            assert(table()[0x73] as u32 == 0x73);
        } else if i == 0x74 {
            assert(table()[0x74] as u32 == 0x74);
        } else if i == 0x75 {
            assert(table()[0x75] as u32 == 0x75);
        } else if i == 0x76 {
            assert(table()[0x76] as u32 == 0x76);
        } else if i == 0x77 {
            assert(table()[0x77] as u32 == 0x77);
        } else if i == 0x78 {
            assert(table()[0x78] as u32 == 0x78);
        } else if i == 0x79 {
            assert(table()[0x79] as u32 == 0x79);
        } else if i == 0x7a {
            assert(table()[0x7a] as u32 == 0x7a);
        } else if i == 0x7b {
            assert(table()[0x7b] as u32 == 0x7b);
        } else if i == 0x7c {
            assert(table()[0x7c] as u32 == 0x7c);
        } else if i == 0x7d {
            assert(table()[0x7d] as u32 == 0x7d);
        } else if i == 0x7e {
            assert(table()[0x7e] as u32 == 0x7e);
        }
    }
}

/// The printable ASCII range maps by identity: for an index in
/// `0x20..=0x7e` the displayed scalar is the index itself.
pub proof fn lemma_printable_identity()
    ensures
        forall|i: int| 0x20 <= i <= 0x7e ==> (#[trigger] table()[i]) as u32 == i,
{
    lemma_printable_identity_block_0();
    lemma_printable_identity_block_1();
}

/// Encoding reads the table exactly: the glyph made from any index displays
/// that index's table entry.
pub proof fn lemma_encode_table(i: u8)
    ensures
        char_of(Glyph(i)) == table()[i as int],
{
}

/// No two glyph indices display the same scalar: the table is injective.
pub proof fn lemma_table_injective()
    ensures
        forall|i: int, j: int|
            0 <= i < 256 && 0 <= j < 256 && i != j ==> table()[i] != table()[j],
{
    lemma_table_inverse();
    assert forall|i: int, j: int|
        0 <= i < 256 && 0 <= j < 256 && i != j implies table()[i] != table()[j] by {
        if table()[i] == table()[j] {
            assert(table_index_of(table()[i] as u32) == i);
            assert(table_index_of(table()[j] as u32) == j);
        }
    }
}

/// The first index at or after `i` whose table entry displays `c`.
pub open spec fn glyph_index_from(c: char, i: int) -> Option<u8>
    decreases 256 - i,
{
    if i < 0 || i >= 256 {
        None
    } else if table()[i] == c {
        Some(i as u8)
    } else {
        glyph_index_from(c, i + 1)
    }
}

/// The glyph index displaying the scalar `c`, if the table has one.
pub open spec fn glyph_index_of(c: char) -> Option<u8> {
    glyph_index_from(c, 0)
}

/// What `glyph_index_from` finds: the first matching index, with nothing
/// matching before it; or a guarantee that nothing at or after `i` matches.
pub proof fn lemma_glyph_index_from_props(c: char, i: int)
    requires
        0 <= i <= 256,
    ensures
        match glyph_index_from(c, i) {
            Some(g) => i <= g < 256 && table()[g as int] == c && (forall|j: int|
                i <= j < g ==> table()[j] != c),
            None => forall|j: int| i <= j < 256 ==> table()[j] != c,
        },
    decreases 256 - i,
{
    if i < 256 {
        lemma_glyph_index_from_props(c, i + 1);
    }
}

/// Decoding is owed exactly on the scalars the table displays: the scalar of
/// any glyph decodes, and a scalar found nowhere in the table does not.
pub proof fn lemma_glyph_index_of_complete(c: char)
    ensures
        glyph_index_of(c) is Some <==> exists|i: int| 0 <= i < 256 && table()[i] == c,
        glyph_index_of(c) is Some ==> table()[glyph_index_of(c)->Some_0 as int] == c,
{
    lemma_glyph_index_from_props(c, 0);
    if glyph_index_of(c) is None {
        assert forall|i: int| 0 <= i < 256 implies table()[i] != c by {}
    }
}

/// Decoding a printable ASCII scalar succeeds and maps by identity.
pub proof fn lemma_decode_printable(c: char)
    requires
        0x20 <= c as u32 <= 0x7e,
    ensures
        glyph_index_of(c) == Some((c as u32) as u8),
{
    lemma_printable_identity();
    lemma_table_inverse();
    lemma_glyph_index_from_props(c, 0);
    assert(table()[c as int] as u32 == c as int);
    assert(table()[c as int] == c);
    match glyph_index_of(c) {
        Some(g) => {
            assert(table()[g as int] == c);
            assert(table_index_of(table()[g as int] as u32) == g as int);
            assert(table_index_of(table()[c as int] as u32) == c as int);
        },
        None => {
            assert(table()[c as int] != c);
        },
    }
}

/// Round trip: the scalar displayed for any glyph decodes back to that very
/// glyph, so the reverse lookup is a true inverse on the whole table.
pub proof fn lemma_decode_encode(g: Glyph)
    ensures
        glyph_index_of(char_of(g)) == Some(g.0),
{
    lemma_table_inverse();
    lemma_glyph_index_from_props(char_of(g), 0);
    match glyph_index_of(char_of(g)) {
        Some(h) => {
            assert(table_index_of(table()[h as int] as u32) == h as int);
            assert(table_index_of(table()[g.0 as int] as u32) == g.0 as int);
        },
        None => {
            assert(table()[g.0 as int] != char_of(g));
        },
    }
}

/// One reverse-table pairing: a scalar value and the glyph index that
/// displays it.
#[derive(Debug, Copy, Clone, Eq, PartialEq, Structural)]
pub struct RevEntry {
    /// The scalar value.
    pub sv: u32,
    /// The glyph index displaying it.
    pub glyph: u8,
}

/// The table index paired into reverse-table slot `k` before sorting: the
/// indices outside the printable ASCII range, in table order.
pub open spec fn rev_source_index(k: int) -> int {
    if k < 0x20 {
        k
    } else {
        k + 0x5f
    }
}

/// The number of reverse-table entries: the table rows outside the printable
/// ASCII range.
pub const REV_LEN: usize = 161;

/// A reverse-table entry pairs a non-printable table row with its scalar.
pub open spec fn entry_ok(e: RevEntry) -> bool {
    &&& (e.glyph < 0x20 || 0x7f <= e.glyph)
    &&& e.sv == table()[e.glyph as int] as u32
}

/// The reverse table as first laid out, one entry per non-printable row.
pub open spec fn rev_unsorted() -> Seq<RevEntry> {
    Seq::new(
        REV_LEN as nat,
        |k: int|
            RevEntry {
                sv: table()[rev_source_index(k)] as u32,
                glyph: rev_source_index(k) as u8,
            },
    )
}

/// Entries sorted by scalar value, weakly.
pub open spec fn sorted_by_sv(s: Seq<RevEntry>) -> bool {
    forall|k1: int, k2: int| 0 <= k1 <= k2 < s.len() ==> s[k1].sv <= s[k2].sv
}

/// The codec: the character-set table, and the reverse table built once,
/// sorted by scalar value for binary search.
#[derive(Debug)]
pub struct Codec {
    chars: [char; 256],
    rev: Vec<RevEntry>,
}

impl Codec {
    /// The tables are exactly the character set and a permutation of its
    /// non-printable rows, sorted by scalar.
    pub closed spec fn wf(&self) -> bool {
        &&& self.chars@ == table()
        &&& self.rev@.to_multiset() == rev_unsorted().to_multiset()
        &&& sorted_by_sv(self.rev@)
    }

    /// Builds both tables; the reverse table is sorted here, once, and only
    /// searched afterwards.
    pub fn new() -> (codec: Codec)
        ensures
            codec.wf(),
    {
        let chars = build_table();
        let mut rev: Vec<RevEntry> = Vec::new();
        let mut k: usize = 0;
        while k < 0x20
            invariant
                chars@ == table(),
                k <= 0x20,
                rev@.len() == k,
                forall|m: int| 0 <= m < k ==> rev@[m] == rev_unsorted()[m],
            decreases 0x20 - k,
        {
            rev.push(RevEntry { sv: chars[k] as u32, glyph: k as u8 });
            k += 1;
        }
        let mut k: usize = 0x7f;
        while k < 0x100
            invariant
                chars@ == table(),
                0x7f <= k <= 0x100,
                rev@.len() == k - 0x5f,
                forall|m: int| 0 <= m < k - 0x5f ==> rev@[m] == rev_unsorted()[m],
            decreases 0x100 - k,
        {
            rev.push(RevEntry { sv: chars[k] as u32, glyph: k as u8 });
            k += 1;
        }
        proof {
            assert(rev@ =~= rev_unsorted());
        }
        sort_by_sv(&mut rev);
        Codec { chars, rev }
    }

    /// Returns the scalar displayed for a glyph: the glyph's table entry.
    pub fn to_char(&self, g: Glyph) -> (c: char)
        requires
            self.wf(),
        ensures
            c == char_of(g),
    {
        self.chars[g.0 as usize]
    }

    /// Returns the glyph displaying a scalar, if the table has one: the
    /// printable ASCII range by identity, every other scalar through the
    /// reverse table, and `TryFromCharError` for a scalar found nowhere.
    pub fn from_char(&self, c: char) -> (r: Result<Glyph, TryFromCharError>)
        requires
            self.wf(),
        ensures
            r == match glyph_index_of(c) {
                Some(i) => Ok::<Glyph, TryFromCharError>(Glyph(i)),
                None => Err::<Glyph, TryFromCharError>(TryFromCharError),
            },
    {
        let v = c as u32;
        if 0x20 <= v && v <= 0x7e {
            proof {
                lemma_decode_printable(c);
            }
            return Ok(Glyph(v as u8));
        }
        proof {
            lemma_glyph_index_from_props(c, 0);
            lemma_table_inverse();
            lemma_printable_identity();
            broadcast use vstd::seq_lib::group_seq_properties;
        }
        match rev_search(&self.rev, v) {
            Some(g) => {
                proof {
                    let k = choose|k: int|
                        0 <= k < self.rev@.len() && self.rev@[k].sv == v && self.rev@[k].glyph
                            == g;
                    lemma_multiset_entry_ok(self.rev@, k);
                    assert(table()[g as int] as u32 == v);
                    assert(table()[g as int] == c);
                    match glyph_index_of(c) {
                        Some(h) => {
                            assert(table_index_of(table()[h as int] as u32) == h as int);
                            assert(table_index_of(table()[g as int] as u32) == g as int);
                        },
                        None => {
                            assert(table()[g as int] != c);
                        },
                    }
                }
                Ok(Glyph(g))
            },
            None => {
                proof {
                    if glyph_index_of(c) is Some {
                        let h = glyph_index_of(c)->Some_0;
                        assert(table()[h as int] == c);
                        assert(table()[h as int] as u32 == v);
                        assert(0x20 <= h <= 0x7e ==> table()[h as int] as u32 == h);
                        assert(h < 0x20 || 0x7f <= h);
                        let k = if h < 0x20 { h as int } else { h - 0x5f };
                        assert(rev_unsorted()[k].sv == v);
                        lemma_multiset_sv_found(self.rev@, k, v);
                    }
                }
                Err(TryFromCharError)
            },
        }
    }
}

/// Everything the sorted reverse table holds came from a non-printable table
/// row, because sorting only rearranged the original layout.
proof fn lemma_multiset_entry_ok(s: Seq<RevEntry>, k: int)
    requires
        s.to_multiset() == rev_unsorted().to_multiset(),
        0 <= k < s.len(),
    ensures
        entry_ok(s[k]),
{
    broadcast use vstd::seq_lib::group_to_multiset_ensures;

    assert(s.contains(s[k]));
    assert(s.to_multiset().count(s[k]) > 0);
    assert(rev_unsorted().contains(s[k]));
    let m = choose|m: int| 0 <= m < rev_unsorted().len() && rev_unsorted()[m] == s[k];
    assert(entry_ok(rev_unsorted()[m]));
}

/// Whatever stood in the original reverse-table layout still stands, at some
/// slot, in the sorted table.
proof fn lemma_multiset_sv_found(s: Seq<RevEntry>, k: int, v: u32)
    requires
        s.to_multiset() == rev_unsorted().to_multiset(),
        0 <= k < rev_unsorted().len(),
        rev_unsorted()[k].sv == v,
    ensures
        exists|m: int| 0 <= m < s.len() && s[m].sv == v,
{
    broadcast use vstd::seq_lib::group_to_multiset_ensures;

    assert(rev_unsorted().contains(rev_unsorted()[k]));
    assert(rev_unsorted().to_multiset().count(rev_unsorted()[k]) > 0);
    assert(s.contains(rev_unsorted()[k]));
    let m = choose|m: int| 0 <= m < s.len() && s[m] == rev_unsorted()[k];
    assert(s[m].sv == v);
}

/// Sorts the reverse table by scalar value: insertion sort, keeping the
/// entries a permutation of what came in.
fn sort_by_sv(rev: &mut Vec<RevEntry>)
    ensures
        final(rev)@.len() == old(rev)@.len(),
        final(rev)@.to_multiset() == old(rev)@.to_multiset(),
        sorted_by_sv(final(rev)@),
{
    broadcast use vstd::seq_lib::to_multiset_update;
    broadcast use vstd::multiset::group_multiset_axioms;

    let n = rev.len();
    if n < 2 {
        return;
    }
    let mut i: usize = 1;
    while i < n
        invariant
            n == rev@.len(),
            1 <= i <= n,
            rev@.to_multiset() == old(rev)@.to_multiset(),
            forall|k1: int, k2: int| 0 <= k1 <= k2 < i ==> rev@[k1].sv <= rev@[k2].sv,
        decreases n - i,
    {
        let mut j: usize = i;
        while j > 0 && rev[j - 1].sv > rev[j].sv
            invariant
                n == rev@.len(),
                0 <= j <= i < n,
                rev@.to_multiset() == old(rev)@.to_multiset(),
                forall|k1: int, k2: int|
                    0 <= k1 <= k2 <= i && k1 != j && k2 != j ==> rev@[k1].sv <= rev@[k2].sv,
                forall|k: int| j < k <= i ==> rev@[j as int].sv <= rev@[k].sv,
            decreases j,
        {
            let ghost pre = rev@;
            let a = rev[j - 1];
            let b = rev[j];
            rev[j - 1] = b;
            rev[j] = a;
            proof {
                broadcast use vstd::seq_lib::group_to_multiset_ensures;

                assert(rev@ == pre.update(j - 1, b).update(j as int, a));
                assert(pre.update(j - 1, b)[j as int] == b);
                assert(pre[j - 1] == a && pre[j as int] == b);
                assert(pre.contains(a) && pre.contains(b));
                assert(pre.to_multiset().count(a) > 0 && pre.to_multiset().count(b) > 0);
                assert(rev@.to_multiset() =~= pre.to_multiset());
            }
            j -= 1;
        }
        proof {
            if j > 0 {
                assert forall|k1: int| 0 <= k1 < j implies rev@[k1].sv
                    <= rev@[j as int].sv by {
                    assert(rev@[k1].sv <= rev@[j - 1].sv);
                }
            }
            assert(forall|k1: int, k2: int|
                0 <= k1 <= k2 <= i ==> rev@[k1].sv <= rev@[k2].sv);
        }
        i += 1;
    }
}

/// Binary search over the sorted reverse table: finds a slot holding the
/// scalar value, or reports that no slot holds it.
fn rev_search(rev: &Vec<RevEntry>, v: u32) -> (r: Option<u8>)
    requires
        sorted_by_sv(rev@),
    ensures
        match r {
            Some(g) => exists|k: int| 0 <= k < rev@.len() && rev@[k].sv == v && rev@[k].glyph == g,
            None => forall|k: int| 0 <= k < rev@.len() ==> rev@[k].sv != v,
        },
{
    let mut lo: usize = 0;
    let mut hi: usize = rev.len();
    while lo < hi
        invariant
            sorted_by_sv(rev@),
            0 <= lo <= hi <= rev@.len(),
            forall|k: int| 0 <= k < lo ==> rev@[k].sv < v,
            forall|k: int| hi <= k < rev@.len() ==> rev@[k].sv > v,
        decreases hi - lo,
    {
        let mid = lo + (hi - lo) / 2;
        let e = rev[mid];
        if e.sv < v {
            lo = mid + 1;
        } else if e.sv > v {
            hi = mid;
        } else {
            return Some(e.glyph);
        }
    }
    None
}




} // verus!
