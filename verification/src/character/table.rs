//! The glyph table: a fixed mapping from character code to glyph bitmap.
//!
//! Each glyph is stored as a 64-bit mask over its 8x8 cell: the bit at
//! position `y * 8 + x` is set when the cell at column `x`, row `y`
//! (counted from the bottom of the cell) is lit. All lit cells of a glyph
//! lie in the columns `0 .. width`, where the width is recorded in the
//! lookup beside the mask. Letters share one glyph between their upper and
//! lower case; every character code outside the table is unrecognized and
//! has no fallback glyph.

use vstd::prelude::*;

verus! {

/// The digit '0'.
pub const ZERO: u64 = 0x0007050505070000;

/// The digit '1'.
pub const ONE: u64 = 0x0002030202070000;

/// The digit '2'.
pub const TWO: u64 = 0x0003040201070000;

/// The digit '3'.
pub const THREE: u64 = 0x0007040204070000;

/// The digit '4'.
pub const FOUR: u64 = 0x0005050704040000;

/// The digit '5'.
pub const FIVE: u64 = 0x0007010304030000;

/// The digit '6'.
pub const SIX: u64 = 0x0006010705070000;

/// The digit '7'.
pub const SEVEN: u64 = 0x0007040202020000;

/// The digit '8'.
pub const EIGHT: u64 = 0x0007050705070000;

/// The digit '9'.
pub const NINE: u64 = 0x0007050704030000;

/// The letter 'A' (upper or lower case).
pub const A: u64 = 0x0002050705050000;

/// The letter 'B' (upper or lower case).
pub const B: u64 = 0x0003050305030000;

/// The letter 'C' (upper or lower case).
pub const C: u64 = 0x0006010101060000;

/// The letter 'D' (upper or lower case).
pub const D: u64 = 0x0003050505030000;

/// The letter 'E' (upper or lower case).
pub const E: u64 = 0x0007010301070000;

/// The letter 'F' (upper or lower case).
pub const F: u64 = 0x0007010301010000;

/// The letter 'G' (upper or lower case).
pub const G: u64 = 0x0006010505060000;

/// The letter 'H' (upper or lower case).
pub const H: u64 = 0x0005050705050000;

/// The letter 'I' (upper or lower case).
pub const I: u64 = 0x0007020202070000;

/// The letter 'J' (upper or lower case).
pub const J: u64 = 0x0004040405020000;

/// The letter 'K' (upper or lower case).
pub const K: u64 = 0x0005030103050000;

/// The letter 'L' (upper or lower case).
pub const L: u64 = 0x0001010101070000;

/// The letter 'M' (upper or lower case).
pub const M: u64 = 0x00111b1511110000;

/// The letter 'N' (upper or lower case).
pub const N: u64 = 0x00090b0d09090000;

/// The letter 'O' (upper or lower case).
pub const O: u64 = 0x0002050505020000;

/// The letter 'P' (upper or lower case).
pub const P: u64 = 0x0003050301010000;

/// The letter 'Q' (upper or lower case).
pub const Q: u64 = 0x0002050502040000;

/// The letter 'R' (upper or lower case).
pub const R: u64 = 0x0003050305050000;

/// The letter 'S' (upper or lower case).
pub const S: u64 = 0x0006010204030000;

/// The letter 'T' (upper or lower case).
pub const T: u64 = 0x0007020202020000;

/// The letter 'U' (upper or lower case).
pub const U: u64 = 0x0005050505070000;

/// The letter 'V' (upper or lower case).
pub const V: u64 = 0x0005050505020000;

/// The letter 'W' (upper or lower case).
pub const W: u64 = 0x001111151b110000;

/// The letter 'X' (upper or lower case).
pub const X: u64 = 0x0005050205050000;

/// The letter 'Y' (upper or lower case).
pub const Y: u64 = 0x0005050202020000;

/// The letter 'Z' (upper or lower case).
pub const Z: u64 = 0x0007040201070000;

/// The character ' '.
pub const SPACE: u64 = 0x0000000000000000;

/// The character '&'.
pub const AMPERSAND: u64 = 0x0002050205060000;

/// The character a single quote.
pub const SIN_QUOTE: u64 = 0x0001010000000000;

/// The character '('.
pub const L_PARENTH: u64 = 0x0002010101020000;

/// The character ')'.
pub const R_PARENTH: u64 = 0x0001020202010000;

/// The character '*'.
pub const ASTERISK: u64 = 0x0005020500000000;

/// The character '+'.
pub const PLUS: u64 = 0x0000020702000000;

/// The character '-'.
pub const MINUS: u64 = 0x0000000700000000;

/// The character '='.
pub const EQUAL: u64 = 0x0000070007000000;

/// The character '.'.
pub const F_STOP: u64 = 0x0000000000010000;

/// The character '!'.
pub const EXCLAM: u64 = 0x0001010100010000;

/// The character a double quote.
pub const D_QUOTE: u64 = 0x0005050000000000;

/// The character the number sign.
pub const HASH: u64 = 0x000a1f0a1f0a0000;

/// The character a dollar sign.
pub const DOLLAR: u64 = 0x0006030206030000;

/// The character '%'.
pub const PERCENT: u64 = 0x0005040201050000;

/// The character a caret.
pub const CARET: u64 = 0x0002050000000000;

/// The character ','.
pub const COMMA: u64 = 0x0000000000000201;

/// The character ':'.
pub const COLON: u64 = 0x0000010001000000;

/// The character ';'.
pub const S_COLON: u64 = 0x0000000200000201;

/// The character '?'.
pub const QUESTION: u64 = 0x0003040200020000;

/// The character '@'.
pub const AT: u64 = 0x0006090d01060000;

/// The character '/'.
pub const SLASH: u64 = 0x0004040201010000;

/// The character '<'.
pub const LESS: u64 = 0x0004020102040000;

/// The character '>'.
pub const MORE: u64 = 0x0001020402010000;

/// The character '|'.
pub const V_BAR: u64 = 0x0001010101010000;

/// The character a backslash.
pub const B_SLASH: u64 = 0x0001010204040000;

/// The character '['.
pub const L_BRACKET: u64 = 0x0003010101030000;

/// The character ']'.
pub const R_BRACKET: u64 = 0x0003020202030000;

/// The character a left brace.
pub const L_BRACE: u64 = 0x0006020102060000;

/// The character a right brace.
pub const R_BRACE: u64 = 0x0003020402030000;

/// The character '_'.
pub const U_SCORE: u64 = 0x0000000000070000;

/// The character '~'.
pub const TILDE: u64 = 0x00000a0500000000;

/// The glyph bitmap and width for a character code, or `None` when the
/// code is not in the table.
pub open spec fn spec_glyph(code: u8) -> Option<(u64, usize)> {
    match code {
        48 => Some((ZERO, 3)),
        49 => Some((ONE, 3)),
        50 => Some((TWO, 3)),
        51 => Some((THREE, 3)),
        52 => Some((FOUR, 3)),
        53 => Some((FIVE, 3)),
        54 => Some((SIX, 3)),
        55 => Some((SEVEN, 3)),
        56 => Some((EIGHT, 3)),
        57 => Some((NINE, 3)),
        65 | 97 => Some((A, 3)),
        66 | 98 => Some((B, 3)),
        67 | 99 => Some((C, 3)),
        68 | 100 => Some((D, 3)),
        69 | 101 => Some((E, 3)),
        70 | 102 => Some((F, 3)),
        71 | 103 => Some((G, 3)),
        72 | 104 => Some((H, 3)),
        73 | 105 => Some((I, 3)),
        74 | 106 => Some((J, 3)),
        75 | 107 => Some((K, 3)),
        76 | 108 => Some((L, 3)),
        77 | 109 => Some((M, 5)),
        78 | 110 => Some((N, 4)),
        79 | 111 => Some((O, 3)),
        80 | 112 => Some((P, 3)),
        81 | 113 => Some((Q, 3)),
        82 | 114 => Some((R, 3)),
        83 | 115 => Some((S, 3)),
        84 | 116 => Some((T, 3)),
        85 | 117 => Some((U, 3)),
        86 | 118 => Some((V, 3)),
        87 | 119 => Some((W, 5)),
        88 | 120 => Some((X, 3)),
        89 | 121 => Some((Y, 3)),
        90 | 122 => Some((Z, 3)),
        32 => Some((SPACE, 2)),
        38 => Some((AMPERSAND, 4)),
        39 => Some((SIN_QUOTE, 1)),
        40 => Some((L_PARENTH, 2)),
        41 => Some((R_PARENTH, 2)),
        42 => Some((ASTERISK, 3)),
        43 => Some((PLUS, 3)),
        45 => Some((MINUS, 3)),
        61 => Some((EQUAL, 3)),
        46 => Some((F_STOP, 1)),
        33 => Some((EXCLAM, 1)),
        34 => Some((D_QUOTE, 3)),
        35 => Some((HASH, 5)),
        36 => Some((DOLLAR, 3)),
        37 => Some((PERCENT, 3)),
        94 => Some((CARET, 3)),
        44 => Some((COMMA, 2)),
        58 => Some((COLON, 1)),
        59 => Some((S_COLON, 2)),
        63 => Some((QUESTION, 3)),
        64 => Some((AT, 4)),
        47 => Some((SLASH, 3)),
        60 => Some((LESS, 3)),
        62 => Some((MORE, 3)),
        124 => Some((V_BAR, 1)),
        92 => Some((B_SLASH, 3)),
        91 => Some((L_BRACKET, 2)),
        93 => Some((R_BRACKET, 2)),
        123 => Some((L_BRACE, 3)),
        125 => Some((R_BRACE, 3)),
        95 => Some((U_SCORE, 3)),
        126 => Some((TILDE, 4)),
        _ => None,
    }
}

/// A character code has a glyph in the table.
pub open spec fn is_recognized(code: u8) -> bool {
    spec_glyph(code) is Some
}

/// Look up the glyph bitmap and width for a character code.
pub fn glyph(code: u8) -> (r: Option<(u64, usize)>)
    ensures
        r == spec_glyph(code),
{
    match code {
        48 => Some((ZERO, 3)),
        49 => Some((ONE, 3)),
        50 => Some((TWO, 3)),
        51 => Some((THREE, 3)),
        52 => Some((FOUR, 3)),
        53 => Some((FIVE, 3)),
        54 => Some((SIX, 3)),
        55 => Some((SEVEN, 3)),
        56 => Some((EIGHT, 3)),
        57 => Some((NINE, 3)),
        65 | 97 => Some((A, 3)),
        66 | 98 => Some((B, 3)),
        67 | 99 => Some((C, 3)),
        68 | 100 => Some((D, 3)),
        69 | 101 => Some((E, 3)),
        70 | 102 => Some((F, 3)),
        71 | 103 => Some((G, 3)),
        72 | 104 => Some((H, 3)),
        73 | 105 => Some((I, 3)),
        74 | 106 => Some((J, 3)),
        75 | 107 => Some((K, 3)),
        76 | 108 => Some((L, 3)),
        77 | 109 => Some((M, 5)),
        78 | 110 => Some((N, 4)),
        79 | 111 => Some((O, 3)),
        80 | 112 => Some((P, 3)),
        81 | 113 => Some((Q, 3)),
        82 | 114 => Some((R, 3)),
        83 | 115 => Some((S, 3)),
        84 | 116 => Some((T, 3)),
        85 | 117 => Some((U, 3)),
        86 | 118 => Some((V, 3)),
        87 | 119 => Some((W, 5)),
        88 | 120 => Some((X, 3)),
        89 | 121 => Some((Y, 3)),
        90 | 122 => Some((Z, 3)),
        32 => Some((SPACE, 2)),
        38 => Some((AMPERSAND, 4)),
        39 => Some((SIN_QUOTE, 1)),
        40 => Some((L_PARENTH, 2)),
        41 => Some((R_PARENTH, 2)),
        42 => Some((ASTERISK, 3)),
        43 => Some((PLUS, 3)),
        45 => Some((MINUS, 3)),
        61 => Some((EQUAL, 3)),
        46 => Some((F_STOP, 1)),
        33 => Some((EXCLAM, 1)),
        34 => Some((D_QUOTE, 3)),
        35 => Some((HASH, 5)),
        36 => Some((DOLLAR, 3)),
        37 => Some((PERCENT, 3)),
        94 => Some((CARET, 3)),
        44 => Some((COMMA, 2)),
        58 => Some((COLON, 1)),
        59 => Some((S_COLON, 2)),
        63 => Some((QUESTION, 3)),
        64 => Some((AT, 4)),
        47 => Some((SLASH, 3)),
        60 => Some((LESS, 3)),
        62 => Some((MORE, 3)),
        124 => Some((V_BAR, 1)),
        92 => Some((B_SLASH, 3)),
        91 => Some((L_BRACKET, 2)),
        93 => Some((R_BRACKET, 2)),
        123 => Some((L_BRACE, 3)),
        125 => Some((R_BRACE, 3)),
        95 => Some((U_SCORE, 3)),
        126 => Some((TILDE, 4)),
        _ => None,
    }
}

} // verus!
