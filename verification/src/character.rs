//! Characters and text strips for the LED matrix.
//!
//! A [`Character`] is one glyph ready for display: the set of lit cells
//! within its local 8x8 cell, its width, and — once composed into a strip
//! with [`convert_str`] — its cumulative horizontal offset within that
//! strip. The glyph shapes themselves live in [`table`].

use vstd::prelude::*;

pub mod table;

use table::{is_recognized, spec_glyph};

verus! {

/// Whether the cell at column `x`, row `y` (counted from the bottom) of a
/// glyph bitmap is lit.
pub open spec fn glyph_bit(mask: u64, x: int, y: int) -> bool {
    (mask >> ((8 * y + x) as u64)) & 1 == 1
}

/// The lit cells of row `y` among the columns `0 .. w`, leftmost first.
pub open spec fn spec_glyph_row(mask: u64, y: int, w: int) -> Seq<(usize, usize)>
    decreases w,
{
    if w <= 0 {
        Seq::empty()
    } else {
        spec_glyph_row(mask, y, w - 1) + (if glyph_bit(mask, w - 1, y) {
            seq![((w - 1) as usize, y as usize)]
        } else {
            Seq::empty()
        })
    }
}

/// The lit cells of the rows `0 .. rows`, bottom row first, each row
/// leftmost first.
pub open spec fn spec_glyph_rows(mask: u64, width: int, rows: int) -> Seq<(usize, usize)>
    decreases rows,
{
    if rows <= 0 {
        Seq::empty()
    } else {
        spec_glyph_rows(mask, width, rows - 1) + spec_glyph_row(mask, rows - 1, width)
    }
}

/// All lit cells of a glyph with the given bitmap and width.
pub open spec fn spec_glyph_coordinates(mask: u64, width: int) -> Seq<(usize, usize)> {
    spec_glyph_rows(mask, width, 8)
}

/// The bitmap of the glyph for a recognized character code.
pub open spec fn spec_glyph_mask(code: u8) -> u64 {
    spec_glyph(code).unwrap().0
}

/// The width of the glyph for a recognized character code.
pub open spec fn spec_glyph_width(code: u8) -> usize {
    spec_glyph(code).unwrap().1
}

/// A single character that can be drawn on the display.
///
/// To draw a sequence of characters, see [`convert_str`].
#[derive(Clone, Debug)]
pub struct Character {
    /// The coordinates of the lit cells within the glyph's local cell,
    /// with `(0, 0)` the bottom left corner.
    pub coordinates: Vec<(usize, usize)>,
    /// The width of the glyph in columns. Composition adds one further
    /// column of inter-character spacing after each glyph.
    pub width: usize,
    /// The cumulative horizontal offset of this glyph within a composed
    /// strip; zero until the glyph is composed.
    pub offset: usize,
}

impl Character {
    /// Every lit cell lies on the display cell and within the glyph's own
    /// columns.
    pub open spec fn wf(self) -> bool {
        forall|k: int|
            0 <= k < self.coordinates@.len() ==> {
                let c = #[trigger] self.coordinates@[k];
                c.0 < 8 && c.0 <= self.width && c.1 < 8
            }
    }

    /// Construct a new character from its lit-cell coordinates.
    ///
    /// The width is specified separately, for intended whitespace.
    pub fn new(coordinates: Vec<(usize, usize)>, width: usize) -> (c: Character)
        ensures
            c.coordinates == coordinates,
            c.width == width,
            c.offset == 0,
    {
        Character { coordinates, width, offset: 0 }
    }
}

impl Default for Character {
    /// The glyph of the space character: no lit cells.
    fn default() -> (c: Self)
        ensures
            c.coordinates@ == Seq::<(usize, usize)>::empty(),
            c.width == spec_glyph_width(32),
            c.offset == 0,
            c.wf(),
    {
        Character { coordinates: Vec::new(), width: 2, offset: 0 }
    }
}

/// Decode the lit-cell coordinates of a glyph bitmap, bottom row first and
/// leftmost first within each row, restricted to the glyph's columns.
fn glyph_coordinates(mask: u64, width: usize) -> (coords: Vec<(usize, usize)>)
    requires
        1 <= width <= 8,
    ensures
        coords@ == spec_glyph_coordinates(mask, width as int),
        forall|k: int|
            0 <= k < coords@.len() ==> {
                let c = #[trigger] coords@[k];
                c.0 < width && c.1 < 8
            },
{
    let mut coords: Vec<(usize, usize)> = Vec::new();
    let mut y: usize = 0;
    while y < 8
        invariant
            1 <= width <= 8,
            y <= 8,
            coords@ == spec_glyph_rows(mask, width as int, y as int),
            forall|k: int|
                0 <= k < coords@.len() ==> {
                    let c = #[trigger] coords@[k];
                    c.0 < width && c.1 < 8
                },
        decreases 8 - y,
    {
        proof {
            assert(coords@ =~= spec_glyph_rows(mask, width as int, y as int) + spec_glyph_row(
                mask,
                y as int,
                0,
            ));
        }
        let mut x: usize = 0;
        while x < width
            invariant
                1 <= width <= 8,
                y < 8,
                x <= width,
                coords@ == spec_glyph_rows(mask, width as int, y as int) + spec_glyph_row(
                    mask,
                    y as int,
                    x as int,
                ),
                forall|k: int|
                    0 <= k < coords@.len() ==> {
                        let c = #[trigger] coords@[k];
                        c.0 < width && c.1 < 8
                    },
            decreases width - x,
        {
            let shift: u64 = 8 * (y as u64) + (x as u64);
            if (mask >> shift) & 1 == 1 {
                coords.push((x, y));
            }
            proof {
                assert(coords@ =~= spec_glyph_rows(mask, width as int, y as int) + spec_glyph_row(
                    mask,
                    y as int,
                    x + 1,
                ));
            }
            x = x + 1;
        }
        y = y + 1;
    }
    coords
}

/// The glyph of every recognized character code is between one and eight
/// columns wide.
pub proof fn lemma_glyph_width_bounds(code: u8)
    requires
        is_recognized(code),
    ensures
        1 <= spec_glyph_width(code) <= 8,
{
}

/// The [`Character`] for a recognized character code: the decoded lit
/// cells of its glyph, its width from the table, and offset zero.
///
/// A code outside the table is a content-authoring mistake with no
/// fallback glyph; use [`lookup`] to pre-validate arbitrary input.
pub fn glyph_for(code: u8) -> (c: Character)
    requires
        is_recognized(code),
    ensures
        c.wf(),
        c.offset == 0,
        c.width == spec_glyph_width(code),
        c.coordinates@ == spec_glyph_coordinates(
            spec_glyph_mask(code),
            spec_glyph_width(code) as int,
        ),
{
    match table::glyph(code) {
        Some((mask, width)) => {
            proof {
                lemma_glyph_width_bounds(code);
            }
            let coordinates = glyph_coordinates(mask, width);
            Character { coordinates, width, offset: 0 }
        },
        None => {
            proof {
                assert(false);
            }
            Character { coordinates: Vec::new(), width: 0, offset: 0 }
        },
    }
}

/// The [`Character`] for a character code, or `None` when the code is not
/// in the glyph table.
pub fn lookup(code: u8) -> (r: Option<Character>)
    ensures
        r is Some <==> is_recognized(code),
        r matches Some(c) ==> c.wf() && c.offset == 0 && c.width == spec_glyph_width(code)
            && c.coordinates@ == spec_glyph_coordinates(
            spec_glyph_mask(code),
            spec_glyph_width(code) as int,
        ),
{
    match table::glyph(code) {
        Some(_) => Some(glyph_for(code)),
        None => None,
    }
}

/// Every byte of the text has a glyph in the table.
pub open spec fn all_recognized(text: Seq<u8>) -> bool {
    forall|i: int| 0 <= i < text.len() ==> is_recognized(#[trigger] text[i])
}

/// The cumulative horizontal offset of the glyph at position `i` of a
/// composed strip: the widths of all earlier glyphs plus one column of
/// spacing after each.
pub open spec fn spec_offset_at(text: Seq<u8>, i: int) -> int
    decreases i,
{
    if i <= 0 {
        0
    } else {
        spec_offset_at(text, i - 1) + spec_glyph_width(text[i - 1]) + 1
    }
}

/// The total width of the strip composed from the text: the final
/// cumulative offset minus the trailing inter-character gap.
pub open spec fn spec_total_width(text: Seq<u8>) -> int {
    spec_offset_at(text, text.len() as int) - 1
}

/// The characters are exactly the glyphs of the text, in order, each
/// carrying its cumulative offset.
pub open spec fn composed(text: Seq<u8>, chars: Seq<Character>) -> bool {
    &&& chars.len() == text.len()
    &&& forall|i: int|
        0 <= i < text.len() ==> {
            let c = #[trigger] chars[i];
            &&& c.wf()
            &&& c.width == spec_glyph_width(text[i])
            &&& c.coordinates@ == spec_glyph_coordinates(
                spec_glyph_mask(text[i]),
                c.width as int,
            )
            &&& c.offset == spec_offset_at(text, i)
        }
}

/// Cumulative offsets never decrease as the position grows, and each
/// position advances by exactly the glyph width plus the fixed one-cell
/// spacing.
pub proof fn lemma_offsets_monotonic(text: Seq<u8>, i: int, j: int)
    requires
        0 <= i < j <= text.len(),
    ensures
        spec_offset_at(text, i) < spec_offset_at(text, j),
        spec_offset_at(text, i + 1) == spec_offset_at(text, i) + spec_glyph_width(text[i]) + 1,
    decreases j,
{
    if i < j - 1 {
        lemma_offsets_monotonic(text, i, j - 1);
    }
}

/// The cumulative offset at position `i` is at most nine cells per glyph:
/// every glyph is at most eight columns wide, plus one cell of spacing.
/// Callers can use this to discharge the machine-size bound that
/// [`convert_str`] puts on the total offset of the text.
pub proof fn lemma_offset_at_bound(text: Seq<u8>, i: int)
    requires
        all_recognized(text),
        0 <= i <= text.len(),
    ensures
        0 <= spec_offset_at(text, i) <= 9 * i,
    decreases i,
{
    if i > 0 {
        lemma_offset_at_bound(text, i - 1);
        lemma_glyph_width_bounds(text[i - 1]);
    }
}

/// Composition is deterministic and referentially transparent: any two
/// character strips composed from the same text agree in every field of
/// every position, and their total widths agree.
pub proof fn lemma_compose_deterministic(text: Seq<u8>, a: Seq<Character>, b: Seq<Character>)
    requires
        composed(text, a),
        composed(text, b),
    ensures
        a.len() == b.len(),
        forall|i: int|
            0 <= i < a.len() ==> #[trigger] a[i].width == b[i].width && a[i].offset == b[i].offset
                && a[i].coordinates@ == b[i].coordinates@,
{
    assert forall|i: int|
        0 <= i < a.len() implies #[trigger] a[i].width == b[i].width && a[i].offset == b[i].offset
        && a[i].coordinates@ == b[i].coordinates@ by {
        assert(composed(text, a) && 0 <= i < text.len());
    }
}

/// Convert a text to a strip of positioned characters for display.
///
/// Each character is assigned the cumulative offset of the glyphs before
/// it, with one cell of spacing between neighbours. Returns the characters
/// and the total strip width (the trailing gap excluded).
pub fn convert_str(text: &Vec<u8>) -> (r: (Vec<Character>, usize))
    requires
        text@.len() >= 1,
        all_recognized(text@),
        spec_offset_at(text@, text@.len() as int) <= usize::MAX,
    ensures
        composed(text@, r.0@),
        r.1 == spec_total_width(text@),
{
    let mut result: Vec<Character> = Vec::new();
    let mut length: usize = 0;
    let mut i: usize = 0;
    while i < text.len()
        invariant
            text@.len() >= 1,
            all_recognized(text@),
            spec_offset_at(text@, text@.len() as int) <= usize::MAX,
            i <= text@.len(),
            i <= length,
            length == spec_offset_at(text@, i as int),
            result@.len() == i,
            forall|k: int|
                0 <= k < i ==> {
                    let c = #[trigger] result@[k];
                    &&& c.wf()
                    &&& c.width == spec_glyph_width(text@[k])
                    &&& c.coordinates@ == spec_glyph_coordinates(
                        spec_glyph_mask(text@[k]),
                        c.width as int,
                    )
                    &&& c.offset == spec_offset_at(text@, k)
                }
        decreases text@.len() - i,
    {
        let mut c = glyph_for(text[i]);
        c.offset = length;
        proof {
            lemma_offsets_monotonic(text@, i as int, text@.len() as int);
            if i + 1 < text@.len() {
                lemma_offsets_monotonic(text@, i + 1, text@.len() as int);
            }
        }
        length = length + c.width + 1;
        result.push(c);
        i = i + 1;
    }
    (result, length - 1)
}

} // verus!
