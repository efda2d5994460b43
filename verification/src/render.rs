//! Frame rendering for billboard strips.
//!
//! A frame is one 8x8 snapshot of a strip at a given scroll offset. The
//! renderers share one clipping discipline: a strip cell outside the strip
//! is simply unlit, never an error, so scrolling past either end of a strip
//! yields an empty frame. Pixel art is authored top-down while the display
//! counts rows bottom-up, so the renderers invert the vertical axis.

use vstd::prelude::*;

use crate::billboard::{
    art_rectangular,
    art_valid,
    lemma_deep_view_bools,
    spec_vertical,
    Billboard,
};
use crate::buffer::ColorBuffer;
use crate::character::Character;
use crate::color;

verus! {

/// Every character of the strip is well formed.
pub open spec fn text_strip_wf(text: Seq<Character>) -> bool {
    forall|i: int| 0 <= i < text.len() ==> (#[trigger] text[i]).wf()
}

/// Whether one of the first `upto` lit cells of the character `c` lands on
/// the display cell `(x, y)` when the visible window starts at
/// `frame_offset`: a lit cell at local column `cx` appears at display
/// column `cx + c.offset - frame_offset`.
pub open spec fn glyph_lights_upto(c: Character, frame_offset: int, x: int, y: int, upto: int) -> bool {
    exists|k: int|
        0 <= k < upto && k < c.coordinates@.len() && (#[trigger] c.coordinates@[k]).1 == y
            && c.coordinates@[k].0 + c.offset - frame_offset == x
}

/// Whether a lit cell of the character `c` lands on the display cell
/// `(x, y)` when the visible window starts at `frame_offset`.
pub open spec fn glyph_lights(c: Character, frame_offset: int, x: int, y: int) -> bool {
    glyph_lights_upto(c, frame_offset, x, y, c.coordinates@.len() as int)
}

/// Whether one of the first `upto` characters of the strip lights the
/// display cell `(x, y)`.
pub open spec fn text_frame_lit_upto(
    text: Seq<Character>,
    frame_offset: int,
    x: int,
    y: int,
    upto: int,
) -> bool {
    exists|i: int| 0 <= i < upto && i < text.len() && glyph_lights(#[trigger] text[i], frame_offset, x, y)
}

/// Whether some character of the strip lights the display cell `(x, y)`
/// when the visible window starts at `frame_offset`.
pub open spec fn text_frame_lit(text: Seq<Character>, frame_offset: int, x: int, y: int) -> bool {
    text_frame_lit_upto(text, frame_offset, x, y, text.len() as int)
}

/// Every row of the strip holds one cell per display row.
pub open spec fn strip_wf(strip: Seq<Seq<bool>>) -> bool {
    forall|i: int| 0 <= i < strip.len() ==> (#[trigger] strip[i]).len() == 8
}

/// Whether the display cell `(x, y)` shows a lit strip cell when a
/// horizontal strip is rendered at `offset`: display column `x` shows strip
/// column `offset + x`, whose entries are counted top-down.
pub open spec fn horizontal_frame_lit(strip: Seq<Seq<bool>>, offset: int, x: int, y: int) -> bool {
    offset + x < strip.len() && strip[offset + x][7 - y]
}

/// Whether the display cell `(x, y)` shows a lit strip cell when a
/// vertical strip is rendered at `offset`: display row `y` (counted from
/// the bottom) shows strip row `offset + 7 - y`.
pub open spec fn vertical_frame_lit(strip: Seq<Seq<bool>>, offset: int, x: int, y: int) -> bool {
    offset + 7 - y < strip.len() && strip[offset + 7 - y][x]
}

/// Scrolling past the end of a strip yields an empty frame: at an offset at
/// or beyond the strip length no display cell is lit.
pub proof fn lemma_horizontal_frame_past_end_unlit(strip: Seq<Seq<bool>>, offset: int)
    requires
        offset >= strip.len(),
    ensures
        forall|x: int, y: int| 0 <= x < 8 && 0 <= y < 8 ==> !horizontal_frame_lit(strip, offset, x, y),
{
}

/// The vertical counterpart: at an offset at or beyond the strip length no
/// display cell is lit.
pub proof fn lemma_vertical_frame_past_end_unlit(strip: Seq<Seq<bool>>, offset: int)
    requires
        offset >= strip.len(),
    ensures
        forall|x: int, y: int| 0 <= x < 8 && 0 <= y < 8 ==> !vertical_frame_lit(strip, offset, x, y),
{
}

/// Scrolling a composed text strip past its total width yields an empty
/// frame: every glyph then lies wholly left of the visible window.
pub proof fn lemma_text_frame_past_end_unlit(
    text: Seq<u8>,
    chars: Seq<Character>,
    frame_offset: int,
)
    requires
        crate::character::composed(text, chars),
        frame_offset > crate::character::spec_total_width(text),
    ensures
        forall|x: int, y: int|
            0 <= x < 8 && 0 <= y < 8 ==> !text_frame_lit(chars, frame_offset, x, y),
{
    assert forall|x: int, y: int| 0 <= x < 8 && 0 <= y < 8 implies !text_frame_lit(
        chars,
        frame_offset,
        x,
        y,
    ) by {
        assert forall|i: int| 0 <= i < chars.len() implies !glyph_lights(
            #[trigger] chars[i],
            frame_offset,
            x,
            y,
        ) by {
            let c = chars[i];
            crate::character::lemma_offsets_monotonic(text, i, text.len() as int);
            if i + 1 < text.len() {
                crate::character::lemma_offsets_monotonic(text, i + 1, text.len() as int);
            }
            assert(c.offset + c.width < frame_offset);
            assert forall|k: int| 0 <= k < c.coordinates@.len() implies !((
            #[trigger] c.coordinates@[k]).1 == y && c.coordinates@[k].0 + c.offset - frame_offset
                == x) by {
                assert(c.coordinates@[k].0 <= c.width);
            }
        }
    }
}

/// Rendering a vertical billboard at offset 0 reproduces the first 8x8
/// block of the source art: display cell `(x, y)` is lit exactly when the
/// art byte at row `7 - y` (art is authored top-down), column `x` is `#`.
pub proof fn lemma_vertical_round_trip(art: Seq<Seq<u8>>, x: int, y: int)
    requires
        art_valid(art),
        art_rectangular(art, 8),
        art.len() >= 8,
        0 <= x < 8,
        0 <= y < 8,
    ensures
        vertical_frame_lit(spec_vertical(art), 0, x, y) <==> art[7 - y][x]
            == crate::billboard::LIT_BYTE,
{
    assert(art[7 - y].len() == 8);
}

/// The horizontal counterpart of [`lemma_vertical_round_trip`]: a
/// horizontal billboard built from art with one row per display row,
/// rendered at offset 0, reproduces the first 8x8 block of the art.
pub proof fn lemma_horizontal_round_trip(art: Seq<Seq<u8>>, len: int, x: int, y: int)
    requires
        art_valid(art),
        art_rectangular(art, len),
        art.len() == 8,
        len >= 8,
        0 <= x < 8,
        0 <= y < 8,
    ensures
        horizontal_frame_lit(crate::billboard::spec_horizontal(art, len), 0, x, y) <==> art[7
            - y][x] == crate::billboard::LIT_BYTE,
{
    assert(art[7 - y].len() == len);
}

impl ColorBuffer {
    /// Draw one frame of a horizontal billboard at the given scroll offset.
    ///
    /// Strip cells that fall outside the strip are unlit. Lit cells are
    /// drawn white, unlit cells black. Scrolling is realized by the caller
    /// looping over offsets, drawing one frame per step.
    pub fn draw_horizontal_billboard_frame(&mut self, billboard: &Billboard, offset: usize)
        requires
            old(self).wf(),
            strip_wf(billboard.deep_view()),
        ensures
            final(self).wf(),
            forall|x: int, y: int|
                0 <= x < 8 && 0 <= y < 8 ==> final(self).color_at(x, y) == (
                if horizontal_frame_lit(billboard.deep_view(), offset as int, x, y) {
                    color::WHITE
                } else {
                    color::BLACK
                }),
    {
        proof {
            lemma_deep_view_bools(*billboard);
        }
        let ghost strip = billboard.deep_view();
        let mut x: usize = 0;
        while x < 8
            invariant
                self.wf(),
                strip == billboard.deep_view(),
                strip_wf(strip),
                x <= 8,
                forall|xi: int, yi: int|
                    0 <= xi < x && 0 <= yi < 8 ==> self.color_at(xi, yi) == (
                    if horizontal_frame_lit(strip, offset as int, xi, yi) {
                        color::WHITE
                    } else {
                        color::BLACK
                    }),
            decreases 8 - x,
        {
            let in_range = offset < billboard.len() && x < billboard.len() - offset;
            let mut y: usize = 0;
            while y < 8
                invariant
                    self.wf(),
                    strip == billboard.deep_view(),
                    strip_wf(strip),
                    x < 8,
                    y <= 8,
                    in_range == (offset + x < strip.len()),
                    strip.len() == billboard@.len(),
                    billboard@.len() <= usize::MAX,
                    forall|xi: int, yi: int|
                        0 <= xi < x && 0 <= yi < 8 ==> self.color_at(xi, yi) == (
                        if horizontal_frame_lit(strip, offset as int, xi, yi) {
                            color::WHITE
                        } else {
                            color::BLACK
                        }),
                    forall|yi: int|
                        0 <= yi < y ==> self.color_at(x as int, yi) == (
                        if horizontal_frame_lit(strip, offset as int, x as int, yi) {
                            color::WHITE
                        } else {
                            color::BLACK
                        }),
                decreases 8 - y,
            {
                let lit = if in_range {
                    let column = offset + x;
                    proof {
                        assert(strip[column as int] == billboard@[column as int]@);
                        assert(strip[column as int].len() == 8);
                    }
                    billboard[column][7 - y]
                } else {
                    false
                };
                proof {
                    assert(lit == horizontal_frame_lit(strip, offset as int, x as int, y as int));
                }
                self.set(x, y, if lit {
                    color::WHITE
                } else {
                    color::BLACK
                });
                y = y + 1;
            }
            x = x + 1;
        }
    }

    /// Draw one frame of a vertical billboard at the given scroll offset.
    ///
    /// Analogous to
    /// [`draw_horizontal_billboard_frame`](Self::draw_horizontal_billboard_frame),
    /// iterating strip rows instead of strip columns.
    pub fn draw_vertical_billboard_frame(&mut self, billboard: &Billboard, offset: usize)
        requires
            old(self).wf(),
            strip_wf(billboard.deep_view()),
        ensures
            final(self).wf(),
            forall|x: int, y: int|
                0 <= x < 8 && 0 <= y < 8 ==> final(self).color_at(x, y) == (
                if vertical_frame_lit(billboard.deep_view(), offset as int, x, y) {
                    color::WHITE
                } else {
                    color::BLACK
                }),
    {
        proof {
            lemma_deep_view_bools(*billboard);
        }
        let ghost strip = billboard.deep_view();
        let mut i: usize = 0;
        while i < 8
            invariant
                self.wf(),
                strip == billboard.deep_view(),
                strip_wf(strip),
                i <= 8,
                forall|xi: int, yi: int|
                    0 <= xi < 8 && 8 - i <= yi < 8 ==> self.color_at(xi, yi) == (
                    if vertical_frame_lit(strip, offset as int, xi, yi) {
                        color::WHITE
                    } else {
                        color::BLACK
                    }),
            decreases 8 - i,
        {
            let in_range = offset < billboard.len() && i < billboard.len() - offset;
            let y = 7 - i;
            let mut x: usize = 0;
            while x < 8
                invariant
                    self.wf(),
                    strip == billboard.deep_view(),
                    strip_wf(strip),
                    i < 8,
                    y == 7 - i,
                    x <= 8,
                    in_range == (offset + i < strip.len()),
                    strip.len() == billboard@.len(),
                    billboard@.len() <= usize::MAX,
                    forall|xi: int, yi: int|
                        0 <= xi < 8 && 8 - i <= yi < 8 ==> self.color_at(xi, yi) == (
                        if vertical_frame_lit(strip, offset as int, xi, yi) {
                            color::WHITE
                        } else {
                            color::BLACK
                        }),
                    forall|xi: int|
                        0 <= xi < x ==> self.color_at(xi, y as int) == (
                        if vertical_frame_lit(strip, offset as int, xi, y as int) {
                            color::WHITE
                        } else {
                            color::BLACK
                        }),
                decreases 8 - x,
            {
                let lit = if in_range {
                    let row = offset + i;
                    proof {
                        assert(strip[row as int] == billboard@[row as int]@);
                        assert(strip[row as int].len() == 8);
                    }
                    billboard[row][x]
                } else {
                    false
                };
                proof {
                    assert(lit == vertical_frame_lit(strip, offset as int, x as int, y as int));
                }
                self.set(x, y, if lit {
                    color::WHITE
                } else {
                    color::BLACK
                });
                x = x + 1;
            }
            i = i + 1;
        }
    }

    /// Draw one frame of a strip of text at the given window offset.
    ///
    /// The buffer is cleared, then every lit cell of every character that
    /// falls inside the visible window `[frame_offset, frame_offset + 7]`
    /// is drawn white: a cell at local column `cx` of a character with
    /// cumulative offset `o` appears at display column
    /// `cx + o - frame_offset`, and cells shifted past either edge of the
    /// display are clipped. Like the billboard renderers, this draws a
    /// single frame; scrolling is realized by the caller stepping
    /// `frame_offset`.
    pub fn draw_text_billboard_frame(&mut self, text: &Vec<Character>, frame_offset: usize)
        requires
            old(self).wf(),
            text_strip_wf(text@),
        ensures
            final(self).wf(),
            forall|x: int, y: int|
                0 <= x < 8 && 0 <= y < 8 ==> final(self).color_at(x, y) == (
                if text_frame_lit(text@, frame_offset as int, x, y) {
                    color::WHITE
                } else {
                    color::BLACK
                }),
    {
        self.clear();
        let mut i: usize = 0;
        while i < text.len()
            invariant
                self.wf(),
                text_strip_wf(text@),
                i <= text@.len(),
                forall|x: int, y: int|
                    0 <= x < 8 && 0 <= y < 8 ==> self.color_at(x, y) == (
                    if text_frame_lit_upto(text@, frame_offset as int, x, y, i as int) {
                        color::WHITE
                    } else {
                        color::BLACK
                    }),
            decreases text@.len() - i,
        {
            let c = &text[i];
            let skip_left = c.offset < frame_offset && frame_offset - c.offset > c.width;
            let skip_right = c.offset > frame_offset && c.offset - frame_offset > 7;
            if !skip_left && !skip_right {
                let mut k: usize = 0;
                while k < c.coordinates.len()
                    invariant
                        self.wf(),
                        text_strip_wf(text@),
                        i < text@.len(),
                        c == text@[i as int],
                        !(c.offset < frame_offset && frame_offset - c.offset > c.width),
                        !(c.offset > frame_offset && c.offset - frame_offset > 7),
                        k <= c.coordinates@.len(),
                        forall|x: int, y: int|
                            0 <= x < 8 && 0 <= y < 8 ==> self.color_at(x, y) == (
                            if text_frame_lit_upto(text@, frame_offset as int, x, y, i as int)
                                || glyph_lights_upto(
                                *c,
                                frame_offset as int,
                                x,
                                y,
                                k as int,
                            ) {
                                color::WHITE
                            } else {
                                color::BLACK
                            }),
                    decreases c.coordinates@.len() - k,
                {
                    let (cx, cy) = c.coordinates[k];
                    let ghost vx = cx + c.offset - frame_offset as int;
                    if frame_offset <= c.offset {
                        let shift = c.offset - frame_offset;
                        if cx + shift < 8 {
                            self.set(cx + shift, cy, color::WHITE);
                        }
                    } else {
                        let shift = frame_offset - c.offset;
                        if shift <= cx {
                            self.set(cx - shift, cy, color::WHITE);
                        }
                    }
                    proof {
                        assert forall|x: int, y: int| 0 <= x < 8 && 0 <= y < 8 implies (
                        glyph_lights_upto(*c, frame_offset as int, x, y, k + 1)
                            == (glyph_lights_upto(*c, frame_offset as int, x, y, k as int) || (x
                            == vx && y == cy))) by {
                            if glyph_lights_upto(*c, frame_offset as int, x, y, k as int) {
                                assert(glyph_lights_upto(*c, frame_offset as int, x, y, k + 1));
                            }
                            if x == vx && y == cy {
                                assert(c.coordinates@[k as int].1 == y);
                                assert(c.coordinates@[k as int].0 + c.offset - frame_offset == x);
                                assert(glyph_lights_upto(*c, frame_offset as int, x, y, k + 1));
                            }
                        }
                    }
                    k = k + 1;
                }
            }
            proof {
                let fo = frame_offset as int;
                if skip_left || skip_right {
                    assert forall|x: int, y: int| 0 <= x < 8 && 0 <= y < 8 implies !glyph_lights(
                        text@[i as int],
                        fo,
                        x,
                        y,
                    ) by {
                        let c = text@[i as int];
                        assert(c.wf());
                        assert forall|k: int| 0 <= k < c.coordinates@.len() implies !((
                        #[trigger] c.coordinates@[k]).1 == y && c.coordinates@[k].0 + c.offset - fo
                            == x) by {
                            assert(c.coordinates@[k].0 <= c.width && c.coordinates@[k].0 < 8);
                        }
                    }
                }
                assert forall|x: int, y: int| 0 <= x < 8 && 0 <= y < 8 implies (
                text_frame_lit_upto(text@, fo, x, y, i + 1) == (text_frame_lit_upto(
                    text@,
                    fo,
                    x,
                    y,
                    i as int,
                ) || glyph_lights(text@[i as int], fo, x, y))) by {
                    if text_frame_lit_upto(text@, fo, x, y, i as int) {
                        assert(text_frame_lit_upto(text@, fo, x, y, i + 1));
                    }
                    if glyph_lights(text@[i as int], fo, x, y) {
                        assert(text_frame_lit_upto(text@, fo, x, y, i + 1));
                    }
                }
            }
            i = i + 1;
        }
    }
}

} // verus!
