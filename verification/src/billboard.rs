//! Billboard-style pixel art strips.
//!
//! A billboard is a strip of boolean lit/unlit cells built from ASCII art:
//! a `#` byte marks a lit cell and a space an unlit one; any other byte is
//! a content-authoring mistake, so the constructors only accept valid art.
//! [`vertical`] keeps the art orientation (one input row per strip row);
//! [`horizontal`] transposes it, so that one input row becomes one pixel
//! row of a strip that scrolls sideways across the display.

use vstd::prelude::*;

verus! {

/// Element by element, the deep view of a vector of byte rows is the view
/// of each row.
pub(crate) proof fn lemma_deep_view_bytes(v: Vec<Vec<u8>>)
    ensures
        v.deep_view().len() == v@.len(),
        forall|i: int| 0 <= i < v@.len() ==> #[trigger] v.deep_view()[i] == v@[i]@,
{
    assert forall|i: int| 0 <= i < v@.len() implies #[trigger] v.deep_view()[i] == v@[i]@ by {
        assert(v@[i].deep_view() =~= v@[i]@);
    }
}

/// Element by element, the deep view of a vector of boolean rows is the
/// view of each row.
pub(crate) proof fn lemma_deep_view_bools(v: Vec<Vec<bool>>)
    ensures
        v.deep_view().len() == v@.len(),
        forall|i: int| 0 <= i < v@.len() ==> #[trigger] v.deep_view()[i] == v@[i]@,
{
    assert forall|i: int| 0 <= i < v@.len() implies #[trigger] v.deep_view()[i] == v@[i]@ by {
        assert(v@[i].deep_view() =~= v@[i]@);
    }
}

/// The representation of billboard-style pixel art: a strip of rows of
/// lit/unlit cells. For horizontal billboards such an inner vector is one
/// pixel column of the strip; for vertical billboards it is one pixel row.
pub type Billboard = Vec<Vec<bool>>;

/// The byte that marks a lit cell: `#`.
pub const LIT_BYTE: u8 = 35;

/// The byte that marks an unlit cell: a space.
pub const UNLIT_BYTE: u8 = 32;

/// The byte is a legal pixel-art cell: lit (`#`) or unlit (space).
pub open spec fn art_byte_valid(b: u8) -> bool {
    b == LIT_BYTE || b == UNLIT_BYTE
}

/// Every byte of the art is a legal pixel-art cell.
pub open spec fn art_valid(art: Seq<Seq<u8>>) -> bool {
    forall|i: int, j: int|
        0 <= i < art.len() && 0 <= j < art[i].len() ==> art_byte_valid(#[trigger] art[i][j])
}

/// Every row of the art has length `len`.
pub open spec fn art_rectangular(art: Seq<Seq<u8>>, len: int) -> bool {
    forall|i: int| 0 <= i < art.len() ==> (#[trigger] art[i]).len() == len
}

/// The strip a vertical billboard constructor produces: each art row,
/// decoded cell by cell.
pub open spec fn spec_vertical(art: Seq<Seq<u8>>) -> Seq<Seq<bool>> {
    Seq::new(art.len(), |i: int| Seq::new(art[i].len(), |j: int| art[i][j] == LIT_BYTE))
}

/// The transposition of a rectangular boolean matrix whose rows have length
/// `len`.
pub open spec fn spec_transpose(data: Seq<Seq<bool>>, len: int) -> Seq<Seq<bool>> {
    Seq::new(len as nat, |i: int| Seq::new(data.len(), |j: int| data[j][i]))
}

/// The strip a horizontal billboard constructor produces: cell `(i, j)` of
/// the result is cell `(j, i)` of the art, decoded.
pub open spec fn spec_horizontal(art: Seq<Seq<u8>>, len: int) -> Seq<Seq<bool>> {
    Seq::new(len as nat, |i: int| Seq::new(art.len(), |j: int| art[j][i] == LIT_BYTE))
}

/// A horizontal billboard is exactly the transposition of the vertical
/// billboard built from the same art: the two orientations are geometric
/// duals of one another.
pub proof fn lemma_horizontal_is_transposed_vertical(art: Seq<Seq<u8>>, len: int)
    requires
        art_rectangular(art, len),
    ensures
        spec_horizontal(art, len) == spec_transpose(spec_vertical(art), len),
{
    let h = spec_horizontal(art, len);
    let t = spec_transpose(spec_vertical(art), len);
    assert forall|i: int, j: int| 0 <= i < len && 0 <= j < art.len() implies h[i][j] == t[i][j] by {
        assert(art[j].len() == len);
    }
    assert(h =~~= t);
}

/// Construct a vertical strip of pixel art.
///
/// Each input row becomes one strip row, with `#` decoded as lit and a
/// space as unlit.
pub fn vertical(billboard: &Vec<Vec<u8>>) -> (strip: Billboard)
    requires
        art_valid(billboard.deep_view()),
    ensures
        strip.deep_view() == spec_vertical(billboard.deep_view()),
{
    let ghost art = billboard.deep_view();
    let mut strip: Billboard = Vec::new();
    let mut i: usize = 0;
    while i < billboard.len()
        invariant
            art == billboard.deep_view(),
            art_valid(art),
            i <= billboard@.len(),
            strip@.len() == i,
            forall|k: int| 0 <= k < i ==> (#[trigger] strip@[k])@ == spec_vertical(art)[k],
        decreases billboard@.len() - i,
    {
        let row = &billboard[i];
        let mut decoded: Vec<bool> = Vec::new();
        let mut j: usize = 0;
        while j < row.len()
            invariant
                art == billboard.deep_view(),
                art_valid(art),
                i < billboard@.len(),
                row == billboard@[i as int],
                j <= row@.len(),
                decoded@.len() == j,
                forall|k: int| 0 <= k < j ==> decoded@[k] == (row@[k] == LIT_BYTE),
            decreases row@.len() - j,
        {
            proof {
                assert(art[i as int][j as int] == row@[j as int]);
            }
            let lit = row[j] == LIT_BYTE;
            decoded.push(lit);
            j = j + 1;
        }
        proof {
            lemma_deep_view_bytes(*billboard);
            assert(decoded@ =~= spec_vertical(art)[i as int]);
        }
        strip.push(decoded);
        i = i + 1;
    }
    proof {
        lemma_deep_view_bools(strip);
        assert(strip.deep_view() =~~= spec_vertical(art));
    }
    strip
}

/// Transpose a rectangular boolean matrix whose rows all have length `len`.
pub fn transpose(data: &Billboard, len: usize) -> (t: Billboard)
    requires
        forall|i: int| 0 <= i < data@.len() ==> (#[trigger] data@[i])@.len() == len,
    ensures
        t.deep_view() == spec_transpose(data.deep_view(), len as int),
{
    let mut t: Billboard = Vec::new();
    let mut i: usize = 0;
    while i < len
        invariant
            forall|k: int| 0 <= k < data@.len() ==> (#[trigger] data@[k])@.len() == len,
            i <= len,
            t@.len() == i,
            forall|k: int|
                0 <= k < i ==> (#[trigger] t@[k])@ == spec_transpose(
                    data.deep_view(),
                    len as int,
                )[k],
        decreases len - i,
    {
        let mut row: Vec<bool> = Vec::new();
        let mut j: usize = 0;
        while j < data.len()
            invariant
                forall|k: int| 0 <= k < data@.len() ==> (#[trigger] data@[k])@.len() == len,
                i < len,
                j <= data@.len(),
                row@.len() == j,
                forall|k: int| 0 <= k < j ==> row@[k] == data@[k]@[i as int],
            decreases data@.len() - j,
        {
            row.push(data[j][i]);
            j = j + 1;
        }
        proof {
            lemma_deep_view_bools(*data);
            assert(row@ =~= spec_transpose(data.deep_view(), len as int)[i as int]);
        }
        t.push(row);
        i = i + 1;
    }
    proof {
        lemma_deep_view_bools(t);
        assert(t.deep_view() =~~= spec_transpose(data.deep_view(), len as int));
    }
    t
}

/// Construct a horizontal strip of pixel art.
///
/// The input rows are the pixel rows of the art; the resulting strip holds
/// one entry per art column, which is what the horizontal frame renderer
/// scrolls over. All art rows must have the same length `len`, the length
/// of the resulting strip.
pub fn horizontal(billboard: &Vec<Vec<u8>>, len: usize) -> (strip: Billboard)
    requires
        art_valid(billboard.deep_view()),
        art_rectangular(billboard.deep_view(), len as int),
    ensures
        strip.deep_view() == spec_horizontal(billboard.deep_view(), len as int),
{
    let upright = vertical(billboard);
    proof {
        lemma_deep_view_bools(upright);
        lemma_deep_view_bytes(*billboard);
        assert forall|i: int| 0 <= i < upright@.len() implies (#[trigger] upright@[i])@.len()
            == len by {
            assert(upright.deep_view()[i] == spec_vertical(billboard.deep_view())[i]);
            assert(billboard.deep_view()[i].len() == len);
        }
        lemma_horizontal_is_transposed_vertical(billboard.deep_view(), len as int);
    }
    transpose(&upright, len)
}

} // verus!
