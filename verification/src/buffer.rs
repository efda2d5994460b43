//! The 8x8 grid of RGB values representing the current LED state.
//!
//! A [`ColorBuffer`] is written by the drawing operations and read by a
//! display backend. It is addressed by `(x, y)` coordinates with `y = 0` at
//! the bottom row. The cells are kept row-major in storage order: the
//! hardware LEDs are wired top-down, so logical row `y` lives at storage row
//! `HEIGHT - 1 - y`.

use vstd::prelude::*;

use crate::color;

verus! {

/// The authoritative 8x8 grid of RGB triples.
///
/// Always fully populated; freshly constructed buffers are all black.
pub struct ColorBuffer {
    cells: Vec<(u8, u8, u8)>,
}

impl View for ColorBuffer {
    type V = Seq<(u8, u8, u8)>;

    closed spec fn view(&self) -> Seq<(u8, u8, u8)> {
        self.cells@
    }
}

impl ColorBuffer {
    /// The storage position of the logical coordinate `(x, y)`.
    pub open spec fn storage_index(x: int, y: int) -> int {
        (7 - y) * 8 + x
    }

    /// The color currently stored for the logical coordinate `(x, y)`.
    pub open spec fn color_at(self, x: int, y: int) -> (u8, u8, u8) {
        self@[Self::storage_index(x, y)]
    }

    /// The buffer holds exactly one cell per LED.
    pub open spec fn wf(self) -> bool {
        self@.len() == 64
    }

    /// Create a buffer with every LED turned off.
    pub fn new() -> (buffer: Self)
        ensures
            buffer.wf(),
            forall|x: int, y: int|
                0 <= x < 8 && 0 <= y < 8 ==> buffer.color_at(x, y) == color::BLACK,
    {
        let mut cells: Vec<(u8, u8, u8)> = Vec::new();
        let mut i: usize = 0;
        while i < 64
            invariant
                i <= 64,
                cells@.len() == i,
                forall|j: int| 0 <= j < i ==> cells@[j] == color::BLACK,
            decreases 64 - i,
        {
            cells.push((0, 0, 0));
            i = i + 1;
        }
        ColorBuffer { cells }
    }

    /// Read the color of the LED at `(x, y)`.
    pub fn get(&self, x: usize, y: usize) -> (c: (u8, u8, u8))
        requires
            self.wf(),
            x < 8,
            y < 8,
        ensures
            c == self.color_at(x as int, y as int),
    {
        self.cells[(7 - y) * 8 + x]
    }

    /// Set the LED at `(x, y)` to `c`, leaving every other LED unchanged.
    pub fn set(&mut self, x: usize, y: usize, c: (u8, u8, u8))
        requires
            old(self).wf(),
            x < 8,
            y < 8,
        ensures
            final(self).wf(),
            final(self)@ == old(self)@.update(Self::storage_index(x as int, y as int), c),
            final(self).color_at(x as int, y as int) == c,
            forall|xo: int, yo: int|
                0 <= xo < 8 && 0 <= yo < 8 && !(xo == x && yo == y)
                    ==> final(self).color_at(xo, yo) == old(self).color_at(xo, yo),
    {
        self.cells[(7 - y) * 8 + x] = c;
    }

    /// Set every LED to the single color `c`.
    pub fn fill(&mut self, c: (u8, u8, u8))
        requires
            old(self).wf(),
        ensures
            final(self).wf(),
            forall|x: int, y: int| 0 <= x < 8 && 0 <= y < 8 ==> final(self).color_at(x, y) == c,
    {
        let mut x: usize = 0;
        while x < 8
            invariant
                x <= 8,
                self.wf(),
                forall|xi: int, yi: int|
                    0 <= xi < x && 0 <= yi < 8 ==> self.color_at(xi, yi) == c,
            decreases 8 - x,
        {
            let mut y: usize = 0;
            while y < 8
                invariant
                    x < 8,
                    y <= 8,
                    self.wf(),
                    forall|xi: int, yi: int|
                        0 <= xi < x && 0 <= yi < 8 ==> self.color_at(xi, yi) == c,
                    forall|yi: int| 0 <= yi < y ==> self.color_at(x as int, yi) == c,
                decreases 8 - y,
            {
                self.set(x, y, c);
                y = y + 1;
            }
            x = x + 1;
        }
    }

    /// Turn off all LEDs.
    pub fn clear(&mut self)
        requires
            old(self).wf(),
        ensures
            final(self).wf(),
            forall|x: int, y: int|
                0 <= x < 8 && 0 <= y < 8 ==> final(self).color_at(x, y) == color::BLACK,
    {
        self.fill((0, 0, 0));
    }

    /// Set a list of LEDs, given by their coordinates, to the single color
    /// `c`. Every coordinate must be on the display.
    pub fn draw_coordinates(&mut self, coords: &Vec<(usize, usize)>, c: (u8, u8, u8))
        requires
            old(self).wf(),
            forall|i: int|
                0 <= i < coords@.len() ==> coords@[i].0 < 8 && coords@[i].1 < 8,
        ensures
            final(self).wf(),
            forall|x: int, y: int|
                0 <= x < 8 && 0 <= y < 8 ==> final(self).color_at(x, y) == (
                if coords@.contains((x as usize, y as usize)) {
                    c
                } else {
                    old(self).color_at(x, y)
                }),
    {
        let mut i: usize = 0;
        while i < coords.len()
            invariant
                i <= coords@.len(),
                self.wf(),
                forall|k: int|
                    0 <= k < coords@.len() ==> coords@[k].0 < 8 && coords@[k].1 < 8,
                forall|x: int, y: int|
                    0 <= x < 8 && 0 <= y < 8 ==> self.color_at(x, y) == (
                    if coords@.subrange(0, i as int).contains((x as usize, y as usize)) {
                        c
                    } else {
                        old(self).color_at(x, y)
                    }),
            decreases coords@.len() - i,
        {
            let (x, y) = coords[i];
            self.set(x, y, c);
            proof {
                let pre = coords@.subrange(0, i as int);
                let cur = coords@.subrange(0, i + 1);
                assert forall|p: (usize, usize)| #[trigger]
                    cur.contains(p) <==> (pre.contains(p) || p == (x, y)) by {
                    if pre.contains(p) {
                        let w = choose|w: int| 0 <= w < pre.len() && pre[w] == p;
                        assert(cur[w] == p);
                    }
                    if p == (x, y) {
                        assert(cur[i as int] == p);
                    }
                    if cur.contains(p) {
                        let w = choose|w: int| 0 <= w < cur.len() && cur[w] == p;
                        if w < i {
                            assert(pre[w] == p);
                        }
                    }
                }
            }
            i = i + 1;
        }
        proof {
            assert(coords@.subrange(0, coords@.len() as int) =~= coords@);
        }
    }
}

} // verus!
