use vstd::prelude::*;
use crate::grid::Grid;

verus! {

/// Side of the square bitmap cell given to each glyph, in pixels.
pub const CELL_SIZE: u32 = 5;

/// A bitmap of transparent and opaque pixels, row-major, on which rasterized
/// glyphs are stamped.
pub struct Canvas {
    width: u32,
    height: u32,
    opaque: Vec<bool>,
}

impl View for Canvas {
    type V = Seq<bool>;

    closed spec fn view(&self) -> Seq<bool> {
        self.opaque@
    }
}

/// The vertical offset, in pixels, of the glyph row with index `row`.
pub open spec fn row_offset_spec(row: int) -> int {
    row * CELL_SIZE as int
}

/// Returns the vertical offset, in pixels, of the glyph row with index `row`.
pub fn row_offset(row: u32) -> (r: u64)
    ensures
        r == row_offset_spec(row as int),
{
    assert(row as int * CELL_SIZE as int <= u32::MAX as int * 5);
    row as u64 * CELL_SIZE as u64
}

/// The RGBA value of one channel of a pixel: white and opaque, or fully
/// transparent.
pub open spec fn channel_of(opaque: bool) -> u8 {
    if opaque { 255 } else { 0 }
}

impl Canvas {
    /// Width in pixels.
    pub closed spec fn cols(&self) -> nat {
        self.width as nat
    }

    /// Height in pixels.
    pub closed spec fn rows(&self) -> nat {
        self.height as nat
    }

    /// One flag per pixel.
    pub open spec fn wf(&self) -> bool {
        self@.len() == self.cols() * self.rows()
    }

    /// Returns the width in pixels.
    pub fn width(&self) -> (r: u32)
        ensures
            r == self.cols(),
    {
        self.width
    }

    /// Returns the height in pixels.
    pub fn height(&self) -> (r: u32)
        ensures
            r == self.rows(),
    {
        self.height
    }

    /// A fully transparent canvas with one `CELL_SIZE` square per grid cell;
    /// `None` when the bitmap's dimensions or pixel count do not fit the
    /// machine's integers.
    pub fn for_grid(g: &Grid) -> (r: Option<Canvas>)
        ensures
            r.is_some() <==> (g.columns() * CELL_SIZE <= u32::MAX && g@.len() * CELL_SIZE
                <= u32::MAX && (g.columns() * CELL_SIZE) * (g@.len() * CELL_SIZE) <= usize::MAX),
            r matches Some(c) ==> c.wf() && c.cols() == g.columns() * CELL_SIZE && c.rows()
                == g@.len() * CELL_SIZE && forall|i: int| 0 <= i < c@.len() ==> !#[trigger] c@[i],
    {
        let gw = g.width();
        let gh = g.height();
        if gw > (u32::MAX / CELL_SIZE) as usize || gh > (u32::MAX / CELL_SIZE) as usize {
            return None;
        }
        let w: u32 = gw as u32 * CELL_SIZE;
        let h: u32 = gh as u32 * CELL_SIZE;
        assert(w as int * h as int <= u32::MAX as int * u32::MAX as int) by (nonlinear_arith)
            requires
                w <= u32::MAX,
                h <= u32::MAX,
        ;
        let total: u64 = w as u64 * h as u64;
        if total > usize::MAX as u64 {
            return None;
        }
        let n: usize = total as usize;
        let mut opaque: Vec<bool> = Vec::new();
        let mut i: usize = 0;
        while i < n
            invariant
                i <= n,
                opaque@.len() == i,
                forall|k: int| 0 <= k < i ==> !#[trigger] opaque@[k],
            decreases n - i,
        {
            opaque.push(false);
            i += 1;
        }
        Some(Canvas { width: w, height: h, opaque })
    }

    /// Marks the pixel at column `x`, row `y` opaque; coordinates outside the
    /// bitmap are ignored.
    pub fn stamp(&mut self, x: i64, y: i64)
        requires
            old(self).wf(),
        ensures
            final(self).wf(),
            final(self).cols() == old(self).cols(),
            final(self).rows() == old(self).rows(),
            if 0 <= x < old(self).cols() && 0 <= y < old(self).rows() {
                final(self)@ == old(self)@.update(y * old(self).cols() + x, true)
            } else {
                final(self)@ == old(self)@
            },
    {
        let n = self.opaque.len();
        if 0 <= x && x < self.width as i64 && 0 <= y && y < self.height as i64 {
            assert((y as int * self.width as int + x as int) < self.width as int * self.height as int)
                by (nonlinear_arith)
                requires
                    0 <= x < self.width,
                    0 <= y < self.height,
            ;
            let idx: usize = y as usize * self.width as usize + x as usize;
            self.opaque.set(idx, true);
        }
    }

    /// The bitmap as RGBA bytes, four per pixel: white and opaque where a
    /// glyph was stamped, transparent elsewhere.
    pub fn to_rgba(&self) -> (r: Vec<u8>)
        requires
            self.wf(),
        ensures
            r@.len() == 4 * self@.len(),
            forall|p: int| 0 <= p < r@.len() ==> #[trigger] r@[p] == channel_of(self@[p / 4]),
    {
        let n = self.opaque.len();
        let mut out: Vec<u8> = Vec::new();
        let mut i: usize = 0;
        while i < n
            invariant
                n == self@.len(),
                i <= n,
                out@.len() == 4 * i,
                forall|p: int| 0 <= p < out@.len() ==> #[trigger] out@[p] == channel_of(self@[p / 4]),
            decreases n - i,
        {
            let v: u8 = if self.opaque[i] { 255 } else { 0 };
            out.push(v);
            out.push(v);
            out.push(v);
            out.push(v);
            i += 1;
        }
        out
    }
}

} // verus!
