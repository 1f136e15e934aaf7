use vstd::prelude::*;
use crate::glyph::{GlyphLevel, pixel_to_asci, quantize_spec};
use crate::raster::{LumaImage, target_spec, thumbnail_of};

verus! {

/// A row-major grid of glyph levels, one per pixel of the image it was
/// assembled from.
pub struct Grid {
    width: usize,
    rows: Vec<Vec<GlyphLevel>>,
}

impl View for Grid {
    type V = Seq<Seq<GlyphLevel>>;

    closed spec fn view(&self) -> Seq<Seq<GlyphLevel>> {
        self.rows@.map_values(|r: Vec<GlyphLevel>| r@)
    }
}

/// The bytes of one rendered row: each cell's character, left to right.
pub open spec fn row_bytes(row: Seq<GlyphLevel>) -> Seq<u8> {
    row.map_values(|g: GlyphLevel| g.byte_of())
}

/// The rows of a grid, top to bottom, each row's bytes followed by `end`.
pub open spec fn lines_bytes(rows: Seq<Seq<GlyphLevel>>, end: Seq<u8>) -> Seq<u8>
    decreases rows.len(),
{
    if rows.len() == 0 {
        seq![]
    } else {
        lines_bytes(rows.drop_last(), end) + row_bytes(rows.last()) + end
    }
}

/// The bytes that end one row: a line feed, and for the terminal a second
/// one that leaves a blank line after the row.
pub open spec fn line_end(blank_line: bool) -> Seq<u8> {
    if blank_line { seq![10u8, 10u8] } else { seq![10u8] }
}

/// The text file form of a grid: each row followed by a line feed.
pub open spec fn grid_bytes(rows: Seq<Seq<GlyphLevel>>) -> Seq<u8> {
    lines_bytes(rows, line_end(false))
}

/// The terminal form of a grid: each row followed by a line feed and a
/// blank line.
pub open spec fn terminal_bytes_spec(rows: Seq<Seq<GlyphLevel>>) -> Seq<u8> {
    lines_bytes(rows, line_end(true))
}

impl Grid {
    /// The number of columns.
    pub closed spec fn columns(&self) -> nat {
        self.width as nat
    }

    /// Every row has `columns()` cells.
    pub open spec fn wf(&self) -> bool {
        forall|i: int| 0 <= i < self@.len() ==> (#[trigger] self@[i]).len() == self.columns()
    }

    /// Returns the number of columns.
    pub fn width(&self) -> (r: usize)
        ensures
            r == self.columns(),
    {
        self.width
    }

    /// Returns the number of rows.
    pub fn height(&self) -> (r: usize)
        ensures
            r == self@.len(),
    {
        self.rows.len()
    }

    /// Returns the level at `row`, `col`.
    pub fn get(&self, row: usize, col: usize) -> (g: GlyphLevel)
        requires
            self.wf(),
            row < self@.len(),
            col < self.columns(),
        ensures
            g == self@[row as int][col as int],
    {
        self.rows[row][col]
    }

    /// Quantizes every pixel of `img` into the cell at the same row and column.
    pub fn assemble(img: &LumaImage) -> (g: Grid)
        requires
            img.wf(),
        ensures
            g.wf(),
            g@.len() == img.height,
            g.columns() == img.width,
            forall|y: int, x: int|
                0 <= y < img.height && 0 <= x < img.width ==> #[trigger] g@[y][x] == quantize_spec(
                    img.sample(x, y),
                ),
    {
        let w = img.width;
        let h = img.height;
        let n = img.pixels.len();
        let mut rows: Vec<Vec<GlyphLevel>> = Vec::new();
        let mut y: u32 = 0;
        while y < h
            invariant
                img.wf(),
                n == img.pixels@.len(),
                w == img.width,
                h == img.height,
                y <= h,
                rows@.len() == y,
                forall|i: int| 0 <= i < y ==> (#[trigger] rows@[i])@.len() == w,
                forall|i: int, x: int|
                    0 <= i < y && 0 <= x < w ==> #[trigger] rows@[i]@[x] == quantize_spec(
                        img.sample(x, i),
                    ),
            decreases h - y,
        {
            let mut row: Vec<GlyphLevel> = Vec::new();
            let mut x: u32 = 0;
            while x < w
                invariant
                    img.wf(),
                    n == img.pixels@.len(),
                    w == img.width,
                    h == img.height,
                    y < h,
                    x <= w,
                    row@.len() == x,
                    forall|j: int| 0 <= j < x ==> #[trigger] row@[j] == quantize_spec(
                        img.sample(j, y as int),
                    ),
                decreases w - x,
            {
                assert((y as int * w as int + x as int) < w as int * h as int) by (nonlinear_arith)
                    requires
                        x < w,
                        y < h,
                ;
                let idx: usize = y as usize * w as usize + x as usize;
                row.push(pixel_to_asci(img.pixels[idx]));
                x += 1;
            }
            rows.push(row);
            y += 1;
        }
        let g = Grid { width: w as usize, rows };
        assert forall|y: int, x: int|
            0 <= y < img.height && 0 <= x < img.width implies #[trigger] g@[y][x] == quantize_spec(
                img.sample(x, y),
            ) by {
            assert(g@[y] == rows@[y]@);
        }
        assert forall|i: int| 0 <= i < g@.len() implies (#[trigger] g@[i]).len() == g.columns() by {
            assert(g@[i] == rows@[i]@);
        }
        g
    }

    /// Resizes `img` to its display size and quantizes every pixel of the
    /// result.
    pub fn from_image(img: &LumaImage) -> (g: Grid)
        requires
            img.wf(),
        ensures
            ({
                let (w, h) = target_spec(img.width, img.height);
                let small = thumbnail_of(img.pixels@, img.width, img.height, w, h);
                &&& g.wf()
                &&& g@.len() == h
                &&& g.columns() == w
                &&& forall|y: int, x: int|
                    0 <= y < h && 0 <= x < w ==> #[trigger] g@[y][x] == quantize_spec(
                        small[y * w + x],
                    )
            }),
    {
        let small = img.resize_for_display();
        Grid::assemble(&small)
    }

    /// Returns the characters of one row, left to right.
    pub fn row_chars(&self, row: usize) -> (r: Vec<char>)
        requires
            row < self@.len(),
        ensures
            r@ == self@[row as int].map_values(|g: GlyphLevel| g.char_of()),
    {
        let cells = &self.rows[row];
        let mut out: Vec<char> = Vec::new();
        let mut j: usize = 0;
        while j < cells.len()
            invariant
                cells@ == self@[row as int],
                j <= cells@.len(),
                out@ == cells@.take(j as int).map_values(|g: GlyphLevel| g.char_of()),
            decreases cells@.len() - j,
        {
            out.push(cells[j].symbol());
            assert(cells@.take(j + 1) == cells@.take(j as int).push(cells@[j as int]));
            j += 1;
        }
        assert(cells@.take(j as int) == cells@);
        out
    }

    /// Renders the grid as text: each row's characters followed by a line feed.
    pub fn text_bytes(&self) -> (r: Vec<u8>)
        ensures
            r@ == grid_bytes(self@),
            self.wf() ==> r@.len() == self@.len() * (self.columns() + 1),
    {
        let r = self.render_lines(false);
        proof {
            if self.wf() {
                lemma_text_length(self@, self.columns());
            }
        }
        r
    }

    /// Renders the grid for a terminal: each row's characters followed by a
    /// line feed and a blank line.
    pub fn terminal_bytes(&self) -> (r: Vec<u8>)
        ensures
            r@ == terminal_bytes_spec(self@),
    {
        self.render_lines(true)
    }

    /// Renders every row followed by `line_end(blank_line)`.
    fn render_lines(&self, blank_line: bool) -> (r: Vec<u8>)
        ensures
            r@ == lines_bytes(self@, line_end(blank_line)),
    {
        let ghost end = line_end(blank_line);
        let mut out: Vec<u8> = Vec::new();
        let mut i: usize = 0;
        while i < self.rows.len()
            invariant
                i <= self@.len(),
                self@.len() == self.rows@.len(),
                end == line_end(blank_line),
                out@ == lines_bytes(self@.take(i as int), end),
            decreases self.rows@.len() - i,
        {
            let cells = &self.rows[i];
            assert(cells@ == self@[i as int]);
            let mut j: usize = 0;
            while j < cells.len()
                invariant
                    j <= cells@.len(),
                    out@ == lines_bytes(self@.take(i as int), end) + row_bytes(cells@.take(j as int)),
                decreases cells@.len() - j,
            {
                out.push(cells[j].symbol_byte());
                assert(cells@.take(j + 1) == cells@.take(j as int).push(cells@[j as int]));
                assert(row_bytes(cells@.take(j + 1)) == row_bytes(cells@.take(j as int)).push(
                    cells@[j as int].byte_of(),
                ));
                j += 1;
            }
            assert(cells@.take(j as int) == cells@);
            out.push(10u8);
            if blank_line {
                out.push(10u8);
            }
            assert(out@ == lines_bytes(self@.take(i as int), end) + row_bytes(cells@) + end);
            let ghost next = self@.take(i + 1);
            assert(next.drop_last() == self@.take(i as int));
            assert(next.last() == cells@);
            i += 1;
        }
        assert(self@.take(i as int) == self@);
        out
    }
}

/// Rendered text holds one line per row: each row of `width` cells takes
/// `width + 1` bytes.
pub proof fn lemma_text_length(rows: Seq<Seq<GlyphLevel>>, width: nat)
    requires
        forall|i: int| 0 <= i < rows.len() ==> (#[trigger] rows[i]).len() == width,
    ensures
        grid_bytes(rows).len() == rows.len() * (width + 1),
    decreases rows.len(),
{
    if rows.len() > 0 {
        let front = rows.drop_last();
        assert forall|i: int| 0 <= i < front.len() implies (#[trigger] front[i]).len() == width by {
            assert(front[i] == rows[i]);
        }
        lemma_text_length(front, width);
        assert(rows.last().len() == width);
        assert((rows.len() - 1) * (width + 1) + width + 1 == rows.len() * (width + 1))
            by (nonlinear_arith);
    }
}

/// Rendering depends on the grid alone: two grids with the same cells give
/// byte-identical text, for the file and for the terminal.
pub proof fn lemma_render_deterministic(a: Grid, b: Grid)
    requires
        a@ == b@,
    ensures
        grid_bytes(a@) == grid_bytes(b@),
        terminal_bytes_spec(a@) == terminal_bytes_spec(b@),
{
}

} // verus!
