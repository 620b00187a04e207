//! The page-addressed frame buffer: an off-screen byte grid of `PAGE`
//! rows by `WIDTH` columns, where each byte is a vertical strip of
//! `COLUMN_SIZE` pixels (bit 0 topmost).

use vstd::prelude::*;

use vstd::arithmetic::div_mod::{lemma_fundamental_div_mod, lemma_fundamental_div_mod_converse};

use crate::font::{Font, Glyph, LookupError};
use crate::text::Buffer;
use crate::{HEIGHT, PAGE, WIDTH};

verus! {

/// The off-screen pixel memory: `PAGE * WIDTH` bytes, laid out page by
/// page. The byte for page `p`, column `x` sits at index `p * WIDTH + x`.
pub struct FrameBuffer {
    data: Vec<u8>,
}

/// The byte of grid `s` at page `p`, column `c`.
pub open spec fn cell(s: Seq<u8>, p: int, c: int) -> u8 {
    s[p * WIDTH + c]
}

/// Grid contents after a single pixel write: within bounds, the bit
/// `y % 8` of the byte at page `y / 8`, column `x` is set or cleared;
/// out of bounds, the grid is unchanged.
pub open spec fn spec_set_pixel(s: Seq<u8>, x: u8, y: u8, on: bool) -> Seq<u8> {
    if x < WIDTH && y < HEIGHT {
        let idx = (y as int / 8) * WIDTH + x as int;
        let mask = 1u8 << (y as u8 % 8);
        let b = if on {
            s[idx] | mask
        } else {
            s[idx] & !mask
        };
        s.update(idx, b)
    } else {
        s
    }
}

impl FrameBuffer {
    /// The grid holds exactly one byte per page and column.
    pub closed spec fn wf(&self) -> bool {
        self.data@.len() == PAGE * WIDTH
    }

    pub closed spec fn view(&self) -> Seq<u8> {
        self.data@
    }

    /// Well-formedness, stated on the view for callers: the grid holds
    /// exactly one byte per page and column.
    pub broadcast proof fn lemma_wf_len(&self)
        requires
            #[trigger] self.wf(),
        ensures
            self@.len() == PAGE * WIDTH,
    {
    }

    /// A zeroed buffer.
    pub fn new() -> (r: FrameBuffer)
        ensures
            r.wf(),
            r@ == zero_grid(),
    {
        let mut data: Vec<u8> = Vec::new();
        while data.len() < PAGE * WIDTH
            invariant
                data@ =~= Seq::new(data@.len(), |i: int| 0u8),
                data@.len() <= PAGE * WIDTH,
            decreases PAGE * WIDTH - data@.len(),
        {
            data.push(0u8);
        }
        assert(data@ =~= Seq::new((PAGE * WIDTH) as nat, |i: int| 0u8));
        FrameBuffer { data }
    }

    /// Sets (`on == true`) or clears one pixel. Coordinates at or past
    /// the display edge are silently dropped, as the hardware clips.
    pub fn setpixel(&mut self, x: u8, y: u8, on: bool)
        requires
            old(self).wf(),
        ensures
            final(self).wf(),
            final(self)@ == spec_set_pixel(old(self)@, x, y, on),
            (x >= WIDTH || y >= HEIGHT) ==> final(self)@ == old(self)@,
    {
        if (x as usize) < WIDTH && (y as usize) < HEIGHT {
            let page = (y / 8) as usize;
            let off = y % 8;
            let idx = page * WIDTH + x as usize;
            let b = self.data[idx];
            let nb = if on {
                b | (1u8 << off)
            } else {
                b & !(1u8 << off)
            };
            self.data.set(idx, nb);
        }
    }

    /// Resets every byte to zero, starting a fresh frame.
    pub fn newframe(&mut self)
        requires
            old(self).wf(),
        ensures
            final(self).wf(),
            final(self)@ == zero_grid(),
    {
        let mut i: usize = 0;
        while i < self.data.len()
            invariant
                self.wf(),
                i <= self.data@.len(),
                forall|k: int| 0 <= k < i ==> self.data@[k] == 0u8,
            decreases self.data@.len() - i,
        {
            self.data.set(i, 0u8);
            i = i + 1;
        }
        assert(self@ =~= Seq::new((PAGE * WIDTH) as nat, |i: int| 0u8));
    }

    /// Read-only access to the whole grid, page by page, for the
    /// transport step. Never mutates.
    pub fn snapshot(&self) -> (r: &Vec<u8>)
        requires
            self.wf(),
        ensures
            r@ == self@,
            r@.len() == PAGE * WIDTH,
    {
        &self.data
    }
}

/// The two halves of a glyph byte when its 8 pixel rows straddle a page
/// boundary at offset `off`: the low `8 - off` pixel rows land in the
/// upper bits of the first page's byte.
pub open spec fn split_low(b: u8, off: u8) -> u8 {
    b << off
}

/// The high `off` pixel rows of the glyph byte land in the low bits of
/// the following page's byte.
pub open spec fn split_high(b: u8, off: u8) -> u8 {
    let sh = (8 - off) as u8;
    b >> sh
}

/// The inverse of the split: reassembles a glyph byte from the two
/// destination bytes it was distributed over.
pub open spec fn recombine(lo: u8, hi: u8, off: u8) -> u8 {
    let sh = (8 - off) as u8;
    (lo >> off) | (hi << sh)
}

/// One destination write of the blit: stores `v` at page `p`, column
/// `c` when that cell exists, and is dropped (hardware clipping)
/// otherwise.
pub open spec fn write_cell(s: Seq<u8>, p: int, c: int, v: u8) -> Seq<u8> {
    if 0 <= p < PAGE && 0 <= c < WIDTH {
        s.update(p * WIDTH + c, v)
    } else {
        s
    }
}

/// Whether the write for glyph cell (`i`, `j`) has been performed once
/// the row-major blit stands at row `i0`, column `j0`.
pub open spec fn written(i: int, j: int, i0: int, j0: int) -> bool {
    i < i0 || (i == i0 && j < j0)
}

/// The byte at flat index `n` of the grid, after the blit of glyph `g`
/// (`rows x cols` bytes, destination column `x`, destination page
/// `page`, bit offset `off`) has performed the writes up to row `i0`,
/// column `j0`.
///
/// When `off == 0` each glyph byte replaces one whole destination byte.
/// Otherwise the byte's pixel rows straddle two pages: the write for
/// cell (`i`, `j`) stores `split_low` at page `page + i` and
/// `split_high` at page `page + i + 1`, each as a plain overwrite, so
/// the later write for cell (`i + 1`, `j`) replaces the spill that cell
/// (`i`, `j`) left on their shared page.
pub open spec fn blit_byte_part(
    s: Seq<u8>,
    g: Seq<u8>,
    rows: int,
    cols: int,
    x: int,
    page: int,
    off: u8,
    i0: int,
    j0: int,
    n: int,
) -> u8 {
    let p = n / WIDTH as int;
    let c = n % WIDTH as int;
    let j = c - x;
    let i = p - page;
    if 0 <= j < cols {
        if off == 0 {
            if 0 <= i < rows && written(i, j, i0, j0) {
                g[i * cols + j]
            } else {
                s[n]
            }
        } else {
            if 0 <= i < rows && written(i, j, i0, j0) {
                split_low(g[i * cols + j], off)
            } else if 1 <= i <= rows && written(i - 1, j, i0, j0) {
                split_high(g[(i - 1) * cols + j], off)
            } else {
                s[n]
            }
        }
    } else {
        s[n]
    }
}

/// The grid after the blit's first writes, up to row `i0`, column `j0`.
pub open spec fn glyph_blit_part(
    s: Seq<u8>,
    g: Seq<u8>,
    rows: int,
    cols: int,
    x: int,
    page: int,
    off: u8,
    i0: int,
    j0: int,
) -> Seq<u8> {
    Seq::new(s.len(), |n: int| blit_byte_part(s, g, rows, cols, x, page, off, i0, j0, n))
}

/// The grid after the whole glyph has been blitted.
pub open spec fn glyph_blit(
    s: Seq<u8>,
    g: Seq<u8>,
    rows: int,
    cols: int,
    x: int,
    page: int,
    off: u8,
) -> Seq<u8> {
    glyph_blit_part(s, g, rows, cols, x, page, off, rows, 0)
}

/// A flat grid index determines its page and column uniquely.
proof fn lemma_flat_unique(p1: int, c1: int, p2: int, c2: int)
    requires
        0 <= c1 < WIDTH,
        0 <= c2 < WIDTH,
    ensures
        (p1 * WIDTH + c1 == p2 * WIDTH + c2) <==> (p1 == p2 && c1 == c2),
{
    assert((p1 * 128 + c1 == p2 * 128 + c2) <==> (p1 == p2 && c1 == c2)) by (nonlinear_arith)
        requires
            0 <= c1 < 128,
            0 <= c2 < 128,
    ;
}

/// Page and column of a flat grid index.
proof fn lemma_flat_decompose(n: int)
    requires
        0 <= n < PAGE * WIDTH,
    ensures
        n == (n / (WIDTH as int)) * WIDTH + n % (WIDTH as int),
        0 <= n % (WIDTH as int) < WIDTH,
        0 <= n / (WIDTH as int) < PAGE,
{
    lemma_fundamental_div_mod(n, WIDTH as int);
    assert(0 <= n % 128 < 128 && 0 <= n / 128 < 8) by (nonlinear_arith)
        requires
            0 <= n < 1024,
            n == 128 * (n / 128) + n % 128,
    ;
}

/// Before any write, the partial blit is the untouched grid.
proof fn lemma_blit_start(s: Seq<u8>, g: Seq<u8>, rows: int, cols: int, x: int, page: int, off: u8)
    ensures
        glyph_blit_part(s, g, rows, cols, x, page, off, 0, 0) == s,
{
    assert(glyph_blit_part(s, g, rows, cols, x, page, off, 0, 0) =~= s);
}

/// Finishing one glyph row is the same as standing at the start of the
/// next.
proof fn lemma_blit_row_end(
    s: Seq<u8>,
    g: Seq<u8>,
    rows: int,
    cols: int,
    x: int,
    page: int,
    off: u8,
    i0: int,
)
    ensures
        glyph_blit_part(s, g, rows, cols, x, page, off, i0, cols) == glyph_blit_part(
            s,
            g,
            rows,
            cols,
            x,
            page,
            off,
            i0 + 1,
            0,
        ),
{
    assert(glyph_blit_part(s, g, rows, cols, x, page, off, i0, cols) =~= glyph_blit_part(
        s,
        g,
        rows,
        cols,
        x,
        page,
        off,
        i0 + 1,
        0,
    ));
}

/// One step of the blit: performing the write(s) for glyph cell
/// (`i0`, `j0`) advances the partial blit by one column.
proof fn lemma_blit_step(
    s: Seq<u8>,
    g: Seq<u8>,
    rows: int,
    cols: int,
    x: int,
    page: int,
    off: u8,
    i0: int,
    j0: int,
)
    requires
        s.len() == PAGE * WIDTH,
        1 <= rows,
        1 <= cols,
        0 <= i0 < rows,
        0 <= j0 < cols,
        0 <= x,
        0 <= page,
        off < 8,
        g.len() == rows * cols,
    ensures
        off == 0 ==> glyph_blit_part(s, g, rows, cols, x, page, off, i0, j0 + 1) == write_cell(
            glyph_blit_part(s, g, rows, cols, x, page, off, i0, j0),
            page + i0,
            x + j0,
            g[i0 * cols + j0],
        ),
        off != 0 ==> glyph_blit_part(s, g, rows, cols, x, page, off, i0, j0 + 1) == write_cell(
            write_cell(
                glyph_blit_part(s, g, rows, cols, x, page, off, i0, j0),
                page + i0,
                x + j0,
                split_low(g[i0 * cols + j0], off),
            ),
            page + i0 + 1,
            x + j0,
            split_high(g[i0 * cols + j0], off),
        ),
{
    assert(i0 * cols + j0 < rows * cols) by (nonlinear_arith)
        requires
            0 <= i0 < rows,
            0 <= j0 < cols,
    ;
    let prev = glyph_blit_part(s, g, rows, cols, x, page, off, i0, j0);
    let next = glyph_blit_part(s, g, rows, cols, x, page, off, i0, j0 + 1);
    let b = g[i0 * cols + j0];
    if off == 0 {
        let w = write_cell(prev, page + i0, x + j0, b);
        assert forall|n: int| 0 <= n < s.len() implies next[n] == w[n] by {
            lemma_flat_decompose(n);
            let p = n / WIDTH as int;
            let c = n % WIDTH as int;
            if x + j0 < WIDTH {
                lemma_flat_unique(p, c, page + i0, x + j0);
            }
        }
        assert(next =~= w);
    } else {
        let w = write_cell(
            write_cell(prev, page + i0, x + j0, split_low(b, off)),
            page + i0 + 1,
            x + j0,
            split_high(b, off),
        );
        assert forall|n: int| 0 <= n < s.len() implies next[n] == w[n] by {
            lemma_flat_decompose(n);
            let p = n / WIDTH as int;
            let c = n % WIDTH as int;
            if x + j0 < WIDTH {
                lemma_flat_unique(p, c, page + i0, x + j0);
                lemma_flat_unique(p, c, page + i0 + 1, x + j0);
            }
        }
        assert(next =~= w);
    }
}

impl FrameBuffer {
    /// Blits one glyph with its top-left pixel at column `x`, pixel row
    /// `y`. Each glyph byte lands whole when `y` is page-aligned and is
    /// split over two pages otherwise; every destination byte outside
    /// the grid is silently dropped.
    pub fn blit_glyph(&mut self, x: u8, y: u8, g: &Glyph)
        requires
            old(self).wf(),
            g.wf(),
        ensures
            final(self).wf(),
            final(self)@ == glyph_blit(
                old(self)@,
                g.data@,
                g.rows as int,
                g.cols as int,
                x as int,
                y as int / 8,
                y % 8,
            ),
    {
        let page = (y / 8) as usize;
        let off = y % 8;
        let ghost s0 = self@;
        proof {
            lemma_blit_start(s0, g.data@, g.rows as int, g.cols as int, x as int, page as int, off);
        }
        let mut i: usize = 0;
        while i < g.rows
            invariant
                self.wf(),
                g.wf(),
                i <= g.rows,
                page == y as int / 8,
                page <= 31,
                off == y % 8,
                off < 8,
                s0.len() == PAGE * WIDTH,
                self@ == glyph_blit_part(
                    s0,
                    g.data@,
                    g.rows as int,
                    g.cols as int,
                    x as int,
                    page as int,
                    off,
                    i as int,
                    0,
                ),
            decreases g.rows - i,
        {
            let mut j: usize = 0;
            while j < g.cols
                invariant
                    self.wf(),
                    g.wf(),
                    i < g.rows,
                    j <= g.cols,
                    page == y as int / 8,
                    page <= 31,
                    off == y % 8,
                    off < 8,
                    s0.len() == PAGE * WIDTH,
                    self@ == glyph_blit_part(
                        s0,
                        g.data@,
                        g.rows as int,
                        g.cols as int,
                        x as int,
                        page as int,
                        off,
                        i as int,
                        j as int,
                    ),
                decreases g.cols - j,
            {
                let dlen = g.data.len();
                proof {
                    assert(i * g.cols + j < g.rows * g.cols) by (nonlinear_arith)
                        requires
                            0 <= i < g.rows,
                            0 <= j < g.cols,
                    ;
                    assert(i * g.cols + j < dlen);
                }
                let byte = g.data[i * g.cols + j];
                let col = x as usize + j;
                let ghost prev = self@;
                if off == 0 {
                    if col < WIDTH && page + i < PAGE {
                        let idx = (page + i) * WIDTH + col;
                        self.data.set(idx, byte);
                    }
                    proof {
                        assert(self@ =~= write_cell(prev, page + i, col as int, byte));
                        lemma_blit_step(
                            s0,
                            g.data@,
                            g.rows as int,
                            g.cols as int,
                            x as int,
                            page as int,
                            off,
                            i as int,
                            j as int,
                        );
                    }
                } else {
                    let low = byte << off;
                    let high = byte >> (8 - off);
                    if col < WIDTH && page + i < PAGE {
                        let idx = (page + i) * WIDTH + col;
                        self.data.set(idx, low);
                    }
                    let ghost mid = self@;
                    if col < WIDTH && page + i + 1 < PAGE {
                        let idx2 = (page + i + 1) * WIDTH + col;
                        self.data.set(idx2, high);
                    }
                    proof {
                        assert(mid =~= write_cell(prev, page + i, col as int, split_low(byte, off)));
                        assert(self@ =~= write_cell(
                            mid,
                            page + i + 1,
                            col as int,
                            split_high(byte, off),
                        ));
                        lemma_blit_step(
                            s0,
                            g.data@,
                            g.rows as int,
                            g.cols as int,
                            x as int,
                            page as int,
                            off,
                            i as int,
                            j as int,
                        );
                    }
                }
                j = j + 1;
            }
            proof {
                lemma_blit_row_end(
                    s0,
                    g.data@,
                    g.rows as int,
                    g.cols as int,
                    x as int,
                    page as int,
                    off,
                    i as int,
                );
            }
            i = i + 1;
        }
    }
}

/// The grid after one character is drawn at column `x`, pixel row `y`:
/// its glyph blitted at page `y / 8` with bit offset `y % 8`.
pub open spec fn spec_print_char(s: Seq<u8>, font: Font, ch: char, x: int, y: int) -> Seq<u8> {
    glyph_blit(
        s,
        font.glyph_seq(ch),
        font.rows(),
        font.advance(ch) as int,
        x,
        y / 8,
        (y % 8) as u8,
    )
}

/// The grid after a text is drawn left to right from column `x`, pixel
/// row `y`: each character advances the column by its width; a column
/// at or past the right edge wraps to column 0 one font height lower;
/// the first unrepresentable character stops the drawing, leaving
/// everything before it rendered.
pub open spec fn spec_draw_text(
    s: Seq<u8>,
    font: Font,
    text: Seq<char>,
    col: int,
    row: int,
) -> Seq<u8>
    decreases text.len(),
{
    if text.len() == 0 {
        s
    } else if !font.representable(text[0]) {
        s
    } else {
        let s2 = spec_print_char(s, font, text[0], col, row);
        let col2 = col + font.advance(text[0]);
        if col2 >= WIDTH {
            spec_draw_text(s2, font, text.skip(1), 0, row + font.height)
        } else {
            spec_draw_text(s2, font, text.skip(1), col2, row)
        }
    }
}

/// Whether the font has a glyph for every character of the text.
pub open spec fn all_representable(font: Font, text: Seq<char>) -> bool {
    forall|k: int| 0 <= k < text.len() ==> font.representable(text[k])
}

/// An all-zero grid: what a fresh frame holds.
pub open spec fn zero_grid() -> Seq<u8> {
    Seq::new((PAGE * WIDTH) as nat, |i: int| 0u8)
}

/// The grid after a sequence of lines is drawn, each starting at column
/// `x`, the first at pixel row `y` and every further line one font
/// height lower.
pub open spec fn spec_draw_lines(
    s: Seq<u8>,
    font: Font,
    lines: Seq<Seq<char>>,
    x: int,
    y: int,
) -> Seq<u8>
    decreases lines.len(),
{
    if lines.len() == 0 {
        s
    } else {
        spec_draw_lines(
            spec_draw_text(s, font, lines[0], x, y),
            font,
            lines.skip(1),
            x,
            y + font.height,
        )
    }
}

/// A blit whose destination page lies below the last page of the grid
/// writes nothing: every destination byte is clipped.
proof fn lemma_blit_offscreen(
    s: Seq<u8>,
    g: Seq<u8>,
    rows: int,
    cols: int,
    x: int,
    page: int,
    off: u8,
)
    requires
        s.len() == PAGE * WIDTH,
        page >= PAGE,
        rows >= 0,
    ensures
        glyph_blit(s, g, rows, cols, x, page, off) == s,
{
    let r = glyph_blit(s, g, rows, cols, x, page, off);
    assert forall|n: int| 0 <= n < s.len() implies r[n] == s[n] by {
        lemma_flat_decompose(n);
    }
    assert(r =~= s);
}

/// A text drawn entirely below the bottom edge leaves the grid
/// untouched: every glyph of it is clipped whole.
proof fn lemma_draw_text_offscreen(s: Seq<u8>, font: Font, text: Seq<char>, col: int, row: int)
    requires
        s.len() == PAGE * WIDTH,
        row >= HEIGHT,
    ensures
        spec_draw_text(s, font, text, col, row) == s,
    decreases text.len(),
{
    if text.len() == 0 {
    } else if !font.representable(text[0]) {
    } else {
        assert(row / 8 >= 8) by (nonlinear_arith)
            requires
                row >= 64,
        ;
        lemma_blit_offscreen(
            s,
            font.glyph_seq(text[0]),
            font.rows(),
            font.advance(text[0]) as int,
            col,
            row / 8,
            (row % 8) as u8,
        );
        let col2 = col + font.advance(text[0]);
        if col2 >= WIDTH {
            lemma_draw_text_offscreen(s, font, text.skip(1), 0, row + font.height);
        } else {
            lemma_draw_text_offscreen(s, font, text.skip(1), col2, row);
        }
    }
}

impl FrameBuffer {
    /// Draws one character: looks up its glyph and blits it with its
    /// top-left pixel at column `x`, pixel row `y`. Returns the advance
    /// width and the font height for cursor movement; a failed lookup
    /// leaves the buffer unchanged.
    pub fn print_char(&mut self, x: u8, y: u8, font: &Font, ch: char) -> (r: Result<
        (u8, u8),
        LookupError,
    >)
        requires
            old(self).wf(),
            font.wf(),
        ensures
            final(self).wf(),
            match r {
                Ok(wh) => {
                    &&& font.representable(ch)
                    &&& wh.0 == font.advance(ch)
                    &&& wh.1 == font.height
                    &&& final(self)@ == spec_print_char(old(self)@, *font, ch, x as int, y as int)
                },
                Err(e) => {
                    &&& !font.representable(ch)
                    &&& final(self)@ == old(self)@
                    &&& e == LookupError::NotRepresentable
                },
            },
    {
        match font.get_char(ch) {
            Ok(g) => {
                self.blit_glyph(x, y, &g);
                match font.get_char_width(ch) {
                    Ok(w) => Ok((w, font.get_font_height())),
                    Err(e) => {
                        proof {
                            assert(false);
                        }
                        Err(e)
                    },
                }
            },
            Err(e) => Err(e),
        }
    }

    /// Draws a text left to right, advancing the column by each glyph's
    /// width and wrapping to column 0 one font height lower when the
    /// column reaches the right edge. Stops at the first character the
    /// font cannot represent and surfaces that failure, leaving the
    /// glyphs before it rendered.
    pub fn print_chars(&mut self, x: u8, y: u8, font: &Font, text: &Vec<char>) -> (r: Result<
        (),
        LookupError,
    >)
        requires
            old(self).wf(),
            font.wf(),
        ensures
            final(self).wf(),
            final(self)@ == spec_draw_text(old(self)@, *font, text@, x as int, y as int),
            match r {
                Ok(u) => all_representable(*font, text@),
                Err(e) => !all_representable(*font, text@) && e == LookupError::NotRepresentable,
            },
    {
        let ghost s0 = self@;
        let n = text.len();
        let mut col: usize = x as usize;
        let mut row: usize = y as usize;
        let ghost mut srow: int = y as int;
        let mut k: usize = 0;
        proof {
            assert(text@.skip(0) =~= text@);
        }
        while k < n
            invariant
                self.wf(),
                font.wf(),
                k <= n,
                n == text@.len(),
                s0 == old(self)@,
                col < WIDTH || (k == 0 && col == x as int),
                col <= 255,
                0 <= srow,
                row == srow || (srow > HEIGHT && row == HEIGHT),
                row <= 255,
                s0.len() == self@.len(),
                spec_draw_text(s0, *font, text@, x as int, y as int) == spec_draw_text(
                    self@,
                    *font,
                    text@.skip(k as int),
                    col as int,
                    srow,
                ),
                forall|t: int| 0 <= t < k ==> font.representable(text@[t]),
            decreases n - k,
        {
            let ch = text[k];
            let ghost before = self@;
            match self.print_char(col as u8, row as u8, font, ch) {
                Ok((w, h)) => {
                    proof {
                        assert(text@.skip(k as int)[0] == text@[k as int]);
                        assert(text@.skip(k as int).skip(1) =~= text@.skip(k as int + 1));
                        if srow >= HEIGHT {
                            lemma_blit_offscreen(
                                before,
                                font.glyph_seq(ch),
                                font.rows(),
                                font.advance(ch) as int,
                                col as int,
                                row as int / 8,
                                (row as int % 8) as u8,
                            );
                            lemma_blit_offscreen(
                                before,
                                font.glyph_seq(ch),
                                font.rows(),
                                font.advance(ch) as int,
                                col as int,
                                srow / 8,
                                (srow % 8) as u8,
                            );
                        }
                        assert(self@ == spec_print_char(before, *font, ch, col as int, srow));
                    }
                    col = col + w as usize;
                    if col >= WIDTH {
                        col = 0;
                        row = row + h as usize;
                        if row > HEIGHT {
                            row = HEIGHT;
                        }
                        proof {
                            srow = srow + h as int;
                        }
                    }
                },
                Err(e) => {
                    proof {
                        assert(text@.skip(k as int)[0] == text@[k as int]);
                        assert(!font.representable(text@[k as int]));
                        assert(spec_draw_text(self@, *font, text@.skip(k as int), col as int, srow)
                            == self@);
                    }
                    return Err(e);
                },
            }
            k = k + 1;
        }
        proof {
            assert(text@.skip(n as int) =~= Seq::<char>::empty());
        }
        Ok(())
    }

    /// Starts a fresh frame and renders the whole text buffer into it:
    /// the most recent line first, at column `x`, pixel row `y`, each
    /// further line one font height lower. Within a line an
    /// unrepresentable character stops that line, as `print_chars`
    /// does; the remaining lines still render.
    pub fn display_buffer(&mut self, buffer: &Buffer, x: u8, y: u8, font: &Font)
        requires
            old(self).wf(),
            font.wf(),
        ensures
            final(self).wf(),
            final(self)@ == spec_draw_lines(
                zero_grid(),
                *font,
                buffer.lines(),
                x as int,
                y as int,
            ),
    {
        self.newframe();
        let count = buffer.line_count();
        let h = font.get_font_height();
        let mut row: usize = y as usize;
        let ghost mut srow: int = y as int;
        let mut i: usize = 0;
        proof {
            assert(self@ == zero_grid());
            assert(buffer.lines().skip(0) =~= buffer.lines());
        }
        while i < count
            invariant
                self.wf(),
                font.wf(),
                i <= count,
                count == buffer.lines().len(),
                h == font.height,
                0 <= srow,
                row == srow || (srow > HEIGHT && row == HEIGHT),
                row <= 255,
                spec_draw_lines(zero_grid(), *font, buffer.lines(), x as int, y as int)
                    == spec_draw_lines(self@, *font, buffer.lines().skip(i as int), x as int, srow),
            decreases count - i,
        {
            let ghost before = self@;
            match buffer.get(i) {
                Some(line) => {
                    let _ = self.print_chars(x, row as u8, font, line);
                    proof {
                        assert(buffer.lines().skip(i as int)[0] == buffer.lines()[i as int]);
                        assert(buffer.lines().skip(i as int).skip(1) =~= buffer.lines().skip(
                            i as int + 1,
                        ));
                        if srow >= HEIGHT {
                            lemma_draw_text_offscreen(before, *font, line@, x as int, row as int);
                            lemma_draw_text_offscreen(before, *font, line@, x as int, srow);
                        }
                        assert(self@ == spec_draw_text(
                            before,
                            *font,
                            buffer.lines()[i as int],
                            x as int,
                            srow,
                        ));
                    }
                },
                None => {
                    proof {
                        assert(false);
                    }
                },
            }
            row = row + h as usize;
            if row > HEIGHT {
                row = HEIGHT;
            }
            proof {
                srow = srow + h as int;
            }
            i = i + 1;
        }
        proof {
            assert(buffer.lines().skip(count as int) =~= Seq::<Seq<char>>::empty());
        }
    }

    /// `print_chars` for a string slice: the same drawing, character by
    /// character.
    pub fn print_string(&mut self, x: u8, y: u8, font: &Font, s: &str) -> (r: Result<
        (),
        LookupError,
    >)
        requires
            old(self).wf(),
            font.wf(),
        ensures
            final(self).wf(),
            final(self)@ == spec_draw_text(old(self)@, *font, s@, x as int, y as int),
            match r {
                Ok(u) => all_representable(*font, s@),
                Err(e) => !all_representable(*font, s@) && e == LookupError::NotRepresentable,
            },
    {
        let chars = str_to_chars(s);
        self.print_chars(x, y, font, &chars)
    }
}

/// The characters of a string slice, in order, as a vector.
fn str_to_chars(s: &str) -> (r: Vec<char>)
    ensures
        r@ == s@,
{
    let n = s.unicode_len();
    let mut r: Vec<char> = Vec::new();
    let mut k: usize = 0;
    while k < n
        invariant
            k <= n,
            n == s@.len(),
            r@ =~= s@.subrange(0, k as int),
        decreases n - k,
    {
        r.push(s.get_char(k));
        k = k + 1;
    }
    assert(r@ =~= s@);
    r
}

/// An aligned blit (bit offset 0) writes exactly `rows` consecutive
/// whole bytes in each in-bounds column of the glyph, and touches no
/// byte outside that rectangle: the pages above and below it keep
/// their contents exactly.
pub proof fn lemma_blit_aligned(s: Seq<u8>, g: Seq<u8>, rows: int, cols: int, x: int, page: int)
    requires
        s.len() == PAGE * WIDTH,
        1 <= rows,
        1 <= cols,
        0 <= x,
        0 <= page,
        g.len() == rows * cols,
    ensures
        glyph_blit(s, g, rows, cols, x, page, 0).len() == s.len(),
        forall|p: int, c: int|
            0 <= p < PAGE && 0 <= c < WIDTH && page <= p < page + rows && x <= c < x + cols
                ==> cell(glyph_blit(s, g, rows, cols, x, page, 0), p, c) == g[(p - page) * cols + (c
                - x)],
        forall|p: int, c: int|
            0 <= p < PAGE && 0 <= c < WIDTH && !(page <= p < page + rows && x <= c < x + cols)
                ==> cell(glyph_blit(s, g, rows, cols, x, page, 0), p, c) == cell(s, p, c),
{
    let r = glyph_blit(s, g, rows, cols, x, page, 0);
    assert forall|p: int, c: int| 0 <= p < PAGE && 0 <= c < WIDTH implies {
        &&& (page <= p < page + rows && x <= c < x + cols) ==> cell(r, p, c) == g[(p - page) * cols
            + (c - x)]
        &&& !(page <= p < page + rows && x <= c < x + cols) ==> cell(r, p, c) == cell(s, p, c)
    } by {
        let n = p * (WIDTH as int) + c;
        assert(0 <= n < PAGE * WIDTH) by (nonlinear_arith)
            requires
                0 <= p < 8,
                0 <= c < 128,
                n == p * 128 + c,
        ;
        lemma_fundamental_div_mod_converse(n, WIDTH as int, p, c);
    }
}

/// A misaligned blit (bit offset `off != 0`) distributes each glyph
/// byte over two destination bytes on neighbouring pages; for the last
/// glyph row the two halves both survive, and recombining them
/// reconstructs the glyph byte exactly. (For the rows before the last
/// the spill onto the shared page is overwritten by the next row's low
/// half, as `blit_byte_part` records.)
pub proof fn lemma_blit_split_roundtrip(
    s: Seq<u8>,
    g: Seq<u8>,
    rows: int,
    cols: int,
    x: int,
    page: int,
    off: u8,
    j: int,
)
    requires
        s.len() == PAGE * WIDTH,
        1 <= rows,
        1 <= cols,
        g.len() == rows * cols,
        0 <= x,
        0 <= page,
        1 <= off < 8,
        0 <= j < cols,
        x + j < WIDTH,
        page + rows < PAGE,
    ensures
        ({
            let r = glyph_blit(s, g, rows, cols, x, page, off);
            let b = g[(rows - 1) * cols + j];
            &&& cell(r, page + rows - 1, x + j) == split_low(b, off)
            &&& cell(r, page + rows, x + j) == split_high(b, off)
            &&& recombine(cell(r, page + rows - 1, x + j), cell(r, page + rows, x + j), off) == b
        }),
{
    let r = glyph_blit(s, g, rows, cols, x, page, off);
    let b = g[(rows - 1) * cols + j];
    let n1 = (page + rows - 1) * (WIDTH as int) + (x + j);
    let n2 = (page + rows) * (WIDTH as int) + (x + j);
    assert(0 <= n1 < PAGE * WIDTH && 0 <= n2 < PAGE * WIDTH) by (nonlinear_arith)
        requires
            0 <= page + rows - 1 < 8,
            0 <= page + rows < 8,
            0 <= x + j < 128,
            n1 == (page + rows - 1) * 128 + (x + j),
            n2 == (page + rows) * 128 + (x + j),
    ;
    lemma_fundamental_div_mod_converse(n1, WIDTH as int, page + rows - 1, x + j);
    lemma_fundamental_div_mod_converse(n2, WIDTH as int, page + rows, x + j);
    assert(cell(r, page + rows - 1, x + j) == split_low(b, off));
    assert(cell(r, page + rows, x + j) == split_high(b, off));
    let sh = (8 - off) as u8;
    assert(((b << off) >> off) | ((b >> sh) << sh) == b) by (bit_vector)
        requires
            1 <= off < 8,
            off + sh == 8,
    ;
}

/// Setting a pixel and then clearing it restores the whole grid,
/// provided the pixel was clear to begin with. (When the pixel was
/// already set, the second write clears it, so the grid ends with that
/// bit off rather than as it began.)
pub proof fn lemma_set_then_clear_restores(s: Seq<u8>, x: u8, y: u8)
    requires
        s.len() == PAGE * WIDTH,
        x < WIDTH,
        y < HEIGHT,
        cell(s, y as int / 8, x as int) & (1u8 << (y % 8)) == 0,
    ensures
        spec_set_pixel(spec_set_pixel(s, x, y, true), x, y, false) == s,
{
    let idx = (y as int / 8) * WIDTH + x as int;
    let mask = 1u8 << (y % 8);
    let b = s[idx];
    assert(b & mask == 0 ==> (b | mask) & !mask == b) by (bit_vector);
    assert(spec_set_pixel(spec_set_pixel(s, x, y, true), x, y, false) =~= s);
}

} // verus!
