//! The bitmap font catalog: immutable glyph tables for a small set of
//! fixed sizes. A glyph is `rows x cols` bytes, where each byte encodes
//! 8 vertically stacked pixels (bit 0 topmost) and `rows` is the font
//! height divided by 8.
//!
//! Every font covers the full printable-ASCII range, space through `~`.
//! A font may add a small set of further characters, found by a linear
//! scan; anything else is a lookup failure, never a zero-filled glyph.

use vstd::prelude::*;

verus! {

/// How many characters the printable-ASCII range holds: space (0x20)
/// through tilde (0x7e).
pub const ASCII_COUNT: usize = 95;

/// A character without a glyph in the requested font.
#[derive(Clone, Copy, Debug, PartialEq, Eq, Structural)]
pub enum LookupError {
    NotRepresentable,
}

/// One character's bitmap: `rows * cols` bytes, row-major, where the
/// byte for strip row `i`, column `j` sits at `data[i * cols + j]`.
pub struct Glyph {
    pub rows: usize,
    pub cols: usize,
    pub data: Vec<u8>,
}

impl Glyph {
    pub open spec fn wf(&self) -> bool {
        &&& 1 <= self.rows <= 31
        &&& 1 <= self.cols <= 255
        &&& self.data@.len() == self.rows * self.cols
    }
}

/// Whether `ch` lies in the printable-ASCII range that every font covers.
pub open spec fn is_printable_ascii(ch: char) -> bool {
    0x20 <= ch as u32 <= 0x7e
}

/// Table position of a printable-ASCII character: distance from space.
pub open spec fn ascii_index(ch: char) -> int {
    ch as u32 - 0x20
}

/// A fixed-size bitmap font. `width` is both the stride of the ASCII
/// glyph table and the advance width reported for ASCII characters;
/// the extra repertoire has its own stride `ext_width`.
pub struct Font {
    pub height: u8,
    pub width: u8,
    pub ascii: Vec<u8>,
    pub ext_width: u8,
    pub ext_chars: Vec<char>,
    pub ext: Vec<u8>,
}

impl Font {
    /// Byte rows per glyph: the font height in whole 8-pixel strips.
    pub open spec fn rows(&self) -> int {
        self.height as int / 8
    }

    /// The tables hold exactly one `rows x width` cell per character,
    /// and the extra repertoire is non-ASCII and free of duplicates.
    pub open spec fn wf(&self) -> bool {
        &&& 8 <= self.height
        &&& self.height as int % 8 == 0
        &&& 1 <= self.width
        &&& 1 <= self.ext_width
        &&& self.ascii@.len() == ASCII_COUNT * self.rows() * self.width
        &&& self.ext@.len() == self.ext_chars@.len() * self.rows() * self.ext_width
        &&& forall|i: int|
            0 <= i < self.ext_chars@.len() ==> (#[trigger] self.ext_chars@[i]) as u32 > 0x7f
        &&& forall|i: int, j: int|
            0 <= i < j < self.ext_chars@.len() ==> self.ext_chars@[i] != self.ext_chars@[j]
    }

    /// Whether the font has a glyph for `ch`.
    pub open spec fn representable(&self, ch: char) -> bool {
        is_printable_ascii(ch) || self.ext_chars@.contains(ch)
    }

    /// The advance width reported for `ch`: the ASCII stride for the
    /// ASCII range, the extra repertoire's stride otherwise.
    pub open spec fn advance(&self, ch: char) -> u8 {
        if is_printable_ascii(ch) {
            self.width
        } else {
            self.ext_width
        }
    }

    /// Position of a non-ASCII character in the extra repertoire.
    pub open spec fn ext_index(&self, ch: char) -> int {
        choose|i: int| 0 <= i < self.ext_chars@.len() && self.ext_chars@[i] == ch
    }

    /// The glyph bytes the font holds for `ch`: the `rows * advance`
    /// byte cell sliced from the table that covers it.
    pub open spec fn glyph_seq(&self, ch: char) -> Seq<u8> {
        if is_printable_ascii(ch) {
            let len = self.rows() * self.width;
            self.ascii@.subrange(ascii_index(ch) * len, (ascii_index(ch) + 1) * len)
        } else {
            let len = self.rows() * self.ext_width;
            self.ext@.subrange(self.ext_index(ch) * len, (self.ext_index(ch) + 1) * len)
        }
    }

    /// Looks up the glyph for `ch`. Fails with `NotRepresentable` for a
    /// low control character and for anything outside the font's
    /// repertoire.
    pub fn get_char(&self, ch: char) -> (r: Result<Glyph, LookupError>)
        requires
            self.wf(),
        ensures
            match r {
                Ok(g) => {
                    &&& self.representable(ch)
                    &&& g.wf()
                    &&& g.rows == self.rows()
                    &&& g.cols == self.advance(ch)
                    &&& g.data@ == self.glyph_seq(ch)
                },
                Err(e) => !self.representable(ch) && e == LookupError::NotRepresentable,
            },
    {
        let code = ch as u32;
        let rows = (self.height / 8) as usize;
        if 0x20 <= code && code <= 0x7e {
            let cols = self.width as usize;
            proof {
                assert(rows * cols <= 31 * 255) by (nonlinear_arith)
                    requires
                        0 <= rows <= 31,
                        0 <= cols <= 255,
                ;
            }
            let len = rows * cols;
            let idx = (code - 0x20) as usize;
            let total = self.ascii.len();
            proof {
                assert(idx * len + len <= ASCII_COUNT * len) by (nonlinear_arith)
                    requires
                        idx + 1 <= ASCII_COUNT,
                        0 <= len,
                ;
                assert(ASCII_COUNT * (self.rows() * self.width) == ASCII_COUNT * self.rows()
                    * self.width) by (nonlinear_arith);
                assert(idx * len + len <= total);
                assert((idx + 1) * len == idx * len + len) by (nonlinear_arith);
            }
            let data = copy_range(&self.ascii, idx * len, len);
            Ok(Glyph { rows, cols, data })
        } else {
            match self.ext_position(ch) {
                Some(pos) => {
                    let cols = self.ext_width as usize;
                    proof {
                        assert(rows * cols <= 31 * 255) by (nonlinear_arith)
                            requires
                                0 <= rows <= 31,
                                0 <= cols <= 255,
                        ;
                    }
                    let len = rows * cols;
                    let total = self.ext.len();
                    proof {
                        assert(pos * len + len <= self.ext_chars@.len() * len) by (nonlinear_arith)
                            requires
                                pos + 1 <= self.ext_chars@.len(),
                                0 <= len,
                        ;
                        assert(self.ext_chars@.len() * (self.rows() * self.ext_width)
                            == self.ext_chars@.len() * self.rows() * self.ext_width)
                            by (nonlinear_arith);
                        assert(pos * len + len <= total);
                        assert((pos + 1) * len == pos * len + len) by (nonlinear_arith);
                    }
                    let data = copy_range(&self.ext, pos * len, len);
                    Ok(Glyph { rows, cols, data })
                },
                None => Err(LookupError::NotRepresentable),
            }
        }
    }

    /// Advance width for `ch`, with the same failure cases as `get_char`.
    pub fn get_char_width(&self, ch: char) -> (r: Result<u8, LookupError>)
        requires
            self.wf(),
        ensures
            match r {
                Ok(w) => self.representable(ch) && w == self.advance(ch),
                Err(e) => !self.representable(ch) && e == LookupError::NotRepresentable,
            },
    {
        let code = ch as u32;
        if 0x20 <= code && code <= 0x7e {
            Ok(self.width)
        } else {
            match self.ext_position(ch) {
                Some(_) => Ok(self.ext_width),
                None => Err(LookupError::NotRepresentable),
            }
        }
    }

    /// The font's pixel height, the vertical advance for line breaks.
    pub fn get_font_height(&self) -> (r: u8)
        ensures
            r == self.height,
    {
        self.height
    }

    /// Linear scan of the extra repertoire.
    fn ext_position(&self, ch: char) -> (r: Option<usize>)
        requires
            self.wf(),
        ensures
            match r {
                Some(i) => self.ext_chars@.contains(ch) && i == self.ext_index(ch),
                None => !self.ext_chars@.contains(ch),
            },
    {
        let mut i: usize = 0;
        while i < self.ext_chars.len()
            invariant
                self.wf(),
                i <= self.ext_chars@.len(),
                forall|k: int| 0 <= k < i ==> self.ext_chars@[k] != ch,
            decreases self.ext_chars@.len() - i,
        {
            if self.ext_chars[i] == ch {
                proof {
                    assert(self.ext_chars@.contains(ch));
                    let w = self.ext_index(ch);
                    assert(self.ext_chars@[w] == ch);
                }
                return Some(i);
            }
            i = i + 1;
        }
        None
    }
}

/// Copies `v[start .. start + len]` into a fresh vector.
fn copy_range(v: &Vec<u8>, start: usize, len: usize) -> (r: Vec<u8>)
    requires
        start + len <= v@.len(),
    ensures
        r@ == v@.subrange(start as int, start as int + len as int),
{
    let mut r: Vec<u8> = Vec::new();
    let total = v.len();
    let mut k: usize = 0;
    while k < len
        invariant
            k <= len,
            start + len <= total,
            total == v@.len(),
            r@ =~= v@.subrange(start as int, start as int + k as int),
        decreases len - k,
    {
        r.push(v[start + k]);
        k = k + 1;
    }
    assert(r@ =~= v@.subrange(start as int, start as int + len as int));
    r
}

} // verus!
