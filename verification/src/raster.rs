//! RGBA rasters: a width, a height, and four bytes per pixel in row-major order.

use vstd::prelude::*;
use crate::geom::product;

verus! {

/// The mathematical content of a raster.
pub struct Pixels {
    pub width: u32,
    pub height: u32,
    pub bytes: Seq<u8>,
}

impl Pixels {
    /// The byte count of a `width` by `height` RGBA raster.
    pub open spec fn byte_len(width: u32, height: u32) -> int {
        4 * (width * height)
    }

    /// The buffer holds exactly four bytes for each pixel.
    pub open spec fn wf(self) -> bool {
        self.bytes.len() == Self::byte_len(self.width, self.height)
    }

    /// A raster whose every byte is zero: fully transparent black.
    pub open spec fn transparent(width: u32, height: u32) -> Pixels {
        Pixels {
            width,
            height,
            bytes: Seq::new(Self::byte_len(width, height) as nat, |i: int| 0u8),
        }
    }

    /// Position in `bytes` of channel `c` of the pixel in column `x`, row `y`.
    pub open spec fn index(self, x: int, y: int, c: int) -> int {
        4 * (y * self.width + x) + c
    }

    /// Column of the pixel to which the byte at position `i` belongs.
    pub open spec fn column_of(self, i: int) -> int {
        (i / 4) % (self.width as int)
    }

    /// Row of the pixel to which the byte at position `i` belongs.
    pub open spec fn row_of(self, i: int) -> int {
        (i / 4) / (self.width as int)
    }

    /// Channel `c` (0 red, 1 green, 2 blue, 3 alpha) of the pixel at `(x, y)`.
    pub open spec fn channel(self, x: int, y: int, c: int) -> u8 {
        self.bytes[self.index(x, y, c)]
    }

    /// Whether `(x, y)` is a pixel of the raster.
    pub open spec fn contains(self, x: int, y: int) -> bool {
        0 <= x < self.width && 0 <= y < self.height
    }
}

/// `index` stays inside the buffer for every pixel of a well-formed raster, and
/// the pixel and channel can be read back from it.
pub proof fn lemma_index_bounds(p: Pixels, x: int, y: int, c: int)
    requires
        p.wf(),
        p.contains(x, y),
        0 <= c < 4,
    ensures
        0 <= p.index(x, y, c) < p.bytes.len(),
        p.index(x, y, c) % 4 == c,
        p.column_of(p.index(x, y, c)) == x,
        p.row_of(p.index(x, y, c)) == y,
{
    let w = p.width as int;
    let h = p.height as int;
    assert(0 <= y * w && y * w + w <= h * w) by (nonlinear_arith)
        requires
            0 <= y < h,
            0 < w,
    ;
    assert(h * w == w * h) by (nonlinear_arith);
    vstd::arithmetic::div_mod::lemma_fundamental_div_mod_converse(y * w + x, w, y, x);
}

/// Every position in the buffer of a well-formed raster is the `index` of the
/// pixel and channel read back from it.
pub proof fn lemma_index_of_position(p: Pixels, i: int)
    requires
        p.wf(),
        0 <= i < p.bytes.len(),
    ensures
        p.contains(p.column_of(i), p.row_of(i)),
        p.index(p.column_of(i), p.row_of(i), i % 4) == i,
{
    let w = p.width as int;
    let h = p.height as int;
    let q = i / 4;
    assert(w > 0) by (nonlinear_arith)
        requires
            0 <= w,
            0 <= h,
            0 < 4 * (w * h),
    ;
    vstd::arithmetic::div_mod::lemma_fundamental_div_mod(q, w);
    vstd::arithmetic::div_mod::lemma_mod_bound(q, w);
    assert(0 <= q / w) by (nonlinear_arith)
        requires
            0 <= q,
            0 < w,
    ;
    assert(w * (q / w) == (q / w) * w) by (nonlinear_arith);
    assert(q / w < h) by (nonlinear_arith)
        requires
            q < w * h,
            0 < w,
            q == w * (q / w) + q % w,
            0 <= q % w,
    ;
}

/// An owned RGBA raster.
#[derive(Debug)]
pub struct Raster {
    width: u32,
    height: u32,
    data: Vec<u8>,
}

impl View for Raster {
    type V = Pixels;

    closed spec fn view(&self) -> Pixels {
        Pixels { width: self.width, height: self.height, bytes: self.data@ }
    }
}

impl Raster {
    #[verifier::type_invariant]
    spec fn inv(self) -> bool {
        self.data.len() == 4 * (self.width * self.height)
    }

    /// A fully transparent raster.
    pub fn new(width: u32, height: u32) -> (r: Raster)
        requires
            Pixels::byte_len(width, height) <= usize::MAX,
        ensures
            r@ == Pixels::transparent(width, height),
    {
        let pixels: u64 = product(width, height);
        let len: usize = (pixels as usize) * 4;
        let data: Vec<u8> = vec![0u8; len];
        assert(data@ =~= Pixels::transparent(width, height).bytes);
        Raster { width, height, data }
    }

    /// Wraps a buffer of exactly `4 * width * height` bytes; any other length is refused.
    pub fn from_raw(width: u32, height: u32, data: Vec<u8>) -> (r: Option<Raster>)
        ensures
            r is Some <==> data@.len() == Pixels::byte_len(width, height),
            r is Some ==> r.unwrap()@ == (Pixels { width, height, bytes: data@ }),
    {
        let pixels: u64 = product(width, height);
        let len: usize = data.len();
        if len % 4 == 0 && (len / 4) as u64 == pixels {
            Some(Raster { width, height, data })
        } else {
            None
        }
    }

    /// Wraps a buffer that is known to hold four bytes for each pixel.
    pub(crate) fn from_parts(width: u32, height: u32, data: Vec<u8>) -> (r: Raster)
        requires
            data@.len() == Pixels::byte_len(width, height),
        ensures
            r@ == (Pixels { width, height, bytes: data@ }),
    {
        Raster { width, height, data }
    }

    /// The number of columns.
    pub fn width(&self) -> (w: u32)
        ensures
            w == self@.width,
    {
        self.width
    }

    /// The number of rows.
    pub fn height(&self) -> (h: u32)
        ensures
            h == self@.height,
    {
        self.height
    }

    /// Width and height. Every raster is well formed.
    pub fn dimensions(&self) -> (d: (u32, u32))
        ensures
            d == (self@.width, self@.height),
            self@.wf(),
    {
        proof {
            use_type_invariant(self);
        }
        (self.width, self.height)
    }

    /// The bytes, row by row, four per pixel.
    pub fn as_raw(&self) -> (bytes: &Vec<u8>)
        ensures
            bytes@ == self@.bytes,
            self@.wf(),
    {
        proof {
            use_type_invariant(self);
        }
        &self.data
    }

    /// Gives up the raster for its bytes.
    pub fn into_raw(self) -> (bytes: Vec<u8>)
        ensures
            bytes@ == self@.bytes,
            self@.wf(),
    {
        proof {
            use_type_invariant(&self);
        }
        self.data
    }

    /// The four channels of the pixel at `(x, y)`.
    pub fn get_pixel(&self, x: u32, y: u32) -> (px: [u8; 4])
        requires
            self@.contains(x as int, y as int),
        ensures
            forall|c: int| 0 <= c < 4 ==> px[c] == #[trigger] self@.channel(x as int, y as int, c),
    {
        proof {
            use_type_invariant(self);
            lemma_index_bounds(self@, x as int, y as int, 0);
            lemma_index_bounds(self@, x as int, y as int, 3);
        }
        let row: u64 = product(y, self.width);
        let at: usize = (4 * (row + x as u64)) as usize;
        [self.data[at], self.data[at + 1], self.data[at + 2], self.data[at + 3]]
    }
}

} // verus!
