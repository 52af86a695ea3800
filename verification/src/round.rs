//! Corner rounding: clearing the alpha of the pixels that lie outside a rounded
//! rectangle inscribed in the raster.

use vstd::math::min;
use vstd::prelude::*;
use crate::geom::product;
use crate::raster::{lemma_index_bounds, lemma_index_of_position, Pixels, Raster};

verus! {

/// The radius actually used on a `width` by `height` raster: no more than half
/// of either side.
pub open spec fn clamp_radius(radius: u32, width: u32, height: u32) -> u32 {
    min(radius as int, min(width as int / 2, height as int / 2)) as u32
}

/// How far position `pos` on a side of length `len` reaches into a corner of
/// radius `r`: `r` at the very edge, 1 at the corner's inner border, 0 outside
/// both corners.
pub open spec fn corner_depth(pos: int, len: int, r: int) -> int {
    if pos < r {
        r - pos
    } else if pos >= len - r {
        pos - (len - r) + 1
    } else {
        0
    }
}

/// Whether a pixel at depths `dx` and `dy` into a corner of radius `r` has its
/// centre outside the quarter circle of that corner. Distances are doubled so
/// that pixel centres are integers.
pub open spec fn beyond_arc(dx: int, dy: int, r: int) -> bool {
    let a = 2 * dx - 1;
    let b = 2 * dy - 1;
    let d = 2 * r;
    a * a + b * b > d * d
}

/// Whether the pixel at `(x, y)` of a `width` by `height` raster is cut away by
/// rounding with radius `r`.
pub open spec fn is_cut(x: int, y: int, width: int, height: int, r: int) -> bool {
    let dx = corner_depth(x, width, r);
    let dy = corner_depth(y, height, r);
    dx > 0 && dy > 0 && beyond_arc(dx, dy, r)
}

/// The raster with the alpha of every cut pixel set to zero and nothing else changed.
pub open spec fn masked(p: Pixels, r: u32) -> Pixels {
    Pixels {
        width: p.width,
        height: p.height,
        bytes: Seq::new(
            p.bytes.len(),
            |i: int|
                if i % 4 == 3 && is_cut(
                    p.column_of(i),
                    p.row_of(i),
                    p.width as int,
                    p.height as int,
                    r as int,
                ) {
                    0u8
                } else {
                    p.bytes[i]
                },
        ),
    }
}

/// The raster with its corners rounded by `radius`, clamped to the raster's size.
pub open spec fn rounded(p: Pixels, radius: u32) -> Pixels {
    masked(p, clamp_radius(radius, p.width, p.height))
}

/// Rounding with radius zero changes nothing.
pub proof fn lemma_zero_radius(p: Pixels)
    requires
        p.wf(),
    ensures
        rounded(p, 0) == p,
{
    assert forall|i: int| 0 <= i < p.bytes.len() implies rounded(p, 0).bytes[i] == p.bytes[i] by {
        lemma_index_of_position(p, i);
    }
    assert(rounded(p, 0).bytes =~= p.bytes);
}

/// Any radius of at least half the shorter side rounds exactly as half the
/// shorter side does.
pub proof fn lemma_radius_saturates(p: Pixels, radius: u32)
    requires
        radius >= min(p.width as int, p.height as int) / 2,
    ensures
        rounded(p, radius) == rounded(p, (min(p.width as int, p.height as int) / 2) as u32),
{
}

/// Rounding keeps the size of a raster and the colour of every pixel. It makes
/// the pixels that are cut fully transparent and keeps the alpha of all others.
pub proof fn lemma_rounded_pixel(p: Pixels, radius: u32, x: int, y: int)
    requires
        p.wf(),
        p.contains(x, y),
    ensures
        rounded(p, radius).wf(),
        rounded(p, radius).width == p.width,
        rounded(p, radius).height == p.height,
        forall|c: int| 0 <= c < 3 ==> rounded(p, radius).channel(x, y, c) == p.channel(x, y, c),
        rounded(p, radius).channel(x, y, 3) == if is_cut(
            x,
            y,
            p.width as int,
            p.height as int,
            clamp_radius(radius, p.width, p.height) as int,
        ) {
            0u8
        } else {
            p.channel(x, y, 3)
        },
{
    lemma_index_bounds(p, x, y, 0);
    lemma_index_bounds(p, x, y, 1);
    lemma_index_bounds(p, x, y, 2);
    lemma_index_bounds(p, x, y, 3);
}

/// The radius used on a `width` by `height` raster when `radius` is asked for.
pub fn effective_radius(radius: u32, width: u32, height: u32) -> (r: u32)
    ensures
        r == clamp_radius(radius, width, height),
        r <= radius,
        2 * r <= width,
        2 * r <= height,
{
    let by_width: u32 = if radius <= width / 2 {
        radius
    } else {
        width / 2
    };
    if by_width <= height / 2 {
        by_width
    } else {
        height / 2
    }
}

/// Whether byte `i` has been cleared once the corner rows before `row` are done
/// and, in corner row `row`, the corner columns before `col`.
spec fn cleared(p: Pixels, r: int, row: int, col: int, i: int) -> bool {
    let dx = corner_depth(p.column_of(i), p.width as int, r);
    let dy = corner_depth(p.row_of(i), p.height as int, r);
    i % 4 == 3 && dx > 0 && dy > 0 && beyond_arc(dx, dy, r) && (r - dy < row || (r - dy == row && r
        - dx < col))
}

/// The buffer while rounding is under way.
spec fn partly_masked(p: Pixels, r: int, row: int, col: int, bytes: Seq<u8>) -> bool {
    &&& bytes.len() == p.bytes.len()
    &&& forall|i: int|
        0 <= i < bytes.len() ==> #[trigger] bytes[i] == if cleared(p, r, row, col, i) {
            0u8
        } else {
            p.bytes[i]
        }
}

/// Makes the pixel at `(x, y)` fully transparent.
fn clear_alpha(data: &mut Vec<u8>, width: u32, height: u32, x: u32, y: u32)
    requires
        old(data).len() == Pixels::byte_len(width, height),
        x < width,
        y < height,
    ensures
        final(data)@ == old(data)@.update(4 * (y * width + x) + 3, 0u8),
        0 <= 4 * (y * width + x) + 3 < old(data)@.len(),
{
    proof {
        lemma_index_bounds(Pixels { width, height, bytes: data@ }, x as int, y as int, 3);
    }
    let at: u64 = 4 * (product(y, width) + x as u64) + 3;
    data.set(at as usize, 0);
}

/// A step of rounding: once the four pixels at corner row `row` and corner
/// column `col` are cleared where they lie beyond the arc, the buffer is masked
/// up to the next column.
proof fn lemma_step(p: Pixels, r: int, row: int, col: int, before: Seq<u8>, after: Seq<u8>)
    requires
        p.wf(),
        0 < r,
        2 * r <= p.width,
        2 * r <= p.height,
        0 <= row < r,
        0 <= col < r,
        partly_masked(p, r, row, col, before),
        after.len() == before.len(),
        forall|i: int|
            0 <= i < after.len() ==> #[trigger] after[i] == if beyond_arc(r - col, r - row, r) && (i
                == p.index(col, row, 3) || i == p.index(p.width - 1 - col, row, 3) || i == p.index(
                col,
                p.height - 1 - row,
                3,
            ) || i == p.index(p.width - 1 - col, p.height - 1 - row, 3)) {
                0u8
            } else {
                before[i]
            },
    ensures
        partly_masked(p, r, row, col + 1, after),
{
    let w = p.width as int;
    let h = p.height as int;
    lemma_index_bounds(p, col, row, 3);
    lemma_index_bounds(p, w - 1 - col, row, 3);
    lemma_index_bounds(p, col, h - 1 - row, 3);
    lemma_index_bounds(p, w - 1 - col, h - 1 - row, 3);
    assert forall|i: int| 0 <= i < after.len() implies #[trigger] after[i] == if cleared(
        p,
        r,
        row,
        col + 1,
        i,
    ) {
        0u8
    } else {
        p.bytes[i]
    } by {
        lemma_index_of_position(p, i);
        assert(before[i] == if cleared(p, r, row, col, i) {
            0u8
        } else {
            p.bytes[i]
        });
    }
}

/// Rounds the corners of `raster`: with the radius clamped to half of either
/// side, every pixel whose centre lies outside the quarter circle of its corner
/// becomes fully transparent. Colours, and all other pixels, stay as they are.
pub fn round(raster: Raster, radius: u32) -> (out: Raster)
    ensures
        out@ == rounded(raster@, radius),
{
    let (width, height) = raster.dimensions();
    let r: u32 = effective_radius(radius, width, height);
    let ghost p = raster@;
    let mut data: Vec<u8> = raster.into_raw();
    if r == 0 {
        proof {
            lemma_zero_radius(p);
        }
        return Raster::from_parts(width, height, data);
    }
    let across: u64 = product(2 * r, 2 * r);
    let mut row: u32 = 0;
    proof {
        assert forall|i: int| 0 <= i < data@.len() implies !cleared(p, r as int, 0, 0, i) by {
            lemma_index_of_position(p, i);
        }
    }
    while row < r
        invariant
            p.wf(),
            p.width == width,
            p.height == height,
            0 < r,
            2 * r <= width,
            2 * r <= height,
            row <= r,
            across == (2 * r) * (2 * r),
            partly_masked(p, r as int, row as int, 0, data@),
        decreases r - row,
    {
        let b: u32 = 2 * (r - row) - 1;
        let mut col: u32 = 0;
        while col < r
            invariant
                p.wf(),
                p.width == width,
                p.height == height,
                0 < r,
                2 * r <= width,
                2 * r <= height,
                row < r,
                col <= r,
                b == 2 * (r - row) - 1,
                across == (2 * r) * (2 * r),
                partly_masked(p, r as int, row as int, col as int, data@),
            decreases r - col,
        {
            let a: u32 = 2 * (r - col) - 1;
            let ghost before = data@;
            if product(a, a) as u128 + product(b, b) as u128 > across as u128 {
                clear_alpha(&mut data, width, height, col, row);
                clear_alpha(&mut data, width, height, width - 1 - col, row);
                clear_alpha(&mut data, width, height, col, height - 1 - row);
                clear_alpha(&mut data, width, height, width - 1 - col, height - 1 - row);
            }
            proof {
                lemma_step(p, r as int, row as int, col as int, before, data@);
            }
            col = col + 1;
        }
        assert(partly_masked(p, r as int, row as int + 1, 0, data@)) by {
            assert forall|i: int| 0 <= i < data@.len() implies cleared(
                p,
                r as int,
                row as int + 1,
                0,
                i,
            ) == cleared(p, r as int, row as int, r as int, i) by {
                lemma_index_of_position(p, i);
            }
        }
        row = row + 1;
    }
    proof {
        assert forall|i: int| 0 <= i < data@.len() implies data@[i] == rounded(
            p,
            radius,
        ).bytes[i] by {
            lemma_index_of_position(p, i);
        }
        assert(data@ =~= rounded(p, radius).bytes);
    }
    Raster::from_parts(width, height, data)
}

} // verus!
