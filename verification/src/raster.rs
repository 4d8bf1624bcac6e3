//! The byte layout of a raster buffer and what the drawing operations make of
//! one, stated over sequences of bytes.
//!
//! A buffer holds its pixels row by row from the top-left corner, four bytes
//! per pixel. Byte `i` therefore belongs to pixel number `i / 4`, which lies in
//! column `(i / 4) % width` of row `(i / 4) / width`.

use vstd::prelude::*;
use crate::color::Pixel;

verus! {

/// Length in bytes of a buffer that holds `width * height` pixels.
pub open spec fn buffer_len(width: int, height: int) -> int {
    width * height * 4
}

/// Offset of the first byte of pixel `(x, y)` in a buffer `width` pixels wide.
pub open spec fn pixel_offset(width: int, x: int, y: int) -> int {
    (y * width + x) * 4
}

/// Column of the pixel that byte `i` belongs to.
pub open spec fn column_of(width: int, i: int) -> int {
    (i / 4) % width
}

/// Row of the pixel that byte `i` belongs to.
pub open spec fn row_of(width: int, i: int) -> int {
    (i / 4) / width
}

/// Whether byte `i` belongs to a pixel of the window of columns `x0..x1` and
/// rows `y0..y1`.
pub open spec fn in_window(width: int, x0: int, y0: int, x1: int, y1: int, i: int) -> bool {
    &&& x0 <= column_of(width, i) < x1
    &&& y0 <= row_of(width, i) < y1
}

/// The buffer `buf` after every pixel of the window of columns `x0..x1` and
/// rows `y0..y1` has been overwritten with `px`; every other byte is kept.
pub open spec fn painted(
    buf: Seq<u8>,
    width: int,
    x0: int,
    y0: int,
    x1: int,
    y1: int,
    px: Pixel,
) -> Seq<u8> {
    Seq::new(
        buf.len(),
        |i: int|
            if in_window(width, x0, y0, x1, y1, i) {
                px.byte(i % 4)
            } else {
                buf[i]
            },
    )
}

/// A buffer of `len` bytes in which every pixel is `px`.
pub open spec fn flooded(len: nat, px: Pixel) -> Seq<u8> {
    Seq::new(len, |i: int| px.byte(i % 4))
}

/// A buffer of `len` zero bytes: transparent black throughout.
pub open spec fn blank(len: nat) -> Seq<u8> {
    Seq::new(len, |i: int| 0u8)
}

/// Byte `k` of pixel `(x, y)` lies in column `x` of row `y`, at position `k`
/// within its pixel.
pub proof fn lemma_coords_of_offset(width: int, x: int, y: int, k: int)
    requires
        0 <= x < width,
        0 <= y,
        0 <= k < 4,
    ensures
        column_of(width, pixel_offset(width, x, y) + k) == x,
        row_of(width, pixel_offset(width, x, y) + k) == y,
        (pixel_offset(width, x, y) + k) % 4 == k,
        (pixel_offset(width, x, y) + k) / 4 == y * width + x,
{
    let p = y * width + x;
    assert((p * 4 + k) / 4 == p && (p * 4 + k) % 4 == k);
    vstd::arithmetic::div_mod::lemma_fundamental_div_mod_converse(p, width, y, x);
}

/// Every byte lies in exactly one pixel: the one at its column and row.
pub proof fn lemma_offset_of_coords(width: int, i: int)
    requires
        0 < width,
        0 <= i,
    ensures
        0 <= column_of(width, i) < width,
        0 <= row_of(width, i),
        0 <= i % 4 < 4,
        i == pixel_offset(width, column_of(width, i), row_of(width, i)) + i % 4,
        i / 4 == row_of(width, i) * width + column_of(width, i),
{
    let p = i / 4;
    vstd::arithmetic::div_mod::lemma_fundamental_div_mod(p, width);
    vstd::arithmetic::div_mod::lemma_mod_pos_bound(p, width);
    vstd::arithmetic::div_mod::lemma_div_pos_is_pos(p, width);
    vstd::arithmetic::mul::lemma_mul_is_commutative(width, p / width);
}

/// In a buffer of `width * height` pixels every byte lies in a row below
/// `height`.
pub proof fn lemma_row_in_range(width: int, height: int, i: int)
    requires
        0 < width,
        0 <= height,
        0 <= i < buffer_len(width, height),
    ensures
        0 <= row_of(width, i) < height,
{
    lemma_offset_of_coords(width, i);
    let r = row_of(width, i);
    if r >= height {
        assert(r * width >= width * height) by (nonlinear_arith)
            requires
                r >= height,
                width > 0,
        ;
    }
}

/// The last byte of pixel `(x, y)` lies inside a buffer of `width * height`
/// pixels.
pub proof fn lemma_offset_in_range(width: int, height: int, x: int, y: int)
    requires
        0 <= x < width,
        0 <= y < height,
    ensures
        0 <= y * width,
        0 <= pixel_offset(width, x, y),
        pixel_offset(width, x, y) + 4 <= buffer_len(width, height),
{
    assert(0 <= y * width && y * width + width <= width * height) by (nonlinear_arith)
        requires
            0 <= y < height,
            0 < width,
    ;
}

/// What a painted buffer holds at byte `k` of pixel `(x, y)`: the byte of the
/// new pixel inside the window, the earlier byte outside it.
pub proof fn lemma_painted_pixel(
    buf: Seq<u8>,
    width: int,
    height: int,
    x0: int,
    y0: int,
    x1: int,
    y1: int,
    px: Pixel,
    x: int,
    y: int,
    k: int,
)
    requires
        buf.len() == buffer_len(width, height),
        0 <= x < width,
        0 <= y < height,
        0 <= k < 4,
    ensures
        0 <= pixel_offset(width, x, y) + k < buf.len(),
        painted(buf, width, x0, y0, x1, y1, px)[pixel_offset(width, x, y) + k] == (if x0 <= x < x1
            && y0 <= y < y1 {
            px.byte(k)
        } else {
            buf[pixel_offset(width, x, y) + k]
        }),
{
    lemma_offset_in_range(width, height, x, y);
    lemma_coords_of_offset(width, x, y, k);
}

/// Painting the window that spans the whole buffer floods the buffer.
pub proof fn lemma_painted_whole_is_flooded(buf: Seq<u8>, width: int, height: int, px: Pixel)
    requires
        0 < width,
        0 <= height,
        buf.len() == buffer_len(width, height),
    ensures
        painted(buf, width, 0, 0, width, height, px) == flooded(buf.len(), px),
{
    assert forall|i: int| 0 <= i < buf.len() implies in_window(width, 0, 0, width, height, i) by {
        lemma_offset_of_coords(width, i);
        lemma_row_in_range(width, height, i);
    }
    assert(painted(buf, width, 0, 0, width, height, px) =~= flooded(buf.len(), px));
}

/// Painting a window without columns or without rows changes nothing.
pub proof fn lemma_painted_empty_window(
    buf: Seq<u8>,
    width: int,
    x0: int,
    y0: int,
    x1: int,
    y1: int,
    px: Pixel,
)
    requires
        x1 <= x0 || y1 <= y0,
    ensures
        painted(buf, width, x0, y0, x1, y1, px) == buf,
{
    assert(painted(buf, width, x0, y0, x1, y1, px) =~= buf);
}

} // verus!
