//! Software rasterising: copying a buffer's pixels onto a canvas.

use vstd::prelude::*;
use vstd::arithmetic::div_mod::{lemma_fundamental_div_mod, lemma_fundamental_div_mod_converse};
use vstd::arithmetic::div_mod::lemma_mod_bound;
use crate::surface::Buffer;

verus! {

/// The canvas, its shape, and where on it the buffer's top left pixel goes.
pub struct Placement {
    pub canvas_width: int,
    pub canvas_height: int,
    pub x_offset: int,
    pub y_offset: int,
}

/// The opaque canvas colour of the four bytes (blue, green, red, unused)
/// at `offset` in `pixels`.
pub open spec fn pixel_color(pixels: Seq<u8>, offset: int) -> u32 {
    0xFF00_0000u32 | ((pixels[offset + 2] as u32) << 16) | ((pixels[offset + 1] as u32) << 8) | (
    pixels[offset] as u32)
}

/// The byte offset in the buffer of the pixel that lands on canvas cell
/// `k`, if one does: the cell lies in a canvas row and column that the
/// buffer covers, and the pixel's four bytes lie within `len` bytes.
pub open spec fn source_offset(buffer: Buffer, len: int, place: Placement, k: int) -> Option<int> {
    if place.canvas_width <= 0 {
        None
    } else {
        let row = k / place.canvas_width;
        let column = k % place.canvas_width;
        let x = column - place.x_offset;
        let y = row - place.y_offset;
        let offset = y * buffer.stride + 4 * x;
        if 0 <= x < buffer.width && 0 <= y < buffer.height && 0 <= row < place.canvas_height && 0
            <= offset && offset + 4 <= len {
            Some(offset)
        } else {
            None
        }
    }
}

/// What canvas cell `k` holds after the buffer was drawn over `before`.
pub open spec fn drawn_cell(
    buffer: Buffer,
    pixels: Seq<u8>,
    place: Placement,
    k: int,
    before: u32,
) -> u32 {
    match source_offset(buffer, pixels.len() as int, place, k) {
        Some(offset) => pixel_color(pixels, offset),
        None => before,
    }
}

/// Whether the pass over the buffer, having finished the rows above `y` and
/// the columns left of `x` in row `y`, has dealt with canvas cell `k`.
spec fn passed(place: Placement, k: int, y: int, x: int) -> bool {
    let row = k / place.canvas_width - place.y_offset;
    let column = k % place.canvas_width - place.x_offset;
    row < y || (row == y && column < x)
}

/// Draws the buffer's pixels onto the canvas, the buffer's top left pixel
/// at column `x_offset`, row `y_offset`. `pixels` holds rows of `stride`
/// bytes, four bytes a pixel in the order blue, green, red, unused; the
/// canvas holds rows of `canvas_width` cells. Pixels that fall outside the
/// canvas, or whose bytes or cell are missing, are left out.
pub fn render_surface(
    buffer: &Buffer,
    pixels: &[u8],
    canvas: &mut [u32],
    canvas_width: u32,
    canvas_height: u32,
    x_offset: i32,
    y_offset: i32,
)
    ensures
        final(canvas)@.len() == old(canvas)@.len(),
        forall|k: int|
            0 <= k < old(canvas)@.len() ==> #[trigger] final(canvas)@[k] == drawn_cell(
                *buffer,
                pixels@,
                Placement {
                    canvas_width: canvas_width as int,
                    canvas_height: canvas_height as int,
                    x_offset: x_offset as int,
                    y_offset: y_offset as int,
                },
                k,
                old(canvas)@[k],
            ),
{
    let ghost place = Placement {
        canvas_width: canvas_width as int,
        canvas_height: canvas_height as int,
        x_offset: x_offset as int,
        y_offset: y_offset as int,
    };
    let width = buffer.width;
    let height = buffer.height;
    let stride = buffer.stride;
    if width <= 0 || height <= 0 || canvas_width == 0 {
        return ;
    }
    let mut y: i32 = 0;
    while y < height
        invariant
            0 <= y <= height,
            width == buffer.width,
            height == buffer.height,
            stride == buffer.stride,
            width > 0,
            canvas_width > 0,
            place.canvas_width == canvas_width,
            place.canvas_height == canvas_height,
            place.x_offset == x_offset,
            place.y_offset == y_offset,
            canvas@.len() == old(canvas)@.len(),
            forall|k: int|
                0 <= k < canvas@.len() ==> #[trigger] canvas@[k] == (if passed(place, k, y as int, 0) {
                    drawn_cell(*buffer, pixels@, place, k, old(canvas)@[k])
                } else {
                    old(canvas)@[k]
                }),
        decreases height - y,
    {
        let row: i64 = y_offset as i64 + y as i64;
        if row >= 0 && row < canvas_height as i64 {
            assert(-0x4000_0000_0000_0000 < y * stride < 0x4000_0000_0000_0000) by (nonlinear_arith)
                requires
                    0 <= y <= 0x7fff_ffff,
                    -0x8000_0000 <= stride <= 0x7fff_ffff,
            ;
            assert(0 <= row * canvas_width <= 0xffff_ffff * 0xffff_ffff) by (nonlinear_arith)
                requires
                    0 <= row <= 0xffff_ffff,
                    0 < canvas_width <= 0xffff_ffff,
            ;
            let src_base: i64 = y as i64 * stride as i64;
            let dst_base: u64 = row as u64 * canvas_width as u64;
            let mut x: i32 = 0;
            while x < width
                invariant
                    0 <= x <= width,
                    0 <= y < height,
                    width == buffer.width,
                    height == buffer.height,
                    stride == buffer.stride,
                    canvas_width > 0,
                    place.canvas_width == canvas_width,
                    place.canvas_height == canvas_height,
                    place.x_offset == x_offset,
                    place.y_offset == y_offset,
                    row == y_offset + y,
                    0 <= row < canvas_height,
                    src_base == y * stride,
                    -0x4000_0000_0000_0000 < src_base < 0x4000_0000_0000_0000,
                    dst_base == row * canvas_width,
                    dst_base <= 0xffff_ffff * 0xffff_ffff,
                    canvas@.len() == old(canvas)@.len(),
                    forall|k: int|
                        0 <= k < canvas@.len() ==> #[trigger] canvas@[k] == (if passed(
                            place,
                            k,
                            y as int,
                            x as int,
                        ) {
                            drawn_cell(*buffer, pixels@, place, k, old(canvas)@[k])
                        } else {
                            old(canvas)@[k]
                        }),
                decreases width - x,
            {
                let column: i64 = x_offset as i64 + x as i64;
                let offset: i64 = src_base + 4 * (x as i64);
                let ghost earlier = canvas@;
                let mut target: Option<usize> = None;
                if column >= 0 && column < canvas_width as i64 && offset >= 0 && (offset as u64)
                    + 4 <= pixels.len() as u64 {
                    let cell: u64 = dst_base + column as u64;
                    if cell < canvas.len() as u64 {
                        target = Some(cell as usize);
                    }
                }
                if let Some(cell) = target {
                    let b = pixels[offset as usize];
                    let g = pixels[offset as usize + 1];
                    let r = pixels[offset as usize + 2];
                    let color: u32 = 0xFF00_0000u32 | ((r as u32) << 16) | ((g as u32) << 8) | (
                    b as u32);
                    canvas[cell] = color;
                    proof {
                        lemma_fundamental_div_mod_converse(
                            cell as int,
                            canvas_width as int,
                            row as int,
                            column as int,
                        );
                    }
                }
                proof {
                    assert forall|k: int| 0 <= k < canvas@.len() implies #[trigger] canvas@[k] == (
                    if passed(place, k, y as int, x + 1) {
                        drawn_cell(*buffer, pixels@, place, k, old(canvas)@[k])
                    } else {
                        old(canvas)@[k]
                    }) by {
                        lemma_fundamental_div_mod(k, canvas_width as int);
                        lemma_mod_bound(k, canvas_width as int);
                        assert(earlier[k] == (if passed(place, k, y as int, x as int) {
                            drawn_cell(*buffer, pixels@, place, k, old(canvas)@[k])
                        } else {
                            old(canvas)@[k]
                        }));
                        let at_pixel = k / (canvas_width as int) == row && k % (canvas_width as int)
                            == column;
                        if at_pixel {
                            assert(k == canvas_width * row + column);
                            assert(k == dst_base + column) by (nonlinear_arith)
                                requires
                                    k == canvas_width * row + column,
                                    dst_base == row * canvas_width,
                            ;
                        }
                    }
                }
                x += 1;
            }
            assert forall|k: int| 0 <= k < canvas@.len() implies #[trigger] canvas@[k] == (
            if passed(place, k, y + 1, 0) {
                drawn_cell(*buffer, pixels@, place, k, old(canvas)@[k])
            } else {
                old(canvas)@[k]
            }) by {
                if passed(place, k, y + 1, 0) != passed(place, k, y as int, width as int) {
                    assert(source_offset(*buffer, pixels@.len() as int, place, k).is_none());
                }
            }
        } else {
            assert forall|k: int| 0 <= k < canvas@.len() implies #[trigger] canvas@[k] == (
            if passed(place, k, y + 1, 0) {
                drawn_cell(*buffer, pixels@, place, k, old(canvas)@[k])
            } else {
                old(canvas)@[k]
            }) by {
                if passed(place, k, y + 1, 0) != passed(place, k, y as int, 0) {
                    assert(source_offset(*buffer, pixels@.len() as int, place, k).is_none());
                }
            }
        }
        y += 1;
    }
}

/// A drawn pixel is opaque and carries the buffer's red, green and blue
/// bytes in that order below the alpha byte.
pub proof fn lemma_pixel_channels(pixels: Seq<u8>, offset: int)
    ensures
        pixel_color(pixels, offset) >> 24 == 0xFF,
        (pixel_color(pixels, offset) >> 16) & 0xFF == pixels[offset + 2],
        (pixel_color(pixels, offset) >> 8) & 0xFF == pixels[offset + 1],
        pixel_color(pixels, offset) & 0xFF == pixels[offset],
{
    let b = pixels[offset];
    let g = pixels[offset + 1];
    let r = pixels[offset + 2];
    let color = 0xFF00_0000u32 | ((r as u32) << 16) | ((g as u32) << 8) | (b as u32);
    assert(color >> 24 == 0xFF && (color >> 16) & 0xFF == r && (color >> 8) & 0xFF == g && color
        & 0xFF == b) by (bit_vector)
        requires
            color == 0xFF00_0000u32 | ((r as u32) << 16) | ((g as u32) << 8) | (b as u32),
    ;
}

/// A cell that no pixel of the buffer lands on keeps its value, and drawing
/// the same buffer a second time changes nothing.
pub proof fn lemma_draw_again(buffer: Buffer, pixels: Seq<u8>, place: Placement, k: int, before: u32)
    ensures
        source_offset(buffer, pixels.len() as int, place, k).is_none() ==> drawn_cell(
            buffer,
            pixels,
            place,
            k,
            before,
        ) == before,
        drawn_cell(buffer, pixels, place, k, drawn_cell(buffer, pixels, place, k, before))
            == drawn_cell(buffer, pixels, place, k, before),
{
}

} // verus!
