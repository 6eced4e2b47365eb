//! What a frame is made of: the draws for each tile, the check a pixel
//! buffer must pass before it is uploaded, and the viewport.

use vstd::prelude::*;
use crate::geometry::{Point, Rect};
use crate::layout::{Layout, Tile};

verus! {

/// How far a tile's shadow reaches beyond the tile, in physical units.
pub const SHADOW_PADDING: i32 = 40;

/// How far the focus border reaches beyond the tile, in physical units.
pub const FOCUS_BORDER: i32 = 4;

/// The size of the surface that frames are drawn to, in physical units.
#[derive(Clone, Copy, Debug, PartialEq, Eq, Structural)]
pub struct Viewport {
    pub width: u32,
    pub height: u32,
}

/// Whether a pixel buffer can be drawn, and if not, why not.
#[derive(Clone, Copy, Debug, PartialEq, Eq, Structural)]
pub enum PixelCheck {
    /// The draw goes ahead.
    Draw,
    /// The destination or the texture has no area: nothing to draw.
    Empty,
    /// The buffer holds fewer bytes than its declared size needs.
    TooSmall,
}

/// One draw of a frame.
#[derive(Clone, Copy, Debug, PartialEq, Eq, Structural)]
pub enum DrawCommand {
    /// A soft shadow filling the rectangle (physical units).
    Shadow(Rect),
    /// The surface tree of `surface`, its root at `origin` (logical units).
    Surface { surface: u64, origin: Point },
    /// The focus border filling the rectangle (physical units).
    Border(Rect),
}

/// The bytes that a texture of `tex_w` by `tex_h` pixels needs.
pub open spec fn texture_bytes(tex_w: int, tex_h: int) -> int {
    tex_w * tex_h * 4
}

/// The verdict on a draw of `len` bytes as a `tex_w` by `tex_h` texture
/// into a `dest_w` by `dest_h` rectangle.
pub open spec fn pixel_check(dest_w: int, dest_h: int, tex_w: int, tex_h: int, len: int) -> PixelCheck {
    if dest_w <= 0 || dest_h <= 0 || tex_w <= 0 || tex_h <= 0 {
        PixelCheck::Empty
    } else if len < texture_bytes(tex_w, tex_h) {
        PixelCheck::TooSmall
    } else {
        PixelCheck::Draw
    }
}

/// A rectangle with an area.
pub open spec fn has_area(r: Rect) -> bool {
    r.w > 0 && r.h > 0
}

/// The draw of a filled rectangle, or nothing where it has no area.
pub open spec fn fill(r: Rect, shadow: bool) -> Seq<DrawCommand> {
    if has_area(r) {
        seq![if shadow { DrawCommand::Shadow(r) } else { DrawCommand::Border(r) }]
    } else {
        Seq::empty()
    }
}

/// The draws for one tile whose physical rectangle is `phys`: its shadow,
/// its surface tree, and its border if it holds the keyboard focus.
pub open spec fn tile_commands(tile: Tile, phys: Rect, keyboard_focus: Option<u64>) -> Seq<
    DrawCommand,
> {
    fill(phys.outset_spec(SHADOW_PADDING as int), true) + seq![
        DrawCommand::Surface { surface: tile.toplevel.surface, origin: tile.position },
    ] + (if keyboard_focus == Some(tile.toplevel.surface) {
        fill(phys.outset_spec(FOCUS_BORDER as int), false)
    } else {
        Seq::empty()
    })
}

/// The draws for the first `upto` tiles, tile by tile in layout order.
pub open spec fn frame_commands(
    tiles: Seq<Tile>,
    phys: Seq<Rect>,
    keyboard_focus: Option<u64>,
    upto: int,
) -> Seq<DrawCommand>
    decreases upto,
{
    if upto <= 0 {
        Seq::empty()
    } else {
        frame_commands(tiles, phys, keyboard_focus, upto - 1) + tile_commands(
            tiles[upto - 1],
            phys[upto - 1],
            keyboard_focus,
        )
    }
}

/// The lesser of two lengths.
pub open spec fn shorter(a: int, b: int) -> int {
    if a <= b {
        a
    } else {
        b
    }
}

impl Viewport {
    /// A viewport of `width` by `height`.
    pub fn new(width: u32, height: u32) -> (v: Viewport)
        ensures
            v == (Viewport { width, height }),
    {
        Viewport { width, height }
    }

    /// Takes the new size if both dimensions are positive and says whether
    /// it did; a size with a zero dimension is ignored.
    pub fn resize(&mut self, width: u32, height: u32) -> (applied: bool)
        ensures
            applied == (width > 0 && height > 0),
            applied ==> *final(self) == (Viewport { width, height }),
            !applied ==> *final(self) == *old(self),
    {
        if width > 0 && height > 0 {
            self.width = width;
            self.height = height;
            true
        } else {
            false
        }
    }
}

/// Decides whether `len` bytes of pixels can be drawn as a `tex_w` by
/// `tex_h` texture into a `dest_w` by `dest_h` rectangle.
pub fn check_pixels(dest_w: i32, dest_h: i32, tex_w: i32, tex_h: i32, len: usize) -> (verdict:
    PixelCheck)
    ensures
        verdict == pixel_check(dest_w as int, dest_h as int, tex_w as int, tex_h as int, len as int),
{
    if dest_w <= 0 || dest_h <= 0 || tex_w <= 0 || tex_h <= 0 {
        return PixelCheck::Empty;
    }
    assert(0 < tex_w * tex_h <= 0x7fff_ffff * 0x7fff_ffff) by (nonlinear_arith)
        requires
            0 < tex_w <= 0x7fff_ffff,
            0 < tex_h <= 0x7fff_ffff,
    ;
    let need: u128 = (tex_w as u128) * (tex_h as u128) * 4;
    if (len as u128) < need {
        PixelCheck::TooSmall
    } else {
        PixelCheck::Draw
    }
}

/// Appends the draws for `tile`, whose physical rectangle is `phys`.
pub fn plan_tile(tile: &Tile, phys: Rect, keyboard_focus: Option<u64>, out: &mut Vec<DrawCommand>)
    ensures
        final(out)@ == old(out)@ + tile_commands(*tile, phys, keyboard_focus),
{
    let shadow = phys.outset(SHADOW_PADDING);
    if shadow.w > 0 && shadow.h > 0 {
        out.push(DrawCommand::Shadow(shadow));
    }
    out.push(DrawCommand::Surface { surface: tile.surface_id(), origin: tile.position });
    let focused = match keyboard_focus {
        Some(s) => s == tile.surface_id(),
        None => false,
    };
    if focused {
        let border = phys.outset(FOCUS_BORDER);
        if border.w > 0 && border.h > 0 {
            out.push(DrawCommand::Border(border));
        }
    }
    assert(out@ =~= old(out)@ + tile_commands(*tile, phys, keyboard_focus));
}

/// The draws of one frame, tile by tile in layout order. `phys` gives each
/// tile's rectangle in physical units; tiles beyond its length are left
/// out.
pub fn plan_frame(layout: &Layout, phys: &Vec<Rect>, keyboard_focus: Option<u64>) -> (commands: Vec<
    DrawCommand,
>)
    ensures
        commands@ == frame_commands(
            layout.tiles@,
            phys@,
            keyboard_focus,
            shorter(layout.tiles@.len() as int, phys@.len() as int),
        ),
{
    let mut commands: Vec<DrawCommand> = Vec::new();
    let mut i: usize = 0;
    while i < layout.tiles.len() && i < phys.len()
        invariant
            i <= layout.tiles.len(),
            i <= phys.len(),
            commands@ == frame_commands(layout.tiles@, phys@, keyboard_focus, i as int),
        decreases layout.tiles.len() - i,
    {
        plan_tile(&layout.tiles[i], phys[i], keyboard_focus, &mut commands);
        i += 1;
    }
    commands
}

} // verus!
