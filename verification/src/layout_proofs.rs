//! What holds of the tiling layout: the tiles fit the view and do not
//! overlap, adding and removing cancel, and the focus cycles.

use vstd::prelude::*;
use crate::geometry::{Point, Size};
use crate::layout::{LayoutView, Tile, MIN_TILE_WIDTH, first_tile_at, first_tile_of, tile_width};
use crate::toplevel::Toplevel;

verus! {

/// What [`first_tile_of`] finds is the first match at or after `start`, and
/// it finds nothing only where nothing matches.
pub proof fn lemma_first_tile_of(tiles: Seq<Tile>, surface: u64, start: int)
    requires
        0 <= start,
    ensures
        match first_tile_of(tiles, surface, start) {
            Some(i) => {
                &&& start <= i < tiles.len()
                &&& tiles[i].toplevel.surface == surface
                &&& forall|j: int| start <= j < i ==> tiles[j].toplevel.surface != surface
            },
            None => forall|j: int| start <= j < tiles.len() ==> tiles[j].toplevel.surface != surface,
        },
    decreases tiles.len() - start,
{
    if start < tiles.len() && tiles[start].toplevel.surface != surface {
        lemma_first_tile_of(tiles, surface, start + 1);
    }
}

/// What [`first_tile_at`] finds is the first tile at or after `start` that
/// holds the point, and it finds nothing only where no tile holds it.
pub proof fn lemma_first_tile_at(tiles: Seq<Tile>, p: Point, start: int)
    requires
        0 <= start,
    ensures
        match first_tile_at(tiles, p, start) {
            Some(i) => {
                &&& start <= i < tiles.len()
                &&& tiles[i].contains(p)
                &&& forall|j: int| start <= j < i ==> !tiles[j].contains(p)
            },
            None => forall|j: int| start <= j < tiles.len() ==> !tiles[j].contains(p),
        },
    decreases tiles.len() - start,
{
    if start < tiles.len() && !tiles[start].contains(p) {
        lemma_first_tile_at(tiles, p, start + 1);
    }
}

/// No tile is ever narrower than [`MIN_TILE_WIDTH`]. Where the equal share
/// reaches that minimum, the `count` tiles with the gaps between them and
/// the padding on both sides fit in the view's width, and leave less than
/// one unit per tile unused.
pub proof fn lemma_tiles_fit(view_w: int, padding: int, gap: int, count: int)
    requires
        count >= 1,
    ensures
        tile_width(view_w, padding, gap, count) >= MIN_TILE_WIDTH,
        (view_w - 2 * padding - gap * (count - 1)) / count >= MIN_TILE_WIDTH ==> {
            &&& count * tile_width(view_w, padding, gap, count) + (count - 1) * gap + 2 * padding
                <= view_w
            &&& view_w < count * tile_width(view_w, padding, gap, count) + (count - 1) * gap + 2
                * padding + count
        },
        (view_w - 2 * padding - gap * (count - 1)) / count < MIN_TILE_WIDTH ==> count * tile_width(
            view_w,
            padding,
            gap,
            count,
        ) + (count - 1) * gap + 2 * padding > view_w,
{
    let total = view_w - 2 * padding - gap * (count - 1);
    vstd::arithmetic::div_mod::lemma_fundamental_div_mod(total, count);
    vstd::arithmetic::div_mod::lemma_mod_bound(total, count);
    if total / count < MIN_TILE_WIDTH {
        assert(count * (total / count) <= count * 99) by (nonlinear_arith)
            requires
                total / count <= 99,
                count >= 1,
        ;
    }
}

/// In an arranged row whose tiles fit the view, every tile stands at its
/// exact place, each tile ends one gap before the next begins, and the last
/// one ends at least the padding before the view's right edge.
pub proof fn lemma_tiles_disjoint(v: LayoutView, i: int, j: int)
    requires
        v.wf(),
        0 <= i < j < v.tiles.len(),
        (v.view_size.w - 2 * v.padding - v.gap * (v.tiles.len() - 1)) / (v.tiles.len() as int)
            >= MIN_TILE_WIDTH,
    ensures
        v.relayout().arranged(),
        v.relayout().tiles[i].position.x + v.relayout().tiles[i].size.w + v.gap
            <= v.relayout().tiles[j].position.x,
        v.relayout().tiles[j].position.x + v.relayout().tiles[j].size.w + v.padding
            <= v.view_size.w,
        v.relayout().tiles[i].size.w >= MIN_TILE_WIDTH,
{
    let n = v.tiles.len() as int;
    let w = tile_width(v.view_size.w as int, v.padding, v.gap, n);
    lemma_tiles_fit(v.view_size.w as int, v.padding, v.gap, n);
    let step = w + v.gap;
    assert(n * w + (n - 1) * v.gap == (n - 1) * step + w) by (nonlinear_arith)
        requires
            step == w + v.gap,
    ;
    assert(i * step + step <= j * step && j * step <= (n - 1) * step && 0 <= i * step)
        by (nonlinear_arith)
        requires
            0 <= i < j < n,
            step >= 0,
    ;
    assert(v.relayout().tiles[i] == v.placed(i));
    assert(v.relayout().tiles[j] == v.placed(j));
    assert forall|k: int| 0 <= k < v.relayout().tiles.len() implies {
        &&& (#[trigger] v.relayout().tiles[k]).position == v.relayout().cell_origin(k)
        &&& v.relayout().tiles[k].size == v.relayout().cell_size(v.relayout().tiles.len() as int)
    } by {
        assert(v.relayout().tiles[k] == v.placed(k));
    }
}

/// Arranging an arranged row changes nothing.
pub proof fn lemma_relayout_idempotent(v: LayoutView)
    ensures
        v.relayout().relayout() == v.relayout(),
        v.relayout().arranged(),
{
    let once = v.relayout();
    assert(once.cell_size(once.tiles.len() as int) == v.cell_size(v.tiles.len() as int));
    assert forall|i: int| 0 <= i < once.tiles.len() implies once.placed(i) == once.tiles[i] by {
        assert(once.tiles[i] == v.placed(i));
        assert(once.cell_origin(i) == v.cell_origin(i));
    }
    assert(once.relayout().tiles =~= once.tiles);
    assert forall|i: int| 0 <= i < once.tiles.len() implies {
        &&& (#[trigger] once.tiles[i]).position == once.cell_origin(i)
        &&& once.tiles[i].size == once.cell_size(once.tiles.len() as int)
    } by {
        assert(once.tiles[i] == v.placed(i));
        assert(once.cell_origin(i) == v.cell_origin(i));
    }
}

/// A single tile gets the whole view less the padding on every side, as
/// long as that leaves it the least width.
pub proof fn lemma_single_tile_fills_view(v: LayoutView)
    requires
        v.wf(),
        v.tiles.len() == 1,
        v.view_size.w - 2 * v.padding >= MIN_TILE_WIDTH,
        v.view_size.h - 2 * v.padding >= i32::MIN,
    ensures
        v.relayout().tiles[0].position == (Point { x: v.padding as i32, y: v.padding as i32 }),
        v.relayout().tiles[0].size.w == v.view_size.w - 2 * v.padding,
        v.relayout().tiles[0].size.h == v.view_size.h - 2 * v.padding,
{
    assert(0 * (tile_width(v.view_size.w as int, v.padding, v.gap, 1) + v.gap) == 0)
        by (nonlinear_arith);
    assert(v.relayout().tiles[0] == v.placed(0));
}

/// A new view size changes nothing but the view where there is no tile.
pub proof fn lemma_resize_empty(v: LayoutView, size: Size)
    requires
        v.tiles.len() == 0,
    ensures
        v.set_view_size(size) == (LayoutView { view_size: size, ..v }),
{
    assert(v.set_view_size(size).tiles =~= v.tiles);
}

/// Removing the tile of a surface that has none changes nothing.
pub proof fn lemma_remove_absent(v: LayoutView, surface: u64)
    requires
        forall|i: int| 0 <= i < v.tiles.len() ==> v.tiles[i].toplevel.surface != surface,
    ensures
        v.remove(surface) == v,
{
    lemma_first_tile_of(v.tiles, surface, 0);
}

/// Removing the focused tile moves the focus to the tile that takes its
/// place, or to the new last tile where the focused tile was the last.
pub proof fn lemma_remove_focused(v: LayoutView, i: int)
    requires
        v.wf(),
        v.focused == Some(i),
        forall|j: int| 0 <= j < i ==> v.tiles[j].toplevel.surface != v.tiles[i].toplevel.surface,
    ensures
        v.remove(v.tiles[i].toplevel.surface).tiles.len() == v.tiles.len() - 1,
        v.remove(v.tiles[i].toplevel.surface).focused == (if v.tiles.len() == 1 {
            None
        } else if i == v.tiles.len() - 1 {
            Some(i - 1)
        } else {
            Some(i)
        }),
        v.remove(v.tiles[i].toplevel.surface).wf(),
{
    lemma_first_tile_of(v.tiles, v.tiles[i].toplevel.surface, 0);
}

/// Adding a tile and at once removing the tile of the same surface leaves
/// as many tiles as there were, with the focus on the last of them.
pub proof fn lemma_add_then_remove_count(v: LayoutView, toplevel: Toplevel)
    requires
        v.wf(),
    ensures
        v.add(toplevel).remove(toplevel.surface).tiles.len() == v.tiles.len(),
        v.add(toplevel).remove(toplevel.surface).focused == (if v.tiles.len() == 0 {
            None
        } else {
            Some(v.tiles.len() - 1)
        }),
        v.add(toplevel).remove(toplevel.surface).wf(),
{
    let a = v.add(toplevel);
    let n = v.tiles.len() as int;
    assert(a.tiles[n].toplevel.surface == toplevel.surface);
    lemma_first_tile_of(a.tiles, toplevel.surface, 0);
}

/// Adding a tile and at once removing the tile of the same surface gives
/// back the focus there was, where that focus was on the last tile (or the
/// layout was empty and nothing was focused).
pub proof fn lemma_add_then_remove_focus(v: LayoutView, toplevel: Toplevel)
    requires
        v.wf(),
        v.focused == (if v.tiles.len() == 0 {
            None::<int>
        } else {
            Some(v.tiles.len() - 1)
        }),
    ensures
        v.add(toplevel).remove(toplevel.surface).tiles.len() == v.tiles.len(),
        v.add(toplevel).remove(toplevel.surface).focused == v.focused,
{
    lemma_add_then_remove_count(v, toplevel);
}

/// Adding a tile for a surface that has none yet and at once removing it
/// gives back the same windows in the same order.
pub proof fn lemma_add_then_remove_order(v: LayoutView, toplevel: Toplevel, i: int)
    requires
        v.wf(),
        first_tile_of(v.tiles, toplevel.surface, 0).is_none(),
        0 <= i < v.tiles.len(),
    ensures
        v.add(toplevel).remove(toplevel.surface).tiles.len() == v.tiles.len(),
        v.add(toplevel).remove(toplevel.surface).tiles[i].toplevel.surface
            == v.tiles[i].toplevel.surface,
        v.add(toplevel).remove(toplevel.surface).tiles[i].border_width == v.tiles[i].border_width,
{
    let a = v.add(toplevel);
    let n = v.tiles.len() as int;
    lemma_first_tile_of(v.tiles, toplevel.surface, 0);
    lemma_first_tile_of(a.tiles, toplevel.surface, 0);
    assert(a.tiles[n].toplevel.surface == toplevel.surface);
    assert forall|j: int| 0 <= j < n implies a.tiles[j].toplevel.surface
        != toplevel.surface by {
        assert(a.tiles[j].toplevel.surface == v.tiles[j].toplevel.surface);
    }
}

/// After `k` steps forward from a focused tile the focus is `k` tiles on,
/// counted round the row, and nothing else has changed.
pub proof fn lemma_focus_next_times(v: LayoutView, k: nat)
    requires
        v.wf(),
        v.focused.is_some(),
    ensures
        v.focus_next_times(k) == (LayoutView {
            focused: Some((v.focused.unwrap() + k) % (v.tiles.len() as int)),
            ..v
        }),
    decreases k,
{
    let n = v.tiles.len() as int;
    let i = v.focused.unwrap();
    if k == 0 {
        vstd::arithmetic::div_mod::lemma_small_mod(i as nat, n as nat);
    } else {
        let step = v.focus_next();
        vstd::arithmetic::div_mod::lemma_mod_bound(i + 1, n);
        lemma_focus_next_times(step, (k - 1) as nat);
        vstd::arithmetic::div_mod::lemma_add_mod_noop_right(k - 1, i + 1, n);
    }
}

/// Stepping the focus forward once for every tile brings it back to the
/// tile it started from.
pub proof fn lemma_focus_next_cycle(v: LayoutView)
    requires
        v.wf(),
        v.focused.is_some(),
    ensures
        v.focus_next_times(v.tiles.len()) == v,
{
    let n = v.tiles.len() as int;
    let i = v.focused.unwrap();
    lemma_focus_next_times(v, v.tiles.len());
    vstd::arithmetic::div_mod::lemma_mod_add_multiples_vanish(i, n);
    vstd::arithmetic::div_mod::lemma_small_mod(i as nat, n as nat);
}

/// A step forward and a step back cancel, from any focused tile.
pub proof fn lemma_focus_next_prev(v: LayoutView)
    requires
        v.wf(),
        v.focused.is_some(),
    ensures
        v.focus_next().focus_prev() == v,
        v.focus_prev().focus_next() == v,
{
    let n = v.tiles.len() as int;
    let i = v.focused.unwrap();
    if i + 1 < n {
        vstd::arithmetic::div_mod::lemma_small_mod((i + 1) as nat, n as nat);
    } else {
        vstd::arithmetic::div_mod::lemma_mod_add_multiples_vanish(0, n);
        vstd::arithmetic::div_mod::lemma_small_mod(0, n as nat);
    }
    if i == 0 {
        vstd::arithmetic::div_mod::lemma_mod_add_multiples_vanish(0, n);
        vstd::arithmetic::div_mod::lemma_small_mod(0, n as nat);
    } else {
        vstd::arithmetic::div_mod::lemma_small_mod(i as nat, n as nat);
    }
}

/// Once a window is activated, a tile's window is activated exactly if it
/// is that surface's: no two surfaces are activated at a time.
pub proof fn lemma_single_activation(v: LayoutView, surface: u64, i: int)
    requires
        0 <= i < v.tiles.len(),
    ensures
        v.activate(surface).tiles.len() == v.tiles.len(),
        v.activate(surface).tiles[i].toplevel.activated <==> v.tiles[i].toplevel.surface == surface,
        v.activate(surface).tiles[i].toplevel.surface == v.tiles[i].toplevel.surface,
        v.activate(surface).tiles[i].position == v.tiles[i].position,
        v.activate(surface).tiles[i].size == v.tiles[i].size,
{
}

/// Asking twice for the tile at one point gives the same tile and the same
/// layout as asking once: the question moves the focus and no tile.
pub proof fn lemma_focus_at_idempotent(v: LayoutView, p: Point)
    ensures
        first_tile_at(v.focus_at(p).tiles, p, 0) == first_tile_at(v.tiles, p, 0),
        v.focus_at(p).focus_at(p) == v.focus_at(p),
{
}

} // verus!
