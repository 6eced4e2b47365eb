//! The tiling layout: an ordered row of tiles that share the view's width.

use vstd::prelude::*;
use crate::geometry::{Point, Size, clamp_i32, box_contains, saturate};
use crate::toplevel::{Toplevel, ChromeRequest, CompositorMessage};

verus! {

/// The least width a tile is ever given.
pub const MIN_TILE_WIDTH: i32 = 100;

/// The border width of a freshly made tile.
pub const DEFAULT_BORDER_WIDTH: i32 = 2;

/// The spacing a new layout starts with, between tiles and around them.
pub const DEFAULT_SPACING: i32 = 10;

/// The placement record of one window.
#[derive(Clone, Copy, Debug, PartialEq, Eq, Structural)]
pub struct Tile {
    pub toplevel: Toplevel,
    pub position: Point,
    pub size: Size,
    pub is_focused: bool,
    pub border_width: i32,
}

/// The row of tiles, the focused index, the view and the spacing.
#[derive(Debug)]
pub struct Layout {
    pub tiles: Vec<Tile>,
    pub focused_idx: Option<usize>,
    pub view_size: Size,
    pub gap: i32,
    pub padding: i32,
}

/// The mathematical content of a [`Layout`].
pub struct LayoutView {
    pub tiles: Seq<Tile>,
    pub focused: Option<int>,
    pub view_size: Size,
    pub gap: int,
    pub padding: int,
}

/// The width of each of `count` tiles: an equal share of what the padding
/// and the gaps leave of the view, but never under [`MIN_TILE_WIDTH`].
pub open spec fn tile_width(view_w: int, padding: int, gap: int, count: int) -> int
    recommends
        count >= 1,
{
    let share = (view_w - 2 * padding - gap * (count - 1)) / count;
    if share < MIN_TILE_WIDTH {
        MIN_TILE_WIDTH as int
    } else {
        share
    }
}

/// The height of every tile: the view's height less the padding above and
/// below.
pub open spec fn tile_height(view_h: int, padding: int) -> int {
    view_h - 2 * padding
}

/// The left edge of the tile at `index` in a row of tiles `width` wide.
pub open spec fn tile_x(padding: int, gap: int, width: int, index: int) -> int {
    padding + index * (width + gap)
}

/// The first index at or after `start` whose tile belongs to `surface`.
pub open spec fn first_tile_of(tiles: Seq<Tile>, surface: u64, start: int) -> Option<int>
    decreases tiles.len() - start,
{
    if start < 0 || start >= tiles.len() {
        None
    } else if tiles[start].toplevel.surface == surface {
        Some(start)
    } else {
        first_tile_of(tiles, surface, start + 1)
    }
}

/// The first index at or after `start` whose tile holds the point `p`.
pub open spec fn first_tile_at(tiles: Seq<Tile>, p: Point, start: int) -> Option<int>
    decreases tiles.len() - start,
{
    if start < 0 || start >= tiles.len() {
        None
    } else if box_contains(tiles[start].position, tiles[start].size, p) {
        Some(start)
    } else {
        first_tile_at(tiles, p, start + 1)
    }
}

/// The window `t` once `surface` is the one activated window.
pub open spec fn activated_for(t: Toplevel, surface: u64) -> Toplevel {
    if t.surface == surface {
        t.with_activated(true)
    } else if t.activated {
        t.with_activated(false)
    } else {
        t
    }
}

impl Tile {
    /// The tile that [`Tile::new`] makes.
    pub open spec fn new_spec(toplevel: Toplevel, position: Point, size: Size) -> Tile {
        Tile {
            toplevel,
            position,
            size,
            is_focused: false,
            border_width: DEFAULT_BORDER_WIDTH,
        }
    }

    /// Whether the tile's half-open box holds the point `p`.
    pub open spec fn contains(self, p: Point) -> bool {
        box_contains(self.position, self.size, p)
    }

    /// A tile for `toplevel` at `position` with extent `size`, unfocused.
    pub fn new(toplevel: Toplevel, position: Point, size: Size) -> (t: Tile)
        ensures
            t == Tile::new_spec(toplevel, position, size),
    {
        Tile { toplevel, position, size, is_focused: false, border_width: DEFAULT_BORDER_WIDTH }
    }

    /// The identity of the surface the tile shows.
    pub fn surface_id(&self) -> (id: u64)
        ensures
            id == self.toplevel.surface,
    {
        self.toplevel.surface_id()
    }

    /// The tile's position and extent.
    pub fn bounds(&self) -> (b: (Point, Size))
        ensures
            b.0 == self.position,
            b.1 == self.size,
    {
        (self.position, self.size)
    }

    /// Whether the point lies in the tile: left and top edges count, right
    /// and bottom edges do not.
    pub fn contains_point(&self, point: Point) -> (inside: bool)
        ensures
            inside == self.contains(point),
    {
        let x: i64 = point.x as i64;
        let y: i64 = point.y as i64;
        x >= self.position.x as i64
            && x < self.position.x as i64 + self.size.w as i64
            && y >= self.position.y as i64
            && y < self.position.y as i64 + self.size.h as i64
    }

    /// Asks the tile's window to take the tile's size.
    pub fn request_size(&mut self)
        ensures
            *final(self) == (Tile {
                toplevel: old(self).toplevel.with_size(old(self).size),
                ..*old(self)
            }),
    {
        self.toplevel.request_size(self.size);
    }
}

impl LayoutView {
    /// The spacing is not negative and the focused index names a tile.
    pub open spec fn wf(self) -> bool {
        &&& 0 <= self.gap <= i32::MAX
        &&& 0 <= self.padding <= i32::MAX
        &&& match self.focused {
            Some(i) => 0 <= i < self.tiles.len(),
            None => true,
        }
    }

    /// The extent each of `count` tiles gets; with no tile, the whole view.
    pub open spec fn cell_size(self, count: int) -> Size {
        if count <= 0 {
            self.view_size
        } else {
            Size {
                w: clamp_i32(tile_width(self.view_size.w as int, self.padding, self.gap, count)) as i32,
                h: clamp_i32(tile_height(self.view_size.h as int, self.padding)) as i32,
            }
        }
    }

    /// Where the tile at index `i` stands once the row is arranged.
    pub open spec fn cell_origin(self, i: int) -> Point {
        Point {
            x: clamp_i32(
                tile_x(self.padding, self.gap, self.cell_size(self.tiles.len() as int).w as int, i),
            ) as i32,
            y: self.padding as i32,
        }
    }

    /// The tile at index `i` as an arrangement leaves it: placed, sized,
    /// marked if focused, and its window asked to take that size.
    pub open spec fn placed(self, i: int) -> Tile {
        let size = self.cell_size(self.tiles.len() as int);
        Tile {
            toplevel: self.tiles[i].toplevel.with_size(size),
            position: self.cell_origin(i),
            size,
            is_focused: self.focused == Some(i),
            border_width: self.tiles[i].border_width,
        }
    }

    /// The layout with every tile arranged.
    pub open spec fn relayout(self) -> LayoutView {
        LayoutView { tiles: Seq::new(self.tiles.len(), |i: int| self.placed(i)), ..self }
    }

    /// The layout with the view set to `size` and every tile arranged.
    pub open spec fn set_view_size(self, size: Size) -> LayoutView {
        (LayoutView { view_size: size, ..self }).relayout()
    }

    /// The layout with a tile for `toplevel` appended, focused, and every
    /// tile arranged.
    pub open spec fn add(self, toplevel: Toplevel) -> LayoutView {
        let tile = Tile::new_spec(
            toplevel,
            Point { x: self.padding as i32, y: self.padding as i32 },
            self.cell_size((self.tiles.len() + 1) as int),
        );
        (LayoutView {
            tiles: self.tiles.push(tile),
            focused: Some(self.tiles.len() as int),
            ..self
        }).relayout()
    }

    /// The focused index brought back into a row of `count` tiles.
    pub open spec fn clamp_focus(focused: Option<int>, count: int) -> Option<int> {
        match focused {
            Some(f) => if f >= count {
                if count == 0 {
                    None
                } else {
                    Some(count - 1)
                }
            } else {
                Some(f)
            },
            None => None,
        }
    }

    /// The layout without the first tile of `surface`, the focus clamped
    /// and every tile arranged; unchanged where `surface` has no tile.
    pub open spec fn remove(self, surface: u64) -> LayoutView {
        match first_tile_of(self.tiles, surface, 0) {
            Some(i) => (LayoutView {
                tiles: self.tiles.remove(i),
                focused: Self::clamp_focus(self.focused, self.tiles.len() - 1),
                ..self
            }).relayout(),
            None => self,
        }
    }

    /// The layout with the focus moved one tile on, wrapping at the end.
    pub open spec fn focus_next(self) -> LayoutView {
        if self.tiles.len() == 0 {
            self
        } else {
            match self.focused {
                Some(i) => LayoutView { focused: Some((i + 1) % (self.tiles.len() as int)), ..self },
                None => LayoutView { focused: Some(0), ..self },
            }
        }
    }

    /// The layout with the focus moved one tile back, wrapping at the start.
    pub open spec fn focus_prev(self) -> LayoutView {
        if self.tiles.len() == 0 {
            self
        } else {
            match self.focused {
                Some(i) => LayoutView {
                    focused: Some(if i == 0 { self.tiles.len() - 1 } else { i - 1 }),
                    ..self
                },
                None => LayoutView { focused: Some(self.tiles.len() - 1), ..self },
            }
        }
    }

    /// The layout after `k` steps of [`LayoutView::focus_next`].
    pub open spec fn focus_next_times(self, k: nat) -> LayoutView
        decreases k,
    {
        if k == 0 {
            self
        } else {
            self.focus_next().focus_next_times((k - 1) as nat)
        }
    }

    /// The layout with the focus on the first tile that holds `p`;
    /// unchanged where no tile does.
    pub open spec fn focus_at(self, p: Point) -> LayoutView {
        match first_tile_at(self.tiles, p, 0) {
            Some(i) => LayoutView { focused: Some(i), ..self },
            None => self,
        }
    }

    /// The focused tile, if the focused index names one.
    pub open spec fn focused_tile(self) -> Option<Tile> {
        match self.focused {
            Some(i) => if 0 <= i < self.tiles.len() {
                Some(self.tiles[i])
            } else {
                None
            },
            None => None,
        }
    }

    /// The layout with the window of `surface` activated and every other
    /// activated window deactivated; windows that do not change are owed
    /// nothing.
    pub open spec fn activate(self, surface: u64) -> LayoutView {
        LayoutView {
            tiles: Seq::new(
                self.tiles.len(),
                |i: int| Tile { toplevel: activated_for(self.tiles[i].toplevel, surface), ..self.tiles[i] },
            ),
            ..self
        }
    }

    /// The layout with every window asked to take `size`.
    pub open spec fn request_size_all(self, size: Size) -> LayoutView {
        LayoutView {
            tiles: Seq::new(
                self.tiles.len(),
                |i: int| Tile { toplevel: self.tiles[i].toplevel.with_size(size), ..self.tiles[i] },
            ),
            ..self
        }
    }

    /// The layout with `request` granted to the window of the first tile of
    /// `surface`; unchanged where `surface` has no tile.
    pub open spec fn grant(self, surface: u64, request: ChromeRequest) -> LayoutView {
        match first_tile_of(self.tiles, surface, 0) {
            Some(i) => LayoutView {
                tiles: self.tiles.update(
                    i,
                    Tile { toplevel: self.tiles[i].toplevel.granted(request), ..self.tiles[i] },
                ),
                ..self
            },
            None => self,
        }
    }

    /// Every tile stands where an arrangement puts it, with its size.
    pub open spec fn arranged(self) -> bool {
        forall|i: int|
            0 <= i < self.tiles.len() ==> {
                &&& (#[trigger] self.tiles[i]).position == self.cell_origin(i)
                &&& self.tiles[i].size == self.cell_size(self.tiles.len() as int)
            }
    }
}

impl Default for Layout {
    /// An empty layout with no view and no spacing.
    fn default() -> (l: Layout)
        ensures
            l.wf(),
            l@ == (LayoutView {
                tiles: Seq::empty(),
                focused: None,
                view_size: Size { w: 0, h: 0 },
                gap: 0,
                padding: 0,
            }),
    {
        Layout {
            tiles: Vec::new(),
            focused_idx: None,
            view_size: Size { w: 0, h: 0 },
            gap: 0,
            padding: 0,
        }
    }
}

impl View for Layout {
    type V = LayoutView;

    open spec fn view(&self) -> LayoutView {
        LayoutView {
            tiles: self.tiles@,
            focused: match self.focused_idx {
                Some(i) => Some(i as int),
                None => None,
            },
            view_size: self.view_size,
            gap: self.gap as int,
            padding: self.padding as int,
        }
    }
}

impl Layout {
    /// The invariant of a layout: see [`LayoutView::wf`].
    pub open spec fn wf(&self) -> bool {
        self@.wf()
    }

    /// Decides whether the invariant holds, for callers that cannot know.
    pub fn is_well_formed(&self) -> (ok: bool)
        ensures
            ok == self.wf(),
    {
        self.gap >= 0 && self.padding >= 0 && match self.focused_idx {
            Some(i) => i < self.tiles.len(),
            None => true,
        }
    }

    /// An empty layout for a view of `width` by `height`.
    pub fn new(width: i32, height: i32) -> (l: Layout)
        ensures
            l.wf(),
            l@ == (LayoutView {
                tiles: Seq::empty(),
                focused: None,
                view_size: Size { w: width, h: height },
                gap: DEFAULT_SPACING as int,
                padding: DEFAULT_SPACING as int,
            }),
    {
        Layout {
            tiles: Vec::new(),
            focused_idx: None,
            view_size: Size { w: width, h: height },
            gap: DEFAULT_SPACING,
            padding: DEFAULT_SPACING,
        }
    }

    /// Sets the view's size and arranges the tiles in it.
    pub fn set_view_size(&mut self, width: i32, height: i32)
        requires
            old(self).wf(),
        ensures
            final(self).wf(),
            final(self)@ == old(self)@.set_view_size(Size { w: width, h: height }),
    {
        self.view_size = Size { w: width, h: height };
        self.relayout();
    }

    /// Appends a tile for `toplevel`, focuses it and arranges the row.
    pub fn add_tile(&mut self, toplevel: Toplevel)
        requires
            old(self).wf(),
            old(self).tiles.len() < usize::MAX,
        ensures
            final(self).wf(),
            final(self)@ == old(self)@.add(toplevel),
    {
        let position = self.calculate_new_tile_position();
        let size = self.calculate_tile_size(self.tiles.len() + 1);
        let tile = Tile::new(toplevel, position, size);
        self.tiles.push(tile);
        self.focused_idx = Some(self.tiles.len() - 1);
        self.relayout();
    }

    /// Removes the first tile of `surface`, clamps the focus and arranges
    /// the row; does nothing where `surface` has no tile.
    pub fn remove_tile(&mut self, surface_id: u64)
        requires
            old(self).wf(),
        ensures
            final(self).wf(),
            final(self)@ == old(self)@.remove(surface_id),
    {
        if let Some(idx) = self.position_of(surface_id) {
            self.tiles.remove(idx);
            if let Some(focused) = self.focused_idx {
                if focused >= self.tiles.len() {
                    self.focused_idx = if self.tiles.len() == 0 {
                        None
                    } else {
                        Some(self.tiles.len() - 1)
                    };
                }
            }
            self.relayout();
        }
    }

    /// The index of the first tile of `surface`.
    pub fn position_of(&self, surface_id: u64) -> (found: Option<usize>)
        ensures
            match found {
                Some(i) => first_tile_of(self.tiles@, surface_id, 0) == Some(i as int)
                    && i < self.tiles.len(),
                None => first_tile_of(self.tiles@, surface_id, 0).is_none(),
            },
    {
        let mut i: usize = 0;
        while i < self.tiles.len()
            invariant
                i <= self.tiles.len(),
                first_tile_of(self.tiles@, surface_id, 0) == first_tile_of(
                    self.tiles@,
                    surface_id,
                    i as int,
                ),
            decreases self.tiles.len() - i,
        {
            if self.tiles[i].surface_id() == surface_id {
                return Some(i);
            }
            i += 1;
        }
        None
    }

    /// The extent each of `count` tiles gets; with no tile, the whole view.
    pub fn calculate_tile_size(&self, count: usize) -> (size: Size)
        requires
            self.wf(),
        ensures
            size == self@.cell_size(count as int),
            count >= 1 ==> size.w == tile_width(
                self.view_size.w as int,
                self.padding as int,
                self.gap as int,
                count as int,
            ),
    {
        if count == 0 {
            return self.view_size;
        }
        let others: i128 = count as i128 - 1;
        assert(0 <= self.gap * others <= 0x7fff_ffff * 0xffff_ffff_ffff_ffff) by (nonlinear_arith)
            requires
                0 <= self.gap <= 0x7fff_ffff,
                0 <= others <= 0xffff_ffff_ffff_ffff,
        ;
        let total: i128 = self.view_size.w as i128 - 2 * (self.padding as i128) - (self.gap as i128)
            * others;
        let height: i32 = saturate(self.view_size.h as i64 - 2 * (self.padding as i64));
        proof {
            lemma_share_bounds(total as int, count as int);
        }
        let width: i32 = if total <= 0 {
            MIN_TILE_WIDTH
        } else {
            let share: u128 = (total as u128) / (count as u128);
            if share < 100 {
                MIN_TILE_WIDTH
            } else {
                share as i32
            }
        };
        Size { w: width, h: height }
    }

    /// Where a new tile stands before the row is arranged: the top left
    /// corner inside the padding.
    pub fn calculate_new_tile_position(&self) -> (p: Point)
        ensures
            p == (Point { x: self.padding, y: self.padding }),
    {
        Point { x: self.padding, y: self.padding }
    }

    /// Arranges the tiles left to right in equal shares of the view, marks
    /// the focused one, and asks every window to take its tile's size.
    pub fn relayout(&mut self)
        requires
            old(self).wf(),
        ensures
            final(self).wf(),
            final(self)@ == old(self)@.relayout(),
    {
        let count = self.tiles.len();
        if count == 0 {
            assert(self@.tiles =~= self@.relayout().tiles);
            return ;
        }
        let tile_size = self.calculate_tile_size(count);
        let step: i64 = tile_size.w as i64 + self.gap as i64;
        let mut x: i64 = self.padding as i64;
        let ghost before = self@;
        let mut i: usize = 0;
        while i < count
            invariant
                i <= count,
                count == self.tiles.len(),
                before.wf(),
                before.tiles.len() == count,
                self.focused_idx == old(self).focused_idx,
                self.view_size == old(self).view_size,
                self.gap == old(self).gap,
                self.padding == old(self).padding,
                before == old(self)@,
                tile_size == before.cell_size(count as int),
                step == tile_size.w + self.gap,
                step >= 100,
                x == clamp_i32(tile_x(before.padding, before.gap, tile_size.w as int, i as int)),
                0 <= x,
                forall|j: int| 0 <= j < i ==> self.tiles@[j] == before.placed(j),
                forall|j: int| i <= j < count ==> self.tiles@[j] == before.tiles[j],
            decreases count - i,
        {
            let mut tile = self.tiles[i];
            tile.position = Point { x: saturate(x), y: self.padding };
            tile.size = tile_size;
            tile.is_focused = match self.focused_idx {
                Some(f) => f == i,
                None => false,
            };
            tile.request_size();
            self.tiles.set(i, tile);
            proof {
                assert((i + 1) * step == i * step + step) by (nonlinear_arith);
            }
            x = if x + step > 2147483647i64 {
                2147483647i64
            } else {
                x + step
            };
            i += 1;
        }
        assert(self@.tiles =~= before.relayout().tiles);
    }

    /// Focuses the first tile that holds `point` and returns it; leaves the
    /// focus alone where no tile does.
    pub fn focus_at(&mut self, point: Point) -> (hit: Option<&Tile>)
        requires
            old(self).wf(),
        ensures
            final(self).wf(),
            final(self)@ == old(self)@.focus_at(point),
            match first_tile_at(old(self).tiles@, point, 0) {
                Some(i) => hit == Some(&old(self).tiles@[i]),
                None => hit.is_none(),
            },
    {
        let mut i: usize = 0;
        while i < self.tiles.len()
            invariant
                i <= self.tiles.len(),
                *self == *old(self),
                self.wf(),
                first_tile_at(self.tiles@, point, 0) == first_tile_at(self.tiles@, point, i as int),
            decreases self.tiles.len() - i,
        {
            if self.tiles[i].contains_point(point) {
                self.focused_idx = Some(i);
                return Some(&self.tiles[i]);
            }
            i += 1;
        }
        None
    }

    /// The focused tile, if any.
    pub fn focused_tile(&self) -> (tile: Option<&Tile>)
        ensures
            match self@.focused_tile() {
                Some(t) => tile == Some(&t),
                None => tile.is_none(),
            },
    {
        match self.focused_idx {
            Some(i) => if i < self.tiles.len() {
                Some(&self.tiles[i])
            } else {
                None
            },
            None => None,
        }
    }

    /// The first tile of `surface`, if it has one.
    pub fn tile_for_surface(&self, surface_id: u64) -> (tile: Option<&Tile>)
        ensures
            match first_tile_of(self.tiles@, surface_id, 0) {
                Some(i) => tile == Some(&self.tiles@[i]),
                None => tile.is_none(),
            },
    {
        match self.position_of(surface_id) {
            Some(i) => Some(&self.tiles[i]),
            None => None,
        }
    }

    /// Activates the window of `surface` and deactivates every other
    /// activated window.
    pub fn activate(&mut self, surface: u64)
        requires
            old(self).wf(),
        ensures
            final(self).wf(),
            final(self)@ == old(self)@.activate(surface),
    {
        let count = self.tiles.len();
        let mut i: usize = 0;
        while i < count
            invariant
                i <= count,
                count == self.tiles.len(),
                count == old(self).tiles.len(),
                old(self).wf(),
                self.focused_idx == old(self).focused_idx,
                self.view_size == old(self).view_size,
                self.gap == old(self).gap,
                self.padding == old(self).padding,
                forall|j: int| 0 <= j < i ==> self.tiles@[j] == old(self)@.activate(surface).tiles[j],
                forall|j: int| i <= j < count ==> self.tiles@[j] == old(self).tiles@[j],
            decreases count - i,
        {
            let mut tile = self.tiles[i];
            if tile.toplevel.surface_id() == surface {
                tile.toplevel.set_activated(true);
            } else if tile.toplevel.activated {
                tile.toplevel.set_activated(false);
            }
            self.tiles.set(i, tile);
            i += 1;
        }
        assert(self@.tiles =~= old(self)@.activate(surface).tiles);
    }

    /// Asks every window to take `size`.
    pub fn request_size_all(&mut self, size: Size)
        requires
            old(self).wf(),
        ensures
            final(self).wf(),
            final(self)@ == old(self)@.request_size_all(size),
    {
        let count = self.tiles.len();
        let mut i: usize = 0;
        while i < count
            invariant
                i <= count,
                count == self.tiles.len(),
                count == old(self).tiles.len(),
                old(self).wf(),
                self.focused_idx == old(self).focused_idx,
                self.view_size == old(self).view_size,
                self.gap == old(self).gap,
                self.padding == old(self).padding,
                forall|j: int|
                    0 <= j < i ==> self.tiles@[j] == old(self)@.request_size_all(size).tiles[j],
                forall|j: int| i <= j < count ==> self.tiles@[j] == old(self).tiles@[j],
            decreases count - i,
        {
            let mut tile = self.tiles[i];
            tile.toplevel.request_size(size);
            self.tiles.set(i, tile);
            i += 1;
        }
        assert(self@.tiles =~= old(self)@.request_size_all(size).tiles);
    }

    /// Grants `request` to the window of `surface`, if it has a tile, and
    /// says what the host window is to do about it either way.
    pub fn grant(&mut self, surface: u64, request: ChromeRequest) -> (msg: CompositorMessage)
        requires
            old(self).wf(),
        ensures
            final(self).wf(),
            final(self)@ == old(self)@.grant(surface, request),
            msg == request.message(),
    {
        match self.position_of(surface) {
            Some(i) => {
                let mut tile = self.tiles[i];
                let msg = tile.toplevel.grant(request);
                self.tiles.set(i, tile);
                msg
            },
            None => {
                let mut unused = Toplevel::new(surface);
                unused.grant(request)
            },
        }
    }

    /// Moves the focus one tile on, wrapping; with no focus yet, to the
    /// first tile. Does nothing on an empty layout.
    pub fn focus_next(&mut self)
        requires
            old(self).wf(),
        ensures
            final(self).wf(),
            final(self)@ == old(self)@.focus_next(),
    {
        if self.tiles.len() == 0 {
            return ;
        }
        match self.focused_idx {
            Some(idx) => {
                self.focused_idx = Some((idx + 1) % self.tiles.len());
            },
            None => {
                self.focused_idx = Some(0);
            },
        }
    }

    /// Moves the focus one tile back, wrapping; with no focus yet, to the
    /// last tile. Does nothing on an empty layout.
    pub fn focus_prev(&mut self)
        requires
            old(self).wf(),
        ensures
            final(self).wf(),
            final(self)@ == old(self)@.focus_prev(),
    {
        if self.tiles.len() == 0 {
            return ;
        }
        match self.focused_idx {
            Some(idx) => {
                self.focused_idx = Some(
                    if idx == 0 {
                        self.tiles.len() - 1
                    } else {
                        idx - 1
                    },
                );
            },
            None => {
                self.focused_idx = Some(self.tiles.len() - 1);
            },
        }
    }
}

/// An equal share of a positive total lies between zero and the total; an
/// equal share of a total that is not positive is not positive.
proof fn lemma_share_bounds(total: int, count: int)
    requires
        count >= 1,
    ensures
        total <= 0 ==> total / count <= 0,
        total > 0 ==> 0 <= total / count <= total,
{
    if total <= 0 {
        assert(total / count <= 0) by (nonlinear_arith)
            requires
                total <= 0,
                count >= 1,
        ;
    } else {
        assert(0 <= total / count <= total) by (nonlinear_arith)
            requires
                total > 0,
                count >= 1,
        ;
    }
}

} // verus!
