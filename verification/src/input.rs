//! Pointer routing: which tile is under the pointer, click-to-focus and
//! drag-to-move.

use vstd::prelude::*;
use std::collections::HashMap;
use crate::geometry::{Point, clamp_i32, saturate};
use crate::layout::{Layout, LayoutView, Tile, MIN_TILE_WIDTH, first_tile_at};
use crate::layout_proofs::{lemma_first_tile_at, lemma_tiles_disjoint};

verus! {

broadcast use vstd::std_specs::hash::group_hash_axioms;

/// The event code of the primary (left) button.
pub const BTN_LEFT: u32 = 0x110;

/// The event code of the secondary (right) button.
pub const BTN_RIGHT: u32 = 0x111;

/// The event code of the middle button.
pub const BTN_MIDDLE: u32 = 0x112;

/// What a wheel's delta is multiplied by: ten logical pixels a step,
/// against the direction of the wheel.
pub const WHEEL_FACTOR: i32 = -10;

/// What a continuous source's delta is multiplied by: it is in logical
/// pixels already, and only turned round.
pub const FINGER_FACTOR: i32 = -1;

/// A button of the host's pointer device.
#[derive(Clone, Copy, Debug, PartialEq, Eq, Structural)]
pub enum MouseButton {
    Left,
    Right,
    Middle,
    Other,
}

/// A drag in progress: the surface that moves and how far the pointer was
/// from the surface's position when the drag was captured.
#[derive(Clone, Copy, Debug, PartialEq, Eq, Structural)]
pub struct DragState {
    pub target: u64,
    pub offset_x: i64,
    pub offset_y: i64,
}

/// The surface under the pointer and where that surface stands.
#[derive(Clone, Copy, Debug, PartialEq, Eq, Structural)]
pub struct PointerFocus {
    pub surface: u64,
    pub location: Point,
}

/// What a pointer motion tells the seat: the surface under the pointer, if
/// any, and whether a dragged surface moved.
#[derive(Clone, Copy, Debug, PartialEq, Eq, Structural)]
pub struct PointerMotion {
    pub focus: Option<PointerFocus>,
    pub redraw: bool,
}

/// What a button event tells the seat: the button's code and its state,
/// and whether the event sets the keyboard focus anew (to the router's
/// keyboard focus after the event, which may be none).
#[derive(Clone, Copy, Debug, PartialEq, Eq, Structural)]
pub struct ButtonEvent {
    pub button: u32,
    pub pressed: bool,
    pub sets_focus: bool,
}

/// What a key event leads to.
#[derive(Clone, Copy, Debug, PartialEq, Eq, Structural)]
pub enum KeyAction {
    /// The compositor is to close.
    Exit,
    /// The key goes to the focused client under `keycode`.
    Forward { keycode: u32, pressed: bool },
    /// Nothing happens.
    Ignore,
}

/// How far a client's keycode lies above the host's scancode.
pub const KEYCODE_OFFSET: u32 = 8;

/// The axis a scroll runs along.
#[derive(Clone, Copy, Debug, PartialEq, Eq, Structural)]
pub enum Axis {
    Horizontal,
    Vertical,
}

/// The kind of device a scroll comes from.
#[derive(Clone, Copy, Debug, PartialEq, Eq, Structural)]
pub enum AxisSource {
    Wheel,
    Finger,
}

/// How one scroll event is forwarded: along which axis, from which source,
/// by what the delta is multiplied, and which axes are told to stop.
#[derive(Clone, Copy, Debug, PartialEq, Eq, Structural)]
pub struct ScrollPlan {
    pub axis: Axis,
    pub source: AxisSource,
    pub factor: i32,
    pub stop_horizontal: bool,
    pub stop_vertical: bool,
}

/// The pointer and keyboard focus, the drag, and where dragged surfaces
/// stand.
#[derive(Debug)]
pub struct InputRouter {
    pub pointer_focus: Option<u64>,
    pub keyboard_focus: Option<u64>,
    pub drag_state: Option<DragState>,
    pub start_drag_request: Option<u64>,
    pub last_pointer: Point,
    pub surface_positions: HashMap<u64, Point>,
}

/// The mathematical content of an [`InputRouter`].
pub struct InputView {
    pub pointer_focus: Option<u64>,
    pub keyboard_focus: Option<u64>,
    pub drag: Option<DragState>,
    pub armed: Option<u64>,
    pub last_pointer: Point,
    pub positions: Map<u64, Point>,
}

/// The last index below `end` whose tile holds the point `p`: of tiles that
/// overlap, the one added later wins.
pub open spec fn last_tile_at(tiles: Seq<Tile>, p: Point, end: int) -> Option<int>
    decreases end,
{
    if end <= 0 || end > tiles.len() {
        None
    } else if tiles[end - 1].contains(p) {
        Some(end - 1)
    } else {
        last_tile_at(tiles, p, end - 1)
    }
}

/// The surface under the point `p` with its tile's position, if any.
pub open spec fn focus_under(tiles: Seq<Tile>, p: Point) -> Option<PointerFocus> {
    match last_tile_at(tiles, p, tiles.len() as int) {
        Some(i) => Some(
            PointerFocus { surface: tiles[i].toplevel.surface, location: tiles[i].position },
        ),
        None => None,
    }
}

/// The event code of `button`; a button without a code of its own counts as
/// the primary one.
pub open spec fn button_code_spec(button: MouseButton) -> u32 {
    match button {
        MouseButton::Left => BTN_LEFT,
        MouseButton::Right => BTN_RIGHT,
        MouseButton::Middle => BTN_MIDDLE,
        MouseButton::Other => BTN_LEFT,
    }
}

/// Where the surface dragged by `drag` stands when the pointer is at
/// `pointer`.
pub open spec fn dragged_to(pointer: Point, drag: DragState) -> Point {
    Point {
        x: clamp_i32(pointer.x - drag.offset_x) as i32,
        y: clamp_i32(pointer.y - drag.offset_y) as i32,
    }
}

impl DragState {
    /// The offsets are differences of two coordinates.
    pub open spec fn wf(self) -> bool {
        &&& -0x1_0000_0000 <= self.offset_x <= 0x1_0000_0000
        &&& -0x1_0000_0000 <= self.offset_y <= 0x1_0000_0000
    }
}

impl InputView {
    /// The drag, if there is one, holds offsets that two coordinates can
    /// give.
    pub open spec fn wf(self) -> bool {
        match self.drag {
            Some(d) => d.wf(),
            None => true,
        }
    }

    /// Where `surface` was last put; a surface never put anywhere stands at
    /// the origin.
    pub open spec fn position_of(self, surface: u64) -> Point {
        if self.positions.contains_key(surface) {
            self.positions[surface]
        } else {
            Point { x: 0, y: 0 }
        }
    }

    /// The drag that begins when an armed request for `target` meets the
    /// pointer at `pointer`.
    pub open spec fn capture(self, target: u64, pointer: Point) -> DragState {
        DragState {
            target,
            offset_x: (pointer.x - self.position_of(target).x) as i64,
            offset_y: (pointer.y - self.position_of(target).y) as i64,
        }
    }

    /// The state after a window asked to be moved: the request is armed.
    pub open spec fn move_request(self, surface: u64) -> InputView {
        InputView { armed: Some(surface), ..self }
    }

    /// The drag in force once an armed request, if any, has been captured
    /// at `pointer`.
    pub open spec fn drag_after_capture(self, pointer: Point) -> Option<DragState> {
        match self.armed {
            Some(target) => Some(self.capture(target, pointer)),
            None => self.drag,
        }
    }

    /// The state after the pointer moved to `pointer` over `tiles`.
    pub open spec fn motion(self, tiles: Seq<Tile>, pointer: Point) -> InputView {
        let drag = self.drag_after_capture(pointer);
        InputView {
            pointer_focus: match focus_under(tiles, pointer) {
                Some(f) => Some(f.surface),
                None => None,
            },
            keyboard_focus: self.keyboard_focus,
            drag,
            armed: None,
            last_pointer: pointer,
            positions: match drag {
                Some(d) => self.positions.insert(d.target, dragged_to(pointer, d)),
                None => self.positions,
            },
        }
    }

    /// `focus` unless it is `surface`.
    pub open spec fn unless(focus: Option<u64>, surface: u64) -> Option<u64> {
        if focus == Some(surface) {
            None
        } else {
            focus
        }
    }

    /// The state once `surface` is gone: no focus, drag, armed request or
    /// position refers to it any more.
    pub open spec fn forget(self, surface: u64) -> InputView {
        InputView {
            pointer_focus: Self::unless(self.pointer_focus, surface),
            keyboard_focus: Self::unless(self.keyboard_focus, surface),
            drag: match self.drag {
                Some(d) => if d.target == surface {
                    None
                } else {
                    Some(d)
                },
                None => None,
            },
            armed: Self::unless(self.armed, surface),
            last_pointer: self.last_pointer,
            positions: self.positions.remove(surface),
        }
    }

    /// The state after `button` was pressed or released.
    pub open spec fn button(self, button: MouseButton, pressed: bool) -> InputView {
        if button != MouseButton::Left {
            self
        } else if pressed {
            InputView {
                keyboard_focus: self.pointer_focus,
                drag: self.drag_after_capture(self.last_pointer),
                armed: None,
                ..self
            }
        } else {
            InputView { drag: None, ..self }
        }
    }
}

impl View for InputRouter {
    type V = InputView;

    open spec fn view(&self) -> InputView {
        InputView {
            pointer_focus: self.pointer_focus,
            keyboard_focus: self.keyboard_focus,
            drag: self.drag_state,
            armed: self.start_drag_request,
            last_pointer: self.last_pointer,
            positions: self.surface_positions@,
        }
    }
}

/// The seat's event for `button` being pressed or released.
pub open spec fn button_event(button: MouseButton, pressed: bool) -> ButtonEvent {
    ButtonEvent {
        button: button_code_spec(button),
        pressed,
        sets_focus: pressed && button == MouseButton::Left,
    }
}

/// What a key event leads to: the escape key closes the compositor, a key
/// with a scancode goes on under that scancode plus [`KEYCODE_OFFSET`], and
/// a key without one, or with one too large for a keycode, is ignored.
pub open spec fn key_action(escape: bool, scancode: Option<u32>, pressed: bool) -> KeyAction {
    if escape {
        KeyAction::Exit
    } else {
        match scancode {
            Some(code) => if code + KEYCODE_OFFSET <= u32::MAX {
                KeyAction::Forward { keycode: (code + KEYCODE_OFFSET) as u32, pressed }
            } else {
                KeyAction::Ignore
            },
            None => KeyAction::Ignore,
        }
    }
}

/// Decides what a key event leads to. `escape` says that the key is the
/// escape key, `scancode` is the host's code for the key if it has one.
pub fn plan_key(escape: bool, scancode: Option<u32>, pressed: bool) -> (action: KeyAction)
    ensures
        action == key_action(escape, scancode, pressed),
{
    if escape {
        return KeyAction::Exit;
    }
    match scancode {
        Some(code) => if code <= u32::MAX - KEYCODE_OFFSET {
            KeyAction::Forward { keycode: code + KEYCODE_OFFSET, pressed }
        } else {
            KeyAction::Ignore
        },
        None => KeyAction::Ignore,
    }
}

/// How a scroll is forwarded. `discrete` tells a wheel (steps) from a
/// continuous source (logical pixels); `horizontal` and `vertical` say which
/// components of the delta are not zero; `ended` says that the gesture is
/// over. The horizontal component wins where both move.
pub open spec fn scroll_plan(discrete: bool, horizontal: bool, vertical: bool, ended: bool) -> Option<
    ScrollPlan,
> {
    if !horizontal && !vertical {
        None
    } else {
        Some(
            ScrollPlan {
                axis: if horizontal {
                    Axis::Horizontal
                } else {
                    Axis::Vertical
                },
                source: if discrete {
                    AxisSource::Wheel
                } else {
                    AxisSource::Finger
                },
                factor: if discrete {
                    WHEEL_FACTOR
                } else {
                    FINGER_FACTOR
                },
                stop_horizontal: ended && horizontal,
                stop_vertical: ended && !horizontal,
            },
        )
    }
}

/// Decides how a scroll event is forwarded; `None` where nothing moved.
pub fn plan_scroll(discrete: bool, horizontal: bool, vertical: bool, ended: bool) -> (plan: Option<
    ScrollPlan,
>)
    ensures
        plan == scroll_plan(discrete, horizontal, vertical, ended),
{
    if !horizontal && !vertical {
        return None;
    }
    let axis = if horizontal {
        Axis::Horizontal
    } else {
        Axis::Vertical
    };
    let source = if discrete {
        AxisSource::Wheel
    } else {
        AxisSource::Finger
    };
    let factor: i32 = if discrete {
        WHEEL_FACTOR
    } else {
        FINGER_FACTOR
    };
    Some(
        ScrollPlan {
            axis,
            source,
            factor,
            stop_horizontal: ended && horizontal,
            stop_vertical: ended && !horizontal,
        },
    )
}

/// The event code of `button`.
pub fn button_code(button: MouseButton) -> (code: u32)
    ensures
        code == button_code_spec(button),
{
    match button {
        MouseButton::Left => BTN_LEFT,
        MouseButton::Right => BTN_RIGHT,
        MouseButton::Middle => BTN_MIDDLE,
        MouseButton::Other => BTN_LEFT,
    }
}

/// Finds the tile under `point`, looking at the tiles added last first.
pub fn hit_test(layout: &Layout, point: Point) -> (hit: Option<usize>)
    ensures
        match hit {
            Some(i) => last_tile_at(layout.tiles@, point, layout.tiles@.len() as int) == Some(
                i as int,
            ) && i < layout.tiles.len(),
            None => last_tile_at(layout.tiles@, point, layout.tiles@.len() as int).is_none(),
        },
{
    let mut end: usize = layout.tiles.len();
    while end > 0
        invariant
            end <= layout.tiles.len(),
            last_tile_at(layout.tiles@, point, layout.tiles@.len() as int) == last_tile_at(
                layout.tiles@,
                point,
                end as int,
            ),
        decreases end,
    {
        if layout.tiles[end - 1].contains_point(point) {
            return Some(end - 1);
        }
        end -= 1;
    }
    None
}

impl InputRouter {
    /// The invariant of a router: see [`InputView::wf`].
    pub open spec fn wf(&self) -> bool {
        self@.wf()
    }

    /// Decides whether the invariant holds, for callers that cannot know.
    pub fn is_well_formed(&self) -> (ok: bool)
        ensures
            ok == self.wf(),
    {
        match self.drag_state {
            Some(d) => -0x1_0000_0000 <= d.offset_x && d.offset_x <= 0x1_0000_0000
                && -0x1_0000_0000 <= d.offset_y && d.offset_y <= 0x1_0000_0000,
            None => true,
        }
    }

    /// A router with no focus, no drag and the pointer at the origin.
    pub fn new() -> (r: InputRouter)
        ensures
            r.wf(),
            r@ == (InputView {
                pointer_focus: None,
                keyboard_focus: None,
                drag: None,
                armed: None,
                last_pointer: Point { x: 0, y: 0 },
                positions: Map::empty(),
            }),
    {
        InputRouter {
            pointer_focus: None,
            keyboard_focus: None,
            drag_state: None,
            start_drag_request: None,
            last_pointer: Point { x: 0, y: 0 },
            surface_positions: HashMap::new(),
        }
    }

    /// Where `surface` was last put; the origin if it never was.
    pub fn position_of(&self, surface: u64) -> (p: Point)
        ensures
            p == self@.position_of(surface),
    {
        match self.surface_positions.get(&surface) {
            Some(p) => *p,
            None => Point { x: 0, y: 0 },
        }
    }

    /// Arms a drag of `surface`; the next pointer sample captures it.
    pub fn move_request(&mut self, surface: u64)
        requires
            old(self).wf(),
        ensures
            final(self).wf(),
            final(self)@ == old(self)@.move_request(surface),
    {
        self.start_drag_request = Some(surface);
    }

    /// Captures an armed drag at `pointer`, if one is armed.
    fn capture_drag(&mut self, pointer: Point)
        requires
            old(self).wf(),
        ensures
            final(self).wf(),
            final(self)@ == (InputView {
                drag: old(self)@.drag_after_capture(pointer),
                armed: None,
                ..old(self)@
            }),
    {
        if let Some(target) = self.start_drag_request {
            let at = self.position_of(target);
            self.drag_state = Some(
                DragState {
                    target,
                    offset_x: pointer.x as i64 - at.x as i64,
                    offset_y: pointer.y as i64 - at.y as i64,
                },
            );
            self.start_drag_request = None;
        }
    }

    /// Handles a pointer motion to `position` (in logical units): captures
    /// an armed drag, moves the dragged surface, and resolves the surface
    /// under the pointer.
    pub fn pointer_motion(&mut self, layout: &Layout, position: Point) -> (motion: PointerMotion)
        requires
            old(self).wf(),
        ensures
            final(self).wf(),
            final(self)@ == old(self)@.motion(layout.tiles@, position),
            motion.focus == focus_under(layout.tiles@, position),
            motion.redraw == old(self)@.drag_after_capture(position).is_some(),
    {
        self.last_pointer = position;
        self.capture_drag(position);
        let mut redraw = false;
        if let Some(drag) = self.drag_state {
            let moved = Point {
                x: saturate(position.x as i64 - drag.offset_x),
                y: saturate(position.y as i64 - drag.offset_y),
            };
            self.surface_positions.insert(drag.target, moved);
            redraw = true;
        }
        let focus = match hit_test(layout, position) {
            Some(i) => Some(
                PointerFocus {
                    surface: layout.tiles[i].surface_id(),
                    location: layout.tiles[i].position,
                },
            ),
            None => None,
        };
        self.pointer_focus = match focus {
            Some(f) => Some(f.surface),
            None => None,
        };
        PointerMotion { focus, redraw }
    }

    /// Drops every reference to a surface that is gone.
    pub fn forget(&mut self, surface: u64)
        requires
            old(self).wf(),
        ensures
            final(self).wf(),
            final(self)@ == old(self)@.forget(surface),
    {
        if let Some(s) = self.pointer_focus {
            if s == surface {
                self.pointer_focus = None;
            }
        }
        if let Some(s) = self.keyboard_focus {
            if s == surface {
                self.keyboard_focus = None;
            }
        }
        if let Some(d) = self.drag_state {
            if d.target == surface {
                self.drag_state = None;
            }
        }
        if let Some(s) = self.start_drag_request {
            if s == surface {
                self.start_drag_request = None;
            }
        }
        self.surface_positions.remove(&surface);
    }

    /// Handles a button event. A press of the primary button gives the
    /// keyboard focus to the surface under the pointer (or clears it over
    /// empty space) and captures an armed drag at the last pointer
    /// position; its release ends the drag. Other buttons change nothing.
    pub fn pointer_button(&mut self, button: MouseButton, pressed: bool) -> (event: ButtonEvent)
        requires
            old(self).wf(),
        ensures
            final(self).wf(),
            final(self)@ == old(self)@.button(button, pressed),
            event == button_event(button, pressed),
    {
        let primary = match button {
            MouseButton::Left => true,
            _ => false,
        };
        if primary && pressed {
            self.keyboard_focus = self.pointer_focus;
            let at = self.last_pointer;
            self.capture_drag(at);
        } else if primary {
            self.drag_state = None;
        }
        ButtonEvent { button: button_code(button), pressed, sets_focus: primary && pressed }
    }
}

/// What [`last_tile_at`] finds is the last tile below `end` that holds the
/// point, and it finds nothing only where no tile below `end` holds it.
pub proof fn lemma_last_tile_at(tiles: Seq<Tile>, p: Point, end: int)
    requires
        end <= tiles.len(),
    ensures
        match last_tile_at(tiles, p, end) {
            Some(i) => {
                &&& 0 <= i < end
                &&& tiles[i].contains(p)
                &&& forall|j: int| i < j < end ==> !tiles[j].contains(p)
            },
            None => forall|j: int| 0 <= j < end ==> !tiles[j].contains(p),
        },
    decreases end,
{
    if end > 0 && !tiles[end - 1].contains(p) {
        lemma_last_tile_at(tiles, p, end - 1);
    }
}

/// In an arranged row whose tiles fit the view no two tiles hold the same
/// point, so looking from the front and looking from the back find the same
/// tile.
pub proof fn lemma_hit_order_irrelevant(v: LayoutView, p: Point)
    requires
        v.wf(),
        v.tiles.len() == 0 || (v.view_size.w - 2 * v.padding - v.gap * (v.tiles.len() - 1)) / (
        v.tiles.len() as int) >= MIN_TILE_WIDTH,
    ensures
        first_tile_at(v.relayout().tiles, p, 0) == last_tile_at(
            v.relayout().tiles,
            p,
            v.tiles.len() as int,
        ),
{
    let tiles = v.relayout().tiles;
    lemma_first_tile_at(tiles, p, 0);
    lemma_last_tile_at(tiles, p, tiles.len() as int);
    match (first_tile_at(tiles, p, 0), last_tile_at(tiles, p, tiles.len() as int)) {
        (Some(i), Some(j)) => {
            if i < j {
                lemma_tiles_disjoint(v, i, j);
            }
        },
        _ => {},
    }
}

/// A second motion to the same point changes nothing: the same surface is
/// under the pointer and a dragged surface stays where the first put it.
pub proof fn lemma_motion_idempotent(v: InputView, tiles: Seq<Tile>, p: Point)
    requires
        v.wf(),
    ensures
        v.motion(tiles, p).motion(tiles, p) == v.motion(tiles, p),
{
    let once = v.motion(tiles, p);
    assert(once.motion(tiles, p).positions =~= once.positions);
}

/// A drag captured at `start` and followed to `p` puts the surface as far
/// from where it stood as the pointer went, wherever that is a position.
pub proof fn lemma_drag_follows_pointer(v: InputView, tiles: Seq<Tile>, target: u64, start: Point, p: Point)
    requires
        v.wf(),
    ensures
        v.move_request(target).motion(tiles, start).position_of(target) == v.position_of(target),
        v.move_request(target).motion(tiles, start).motion(tiles, p).position_of(target) == (Point {
            x: clamp_i32(v.position_of(target).x + (p.x - start.x)) as i32,
            y: clamp_i32(v.position_of(target).y + (p.y - start.y)) as i32,
        }),
        v.move_request(target).motion(tiles, start).motion(tiles, p).button(
            MouseButton::Left,
            false,
        ).drag.is_none(),
{
}

} // verus!
