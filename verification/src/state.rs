//! The compositor's whole state, and what each protocol and host event does
//! to it.

use vstd::prelude::*;
use crate::geometry::{Point, Size};
use crate::input::{ButtonEvent, InputRouter, InputView, MouseButton, PointerMotion, focus_under};
use crate::input::button_event;
use crate::layout::{Layout, LayoutView, first_tile_of, DEFAULT_SPACING};
use crate::surface::{Buffer, BufferAssignment, Surface, SurfaceRegistry, committed, registered};
use crate::toplevel::{ChromeRequest, CompositorMessage, Toplevel};

verus! {

/// Everything the compositor knows: the layout, the committed buffers, the
/// input state and the host window's size in physical units.
#[derive(Debug)]
pub struct AppState {
    pub layout: Layout,
    pub surface_buffers: SurfaceRegistry,
    pub input: InputRouter,
    pub width: u32,
    pub height: u32,
}

/// The mathematical content of an [`AppState`].
pub struct AppView {
    pub layout: LayoutView,
    pub buffers: Map<u64, Buffer>,
    pub input: InputView,
    pub width: u32,
    pub height: u32,
}

impl AppView {
    /// The layout and the input state are well formed.
    pub open spec fn wf(self) -> bool {
        self.layout.wf() && self.input.wf()
    }

    /// The state of a compositor that has seen nothing yet: no tile, no
    /// buffer, no focus, no drag, the pointer at the origin.
    pub open spec fn initial(width: u32, height: u32, logical: Size) -> AppView {
        AppView {
            layout: LayoutView {
                tiles: Seq::empty(),
                focused: None,
                view_size: logical,
                gap: DEFAULT_SPACING as int,
                padding: DEFAULT_SPACING as int,
            },
            buffers: Map::empty(),
            input: InputView {
                pointer_focus: None,
                keyboard_focus: None,
                drag: None,
                armed: None,
                last_pointer: Point { x: 0, y: 0 },
                positions: Map::empty(),
            },
            width,
            height,
        }
    }

    /// The state after a commit of `pending` on `surface`.
    pub open spec fn commit(self, surface: u64, pending: Option<BufferAssignment>) -> AppView {
        AppView { buffers: registered(self.buffers, surface, pending), ..self }
    }

    /// The state after a window appeared for `surface`: it gets a tile
    /// unless it has one, and it is the one activated window.
    pub open spec fn new_toplevel(self, surface: u64) -> AppView {
        let with_tile = match first_tile_of(self.layout.tiles, surface, 0) {
            Some(_) => self.layout,
            None => self.layout.add(Toplevel::new_spec(surface)),
        };
        AppView { layout: with_tile.activate(surface), ..self }
    }

    /// The state after the window of `surface` asked for `request`.
    pub open spec fn chrome_request(self, surface: u64, request: ChromeRequest) -> AppView {
        AppView { layout: self.layout.grant(surface, request), ..self }
    }

    /// The state after the window of `surface` asked to be moved.
    pub open spec fn move_request(self, surface: u64) -> AppView {
        AppView { input: self.input.move_request(surface), ..self }
    }

    /// The state after the pointer moved to `position`.
    pub open spec fn pointer_motion(self, position: Point) -> AppView {
        AppView { input: self.input.motion(self.layout.tiles, position), ..self }
    }

    /// The state after `button` was pressed or released: a press of the
    /// primary button over a surface also activates that surface's window.
    pub open spec fn pointer_button(self, button: MouseButton, pressed: bool) -> AppView {
        let input = self.input.button(button, pressed);
        AppView {
            layout: if button == MouseButton::Left && pressed {
                match input.keyboard_focus {
                    Some(s) => self.layout.activate(s),
                    None => self.layout,
                }
            } else {
                self.layout
            },
            input,
            ..self
        }
    }

    /// The state after the host window took a new size, `logical` being
    /// that size in logical units; a size with a zero dimension changes
    /// nothing.
    pub open spec fn resized(self, width: u32, height: u32, logical: Size) -> AppView {
        if width > 0 && height > 0 {
            AppView { layout: self.layout.request_size_all(logical), width, height, ..self }
        } else {
            self
        }
    }

    /// The state once `surface` is gone: its tile removed, its buffer and
    /// every input reference to it forgotten.
    pub open spec fn surface_destroyed(self, surface: u64) -> AppView {
        AppView {
            layout: self.layout.remove(surface),
            buffers: self.buffers.remove(surface),
            input: self.input.forget(surface),
            ..self
        }
    }

    /// The state once the first `upto` surfaces of `dead` are gone.
    pub open spec fn pruned(self, dead: Seq<u64>, upto: int) -> AppView
        decreases upto,
    {
        if upto <= 0 {
            self
        } else {
            self.pruned(dead, upto - 1).surface_destroyed(dead[upto - 1])
        }
    }

    /// The state at the start of a frame: the dead surfaces gone and the
    /// tiles arranged in a view of `logical`.
    pub open spec fn begin_frame(self, dead: Seq<u64>, logical: Size) -> AppView {
        let live = self.pruned(dead, dead.len() as int);
        AppView { layout: live.layout.set_view_size(logical), ..live }
    }
}

impl View for AppState {
    type V = AppView;

    open spec fn view(&self) -> AppView {
        AppView {
            layout: self.layout@,
            buffers: self.surface_buffers@,
            input: self.input@,
            width: self.width,
            height: self.height,
        }
    }
}

impl AppState {
    /// The invariant of the state: see [`AppView::wf`].
    pub open spec fn wf(&self) -> bool {
        self@.wf()
    }

    /// Decides whether the invariant holds, for callers that cannot know.
    pub fn is_well_formed(&self) -> (ok: bool)
        ensures
            ok == self.wf(),
    {
        self.layout.is_well_formed() && self.input.is_well_formed()
    }

    /// The state of a compositor that has seen nothing yet, for a host
    /// window of `width` by `height` physical units whose logical size is
    /// `logical`.
    pub fn new(width: u32, height: u32, logical: Size) -> (state: AppState)
        ensures
            state.wf(),
            state@ == AppView::initial(width, height, logical),
    {
        AppState {
            layout: Layout::new(logical.w, logical.h),
            surface_buffers: SurfaceRegistry::new(),
            input: InputRouter::new(),
            width,
            height,
        }
    }

    /// Commits `surface` and brings the registry of buffers up to date.
    pub fn commit(&mut self, surface: &mut Surface) -> (change: Option<BufferAssignment>)
        requires
            old(self).wf(),
        ensures
            final(self).wf(),
            final(self)@ == old(self)@.commit(old(surface).id, old(surface).pending),
            change == old(surface).pending,
            final(surface).pending.is_none(),
            final(surface).current == committed(old(surface).current, old(surface).pending),
            final(surface).id == old(surface).id,
            final(surface).buffer_scale == old(surface).buffer_scale,
            final(surface).frame_callbacks == old(surface).frame_callbacks,
    {
        self.surface_buffers.on_commit(surface)
    }

    /// Takes in a new window for `surface`: gives it a tile unless it has
    /// one, and makes it the one activated window.
    pub fn new_toplevel(&mut self, surface: u64)
        requires
            old(self).wf(),
            old(self).layout.tiles.len() < usize::MAX,
        ensures
            final(self).wf(),
            final(self)@ == old(self)@.new_toplevel(surface),
    {
        if self.layout.position_of(surface).is_none() {
            self.layout.add_tile(Toplevel::new(surface));
        }
        self.layout.activate(surface);
    }

    /// Grants `request` to the window of `surface` and says what the host
    /// window is to do about it.
    pub fn chrome_request(&mut self, surface: u64, request: ChromeRequest) -> (msg:
        CompositorMessage)
        requires
            old(self).wf(),
        ensures
            final(self).wf(),
            final(self)@ == old(self)@.chrome_request(surface, request),
            msg == request.message(),
    {
        self.layout.grant(surface, request)
    }

    /// Maximizes the window of `surface` at `logical`, the host window's
    /// size in logical units.
    pub fn maximize_request(&mut self, surface: u64, logical: Size) -> (msg: CompositorMessage)
        requires
            old(self).wf(),
        ensures
            final(self).wf(),
            final(self)@ == old(self)@.chrome_request(surface, ChromeRequest::Maximize(logical)),
            msg == CompositorMessage::Maximize(true),
    {
        self.chrome_request(surface, ChromeRequest::Maximize(logical))
    }

    /// Takes the window of `surface` out of the maximized state.
    pub fn unmaximize_request(&mut self, surface: u64) -> (msg: CompositorMessage)
        requires
            old(self).wf(),
        ensures
            final(self).wf(),
            final(self)@ == old(self)@.chrome_request(surface, ChromeRequest::Unmaximize),
            msg == CompositorMessage::Maximize(false),
    {
        self.chrome_request(surface, ChromeRequest::Unmaximize)
    }

    /// Makes the window of `surface` fullscreen at `logical`, the host
    /// window's size in logical units.
    pub fn fullscreen_request(&mut self, surface: u64, logical: Size) -> (msg: CompositorMessage)
        requires
            old(self).wf(),
        ensures
            final(self).wf(),
            final(self)@ == old(self)@.chrome_request(surface, ChromeRequest::Fullscreen(logical)),
            msg == CompositorMessage::Fullscreen(true),
    {
        self.chrome_request(surface, ChromeRequest::Fullscreen(logical))
    }

    /// Takes the window of `surface` out of the fullscreen state.
    pub fn unfullscreen_request(&mut self, surface: u64) -> (msg: CompositorMessage)
        requires
            old(self).wf(),
        ensures
            final(self).wf(),
            final(self)@ == old(self)@.chrome_request(surface, ChromeRequest::Unfullscreen),
            msg == CompositorMessage::Fullscreen(false),
    {
        self.chrome_request(surface, ChromeRequest::Unfullscreen)
    }

    /// Arms a drag of the window of `surface`.
    pub fn move_request(&mut self, surface: u64)
        requires
            old(self).wf(),
        ensures
            final(self).wf(),
            final(self)@ == old(self)@.move_request(surface),
    {
        self.input.move_request(surface);
    }

    /// Handles a pointer motion to `position`, in logical units.
    pub fn pointer_motion(&mut self, position: Point) -> (motion: PointerMotion)
        requires
            old(self).wf(),
        ensures
            final(self).wf(),
            final(self)@ == old(self)@.pointer_motion(position),
            motion.focus == focus_under(old(self)@.layout.tiles, position),
            motion.redraw == old(self)@.input.drag_after_capture(position).is_some(),
    {
        self.input.pointer_motion(&self.layout, position)
    }

    /// Handles a button event: see [`AppView::pointer_button`].
    pub fn pointer_button(&mut self, button: MouseButton, pressed: bool) -> (event: ButtonEvent)
        requires
            old(self).wf(),
        ensures
            final(self).wf(),
            final(self)@ == old(self)@.pointer_button(button, pressed),
            event == button_event(button, pressed),
    {
        let event = self.input.pointer_button(button, pressed);
        if event.sets_focus {
            if let Some(surface) = self.input.keyboard_focus {
                self.layout.activate(surface);
            }
        }
        event
    }

    /// Handles a resize of the host window and says whether the size was
    /// taken: every window is then asked to take `logical`.
    pub fn resized(&mut self, width: u32, height: u32, logical: Size) -> (applied: bool)
        requires
            old(self).wf(),
        ensures
            final(self).wf(),
            final(self)@ == old(self)@.resized(width, height, logical),
            applied == (width > 0 && height > 0),
    {
        if width > 0 && height > 0 {
            self.width = width;
            self.height = height;
            self.layout.request_size_all(logical);
            true
        } else {
            false
        }
    }

    /// Drops a surface that is gone from the layout, the registry and the
    /// input state.
    pub fn surface_destroyed(&mut self, surface: u64)
        requires
            old(self).wf(),
        ensures
            final(self).wf(),
            final(self)@ == old(self)@.surface_destroyed(surface),
    {
        self.layout.remove_tile(surface);
        self.surface_buffers.forget(surface);
        self.input.forget(surface);
    }

    /// Starts a frame: drops the surfaces in `dead` and arranges the tiles
    /// in a view of `logical`.
    pub fn begin_frame(&mut self, dead: &Vec<u64>, logical: Size)
        requires
            old(self).wf(),
        ensures
            final(self).wf(),
            final(self)@ == old(self)@.begin_frame(dead@, logical),
    {
        let mut i: usize = 0;
        while i < dead.len()
            invariant
                i <= dead.len(),
                self.wf(),
                self@ == old(self)@.pruned(dead@, i as int),
            decreases dead.len() - i,
        {
            self.surface_destroyed(dead[i]);
            i += 1;
        }
        self.layout.set_view_size(logical.w, logical.h);
    }
}

/// A commit with nothing pending leaves the whole state as it was.
pub proof fn lemma_commit_nothing_pending(v: AppView, surface: u64)
    ensures
        v.commit(surface, None) == v,
{
}

/// Once a surface is gone, no tile, buffer, focus or drag refers to it.
pub proof fn lemma_destroyed_is_gone(v: AppView, surface: u64)
    requires
        v.wf(),
    ensures
        !v.surface_destroyed(surface).buffers.contains_key(surface),
        v.surface_destroyed(surface).input.pointer_focus != Some(surface),
        v.surface_destroyed(surface).input.keyboard_focus != Some(surface),
        v.surface_destroyed(surface).input.armed != Some(surface),
        v.surface_destroyed(surface).input.drag.is_some() ==> v.surface_destroyed(
            surface,
        ).input.drag.unwrap().target != surface,
        v.surface_destroyed(surface).layout.tiles.len() + 1 >= v.layout.tiles.len(),
{
    crate::layout_proofs::lemma_first_tile_of(v.layout.tiles, surface, 0);
}

} // verus!
