//! The window-chrome state of one top-level window.

use vstd::prelude::*;
use crate::geometry::Size;

verus! {

/// A top-level application window, one-to-one with the surface `surface`.
///
/// The flags and the size are the state that the next configure carries to
/// the client; `configure_due` records that a configure is owed, so that the
/// host can send it and call [`Toplevel::take_configure`].
#[derive(Clone, Copy, Debug, PartialEq, Eq, Structural)]
pub struct Toplevel {
    pub surface: u64,
    pub activated: bool,
    pub maximized: bool,
    pub fullscreen: bool,
    pub size: Option<Size>,
    pub configure_due: bool,
}

/// A change of the host window's decoration that a window asked for.
#[derive(Clone, Copy, Debug, PartialEq, Eq, Structural)]
pub enum CompositorMessage {
    Maximize(bool),
    Fullscreen(bool),
}

/// A change of window state that a client asks for, with the size the
/// window is to take where the change gives it one.
#[derive(Clone, Copy, Debug, PartialEq, Eq, Structural)]
pub enum ChromeRequest {
    Maximize(Size),
    Unmaximize,
    Fullscreen(Size),
    Unfullscreen,
}

impl ChromeRequest {
    /// What the host window is to do about the request.
    pub open spec fn message(self) -> CompositorMessage {
        match self {
            ChromeRequest::Maximize(_) => CompositorMessage::Maximize(true),
            ChromeRequest::Unmaximize => CompositorMessage::Maximize(false),
            ChromeRequest::Fullscreen(_) => CompositorMessage::Fullscreen(true),
            ChromeRequest::Unfullscreen => CompositorMessage::Fullscreen(false),
        }
    }
}

impl Toplevel {
    /// The window after `request` was granted: the flag set or cleared, the
    /// size taken where the request carries one, and a configure owed.
    pub open spec fn granted(self, request: ChromeRequest) -> Toplevel {
        match request {
            ChromeRequest::Maximize(size) => Toplevel {
                maximized: true,
                size: Some(size),
                configure_due: true,
                ..self
            },
            ChromeRequest::Unmaximize => Toplevel { maximized: false, configure_due: true, ..self },
            ChromeRequest::Fullscreen(size) => Toplevel {
                fullscreen: true,
                size: Some(size),
                configure_due: true,
                ..self
            },
            ChromeRequest::Unfullscreen => Toplevel {
                fullscreen: false,
                configure_due: true,
                ..self
            },
        }
    }

    /// Grants `request` and says what the host window is to do about it.
    pub fn grant(&mut self, request: ChromeRequest) -> (msg: CompositorMessage)
        ensures
            *final(self) == old(self).granted(request),
            msg == request.message(),
    {
        match request {
            ChromeRequest::Maximize(size) => self.maximize(size),
            ChromeRequest::Unmaximize => self.unmaximize(),
            ChromeRequest::Fullscreen(size) => self.fullscreen(size),
            ChromeRequest::Unfullscreen => self.unfullscreen(),
        }
    }

    /// The window that [`Toplevel::new`] makes.
    pub open spec fn new_spec(surface: u64) -> Toplevel {
        Toplevel {
            surface,
            activated: false,
            maximized: false,
            fullscreen: false,
            size: None,
            configure_due: false,
        }
    }

    /// A fresh window for `surface`: no flag set, no size asked, nothing owed.
    pub fn new(surface: u64) -> (t: Toplevel)
        ensures
            t == Toplevel::new_spec(surface),
    {
        Toplevel {
            surface,
            activated: false,
            maximized: false,
            fullscreen: false,
            size: None,
            configure_due: false,
        }
    }

    /// The identity of the window's surface.
    pub fn surface_id(&self) -> (id: u64)
        ensures
            id == self.surface,
    {
        self.surface
    }

    /// The window after a size-change request for `size`.
    pub open spec fn with_size(self, size: Size) -> Toplevel {
        Toplevel { size: Some(size), configure_due: true, ..self }
    }

    /// The window after its activation was set to `on`.
    pub open spec fn with_activated(self, on: bool) -> Toplevel {
        Toplevel { activated: on, configure_due: true, ..self }
    }

    /// Asks the client for `size` and owes it a configure.
    pub fn request_size(&mut self, size: Size)
        ensures
            *final(self) == old(self).with_size(size),
    {
        self.size = Some(size);
        self.configure_due = true;
    }

    /// Sets the activated flag and owes the client a configure.
    pub fn set_activated(&mut self, on: bool)
        ensures
            *final(self) == old(self).with_activated(on),
    {
        self.activated = on;
        self.configure_due = true;
    }

    /// Enters the maximized state at `size`; the host window is to be
    /// maximized too.
    pub fn maximize(&mut self, size: Size) -> (msg: CompositorMessage)
        ensures
            msg == CompositorMessage::Maximize(true),
            *final(self) == (Toplevel {
                maximized: true,
                size: Some(size),
                configure_due: true,
                ..*old(self)
            }),
    {
        self.maximized = true;
        self.size = Some(size);
        self.configure_due = true;
        CompositorMessage::Maximize(true)
    }

    /// Leaves the maximized state, keeping the size last asked for.
    pub fn unmaximize(&mut self) -> (msg: CompositorMessage)
        ensures
            msg == CompositorMessage::Maximize(false),
            *final(self) == (Toplevel { maximized: false, configure_due: true, ..*old(self) }),
    {
        self.maximized = false;
        self.configure_due = true;
        CompositorMessage::Maximize(false)
    }

    /// Enters the fullscreen state at `size`; the host window is to go
    /// fullscreen too.
    pub fn fullscreen(&mut self, size: Size) -> (msg: CompositorMessage)
        ensures
            msg == CompositorMessage::Fullscreen(true),
            *final(self) == (Toplevel {
                fullscreen: true,
                size: Some(size),
                configure_due: true,
                ..*old(self)
            }),
    {
        self.fullscreen = true;
        self.size = Some(size);
        self.configure_due = true;
        CompositorMessage::Fullscreen(true)
    }

    /// Leaves the fullscreen state, keeping the size last asked for.
    pub fn unfullscreen(&mut self) -> (msg: CompositorMessage)
        ensures
            msg == CompositorMessage::Fullscreen(false),
            *final(self) == (Toplevel { fullscreen: false, configure_due: true, ..*old(self) }),
    {
        self.fullscreen = false;
        self.configure_due = true;
        CompositorMessage::Fullscreen(false)
    }

    /// Reports whether a configure is owed, and settles the debt.
    pub fn take_configure(&mut self) -> (due: bool)
        ensures
            due == old(self).configure_due,
            *final(self) == (Toplevel { configure_due: false, ..*old(self) }),
    {
        let due = self.configure_due;
        self.configure_due = false;
        due
    }
}

} // verus!
