//! Pointer tracking: which window events pan or zoom the plot, and from where.
//!
//! The tracker never looks into a position or a zoom factor. It only remembers
//! positions and hands them on, so both are type parameters.

use vstd::prelude::*;

verus! {

/// What the tracker remembers between two events.
pub struct Input<P> {
    /// Where the pointer was when the left button went down, while it is held.
    pub is_mouse_down: Option<P>,
    /// Where the pointer was last seen, while it is over the window.
    pub prior_position: Option<P>,
}

/// A window event, reduced to what the plot reacts to.
pub enum Event<P, F> {
    /// The window was asked to close.
    CloseRequested,
    /// The escape key was pressed.
    EscapePressed,
    /// The window has a new size in physical pixels.
    Resized { width: u32, height: u32 },
    /// The left mouse button went down (`pressed`) or up.
    LeftButton { pressed: bool },
    /// The pointer left the window.
    CursorLeft,
    /// The wheel was turned; `factor` is the zoom factor that the turn stands for.
    MouseWheel { factor: F },
    /// The pointer moved to `position`.
    CursorMoved { position: P },
    /// The window has to be drawn.
    RedrawRequested,
    /// Anything else.
    Other,
}

/// What the shell has to do in response to an event.
pub enum Action<P, F> {
    /// Nothing.
    Ignore,
    /// Leave the event loop.
    Exit,
    /// Resize the surface and the layout.
    Resize { width: u32, height: u32 },
    /// Zoom by `factor` around the pixel `anchor`.
    Zoom { anchor: P, factor: F },
    /// Pan by the move from `prior` to `current`, in a drag that began at `start`.
    Drag { start: P, prior: P, current: P },
    /// Draw a frame.
    Render,
}

impl<P, F> Action<P, F> {
    /// Whether the action changes what the window shows, so that a redraw has
    /// to be requested once it is done.
    pub open spec fn spec_needs_redraw(&self) -> bool {
        self is Resize || self is Zoom || self is Drag
    }

    /// Tests whether a redraw has to be requested after the action.
    pub fn needs_redraw(&self) -> (needed: bool)
        ensures
            needed == self.spec_needs_redraw(),
    {
        match self {
            Action::Resize { .. } | Action::Zoom { .. } | Action::Drag { .. } => true,
            _ => false,
        }
    }
}

impl<P> Input<P> {
    /// The tracker after `event`.
    ///
    /// Pressing the left button starts a drag at the last known position, if
    /// there is one; releasing it ends the drag. Leaving the window forgets the
    /// position, and every move records the new one.
    pub open spec fn after<F>(self, event: Event<P, F>) -> Self {
        match event {
            Event::LeftButton { pressed } => Input {
                is_mouse_down: if pressed {
                    self.prior_position
                } else {
                    None
                },
                prior_position: self.prior_position,
            },
            Event::CursorLeft => Input {
                is_mouse_down: self.is_mouse_down,
                prior_position: None,
            },
            Event::CursorMoved { position } => Input {
                is_mouse_down: self.is_mouse_down,
                prior_position: Some(position),
            },
            _ => self,
        }
    }

    /// What `event` asks of the shell.
    ///
    /// The wheel zooms around the last known position and does nothing without
    /// one. A move pans while a drag is on and a prior position is known.
    pub open spec fn reaction<F>(self, event: Event<P, F>) -> Action<P, F> {
        match event {
            Event::CloseRequested | Event::EscapePressed => Action::Exit,
            Event::Resized { width, height } => Action::Resize { width, height },
            Event::MouseWheel { factor } => match self.prior_position {
                Some(anchor) => Action::Zoom { anchor, factor },
                None => Action::Ignore,
            },
            Event::CursorMoved { position } => match (self.is_mouse_down, self.prior_position) {
                (Some(start), Some(prior)) => Action::Drag { start, prior, current: position },
                _ => Action::Ignore,
            },
            Event::RedrawRequested => Action::Render,
            _ => Action::Ignore,
        }
    }
}

impl<P: Copy> Input<P> {
    /// A tracker that has seen no pointer yet.
    pub fn new() -> (input: Self)
        ensures
            input.is_mouse_down is None,
            input.prior_position is None,
    {
        Input { is_mouse_down: None, prior_position: None }
    }

    /// Takes one event: updates the tracker and says what to do.
    pub fn handle<F>(&mut self, event: Event<P, F>) -> (action: Action<P, F>)
        ensures
            *final(self) == old(self).after(event),
            action == old(self).reaction(event),
    {
        match event {
            Event::CloseRequested => Action::Exit,
            Event::EscapePressed => Action::Exit,
            Event::Resized { width, height } => Action::Resize { width, height },
            Event::LeftButton { pressed } => {
                self.is_mouse_down = if pressed {
                    self.prior_position
                } else {
                    None
                };
                Action::Ignore
            },
            Event::CursorLeft => {
                self.prior_position = None;
                Action::Ignore
            },
            Event::MouseWheel { factor } => match self.prior_position {
                Some(anchor) => Action::Zoom { anchor, factor },
                None => Action::Ignore,
            },
            Event::CursorMoved { position } => {
                let action = match (self.is_mouse_down, self.prior_position) {
                    (Some(start), Some(prior)) => Action::Drag { start, prior, current: position },
                    _ => Action::Ignore,
                };
                self.prior_position = Some(position);
                action
            },
            Event::RedrawRequested => Action::Render,
            Event::Other => Action::Ignore,
        }
    }
}

} // verus!
