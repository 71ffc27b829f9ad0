//! The interface that every panel widget offers to the application, stated
//! over abstract views so that the application's event handling can be proved
//! for any widget.

pub mod top_bar;

use vstd::prelude::*;

use crate::input::{InputEvent, KeyEvent, Modifiers, PointerEvent, SeatModifiers};

verus! {

/// What a widget hands to the renderer for one frame: the surface to draw on,
/// the size of the frame, and the input that arrived since the last frame.
#[derive(Debug)]
pub struct FrameInput<P, E> {
    pub surface: E,
    pub width: u32,
    pub height: u32,
    pub events: Vec<InputEvent<P>>,
    pub modifiers: Modifiers,
}

/// A widget shown on its own layer surface.
///
/// `Position` is the type of pointer positions, `EglSurface` the handle of the
/// EGL surface the widget draws on, and `WlEglSurface` the native window that
/// backs that EGL surface.
pub trait Widget: Sized {
    type Position;

    type EglSurface: Copy;

    type WlEglSurface;

    /// The protocol id of the widget's layer surface.
    spec fn surface_spec(&self) -> u32;

    /// The widget's size as last configured.
    spec fn size_spec(&self) -> (u32, u32);

    /// The EGL surface attached to the widget, if any.
    spec fn egl_surface_spec(&self) -> Option<Self::EglSurface>;

    /// The native window attached to the widget, if any.
    spec fn wl_egl_surface_spec(&self) -> Option<Self::WlEglSurface>;

    /// `next` is this widget after being resized to `width` by `height`.
    spec fn resized(&self, width: u32, height: u32, next: Self) -> bool;

    /// The widget can take this pointer event.
    spec fn accepts_pointer_event(event: PointerEvent<Self::Position>) -> bool;

    /// `next` is this widget after taking `event`, and `redraw` says whether
    /// the widget needs to be drawn again.
    spec fn pointer_handled(
        &self,
        event: PointerEvent<Self::Position>,
        next: Self,
        redraw: bool,
    ) -> bool;

    /// `next` is this widget after taking the key event.
    spec fn key_handled(&self, event: KeyEvent, next: Self) -> bool;

    /// `next` is this widget after the keyboard's modifiers changed.
    spec fn modifiers_handled(&self, modifiers: SeatModifiers, next: Self) -> bool;

    /// `next` is this widget after a draw request, and `frame` is what it
    /// handed to the renderer; `gl_ready` says whether a GL context exists.
    spec fn drawn(
        &self,
        gl_ready: bool,
        next: Self,
        frame: Option<FrameInput<Self::Position, Self::EglSurface>>,
    ) -> bool;

    fn surface_id(&self) -> (id: u32)
        ensures
            id == self.surface_spec(),
    ;

    fn size(&self) -> (size: (u32, u32))
        ensures
            size == self.size_spec(),
    ;

    fn set_size(&mut self, width: u32, height: u32)
        ensures
            old(self).resized(width, height, *final(self)),
            final(self).size_spec() == (width, height),
            final(self).surface_spec() == old(self).surface_spec(),
            final(self).egl_surface_spec() == old(self).egl_surface_spec(),
            final(self).wl_egl_surface_spec() == old(self).wl_egl_surface_spec(),
    ;

    fn handle_pointer_event(&mut self, pointer_event: &PointerEvent<Self::Position>) -> (redraw:
        bool)
        requires
            Self::accepts_pointer_event(*pointer_event),
        ensures
            old(self).pointer_handled(*pointer_event, *final(self), redraw),
            final(self).surface_spec() == old(self).surface_spec(),
            final(self).size_spec() == old(self).size_spec(),
            final(self).egl_surface_spec() == old(self).egl_surface_spec(),
            final(self).wl_egl_surface_spec() == old(self).wl_egl_surface_spec(),
    ;

    fn handle_keyboard_event(&mut self, keyboard_event: &KeyEvent)
        ensures
            old(self).key_handled(*keyboard_event, *final(self)),
            final(self).surface_spec() == old(self).surface_spec(),
            final(self).size_spec() == old(self).size_spec(),
            final(self).egl_surface_spec() == old(self).egl_surface_spec(),
            final(self).wl_egl_surface_spec() == old(self).wl_egl_surface_spec(),
    ;

    fn handle_keyboard_modifiers(&mut self, modifiers: &SeatModifiers)
        ensures
            old(self).modifiers_handled(*modifiers, *final(self)),
            final(self).surface_spec() == old(self).surface_spec(),
            final(self).size_spec() == old(self).size_spec(),
            final(self).egl_surface_spec() == old(self).egl_surface_spec(),
            final(self).wl_egl_surface_spec() == old(self).wl_egl_surface_spec(),
    ;

    fn egl_surface(&self) -> (surface: Option<Self::EglSurface>)
        ensures
            surface == self.egl_surface_spec(),
    ;

    fn set_egl_surface(&mut self, egl_surface: Self::EglSurface)
        ensures
            final(self).egl_surface_spec() == Some(egl_surface),
            final(self).surface_spec() == old(self).surface_spec(),
            final(self).size_spec() == old(self).size_spec(),
            final(self).wl_egl_surface_spec() == old(self).wl_egl_surface_spec(),
    ;

    fn wl_egl_surface(&self) -> (surface: Option<&Self::WlEglSurface>)
        ensures
            match surface {
                Some(s) => self.wl_egl_surface_spec() == Some(*s),
                None => self.wl_egl_surface_spec() is None,
            },
    ;

    fn set_wl_egl_surface(&mut self, wl_egl_surface: Self::WlEglSurface)
        ensures
            final(self).wl_egl_surface_spec() == Some(wl_egl_surface),
            final(self).surface_spec() == old(self).surface_spec(),
            final(self).size_spec() == old(self).size_spec(),
            final(self).egl_surface_spec() == old(self).egl_surface_spec(),
    ;

    fn draw_widget(&mut self, gl_ready: bool) -> (frame: Option<
        FrameInput<Self::Position, Self::EglSurface>,
    >)
        ensures
            old(self).drawn(gl_ready, *final(self), frame),
            final(self).surface_spec() == old(self).surface_spec(),
            final(self).size_spec() == old(self).size_spec(),
            final(self).egl_surface_spec() == old(self).egl_surface_spec(),
            final(self).wl_egl_surface_spec() == old(self).wl_egl_surface_spec(),
            frame is Some <==> {
                &&& old(self).size_spec().0 != 0
                &&& old(self).size_spec().1 != 0
                &&& old(self).egl_surface_spec() is Some
                &&& gl_ready
            },
    ;
}

} // verus!
