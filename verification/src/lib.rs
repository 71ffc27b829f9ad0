//! The verified core of a Wayland layer-shell panel: how seat input becomes
//! immediate-mode GUI input, which widget a surface event belongs to, and the
//! decisions the event handlers make before any drawing happens.
//!
//! Everything that talks to the compositor, EGL or OpenGL lives outside this
//! crate; the types here hold, as plain values, what those decisions read.

pub mod input;
pub mod widget;
pub mod app;
pub mod egl;
