//! A modal text-editing control layer.
//!
//! The crate tracks, per editing surface of a host application, which
//! editing mode is active, resolves symbolic motions against a display
//! layout, and decides how the host surface's visuals (cursor shape,
//! keybinding context layer) must be updated to stay consistent with
//! the current mode.
//!
//! The host itself (its surfaces, focus events, settings store and
//! keystroke stream) is outside this crate: every entry point here is a
//! pure computation or a state transition from plain values to plain
//! values, and the host-side shim performs the effects it decides.

pub mod dispatcher;
pub mod motion;
pub mod settings;
pub mod state;
