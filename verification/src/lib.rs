//! Per-frame input state tracking.
//!
//! This library folds a batch of raw window and device events (key and
//! button transitions, cursor motion, scrolling, text) into a coherent
//! snapshot of input state that a real-time application reads once per
//! frame, and drives a small two-state cursor-capture controller that
//! emits at most one corrective action per frame.
//!
//! The embedding application owns the windowing layer: it retrieves the
//! raw events, hands them to [`Input::update_inputs`] as plain values,
//! and performs the cursor actions that the returned
//! [`CursorDirectives`] request.

mod event;
pub mod laws;
pub mod model;
mod state;

pub use event::AxisDelta;
pub use event::ButtonId;
pub use event::CursorDirectives;
pub use event::CursorMode;
pub use event::InputError;
pub use event::KeyCode;
pub use event::RawEvent;
pub use model::InputModel;
pub use state::Input;
