//! Plain-value event and action types exchanged with the embedding
//! application.
//!
//! Fractional quantities that the library merely stores and hands back
//! (scroll offsets and raw device motion) travel as IEEE-754 single
//! precision bit patterns in `u32` fields: the library never does
//! arithmetic on them, it only records the last value seen, so the bits
//! are carried verbatim and the embedding converts at the boundary.

use vstd::prelude::*;

verus! {

/// Opaque identifier for a physical key. Only equality matters.
#[derive(Clone, Copy, PartialEq, Eq, Structural, Debug)]
pub struct KeyCode(pub u32);

/// Opaque identifier for a mouse button. Only equality matters.
#[derive(Clone, Copy, PartialEq, Eq, Structural, Debug)]
pub struct ButtonId(pub u32);

/// One axis of the normalized pointer delta, kept as the exact ratio
/// `num / den` so that no fractional arithmetic is needed: `num` is the
/// signed distance from the window's center line and `den` the window
/// extent on that axis. A zero delta is `num == 0, den == 1`.
#[derive(Clone, Copy, PartialEq, Eq, Structural, Debug)]
pub struct AxisDelta {
    /// Signed numerator: window center minus cursor coordinate.
    pub num: i64,
    /// Positive denominator: the window extent on this axis.
    pub den: u32,
}

/// A raw input event for one frame, already reduced to plain values by
/// the embedding application. Order within a batch is arrival order.
#[derive(Clone, Copy, Debug)]
pub enum RawEvent {
    /// A key changed state. `code` is `None` when the physical key
    /// could not be resolved to an identifier; such events are dropped.
    Key {
        /// `true` for a press, `false` for a release.
        pressed: bool,
        /// The resolved key, if any.
        code: Option<KeyCode>,
    },
    /// The cursor moved to an absolute position in window coordinates.
    CursorMoved {
        /// Horizontal position, in pixels from the window's left edge.
        x: i32,
        /// Vertical position, in pixels from the window's top edge.
        y: i32,
    },
    /// The pointing device reported relative motion, independent of the
    /// absolute cursor position.
    DeviceMotion {
        /// Horizontal motion, as an `f32` bit pattern.
        dx_bits: u32,
        /// Vertical motion, as an `f32` bit pattern.
        dy_bits: u32,
    },
    /// A mouse button changed state.
    Button {
        /// `true` for a press, `false` for a release.
        pressed: bool,
        /// The button concerned.
        id: ButtonId,
    },
    /// The wheel scrolled, measured in lines.
    WheelLines {
        /// Horizontal scroll amount, as an `f32` bit pattern.
        x_bits: u32,
        /// Vertical scroll amount, as an `f32` bit pattern.
        y_bits: u32,
    },
    /// The wheel scrolled, measured in pixels; the magnitudes are used
    /// directly, with no further scaling.
    WheelPixels {
        /// Horizontal scroll amount, as an `f32` bit pattern.
        x_bits: u32,
        /// Vertical scroll amount, as an `f32` bit pattern.
        y_bits: u32,
    },
    /// A character of composed text was produced.
    Text {
        /// The character received.
        ch: char,
    },
    /// Any event the reducer does not handle; ignored.
    Unhandled,
}

/// The ways an update can degrade. None of these aborts an update:
/// each is recovered locally, to a no-op for the tick.
#[derive(Clone, Copy, PartialEq, Eq, Structural, Debug)]
pub enum InputError {
    /// A window extent axis was zero; delta normalization on that axis
    /// degrades to zero instead of dividing by zero.
    ConfigurationError,
    /// An event named a key that could not be resolved; the event is
    /// dropped.
    UnmappableEvent,
    /// The windowing layer rejected a cursor visibility, grab or
    /// position request. Reported by the embedding; reconciliation
    /// retries on the next update.
    PlatformActionFailure,
}

/// The mode last applied to the real cursor, tracked so that an update
/// issues a platform request only when the desired mode disagrees.
#[derive(Clone, Copy, PartialEq, Eq, Structural, Debug)]
pub enum CursorMode {
    /// The cursor is visible and unconstrained.
    Free,
    /// The cursor is hidden and captured by the window.
    Grabbed,
}

/// The cursor actions one update asks the windowing layer to perform.
#[derive(Clone, Copy, PartialEq, Eq, Debug)]
pub struct CursorDirectives {
    /// `Some(mode)` when the physical cursor mode must change:
    /// `Grabbed` hides and captures the cursor, `Free` releases and
    /// shows it. `None` when the applied mode already agrees.
    pub mode_switch: Option<CursorMode>,
    /// `Some((x, y))` when the cursor should be recentered to the given
    /// window coordinates; issued on every update while capture is
    /// desired, so the center stays a stable reference point.
    pub recenter: Option<(u32, u32)>,
}

} // verus!
