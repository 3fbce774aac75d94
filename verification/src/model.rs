//! Mathematical model of an update.
//!
//! [`InputModel`] is the abstract value of a [`crate::Input`] store:
//! down-sets as mathematical sets, edge-sets and text as sequences, and
//! the scalar fields verbatim. The functions here say exactly what one
//! update does to it: [`frame_reset`] clears the transient fields,
//! [`step_model`] applies one event, [`reduce_model`] folds a batch in
//! arrival order, and [`update_model`] composes the three phases of an
//! update, reconciliation included.

use vstd::prelude::*;

use crate::event::AxisDelta;
use crate::event::ButtonId;
use crate::event::CursorDirectives;
use crate::event::CursorMode;
use crate::event::InputError;
use crate::event::KeyCode;
use crate::event::RawEvent;

verus! {

/// The set of members of a sequence; the down-sets of the store are
/// read this way from their backing vectors.
pub open spec fn seq_members<T>(s: Seq<T>) -> Set<T> {
    Set::new(|x: T| s.contains(x))
}

/// Abstract value of the frame state store.
#[verifier::ext_equal]
pub ghost struct InputModel {
    /// Last known absolute cursor position, in window coordinates.
    pub pointer_position: (i32, i32),
    /// Normalized offset from the window center to the cursor, one
    /// exact ratio per axis.
    pub pointer_delta: (AxisDelta, AxisDelta),
    /// Last relative motion reported by the device, as `f32` bit
    /// patterns.
    pub raw_pointer_delta: (u32, u32),
    /// Last scroll offset of the frame, as `f32` bit patterns.
    pub wheel_delta: (u32, u32),
    /// Keys currently held.
    pub keys_down: Set<KeyCode>,
    /// Keys that transitioned down this update, in arrival order.
    pub keys_pressed: Seq<KeyCode>,
    /// Keys that transitioned up this update, in arrival order.
    pub keys_released: Seq<KeyCode>,
    /// Characters produced this update, in arrival order.
    pub text_input: Seq<char>,
    /// Buttons currently held.
    pub buttons_down: Set<ButtonId>,
    /// Buttons that transitioned down this update, in arrival order.
    pub buttons_pressed: Seq<ButtonId>,
    /// Buttons that transitioned up this update, in arrival order.
    pub buttons_released: Seq<ButtonId>,
    /// Whether the caller wants the cursor hidden and captured.
    pub hide_mouse: bool,
    /// The mode last applied to the real cursor.
    pub cursor_mode: CursorMode,
}

/// The zero value of one normalized delta axis.
pub open spec fn zero_axis() -> AxisDelta {
    AxisDelta { num: 0, den: 1 }
}

/// Normalized delta for one axis: the window center minus the cursor
/// coordinate, over the window extent. A zero extent degrades to the
/// zero ratio instead of dividing by zero.
pub open spec fn norm_axis(extent: u32, coord: i32) -> AxisDelta {
    if extent == 0 {
        zero_axis()
    } else {
        AxisDelta { num: (extent as int / 2 - coord as int) as i64, den: extent }
    }
}

/// The state a store is created with: everything empty or zero, the
/// cursor free, and capture desired.
pub open spec fn initial_model() -> InputModel {
    InputModel {
        pointer_position: (0, 0),
        pointer_delta: (zero_axis(), zero_axis()),
        raw_pointer_delta: (0, 0),
        wheel_delta: (0, 0),
        keys_down: Set::empty(),
        keys_pressed: Seq::empty(),
        keys_released: Seq::empty(),
        text_input: Seq::empty(),
        buttons_down: Set::empty(),
        buttons_pressed: Seq::empty(),
        buttons_released: Seq::empty(),
        hide_mouse: true,
        cursor_mode: CursorMode::Free,
    }
}

/// Clearing of the transient fields at the start of an update: the
/// edge-sets, text and deltas become empty or zero, while level state
/// (positions, down-sets, the capture flag and the applied cursor mode)
/// is untouched.
pub open spec fn frame_reset(s: InputModel) -> InputModel {
    InputModel {
        pointer_delta: (zero_axis(), zero_axis()),
        raw_pointer_delta: (0, 0),
        wheel_delta: (0, 0),
        keys_pressed: Seq::empty(),
        keys_released: Seq::empty(),
        text_input: Seq::empty(),
        buttons_pressed: Seq::empty(),
        buttons_released: Seq::empty(),
        ..s
    }
}

/// The transition one event applies to the store. Presses enter both
/// the down-set and the pressed-set (a repeat while held passes through
/// as another press); releases leave the down-set and enter the
/// released-set, whether or not the key was held; motion and scroll
/// overwrite their delta, so the last event of a batch wins; an
/// unresolvable key and an unhandled event change nothing.
pub open spec fn step_model(s: InputModel, extent: (u32, u32), e: RawEvent) -> InputModel {
    match e {
        RawEvent::Key { pressed, code } => match code {
            Option::Some(k) => if pressed {
                InputModel {
                    keys_down: s.keys_down.insert(k),
                    keys_pressed: s.keys_pressed.push(k),
                    ..s
                }
            } else {
                InputModel {
                    keys_down: s.keys_down.remove(k),
                    keys_released: s.keys_released.push(k),
                    ..s
                }
            },
            Option::None => s,
        },
        RawEvent::CursorMoved { x, y } => InputModel {
            pointer_position: (x, y),
            pointer_delta: (norm_axis(extent.0, x), norm_axis(extent.1, y)),
            ..s
        },
        RawEvent::DeviceMotion { dx_bits, dy_bits } => InputModel {
            raw_pointer_delta: (dx_bits, dy_bits),
            ..s
        },
        RawEvent::Button { pressed, id } => if pressed {
            InputModel {
                buttons_down: s.buttons_down.insert(id),
                buttons_pressed: s.buttons_pressed.push(id),
                ..s
            }
        } else {
            InputModel {
                buttons_down: s.buttons_down.remove(id),
                buttons_released: s.buttons_released.push(id),
                ..s
            }
        },
        RawEvent::WheelLines { x_bits, y_bits } => InputModel {
            wheel_delta: (x_bits, y_bits),
            ..s
        },
        RawEvent::WheelPixels { x_bits, y_bits } => InputModel {
            wheel_delta: (x_bits, y_bits),
            ..s
        },
        RawEvent::Text { ch } => InputModel { text_input: s.text_input.push(ch), ..s },
        RawEvent::Unhandled => s,
    }
}

/// Folding a whole batch into the store, in arrival order.
pub open spec fn reduce_model(s: InputModel, extent: (u32, u32), events: Seq<RawEvent>) -> InputModel
    decreases events.len(),
{
    if events.len() == 0 {
        s
    } else {
        step_model(reduce_model(s, extent, events.drop_last()), extent, events.last())
    }
}

/// Whether an event is a key transition of `k` (press or release).
pub open spec fn mentions_key(e: RawEvent, k: KeyCode) -> bool {
    match e {
        RawEvent::Key { pressed: _, code } => code == Option::Some(k),
        _ => false,
    }
}

/// How one event degrades, if it does: an unresolvable key is
/// dropped, and a cursor move under a zero extent has its
/// normalization degraded to a zero ratio. Everything else succeeds.
pub open spec fn event_outcome(extent: (u32, u32), e: RawEvent) -> Result<(), InputError> {
    match e {
        RawEvent::Key { pressed: _, code } => match code {
            Option::Some(_) => Result::Ok(()),
            Option::None => Result::Err(InputError::UnmappableEvent),
        },
        RawEvent::CursorMoved { x: _, y: _ } => if extent.0 == 0 || extent.1 == 0 {
            Result::Err(InputError::ConfigurationError)
        } else {
            Result::Ok(())
        },
        _ => Result::Ok(()),
    }
}

/// The cursor mode the caller's capture flag asks for.
pub open spec fn desired_mode(hide_mouse: bool) -> CursorMode {
    if hide_mouse {
        CursorMode::Grabbed
    } else {
        CursorMode::Free
    }
}

/// Reconciliation's effect on the store: the applied cursor mode
/// becomes the desired one; nothing else changes.
pub open spec fn reconcile_model(s: InputModel) -> InputModel {
    InputModel { cursor_mode: desired_mode(s.hide_mouse), ..s }
}

/// The actions reconciliation requests of the windowing layer: a mode
/// switch exactly when the applied mode disagrees with the desired one,
/// and a recentering to the window's center on every update on which
/// capture is desired.
pub open spec fn directives_model(
    hide_mouse: bool,
    applied: CursorMode,
    extent: (u32, u32),
) -> CursorDirectives {
    CursorDirectives {
        mode_switch: if desired_mode(hide_mouse) == applied {
            Option::None
        } else {
            Option::Some(desired_mode(hide_mouse))
        },
        recenter: if hide_mouse {
            Option::Some(((extent.0 / 2) as u32, (extent.1 / 2) as u32))
        } else {
            Option::None
        },
    }
}

/// One whole update: transient fields cleared, the batch folded in
/// arrival order, and the cursor mode reconciled.
pub open spec fn update_model(s: InputModel, extent: (u32, u32), events: Seq<RawEvent>) -> InputModel {
    reconcile_model(reduce_model(frame_reset(s), extent, events))
}

} // verus!
