//! The frame state store and the update that folds an event batch
//! into it.

use vstd::prelude::*;

use crate::event::AxisDelta;
use crate::event::ButtonId;
use crate::event::CursorDirectives;
use crate::event::CursorMode;
use crate::event::InputError;
use crate::event::KeyCode;
use crate::event::RawEvent;
use crate::model::InputModel;
use crate::model::directives_model;
use crate::model::event_outcome;
use crate::model::frame_reset;
use crate::model::initial_model;
use crate::model::norm_axis;
use crate::model::reconcile_model;
use crate::model::reduce_model;
use crate::model::seq_members;
use crate::model::step_model;
use crate::model::update_model;
use crate::laws::lemma_reduce_keeps_control_fields;

verus! {

broadcast use vstd::seq_lib::group_seq_properties;

/// Per-frame input state: level state (what is held, where the cursor
/// is, whether capture is wanted) persists across updates, while edge
/// state (what changed this frame) and the deltas are cleared at the
/// start of every update. Mutated only by [`Input::update_inputs`] and
/// the operations it is composed of; read freely between updates.
pub struct Input {
    /// Last known absolute cursor position, in window coordinates.
    pub pointer_position: (i32, i32),
    /// Offset from the window center to the cursor this frame,
    /// normalized per axis as an exact ratio; zero unless a cursor
    /// move arrived this update.
    pub pointer_delta: (AxisDelta, AxisDelta),
    /// Relative motion reported by the pointing device this update, as
    /// `f32` bit patterns; the last motion event of the batch wins.
    pub raw_pointer_delta: (u32, u32),
    /// Scroll offset this update, as `f32` bit patterns; the last
    /// wheel event of the batch wins.
    pub wheel_delta: (u32, u32),
    /// Keys currently held.
    pub keys_down: Vec<KeyCode>,
    /// Keys that transitioned down this update, in arrival order.
    pub keys_pressed: Vec<KeyCode>,
    /// Keys that transitioned up this update, in arrival order.
    pub keys_released: Vec<KeyCode>,
    /// Characters produced this update, in arrival order.
    pub text_input: Vec<char>,
    /// Buttons currently held.
    pub buttons_down: Vec<ButtonId>,
    /// Buttons that transitioned down this update, in arrival order.
    pub buttons_pressed: Vec<ButtonId>,
    /// Buttons that transitioned up this update, in arrival order.
    pub buttons_released: Vec<ButtonId>,
    /// Whether the caller wants the cursor hidden and captured.
    /// Caller-settable at any time between updates.
    pub hide_mouse: bool,
    /// The mode last applied to the real cursor. Maintained by
    /// reconciliation so that an update requests a platform change
    /// only when this disagrees with `hide_mouse`.
    pub cursor_mode: CursorMode,
}

impl View for Input {
    type V = InputModel;

    open spec fn view(&self) -> InputModel {
        InputModel {
            pointer_position: self.pointer_position,
            pointer_delta: self.pointer_delta,
            raw_pointer_delta: self.raw_pointer_delta,
            wheel_delta: self.wheel_delta,
            keys_down: seq_members(self.keys_down@),
            keys_pressed: self.keys_pressed@,
            keys_released: self.keys_released@,
            text_input: self.text_input@,
            buttons_down: seq_members(self.buttons_down@),
            buttons_pressed: self.buttons_pressed@,
            buttons_released: self.buttons_released@,
            hide_mouse: self.hide_mouse,
            cursor_mode: self.cursor_mode,
        }
    }
}

/// Removes every occurrence of `k` from `v`, so that membership in `v`
/// afterwards is membership before minus `k`.
fn remove_key(v: &mut Vec<KeyCode>, k: KeyCode)
    ensures
        forall|x: KeyCode|
            #[trigger] final(v)@.contains(x) <==> (old(v)@.contains(x) && x != k),
{
    let ghost v0: Seq<KeyCode> = v@;
    let mut kept: Vec<KeyCode> = Vec::new();
    let mut i: usize = 0;
    while i < v.len()
        invariant
            i <= v.len(),
            v@ == v0,
            forall|x: KeyCode|
                #[trigger] kept@.contains(x) <==> (v0.take(i as int).contains(x) && x != k),
        decreases v.len() - i,
    {
        if v[i].0 != k.0 {
            kept.push(v[i]);
        }
        i = i + 1;
        proof {
            assert(v0.take(i as int) =~= v0.take(i as int - 1).push(v0[i as int - 1]));
        }
    }
    proof {
        assert(v0.take(v0.len() as int) =~= v0);
    }
    *v = kept;
}

/// Removes every occurrence of `b` from `v`, so that membership in `v`
/// afterwards is membership before minus `b`.
fn remove_button(v: &mut Vec<ButtonId>, b: ButtonId)
    ensures
        forall|x: ButtonId|
            #[trigger] final(v)@.contains(x) <==> (old(v)@.contains(x) && x != b),
{
    let ghost v0: Seq<ButtonId> = v@;
    let mut kept: Vec<ButtonId> = Vec::new();
    let mut i: usize = 0;
    while i < v.len()
        invariant
            i <= v.len(),
            v@ == v0,
            forall|x: ButtonId|
                #[trigger] kept@.contains(x) <==> (v0.take(i as int).contains(x) && x != b),
        decreases v.len() - i,
    {
        if v[i].0 != b.0 {
            kept.push(v[i]);
        }
        i = i + 1;
        proof {
            assert(v0.take(i as int) =~= v0.take(i as int - 1).push(v0[i as int - 1]));
        }
    }
    proof {
        assert(v0.take(v0.len() as int) =~= v0);
    }
    *v = kept;
}

impl Input {
    /// Creates a store at rest: all sets empty, all deltas zero, the
    /// cursor free, and capture desired.
    pub fn new() -> (r: Input)
        ensures
            r@ == initial_model(),
    {
        let r = Input {
            pointer_position: (0, 0),
            pointer_delta: (AxisDelta { num: 0, den: 1 }, AxisDelta { num: 0, den: 1 }),
            raw_pointer_delta: (0, 0),
            wheel_delta: (0, 0),
            keys_down: Vec::new(),
            keys_pressed: Vec::new(),
            keys_released: Vec::new(),
            text_input: Vec::new(),
            buttons_down: Vec::new(),
            buttons_pressed: Vec::new(),
            buttons_released: Vec::new(),
            hide_mouse: true,
            cursor_mode: CursorMode::Free,
        };
        proof {
            assert(r@ =~~= initial_model());
        }
        r
    }

    /// Clears the transient fields (edge-sets, text, deltas) while
    /// leaving level state untouched. Called at the start of every
    /// update, before any event is folded in; a second call in a row
    /// changes nothing further.
    pub fn begin_frame(&mut self)
        ensures
            final(self)@ == frame_reset(old(self)@),
    {
        self.pointer_delta = (AxisDelta { num: 0, den: 1 }, AxisDelta { num: 0, den: 1 });
        self.raw_pointer_delta = (0, 0);
        self.wheel_delta = (0, 0);
        self.keys_pressed.clear();
        self.keys_released.clear();
        self.text_input.clear();
        self.buttons_pressed.clear();
        self.buttons_released.clear();
        proof {
            assert(self@ =~~= frame_reset(old(self)@));
        }
    }

    /// Applies the transition of one event to the store, push-style.
    ///
    /// The result reports how the event degraded, and is `Err` exactly
    /// for an unresolvable key (the event is dropped) and for a cursor
    /// move under a zero window extent (normalization degrades to a
    /// zero ratio on both axes rather than dividing by zero). Neither
    /// failure aborts anything: the state transition of the event is
    /// applied in full either way.
    pub fn apply_event(&mut self, extent: (u32, u32), e: &RawEvent) -> (r: Result<(), InputError>)
        ensures
            final(self)@ == step_model(old(self)@, extent, *e),
            r == event_outcome(extent, *e),
    {
        let mut outcome: Result<(), InputError> = Ok(());
        match *e {
            RawEvent::Key { pressed, code } => match code {
                Some(k) => {
                    if pressed {
                        self.keys_down.push(k);
                        self.keys_pressed.push(k);
                    } else {
                        remove_key(&mut self.keys_down, k);
                        self.keys_released.push(k);
                    }
                },
                None => {
                    outcome = Err(InputError::UnmappableEvent);
                },
            },
            RawEvent::CursorMoved { x, y } => {
                self.pointer_position = (x, y);
                self.pointer_delta = (Self::normalize_axis(extent.0, x), Self::normalize_axis(extent.1, y));
                if extent.0 == 0 || extent.1 == 0 {
                    outcome = Err(InputError::ConfigurationError);
                }
            },
            RawEvent::DeviceMotion { dx_bits, dy_bits } => {
                self.raw_pointer_delta = (dx_bits, dy_bits);
            },
            RawEvent::Button { pressed, id } => {
                if pressed {
                    self.buttons_down.push(id);
                    self.buttons_pressed.push(id);
                } else {
                    remove_button(&mut self.buttons_down, id);
                    self.buttons_released.push(id);
                }
            },
            RawEvent::WheelLines { x_bits, y_bits } => {
                self.wheel_delta = (x_bits, y_bits);
            },
            RawEvent::WheelPixels { x_bits, y_bits } => {
                self.wheel_delta = (x_bits, y_bits);
            },
            RawEvent::Text { ch } => {
                self.text_input.push(ch);
            },
            RawEvent::Unhandled => {},
        }
        proof {
            assert(self@ =~~= step_model(old(self)@, extent, *e));
        }
        outcome
    }

    /// Normalized delta for one axis: window center minus cursor
    /// coordinate, over the extent; the zero ratio when the extent is
    /// zero.
    fn normalize_axis(extent: u32, coord: i32) -> (r: AxisDelta)
        ensures
            r == norm_axis(extent, coord),
    {
        if extent == 0 {
            AxisDelta { num: 0, den: 1 }
        } else {
            AxisDelta { num: (extent / 2) as i64 - coord as i64, den: extent }
        }
    }

    /// Reconciles the applied cursor mode with the caller's capture
    /// flag and says what the windowing layer should do: switch modes
    /// exactly when the two disagree (so an unchanged flag never causes
    /// a redundant platform call), and recenter the cursor to the
    /// window's center on every update on which capture is desired.
    pub fn reconcile(&mut self, extent: (u32, u32)) -> (d: CursorDirectives)
        ensures
            final(self)@ == reconcile_model(old(self)@),
            d == directives_model(old(self)@.hide_mouse, old(self)@.cursor_mode, extent),
    {
        let desired = if self.hide_mouse {
            CursorMode::Grabbed
        } else {
            CursorMode::Free
        };
        let mode_switch: Option<CursorMode> = if desired == self.cursor_mode {
            None
        } else {
            Some(desired)
        };
        let recenter: Option<(u32, u32)> = if self.hide_mouse {
            Some((extent.0 / 2, extent.1 / 2))
        } else {
            None
        };
        self.cursor_mode = desired;
        proof {
            assert(self@ =~~= reconcile_model(old(self)@));
        }
        CursorDirectives { mode_switch, recenter }
    }

    /// Folds a whole batch into the store, one event at a time, in
    /// arrival order. Expected between [`Input::begin_frame`] and
    /// [`Input::reconcile`]; degraded events (unresolvable keys, zero
    /// extents) are recovered locally, exactly as
    /// [`Input::apply_event`] describes.
    pub fn reduce(&mut self, extent: (u32, u32), events: &Vec<RawEvent>)
        ensures
            final(self)@ == reduce_model(old(self)@, extent, events@),
    {
        let ghost s0: InputModel = self@;
        proof {
            assert(events@.take(0) =~= Seq::<RawEvent>::empty());
        }
        let mut i: usize = 0;
        while i < events.len()
            invariant
                i <= events.len(),
                self@ == reduce_model(s0, extent, events@.take(i as int)),
            decreases events.len() - i,
        {
            let _ = self.apply_event(extent, &events[i]);
            i = i + 1;
            proof {
                assert(events@.take(i as int).drop_last() =~= events@.take(i as int - 1));
                assert(events@.take(i as int).last() == events@[i as int - 1]);
            }
        }
        proof {
            assert(events@.take(events@.len() as int) =~= events@);
        }
    }

    /// One whole update: clears the transient fields, folds the batch
    /// into the store in arrival order, reconciles the cursor mode,
    /// and returns the cursor actions the windowing layer should
    /// perform. Degraded events (unresolvable keys, zero extents) are
    /// recovered locally, exactly as [`Input::apply_event`] describes.
    pub fn update_inputs(&mut self, extent: (u32, u32), events: &Vec<RawEvent>) -> (d: CursorDirectives)
        ensures
            final(self)@ == update_model(old(self)@, extent, events@),
            d == directives_model(old(self)@.hide_mouse, old(self)@.cursor_mode, extent),
    {
        let ghost s0: InputModel = self@;
        self.begin_frame();
        self.reduce(extent, events);
        proof {
            lemma_reduce_keeps_control_fields(frame_reset(s0), extent, events@);
        }
        self.reconcile(extent)
    }
}

/// `Input::new` is the default value.
impl Default for Input {
    fn default() -> (r: Input)
        ensures
            r@ == initial_model(),
    {
        Input::new()
    }
}

} // verus!
