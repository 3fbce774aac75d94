//! Proved laws of the update.
//!
//! Each public proof function here states a behavioural guarantee of
//! the reducer or of the frame reset over the model in
//! [`crate::model`], exactly as the executable contracts expose it.

use vstd::prelude::*;

use crate::event::KeyCode;
use crate::event::RawEvent;
use crate::model::InputModel;
use crate::model::frame_reset;
use crate::model::mentions_key;
use crate::model::reduce_model;
use crate::model::step_model;
use crate::model::update_model;
use crate::model::zero_axis;

verus! {

broadcast use vstd::seq_lib::group_seq_properties;

/// Folding a batch never touches the control fields: the capture flag
/// and the applied cursor mode are exactly what they were before the
/// batch.
pub proof fn lemma_reduce_keeps_control_fields(
    s: InputModel,
    extent: (u32, u32),
    events: Seq<RawEvent>,
)
    ensures
        reduce_model(s, extent, events).hide_mouse == s.hide_mouse,
        reduce_model(s, extent, events).cursor_mode == s.cursor_mode,
    decreases events.len(),
{
    if events.len() > 0 {
        lemma_reduce_keeps_control_fields(s, extent, events.drop_last());
    }
}

/// A key that no event of the batch mentions keeps its held/not-held
/// status across the fold, and never enters the pressed or released
/// sequence.
pub proof fn lemma_reduce_untouched_key(
    s: InputModel,
    extent: (u32, u32),
    events: Seq<RawEvent>,
    k: KeyCode,
)
    requires
        forall|i: int| 0 <= i < events.len() ==> !mentions_key(#[trigger] events[i], k),
    ensures
        reduce_model(s, extent, events).keys_down.contains(k) == s.keys_down.contains(k),
        reduce_model(s, extent, events).keys_pressed.contains(k) == s.keys_pressed.contains(k),
        reduce_model(s, extent, events).keys_released.contains(k) == s.keys_released.contains(k),
    decreases events.len(),
{
    if events.len() > 0 {
        assert forall|i: int| 0 <= i < events.drop_last().len() implies !mentions_key(
            #[trigger] events.drop_last()[i],
            k,
        ) by {
            assert(events.drop_last()[i] == events[i]);
        }
        lemma_reduce_untouched_key(s, extent, events.drop_last(), k);
        assert(!mentions_key(events.last(), k));
    }
}

/// A key never mentioned in a batch keeps its `keys_down` membership
/// across a whole update, and is absent from that update's
/// `keys_pressed` and `keys_released`.
pub proof fn law_unmentioned_key_stable(
    s: InputModel,
    extent: (u32, u32),
    events: Seq<RawEvent>,
    k: KeyCode,
)
    requires
        forall|i: int| 0 <= i < events.len() ==> !mentions_key(#[trigger] events[i], k),
    ensures
        update_model(s, extent, events).keys_down.contains(k) == s.keys_down.contains(k),
        !update_model(s, extent, events).keys_pressed.contains(k),
        !update_model(s, extent, events).keys_released.contains(k),
{
    lemma_reduce_untouched_key(frame_reset(s), extent, events, k);
}

/// Pressing and then releasing the same key within one batch leaves
/// the key out of `keys_down` and in both `keys_pressed` and
/// `keys_released` once the update is reduced.
pub proof fn law_press_then_release(
    s: InputModel,
    extent: (u32, u32),
    events: Seq<RawEvent>,
    k: KeyCode,
)
    requires
        events.len() == 2,
        events[0] == (RawEvent::Key { pressed: true, code: Option::Some(k) }),
        events[1] == (RawEvent::Key { pressed: false, code: Option::Some(k) }),
    ensures
        !update_model(s, extent, events).keys_down.contains(k),
        update_model(s, extent, events).keys_pressed.contains(k),
        update_model(s, extent, events).keys_released.contains(k),
{
    let s1 = frame_reset(s);
    let first = events.drop_last();
    assert(first.len() == 1);
    assert(first.drop_last() =~= Seq::<RawEvent>::empty());
    assert(first.last() == events[0]);
    assert(events.last() == events[1]);
    let r1 = step_model(s1, extent, events[0]);
    assert(reduce_model(s1, extent, first.drop_last()) == s1);
    assert(reduce_model(s1, extent, first) == r1);
    let r2 = step_model(r1, extent, events[1]);
    assert(reduce_model(s1, extent, events) == r2);
    assert(!r2.keys_down.contains(k));
    assert(r2.keys_pressed.contains(k));
    assert(r2.keys_released.contains(k));
}

/// Clearing the transient fields twice in a row is the same as
/// clearing them once: a `begin_frame` with no events between it and
/// the next is absorbed.
pub proof fn law_begin_frame_idempotent(s: InputModel)
    ensures
        frame_reset(frame_reset(s)) == frame_reset(s),
{
    assert(frame_reset(frame_reset(s)) =~~= frame_reset(s));
}

/// Round trip from rest: an update that presses `k`, a later update
/// that releases `k`, and a further update with no events leave
/// `keys_down` empty and the final update's `keys_pressed` and
/// `keys_released` empty.
pub proof fn law_press_release_round_trip(
    s: InputModel,
    extent1: (u32, u32),
    extent2: (u32, u32),
    extent3: (u32, u32),
    press: Seq<RawEvent>,
    release: Seq<RawEvent>,
    quiet: Seq<RawEvent>,
    k: KeyCode,
)
    requires
        s.keys_down == Set::<KeyCode>::empty(),
        press.len() == 1,
        press[0] == (RawEvent::Key { pressed: true, code: Option::Some(k) }),
        release.len() == 1,
        release[0] == (RawEvent::Key { pressed: false, code: Option::Some(k) }),
        quiet.len() == 0,
    ensures
        ({
            let m = update_model(
                update_model(update_model(s, extent1, press), extent2, release),
                extent3,
                quiet,
            );
            &&& m.keys_down == Set::<KeyCode>::empty()
            &&& m.keys_pressed == Seq::<KeyCode>::empty()
            &&& m.keys_released == Seq::<KeyCode>::empty()
        }),
{
    let f1 = frame_reset(s);
    assert(press.drop_last() =~= Seq::<RawEvent>::empty());
    assert(press.last() == press[0]);
    assert(reduce_model(f1, extent1, press.drop_last()) == f1);
    assert(reduce_model(f1, extent1, press) == step_model(f1, extent1, press[0]));
    let m1 = update_model(s, extent1, press);
    assert(m1.keys_down == f1.keys_down.insert(k));
    let f2 = frame_reset(m1);
    assert(release.drop_last() =~= Seq::<RawEvent>::empty());
    assert(release.last() == release[0]);
    assert(reduce_model(f2, extent2, release.drop_last()) == f2);
    assert(reduce_model(f2, extent2, release) == step_model(f2, extent2, release[0]));
    let m2 = update_model(m1, extent2, release);
    assert(m2.keys_down == m1.keys_down.remove(k));
    assert(m2.keys_down =~= Set::<KeyCode>::empty());
    let f3 = frame_reset(m2);
    assert(reduce_model(f3, extent3, quiet) == f3);
    let m3 = update_model(m2, extent3, quiet);
    assert(m3.keys_down == m2.keys_down);
}

/// A zero window extent on both axes yields a zero pointer delta for
/// any batch, cursor moves included, without any arithmetic fault: the
/// normalization degrades to the zero ratio instead of dividing.
pub proof fn law_zero_extent_zero_delta(s: InputModel, extent: (u32, u32), events: Seq<RawEvent>)
    requires
        extent.0 == 0,
        extent.1 == 0,
    ensures
        update_model(s, extent, events).pointer_delta == (zero_axis(), zero_axis()),
{
    lemma_reduce_keeps_zero_delta(frame_reset(s), extent, events);
}

/// Folding any batch under a zero extent keeps a zero pointer delta:
/// events other than cursor moves leave the delta alone, and a cursor
/// move under a zero extent normalizes to the zero ratio.
pub proof fn lemma_reduce_keeps_zero_delta(
    s: InputModel,
    extent: (u32, u32),
    events: Seq<RawEvent>,
)
    requires
        extent.0 == 0,
        extent.1 == 0,
        s.pointer_delta == (zero_axis(), zero_axis()),
    ensures
        reduce_model(s, extent, events).pointer_delta == (zero_axis(), zero_axis()),
    decreases events.len(),
{
    if events.len() > 0 {
        lemma_reduce_keeps_zero_delta(s, extent, events.drop_last());
    }
}

} // verus!
