use vstd::prelude::*;

use crate::event::{
    InputEvent, ABS_MT_POSITION_X, ABS_MT_POSITION_Y, ABS_MT_SLOT, ABS_MT_TRACKING_ID, EV_ABS,
    EV_KEY,
};
use crate::states::{finger_count, start_frame, start_slots, stop_frame, stop_slots, Fingers};

verus! {

/// What a consumer of the multi-touch protocol knows of the trackpad: the
/// selected slot, and per slot its tracking ID and position, and per key its
/// state.
pub struct Touchpad {
    pub slot: int,
    pub tracking: Map<int, int>,
    pub x: Map<int, int>,
    pub y: Map<int, int>,
    pub keys: Map<int, int>,
}

/// The effect of one event on the trackpad.
pub open spec fn apply_event(t: Touchpad, e: InputEvent) -> Touchpad {
    if e.event_type == EV_ABS && e.code == ABS_MT_SLOT {
        Touchpad { slot: e.value as int, ..t }
    } else if e.event_type == EV_ABS && e.code == ABS_MT_TRACKING_ID {
        Touchpad { tracking: t.tracking.insert(t.slot, e.value as int), ..t }
    } else if e.event_type == EV_ABS && e.code == ABS_MT_POSITION_X {
        Touchpad { x: t.x.insert(t.slot, e.value as int), ..t }
    } else if e.event_type == EV_ABS && e.code == ABS_MT_POSITION_Y {
        Touchpad { y: t.y.insert(t.slot, e.value as int), ..t }
    } else if e.event_type == EV_KEY {
        Touchpad { keys: t.keys.insert(e.code as int, e.value as int), ..t }
    } else {
        t
    }
}

/// The effect of a sequence of events, applied in order.
pub open spec fn replay(t: Touchpad, s: Seq<InputEvent>) -> Touchpad
    decreases s.len(),
{
    if s.len() == 0 {
        t
    } else {
        apply_event(replay(t, s.drop_last()), s.last())
    }
}

/// Tracking IDs after a swipe starts: slot `i` holds `i` for every finger,
/// any other slot keeps what it held.
pub open spec fn started_tracking(m: Map<int, int>, n: nat) -> Map<int, int> {
    Map::new(
        |i: int| m.contains_key(i) || 0 <= i < n,
        |i: int| if 0 <= i < n { i } else { m[i] },
    )
}

/// Tracking IDs after a swipe stops: every finger's slot holds -1, any other
/// slot keeps what it held.
pub open spec fn released_tracking(m: Map<int, int>, n: nat) -> Map<int, int> {
    Map::new(
        |i: int| m.contains_key(i) || 0 <= i < n,
        |i: int| if 0 <= i < n { -1 } else { m[i] },
    )
}

proof fn lemma_replay_append(t: Touchpad, a: Seq<InputEvent>, b: Seq<InputEvent>)
    ensures
        replay(t, a + b) == replay(replay(t, a), b),
    decreases b.len(),
{
    if b.len() == 0 {
        assert(a + b =~= a);
    } else {
        assert((a + b).drop_last() =~= a + b.drop_last());
        lemma_replay_append(t, a, b.drop_last());
    }
}

proof fn lemma_start_slots(t: Touchpad, n: nat)
    requires
        n <= 5,
    ensures
        replay(t, start_slots(n)).tracking == started_tracking(t.tracking, n),
    decreases n,
{
    if n == 0 {
        assert(started_tracking(t.tracking, 0) =~= t.tracking);
    } else {
        let k = (n - 1) as nat;
        let tail = start_slots(n).subrange(start_slots(k).len() as int, start_slots(n).len() as int);
        assert(start_slots(n) =~= start_slots(k) + tail);
        lemma_start_slots(t, k);
        lemma_replay_append(t, start_slots(k), tail);
        reveal_with_fuel(replay, 5);
        assert(tail.drop_last().drop_last().drop_last().drop_last() =~= seq![]);
        assert(replay(t, start_slots(n)).tracking =~= started_tracking(t.tracking, n));
    }
}

proof fn lemma_stop_slots(t: Touchpad, n: nat)
    requires
        n <= 5,
    ensures
        replay(t, stop_slots(n)).tracking == released_tracking(t.tracking, n),
    decreases n,
{
    if n == 0 {
        assert(released_tracking(t.tracking, 0) =~= t.tracking);
    } else {
        let k = (n - 1) as nat;
        let tail = stop_slots(n).subrange(stop_slots(k).len() as int, stop_slots(n).len() as int);
        assert(stop_slots(n) =~= stop_slots(k) + tail);
        lemma_stop_slots(t, k);
        lemma_replay_append(t, stop_slots(k), tail);
        reveal_with_fuel(replay, 3);
        assert(tail.drop_last().drop_last() =~= seq![]);
        assert(replay(t, stop_slots(n)).tracking =~= released_tracking(t.tracking, n));
    }
}

proof fn lemma_frames(t: Touchpad, f: Fingers)
    ensures
        replay(t, start_frame(f)).tracking == started_tracking(t.tracking, finger_count(f)),
        replay(t, stop_frame(f)).tracking == released_tracking(t.tracking, finger_count(f)),
{
    let n = finger_count(f);
    let start_keys = start_frame(f).subrange(start_slots(n).len() as int, start_frame(f).len() as int);
    assert(start_frame(f) =~= start_slots(n) + start_keys);
    lemma_start_slots(t, n);
    lemma_replay_append(t, start_slots(n), start_keys);
    let stop_keys = stop_frame(f).subrange(stop_slots(n).len() as int, stop_frame(f).len() as int);
    assert(stop_frame(f) =~= stop_slots(n) + stop_keys);
    lemma_stop_slots(t, n);
    lemma_replay_append(t, stop_slots(n), stop_keys);
    reveal_with_fuel(replay, 3);
    assert(start_keys.drop_last().drop_last() =~= seq![]);
    assert(stop_keys.drop_last().drop_last() =~= seq![]);
}

/// Starting a swipe with `f` fingers gives slots `0..f` the tracking IDs
/// `0..f`, and stopping it sets the tracking ID of each of those slots to -1;
/// no other slot changes. This holds from any prior state of the trackpad, so
/// in every start/stop cycle, and a second cycle leaves the tracking IDs
/// exactly as the first one left them.
pub proof fn lemma_tracking_ids(t: Touchpad, f: Fingers)
    ensures
        replay(t, start_frame(f)).tracking == started_tracking(t.tracking, finger_count(f)),
        replay(t, stop_frame(f)).tracking == released_tracking(t.tracking, finger_count(f)),
        forall|i: int|
            0 <= i < finger_count(f) ==> #[trigger] replay(t, start_frame(f)).tracking[i] == i,
        forall|i: int|
            0 <= i < finger_count(f) ==> #[trigger] replay(t, stop_frame(f)).tracking[i] == -1,
        ({
            let cycle = start_frame(f) + stop_frame(f);
            replay(replay(t, cycle), cycle).tracking == replay(t, cycle).tracking
        }),
{
    let n = finger_count(f);
    let cycle = start_frame(f) + stop_frame(f);
    lemma_frames(t, f);
    lemma_replay_append(t, start_frame(f), stop_frame(f));
    let once = replay(t, cycle);
    lemma_frames(replay(t, start_frame(f)), f);
    lemma_replay_append(once, start_frame(f), stop_frame(f));
    lemma_frames(once, f);
    lemma_frames(replay(once, start_frame(f)), f);
    assert(once.tracking == released_tracking(started_tracking(t.tracking, n), n));
    assert(released_tracking(started_tracking(once.tracking, n), n) =~= once.tracking);
}

} // verus!
