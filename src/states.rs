use vstd::prelude::*;

use crate::event::{
    abs_ev, abs_event, key_ev, key_event, InputEvent, Key, ABS_MT_POSITION_X, ABS_MT_POSITION_Y,
    ABS_MT_SLOT, ABS_MT_TRACKING_ID, BTN_TOOL_DOUBLETAP, BTN_TOOL_FINGER, BTN_TOOL_QUADTAP,
    BTN_TOOL_QUINTTAP, BTN_TOOL_TRIPLETAP, BTN_TOUCH,
};

verus! {

/// How many fingers a gesture puts on the trackpad.
#[derive(Clone, Copy, Debug, PartialEq, Eq, Structural)]
pub enum Fingers {
    Two,
    Three,
    Four,
    Five,
}

pub open spec fn finger_count(f: Fingers) -> nat {
    match f {
        Fingers::Two => 2,
        Fingers::Three => 3,
        Fingers::Four => 4,
        Fingers::Five => 5,
    }
}

pub open spec fn tool_key(f: Fingers) -> Key {
    match f {
        Fingers::Two => Key(BTN_TOOL_DOUBLETAP),
        Fingers::Three => Key(BTN_TOOL_TRIPLETAP),
        Fingers::Four => Key(BTN_TOOL_QUADTAP),
        Fingers::Five => Key(BTN_TOOL_QUINTTAP),
    }
}

impl Fingers {
    pub fn count(&self) -> (r: u8)
        ensures
            r as nat == finger_count(*self),
    {
        match self {
            Fingers::Two => 2,
            Fingers::Three => 3,
            Fingers::Four => 4,
            Fingers::Five => 5,
        }
    }

    /// The tool button that announces this many fingers.
    pub fn btn_tool(&self) -> (r: Key)
        ensures
            r == tool_key(*self),
    {
        match self {
            Fingers::Two => Key(BTN_TOOL_DOUBLETAP),
            Fingers::Three => Key(BTN_TOOL_TRIPLETAP),
            Fingers::Four => Key(BTN_TOOL_QUADTAP),
            Fingers::Five => Key(BTN_TOOL_QUINTTAP),
        }
    }
}

/// Per slot: select the slot, give it tracking ID equal to its index, and put
/// it at the origin.
pub open spec fn start_slots(n: nat) -> Seq<InputEvent>
    decreases n,
{
    if n == 0 {
        seq![]
    } else {
        let s = (n - 1) as i32;
        start_slots((n - 1) as nat) + seq![
            abs_ev(ABS_MT_SLOT, s),
            abs_ev(ABS_MT_TRACKING_ID, s),
            abs_ev(ABS_MT_POSITION_X, 0),
            abs_ev(ABS_MT_POSITION_Y, 0),
        ]
    }
}

/// Per slot: select the slot and move it to (x, y).
pub open spec fn update_slots(n: nat, x: i32, y: i32) -> Seq<InputEvent>
    decreases n,
{
    if n == 0 {
        seq![]
    } else {
        update_slots((n - 1) as nat, x, y) + seq![
            abs_ev(ABS_MT_SLOT, (n - 1) as i32),
            abs_ev(ABS_MT_POSITION_X, x),
            abs_ev(ABS_MT_POSITION_Y, y),
        ]
    }
}

/// Per slot: select the slot and release its tracking ID.
pub open spec fn stop_slots(n: nat) -> Seq<InputEvent>
    decreases n,
{
    if n == 0 {
        seq![]
    } else {
        stop_slots((n - 1) as nat) + seq![
            abs_ev(ABS_MT_SLOT, (n - 1) as i32),
            abs_ev(ABS_MT_TRACKING_ID, -1i32),
        ]
    }
}

/// The batch that puts `f` fingers down.
pub open spec fn start_frame(f: Fingers) -> Seq<InputEvent> {
    start_slots(finger_count(f)) + seq![key_ev(Key(BTN_TOUCH), 1), key_ev(tool_key(f), 1)]
}

/// The batch that moves all `f` fingers to (x, y).
pub open spec fn update_frame(f: Fingers, x: i32, y: i32) -> Seq<InputEvent> {
    update_slots(finger_count(f), x, y)
}

/// The batch that lifts all `f` fingers.
pub open spec fn stop_frame(f: Fingers) -> Seq<InputEvent> {
    stop_slots(finger_count(f)) + seq![key_ev(Key(BTN_TOOL_FINGER), 0), key_ev(tool_key(f), 0)]
}

/// The events that put the fingers down at the origin. The sink ends every
/// batch with one synchronization event.
pub fn start_events(fingers: Fingers) -> (r: Vec<InputEvent>)
    ensures
        r@ == start_frame(fingers),
{
    let n: i32 = fingers.count() as i32;
    let mut events: Vec<InputEvent> = Vec::new();
    let mut finger: i32 = 0;
    while finger < n
        invariant
            0 <= finger <= n,
            n as nat == finger_count(fingers),
            events@ == start_slots(finger as nat),
        decreases n - finger,
    {
        events.push(abs_event(ABS_MT_SLOT, finger));
        events.push(abs_event(ABS_MT_TRACKING_ID, finger));
        events.push(abs_event(ABS_MT_POSITION_X, 0));
        events.push(abs_event(ABS_MT_POSITION_Y, 0));
        assert(events@ =~= start_slots((finger + 1) as nat));
        finger = finger + 1;
    }
    events.push(key_event(Key(BTN_TOUCH), 1));
    events.push(key_event(fingers.btn_tool(), 1));
    assert(events@ =~= start_frame(fingers));
    events
}

/// The events that move every finger to (x, y).
pub fn update_events(fingers: Fingers, x: i32, y: i32) -> (r: Vec<InputEvent>)
    ensures
        r@ == update_frame(fingers, x, y),
{
    let n: i32 = fingers.count() as i32;
    let mut events: Vec<InputEvent> = Vec::new();
    let mut finger: i32 = 0;
    while finger < n
        invariant
            0 <= finger <= n,
            n as nat == finger_count(fingers),
            events@ == update_slots(finger as nat, x, y),
        decreases n - finger,
    {
        events.push(abs_event(ABS_MT_SLOT, finger));
        events.push(abs_event(ABS_MT_POSITION_X, x));
        events.push(abs_event(ABS_MT_POSITION_Y, y));
        assert(events@ =~= update_slots((finger + 1) as nat, x, y));
        finger = finger + 1;
    }
    events
}

/// The events that lift every finger.
pub fn stop_events(fingers: Fingers) -> (r: Vec<InputEvent>)
    ensures
        r@ == stop_frame(fingers),
{
    let n: i32 = fingers.count() as i32;
    let mut events: Vec<InputEvent> = Vec::new();
    let mut finger: i32 = 0;
    while finger < n
        invariant
            0 <= finger <= n,
            n as nat == finger_count(fingers),
            events@ == stop_slots(finger as nat),
        decreases n - finger,
    {
        events.push(abs_event(ABS_MT_SLOT, finger));
        events.push(abs_event(ABS_MT_TRACKING_ID, -1));
        assert(events@ =~= stop_slots((finger + 1) as nat));
        finger = finger + 1;
    }
    events.push(key_event(Key(BTN_TOOL_FINGER), 0));
    events.push(key_event(fingers.btn_tool(), 0));
    assert(events@ =~= stop_frame(fingers));
    events
}

/// The offset after the relative motions `deltas`, added one after another
/// (as `Swiping::update` adds them) to the offset (x, y).
pub open spec fn accumulate(x: int, y: int, deltas: Seq<(i32, i32)>) -> (int, int)
    decreases deltas.len(),
{
    if deltas.len() == 0 {
        (x, y)
    } else {
        let p = accumulate(x, y, deltas.drop_last());
        (p.0 + deltas.last().0, p.1 + deltas.last().1)
    }
}

pub open spec fn sum_dx(deltas: Seq<(i32, i32)>) -> int
    decreases deltas.len(),
{
    if deltas.len() == 0 {
        0
    } else {
        sum_dx(deltas.drop_last()) + deltas.last().0
    }
}

pub open spec fn sum_dy(deltas: Seq<(i32, i32)>) -> int
    decreases deltas.len(),
{
    if deltas.len() == 0 {
        0
    } else {
        sum_dy(deltas.drop_last()) + deltas.last().1
    }
}

proof fn lemma_sum_append(a: Seq<(i32, i32)>, b: Seq<(i32, i32)>)
    ensures
        sum_dx(a + b) == sum_dx(a) + sum_dx(b),
        sum_dy(a + b) == sum_dy(a) + sum_dy(b),
    decreases b.len(),
{
    if b.len() == 0 {
        assert(a + b =~= a);
    } else {
        assert((a + b).drop_last() =~= a + b.drop_last());
        lemma_sum_append(a, b.drop_last());
    }
}

proof fn lemma_accumulate_sum(x: int, y: int, deltas: Seq<(i32, i32)>)
    ensures
        accumulate(x, y, deltas) == (x + sum_dx(deltas), y + sum_dy(deltas)),
    decreases deltas.len(),
{
    if deltas.len() > 0 {
        lemma_accumulate_sum(x, y, deltas.drop_last());
    }
}

/// However a session's relative motions are split into steps and in whatever
/// order the steps come, the offset they leave is the starting offset plus
/// the sum of the motions on each axis.
pub proof fn lemma_offset_is_sum(
    x: int,
    y: int,
    first: Seq<(i32, i32)>,
    then: Seq<(i32, i32)>,
)
    ensures
        accumulate(x, y, first + then) == (x + sum_dx(first) + sum_dx(then), y + sum_dy(first)
            + sum_dy(then)),
        accumulate(x, y, first + then) == accumulate(x, y, then + first),
        accumulate(x, y, first + then) == ({
            let p = accumulate(x, y, first);
            accumulate(p.0, p.1, then)
        }),
{
    lemma_sum_append(first, then);
    lemma_sum_append(then, first);
    lemma_accumulate_sum(x, y, first + then);
    lemma_accumulate_sum(x, y, then + first);
    lemma_accumulate_sum(x, y, first);
    let p = accumulate(x, y, first);
    lemma_accumulate_sum(p.0, p.1, then);
}

/// The gesture machine: either idle, or driving one swipe.
#[derive(Debug)]
pub enum State {
    Normal(Normal),
    Swiping(Swiping),
}

impl Default for State {
    fn default() -> (r: State)
        ensures
            r is Normal,
    {
        State::Normal(Normal::new())
    }
}

impl From<Normal> for State {
    fn from(value: Normal) -> (r: State)
        ensures
            r == State::Normal(value),
    {
        State::Normal(value)
    }
}

impl vstd::std_specs::convert::FromSpecImpl<Normal> for State {
    open spec fn obeys_from_spec() -> bool {
        true
    }

    open spec fn from_spec(v: Normal) -> State {
        State::Normal(v)
    }
}

impl From<Swiping> for State {
    fn from(value: Swiping) -> (r: State)
        ensures
            r == State::Swiping(value),
    {
        State::Swiping(value)
    }
}

impl vstd::std_specs::convert::FromSpecImpl<Swiping> for State {
    open spec fn obeys_from_spec() -> bool {
        true
    }

    open spec fn from_spec(v: Swiping) -> State {
        State::Swiping(v)
    }
}

/// The idle state: no finger is on the trackpad.
#[derive(Debug)]
pub struct Normal(());

/// A swipe in progress.
#[derive(Debug)]
pub struct Swiping {
    /// The source device whose trigger key started the swipe.
    pub input_path: String,
    /// The key whose release ends the swipe.
    pub trigger: Key,
    pub fingers: Fingers,
    /// Relative motion summed since the swipe started, in raw device units.
    pub x: i64,
    pub y: i64,
}

impl Normal {
    pub fn new() -> (r: Normal) {
        Normal(())
    }

    /// Puts the fingers down. The session starts at offset zero; the events
    /// returned are those that place the fingers at the origin.
    pub fn start_swiping(self, source_path: String, trigger: Key, fingers: Fingers) -> (r: (
        Swiping,
        Vec<InputEvent>,
    ))
        ensures
            r.0.input_path == source_path,
            r.0.trigger == trigger,
            r.0.fingers == fingers,
            r.0.x == 0,
            r.0.y == 0,
            r.1@ == start_frame(fingers),
    {
        let events = start_events(fingers);
        (Swiping { input_path: source_path, trigger, fingers, x: 0, y: 0 }, events)
    }
}

impl Swiping {
    /// Adds a relative motion to the session's offset.
    pub fn update(&mut self, dx: i32, dy: i32)
        requires
            i64::MIN <= old(self).x + dx <= i64::MAX,
            i64::MIN <= old(self).y + dy <= i64::MAX,
        ensures
            final(self).x == old(self).x + dx,
            final(self).y == old(self).y + dy,
            final(self).input_path == old(self).input_path,
            final(self).trigger == old(self).trigger,
            final(self).fingers == old(self).fingers,
            (final(self).x as int, final(self).y as int) == accumulate(
                old(self).x as int,
                old(self).y as int,
                seq![(dx, dy)],
            ),
    {
        proof {
            reveal_with_fuel(accumulate, 2);
            assert(seq![(dx, dy)].drop_last() =~= Seq::<(i32, i32)>::empty());
        }
        self.x = self.x + dx as i64;
        self.y = self.y + dy as i64;
    }

    /// The events that move every finger to the scaled position (x, y).
    pub fn position_events(&self, x: i32, y: i32) -> (r: Vec<InputEvent>)
        ensures
            r@ == update_frame(self.fingers, x, y),
    {
        update_events(self.fingers, x, y)
    }

    /// Lifts the fingers; the events returned are those that release every
    /// slot.
    pub fn stop(self) -> (r: (Normal, Vec<InputEvent>))
        ensures
            r.1@ == stop_frame(self.fingers),
    {
        let events = stop_events(self.fingers);
        (Normal(()), events)
    }
}

} // verus!
