use vstd::prelude::*;

verus! {

/// Event type of key and button events.
pub const EV_KEY: u16 = 0x01;

/// Event type of relative axis events.
pub const EV_REL: u16 = 0x02;

/// Event type of absolute axis events.
pub const EV_ABS: u16 = 0x03;

/// Relative axis codes.
pub const REL_X: u16 = 0x00;

pub const REL_Y: u16 = 0x01;

pub const REL_HWHEEL: u16 = 0x06;

pub const REL_WHEEL: u16 = 0x08;

/// Absolute axis codes of the multi-touch protocol.
pub const ABS_MT_SLOT: u16 = 0x2f;

pub const ABS_MT_POSITION_X: u16 = 0x35;

pub const ABS_MT_POSITION_Y: u16 = 0x36;

pub const ABS_MT_TRACKING_ID: u16 = 0x39;

/// Input property code of pointer devices.
pub const INPUT_PROP_POINTER: u16 = 0x00;

/// Button codes of a trackpad.
pub const BTN_TOOL_FINGER: u16 = 0x145;

pub const BTN_TOOL_QUINTTAP: u16 = 0x148;

pub const BTN_TOUCH: u16 = 0x14a;

pub const BTN_TOOL_DOUBLETAP: u16 = 0x14d;

pub const BTN_TOOL_TRIPLETAP: u16 = 0x14e;

pub const BTN_TOOL_QUADTAP: u16 = 0x14f;

/// A key or button code.
#[derive(Clone, Copy, Debug, PartialEq, Eq, Structural, Hash)]
pub struct Key(pub u16);

impl Key {
    pub fn new(code: u16) -> (r: Key)
        ensures
            r.0 == code,
    {
        Key(code)
    }

    pub fn code(&self) -> (r: u16)
        ensures
            r == self.0,
    {
        self.0
    }
}

/// One input event as the kernel's input subsystem carries it: an event type,
/// a code within that type, and a signed value.
#[derive(Clone, Copy, Debug, PartialEq, Eq, Structural)]
pub struct InputEvent {
    pub event_type: u16,
    pub code: u16,
    pub value: i32,
}

impl InputEvent {
    pub fn new(event_type: u16, code: u16, value: i32) -> (r: InputEvent)
        ensures
            r == (InputEvent { event_type, code, value }),
    {
        InputEvent { event_type, code, value }
    }
}

pub open spec fn abs_ev(axis: u16, value: i32) -> InputEvent {
    InputEvent { event_type: EV_ABS, code: axis, value }
}

pub open spec fn key_ev(key: Key, value: i32) -> InputEvent {
    InputEvent { event_type: EV_KEY, code: key.0, value }
}

/// An absolute axis event.
pub fn abs_event(axis: u16, value: i32) -> (r: InputEvent)
    ensures
        r == abs_ev(axis, value),
{
    InputEvent { event_type: EV_ABS, code: axis, value }
}

/// A key event: value 1 presses, 0 releases.
pub fn key_event(key: Key, value: i32) -> (r: InputEvent)
    ensures
        r == key_ev(key, value),
{
    InputEvent { event_type: EV_KEY, code: key.0, value }
}

} // verus!
