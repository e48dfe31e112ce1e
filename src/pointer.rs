use vstd::prelude::*;

use crate::event::{InputEvent, EV_REL, REL_HWHEEL, REL_WHEEL, REL_X, REL_Y};

verus! {

/// A direction on the screen.
#[derive(Clone, Copy, Debug, PartialEq, Eq, Structural)]
pub enum MoveDirection {
    Up,
    Down,
    Left,
    Right,
}

pub open spec fn rel_ev(axis: u16, value: int) -> InputEvent {
    InputEvent { event_type: EV_REL, code: axis, value: value as i32 }
}

/// A pointer motion of `distance` units towards `direction`; the Y axis
/// grows downwards.
pub fn new_move_mouse_event(direction: MoveDirection, distance: u16) -> (r: InputEvent)
    ensures
        r == match direction {
            MoveDirection::Up => rel_ev(REL_Y, -distance),
            MoveDirection::Down => rel_ev(REL_Y, distance as int),
            MoveDirection::Left => rel_ev(REL_X, -distance),
            MoveDirection::Right => rel_ev(REL_X, distance as int),
        },
{
    let d: i32 = distance as i32;
    let (axis, value): (u16, i32) = match direction {
        MoveDirection::Up => (REL_Y, -d),
        MoveDirection::Down => (REL_Y, d),
        MoveDirection::Left => (REL_X, -d),
        MoveDirection::Right => (REL_X, d),
    };
    InputEvent { event_type: EV_REL, code: axis, value }
}

/// A scroll of `distance` notches towards `direction`; the wheel grows
/// upwards and the horizontal wheel to the right.
pub fn new_scroll_mouse_event(direction: MoveDirection, distance: u16) -> (r: InputEvent)
    ensures
        r == match direction {
            MoveDirection::Up => rel_ev(REL_WHEEL, distance as int),
            MoveDirection::Down => rel_ev(REL_WHEEL, -distance),
            MoveDirection::Left => rel_ev(REL_HWHEEL, -distance),
            MoveDirection::Right => rel_ev(REL_HWHEEL, distance as int),
        },
{
    let d: i32 = distance as i32;
    let (axis, value): (u16, i32) = match direction {
        MoveDirection::Up => (REL_WHEEL, d),
        MoveDirection::Down => (REL_WHEEL, -d),
        MoveDirection::Left => (REL_HWHEEL, -d),
        MoveDirection::Right => (REL_HWHEEL, d),
    };
    InputEvent { event_type: EV_REL, code: axis, value }
}

} // verus!
