use vstd::prelude::*;

use crate::event::{
    Key, ABS_MT_POSITION_X, ABS_MT_POSITION_Y, ABS_MT_SLOT, ABS_MT_TRACKING_ID,
    BTN_TOOL_DOUBLETAP, BTN_TOOL_FINGER, BTN_TOOL_QUADTAP, BTN_TOOL_QUINTTAP,
    BTN_TOOL_TRIPLETAP, BTN_TOUCH, INPUT_PROP_POINTER,
};

verus! {

/// The name the synthetic trackpad is created with.
pub const VIRTUAL_DEVICE_NAME: &'static str = "fukomaster virtual trackpad";

/// How many fingers the trackpad can report at once.
pub const MAX_TOUCHES: i32 = 5;

/// The range and resolution of an absolute axis.
#[derive(Clone, Copy, Debug, PartialEq, Eq, Structural)]
pub struct Abs {
    pub min: i32,
    pub max: i32,
    pub resolution: i32,
}

impl Abs {
    pub fn new(min: i32, max: i32, resolution: i32) -> (r: Abs)
        ensures
            r == (Abs { min, max, resolution }),
    {
        Abs { min, max, resolution }
    }

    /// The range `0..=max`, without a resolution.
    pub fn with_max(max: i32) -> (r: Abs)
        ensures
            r == (Abs { min: 0, max, resolution: 0 }),
    {
        Abs { max, ..Abs::default() }
    }
}

impl Default for Abs {
    fn default() -> (r: Abs)
        ensures
            r == (Abs { min: 0, max: 0, resolution: 0 }),
    {
        Abs { min: 0, max: 0, resolution: 0 }
    }
}

/// What the synthetic trackpad advertises: its input properties, its keys,
/// and its absolute axes with their ranges.
pub struct Capabilities {
    pub properties: Vec<u16>,
    pub keys: Vec<Key>,
    pub axes: Vec<(u16, Abs)>,
}

pub open spec fn trackpad_keys() -> Seq<Key> {
    seq![
        Key(BTN_TOOL_FINGER),
        Key(BTN_TOUCH),
        Key(BTN_TOOL_DOUBLETAP),
        Key(BTN_TOOL_TRIPLETAP),
        Key(BTN_TOOL_QUADTAP),
        Key(BTN_TOOL_QUINTTAP),
    ]
}

/// Slots `0..MAX_TOUCHES`, tracking IDs from 0 up, and positions over the
/// whole signed range at the given resolution.
pub open spec fn trackpad_axes(resolution: u16) -> Seq<(u16, Abs)> {
    seq![
        (ABS_MT_SLOT, Abs { min: 0, max: (MAX_TOUCHES - 1) as i32, resolution: 0 }),
        (ABS_MT_TRACKING_ID, Abs { min: 0, max: i32::MAX, resolution: 0 }),
        (ABS_MT_POSITION_X, Abs { min: i32::MIN, max: i32::MAX, resolution: resolution as i32 }),
        (ABS_MT_POSITION_Y, Abs { min: i32::MIN, max: i32::MAX, resolution: resolution as i32 }),
    ]
}

/// The capabilities of the synthetic trackpad, for a position resolution.
pub fn trackpad_capabilities(resolution: u16) -> (r: Capabilities)
    ensures
        r.properties@ == seq![INPUT_PROP_POINTER],
        r.keys@ == trackpad_keys(),
        r.axes@ == trackpad_axes(resolution),
{
    let resolution: i32 = resolution as i32;
    let mut properties: Vec<u16> = Vec::new();
    properties.push(INPUT_PROP_POINTER);
    let mut keys: Vec<Key> = Vec::new();
    keys.push(Key(BTN_TOOL_FINGER));
    keys.push(Key(BTN_TOUCH));
    keys.push(Key(BTN_TOOL_DOUBLETAP));
    keys.push(Key(BTN_TOOL_TRIPLETAP));
    keys.push(Key(BTN_TOOL_QUADTAP));
    keys.push(Key(BTN_TOOL_QUINTTAP));
    let mut axes: Vec<(u16, Abs)> = Vec::new();
    axes.push((ABS_MT_SLOT, Abs::with_max(MAX_TOUCHES - 1)));
    axes.push((ABS_MT_TRACKING_ID, Abs::with_max(i32::MAX)));
    axes.push((ABS_MT_POSITION_X, Abs::new(i32::MIN, i32::MAX, resolution)));
    axes.push((ABS_MT_POSITION_Y, Abs::new(i32::MIN, i32::MAX, resolution)));
    assert(properties@ =~= seq![INPUT_PROP_POINTER]);
    assert(keys@ =~= trackpad_keys());
    assert(axes@ =~= trackpad_axes(resolution as u16));
    Capabilities { properties, keys, axes }
}

} // verus!
