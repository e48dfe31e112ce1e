//! Emulates a multi-touch trackpad driven by relative pointer motion.
//!
//! The library holds the decisions of the engine: which input sources are
//! admitted, the two-state gesture machine and the multi-touch event batches
//! it emits, and the capabilities the synthetic trackpad advertises. Device
//! I/O and the event loop live with the caller.

pub mod admission;
pub mod capabilities;
pub mod engine;
pub mod event;
pub mod pointer;
pub mod states;
pub mod touchpad;

pub use admission::{check_admission, contains_path, AdmitError, Rejection};
pub use capabilities::{trackpad_capabilities, Abs, Capabilities, VIRTUAL_DEVICE_NAME};
pub use engine::{Config, DeviceOutcome, Engine, NotifyEvent, Reaction, Removal};
pub use event::{abs_event, key_event, InputEvent, Key};
pub use pointer::{new_move_mouse_event, new_scroll_mouse_event, MoveDirection};
pub use states::{
    finger_count, start_events, start_frame, stop_events, stop_frame, tool_key, update_events,
    update_frame, Fingers, Normal, State, Swiping,
};
