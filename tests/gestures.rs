use fukomaster::event::{
    ABS_MT_POSITION_X, ABS_MT_POSITION_Y, ABS_MT_SLOT, ABS_MT_TRACKING_ID, BTN_TOOL_DOUBLETAP,
    BTN_TOOL_FINGER, BTN_TOOL_QUADTAP, BTN_TOOL_QUINTTAP, BTN_TOOL_TRIPLETAP, BTN_TOUCH, EV_ABS,
    EV_KEY, EV_REL, REL_HWHEEL, REL_WHEEL, REL_X, REL_Y,
};
use fukomaster::{
    abs_event, key_event, new_move_mouse_event, new_scroll_mouse_event, start_events,
    stop_events, trackpad_capabilities, update_events, Abs, Fingers, InputEvent, Key,
    MoveDirection, Normal, State, VIRTUAL_DEVICE_NAME,
};

const ALL: [Fingers; 4] = [Fingers::Two, Fingers::Three, Fingers::Four, Fingers::Five];

#[test]
fn finger_counts_and_tools() {
    let counts: Vec<u8> = ALL.iter().map(|f| f.count()).collect();
    assert_eq!(counts, vec![2, 3, 4, 5]);
    let tools: Vec<Key> = ALL.iter().map(|f| f.btn_tool()).collect();
    assert_eq!(
        tools,
        vec![
            Key(BTN_TOOL_DOUBLETAP),
            Key(BTN_TOOL_TRIPLETAP),
            Key(BTN_TOOL_QUADTAP),
            Key(BTN_TOOL_QUINTTAP)
        ]
    );
    assert_eq!(Key::new(0x14e).code(), BTN_TOOL_TRIPLETAP);
}

/// Replays the tracking-ID and slot events of a batch onto five slots.
fn replay_tracking(slots: &mut [i32; 5], events: &[InputEvent]) {
    let mut slot = 0usize;
    for e in events {
        if e.event_type == EV_ABS && e.code == ABS_MT_SLOT {
            slot = e.value as usize;
        } else if e.event_type == EV_ABS && e.code == ABS_MT_TRACKING_ID {
            slots[slot] = e.value;
        }
    }
}

#[test]
fn tracking_ids_per_finger_count_over_cycles() {
    for f in ALL {
        let n = f.count() as usize;
        let mut slots = [7; 5];
        for _ in 0..3 {
            replay_tracking(&mut slots, &start_events(f));
            for (i, id) in slots.iter().enumerate() {
                assert_eq!(*id, if i < n { i as i32 } else { 7 });
            }
            replay_tracking(&mut slots, &stop_events(f));
            for (i, id) in slots.iter().enumerate() {
                assert_eq!(*id, if i < n { -1 } else { 7 });
            }
        }
    }
}

#[test]
fn two_finger_batches() {
    assert_eq!(
        start_events(Fingers::Two),
        vec![
            abs_event(ABS_MT_SLOT, 0),
            abs_event(ABS_MT_TRACKING_ID, 0),
            abs_event(ABS_MT_POSITION_X, 0),
            abs_event(ABS_MT_POSITION_Y, 0),
            abs_event(ABS_MT_SLOT, 1),
            abs_event(ABS_MT_TRACKING_ID, 1),
            abs_event(ABS_MT_POSITION_X, 0),
            abs_event(ABS_MT_POSITION_Y, 0),
            key_event(Key(BTN_TOUCH), 1),
            key_event(Key(BTN_TOOL_DOUBLETAP), 1),
        ]
    );
    assert_eq!(
        update_events(Fingers::Two, -5, 12),
        vec![
            abs_event(ABS_MT_SLOT, 0),
            abs_event(ABS_MT_POSITION_X, -5),
            abs_event(ABS_MT_POSITION_Y, 12),
            abs_event(ABS_MT_SLOT, 1),
            abs_event(ABS_MT_POSITION_X, -5),
            abs_event(ABS_MT_POSITION_Y, 12),
        ]
    );
    assert_eq!(
        stop_events(Fingers::Five).len(),
        12,
    );
    assert_eq!(
        stop_events(Fingers::Five)[10..],
        [key_event(Key(BTN_TOOL_FINGER), 0), key_event(Key(BTN_TOOL_QUINTTAP), 0)]
    );
}

#[test]
fn session_accumulates_and_stops() {
    let state = State::default();
    let normal = match state {
        State::Normal(n) => n,
        State::Swiping(_) => panic!("a new state is idle"),
    };
    let _ = Normal::new();
    let (mut swiping, events) =
        normal.start_swiping("/dev/input/event3".to_string(), Key(277), Fingers::Four);
    assert_eq!(events, start_events(Fingers::Four));
    assert_eq!((swiping.x, swiping.y), (0, 0));
    swiping.update(10, 0);
    swiping.update(0, -4);
    swiping.update(i32::MAX, i32::MIN);
    assert_eq!(swiping.x, 10 + i32::MAX as i64);
    assert_eq!(swiping.y, -4 + i32::MIN as i64);
    assert_eq!(swiping.input_path, "/dev/input/event3");
    assert_eq!(swiping.position_events(3, 4), update_events(Fingers::Four, 3, 4));
    let (_, events) = swiping.stop();
    assert_eq!(events, stop_events(Fingers::Four));
}

#[test]
fn event_constructors() {
    assert_eq!(
        abs_event(ABS_MT_SLOT, 2),
        InputEvent { event_type: EV_ABS, code: ABS_MT_SLOT, value: 2 }
    );
    assert_eq!(
        key_event(Key(BTN_TOUCH), 1),
        InputEvent { event_type: EV_KEY, code: BTN_TOUCH, value: 1 }
    );
}

#[test]
fn pointer_events() {
    let rel = |code, value| InputEvent::new(EV_REL, code, value);
    assert_eq!(new_move_mouse_event(MoveDirection::Up, 50), rel(REL_Y, -50));
    assert_eq!(new_move_mouse_event(MoveDirection::Down, 50), rel(REL_Y, 50));
    assert_eq!(new_move_mouse_event(MoveDirection::Left, 65535), rel(REL_X, -65535));
    assert_eq!(new_move_mouse_event(MoveDirection::Right, 1), rel(REL_X, 1));
    assert_eq!(new_scroll_mouse_event(MoveDirection::Up, 1), rel(REL_WHEEL, 1));
    assert_eq!(new_scroll_mouse_event(MoveDirection::Down, 1), rel(REL_WHEEL, -1));
    assert_eq!(new_scroll_mouse_event(MoveDirection::Left, 2), rel(REL_HWHEEL, -2));
    assert_eq!(new_scroll_mouse_event(MoveDirection::Right, 2), rel(REL_HWHEEL, 2));
}

#[test]
fn abs_ranges() {
    assert_eq!(Abs::new(-1, 9, 3), Abs { min: -1, max: 9, resolution: 3 });
    assert_eq!(Abs::with_max(4), Abs { min: 0, max: 4, resolution: 0 });
    assert_eq!(Abs::default(), Abs { min: 0, max: 0, resolution: 0 });
}

#[test]
fn trackpad_capabilities_for_resolution() {
    let caps = trackpad_capabilities(12);
    assert_eq!(caps.properties, vec![0]);
    assert_eq!(
        caps.keys,
        vec![
            Key(BTN_TOOL_FINGER),
            Key(BTN_TOUCH),
            Key(BTN_TOOL_DOUBLETAP),
            Key(BTN_TOOL_TRIPLETAP),
            Key(BTN_TOOL_QUADTAP),
            Key(BTN_TOOL_QUINTTAP),
        ]
    );
    assert_eq!(
        caps.axes,
        vec![
            (ABS_MT_SLOT, Abs::with_max(4)),
            (ABS_MT_TRACKING_ID, Abs::with_max(i32::MAX)),
            (ABS_MT_POSITION_X, Abs::new(i32::MIN, i32::MAX, 12)),
            (ABS_MT_POSITION_Y, Abs::new(i32::MIN, i32::MAX, 12)),
        ]
    );
    assert_eq!(trackpad_capabilities(u16::MAX).axes[3].1.resolution, 65535);
    assert_eq!(VIRTUAL_DEVICE_NAME, "fukomaster virtual trackpad");
}
