use autoscroll::capability::{BTN_LEFT, BTN_MIDDLE, REL_X, REL_Y};
use autoscroll::classifier::{scroll_intensity, scroll_speed, DragState};
use autoscroll::command::ScrollCommand;
use autoscroll::config::Config;
use autoscroll::event::{EventKind, RawEvent, EV_KEY, EV_REL, KEY_PRESSED};

fn press() -> RawEvent {
    RawEvent { event_type: EV_KEY, code: BTN_MIDDLE, value: KEY_PRESSED }
}

fn release() -> RawEvent {
    RawEvent { event_type: EV_KEY, code: BTN_MIDDLE, value: 0 }
}

fn motion(delta: i32) -> RawEvent {
    RawEvent { event_type: EV_REL, code: REL_Y, value: delta }
}

#[test]
fn standard_config_has_the_documented_constants() {
    let cfg = Config::default();
    assert_eq!(cfg.deadzone, 50);
    assert_eq!(cfg.speed_numerator, 1);
    assert_eq!(cfg.speed_denominator, 20);
    assert_eq!(cfg.max_speed, 5);
    assert_eq!(cfg.scroll_interval_ms, 50);
    assert!(cfg.is_valid());
}

#[test]
fn config_with_zero_denominator_is_rejected() {
    assert_eq!(Config::new(50, 1, 0, 5, 50), None);
    let cfg = Config { deadzone: 50, speed_numerator: 1, speed_denominator: 0, max_speed: 5, scroll_interval_ms: 50 };
    assert!(!cfg.is_valid());
}

#[test]
fn config_new_keeps_its_arguments() {
    let cfg = Config::new(10, 3, 7, 9, 25).unwrap();
    assert_eq!(
        cfg,
        Config { deadzone: 10, speed_numerator: 3, speed_denominator: 7, max_speed: 9, scroll_interval_ms: 25 }
    );
    assert_eq!(Config::new(50, 1, 20, 5, 50), Some(Config::default()));
}

#[test]
fn intensity_is_zero_inside_the_deadzone() {
    let cfg = Config::default();
    for d in -50..=50 {
        assert_eq!(scroll_intensity(&cfg, d), 0, "distance {}", d);
    }
}

#[test]
fn intensity_at_the_edge_of_the_deadzone() {
    let cfg = Config::default();
    assert_eq!(scroll_intensity(&cfg, 50), 0);
    assert_eq!(scroll_intensity(&cfg, 51), -1);
    assert_eq!(scroll_intensity(&cfg, -50), 0);
    assert_eq!(scroll_intensity(&cfg, -51), 1);
}

#[test]
fn intensity_of_150_is_capped_at_minus_5() {
    assert_eq!(scroll_intensity(&Config::default(), 150), -5);
}

#[test]
fn intensity_of_60_is_raised_to_minus_1() {
    assert_eq!(scroll_intensity(&Config::default(), 60), -1);
}

#[test]
fn intensity_of_minus_70_is_1() {
    assert_eq!(scroll_intensity(&Config::default(), -70), 1);
}

#[test]
fn intensity_follows_the_speed_curve() {
    let cfg = Config::default();
    assert_eq!(scroll_intensity(&cfg, 69), -1);
    assert_eq!(scroll_intensity(&cfg, 70), -1);
    assert_eq!(scroll_intensity(&cfg, 89), -1);
    assert_eq!(scroll_intensity(&cfg, 90), -2);
    assert_eq!(scroll_intensity(&cfg, 110), -3);
    assert_eq!(scroll_intensity(&cfg, 130), -4);
    assert_eq!(scroll_intensity(&cfg, 149), -4);
    assert_eq!(scroll_intensity(&cfg, 150), -5);
    assert_eq!(scroll_intensity(&cfg, 151), -5);
    assert_eq!(scroll_intensity(&cfg, 190), -5);
    assert_eq!(scroll_intensity(&cfg, 200), -5);
    assert_eq!(scroll_intensity(&cfg, 1_000_000), -5);
    assert_eq!(scroll_intensity(&cfg, -90), 2);
    assert_eq!(scroll_intensity(&cfg, -149), 4);
    assert_eq!(scroll_intensity(&cfg, -150), 5);
    assert_eq!(scroll_intensity(&cfg, -1_000_000), 5);
}

#[test]
fn intensity_matches_the_formula_for_every_small_distance() {
    let cfg = Config::default();
    for d in -400i128..=400 {
        let magnitude = d.abs();
        let expected = if magnitude <= 50 {
            0
        } else {
            let speed = ((magnitude - 50) / 20).clamp(1, 5) as i32;
            if d > 0 { -speed } else { speed }
        };
        assert_eq!(scroll_intensity(&cfg, d), expected, "distance {}", d);
    }
}

#[test]
fn opposite_distances_give_opposite_intensities() {
    let cfg = Config::default();
    for d in 0i128..=300 {
        assert_eq!(scroll_intensity(&cfg, -d), -scroll_intensity(&cfg, d));
    }
}

#[test]
fn intensity_at_the_ends_of_the_distance_range() {
    let cfg = Config::default();
    assert_eq!(scroll_intensity(&cfg, i128::MAX), -5);
    assert_eq!(scroll_intensity(&cfg, i128::MIN), 5);
    assert_eq!(scroll_intensity(&cfg, i128::MIN + 1), 5);
    assert_eq!(scroll_intensity(&cfg, i64::MAX as i128 - i64::MIN as i128), -5);
    assert_eq!(scroll_intensity(&cfg, i64::MIN as i128 - i64::MAX as i128), 5);
}

#[test]
fn intensity_with_other_constants() {
    let cfg = Config::new(10, 1, 2, 100, 50).unwrap();
    assert_eq!(scroll_intensity(&cfg, 10), 0);
    assert_eq!(scroll_intensity(&cfg, 11), -1);
    assert_eq!(scroll_intensity(&cfg, 30), -10);
    assert_eq!(scroll_intensity(&cfg, -31), 10);
    assert_eq!(scroll_intensity(&cfg, 210), -100);
    assert_eq!(scroll_intensity(&cfg, 5000), -100);
    let fast = Config::new(0, 5, 2, 1000, 50).unwrap();
    assert_eq!(scroll_intensity(&fast, 0), 0);
    assert_eq!(scroll_intensity(&fast, 1), -2);
    assert_eq!(scroll_intensity(&fast, 3), -7);
    assert_eq!(scroll_intensity(&fast, -401), 1000);
}

#[test]
fn speed_is_at_least_one_even_with_a_low_maximum() {
    let cfg = Config::new(50, 1, 20, 0, 50).unwrap();
    assert_eq!(scroll_intensity(&cfg, 500), -1);
    let negative = Config::new(50, 1, 20, -7, 50).unwrap();
    assert_eq!(scroll_intensity(&negative, -500), 1);
    let still = Config::new(50, 0, 20, 5, 50).unwrap();
    assert_eq!(scroll_intensity(&still, 5000), -1);
}

#[test]
fn speed_of_an_excess() {
    let cfg = Config::default();
    assert_eq!(scroll_speed(&cfg, 0), 1);
    assert_eq!(scroll_speed(&cfg, 19), 1);
    assert_eq!(scroll_speed(&cfg, 40), 2);
    assert_eq!(scroll_speed(&cfg, 99), 4);
    assert_eq!(scroll_speed(&cfg, 100), 5);
    assert_eq!(scroll_speed(&cfg, u128::MAX), 5);
    let wide = Config::new(0, u32::MAX, 1, i32::MAX, 50).unwrap();
    assert_eq!(scroll_speed(&wide, u128::MAX), i32::MAX);
    assert_eq!(scroll_speed(&wide, 1), i32::MAX);
    let narrow = Config::new(0, 1, u32::MAX, i32::MAX, 50).unwrap();
    assert_eq!(scroll_speed(&narrow, u128::MAX), i32::MAX);
    assert_eq!(scroll_speed(&narrow, (u32::MAX as u128) * 3 + 1), 3);
}

#[test]
fn a_new_classifier_is_idle_at_zero() {
    assert_eq!(DragState::new(), DragState { scrolling: false, origin_y: 0, absolute_y: 0 });
}

#[test]
fn press_starts_a_drag_at_the_current_position() {
    let cfg = Config::default();
    let mut state = DragState { scrolling: false, origin_y: 7, absolute_y: 1000 };
    assert_eq!(state.handle_event(&cfg, &press()), Some(ScrollCommand::Start));
    assert_eq!(state, DragState { scrolling: true, origin_y: 1000, absolute_y: 1000 });
}

#[test]
fn release_ends_the_drag() {
    let cfg = Config::default();
    let mut state = DragState { scrolling: true, origin_y: 1000, absolute_y: 1200 };
    assert_eq!(state.handle_event(&cfg, &release()), Some(ScrollCommand::Stop));
    assert_eq!(state, DragState { scrolling: false, origin_y: 1000, absolute_y: 1200 });
}

#[test]
fn a_press_during_a_drag_keeps_the_origin() {
    let cfg = Config::default();
    let mut state = DragState { scrolling: true, origin_y: 1000, absolute_y: 1200 };
    assert_eq!(state.handle_event(&cfg, &press()), Some(ScrollCommand::Start));
    assert_eq!(state, DragState { scrolling: true, origin_y: 1000, absolute_y: 1200 });
}

#[test]
fn a_release_while_idle_still_sends_stop() {
    let cfg = Config::default();
    let mut state = DragState { scrolling: false, origin_y: 3, absolute_y: 9 };
    assert_eq!(state.handle_event(&cfg, &release()), Some(ScrollCommand::Stop));
    assert_eq!(state, DragState { scrolling: false, origin_y: 3, absolute_y: 9 });
}

#[test]
fn a_button_value_other_than_pressed_counts_as_release() {
    let cfg = Config::default();
    let mut state = DragState { scrolling: true, origin_y: 0, absolute_y: 0 };
    let repeat = RawEvent { event_type: EV_KEY, code: BTN_MIDDLE, value: 2 };
    assert_eq!(state.handle_event(&cfg, &repeat), Some(ScrollCommand::Stop));
    assert!(!state.scrolling);
    assert_eq!(state.on_button(-1), ScrollCommand::Stop);
    assert_eq!(state.on_button(1), ScrollCommand::Start);
    assert!(state.scrolling);
}

#[test]
fn motion_while_idle_moves_the_position_silently() {
    let cfg = Config::default();
    let mut state = DragState::new();
    assert_eq!(state.handle_event(&cfg, &motion(300)), None);
    assert_eq!(state.handle_event(&cfg, &motion(-120)), None);
    assert_eq!(state, DragState { scrolling: false, origin_y: 0, absolute_y: 180 });
    assert_eq!(state.handle_event(&cfg, &press()), Some(ScrollCommand::Start));
    assert_eq!(state.origin_y, 180);
    assert_eq!(state.distance(), 0);
}

#[test]
fn motion_during_a_drag_updates_the_intensity() {
    let cfg = Config::default();
    let mut state = DragState { scrolling: true, origin_y: 1000, absolute_y: 1000 };
    assert_eq!(state.handle_event(&cfg, &motion(40)), Some(ScrollCommand::Update(0)));
    assert_eq!(state.handle_event(&cfg, &motion(20)), Some(ScrollCommand::Update(-1)));
    assert_eq!(state.handle_event(&cfg, &motion(90)), Some(ScrollCommand::Update(-5)));
    assert_eq!(state.absolute_y, 1150);
    assert_eq!(state.distance(), 150);
    assert_eq!(state.handle_event(&cfg, &motion(-220)), Some(ScrollCommand::Update(1)));
    assert_eq!(state.distance(), -70);
    assert_eq!(state.origin_y, 1000);
}

#[test]
fn other_events_change_nothing() {
    let cfg = Config::default();
    let start = DragState { scrolling: true, origin_y: 10, absolute_y: 500 };
    let others = [
        RawEvent { event_type: EV_KEY, code: BTN_LEFT, value: 1 },
        RawEvent { event_type: EV_REL, code: REL_X, value: 250 },
        RawEvent { event_type: EV_REL, code: 8, value: 1 },
        RawEvent { event_type: 0, code: 0, value: 0 },
        RawEvent { event_type: 3, code: REL_Y, value: 99 },
        RawEvent { event_type: 4, code: BTN_MIDDLE, value: 1 },
        RawEvent { event_type: EV_REL, code: BTN_MIDDLE, value: 1 },
        RawEvent { event_type: EV_KEY, code: REL_Y, value: 1 },
    ];
    for event in others.iter() {
        let mut state = start;
        assert_eq!(state.handle_event(&cfg, event), None);
        assert_eq!(state, start);
    }
}

#[test]
fn position_stops_at_the_ends_of_its_range() {
    let cfg = Config::default();
    let mut high = DragState { scrolling: false, origin_y: 0, absolute_y: i64::MAX - 5 };
    assert_eq!(high.on_motion(&cfg, 3), None);
    assert_eq!(high.absolute_y, i64::MAX - 2);
    assert_eq!(high.on_motion(&cfg, 3), None);
    assert_eq!(high.absolute_y, i64::MAX);
    assert_eq!(high.on_motion(&cfg, i32::MAX), None);
    assert_eq!(high.absolute_y, i64::MAX);
    let mut low = DragState { scrolling: true, origin_y: i64::MAX, absolute_y: i64::MIN + 1 };
    assert_eq!(low.on_motion(&cfg, i32::MIN), Some(ScrollCommand::Update(5)));
    assert_eq!(low.absolute_y, i64::MIN);
    assert_eq!(low.distance(), i64::MIN as i128 - i64::MAX as i128);
}

#[test]
fn a_batch_yields_its_commands_in_order() {
    let cfg = Config::default();
    let mut state = DragState::new();
    let events = vec![
        motion(1000),
        RawEvent { event_type: EV_REL, code: REL_X, value: 4 },
        press(),
        motion(200),
        RawEvent { event_type: 0, code: 0, value: 0 },
        motion(-10),
        motion(-150),
        release(),
        motion(500),
    ];
    let commands = state.process_batch(&cfg, &events);
    assert_eq!(
        commands,
        vec![
            ScrollCommand::Start,
            ScrollCommand::Update(-5),
            ScrollCommand::Update(-5),
            ScrollCommand::Update(0),
            ScrollCommand::Stop,
        ]
    );
    assert_eq!(state, DragState { scrolling: false, origin_y: 1000, absolute_y: 1540 });
}

#[test]
fn an_empty_batch_yields_nothing() {
    let cfg = Config::default();
    let mut state = DragState { scrolling: true, origin_y: 1, absolute_y: 2 };
    assert_eq!(state.process_batch(&cfg, &Vec::new()), Vec::new());
    assert_eq!(state, DragState { scrolling: true, origin_y: 1, absolute_y: 2 });
}

#[test]
fn a_batch_equals_its_events_one_by_one() {
    let cfg = Config::default();
    let events = vec![press(), motion(75), motion(75), release(), press(), motion(-300), release()];
    let mut whole = DragState::new();
    let commands = whole.process_batch(&cfg, &events);
    let mut single = DragState::new();
    let mut expected = Vec::new();
    for event in events.iter() {
        if let Some(command) = single.handle_event(&cfg, event) {
            expected.push(command);
        }
    }
    assert_eq!(commands, expected);
    assert_eq!(whole, single);
}

#[test]
fn event_kinds_follow_the_event_type() {
    assert_eq!(RawEvent { event_type: 1, code: 0x112, value: 1 }.kind(), EventKind::Key(0x112));
    assert_eq!(RawEvent { event_type: 1, code: 30, value: 0 }.kind(), EventKind::Key(30));
    assert_eq!(RawEvent { event_type: 2, code: 1, value: -4 }.kind(), EventKind::RelAxis(1));
    assert_eq!(RawEvent { event_type: 2, code: 0xffff, value: 0 }.kind(), EventKind::RelAxis(0xffff));
    assert_eq!(RawEvent { event_type: 0, code: 0, value: 0 }.kind(), EventKind::Other);
    assert_eq!(RawEvent { event_type: 3, code: 1, value: 5 }.kind(), EventKind::Other);
    assert_eq!(RawEvent { event_type: 4, code: 4, value: 5 }.kind(), EventKind::Other);
    assert_eq!(RawEvent { event_type: 0x11, code: 0, value: 1 }.kind(), EventKind::Other);
    assert_eq!(RawEvent { event_type: 0x15, code: 7, value: 1 }.kind(), EventKind::Other);
    assert_eq!(RawEvent { event_type: 0xffff, code: 1, value: 1 }.kind(), EventKind::Other);
}

#[test]
fn event_kinds_agree_with_the_input_crate_for_every_type() {
    for event_type in 0u16..=0x200 {
        let ours = RawEvent { event_type, code: 0x112, value: 1 }.kind();
        let theirs = evdev::InputEvent::new(evdev::EventType(event_type), 0x112, 1).kind();
        let expected = match theirs {
            evdev::InputEventKind::Key(key) => EventKind::Key(key.code()),
            evdev::InputEventKind::RelAxis(axis) => EventKind::RelAxis(axis.0),
            _ => EventKind::Other,
        };
        assert_eq!(ours, expected);
        assert_eq!(ours == EventKind::Key(0x112), event_type == EV_KEY);
        assert_eq!(ours == EventKind::RelAxis(0x112), event_type == EV_REL);
    }
}

#[test]
fn codes_agree_with_the_input_crate() {
    assert_eq!(EV_KEY, evdev::EventType::KEY.0);
    assert_eq!(EV_REL, evdev::EventType::RELATIVE.0);
    assert_eq!(BTN_LEFT, evdev::Key::BTN_LEFT.code());
    assert_eq!(BTN_MIDDLE, evdev::Key::BTN_MIDDLE.code());
    assert_eq!(autoscroll::capability::BTN_RIGHT, evdev::Key::BTN_RIGHT.code());
    assert_eq!(REL_X, evdev::RelativeAxisType::REL_X.0);
    assert_eq!(REL_Y, evdev::RelativeAxisType::REL_Y.0);
}
