use autoscroll::capability::{BTN_MIDDLE, REL_Y};
use autoscroll::classifier::DragState;
use autoscroll::command::ScrollCommand;
use autoscroll::config::Config;
use autoscroll::emitter::EmitterState;
use autoscroll::event::{RawEvent, EV_KEY, EV_REL};

fn button(value: i32) -> RawEvent {
    RawEvent { event_type: EV_KEY, code: BTN_MIDDLE, value }
}

fn motion(delta: i32) -> RawEvent {
    RawEvent { event_type: EV_REL, code: REL_Y, value: delta }
}

#[test]
fn drag_from_1000_yields_the_expected_commands() {
    let cfg = Config::default();
    let mut state = DragState { scrolling: false, origin_y: 0, absolute_y: 1000 };

    assert_eq!(state.handle_event(&cfg, &button(1)), Some(ScrollCommand::Start));
    assert_eq!(state.origin_y, 1000);

    assert_eq!(state.handle_event(&cfg, &motion(200)), Some(ScrollCommand::Update(-5)));
    assert_eq!(state.absolute_y, 1200);
    assert_eq!(state.distance(), 200);

    assert_eq!(state.handle_event(&cfg, &motion(-10)), Some(ScrollCommand::Update(-5)));
    assert_eq!(state.distance(), 190);

    let mut last = None;
    while state.distance() > 50 {
        last = state.handle_event(&cfg, &motion(-10));
        let expected = match state.distance() {
            d if d >= 150 => -5,
            d if d >= 130 => -4,
            d if d >= 110 => -3,
            d if d >= 90 => -2,
            d if d > 50 => -1,
            _ => 0,
        };
        assert_eq!(last, Some(ScrollCommand::Update(expected)));
    }
    assert_eq!(state.distance(), 50);
    assert_eq!(last, Some(ScrollCommand::Update(0)));

    assert_eq!(state.handle_event(&cfg, &button(0)), Some(ScrollCommand::Stop));
    assert!(!state.scrolling);
}

#[test]
fn emitter_follows_the_drag_on_the_50_ms_cadence() {
    let cfg = Config::default();
    let commands = [
        ScrollCommand::Start,
        ScrollCommand::Update(-5),
        ScrollCommand::Update(-5),
        ScrollCommand::Update(-5),
        ScrollCommand::Update(0),
        ScrollCommand::Stop,
    ];
    let mut emitter = EmitterState::new(0);
    let mut emitted = Vec::new();
    let mut now = 0;
    for command in commands.iter() {
        if let Some(delta) = emitter.tick(&cfg, &vec![*command], now) {
            emitted.push((now, delta));
        }
        now += 50;
    }
    assert_eq!(emitted, vec![(50, -5), (100, -5), (150, -5)]);

    for _ in 0..20 {
        assert_eq!(emitter.tick(&cfg, &Vec::new(), now), None);
        now += 50;
    }
    assert_eq!(emitter, EmitterState { active: false, current_intensity: 0, last_emit_time: 150 });
}

#[test]
fn classifier_and_emitter_together() {
    let cfg = Config::default();
    let mut classifier = DragState { scrolling: false, origin_y: 0, absolute_y: 1000 };
    let mut emitter = EmitterState::new(0);
    let rounds = vec![
        vec![button(1)],
        vec![motion(200)],
        vec![motion(-10)],
        vec![motion(-70), motion(-70)],
        vec![button(0)],
        vec![motion(400)],
        vec![],
    ];
    let mut emitted = Vec::new();
    let mut now = 0;
    for events in rounds.iter() {
        let commands = classifier.process_batch(&cfg, events);
        emitted.push(emitter.tick(&cfg, &commands, now));
        now += 50;
    }
    assert_eq!(emitted, vec![None, Some(-5), Some(-5), None, None, None, None]);
    assert_eq!(classifier, DragState { scrolling: false, origin_y: 1000, absolute_y: 1450 });
}
