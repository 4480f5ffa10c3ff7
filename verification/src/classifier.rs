//! From button and motion events to scroll commands.
//!
//! The classifier is a machine with two states, idle and dragging. A press of
//! the middle button starts a drag and marks the vertical position as the
//! origin; while dragging, every vertical motion yields the scroll intensity
//! for the distance from that origin.

use crate::capability::{BTN_MIDDLE, REL_Y};
use crate::command::ScrollCommand;
use crate::config::Config;
use crate::event::{EventKind, RawEvent, KEY_PRESSED};
use vstd::prelude::*;

verus! {

/// The absolute value of a distance.
pub open spec fn magnitude_of(distance: int) -> int {
    if distance < 0 {
        -distance
    } else {
        distance
    }
}

/// The scroll speed for a distance of `excess` units beyond the deadzone: the
/// base speed times the excess, rounded down, at most the maximum speed and
/// then at least 1.
pub open spec fn spec_speed(cfg: Config, excess: int) -> int {
    let scaled = (excess * cfg.speed_numerator) / (cfg.speed_denominator as int);
    let capped = if scaled < cfg.max_speed {
        scaled
    } else {
        cfg.max_speed as int
    };
    if capped < 1 {
        1
    } else {
        capped
    }
}

/// The scroll intensity for a drag distance: zero inside the deadzone, else
/// the speed with the sign opposite to the distance's.
pub open spec fn spec_intensity(cfg: Config, distance: int) -> int {
    let magnitude = magnitude_of(distance);
    if magnitude <= cfg.deadzone {
        0
    } else if distance < 0 {
        spec_speed(cfg, magnitude - cfg.deadzone)
    } else {
        -spec_speed(cfg, magnitude - cfg.deadzone)
    }
}

/// A position moved by a delta, kept within the range of the position.
pub open spec fn moved(position: i64, delta: i32) -> i64 {
    let sum = position + delta;
    if sum > i64::MAX {
        i64::MAX
    } else if sum < i64::MIN {
        i64::MIN
    } else {
        sum as i64
    }
}

/// The scroll speed for a distance of `excess` units beyond the deadzone.
pub fn scroll_speed(cfg: &Config, excess: u128) -> (speed: i32)
    requires
        cfg.wf(),
    ensures
        speed == spec_speed(*cfg, excess as int),
        1 <= speed,
{
    let cap: i32 = if cfg.max_speed < 1 {
        1
    } else {
        cfg.max_speed
    };
    let numerator: u128 = cfg.speed_numerator as u128;
    let denominator: u128 = cfg.speed_denominator as u128;
    match excess.checked_mul(numerator) {
        Some(product) => {
            let scaled: u128 = product / denominator;
            if scaled >= cap as u128 {
                cap
            } else if scaled < 1 {
                1
            } else {
                scaled as i32
            }
        },
        None => {
            proof {
                let product = excess * numerator;
                assert(product / (denominator as int) >= cap) by (nonlinear_arith)
                    requires
                        product > 0xffff_ffff_ffff_ffff_ffff_ffff_ffff_ffff,
                        0 < denominator <= 0xffff_ffff,
                        cap <= 0x7fff_ffff,
                ;
            }
            cap
        },
    }
}

/// The scroll intensity for a drag distance.
pub fn scroll_intensity(cfg: &Config, distance: i128) -> (intensity: i32)
    requires
        cfg.wf(),
    ensures
        intensity == spec_intensity(*cfg, distance as int),
{
    let magnitude: u128 = if distance < 0 {
        (-(distance + 1)) as u128 + 1
    } else {
        distance as u128
    };
    let deadzone: u128 = cfg.deadzone as u128;
    if magnitude <= deadzone {
        0
    } else {
        let speed = scroll_speed(cfg, magnitude - deadzone);
        if distance < 0 {
            speed
        } else {
            -speed
        }
    }
}

/// What the classifier remembers between events.
#[derive(Clone, Copy, Debug, PartialEq, Eq, Structural)]
pub struct DragState {
    /// Whether a drag is under way.
    pub scrolling: bool,
    /// The vertical position at which the drag under way, or the last one,
    /// began.
    pub origin_y: i64,
    /// The sum of all vertical motion so far.
    pub absolute_y: i64,
}

impl DragState {
    /// Idle, at position zero.
    pub open spec fn initial() -> DragState {
        DragState { scrolling: false, origin_y: 0, absolute_y: 0 }
    }

    /// The distance of the current position from the drag origin.
    pub open spec fn spec_distance(self) -> int {
        self.absolute_y - self.origin_y
    }

    /// The state after a middle-button event with the given value. A press
    /// that begins a drag marks the current position as the origin.
    pub open spec fn after_button(self, value: i32) -> DragState {
        if value == KEY_PRESSED {
            DragState {
                scrolling: true,
                origin_y: if self.scrolling {
                    self.origin_y
                } else {
                    self.absolute_y
                },
                absolute_y: self.absolute_y,
            }
        } else {
            DragState { scrolling: false, origin_y: self.origin_y, absolute_y: self.absolute_y }
        }
    }

    /// The command for a middle-button event with the given value.
    pub open spec fn button_command(value: i32) -> ScrollCommand {
        if value == KEY_PRESSED {
            ScrollCommand::Start
        } else {
            ScrollCommand::Stop
        }
    }

    /// The state after a vertical motion by `delta`.
    pub open spec fn after_motion(self, delta: i32) -> DragState {
        DragState {
            scrolling: self.scrolling,
            origin_y: self.origin_y,
            absolute_y: moved(self.absolute_y, delta),
        }
    }

    /// The command for a vertical motion by `delta`: while dragging, the
    /// intensity for the new distance from the origin.
    pub open spec fn motion_command(self, cfg: Config, delta: i32) -> Option<ScrollCommand> {
        if self.scrolling {
            Some(
                ScrollCommand::Update(
                    spec_intensity(cfg, self.after_motion(delta).spec_distance()) as i32,
                ),
            )
        } else {
            None
        }
    }

    /// The state after an event.
    pub open spec fn after_event(self, event: RawEvent) -> DragState {
        match event.spec_kind() {
            EventKind::Key(code) => if code == BTN_MIDDLE {
                self.after_button(event.value)
            } else {
                self
            },
            EventKind::RelAxis(code) => if code == REL_Y {
                self.after_motion(event.value)
            } else {
                self
            },
            EventKind::Other => self,
        }
    }

    /// The command that an event yields, if any.
    pub open spec fn event_command(self, cfg: Config, event: RawEvent) -> Option<ScrollCommand> {
        match event.spec_kind() {
            EventKind::Key(code) => if code == BTN_MIDDLE {
                Some(Self::button_command(event.value))
            } else {
                None
            },
            EventKind::RelAxis(code) => if code == REL_Y {
                self.motion_command(cfg, event.value)
            } else {
                None
            },
            EventKind::Other => None,
        }
    }

    /// The state after a run of events.
    pub open spec fn after_events(self, events: Seq<RawEvent>) -> DragState
        decreases events.len(),
    {
        if events.len() == 0 {
            self
        } else {
            self.after_events(events.drop_last()).after_event(events.last())
        }
    }

    /// The commands that a run of events yields, in order.
    pub open spec fn commands_of(self, cfg: Config, events: Seq<RawEvent>) -> Seq<ScrollCommand>
        decreases events.len(),
    {
        if events.len() == 0 {
            Seq::empty()
        } else {
            let earlier = self.commands_of(cfg, events.drop_last());
            match self.after_events(events.drop_last()).event_command(cfg, events.last()) {
                Some(command) => earlier.push(command),
                None => earlier,
            }
        }
    }

    pub fn new() -> (state: DragState)
        ensures
            state == DragState::initial(),
    {
        DragState { scrolling: false, origin_y: 0, absolute_y: 0 }
    }

    /// The distance of the current position from the drag origin.
    pub fn distance(&self) -> (d: i128)
        ensures
            d == self.spec_distance(),
    {
        self.absolute_y as i128 - self.origin_y as i128
    }

    /// Takes a middle-button event with the given value.
    pub fn on_button(&mut self, value: i32) -> (command: ScrollCommand)
        ensures
            *final(self) == old(self).after_button(value),
            command == Self::button_command(value),
    {
        if value == KEY_PRESSED {
            if !self.scrolling {
                self.origin_y = self.absolute_y;
            }
            self.scrolling = true;
            ScrollCommand::Start
        } else {
            self.scrolling = false;
            ScrollCommand::Stop
        }
    }

    /// Takes a vertical motion by `delta`.
    pub fn on_motion(&mut self, cfg: &Config, delta: i32) -> (command: Option<ScrollCommand>)
        requires
            cfg.wf(),
        ensures
            *final(self) == old(self).after_motion(delta),
            command == old(self).motion_command(*cfg, delta),
    {
        let sum: i128 = self.absolute_y as i128 + delta as i128;
        self.absolute_y = if sum > i64::MAX as i128 {
            i64::MAX
        } else if sum < i64::MIN as i128 {
            i64::MIN
        } else {
            sum as i64
        };
        if self.scrolling {
            Some(ScrollCommand::Update(scroll_intensity(cfg, self.distance())))
        } else {
            None
        }
    }

    /// Takes one event of the device.
    pub fn handle_event(&mut self, cfg: &Config, event: &RawEvent) -> (command: Option<ScrollCommand>)
        requires
            cfg.wf(),
        ensures
            *final(self) == old(self).after_event(*event),
            command == old(self).event_command(*cfg, *event),
    {
        match event.kind() {
            EventKind::Key(code) => {
                if code == BTN_MIDDLE {
                    Some(self.on_button(event.value))
                } else {
                    None
                }
            },
            EventKind::RelAxis(code) => {
                if code == REL_Y {
                    self.on_motion(cfg, event.value)
                } else {
                    None
                }
            },
            EventKind::Other => None,
        }
    }

    /// Takes a batch of events in order and returns the commands to send, in
    /// order.
    pub fn process_batch(&mut self, cfg: &Config, events: &Vec<RawEvent>) -> (commands: Vec<ScrollCommand>)
        requires
            cfg.wf(),
        ensures
            *final(self) == old(self).after_events(events@),
            commands@ == old(self).commands_of(*cfg, events@),
    {
        let mut commands: Vec<ScrollCommand> = Vec::new();
        let mut at: usize = 0;
        while at < events.len()
            invariant
                cfg.wf(),
                at <= events.len(),
                *self == old(self).after_events(events@.take(at as int)),
                commands@ == old(self).commands_of(*cfg, events@.take(at as int)),
            decreases events.len() - at,
        {
            proof {
                let next = events@.take(at + 1);
                assert(next.drop_last() =~= events@.take(at as int));
                assert(next.last() == events@[at as int]);
            }
            match self.handle_event(cfg, &events[at]) {
                Some(command) => {
                    commands.push(command);
                },
                None => {},
            }
            at += 1;
        }
        assert(events@.take(at as int) =~= events@);
        commands
    }
}

/// `x` kept between `low` and `high`.
pub open spec fn clamp(x: int, low: int, high: int) -> int {
    if x < low {
        low
    } else if x > high {
        high
    } else {
        x
    }
}

/// Within the deadzone the intensity is exactly zero.
pub proof fn lemma_deadzone_is_silent(cfg: Config, distance: int)
    requires
        magnitude_of(distance) <= cfg.deadzone,
    ensures
        spec_intensity(cfg, distance) == 0,
{
}

/// With the standard constants, a distance of at most 50 units either way
/// gives intensity zero.
pub proof fn lemma_standard_deadzone(distance: int)
    requires
        -50 <= distance <= 50,
    ensures
        spec_intensity(Config::standard(), distance) == 0,
{
}

/// Beyond the deadzone the intensity has the sign opposite to the distance's,
/// and its magnitude is the speed: at least 1, and at most the maximum speed
/// where that is at least 1.
pub proof fn lemma_intensity_opposes_distance(cfg: Config, distance: int)
    requires
        cfg.wf(),
        magnitude_of(distance) > cfg.deadzone,
    ensures
        distance > 0 ==> spec_intensity(cfg, distance) == -spec_speed(
            cfg,
            distance - cfg.deadzone,
        ),
        distance < 0 ==> spec_intensity(cfg, distance) == spec_speed(
            cfg,
            -distance - cfg.deadzone,
        ),
        1 <= spec_speed(cfg, magnitude_of(distance) - cfg.deadzone) <= clamp(
            cfg.max_speed as int,
            1,
            i32::MAX as int,
        ),
{
}

/// With the standard constants, beyond 50 units the intensity has the sign
/// opposite to the distance's and the magnitude of a twentieth of the excess
/// over 50, rounded down and kept between 1 and 5.
pub proof fn lemma_standard_intensity(distance: int)
    requires
        magnitude_of(distance) > 50,
    ensures
        distance > 0 ==> spec_intensity(Config::standard(), distance) == -clamp(
            (distance - 50) / 20,
            1,
            5,
        ),
        distance < 0 ==> spec_intensity(Config::standard(), distance) == clamp(
            (-distance - 50) / 20,
            1,
            5,
        ),
{
    let cfg = Config::standard();
    let excess = magnitude_of(distance) - 50;
    assert(cfg.speed_numerator == 1 && cfg.speed_denominator == 20 && cfg.max_speed == 5);
    assert(excess * cfg.speed_numerator == excess) by (nonlinear_arith)
        requires
            cfg.speed_numerator == 1,
    ;
    assert(spec_speed(cfg, excess) == clamp(excess / 20, 1, 5));
}

/// Opposite distances give opposite intensities.
pub proof fn lemma_intensity_is_odd(cfg: Config, distance: int)
    ensures
        spec_intensity(cfg, -distance) == -spec_intensity(cfg, distance),
{
}

/// The drag origin changes only at the instant a drag begins, and then to the
/// position at that instant.
pub proof fn lemma_origin_set_at_drag_start(state: DragState, event: RawEvent)
    ensures
        state.after_event(event).origin_y != state.origin_y ==> {
            &&& !state.scrolling
            &&& state.after_event(event).scrolling
            &&& state.after_event(event).origin_y == state.absolute_y
        },
        !state.scrolling && state.after_event(event).scrolling ==> state.after_event(
            event,
        ).origin_y == state.absolute_y,
{
}

/// Vertical motion moves the position whether a drag is under way or not,
/// and yields a command only while one is.
pub proof fn lemma_motion_accumulates(state: DragState, cfg: Config, delta: i32)
    ensures
        state.after_motion(delta).absolute_y == moved(state.absolute_y, delta),
        i64::MIN <= state.absolute_y + delta <= i64::MAX ==> state.after_motion(delta).absolute_y
            == state.absolute_y + delta,
        state.motion_command(cfg, delta) is Some <==> state.scrolling,
{
}

/// Splitting a run of events into two batches changes neither the final
/// state nor the commands.
pub proof fn lemma_batches_compose(
    state: DragState,
    cfg: Config,
    first: Seq<RawEvent>,
    second: Seq<RawEvent>,
)
    ensures
        state.after_events(first + second) == state.after_events(first).after_events(second),
        state.commands_of(cfg, first + second) == state.commands_of(cfg, first)
            + state.after_events(first).commands_of(cfg, second),
    decreases second.len(),
{
    if second.len() == 0 {
        assert(first + second =~= first);
        assert(state.commands_of(cfg, first) + Seq::<ScrollCommand>::empty() =~= state.commands_of(
            cfg,
            first,
        ));
    } else {
        let shorter = second.drop_last();
        lemma_batches_compose(state, cfg, first, shorter);
        assert((first + second).drop_last() =~= first + shorter);
        assert((first + second).last() == second.last());
        let middle = state.after_events(first);
        let earlier = state.commands_of(cfg, first + shorter);
        match middle.after_events(shorter).event_command(cfg, second.last()) {
            Some(command) => {
                assert(earlier.push(command) =~= state.commands_of(cfg, first)
                    + middle.commands_of(cfg, shorter).push(command));
            },
            None => {},
        }
    }
}

} // verus!
