//! The scroll emitter: applies the classifier's commands and decides, at a
//! fixed cadence, when a scroll event is due.
//!
//! Times are milliseconds on a clock that does not run backwards. The caller
//! reads the clock, hands over the commands that are pending, and injects the
//! event that a tick asks for.

use crate::command::ScrollCommand;
use crate::config::Config;
use vstd::prelude::*;

verus! {

/// The time from `earlier` to `now`, zero where `now` is not later.
pub open spec fn elapsed(now: u64, earlier: u64) -> int {
    if now >= earlier {
        now - earlier
    } else {
        0
    }
}

/// What the emitter remembers between ticks.
#[derive(Clone, Copy, Debug, PartialEq, Eq, Structural)]
pub struct EmitterState {
    /// Whether a drag is under way.
    pub active: bool,
    /// The intensity of the most recent update, zero after a stop.
    pub current_intensity: i32,
    /// When the cadence timer was last reset: at the last start or emission.
    pub last_emit_time: u64,
}

impl EmitterState {
    /// Inactive, with nothing to scroll, the cadence timer set to `now`.
    pub open spec fn initial(now: u64) -> EmitterState {
        EmitterState { active: false, current_intensity: 0, last_emit_time: now }
    }

    /// The state after one command that is taken at time `now`.
    pub open spec fn after_command(self, command: ScrollCommand, now: u64) -> EmitterState {
        match command {
            ScrollCommand::Start => EmitterState {
                active: true,
                current_intensity: self.current_intensity,
                last_emit_time: now,
            },
            ScrollCommand::Stop => EmitterState {
                active: false,
                current_intensity: 0,
                last_emit_time: self.last_emit_time,
            },
            ScrollCommand::Update(intensity) => EmitterState {
                active: self.active,
                current_intensity: intensity,
                last_emit_time: self.last_emit_time,
            },
        }
    }

    /// The state after the given commands, taken in order at time `now`.
    pub open spec fn after_commands(self, commands: Seq<ScrollCommand>, now: u64) -> EmitterState
        decreases commands.len(),
    {
        if commands.len() == 0 {
            self
        } else {
            self.after_commands(commands.drop_last(), now).after_command(commands.last(), now)
        }
    }

    /// A scroll event is due: a drag is under way, the intensity is not zero
    /// and the interval has passed since the cadence timer was reset.
    pub open spec fn is_due(self, cfg: Config, now: u64) -> bool {
        &&& self.active
        &&& self.current_intensity != 0
        &&& elapsed(now, self.last_emit_time) >= cfg.scroll_interval_ms
    }

    /// The wheel delta to inject at time `now`, if an event is due.
    pub open spec fn emission(self, cfg: Config, now: u64) -> Option<i32> {
        if self.is_due(cfg, now) {
            Some(self.current_intensity)
        } else {
            None
        }
    }

    /// The state after the decision at time `now`: an emission resets the
    /// cadence timer.
    pub open spec fn after_poll(self, cfg: Config, now: u64) -> EmitterState {
        if self.is_due(cfg, now) {
            EmitterState {
                active: self.active,
                current_intensity: self.current_intensity,
                last_emit_time: now,
            }
        } else {
            self
        }
    }

    /// The state after one tick: the pending commands, then the decision.
    pub open spec fn after_tick(self, cfg: Config, commands: Seq<ScrollCommand>, now: u64) -> EmitterState {
        self.after_commands(commands, now).after_poll(cfg, now)
    }

    /// The wheel delta that one tick injects, if any.
    pub open spec fn tick_emission(self, cfg: Config, commands: Seq<ScrollCommand>, now: u64) -> Option<i32> {
        self.after_commands(commands, now).emission(cfg, now)
    }

    /// The state after a run of ticks, each with its pending commands and its
    /// time.
    pub open spec fn after_ticks(self, cfg: Config, ticks: Seq<(Seq<ScrollCommand>, u64)>) -> EmitterState
        decreases ticks.len(),
    {
        if ticks.len() == 0 {
            self
        } else {
            self.after_ticks(cfg, ticks.drop_last()).after_tick(cfg, ticks.last().0, ticks.last().1)
        }
    }

    /// What each tick of a run injects.
    pub open spec fn emissions(self, cfg: Config, ticks: Seq<(Seq<ScrollCommand>, u64)>) -> Seq<Option<i32>>
        decreases ticks.len(),
    {
        if ticks.len() == 0 {
            Seq::empty()
        } else {
            self.emissions(cfg, ticks.drop_last()).push(
                self.after_ticks(cfg, ticks.drop_last()).tick_emission(
                    cfg,
                    ticks.last().0,
                    ticks.last().1,
                ),
            )
        }
    }

    pub fn new(now: u64) -> (state: EmitterState)
        ensures
            state == EmitterState::initial(now),
    {
        EmitterState { active: false, current_intensity: 0, last_emit_time: now }
    }

    /// Takes one command at time `now`.
    pub fn apply(&mut self, command: ScrollCommand, now: u64)
        ensures
            *final(self) == old(self).after_command(command, now),
    {
        match command {
            ScrollCommand::Start => {
                self.active = true;
                self.last_emit_time = now;
            },
            ScrollCommand::Stop => {
                self.active = false;
                self.current_intensity = 0;
            },
            ScrollCommand::Update(intensity) => {
                self.current_intensity = intensity;
            },
        }
    }

    /// Takes all pending commands, in order, at time `now`.
    pub fn drain(&mut self, commands: &Vec<ScrollCommand>, now: u64)
        ensures
            *final(self) == old(self).after_commands(commands@, now),
    {
        let mut at: usize = 0;
        while at < commands.len()
            invariant
                at <= commands.len(),
                *self == old(self).after_commands(commands@.take(at as int), now),
            decreases commands.len() - at,
        {
            proof {
                let next = commands@.take(at + 1);
                assert(next.drop_last() =~= commands@.take(at as int));
                assert(next.last() == commands@[at as int]);
            }
            self.apply(commands[at], now);
            at += 1;
        }
        assert(commands@.take(at as int) =~= commands@);
    }

    /// Decides at time `now` whether to inject a scroll event, and of which
    /// wheel delta.
    pub fn poll(&mut self, cfg: &Config, now: u64) -> (delta: Option<i32>)
        ensures
            *final(self) == old(self).after_poll(*cfg, now),
            delta == old(self).emission(*cfg, now),
    {
        let waited: u64 = if now >= self.last_emit_time {
            now - self.last_emit_time
        } else {
            0
        };
        if self.active && self.current_intensity != 0 && waited >= cfg.scroll_interval_ms {
            self.last_emit_time = now;
            Some(self.current_intensity)
        } else {
            None
        }
    }

    /// One round of the emitter at time `now`: takes the pending commands,
    /// then decides whether to inject a scroll event.
    pub fn tick(&mut self, cfg: &Config, commands: &Vec<ScrollCommand>, now: u64) -> (delta: Option<i32>)
        ensures
            *final(self) == old(self).after_tick(*cfg, commands@, now),
            delta == old(self).tick_emission(*cfg, commands@, now),
    {
        self.drain(commands, now);
        self.poll(cfg, now)
    }
}

/// No command of the run is a start.
pub open spec fn without_start(commands: Seq<ScrollCommand>) -> bool {
    forall|i: int| 0 <= i < commands.len() ==> commands[i] != ScrollCommand::Start
}

/// Every command of the run is an update to intensity zero.
pub open spec fn only_zero_updates(commands: Seq<ScrollCommand>) -> bool {
    forall|i: int| 0 <= i < commands.len() ==> commands[i] == ScrollCommand::Update(0)
}

/// A stop leaves the emitter inactive with intensity zero, whatever the
/// intensity was before.
pub proof fn lemma_stop_resets_intensity(state: EmitterState, now: u64)
    ensures
        state.after_command(ScrollCommand::Stop, now).current_intensity == 0,
        !state.after_command(ScrollCommand::Stop, now).active,
{
}

/// Commands other than a start leave an inactive emitter inactive and its
/// cadence timer untouched.
pub proof fn lemma_inactive_without_start(state: EmitterState, commands: Seq<ScrollCommand>, now: u64)
    requires
        !state.active,
        without_start(commands),
    ensures
        !state.after_commands(commands, now).active,
        state.after_commands(commands, now).last_emit_time == state.last_emit_time,
    decreases commands.len(),
{
    if commands.len() > 0 {
        lemma_inactive_without_start(state, commands.drop_last(), now);
    }
}

/// An inactive emitter injects nothing, tick after tick, until a start
/// arrives.
pub proof fn lemma_no_emission_until_start(
    state: EmitterState,
    cfg: Config,
    ticks: Seq<(Seq<ScrollCommand>, u64)>,
)
    requires
        !state.active,
        forall|i: int| 0 <= i < ticks.len() ==> without_start(#[trigger] ticks[i].0),
    ensures
        !state.after_ticks(cfg, ticks).active,
        state.emissions(cfg, ticks).len() == ticks.len(),
        forall|i: int| 0 <= i < ticks.len() ==> state.emissions(cfg, ticks)[i] is None,
    decreases ticks.len(),
{
    if ticks.len() > 0 {
        let earlier = ticks.drop_last();
        assert forall|i: int| 0 <= i < earlier.len() implies without_start(#[trigger] earlier[i].0) by {
            assert(earlier[i] == ticks[i]);
        }
        lemma_no_emission_until_start(state, cfg, earlier);
        lemma_inactive_without_start(state.after_ticks(cfg, earlier), ticks.last().0, ticks.last().1);
    }
}

/// After a stop nothing is injected, tick after tick, until the next start.
pub proof fn lemma_silent_after_stop(
    state: EmitterState,
    cfg: Config,
    now: u64,
    ticks: Seq<(Seq<ScrollCommand>, u64)>,
)
    requires
        forall|i: int| 0 <= i < ticks.len() ==> without_start(#[trigger] ticks[i].0),
    ensures
        forall|i: int|
            0 <= i < ticks.len() ==> state.after_command(ScrollCommand::Stop, now).emissions(
                cfg,
                ticks,
            )[i] is None,
{
    lemma_no_emission_until_start(state.after_command(ScrollCommand::Stop, now), cfg, ticks);
}

/// A stop among the pending commands silences the tick that takes them,
/// unless a start follows it.
pub proof fn lemma_stop_silences_tick(
    state: EmitterState,
    cfg: Config,
    before: Seq<ScrollCommand>,
    after: Seq<ScrollCommand>,
    now: u64,
)
    requires
        without_start(after),
    ensures
        state.tick_emission(cfg, before.push(ScrollCommand::Stop) + after, now) is None,
        !state.after_tick(cfg, before.push(ScrollCommand::Stop) + after, now).active,
    decreases after.len(),
{
    let stopped = before.push(ScrollCommand::Stop);
    if after.len() == 0 {
        assert(stopped + after =~= stopped);
        assert(stopped.drop_last() =~= before);
    } else {
        lemma_stop_silences_tick(state, cfg, before, after.drop_last(), now);
        assert((stopped + after).drop_last() =~= stopped + after.drop_last());
        assert((stopped + after).last() == after.last());
    }
}

/// A second update to zero changes nothing.
pub proof fn lemma_update_zero_idempotent(state: EmitterState, first: u64, second: u64)
    ensures
        state.after_command(ScrollCommand::Update(0), first).after_command(
            ScrollCommand::Update(0),
            second,
        ) == state.after_command(ScrollCommand::Update(0), first),
{
}

/// Updates to zero, however many and whenever they come, make an inactive
/// emitter inject nothing.
pub proof fn lemma_zero_updates_never_emit(
    state: EmitterState,
    cfg: Config,
    ticks: Seq<(Seq<ScrollCommand>, u64)>,
)
    requires
        !state.active,
        forall|i: int| 0 <= i < ticks.len() ==> only_zero_updates(#[trigger] ticks[i].0),
    ensures
        !state.after_ticks(cfg, ticks).active,
        forall|i: int| 0 <= i < ticks.len() ==> state.emissions(cfg, ticks)[i] is None,
{
    assert forall|i: int| 0 <= i < ticks.len() implies without_start(#[trigger] ticks[i].0) by {
        assert(only_zero_updates(ticks[i].0));
    }
    lemma_no_emission_until_start(state, cfg, ticks);
}

/// The emitter acts on the update that was queued last.
pub proof fn lemma_last_update_wins(
    state: EmitterState,
    commands: Seq<ScrollCommand>,
    intensity: i32,
    now: u64,
)
    ensures
        state.after_commands(commands.push(ScrollCommand::Update(intensity)), now).current_intensity
            == intensity,
{
    assert(commands.push(ScrollCommand::Update(intensity)).drop_last() =~= commands);
}

/// An injected event carries the current intensity, which is not zero, and
/// resets the cadence timer.
pub proof fn lemma_emission_resets_timer(state: EmitterState, cfg: Config, now: u64)
    requires
        state.emission(cfg, now) is Some,
    ensures
        state.emission(cfg, now) == Some(state.current_intensity),
        state.current_intensity != 0,
        state.active,
        state.after_poll(cfg, now).last_emit_time == now,
{
}

/// The cadence: a tick that comes before the interval has passed since the
/// cadence timer was reset injects nothing, whatever commands it takes.
pub proof fn lemma_cadence(
    state: EmitterState,
    cfg: Config,
    commands: Seq<ScrollCommand>,
    now: u64,
)
    requires
        elapsed(now, state.last_emit_time) < cfg.scroll_interval_ms,
    ensures
        state.tick_emission(cfg, commands, now) is None,
{
    lemma_timer_after_commands(state, commands, now);
}

/// Commands move the cadence timer to the time at which they are taken, or
/// leave it.
pub proof fn lemma_timer_after_commands(state: EmitterState, commands: Seq<ScrollCommand>, now: u64)
    ensures
        state.after_commands(commands, now).last_emit_time == state.last_emit_time
            || state.after_commands(commands, now).last_emit_time == now,
    decreases commands.len(),
{
    if commands.len() > 0 {
        lemma_timer_after_commands(state, commands.drop_last(), now);
    }
}

/// Taking the pending commands in two parts, at the same time, is the same as
/// taking them at once.
pub proof fn lemma_commands_compose(
    state: EmitterState,
    first: Seq<ScrollCommand>,
    second: Seq<ScrollCommand>,
    now: u64,
)
    ensures
        state.after_commands(first + second, now) == state.after_commands(first, now).after_commands(
            second,
            now,
        ),
    decreases second.len(),
{
    if second.len() == 0 {
        assert(first + second =~= first);
    } else {
        lemma_commands_compose(state, first, second.drop_last(), now);
        assert((first + second).drop_last() =~= first + second.drop_last());
        assert((first + second).last() == second.last());
    }
}

} // verus!
