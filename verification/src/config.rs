//! Tunable constants of the scroll pipeline.

use vstd::prelude::*;

verus! {

/// Drag distance from the origin below which no scroll is produced.
pub const DEADZONE: u32 = 50;

/// Numerator of the base scroll speed, in speed units per distance unit.
pub const BASE_SCROLL_SPEED_NUMERATOR: u32 = 1;

/// Denominator of the base scroll speed: one speed unit per twenty distance
/// units, that is 0.05.
pub const BASE_SCROLL_SPEED_DENOMINATOR: u32 = 20;

/// Largest scroll magnitude per emitted event.
pub const MAX_SCROLL_SPEED: i32 = 5;

/// Least time between two emitted scroll events, in milliseconds.
pub const SCROLL_INTERVAL_MS: u64 = 50;

/// The constants the classifier and the emitter work with.
///
/// The base scroll speed is the fraction `speed_numerator / speed_denominator`.
#[derive(Clone, Copy, Debug, PartialEq, Eq, Structural)]
pub struct Config {
    pub deadzone: u32,
    pub speed_numerator: u32,
    pub speed_denominator: u32,
    pub max_speed: i32,
    pub scroll_interval_ms: u64,
}

impl Config {
    /// The base scroll speed is a fraction: its denominator is not zero.
    pub open spec fn wf(&self) -> bool {
        self.speed_denominator > 0
    }

    /// The configuration with the standard constants.
    pub open spec fn standard() -> Config {
        Config {
            deadzone: DEADZONE,
            speed_numerator: BASE_SCROLL_SPEED_NUMERATOR,
            speed_denominator: BASE_SCROLL_SPEED_DENOMINATOR,
            max_speed: MAX_SCROLL_SPEED,
            scroll_interval_ms: SCROLL_INTERVAL_MS,
        }
    }

    /// A configuration with the given constants, unless the speed's
    /// denominator is zero.
    pub fn new(
        deadzone: u32,
        speed_numerator: u32,
        speed_denominator: u32,
        max_speed: i32,
        scroll_interval_ms: u64,
    ) -> (made: Option<Config>)
        ensures
            made == if speed_denominator > 0 {
                Some(
                    Config {
                        deadzone,
                        speed_numerator,
                        speed_denominator,
                        max_speed,
                        scroll_interval_ms,
                    },
                )
            } else {
                None
            },
            made matches Some(c) ==> c.wf(),
    {
        if speed_denominator == 0 {
            None
        } else {
            Some(Config { deadzone, speed_numerator, speed_denominator, max_speed, scroll_interval_ms })
        }
    }

    /// Whether the configuration can be used.
    pub fn is_valid(&self) -> (b: bool)
        ensures
            b == self.wf(),
    {
        self.speed_denominator > 0
    }
}

impl Default for Config {
    fn default() -> (c: Config)
        ensures
            c == Config::standard(),
            c.wf(),
    {
        Config {
            deadzone: DEADZONE,
            speed_numerator: BASE_SCROLL_SPEED_NUMERATOR,
            speed_denominator: BASE_SCROLL_SPEED_DENOMINATOR,
            max_speed: MAX_SCROLL_SPEED,
            scroll_interval_ms: SCROLL_INTERVAL_MS,
        }
    }
}

} // verus!
