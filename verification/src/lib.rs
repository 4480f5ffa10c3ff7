//! Middle-button drag autoscroll.
//!
//! While the middle button of a pointer device is held, vertical drag distance
//! is turned into scroll-wheel events on a virtual device. This library holds
//! the decisions of that pipeline:
//!
//! - [`device`] picks the pointer device among the input devices found,
//! - [`classifier`] turns button and motion events into scroll commands,
//! - [`channel`] queues the commands, first in, first out,
//! - [`emitter`] applies the commands and says when a scroll event is due.
//!
//! Reading devices and the clock, running the two sides concurrently and
//! writing to the virtual device are left to the program around it.

pub mod capability;
pub mod channel;
pub mod classifier;
pub mod command;
pub mod config;
pub mod device;
pub mod emitter;
pub mod error;
pub mod event;
pub mod text;
