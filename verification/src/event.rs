//! Raw input events and their kinds.

use evdev::{EventType, InputEvent, InputEventKind};
use vstd::prelude::*;

verus! {

/// Type of key and button events.
pub const EV_KEY: u16 = 0x01;

/// Type of relative-axis events.
pub const EV_REL: u16 = 0x02;

/// Value of a key event that reports a press.
pub const KEY_PRESSED: i32 = 1;

/// One event as the input device reports it.
#[derive(Clone, Copy, Debug, PartialEq, Eq, Structural)]
pub struct RawEvent {
    pub event_type: u16,
    pub code: u16,
    pub value: i32,
}

/// What an event is about, as far as the classifier tells events apart.
#[derive(Clone, Copy, Debug, PartialEq, Eq, Structural)]
pub enum EventKind {
    /// A key or button, with its code.
    Key(u16),
    /// A relative axis, with its code.
    RelAxis(u16),
    /// Anything else.
    Other,
}

/// The kind of an event with the given type and code.
pub open spec fn kind_of(event_type: u16, code: u16) -> EventKind {
    if event_type == EV_KEY {
        EventKind::Key(code)
    } else if event_type == EV_REL {
        EventKind::RelAxis(code)
    } else {
        EventKind::Other
    }
}

/// Builds the input crate's event with `InputEvent::new` and asks it for its
/// kind with `InputEvent::kind`. Assumed: an event of type 1 is a key event,
/// one of type 2 a relative-axis event, each carrying the event's code
/// unchanged, and the value plays no part.
#[verifier::external_body]
fn event_kind(event_type: u16, code: u16, value: i32) -> (kind: EventKind)
    ensures
        kind == kind_of(event_type, code),
{
    match InputEvent::new(EventType(event_type), code, value).kind() {
        InputEventKind::Key(key) => EventKind::Key(key.code()),
        InputEventKind::RelAxis(axis) => EventKind::RelAxis(axis.0),
        _ => EventKind::Other,
    }
}

impl RawEvent {
    pub open spec fn spec_kind(&self) -> EventKind {
        kind_of(self.event_type, self.code)
    }

    /// What the event is about.
    pub fn kind(&self) -> (kind: EventKind)
        ensures
            kind == self.spec_kind(),
    {
        event_kind(self.event_type, self.code, self.value)
    }
}

} // verus!
