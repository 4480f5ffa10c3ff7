//! Error kinds of the autoscroll pipeline.

use vstd::prelude::*;

verus! {

/// What can go wrong at startup or while the pipeline runs.
#[derive(Clone, Copy, Debug, PartialEq, Eq, Structural)]
pub enum AutoscrollError {
    /// No candidate qualifies as a pointer device.
    DeviceNotFound,
    /// The chosen device could not be opened.
    DeviceOpenError,
    /// The virtual output device could not be registered.
    VirtualDeviceCreationError,
    /// The emitter side of the command channel is gone.
    ChannelClosed,
    /// Injecting or synchronizing a scroll event failed.
    EmissionError,
}

impl AutoscrollError {
    /// The diagnostic text of each error kind.
    pub open spec fn spec_message(self) -> Seq<char> {
        match self {
            AutoscrollError::DeviceNotFound => "No mouse device found"@,
            AutoscrollError::DeviceOpenError => "Failed to open mouse device"@,
            AutoscrollError::VirtualDeviceCreationError => "Failed to create virtual scroll device"@,
            AutoscrollError::ChannelClosed => "Scroll command channel closed"@,
            AutoscrollError::EmissionError => "Failed to send scroll event"@,
        }
    }

    /// Whether the whole process must stop on this error. An emission error
    /// stops the emitter only.
    pub open spec fn spec_is_fatal(self) -> bool {
        self != AutoscrollError::EmissionError
    }

    pub fn message(&self) -> (m: String)
        ensures
            m@ == self.spec_message(),
    {
        match self {
            AutoscrollError::DeviceNotFound => "No mouse device found".to_owned(),
            AutoscrollError::DeviceOpenError => "Failed to open mouse device".to_owned(),
            AutoscrollError::VirtualDeviceCreationError => "Failed to create virtual scroll device".to_owned(),
            AutoscrollError::ChannelClosed => "Scroll command channel closed".to_owned(),
            AutoscrollError::EmissionError => "Failed to send scroll event".to_owned(),
        }
    }

    pub fn is_fatal(&self) -> (b: bool)
        ensures
            b == self.spec_is_fatal(),
    {
        match self {
            AutoscrollError::EmissionError => false,
            _ => true,
        }
    }
}

} // verus!
