use vstd::prelude::*;

verus! {

/// Why a request source could not deliver events.
#[derive(Clone, Copy, Debug, PartialEq, Eq, Structural)]
pub enum EventSendError {
    /// The source could not create what it listens on.
    Init,
    /// The source failed while polling or forwarding an event.
    Poll,
}

impl EventSendError {
    /// A short description of the failure.
    pub fn message(&self) -> (r: &'static str)
        ensures
            r@.len() > 0,
    {
        let s: &'static str = match self {
            EventSendError::Init => "failed to create resource",
            EventSendError::Poll => "failed to poll next event",
        };
        proof {
            reveal_strlit("failed to create resource");
            reveal_strlit("failed to poll next event");
        }
        s
    }
}

/// The request-forwarding task failed in a way it cannot recover from.
#[derive(Clone, Copy, Debug, PartialEq, Eq, Structural)]
pub struct LogicalError;

impl LogicalError {
    /// A short description of the failure.
    pub fn message(&self) -> (r: &'static str)
        ensures
            r@.len() > 0,
    {
        let s: &'static str = "logic thread encountered an unrecoverable error";
        proof {
            reveal_strlit("logic thread encountered an unrecoverable error");
        }
        s
    }
}

/// The window thread failed, most likely on an operating-system error.
#[derive(Clone, Copy, Debug, PartialEq, Eq, Structural)]
pub struct WindowError;

impl WindowError {
    /// A short description of the failure.
    pub fn message(&self) -> (r: &'static str)
        ensures
            r@.len() > 0,
    {
        let s: &'static str = "window thread encountered an error, likely from the OS";
        proof {
            reveal_strlit("window thread encountered an error, likely from the OS");
        }
        s
    }
}

/// The rendering backend could not be brought up: no suitable adapter was
/// found, or the device request was rejected.
#[derive(Clone, Copy, Debug, PartialEq, Eq, Structural)]
pub struct GpuContextError;

impl GpuContextError {
    /// A short description of the failure.
    pub fn message(&self) -> (r: &'static str)
        ensures
            r@.len() > 0,
    {
        let s: &'static str = "no usable graphics device for showing the image";
        proof {
            reveal_strlit("no usable graphics device for showing the image");
        }
        s
    }
}

} // verus!
