use vstd::prelude::*;

verus! {

/// A failure of the controller itself, independent of any attached device.
#[derive(Debug, Clone, Copy, PartialEq, Eq, Structural)]
pub enum ControllerError {
    /// The status register never showed the awaited condition within the poll budget.
    Timeout,
    /// The controller's own self-test answered with something other than the pass byte.
    TestFailed { response: u8 },
}

/// A failure while talking to the keyboard.
#[derive(Debug, Clone, Copy, PartialEq, Eq, Structural)]
pub enum KeyboardError {
    BufferOverrun,
    SelfTestFailed,
    Resend,
    KeyDetectionError,
    InvalidResponse(u8),
    ControllerError(ControllerError),
}

/// A failure while talking to the mouse.
#[derive(Debug, Clone, Copy, PartialEq, Eq, Structural)]
pub enum MouseError {
    SelfTestFailed,
    Resend,
    InvalidResponse(u8),
    InvalidResolution(u8),
    InvalidSampleRate(u8),
    ControllerError(ControllerError),
}

impl From<ControllerError> for KeyboardError {
    fn from(err: ControllerError) -> (r: Self)
        ensures
            r == KeyboardError::ControllerError(err),
    {
        KeyboardError::ControllerError(err)
    }
}

impl vstd::std_specs::convert::FromSpecImpl<ControllerError> for KeyboardError {
    open spec fn obeys_from_spec() -> bool {
        true
    }

    open spec fn from_spec(v: ControllerError) -> Self {
        KeyboardError::ControllerError(v)
    }
}

impl From<ControllerError> for MouseError {
    fn from(err: ControllerError) -> (r: Self)
        ensures
            r == MouseError::ControllerError(err),
    {
        MouseError::ControllerError(err)
    }
}

impl vstd::std_specs::convert::FromSpecImpl<ControllerError> for MouseError {
    open spec fn obeys_from_spec() -> bool {
        true
    }

    open spec fn from_spec(v: ControllerError) -> Self {
        MouseError::ControllerError(v)
    }
}

} // verus!
