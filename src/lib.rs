//! A driver for the PS/2 controller and the keyboard and mouse attached to it.
use vstd::prelude::*;

pub mod bus;
pub mod controller;
pub mod error;
pub mod flags;
pub mod keyboard;
pub mod mouse;
pub mod mouse_type;

verus! {

/// The byte a device sends to acknowledge a command or an argument.
pub const COMMAND_ACKNOWLEDGED: u8 = 0xfa;

/// The byte a device sends to ask for the last byte again.
pub const RESEND: u8 = 0xfe;

/// The byte a device sends when its self-test passed.
pub const SELF_TEST_PASSED: u8 = 0xaa;

/// The byte a device sends when its self-test failed.
pub const SELF_TEST_FAILED: u8 = 0xfc;

} // verus!
