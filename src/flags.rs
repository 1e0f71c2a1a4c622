//! Bit-flag views of single status and movement bytes. Decoding never fails:
//! bits without a meaning are dropped.
use vstd::prelude::*;

verus! {

/// The controller's status register.
#[derive(Debug, Clone, Copy, PartialEq, Eq, Structural)]
pub struct ControllerStatus {
    bits: u8,
}

impl ControllerStatus {
    /// A byte is waiting in the output buffer.
    pub const OUTPUT_FULL: u8 = 0x01;
    /// The input buffer still holds a byte for the controller.
    pub const INPUT_FULL: u8 = 0x02;
    pub const SYSTEM_FLAG: u8 = 0x04;
    /// The last byte written was meant for the controller, not a device.
    pub const INPUT_IS_COMMAND: u8 = 0x08;
    pub const UNKNOWN_CHIPSET_1: u8 = 0x10;
    pub const UNKNOWN_CHIPSET_2: u8 = 0x20;
    pub const TIMEOUT_ERROR: u8 = 0x40;
    pub const PARITY_ERROR: u8 = 0x80;

    pub closed spec fn spec_bits(&self) -> u8 {
        self.bits
    }

    /// Every bit of the status register has a meaning, so none is dropped.
    pub fn from_bits_truncate(bits: u8) -> (r: Self)
        ensures
            r.spec_bits() == bits,
    {
        ControllerStatus { bits }
    }

    pub fn bits(&self) -> (r: u8)
        ensures
            r == self.spec_bits(),
    {
        self.bits
    }

    /// Whether every bit of `mask` is set.
    pub fn contains(&self, mask: u8) -> (r: bool)
        ensures
            r == (self.spec_bits() & mask == mask),
    {
        self.bits & mask == mask
    }
}

/// The first byte of a mouse status report.
#[derive(Debug, Clone, Copy, PartialEq, Eq, Structural)]
pub struct MouseStatus {
    bits: u8,
}

impl MouseStatus {
    pub const RIGHT_BUTTON_PRESSED: u8 = 0x01;
    pub const MIDDLE_BUTTON_PRESSED: u8 = 0x02;
    pub const LEFT_BUTTON_PRESSED: u8 = 0x04;
    pub const SCALING_TWO_TO_ONE: u8 = 0x10;
    pub const DATA_REPORTING_ENABLED: u8 = 0x20;
    pub const REMOTE_MODE_ENABLED: u8 = 0x40;
    /// The union of the bits above.
    pub const ALL: u8 = 0x77;

    pub closed spec fn spec_bits(&self) -> u8 {
        self.bits
    }

    /// Keeps the bits with a meaning and drops the others.
    pub fn from_bits_truncate(bits: u8) -> (r: Self)
        ensures
            r.spec_bits() == bits & Self::ALL,
    {
        MouseStatus { bits: bits & Self::ALL }
    }

    pub fn bits(&self) -> (r: u8)
        ensures
            r == self.spec_bits(),
    {
        self.bits
    }

    /// Whether every bit of `mask` is set.
    pub fn contains(&self, mask: u8) -> (r: bool)
        ensures
            r == (self.spec_bits() & mask == mask),
    {
        self.bits & mask == mask
    }
}

/// The first byte of a movement packet: buttons, sign and overflow bits.
#[derive(Debug, Clone, Copy, PartialEq, Eq, Structural)]
pub struct MouseMovement {
    bits: u8,
}

impl MouseMovement {
    pub const LEFT_BUTTON_PRESSED: u8 = 0x01;
    pub const RIGHT_BUTTON_PRESSED: u8 = 0x02;
    pub const MIDDLE_BUTTON_PRESSED: u8 = 0x04;
    pub const ALWAYS_ONE: u8 = 0x08;
    /// The X movement is negative.
    pub const X_SIGN_BIT: u8 = 0x10;
    /// The Y movement is negative.
    pub const Y_SIGN_BIT: u8 = 0x20;
    pub const X_OVERFLOW: u8 = 0x40;
    pub const Y_OVERFLOW: u8 = 0x80;

    pub closed spec fn spec_bits(&self) -> u8 {
        self.bits
    }

    /// Every bit of a movement byte has a meaning, so none is dropped.
    pub fn from_bits_truncate(bits: u8) -> (r: Self)
        ensures
            r.spec_bits() == bits,
    {
        MouseMovement { bits }
    }

    pub fn bits(&self) -> (r: u8)
        ensures
            r == self.spec_bits(),
    {
        self.bits
    }

    /// Whether every bit of `mask` is set.
    pub fn contains(&self, mask: u8) -> (r: bool)
        ensures
            r == (self.spec_bits() & mask == mask),
    {
        self.bits & mask == mask
    }
}

} // verus!
