use vstd::prelude::*;

verus! {

/// What kind of mouse answered a device-ID request.
#[derive(Debug, Clone, Copy, PartialEq, Eq, Structural)]
pub enum MouseType {
    Standard,
    OneWheel,
    FiveButton,
    /// An ID byte with no known meaning, kept as it came.
    Unknown(u8),
}

/// The classification of a device-ID byte.
pub open spec fn mouse_type_of(id: u8) -> MouseType {
    if id == 0x00 {
        MouseType::Standard
    } else if id == 0x03 {
        MouseType::OneWheel
    } else if id == 0x04 {
        MouseType::FiveButton
    } else {
        MouseType::Unknown(id)
    }
}

impl From<u8> for MouseType {
    fn from(id: u8) -> (r: Self)
        ensures
            r == mouse_type_of(id),
    {
        match id {
            0x00 => MouseType::Standard,
            0x03 => MouseType::OneWheel,
            0x04 => MouseType::FiveButton,
            other => MouseType::Unknown(other),
        }
    }
}

impl vstd::std_specs::convert::FromSpecImpl<u8> for MouseType {
    open spec fn obeys_from_spec() -> bool {
        true
    }

    open spec fn from_spec(v: u8) -> Self {
        mouse_type_of(v)
    }
}

} // verus!
