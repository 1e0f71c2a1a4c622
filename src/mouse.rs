//! The mouse command set.
use vstd::prelude::*;

use crate::bus::{extends, lemma_log_start, mouse_write_at, read_at, since, BusOp};
use crate::controller::{Controller, PortIo};
use crate::error::{ControllerError, MouseError};
use crate::flags::{MouseMovement, MouseStatus};
use crate::mouse_type::{mouse_type_of, MouseType};
use crate::{COMMAND_ACKNOWLEDGED, RESEND, SELF_TEST_FAILED, SELF_TEST_PASSED};

verus! {

broadcast use crate::bus::lemma_log_push;

pub const SET_SCALING_ONE_TO_ONE: u8 = 0xe6;
pub const SET_SCALING_TWO_TO_ONE: u8 = 0xe7;
pub const SET_RESOLUTION: u8 = 0xe8;
pub const STATUS_REQUEST: u8 = 0xe9;
pub const SET_STREAM_MODE: u8 = 0xea;
pub const READ_DATA: u8 = 0xeb;
pub const RESET_WRAP_MODE: u8 = 0xec;
pub const SET_WRAP_MODE: u8 = 0xee;
pub const SET_REMOTE_MODE: u8 = 0xf0;
pub const GET_DEVICE_ID: u8 = 0xf2;
pub const SET_SAMPLE_RATE: u8 = 0xf3;
pub const ENABLE_DATA_REPORTING: u8 = 0xf4;
pub const DISABLE_DATA_REPORTING: u8 = 0xf5;
pub const SET_DEFAULTS: u8 = 0xf6;
pub const RESEND_LAST_PACKET: u8 = 0xfe;
pub const RESET_AND_SELF_TEST: u8 = 0xff;

/// The resolutions a mouse accepts, in counts per millimetre. The wire
/// carries a position in this sequence, not the value.
pub open spec fn resolutions() -> Seq<u8> {
    seq![1u8, 2u8, 4u8, 8u8]
}

/// The sample rates a mouse accepts, in samples per second.
pub open spec fn sample_rates() -> Seq<u8> {
    seq![10u8, 20u8, 40u8, 60u8, 80u8, 100u8, 200u8]
}

/// The position of an accepted resolution in `resolutions()`.
pub open spec fn resolution_code(resolution: u8) -> u8 {
    if resolution == 1 {
        0
    } else if resolution == 2 {
        1
    } else if resolution == 4 {
        2
    } else {
        3
    }
}

/// A byte with its sign taken from a separate bit: the 9-bit value that the
/// mouse reports.
pub open spec fn signed_movement(magnitude: u8, negative: bool) -> int {
    if negative {
        magnitude as int - 256
    } else {
        magnitude as int
    }
}

/// What an acknowledgment byte means.
pub open spec fn ack_result(b: u8) -> Result<(), MouseError> {
    if b == COMMAND_ACKNOWLEDGED {
        Ok(())
    } else if b == RESEND {
        Err(MouseError::Resend)
    } else {
        Err(MouseError::InvalidResponse(b))
    }
}

/// Reading one byte at position `i`: its outcome and the position after it,
/// or `None` when `t` holds no read there.
pub open spec fn byte_run(t: Seq<BusOp>, i: int) -> Option<(Result<u8, MouseError>, int)> {
    match read_at(t, i) {
        None => None,
        Some(Err(e)) => Some((Err(MouseError::ControllerError(e)), i + 1)),
        Some(Ok(b)) => Some((Ok(b), i + 1)),
    }
}

/// Reading an acknowledgment at position `i`.
pub open spec fn response_run(t: Seq<BusOp>, i: int) -> Option<(Result<(), MouseError>, int)> {
    match read_at(t, i) {
        None => None,
        Some(Err(e)) => Some((Err(MouseError::ControllerError(e)), i + 1)),
        Some(Ok(b)) => Some((ack_result(b), i + 1)),
    }
}

/// Sending `command`, and then `data` if there is any, each on the mouse
/// channel and each followed by its acknowledgment, from position `i`. The exchange stops at the first failure.
pub open spec fn command_run(command: u8, data: Option<u8>, t: Seq<BusOp>, i: int) -> Option<
    (Result<(), MouseError>, int),
> {
    match mouse_write_at(t, i, command) {
        None => None,
        Some(Err(e)) => Some((Err(MouseError::ControllerError(e)), i + 1)),
        Some(Ok(_)) => match response_run(t, i + 1) {
            None => None,
            Some((Err(e), j)) => Some((Err(e), j)),
            Some((Ok(_), j)) => match data {
                None => Some((Ok(()), j)),
                Some(d) => match mouse_write_at(t, j, d) {
                    None => None,
                    Some(Err(e)) => Some((Err(MouseError::ControllerError(e)), j + 1)),
                    Some(Ok(_)) => response_run(t, j + 1),
                },
            },
        },
    }
}

/// `run` describes all of `t` and ends in `r`.
pub open spec fn runs_to<T>(run: Option<(Result<T, MouseError>, int)>, t: Seq<BusOp>, r: Result<T, MouseError>) -> bool {
    run == Some((r, t.len() as int))
}

/// A command without argument followed by three bytes of report.
pub open spec fn report_run(command: u8, t: Seq<BusOp>) -> Option<(Result<(u8, u8, u8), MouseError>, int)> {
    match command_run(command, None, t, 0) {
        None => None,
        Some((Err(e), j)) => Some((Err(e), j)),
        Some((Ok(_), j)) => match byte_run(t, j) {
            None => None,
            Some((Err(e), k)) => Some((Err(e), k)),
            Some((Ok(a), k)) => match byte_run(t, k) {
                None => None,
                Some((Err(e), l)) => Some((Err(e), l)),
                Some((Ok(b), l)) => match byte_run(t, l) {
                    None => None,
                    Some((Err(e), m)) => Some((Err(e), m)),
                    Some((Ok(c), m)) => Some((Ok((a, b, c)), m)),
                },
            },
        },
    }
}

/// `r` is the status report made of these three bytes: the flags with their
/// unknown bits dropped, the resolution turned back from its wire code into
/// its value, and the sample rate checked against the accepted values.
pub open spec fn status_decoded(
    status: u8,
    resolution_code: u8,
    sample_rate: u8,
    r: Result<(MouseStatus, u8, u8), MouseError>,
) -> bool {
    if resolution_code >= resolutions().len() {
        r == Err::<(MouseStatus, u8, u8), MouseError>(MouseError::InvalidResolution(resolution_code))
    } else if !sample_rates().contains(sample_rate) {
        r == Err::<(MouseStatus, u8, u8), MouseError>(MouseError::InvalidSampleRate(sample_rate))
    } else {
        &&& r is Ok
        &&& r->Ok_0.0.spec_bits() == status & MouseStatus::ALL
        &&& r->Ok_0.1 == resolutions()[resolution_code as int]
        &&& r->Ok_0.2 == sample_rate
    }
}

/// `r` is the movement packet made of these three bytes, each movement
/// signed by its bit in the flags.
pub open spec fn movement_decoded(flags: u8, x: u8, y: u8, r: (MouseMovement, i16, i16)) -> bool {
    &&& r.0.spec_bits() == flags
    &&& r.1 as int == signed_movement(x, flags & MouseMovement::X_SIGN_BIT == MouseMovement::X_SIGN_BIT)
    &&& r.2 as int == signed_movement(y, flags & MouseMovement::Y_SIGN_BIT == MouseMovement::Y_SIGN_BIT)
}

/// `t` is a status request that ended in `r`.
pub open spec fn status_ran(t: Seq<BusOp>, r: Result<(MouseStatus, u8, u8), MouseError>) -> bool {
    match report_run(STATUS_REQUEST, t) {
        Some((Ok((s, res, rate)), n)) => n == t.len() && status_decoded(s, res, rate, r),
        Some((Err(e), n)) => n == t.len() && r == Err::<(MouseStatus, u8, u8), MouseError>(e),
        None => false,
    }
}

/// `t` is a read of a movement packet that ended in `r`.
pub open spec fn movement_ran(t: Seq<BusOp>, r: Result<(MouseMovement, i16, i16), MouseError>) -> bool {
    match report_run(READ_DATA, t) {
        Some((Ok((f, x, y)), n)) => n == t.len() && r is Ok && movement_decoded(f, x, y, r->Ok_0),
        Some((Err(e), n)) => n == t.len() && r == Err::<(MouseMovement, i16, i16), MouseError>(e),
        None => false,
    }
}

/// A device-ID request and the classification of its answer.
pub open spec fn device_id_run(t: Seq<BusOp>) -> Option<(Result<MouseType, MouseError>, int)> {
    match command_run(GET_DEVICE_ID, None, t, 0) {
        None => None,
        Some((Err(e), j)) => Some((Err(e), j)),
        Some((Ok(_), j)) => match byte_run(t, j) {
            None => None,
            Some((Err(e), k)) => Some((Err(e), k)),
            Some((Ok(b), k)) => Some((Ok(mouse_type_of(b)), k)),
        },
    }
}

/// What a self-test result byte means.
pub open spec fn self_test_result(b: u8) -> Result<(), MouseError> {
    if b == SELF_TEST_PASSED {
        Ok(())
    } else if b == SELF_TEST_FAILED {
        Err(MouseError::SelfTestFailed)
    } else if b == RESEND {
        Err(MouseError::Resend)
    } else {
        Err(MouseError::InvalidResponse(b))
    }
}

/// A reset: the command, the self-test result byte, then the device-ID byte,
/// which is read and dropped whatever the result was.
pub open spec fn self_test_run(t: Seq<BusOp>) -> Option<(Result<(), MouseError>, int)> {
    match command_run(RESET_AND_SELF_TEST, None, t, 0) {
        None => None,
        Some((Err(e), j)) => Some((Err(e), j)),
        Some((Ok(_), j)) => match byte_run(t, j) {
            None => None,
            Some((Err(e), k)) => Some((Err(e), k)),
            Some((Ok(b), k)) => match byte_run(t, k) {
                None => None,
                Some((Err(e), l)) => Some((Err(e), l)),
                Some((Ok(_), l)) => Some((self_test_result(b), l)),
            },
        },
    }
}

/// A single write of the resend command, with nothing read back.
pub open spec fn resend_run(t: Seq<BusOp>) -> Option<(Result<(), MouseError>, int)> {
    match mouse_write_at(t, 0, RESEND_LAST_PACKET) {
        None => None,
        Some(Err(e)) => Some((Err(MouseError::ControllerError(e)), 1)),
        Some(Ok(_)) => Some((Ok(()), 1)),
    }
}

/// An accepted resolution goes on the wire as its position among the
/// accepted values: reading that position back gives the resolution.
pub proof fn lemma_resolution_code_position(resolution: u8)
    requires
        resolutions().contains(resolution),
    ensures
        resolution_code(resolution) < resolutions().len(),
        resolutions()[resolution_code(resolution) as int] == resolution,
{
}

/// Every position among the accepted resolutions is the wire code of the
/// value found there: encoding is the exact inverse of that lookup.
pub proof fn lemma_resolution_code_inverse(i: int)
    requires
        0 <= i < resolutions().len(),
    ensures
        resolutions().contains(resolutions()[i]),
        resolution_code(resolutions()[i]) == i,
{
}

/// Decoding is the exact inverse of encoding: a status report that carries
/// the wire code that `set_resolution` sends for an accepted resolution, with
/// an accepted sample rate, reports that same resolution.
pub proof fn lemma_resolution_round_trip(
    status: u8,
    resolution: u8,
    sample_rate: u8,
    r: Result<(MouseStatus, u8, u8), MouseError>,
)
    requires
        resolutions().contains(resolution),
        sample_rates().contains(sample_rate),
        status_decoded(status, resolution_code(resolution), sample_rate, r),
    ensures
        r is Ok,
        r->Ok_0.1 == resolution,
        r->Ok_0.2 == sample_rate,
{
}

/// When the mouse answers a command byte with the resend code, the exchange
/// ends there with `Resend`: no argument byte is sent and nothing more is read,
/// whatever the operation.
pub proof fn lemma_resend_stops(command: u8, data: Option<u8>, t: Seq<BusOp>)
    requires
        mouse_write_at(t, 0, command) is Some,
        mouse_write_at(t, 0, command)->Some_0 is Ok,
        read_at(t, 1) == Some(Ok::<u8, ControllerError>(RESEND)),
    ensures
        response_run(t, 1) == Some((Err::<(), MouseError>(MouseError::Resend), 2int)),
        command_run(command, data, t, 0) == Some((Err::<(), MouseError>(MouseError::Resend), 2int)),
        report_run(command, t) == Some((Err::<(u8, u8, u8), MouseError>(MouseError::Resend), 2int)),
        command == GET_DEVICE_ID ==> device_id_run(t) == Some((Err::<MouseType, MouseError>(MouseError::Resend), 2int)),
        command == RESET_AND_SELF_TEST ==> self_test_run(t) == Some((Err::<(), MouseError>(MouseError::Resend), 2int)),
{
}

/// When the acknowledgment of a command byte never arrives within the
/// controller's poll budget, the exchange ends there with the controller's
/// `Timeout`: it is not retried and nothing more is sent or read.
pub proof fn lemma_timeout_stops(command: u8, data: Option<u8>, t: Seq<BusOp>)
    requires
        mouse_write_at(t, 0, command) is Some,
        mouse_write_at(t, 0, command)->Some_0 is Ok,
        read_at(t, 1) == Some(Err::<u8, ControllerError>(ControllerError::Timeout)),
    ensures
        response_run(t, 1) == Some(
            (Err::<(), MouseError>(MouseError::ControllerError(ControllerError::Timeout)), 2int),
        ),
        command_run(command, data, t, 0) == Some(
            (Err::<(), MouseError>(MouseError::ControllerError(ControllerError::Timeout)), 2int),
        ),
        report_run(command, t) == Some(
            (Err::<(u8, u8, u8), MouseError>(MouseError::ControllerError(ControllerError::Timeout)), 2int),
        ),
{
}

/// A reset whose self-test passed succeeds whatever device-ID byte follows,
/// and that byte is consumed by the reset: the exchange covers it.
pub proof fn lemma_self_test_consumes_id(id: u8)
    ensures
        self_test_run(
            seq![
                BusOp::WroteMouse(RESET_AND_SELF_TEST, Ok(())),
                BusOp::ReadData(Ok(COMMAND_ACKNOWLEDGED)),
                BusOp::ReadData(Ok(SELF_TEST_PASSED)),
                BusOp::ReadData(Ok(id)),
            ],
        ) == Some((Ok::<(), MouseError>(()), 4int)),
{
}

/// Checks the three bytes of a status report.
pub fn decode_status(status: u8, resolution_code: u8, sample_rate: u8) -> (r: Result<(MouseStatus, u8, u8), MouseError>)
    ensures
        status_decoded(status, resolution_code, sample_rate, r),
{
    let status = MouseStatus::from_bits_truncate(status);
    let resolution = match resolution_value(resolution_code) {
        None => return Err(MouseError::InvalidResolution(resolution_code)),
        Some(value) => value,
    };
    if !is_valid_sample_rate(sample_rate) {
        return Err(MouseError::InvalidSampleRate(sample_rate));
    }
    Ok((status, resolution, sample_rate))
}

/// Builds a movement packet from its three bytes.
pub fn decode_movement(flags: u8, x: u8, y: u8) -> (r: (MouseMovement, i16, i16))
    ensures
        movement_decoded(flags, x, y, r),
{
    let movement_flags = MouseMovement::from_bits_truncate(flags);
    let x_movement = sign_extend(x, movement_flags.contains(MouseMovement::X_SIGN_BIT));
    let y_movement = sign_extend(y, movement_flags.contains(MouseMovement::Y_SIGN_BIT));
    (movement_flags, x_movement, y_movement)
}

/// Whether `resolution` is one the mouse accepts, and its wire code if so.
pub fn resolution_index(resolution: u8) -> (r: Option<u8>)
    ensures
        r == if resolutions().contains(resolution) {
            Some(resolution_code(resolution))
        } else {
            None::<u8>
        },
{
    proof {
        let s = resolutions();
        assert(s[0] == 1 && s[1] == 2 && s[2] == 4 && s[3] == 8);
    }
    match resolution {
        1 => Some(0),
        2 => Some(1),
        4 => Some(2),
        8 => Some(3),
        _ => None,
    }
}

/// The resolution that a wire code stands for, if the code is one.
pub fn resolution_value(code: u8) -> (r: Option<u8>)
    ensures
        r == if code < resolutions().len() {
            Some(resolutions()[code as int])
        } else {
            None::<u8>
        },
{
    match code {
        0 => Some(1),
        1 => Some(2),
        2 => Some(4),
        3 => Some(8),
        _ => None,
    }
}

/// Whether `rate` is one the mouse accepts.
pub fn is_valid_sample_rate(rate: u8) -> (r: bool)
    ensures
        r == sample_rates().contains(rate),
{
    proof {
        let s = sample_rates();
        assert(s[0] == 10 && s[1] == 20 && s[2] == 40 && s[3] == 60 && s[4] == 80 && s[5] == 100
            && s[6] == 200);
    }
    match rate {
        10 | 20 | 40 | 60 | 80 | 100 | 200 => true,
        _ => false,
    }
}

/// Widens a movement byte to 16 bits, filling the high byte with ones when
/// the sign bit is set.
pub fn sign_extend(magnitude: u8, negative: bool) -> (r: i16)
    ensures
        r as int == signed_movement(magnitude, negative),
{
    let mut wide = magnitude as u16;
    if negative {
        wide = wide | 0xff00;
        assert(((magnitude as u16) | 0xff00u16) as i16 == (magnitude as i16) - 256i16) by (bit_vector);
    }
    wide as i16
}

/// A mouse (or a device that acts as one) on the auxiliary channel. It holds
/// the controller for as long as it lives.
pub struct Mouse<'c, P: PortIo> {
    controller: &'c mut Controller<P>,
}

impl<'c, P: PortIo> Mouse<'c, P> {
    /// The controller's record of exchanges.
    pub closed spec fn ops(&self) -> Seq<BusOp> {
        self.controller.ops()
    }

    pub(crate) fn new(controller: &'c mut Controller<P>) -> (r: Self)
        ensures
            r.ops() == old(controller).ops(),
    {
        Mouse { controller }
    }

    fn check_response(&mut self) -> (r: Result<(), MouseError>)
        ensures
            final(self).ops() == old(self).ops().push(final(self).ops().last()),
            runs_to(response_run(seq![final(self).ops().last()], 0), seq![final(self).ops().last()], r),
    {
        match self.controller.read_data() {
            Err(e) => Err(MouseError::from(e)),
            Ok(COMMAND_ACKNOWLEDGED) => Ok(()),
            Ok(RESEND) => Err(MouseError::Resend),
            Ok(other) => Err(MouseError::InvalidResponse(other)),
        }
    }

    fn write_command(&mut self, command: u8, data: Option<u8>) -> (r: Result<(), MouseError>)
        ensures
            extends(old(self).ops(), final(self).ops()),
            runs_to(command_run(command, data, since(old(self).ops(), final(self).ops()), 0), since(old(self).ops(), final(self).ops()), r),
    {
        proof {
            lemma_log_start(self.ops());
        }
        if let Err(e) = self.controller.write_mouse(command) {
            return Err(MouseError::from(e));
        }
        if let Err(e) = self.check_response() {
            return Err(e);
        }
        if let Some(data) = data {
            if let Err(e) = self.controller.write_mouse(data) {
                return Err(MouseError::from(e));
            }
            if let Err(e) = self.check_response() {
                return Err(e);
            }
        }
        Ok(())
    }

    pub fn set_scaling_one_to_one(&mut self) -> (r: Result<(), MouseError>)
        ensures
            extends(old(self).ops(), final(self).ops()),
            runs_to(command_run(SET_SCALING_ONE_TO_ONE, None, since(old(self).ops(), final(self).ops()), 0), since(old(self).ops(), final(self).ops()), r),
    {
        self.write_command(SET_SCALING_ONE_TO_ONE, None)
    }

    pub fn set_scaling_two_to_one(&mut self) -> (r: Result<(), MouseError>)
        ensures
            extends(old(self).ops(), final(self).ops()),
            runs_to(command_run(SET_SCALING_TWO_TO_ONE, None, since(old(self).ops(), final(self).ops()), 0), since(old(self).ops(), final(self).ops()), r),
    {
        self.write_command(SET_SCALING_TWO_TO_ONE, None)
    }

    pub fn set_stream_mode(&mut self) -> (r: Result<(), MouseError>)
        ensures
            extends(old(self).ops(), final(self).ops()),
            runs_to(command_run(SET_STREAM_MODE, None, since(old(self).ops(), final(self).ops()), 0), since(old(self).ops(), final(self).ops()), r),
    {
        self.write_command(SET_STREAM_MODE, None)
    }

    pub fn reset_wrap_mode(&mut self) -> (r: Result<(), MouseError>)
        ensures
            extends(old(self).ops(), final(self).ops()),
            runs_to(command_run(RESET_WRAP_MODE, None, since(old(self).ops(), final(self).ops()), 0), since(old(self).ops(), final(self).ops()), r),
    {
        self.write_command(RESET_WRAP_MODE, None)
    }

    pub fn set_wrap_mode(&mut self) -> (r: Result<(), MouseError>)
        ensures
            extends(old(self).ops(), final(self).ops()),
            runs_to(command_run(SET_WRAP_MODE, None, since(old(self).ops(), final(self).ops()), 0), since(old(self).ops(), final(self).ops()), r),
    {
        self.write_command(SET_WRAP_MODE, None)
    }

    pub fn set_remote_mode(&mut self) -> (r: Result<(), MouseError>)
        ensures
            extends(old(self).ops(), final(self).ops()),
            runs_to(command_run(SET_REMOTE_MODE, None, since(old(self).ops(), final(self).ops()), 0), since(old(self).ops(), final(self).ops()), r),
    {
        self.write_command(SET_REMOTE_MODE, None)
    }

    pub fn enable_data_reporting(&mut self) -> (r: Result<(), MouseError>)
        ensures
            extends(old(self).ops(), final(self).ops()),
            runs_to(command_run(ENABLE_DATA_REPORTING, None, since(old(self).ops(), final(self).ops()), 0), since(old(self).ops(), final(self).ops()), r),
    {
        self.write_command(ENABLE_DATA_REPORTING, None)
    }

    pub fn disable_data_reporting(&mut self) -> (r: Result<(), MouseError>)
        ensures
            extends(old(self).ops(), final(self).ops()),
            runs_to(command_run(DISABLE_DATA_REPORTING, None, since(old(self).ops(), final(self).ops()), 0), since(old(self).ops(), final(self).ops()), r),
    {
        self.write_command(DISABLE_DATA_REPORTING, None)
    }

    pub fn set_defaults(&mut self) -> (r: Result<(), MouseError>)
        ensures
            extends(old(self).ops(), final(self).ops()),
            runs_to(command_run(SET_DEFAULTS, None, since(old(self).ops(), final(self).ops()), 0), since(old(self).ops(), final(self).ops()), r),
    {
        self.write_command(SET_DEFAULTS, None)
    }

    /// Sets the resolution, in counts per millimetre. Only the values of
    /// `resolutions()` are accepted; others fail before anything is sent.
    pub fn set_resolution(&mut self, resolution: u8) -> (r: Result<(), MouseError>)
        ensures
            !resolutions().contains(resolution) ==> r == Err::<(), MouseError>(MouseError::InvalidResolution(resolution))
                && final(self).ops() == old(self).ops(),
            resolutions().contains(resolution) ==> extends(old(self).ops(), final(self).ops())
                && runs_to(command_run(SET_RESOLUTION, Some(resolution_code(resolution)), since(old(self).ops(), final(self).ops()), 0), since(old(self).ops(), final(self).ops()), r),
    {
        match resolution_index(resolution) {
            None => Err(MouseError::InvalidResolution(resolution)),
            Some(index) => self.write_command(SET_RESOLUTION, Some(index)),
        }
    }

    /// Sets the sample rate, in samples per second. Only the values of
    /// `sample_rates()` are accepted; others fail before anything is sent.
    pub fn set_sample_rate(&mut self, sample_rate: u8) -> (r: Result<(), MouseError>)
        ensures
            !sample_rates().contains(sample_rate) ==> r == Err::<(), MouseError>(MouseError::InvalidSampleRate(sample_rate))
                && final(self).ops() == old(self).ops(),
            sample_rates().contains(sample_rate) ==> extends(old(self).ops(), final(self).ops())
                && runs_to(command_run(SET_SAMPLE_RATE, Some(sample_rate), since(old(self).ops(), final(self).ops()), 0), since(old(self).ops(), final(self).ops()), r),
    {
        if !is_valid_sample_rate(sample_rate) {
            return Err(MouseError::InvalidSampleRate(sample_rate));
        }
        self.write_command(SET_SAMPLE_RATE, Some(sample_rate))
    }

    /// Reads one byte that follows a command.
    fn read_byte(&mut self) -> (r: Result<u8, MouseError>)
        ensures
            final(self).ops() == old(self).ops().push(final(self).ops().last()),
            runs_to(byte_run(seq![final(self).ops().last()], 0), seq![final(self).ops().last()], r),
    {
        match self.controller.read_data() {
            Err(e) => Err(MouseError::from(e)),
            Ok(b) => Ok(b),
        }
    }

    /// Sends `command` and reads the three bytes of its report.
    fn request_report(&mut self, command: u8) -> (r: Result<(u8, u8, u8), MouseError>)
        ensures
            extends(old(self).ops(), final(self).ops()),
            runs_to(report_run(command, since(old(self).ops(), final(self).ops())), since(old(self).ops(), final(self).ops()), r),
    {
        if let Err(e) = self.write_command(command, None) {
            return Err(e);
        }
        let a = match self.read_byte() {
            Err(e) => return Err(e),
            Ok(a) => a,
        };
        let b = match self.read_byte() {
            Err(e) => return Err(e),
            Ok(b) => b,
        };
        let c = match self.read_byte() {
            Err(e) => return Err(e),
            Ok(c) => c,
        };
        Ok((a, b, c))
    }

    /// Asks for the status flags, resolution and sample rate. The resolution
    /// comes as its wire code and is returned as its value; a code or a sample
    /// rate outside the accepted ones fails.
    pub fn request_status(&mut self) -> (r: Result<(MouseStatus, u8, u8), MouseError>)
        ensures
            extends(old(self).ops(), final(self).ops()),
            status_ran(since(old(self).ops(), final(self).ops()), r),
    {
        match self.request_report(STATUS_REQUEST) {
            Err(e) => Err(e),
            Ok((status, resolution_code, sample_rate)) => decode_status(status, resolution_code, sample_rate),
        }
    }

    /// Asks for one movement packet: flags, X movement, Y movement.
    pub fn read_data(&mut self) -> (r: Result<(MouseMovement, i16, i16), MouseError>)
        ensures
            extends(old(self).ops(), final(self).ops()),
            movement_ran(since(old(self).ops(), final(self).ops()), r),
    {
        match self.request_report(READ_DATA) {
            Err(e) => Err(e),
            Ok((flags, x, y)) => Ok(decode_movement(flags, x, y)),
        }
    }

    pub fn get_device_id(&mut self) -> (r: Result<MouseType, MouseError>)
        ensures
            extends(old(self).ops(), final(self).ops()),
            runs_to(device_id_run(since(old(self).ops(), final(self).ops())), since(old(self).ops(), final(self).ops()), r),
    {
        if let Err(e) = self.write_command(GET_DEVICE_ID, None) {
            return Err(e);
        }
        match self.read_byte() {
            Err(e) => Err(e),
            Ok(id) => Ok(MouseType::from(id)),
        }
    }

    /// Asks the mouse to send its last packet again. The packet's bytes are
    /// left for the caller to read, since their number depends on the mode.
    pub fn resend_last_packet(&mut self) -> (r: Result<(), MouseError>)
        ensures
            extends(old(self).ops(), final(self).ops()),
            runs_to(resend_run(since(old(self).ops(), final(self).ops())), since(old(self).ops(), final(self).ops()), r),
    {
        proof {
            lemma_log_start(self.ops());
        }
        match self.controller.write_mouse(RESEND_LAST_PACKET) {
            Err(e) => Err(MouseError::from(e)),
            Ok(()) => Ok(()),
        }
    }

    /// Resets the mouse and reports its self-test. The device-ID byte that
    /// follows is read and dropped whatever the result.
    pub fn reset_and_self_test(&mut self) -> (r: Result<(), MouseError>)
        ensures
            extends(old(self).ops(), final(self).ops()),
            runs_to(self_test_run(since(old(self).ops(), final(self).ops())), since(old(self).ops(), final(self).ops()), r),
    {
        if let Err(e) = self.write_command(RESET_AND_SELF_TEST, None) {
            return Err(e);
        }
        let result = match self.read_byte() {
            Err(e) => return Err(e),
            Ok(SELF_TEST_PASSED) => Ok(()),
            Ok(SELF_TEST_FAILED) => Err(MouseError::SelfTestFailed),
            Ok(RESEND) => Err(MouseError::Resend),
            Ok(other) => Err(MouseError::InvalidResponse(other)),
        };
        if let Err(e) = self.read_byte() {
            return Err(e);
        }
        result
    }
}

} // verus!