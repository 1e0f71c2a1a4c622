//! The keyboard command set.
use vstd::prelude::*;

use crate::bus::{data_write_at, extends, lemma_log_start, read_at, since, BusOp};
use crate::controller::{Controller, PortIo};
use crate::error::{ControllerError, KeyboardError};
use crate::{COMMAND_ACKNOWLEDGED, RESEND, SELF_TEST_FAILED, SELF_TEST_PASSED};

verus! {

broadcast use crate::bus::lemma_log_push;

pub const ENABLE_SCANNING: u8 = 0xf4;
pub const DISABLE_SCANNING: u8 = 0xf5;
pub const SET_DEFAULTS: u8 = 0xf6;
pub const RESET_AND_SELF_TEST: u8 = 0xff;

/// What an acknowledgment byte from the keyboard means.
pub open spec fn keyboard_ack_result(b: u8) -> Result<(), KeyboardError> {
    if b == COMMAND_ACKNOWLEDGED {
        Ok(())
    } else if b == RESEND {
        Err(KeyboardError::Resend)
    } else {
        Err(KeyboardError::InvalidResponse(b))
    }
}

/// Reading one byte at position `i`: its outcome and the position after it.
pub open spec fn keyboard_byte_run(t: Seq<BusOp>, i: int) -> Option<(Result<u8, KeyboardError>, int)> {
    match read_at(t, i) {
        None => None,
        Some(Err(e)) => Some((Err(KeyboardError::ControllerError(e)), i + 1)),
        Some(Ok(b)) => Some((Ok(b), i + 1)),
    }
}

/// Sending `command` to the keyboard and reading its acknowledgment.
pub open spec fn keyboard_command_run(command: u8, t: Seq<BusOp>) -> Option<(Result<(), KeyboardError>, int)> {
    match data_write_at(t, 0, command) {
        None => None,
        Some(Err(e)) => Some((Err(KeyboardError::ControllerError(e)), 1)),
        Some(Ok(_)) => match keyboard_byte_run(t, 1) {
            None => None,
            Some((Err(e), j)) => Some((Err(e), j)),
            Some((Ok(b), j)) => Some((keyboard_ack_result(b), j)),
        },
    }
}

/// What a keyboard self-test result byte means.
pub open spec fn keyboard_self_test_result(b: u8) -> Result<(), KeyboardError> {
    if b == SELF_TEST_PASSED {
        Ok(())
    } else if b == SELF_TEST_FAILED {
        Err(KeyboardError::SelfTestFailed)
    } else if b == RESEND {
        Err(KeyboardError::Resend)
    } else {
        Err(KeyboardError::InvalidResponse(b))
    }
}

/// A reset: the command, the self-test result byte, then the device-ID byte,
/// which is read and dropped whatever the result was.
pub open spec fn keyboard_self_test_run(t: Seq<BusOp>) -> Option<(Result<(), KeyboardError>, int)> {
    match keyboard_command_run(RESET_AND_SELF_TEST, t) {
        None => None,
        Some((Err(e), j)) => Some((Err(e), j)),
        Some((Ok(_), j)) => match keyboard_byte_run(t, j) {
            None => None,
            Some((Err(e), k)) => Some((Err(e), k)),
            Some((Ok(b), k)) => match keyboard_byte_run(t, k) {
                None => None,
                Some((Err(e), l)) => Some((Err(e), l)),
                Some((Ok(_), l)) => Some((keyboard_self_test_result(b), l)),
            },
        },
    }
}

/// When the keyboard answers a command byte with the resend code, the
/// exchange ends there with `Resend` and nothing more is read.
pub proof fn lemma_keyboard_resend_stops(command: u8, t: Seq<BusOp>)
    requires
        data_write_at(t, 0, command) is Some,
        data_write_at(t, 0, command)->Some_0 is Ok,
        read_at(t, 1) == Some(Ok::<u8, ControllerError>(RESEND)),
    ensures
        keyboard_command_run(command, t) == Some((Err::<(), KeyboardError>(KeyboardError::Resend), 2int)),
        command == RESET_AND_SELF_TEST ==> keyboard_self_test_run(t) == Some(
            (Err::<(), KeyboardError>(KeyboardError::Resend), 2int),
        ),
{
}

/// `run` describes all of `t` and ends in `r`.
pub open spec fn keyboard_runs_to(run: Option<(Result<(), KeyboardError>, int)>, t: Seq<BusOp>, r: Result<(), KeyboardError>) -> bool {
    run == Some((r, t.len() as int))
}

/// The keyboard on the primary channel. It holds the controller for as long
/// as it lives.
pub struct Keyboard<'c, P: PortIo> {
    controller: &'c mut Controller<P>,
}

impl<'c, P: PortIo> Keyboard<'c, P> {
    /// The controller's record of exchanges.
    pub closed spec fn ops(&self) -> Seq<BusOp> {
        self.controller.ops()
    }

    pub(crate) fn new(controller: &'c mut Controller<P>) -> (r: Self)
        ensures
            r.ops() == old(controller).ops(),
    {
        Keyboard { controller }
    }

    fn read_byte(&mut self) -> (r: Result<u8, KeyboardError>)
        ensures
            final(self).ops() == old(self).ops().push(final(self).ops().last()),
            keyboard_byte_run(seq![final(self).ops().last()], 0) == Some((r, 1int)),
    {
        match self.controller.read_data() {
            Err(e) => Err(KeyboardError::from(e)),
            Ok(b) => Ok(b),
        }
    }

    fn check_response(&mut self) -> (r: Result<(), KeyboardError>)
        ensures
            final(self).ops() == old(self).ops().push(final(self).ops().last()),
            match read_at(seq![final(self).ops().last()], 0) {
                Some(Ok(b)) => r == keyboard_ack_result(b),
                Some(Err(e)) => r == Err::<(), KeyboardError>(KeyboardError::ControllerError(e)),
                None => false,
            },
    {
        match self.controller.read_data() {
            Err(e) => Err(KeyboardError::from(e)),
            Ok(COMMAND_ACKNOWLEDGED) => Ok(()),
            Ok(RESEND) => Err(KeyboardError::Resend),
            Ok(other) => Err(KeyboardError::InvalidResponse(other)),
        }
    }

    fn write_command(&mut self, command: u8) -> (r: Result<(), KeyboardError>)
        ensures
            extends(old(self).ops(), final(self).ops()),
            keyboard_runs_to(keyboard_command_run(command, since(old(self).ops(), final(self).ops())), since(old(self).ops(), final(self).ops()), r),
    {
        proof {
            lemma_log_start(self.ops());
        }
        if let Err(e) = self.controller.write_data(command) {
            return Err(KeyboardError::from(e));
        }
        self.check_response()
    }

    pub fn enable_scanning(&mut self) -> (r: Result<(), KeyboardError>)
        ensures
            extends(old(self).ops(), final(self).ops()),
            keyboard_runs_to(keyboard_command_run(ENABLE_SCANNING, since(old(self).ops(), final(self).ops())), since(old(self).ops(), final(self).ops()), r),
    {
        self.write_command(ENABLE_SCANNING)
    }

    pub fn disable_scanning(&mut self) -> (r: Result<(), KeyboardError>)
        ensures
            extends(old(self).ops(), final(self).ops()),
            keyboard_runs_to(keyboard_command_run(DISABLE_SCANNING, since(old(self).ops(), final(self).ops())), since(old(self).ops(), final(self).ops()), r),
    {
        self.write_command(DISABLE_SCANNING)
    }

    pub fn set_defaults(&mut self) -> (r: Result<(), KeyboardError>)
        ensures
            extends(old(self).ops(), final(self).ops()),
            keyboard_runs_to(keyboard_command_run(SET_DEFAULTS, since(old(self).ops(), final(self).ops())), since(old(self).ops(), final(self).ops()), r),
    {
        self.write_command(SET_DEFAULTS)
    }

    /// Resets the keyboard and reports its self-test. The device-ID byte that
    /// follows is read and dropped whatever the result.
    pub fn reset_and_self_test(&mut self) -> (r: Result<(), KeyboardError>)
        ensures
            extends(old(self).ops(), final(self).ops()),
            keyboard_runs_to(keyboard_self_test_run(since(old(self).ops(), final(self).ops())), since(old(self).ops(), final(self).ops()), r),
    {
        if let Err(e) = self.write_command(RESET_AND_SELF_TEST) {
            return Err(e);
        }
        let result = match self.read_byte() {
            Err(e) => return Err(e),
            Ok(SELF_TEST_PASSED) => Ok(()),
            Ok(SELF_TEST_FAILED) => Err(KeyboardError::SelfTestFailed),
            Ok(RESEND) => Err(KeyboardError::Resend),
            Ok(other) => Err(KeyboardError::InvalidResponse(other)),
        };
        if let Err(e) = self.read_byte() {
            return Err(e);
        }
        result
    }
}

} // verus!
