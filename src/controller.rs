//! The controller: byte-level exchange over the data port and the
//! status/command register, with bounded polling.
use vstd::prelude::*;

use crate::bus::{extends, lemma_log_start, lemma_since_split, since, BusOp, PortOp};
use crate::error::ControllerError;
use crate::flags::ControllerStatus;
use crate::keyboard::Keyboard;
use crate::mouse::Mouse;

verus! {

broadcast use crate::bus::lemma_log_push;

/// The data port shared by both channels.
pub const DATA_PORT: u16 = 0x60;

/// Read: the status register. Write: the command register.
pub const COMMAND_REGISTER: u16 = 0x64;

/// Controller command: route the next data byte to the auxiliary (mouse) channel.
pub const WRITE_TO_MOUSE: u8 = 0xd4;

/// Controller command: run the controller's self-test.
pub const TEST_CONTROLLER: u8 = 0xaa;

/// The controller's answer to its self-test when it passed.
pub const CONTROLLER_TEST_PASSED: u8 = 0x55;

/// The poll budget of `Controller::new`.
pub const DEFAULT_TIMEOUT: usize = 10_000;

/// Raw access to I/O ports, supplied by the host. Nothing is assumed of the
/// values it reads.
pub trait PortIo {
    fn read_port(&mut self, port: u16) -> u8;

    fn write_port(&mut self, port: u16, value: u8);
}

/// Whether a status byte ends a wait: for a read, a byte is in the output
/// buffer; for a write, the input buffer is empty.
pub open spec fn status_ready(status: u8, for_read: bool) -> bool {
    if for_read {
        status & ControllerStatus::OUTPUT_FULL == ControllerStatus::OUTPUT_FULL
    } else {
        status & ControllerStatus::INPUT_FULL != ControllerStatus::INPUT_FULL
    }
}

/// `op` is a read of the status register, ready or not as `ready` says.
pub open spec fn polled(op: PortOp, for_read: bool, ready: bool) -> bool {
    match op {
        PortOp::Read(port, v) => port == COMMAND_REGISTER && status_ready(v, for_read) == ready,
        PortOp::Write(_, _) => false,
    }
}

/// `p` is a wait that gave up: `timeout` status reads, none of them ready.
pub open spec fn wait_gave_up(p: Seq<PortOp>, timeout: usize, for_read: bool) -> bool {
    &&& p.len() == timeout
    &&& forall|i: int| 0 <= i < p.len() ==> polled(#[trigger] p[i], for_read, false)
}

/// `p` is a wait that ended: at most `timeout` status reads, only the last
/// of them ready.
pub open spec fn wait_ended(p: Seq<PortOp>, timeout: usize, for_read: bool) -> bool {
    &&& 1 <= p.len() <= timeout
    &&& polled(p.last(), for_read, true)
    &&& forall|i: int| 0 <= i < p.len() - 1 ==> polled(#[trigger] p[i], for_read, false)
}

/// `p` is what reading the data port did, ending in `r`: a wait for the
/// output buffer, then the read itself, or a wait that gave up.
pub open spec fn read_ran(p: Seq<PortOp>, timeout: usize, r: Result<u8, ControllerError>) -> bool {
    match r {
        Ok(b) => p.len() >= 2 && wait_ended(p.drop_last(), timeout, true) && p.last() == PortOp::Read(
            DATA_PORT,
            b,
        ),
        Err(e) => e == ControllerError::Timeout && wait_gave_up(p, timeout, true),
    }
}

/// `p` is what writing `value` to `port` did, ending in `r`: a wait for the
/// input buffer, then the write itself, or a wait that gave up.
pub open spec fn write_ran(
    p: Seq<PortOp>,
    timeout: usize,
    port: u16,
    value: u8,
    r: Result<(), ControllerError>,
) -> bool {
    match r {
        Ok(_) => p.len() >= 2 && wait_ended(p.drop_last(), timeout, false) && p.last()
            == PortOp::Write(port, value),
        Err(e) => e == ControllerError::Timeout && wait_gave_up(p, timeout, false),
    }
}

/// `p` is what writing `value` to the mouse channel did, ending in `r`: the
/// routing command to the command register, then `value` to the data port,
/// stopping at the first wait that gave up.
pub open spec fn mouse_write_ran(p: Seq<PortOp>, timeout: usize, value: u8, r: Result<(), ControllerError>) -> bool {
    match r {
        Ok(_) => exists|k: int|
            0 <= k <= p.len() && #[trigger] write_ran(p.take(k), timeout, COMMAND_REGISTER, WRITE_TO_MOUSE, Ok(()))
                && write_ran(p.skip(k), timeout, DATA_PORT, value, Ok(())),
        Err(e) => e == ControllerError::Timeout && (wait_gave_up(p, timeout, false) || exists|k: int|
            0 <= k <= p.len() && #[trigger] write_ran(p.take(k), timeout, COMMAND_REGISTER, WRITE_TO_MOUSE, Ok(()))
                && wait_gave_up(p.skip(k), timeout, false)),
    }
}

/// `p` is what the controller's self-test did, ending in `r`: the test
/// command, then the answer read back and compared with the pass byte.
pub open spec fn controller_test_ran(p: Seq<PortOp>, timeout: usize, r: Result<(), ControllerError>) -> bool {
    match r {
        Err(ControllerError::Timeout) => write_ran(p, timeout, COMMAND_REGISTER, TEST_CONTROLLER, Err(ControllerError::Timeout))
            || exists|k: int|
            0 <= k <= p.len() && #[trigger] write_ran(p.take(k), timeout, COMMAND_REGISTER, TEST_CONTROLLER, Ok(()))
                && read_ran(p.skip(k), timeout, Err(ControllerError::Timeout)),
        Err(ControllerError::TestFailed { response }) => response != CONTROLLER_TEST_PASSED && exists|k: int|
            0 <= k <= p.len() && #[trigger] write_ran(p.take(k), timeout, COMMAND_REGISTER, TEST_CONTROLLER, Ok(()))
                && read_ran(p.skip(k), timeout, Ok(response)),
        Ok(_) => exists|k: int|
            0 <= k <= p.len() && #[trigger] write_ran(p.take(k), timeout, COMMAND_REGISTER, TEST_CONTROLLER, Ok(()))
                && read_ran(p.skip(k), timeout, Ok(CONTROLLER_TEST_PASSED)),
    }
}

/// A read from a controller whose status never shows a byte in the output
/// buffer fails with `Timeout` after exactly `timeout` polls.
pub proof fn lemma_never_full_times_out(p: Seq<PortOp>, timeout: usize, r: Result<u8, ControllerError>)
    requires
        read_ran(p, timeout, r),
        forall|i: int| 0 <= i < p.len() ==> !polled(#[trigger] p[i], true, true),
    ensures
        r == Err::<u8, ControllerError>(ControllerError::Timeout),
        p.len() == timeout,
{
    if r is Ok {
        assert(p.drop_last().last() == p[p.len() - 2]);
    }
}

/// Exclusive ownership of the PS/2 ports.
pub struct Controller<P: PortIo> {
    ports: P,
    timeout: usize,
    log: Ghost<Seq<BusOp>>,
    port_log: Ghost<Seq<PortOp>>,
}

impl<P: PortIo> Controller<P> {
    /// Every exchange carried out so far, oldest first.
    pub closed spec fn ops(&self) -> Seq<BusOp> {
        self.log@
    }

    /// Every call of the host's port access so far, oldest first.
    pub closed spec fn port_ops(&self) -> Seq<PortOp> {
        self.port_log@
    }

    /// How many times a wait polls the status register before it gives up.
    pub closed spec fn spec_timeout(&self) -> usize {
        self.timeout
    }

    pub fn new(ports: P) -> (r: Self)
        ensures
            r.ops() == Seq::<BusOp>::empty(),
            r.port_ops() == Seq::<PortOp>::empty(),
            r.spec_timeout() == DEFAULT_TIMEOUT,
    {
        Controller { ports, timeout: DEFAULT_TIMEOUT, log: Ghost(Seq::empty()), port_log: Ghost(Seq::empty()) }
    }

    pub fn with_timeout(ports: P, timeout: usize) -> (r: Self)
        ensures
            r.ops() == Seq::<BusOp>::empty(),
            r.port_ops() == Seq::<PortOp>::empty(),
            r.spec_timeout() == timeout,
    {
        Controller { ports, timeout, log: Ghost(Seq::empty()), port_log: Ghost(Seq::empty()) }
    }

    /// The mouse, for as long as the returned value lives.
    pub fn mouse(&mut self) -> (r: Mouse<'_, P>)
        ensures
            r.ops() == old(self).ops(),
    {
        Mouse::new(self)
    }

    /// The keyboard, for as long as the returned value lives.
    pub fn keyboard(&mut self) -> (r: Keyboard<'_, P>)
        ensures
            r.ops() == old(self).ops(),
    {
        Keyboard::new(self)
    }

    pub fn ports(&self) -> (r: &P) {
        &self.ports
    }

    /// Reads `port` and records the call.
    fn port_read(&mut self, port: u16) -> (r: u8)
        ensures
            final(self).port_ops() == old(self).port_ops().push(PortOp::Read(port, r)),
            final(self).ops() == old(self).ops(),
            final(self).spec_timeout() == old(self).spec_timeout(),
    {
        let value = self.ports.read_port(port);
        self.port_log = Ghost(self.port_log@.push(PortOp::Read(port, value)));
        value
    }

    /// Writes `value` to `port` and records the call.
    fn port_write(&mut self, port: u16, value: u8)
        ensures
            final(self).port_ops() == old(self).port_ops().push(PortOp::Write(port, value)),
            final(self).ops() == old(self).ops(),
            final(self).spec_timeout() == old(self).spec_timeout(),
    {
        self.ports.write_port(port, value);
        self.port_log = Ghost(self.port_log@.push(PortOp::Write(port, value)));
    }

    pub fn read_status(&mut self) -> (r: ControllerStatus)
        ensures
            final(self).port_ops() == old(self).port_ops().push(PortOp::Read(COMMAND_REGISTER, r.spec_bits())),
            final(self).ops() == old(self).ops(),
            final(self).spec_timeout() == old(self).spec_timeout(),
    {
        ControllerStatus::from_bits_truncate(self.port_read(COMMAND_REGISTER))
    }

    /// Polls the status register, at most `timeout` times, until it shows a
    /// byte in the output buffer (`for_read`) or an empty input buffer.
    fn wait(&mut self, for_read: bool) -> (r: Result<(), ControllerError>)
        ensures
            extends(old(self).port_ops(), final(self).port_ops()),
            r is Ok ==> wait_ended(since(old(self).port_ops(), final(self).port_ops()), old(self).spec_timeout(), for_read),
            r is Err ==> r == Err::<(), ControllerError>(ControllerError::Timeout)
                && wait_gave_up(since(old(self).port_ops(), final(self).port_ops()), old(self).spec_timeout(), for_read),
            final(self).ops() == old(self).ops(),
            final(self).spec_timeout() == old(self).spec_timeout(),
    {
        let ghost start = self.port_ops();
        proof {
            lemma_log_start(start);
        }
        let mut i: usize = 0;
        while i < self.timeout
            invariant
                i <= self.spec_timeout(),
                extends(start, self.port_ops()),
                since(start, self.port_ops()).len() == i,
                forall|j: int| 0 <= j < i ==> polled(#[trigger] since(start, self.port_ops())[j], for_read, false),
                self.ops() == old(self).ops(),
                self.spec_timeout() == old(self).spec_timeout(),
                start == old(self).port_ops(),
            decreases self.timeout - i,
        {
            let ghost before = self.port_ops();
            let status = self.read_status();
            let ready = if for_read {
                status.contains(ControllerStatus::OUTPUT_FULL)
            } else {
                !status.contains(ControllerStatus::INPUT_FULL)
            };
            proof {
                assert(since(start, self.port_ops()) == since(start, before).push(
                    PortOp::Read(COMMAND_REGISTER, status.spec_bits()),
                ));
            }
            if ready {
                return Ok(());
            }
            i = i + 1;
        }
        Err(ControllerError::Timeout)
    }

    /// Reads one byte from the data port once one is there.
    pub fn read_data(&mut self) -> (r: Result<u8, ControllerError>)
        ensures
            final(self).ops() == old(self).ops().push(BusOp::ReadData(r)),
            extends(old(self).port_ops(), final(self).port_ops()),
            read_ran(since(old(self).port_ops(), final(self).port_ops()), old(self).spec_timeout(), r),
            final(self).spec_timeout() == old(self).spec_timeout(),
    {
        let ghost start = self.port_ops();
        let r = match self.wait(true) {
            Err(e) => Err(e),
            Ok(()) => {
                let ghost mid = self.port_ops();
                let b = self.port_read(DATA_PORT);
                proof {
                    assert(since(start, self.port_ops()) == since(start, mid).push(PortOp::Read(DATA_PORT, b)));
                    assert(since(start, self.port_ops()).drop_last() =~= since(start, mid));
                }
                Ok(b)
            },
        };
        self.log = Ghost(self.log@.push(BusOp::ReadData(r)));
        r
    }

    /// Waits for the input buffer, then writes `value` to `port`.
    fn send(&mut self, port: u16, value: u8) -> (r: Result<(), ControllerError>)
        ensures
            final(self).ops() == old(self).ops(),
            extends(old(self).port_ops(), final(self).port_ops()),
            write_ran(since(old(self).port_ops(), final(self).port_ops()), old(self).spec_timeout(), port, value, r),
            final(self).spec_timeout() == old(self).spec_timeout(),
    {
        let ghost start = self.port_ops();
        match self.wait(false) {
            Err(e) => Err(e),
            Ok(()) => {
                let ghost mid = self.port_ops();
                self.port_write(port, value);
                proof {
                    assert(since(start, self.port_ops()) == since(start, mid).push(PortOp::Write(port, value)));
                    assert(since(start, self.port_ops()).drop_last() =~= since(start, mid));
                }
                Ok(())
            },
        }
    }

    /// Writes one byte to the data port, which the keyboard channel receives.
    pub fn write_data(&mut self, data: u8) -> (r: Result<(), ControllerError>)
        ensures
            final(self).ops() == old(self).ops().push(BusOp::WroteData(data, r)),
            extends(old(self).port_ops(), final(self).port_ops()),
            write_ran(since(old(self).port_ops(), final(self).port_ops()), old(self).spec_timeout(), DATA_PORT, data, r),
            final(self).spec_timeout() == old(self).spec_timeout(),
    {
        let r = self.send(DATA_PORT, data);
        self.log = Ghost(self.log@.push(BusOp::WroteData(data, r)));
        r
    }

    /// Writes one byte to the command register, for the controller itself.
    pub fn write_command(&mut self, command: u8) -> (r: Result<(), ControllerError>)
        ensures
            final(self).ops() == old(self).ops().push(BusOp::WroteCommand(command, r)),
            extends(old(self).port_ops(), final(self).port_ops()),
            write_ran(since(old(self).port_ops(), final(self).port_ops()), old(self).spec_timeout(), COMMAND_REGISTER, command, r),
            final(self).spec_timeout() == old(self).spec_timeout(),
    {
        let r = self.send(COMMAND_REGISTER, command);
        self.log = Ghost(self.log@.push(BusOp::WroteCommand(command, r)));
        r
    }

    /// Writes one byte to the mouse channel: the controller is first told to
    /// route the next data byte there.
    pub fn write_mouse(&mut self, data: u8) -> (r: Result<(), ControllerError>)
        ensures
            final(self).ops() == old(self).ops().push(BusOp::WroteMouse(data, r)),
            extends(old(self).port_ops(), final(self).port_ops()),
            mouse_write_ran(since(old(self).port_ops(), final(self).port_ops()), old(self).spec_timeout(), data, r),
            final(self).spec_timeout() == old(self).spec_timeout(),
    {
        let ghost start = self.port_ops();
        let r = match self.send(COMMAND_REGISTER, WRITE_TO_MOUSE) {
            Err(e) => Err(e),
            Ok(()) => {
                let ghost mid = self.port_ops();
                let r = self.send(DATA_PORT, data);
                proof {
                    lemma_since_split(start, mid, self.port_ops());
                    let k = mid.len() - start.len();
                    assert(write_ran(since(start, self.port_ops()).take(k), self.timeout, COMMAND_REGISTER, WRITE_TO_MOUSE, Ok(())));
                }
                r
            },
        };
        self.log = Ghost(self.log@.push(BusOp::WroteMouse(data, r)));
        r
    }

    /// Runs the controller's self-test.
    pub fn test_controller(&mut self) -> (r: Result<(), ControllerError>)
        ensures
            final(self).spec_timeout() == old(self).spec_timeout(),
            controller_test_run(final(self).ops().skip(old(self).ops().len() as int)) == Some(r),
            final(self).ops().take(old(self).ops().len() as int) == old(self).ops(),
            extends(old(self).port_ops(), final(self).port_ops()),
            controller_test_ran(since(old(self).port_ops(), final(self).port_ops()), old(self).spec_timeout(), r),
    {
        proof {
            lemma_log_start(self.ops());
        }
        let ghost start = self.port_ops();
        let r = match self.write_command(TEST_CONTROLLER) {
            Err(e) => Err(e),
            Ok(()) => {
                let ghost mid = self.port_ops();
                let d = self.read_data();
                proof {
                    lemma_since_split(start, mid, self.port_ops());
                    let k = mid.len() - start.len();
                    assert(write_ran(since(start, self.port_ops()).take(k), self.timeout, COMMAND_REGISTER, TEST_CONTROLLER, Ok(())));
                }
                match d {
                    Err(e) => Err(e),
                    Ok(CONTROLLER_TEST_PASSED) => Ok(()),
                    Ok(response) => Err(ControllerError::TestFailed { response }),
                }
            },
        };
        r
    }
}

/// The outcome of the controller's self-test given the exchanges it made, or
/// `None` when `t` is not what the self-test does.
pub open spec fn controller_test_run(t: Seq<BusOp>) -> Option<Result<(), ControllerError>> {
    if t.len() == 0 {
        None
    } else {
        match t[0] {
            BusOp::WroteCommand(c, w) => if c != TEST_CONTROLLER {
                None
            } else {
                match w {
                    Err(e) => if t.len() == 1 {
                        Some(Err(e))
                    } else {
                        None
                    },
                    Ok(_) => if t.len() != 2 {
                        None
                    } else {
                        match t[1] {
                            BusOp::ReadData(Err(e)) => Some(Err(e)),
                            BusOp::ReadData(Ok(b)) => if b == CONTROLLER_TEST_PASSED {
                                Some(Ok(()))
                            } else {
                                Some(Err(ControllerError::TestFailed { response: b }))
                            },
                            _ => None,
                        }
                    },
                }
            },
            _ => None,
        }
    }
}

} // verus!
