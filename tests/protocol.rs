use std::collections::VecDeque;

use ps2::controller::{Controller, PortIo, COMMAND_REGISTER, DATA_PORT};
use ps2::error::{ControllerError, KeyboardError, MouseError};
use ps2::flags::{ControllerStatus, MouseMovement, MouseStatus};
use ps2::mouse::{decode_movement, decode_status, resolution_index, resolution_value, sign_extend};
use ps2::mouse_type::MouseType;
use ps2::{COMMAND_ACKNOWLEDGED, RESEND, SELF_TEST_FAILED, SELF_TEST_PASSED};

/// Ports in front of a device that has queued `replies` in advance.
struct SimulatedPorts {
    replies: VecDeque<u8>,
    writes: Vec<(u16, u8)>,
    status_reads: usize,
    never_ready: bool,
    input_stuck: bool,
}

impl SimulatedPorts {
    fn with_replies(replies: &[u8]) -> Self {
        SimulatedPorts {
            replies: replies.iter().copied().collect(),
            writes: Vec::new(),
            status_reads: 0,
            never_ready: false,
            input_stuck: false,
        }
    }

    fn never_ready() -> Self {
        let mut ports = SimulatedPorts::with_replies(&[]);
        ports.never_ready = true;
        ports
    }
}

impl PortIo for SimulatedPorts {
    fn read_port(&mut self, port: u16) -> u8 {
        if port == COMMAND_REGISTER {
            self.status_reads += 1;
            let input = if self.input_stuck { ControllerStatus::INPUT_FULL } else { 0 };
            if !self.never_ready && !self.replies.is_empty() {
                ControllerStatus::OUTPUT_FULL | input
            } else {
                input
            }
        } else {
            self.replies.pop_front().expect("read with nothing queued")
        }
    }

    fn write_port(&mut self, port: u16, value: u8) {
        self.writes.push((port, value));
    }
}

fn controller(replies: &[u8]) -> Controller<SimulatedPorts> {
    Controller::new(SimulatedPorts::with_replies(replies))
}

fn to_mouse(byte: u8) -> [(u16, u8); 2] {
    [(COMMAND_REGISTER, 0xd4), (DATA_PORT, byte)]
}

#[test]
fn set_resolution_rejects_every_other_value() {
    for value in 0..=255u8 {
        if [1, 2, 4, 8].contains(&value) {
            continue;
        }
        let mut c = controller(&[]);
        assert_eq!(c.mouse().set_resolution(value), Err(MouseError::InvalidResolution(value)));
        assert!(c.ports().writes.is_empty());
    }
}

#[test]
fn set_sample_rate_rejects_every_other_value() {
    for value in 0..=255u8 {
        if [10, 20, 40, 60, 80, 100, 200].contains(&value) {
            continue;
        }
        let mut c = controller(&[]);
        assert_eq!(c.mouse().set_sample_rate(value), Err(MouseError::InvalidSampleRate(value)));
        assert!(c.ports().writes.is_empty());
    }
}

#[test]
fn set_resolution_sends_position_in_accepted_set() {
    let mut c = controller(&[COMMAND_ACKNOWLEDGED, COMMAND_ACKNOWLEDGED]);
    assert_eq!(c.mouse().set_resolution(4), Ok(()));
    let mut expected = to_mouse(0xe8).to_vec();
    expected.extend(to_mouse(2));
    assert_eq!(c.ports().writes, expected);
}

#[test]
fn resolution_codes_decode_to_values() {
    assert_eq!(resolution_value(0), Some(1));
    assert_eq!(resolution_value(1), Some(2));
    assert_eq!(resolution_value(2), Some(4));
    assert_eq!(resolution_value(3), Some(8));
    assert_eq!(resolution_value(4), None);
}

#[test]
fn resolution_codes_are_positions() {
    assert_eq!(resolution_index(1), Some(0));
    assert_eq!(resolution_index(2), Some(1));
    assert_eq!(resolution_index(4), Some(2));
    assert_eq!(resolution_index(8), Some(3));
    assert_eq!(resolution_index(3), None);
}

#[test]
fn resolution_round_trips_through_status_report() {
    for value in [1u8, 2, 4, 8] {
        let mut c = controller(&[COMMAND_ACKNOWLEDGED, COMMAND_ACKNOWLEDGED]);
        assert_eq!(c.mouse().set_resolution(value), Ok(()));
        assert_eq!(c.ports().writes[2], (COMMAND_REGISTER, 0xd4));
        let code = c.ports().writes[3].1;
        assert_eq!(resolution_value(code), Some(value));

        let mut c = controller(&[COMMAND_ACKNOWLEDGED, 0x00, code, 100]);
        let (_, resolution, rate) = c.mouse().request_status().unwrap();
        assert_eq!((resolution, rate), (value, 100));
    }
}

#[test]
fn set_sample_rate_sends_value() {
    let mut c = controller(&[COMMAND_ACKNOWLEDGED, COMMAND_ACKNOWLEDGED]);
    assert_eq!(c.mouse().set_sample_rate(100), Ok(()));
    let mut expected = to_mouse(0xf3).to_vec();
    expected.extend(to_mouse(100));
    assert_eq!(c.ports().writes, expected);
}

#[test]
fn sign_extension_of_movement_byte() {
    assert_eq!(sign_extend(0x05, true), -251);
    assert_eq!(sign_extend(0x05, false), 5);
    assert_eq!(sign_extend(0xff, true), -1);
    assert_eq!(sign_extend(0x00, true), -256);
    let (flags, x, y) = decode_movement(MouseMovement::X_SIGN_BIT | MouseMovement::ALWAYS_ONE, 5, 5);
    assert_eq!(flags.bits(), 0x18);
    assert_eq!((x, y), (-251, 5));
}

#[test]
fn read_data_decodes_packet() {
    let mut c = controller(&[COMMAND_ACKNOWLEDGED, 0x28, 5, 5]);
    let (flags, x, y) = c.mouse().read_data().unwrap();
    assert!(flags.contains(MouseMovement::Y_SIGN_BIT));
    assert!(!flags.contains(MouseMovement::X_SIGN_BIT));
    assert_eq!((x, y), (5, -251));
    assert_eq!(c.ports().writes, to_mouse(0xeb).to_vec());
}

#[test]
fn read_times_out_when_output_never_full() {
    let mut c = Controller::with_timeout(SimulatedPorts::never_ready(), 25);
    assert_eq!(c.read_data(), Err(ControllerError::Timeout));
    assert_eq!(c.ports().status_reads, 25);
}

#[test]
fn write_times_out_when_input_never_empties() {
    let mut ports = SimulatedPorts::with_replies(&[]);
    ports.input_stuck = true;
    let mut c = Controller::with_timeout(ports, 30);
    assert_eq!(c.write_mouse(0xf4), Err(ControllerError::Timeout));
    assert_eq!(c.ports().status_reads, 30);
    assert!(c.ports().writes.is_empty());
    assert_eq!(c.mouse().set_sample_rate(10), Err(MouseError::ControllerError(ControllerError::Timeout)));
    assert!(c.ports().writes.is_empty());
}

#[test]
fn mouse_operations_time_out_when_output_never_full() {
    let mut c = Controller::with_timeout(SimulatedPorts::never_ready(), 10);
    let timeout = Err(MouseError::ControllerError(ControllerError::Timeout));
    assert_eq!(c.mouse().set_defaults(), timeout);
    assert_eq!(c.mouse().read_data().map(|_| ()), timeout);
    assert_eq!(c.mouse().request_status().map(|_| ()), timeout);
    assert_eq!(c.mouse().get_device_id().map(|_| ()), timeout);
    assert_eq!(c.mouse().reset_and_self_test(), timeout);
    assert_eq!(
        c.keyboard().reset_and_self_test(),
        Err(KeyboardError::ControllerError(ControllerError::Timeout))
    );
}

#[test]
fn resend_stops_every_command() {
    type Op = fn(&mut Controller<SimulatedPorts>) -> Result<(), MouseError>;
    let ops: [(u8, Op); 15] = [
        (0xe6, |c| c.mouse().set_scaling_one_to_one()),
        (0xe7, |c| c.mouse().set_scaling_two_to_one()),
        (0xe8, |c| c.mouse().set_resolution(4)),
        (0xe9, |c| c.mouse().request_status().map(|_| ())),
        (0xea, |c| c.mouse().set_stream_mode()),
        (0xeb, |c| c.mouse().read_data().map(|_| ())),
        (0xec, |c| c.mouse().reset_wrap_mode()),
        (0xee, |c| c.mouse().set_wrap_mode()),
        (0xf0, |c| c.mouse().set_remote_mode()),
        (0xf2, |c| c.mouse().get_device_id().map(|_| ())),
        (0xf3, |c| c.mouse().set_sample_rate(100)),
        (0xf4, |c| c.mouse().enable_data_reporting()),
        (0xf5, |c| c.mouse().disable_data_reporting()),
        (0xf6, |c| c.mouse().set_defaults()),
        (0xff, |c| c.mouse().reset_and_self_test()),
    ];
    for (command, op) in ops {
        let mut c = controller(&[RESEND, 0x77]);
        assert_eq!(op(&mut c), Err(MouseError::Resend));
        assert_eq!(c.ports().writes, to_mouse(command).to_vec());
        assert_eq!(c.ports().replies, VecDeque::from(vec![0x77]));
    }
}

#[test]
fn resend_on_argument_is_reported() {
    let mut c = controller(&[COMMAND_ACKNOWLEDGED, RESEND]);
    assert_eq!(c.mouse().set_sample_rate(40), Err(MouseError::Resend));
    let mut expected = to_mouse(0xf3).to_vec();
    expected.extend(to_mouse(40));
    assert_eq!(c.ports().writes, expected);
}

#[test]
fn invalid_acknowledgment_is_reported() {
    let mut c = controller(&[0x12]);
    assert_eq!(c.mouse().enable_data_reporting(), Err(MouseError::InvalidResponse(0x12)));
}

#[test]
fn self_test_pass_consumes_trailing_byte() {
    let mut c = controller(&[COMMAND_ACKNOWLEDGED, SELF_TEST_PASSED, 0x5a, 0x42]);
    assert_eq!(c.mouse().reset_and_self_test(), Ok(()));
    assert_eq!(c.read_data(), Ok(0x42));
    assert_eq!(c.ports().writes, to_mouse(0xff).to_vec());
}

#[test]
fn self_test_failures_still_consume_id() {
    let cases = [
        (SELF_TEST_FAILED, MouseError::SelfTestFailed),
        (RESEND, MouseError::Resend),
        (0x12, MouseError::InvalidResponse(0x12)),
    ];
    for (byte, error) in cases {
        let mut c = controller(&[COMMAND_ACKNOWLEDGED, byte, 0x00, 0x42]);
        assert_eq!(c.mouse().reset_and_self_test(), Err(error));
        assert_eq!(c.read_data(), Ok(0x42));
    }
}

#[test]
fn request_status_checks_report() {
    let mut c = controller(&[COMMAND_ACKNOWLEDGED, 0xff, 2, 100]);
    let (status, resolution, rate) = c.mouse().request_status().unwrap();
    assert_eq!(status.bits(), MouseStatus::ALL);
    assert!(status.contains(MouseStatus::REMOTE_MODE_ENABLED));
    assert_eq!((resolution, rate), (4, 100));

    let mut c = controller(&[COMMAND_ACKNOWLEDGED, 0, 0, 10]);
    assert_eq!(c.mouse().request_status().map(|r| (r.1, r.2)), Ok((1, 10)));

    let mut c = controller(&[COMMAND_ACKNOWLEDGED, 0, 4, 100]);
    assert_eq!(c.mouse().request_status().map(|_| ()), Err(MouseError::InvalidResolution(4)));

    let mut c = controller(&[COMMAND_ACKNOWLEDGED, 0, 3, 99]);
    assert_eq!(c.mouse().request_status().map(|_| ()), Err(MouseError::InvalidSampleRate(99)));
}

#[test]
fn decode_status_drops_unknown_bits() {
    let (status, resolution, _) = decode_status(0x88, 3, 10).unwrap();
    assert_eq!(status.bits(), 0);
    assert_eq!(resolution, 8);
    assert_eq!(decode_status(0, 8, 10).map(|_| ()), Err(MouseError::InvalidResolution(8)));
    assert_eq!(decode_status(0, 1, 0).map(|_| ()), Err(MouseError::InvalidSampleRate(0)));
}

#[test]
fn device_id_is_classified() {
    let cases = [
        (0x00, MouseType::Standard),
        (0x03, MouseType::OneWheel),
        (0x04, MouseType::FiveButton),
        (0x99, MouseType::Unknown(0x99)),
    ];
    for (id, kind) in cases {
        let mut c = controller(&[COMMAND_ACKNOWLEDGED, id]);
        assert_eq!(c.mouse().get_device_id(), Ok(kind));
        assert_eq!(c.ports().writes, to_mouse(0xf2).to_vec());
    }
}

#[test]
fn resend_last_packet_only_writes() {
    let mut c = controller(&[0x09, 0x01, 0x02]);
    assert_eq!(c.mouse().resend_last_packet(), Ok(()));
    assert_eq!(c.ports().writes, to_mouse(0xfe).to_vec());
    assert_eq!(c.ports().replies.len(), 3);
}

#[test]
fn controller_self_test() {
    let mut c = controller(&[0x55]);
    assert_eq!(c.test_controller(), Ok(()));
    assert_eq!(c.ports().writes, vec![(COMMAND_REGISTER, 0xaa)]);

    let mut c = controller(&[0x12]);
    assert_eq!(c.test_controller(), Err(ControllerError::TestFailed { response: 0x12 }));
}

#[test]
fn keyboard_reset_and_commands() {
    let mut c = controller(&[COMMAND_ACKNOWLEDGED, SELF_TEST_PASSED, 0xab, 0x42]);
    assert_eq!(c.keyboard().reset_and_self_test(), Ok(()));
    assert_eq!(c.read_data(), Ok(0x42));
    assert_eq!(c.ports().writes, vec![(DATA_PORT, 0xff)]);

    let mut c = controller(&[COMMAND_ACKNOWLEDGED, SELF_TEST_FAILED, 0xab]);
    assert_eq!(c.keyboard().reset_and_self_test(), Err(KeyboardError::SelfTestFailed));

    let mut c = controller(&[RESEND, 0x77]);
    assert_eq!(c.keyboard().enable_scanning(), Err(KeyboardError::Resend));
    assert_eq!(c.ports().replies.len(), 1);

    let mut c = controller(&[COMMAND_ACKNOWLEDGED, 0x34]);
    assert_eq!(c.keyboard().disable_scanning(), Ok(()));
    assert_eq!(c.keyboard().set_defaults(), Err(KeyboardError::InvalidResponse(0x34)));
    assert_eq!(c.ports().writes, vec![(DATA_PORT, 0xf5), (DATA_PORT, 0xf6)]);
}

#[test]
fn controller_errors_convert_losslessly() {
    let failed = ControllerError::TestFailed { response: 7 };
    assert_eq!(MouseError::from(failed), MouseError::ControllerError(failed));
    assert_eq!(KeyboardError::from(ControllerError::Timeout), KeyboardError::ControllerError(ControllerError::Timeout));
}

#[test]
fn flags_keep_known_bits() {
    assert_eq!(ControllerStatus::from_bits_truncate(0xff).bits(), 0xff);
    assert_eq!(MouseMovement::from_bits_truncate(0xa5).bits(), 0xa5);
    assert_eq!(MouseStatus::from_bits_truncate(0x0f).bits(), 0x07);
    assert!(MouseStatus::from_bits_truncate(0x04).contains(MouseStatus::LEFT_BUTTON_PRESSED));
}
