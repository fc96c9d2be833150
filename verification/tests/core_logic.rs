use digital_dash::clamp_u8;
use digital_dash::dash::{command_response, interval_elapsed, serve_command, DashSchedule, DueTasks};
use digital_dash::receiver::hex_dump;
use digital_dash::filtering::{delay_microseconds, sort_samples, trimmed_sum};
use digital_dash::interrupts::{
    get_tach_last_pulse_ms, get_tach_period, get_vss_last_pulse, micros_from_millis, PulseTimes,
};
use digital_dash::odometer::{decode_odometer_record, encode_odometer_record};
use digital_dash::rpm::{classify_rpm_input, RpmInput};
use digital_dash::vss::{VssCounter, WindowCheck};
use digital_dash::{Command, OchBlock, SerialPort, SIGNATURE, VERSION};

#[test]
fn clamp_u8_limits() {
    assert_eq!(clamp_u8(-5), 0);
    assert_eq!(clamp_u8(0), 0);
    assert_eq!(clamp_u8(140), 140);
    assert_eq!(clamp_u8(255), 255);
    assert_eq!(clamp_u8(256), 255);
    assert_eq!(clamp_u8(i32::MIN), 0);
    assert_eq!(clamp_u8(i32::MAX), 255);
}

#[test]
fn responses_follow_command_table() {
    let mut och = OchBlock::new();
    och.set_rpm(3000);
    assert_eq!(command_response(Command::QuerySignature, &och), SIGNATURE.to_vec());
    assert_eq!(command_response(Command::QueryVersion, &och), VERSION.to_vec());
    assert_eq!(command_response(Command::ReadOch, &och), och.as_bytes().to_vec());
    assert_eq!(command_response(Command::ReadPage, &och), vec![0u8; 128]);
    assert_eq!(command_response(Command::GetCrc, &och), vec![0xFF; 4]);
    assert_eq!(command_response(Command::BurnPage, &och), vec![b'!']);
    assert_eq!(command_response(Command::Flags, &och), vec![b'!']);
    assert!(command_response(Command::Unknown(b'?'), &och).is_empty());
}

struct LoopbackPort {
    input: Vec<u8>,
    output: Vec<u8>,
}

impl SerialPort for LoopbackPort {
    fn available(&self) -> usize {
        self.input.len()
    }
    fn read_byte(&mut self) -> Option<u8> {
        if self.input.is_empty() {
            None
        } else {
            Some(self.input.remove(0))
        }
    }
    fn write(&mut self, data: &[u8]) {
        self.output.extend_from_slice(data);
    }
    fn flush(&mut self) {}
}

#[test]
fn serve_command_parses_byte_and_builds_reply() {
    let och = OchBlock::new();
    let mut port = LoopbackPort { input: vec![b'Q', b'x', b'r'], output: Vec::new() };
    let (b, cmd, reply) = serve_command(&mut port, &och).unwrap();
    assert_eq!(b, b'Q');
    assert_eq!(cmd, Command::QuerySignature);
    assert_eq!(reply, SIGNATURE.to_vec());
    assert!(port.output.is_empty());
    let (_, cmd, reply) = serve_command(&mut port, &och).unwrap();
    assert_eq!(cmd, Command::Unknown(b'x'));
    assert!(reply.is_empty());
    let (_, cmd, reply) = serve_command(&mut port, &och).unwrap();
    assert_eq!(cmd, Command::ReadOch);
    assert_eq!(reply.len(), 87);
    assert!(port.output.is_empty());
    assert!(serve_command(&mut port, &och).is_none());
}

#[test]
fn scheduling_handles_clock_wrap() {
    assert!(interval_elapsed(125, 100, 25));
    assert!(!interval_elapsed(124, 100, 25));
    assert!(interval_elapsed(10, u32::MAX - 20, 25));
    assert!(!interval_elapsed(2, u32::MAX - 20, 25));
}

#[test]
fn trimmed_sum_of_sorted_samples() {
    // Samples after the discarded first read of the hardware sequence
    // [900, 100, 200, 500, 400, 300, 800].
    let mut buffer = [100u16, 200, 500, 400, 300, 800];
    sort_samples(&mut buffer, 6);
    assert_eq!(buffer, [100, 200, 300, 400, 500, 800]);
    let sum = trimmed_sum(&buffer, 6, 1).unwrap();
    assert_eq!(sum, 1400);
    assert!(((sum as f32) / 4.0 - 350.0).abs() < 0.1);
    delay_microseconds(60);
}

#[test]
fn sort_only_touches_sample_prefix() {
    let mut buffer = [5u16, 4, 3, 2, 1, 0, 9, 7];
    sort_samples(&mut buffer, 6);
    assert_eq!(buffer, [0, 1, 2, 3, 4, 5, 9, 7]);
    let mut one = [42u16];
    sort_samples(&mut one, 1);
    assert_eq!(one, [42]);
}

#[test]
fn trimmed_sum_independent_of_sample_order() {
    let mut a = [7u16, 1, 1023, 500, 501, 0, 3, 3];
    let mut b = [3u16, 501, 3, 0, 7, 1023, 500, 1];
    sort_samples(&mut a, 8);
    sort_samples(&mut b, 8);
    assert_eq!(a, b);
    assert_eq!(trimmed_sum(&a, 8, 2), trimmed_sum(&b, 8, 2));
    assert_eq!(trimmed_sum(&a, 8, 2), Some(3 + 3 + 7 + 500));
    assert_eq!(trimmed_sum(&a, 8, 4), Some(0));
}

#[test]
fn trimmed_sum_reports_overflow() {
    let full = vec![u16::MAX; 65537];
    assert_eq!(trimmed_sum(&full, 65537, 0), Some(u32::MAX));
    let over = vec![u16::MAX; 65538];
    assert_eq!(trimmed_sum(&over, 65538, 0), None);
    assert_eq!(trimmed_sum(&over, 65538, 1), Some(65536 * 65535));
}

#[test]
fn rpm_input_classification() {
    assert_eq!(classify_rpm_input(10_000, 10_000, 400, 10), RpmInput::Period(10_000));
    assert_eq!(classify_rpm_input(2000, 10_000, 400, 10), RpmInput::InvalidPeriod);
    assert_eq!(classify_rpm_input(100_000, 10_000, 400, 10), RpmInput::InvalidPeriod);
    assert_eq!(classify_rpm_input(0, 10_000, 400, 10), RpmInput::InvalidPeriod);
    assert_eq!(classify_rpm_input(3000, 10_000, 400, 10), RpmInput::Period(3000));
    assert_eq!(classify_rpm_input(80_000, 10_000, 400, 10), RpmInput::Period(80_000));
    assert_eq!(classify_rpm_input(80_001, 10_000, 400, 10), RpmInput::InvalidPeriod);
    // last pulse 590 ms ago, timeout 400 ms
    assert_eq!(classify_rpm_input(10_000, 600_000, 400, 10), RpmInput::EngineStopped);
    // exactly at the timeout is still running
    assert_eq!(classify_rpm_input(10_000, 410_000, 400, 10), RpmInput::Period(10_000));
}

#[test]
fn tach_edges_record_period() {
    let mut t = PulseTimes::new();
    t.on_tach_edge(1_000);
    assert_eq!(get_tach_period(&t), 0);
    t.on_tach_edge(11_000);
    assert_eq!(get_tach_period(&t), 10_000);
    // a 2 ms period is noise: the period stays, the edge time moves
    t.on_tach_edge(13_000);
    assert_eq!(get_tach_period(&t), 10_000);
    assert_eq!(get_tach_last_pulse_ms(&t), 13);
    t.on_vss_edge(20_500);
    assert_eq!(get_vss_last_pulse(&t), 20_500);
    assert_eq!(get_tach_period(&t), 10_000);
}

#[test]
fn micros_wrap_like_hardware_counter() {
    assert_eq!(micros_from_millis(25), 25_000);
    assert_eq!(micros_from_millis(4_294_968), 4_294_968u32.wrapping_mul(1000));
}

#[test]
fn odometer_record_round_trips() {
    let miles = 2200.0f32.to_le_bytes();
    let record = encode_odometer_record(miles);
    assert_eq!(&record[0..2], &[0xDE, 0xC0]);
    assert_eq!(decode_odometer_record(record), Some(miles));
    assert_eq!(decode_odometer_record([0xFF; 6]), None);
    assert_eq!(decode_odometer_record([0xC0, 0xDE, 1, 2, 3, 4]), None);
}

#[test]
fn test_vss_noise_rejection() {
    let mut vss = VssCounter::new();
    vss.on_pulse(1000);
    vss.on_pulse(1500);
    assert_eq!(vss.pulse_count(), 1, "Second pulse should be rejected");
    vss.on_pulse(2000);
    assert_eq!(vss.pulse_count(), 2);
}

#[test]
fn vss_without_pulses_reports_no_signal() {
    let mut vss = VssCounter::new();
    assert_eq!(vss.check_window(1_000_000, true), WindowCheck::NoSignal);
}

fn drive_window(vss: &mut VssCounter, window: u32, pulses: u32) -> WindowCheck {
    for p in 0..pulses {
        vss.on_pulse(window * 250_000 + p * 15_000 + 1_000);
    }
    vss.check_window((window + 1) * 250_000 + 10_000, false)
}

#[test]
fn vss_unlocks_after_four_good_windows() {
    let mut vss = VssCounter::new();
    for window in 0..4u32 {
        let check = drive_window(&mut vss, window, 10);
        assert_eq!(check, WindowCheck::Closed(10));
        let unlocked = vss.start_window((window + 1) * 250_000 + 10_000, false, 10, true);
        assert_eq!(unlocked, window == 3, "window {}", window);
    }
    assert!(vss.is_moving());
    assert!(vss.ema_initialized());
}

#[test]
fn vss_idle_or_bad_window_restarts_lock_in() {
    let mut vss = VssCounter::new();
    for window in 0..3u32 {
        drive_window(&mut vss, window, 10);
        assert!(!vss.start_window((window + 1) * 250_000 + 10_000, false, 10, true));
    }
    // idle engine: the run restarts
    drive_window(&mut vss, 3, 10);
    assert!(!vss.start_window(4 * 250_000 + 10_000, true, 10, true));
    for window in 4..7u32 {
        drive_window(&mut vss, window, 10);
        assert!(!vss.start_window((window + 1) * 250_000 + 10_000, false, 10, true));
    }
    // too few pulses: restarts again
    drive_window(&mut vss, 7, 5);
    assert!(!vss.start_window(8 * 250_000 + 10_000, false, 5, true));
    assert!(!vss.is_moving());
}

#[test]
fn vss_window_open_until_full_length() {
    let mut vss = VssCounter::new();
    vss.on_pulse(1_000);
    assert_eq!(vss.check_window(200_000, false), WindowCheck::Open);
    assert_eq!(vss.check_window(251_000, false), WindowCheck::Closed(1));
    assert_eq!(vss.pulse_count(), 0);
}

#[test]
fn vss_timeout_clears_state() {
    let mut vss = VssCounter::new();
    vss.on_pulse(1000);
    assert_eq!(vss.check_window(3_000_000, false), WindowCheck::Stopped);
    assert!(!vss.is_moving());
    assert_eq!(vss.pulse_count(), 0);
}

#[test]
fn vss_timeout_while_cruising_holds() {
    let mut vss = VssCounter::new();
    for window in 0..4u32 {
        drive_window(&mut vss, window, 10);
        vss.start_window((window + 1) * 250_000 + 10_000, false, 10, true);
    }
    assert!(vss.is_moving());
    assert_eq!(vss.check_window(10_000_000, false), WindowCheck::Holding);
    assert!(vss.is_moving());
    assert_eq!(vss.check_window(10_000_000, true), WindowCheck::Stopped);
    assert!(!vss.is_moving());
    assert!(!vss.ema_initialized());
}

#[test]
fn vss_stop_motion_and_sparse_windows() {
    assert!(VssCounter::is_sparse(5));
    assert!(!VssCounter::is_sparse(6));
    let mut vss = VssCounter::new();
    for window in 0..4u32 {
        drive_window(&mut vss, window, 10);
        vss.start_window((window + 1) * 250_000 + 10_000, false, 10, true);
    }
    vss.stop_motion();
    assert!(!vss.is_moving());
    vss.start_ema();
    assert!(vss.ema_initialized());
}

#[test]
fn vss_pulse_right_after_boot_is_debounced() {
    // The debounce compares with the initial last-pulse time of zero.
    let mut vss = VssCounter::new();
    vss.on_pulse(1);
    assert_eq!(vss.pulse_count(), 0);
    vss.on_pulse(800);
    assert_eq!(vss.pulse_count(), 1);
}

#[test]
fn hex_dump_matches_formatted_output() {
    let bytes: Vec<u8> = (0..87u8).map(|b| b.wrapping_mul(37)).collect();
    let mut expected = String::new();
    for (i, chunk) in bytes.chunks(16).enumerate() {
        expected.push_str(&format!("{:04x}: ", i * 16));
        for &b in chunk {
            expected.push_str(&format!("{:02x} ", b));
        }
        expected.push('\n');
    }
    assert_eq!(String::from_utf8(hex_dump(&bytes)).unwrap(), expected);
    assert!(hex_dump(&[]).is_empty());
    assert_eq!(String::from_utf8(hex_dump(&[0xAB])).unwrap(), "0000: ab \n");
}

#[test]
fn schedule_runs_tasks_at_their_rates() {
    let mut s = DashSchedule::new();
    let due = s.poll(10);
    assert_eq!(due.update_elapsed_ms, None);
    assert!(!due.read_sensors && !due.save_odometer);
    let due = s.poll(25);
    assert_eq!(due.update_elapsed_ms, Some(25));
    assert!(!due.read_sensors);
    let due = s.poll(40);
    assert_eq!(due.update_elapsed_ms, None);
    let due = s.poll(100);
    assert_eq!(due.update_elapsed_ms, Some(75));
    assert!(due.read_sensors);
    assert!(!due.save_odometer);
    let due = s.poll(10_000);
    assert!(due.read_sensors && due.save_odometer);
    let due = s.poll(10_001);
    assert_eq!(due, DueTasks { update_elapsed_ms: None, read_sensors: false, save_odometer: false });
}

#[test]
fn vss_accepts_pulse_after_debounce() {
    let mut vss = VssCounter::new();
    assert!(!vss.accepts_pulse(799));
    assert!(vss.accepts_pulse(800));
    vss.on_pulse(5_000);
    assert!(!vss.accepts_pulse(5_500));
    assert!(vss.accepts_pulse(5_800));
}

#[test]
fn rpm_out_of_range_periods_are_invalid() {
    // Periods below 3 ms or above 80 ms leave the (zero) reading unchanged.
    assert_eq!(classify_rpm_input(2000, 10_000, 400, 10), RpmInput::InvalidPeriod);
    assert_eq!(classify_rpm_input(100_000, 10_000, 400, 10), RpmInput::InvalidPeriod);
}

#[test]
fn rpm_zero_period_is_invalid() {
    assert_eq!(classify_rpm_input(0, 10_000, 400, 10), RpmInput::InvalidPeriod);
}
