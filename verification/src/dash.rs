//! Decisions of the dashboard firmware's main loop: task scheduling and the
//! reply to each TunerStudio command.

use vstd::prelude::*;
use crate::elapsed_u32;
use crate::commands::{Command, SIGNATURE, VERSION, command_of_byte};
use crate::och_block::OchBlock;
use crate::types::SerialPort;

verus! {

/// Main update period (40 Hz).
pub const UPDATE_INTERVAL_MS: u32 = 25;

/// Analog sensor read period (10 Hz).
pub const SENSOR_READ_INTERVAL_MS: u32 = 100;

/// Odometer save check period.
pub const EEPROM_SAVE_INTERVAL_MS: u32 = 10000;

/// No tachometer pulse for this long means the engine is stopped.
pub const RPM_TIMEOUT_MS: u32 = 400;

/// Which periodic tasks are due on one pass of the main loop.
#[derive(Debug, Clone, Copy, PartialEq, Eq, Structural)]
pub struct DueTasks {
    /// The RPM / speed / odometer update is due; holds the milliseconds since
    /// its previous run.
    pub update_elapsed_ms: Option<u32>,
    /// The analog sensors are due for reading.
    pub read_sensors: bool,
    /// The odometer save check is due.
    pub save_odometer: bool,
}

/// Last run times (milliseconds) of the main loop's periodic tasks.
pub struct DashSchedule {
    last_update_ms: u32,
    last_sensor_read_ms: u32,
    last_eeprom_save_ms: u32,
}

/// Abstract schedule: last run of the update, sensor and save tasks.
pub struct ScheduleState {
    pub last_update_ms: u32,
    pub last_sensor_read_ms: u32,
    pub last_eeprom_save_ms: u32,
}

/// Whether a task last run at `last` with period `interval` is due at `now`.
pub open spec fn due(now: u32, last: u32, interval: u32) -> bool {
    elapsed_u32(now, last) >= interval
}

/// Schedule after a poll at `now`, and the tasks that run.
pub open spec fn poll_spec(s: ScheduleState, now: u32) -> (ScheduleState, DueTasks) {
    let update = due(now, s.last_update_ms, UPDATE_INTERVAL_MS);
    let sensors = due(now, s.last_sensor_read_ms, SENSOR_READ_INTERVAL_MS);
    let save = due(now, s.last_eeprom_save_ms, EEPROM_SAVE_INTERVAL_MS);
    (
        ScheduleState {
            last_update_ms: if update { now } else { s.last_update_ms },
            last_sensor_read_ms: if sensors { now } else { s.last_sensor_read_ms },
            last_eeprom_save_ms: if save { now } else { s.last_eeprom_save_ms },
        },
        DueTasks {
            update_elapsed_ms: if update { Some(elapsed_u32(now, s.last_update_ms) as u32) } else { None },
            read_sensors: sensors,
            save_odometer: save,
        },
    )
}

/// Each task runs at most once per period: when a task runs at `t1` and again
/// at the next poll `t2`, at least its period has passed on the clock.
pub proof fn lemma_task_rates(s: ScheduleState, t1: u32, t2: u32)
    ensures
        ({
            let (s1, d1) = poll_spec(s, t1);
            let (_, d2) = poll_spec(s1, t2);
            &&& (d1.update_elapsed_ms is Some && d2.update_elapsed_ms is Some) ==> elapsed_u32(t2, t1)
                >= UPDATE_INTERVAL_MS
            &&& (d1.read_sensors && d2.read_sensors) ==> elapsed_u32(t2, t1) >= SENSOR_READ_INTERVAL_MS
            &&& (d1.save_odometer && d2.save_odometer) ==> elapsed_u32(t2, t1) >= EEPROM_SAVE_INTERVAL_MS
        }),
{
}

impl View for DashSchedule {
    type V = ScheduleState;

    closed spec fn view(&self) -> ScheduleState {
        ScheduleState {
            last_update_ms: self.last_update_ms,
            last_sensor_read_ms: self.last_sensor_read_ms,
            last_eeprom_save_ms: self.last_eeprom_save_ms,
        }
    }
}

impl DashSchedule {
    /// All tasks last ran at time zero.
    pub fn new() -> (r: Self)
        ensures
            r@ == (ScheduleState { last_update_ms: 0, last_sensor_read_ms: 0, last_eeprom_save_ms: 0 }),
    {
        DashSchedule { last_update_ms: 0, last_sensor_read_ms: 0, last_eeprom_save_ms: 0 }
    }

    /// Decide which tasks run at `now_ms`; each due task is marked as run now.
    pub fn poll(&mut self, now_ms: u32) -> (r: DueTasks)
        ensures
            (final(self)@, r) == poll_spec(old(self)@, now_ms),
    {
        let update_elapsed = now_ms.wrapping_sub(self.last_update_ms);
        let update_elapsed_ms = if update_elapsed >= UPDATE_INTERVAL_MS {
            self.last_update_ms = now_ms;
            Some(update_elapsed)
        } else {
            None
        };
        let read_sensors = interval_elapsed(now_ms, self.last_sensor_read_ms, SENSOR_READ_INTERVAL_MS);
        if read_sensors {
            self.last_sensor_read_ms = now_ms;
        }
        let save_odometer = interval_elapsed(now_ms, self.last_eeprom_save_ms, EEPROM_SAVE_INTERVAL_MS);
        if save_odometer {
            self.last_eeprom_save_ms = now_ms;
        }
        DueTasks { update_elapsed_ms, read_sensors, save_odometer }
    }
}

/// Acknowledgement byte ('!') for commands that are accepted but not implemented.
pub const ACK: u8 = 0x21;

/// Length of the (all-zero) reply to a page read.
pub const PAGE_LEN: usize = 128;

/// The bytes sent in reply to `cmd` while `och` holds the current readings.
pub open spec fn response_spec(cmd: Command, och: Seq<u8>) -> Seq<u8> {
    match cmd {
        Command::QuerySignature => SIGNATURE@,
        Command::QueryVersion => VERSION@,
        Command::ReadOch => och,
        Command::ReadPage => Seq::new(128, |i: int| 0u8),
        Command::GetCrc => seq![0xFFu8, 0xFF, 0xFF, 0xFF],
        Command::BurnPage => seq![ACK],
        Command::Flags => seq![ACK],
        Command::Unknown(_) => Seq::empty(),
    }
}

/// What each command is answered with: `r` sends every byte of the block
/// unchanged, `Q` and `S` the signature and version, `p` a page of zeros, `d`
/// four 0xFF bytes, `b` and `F` the acknowledgement, and an unknown byte nothing.
pub proof fn lemma_replies(cmd: Command, och: Seq<u8>)
    ensures
        cmd == Command::ReadOch ==> response_spec(cmd, och) == och,
        cmd == Command::QuerySignature ==> response_spec(cmd, och) == SIGNATURE@,
        cmd == Command::QueryVersion ==> response_spec(cmd, och) == VERSION@,
        cmd == Command::ReadPage ==> response_spec(cmd, och).len() == PAGE_LEN && forall|i: int|
            0 <= i < PAGE_LEN ==> #[trigger] response_spec(cmd, och)[i] == 0,
        cmd == Command::GetCrc ==> response_spec(cmd, och) == seq![0xFFu8, 0xFF, 0xFF, 0xFF],
        (cmd == Command::BurnPage || cmd == Command::Flags) ==> response_spec(cmd, och) == seq![
            ACK,
        ],
        cmd is Unknown ==> response_spec(cmd, och).len() == 0,
{
}

/// Reply sizes: 32 bytes for `Q` and `S`, the 87-byte block for `r`, 128 for
/// `p`, 4 for `d`, a one-byte acknowledgement for `b` and `F`, nothing for an
/// unknown command.
pub proof fn lemma_response_sizes(cmd: Command, och: Seq<u8>)
    requires
        och.len() == 87,
    ensures
        response_spec(cmd, och).len() == (match cmd {
            Command::QuerySignature => 32int,
            Command::QueryVersion => 32,
            Command::ReadOch => 87,
            Command::ReadPage => 128,
            Command::GetCrc => 4,
            Command::BurnPage => 1,
            Command::Flags => 1,
            Command::Unknown(_) => 0,
        }),
{
}

/// Whether a periodic task is due: at least `interval_ms` since `last_ms` on
/// the wrapping millisecond clock.
pub fn interval_elapsed(now_ms: u32, last_ms: u32, interval_ms: u32) -> (r: bool)
    ensures
        r == (elapsed_u32(now_ms, last_ms) >= interval_ms),
{
    now_ms.wrapping_sub(last_ms) >= interval_ms
}

/// The reply to a command.
pub fn command_response(cmd: Command, och: &OchBlock) -> (r: Vec<u8>)
    ensures
        r@ == response_spec(cmd, och@),
        cmd == Command::ReadOch ==> r@ == och@,
        cmd == Command::QuerySignature ==> r@ == SIGNATURE@,
        cmd == Command::QueryVersion ==> r@ == VERSION@,
        cmd == Command::ReadPage ==> r@.len() == PAGE_LEN && forall|i: int|
            0 <= i < PAGE_LEN ==> #[trigger] r@[i] == 0,
        cmd == Command::GetCrc ==> r@ == seq![0xFFu8, 0xFF, 0xFF, 0xFF],
        (cmd == Command::BurnPage || cmd == Command::Flags) ==> r@ == seq![ACK],
        cmd is Unknown ==> r@.len() == 0,
{
    proof {
        lemma_replies(cmd, och@);
    }
    match cmd {
        Command::QuerySignature => vstd::slice::slice_to_vec(SIGNATURE.as_slice()),
        Command::QueryVersion => vstd::slice::slice_to_vec(VERSION.as_slice()),
        Command::ReadOch => vstd::slice::slice_to_vec(och.as_bytes()),
        Command::ReadPage => {
            let mut v: Vec<u8> = Vec::new();
            let mut i: usize = 0;
            while i < PAGE_LEN
                invariant
                    i <= PAGE_LEN,
                    v@ == Seq::new(i as nat, |k: int| 0u8),
                decreases PAGE_LEN - i,
            {
                v.push(0);
                i = i + 1;
                assert(v@ =~= Seq::new(i as nat, |k: int| 0u8));
            }
            v
        },
        Command::GetCrc => {
            let mut v: Vec<u8> = Vec::new();
            v.push(0xFF);
            v.push(0xFF);
            v.push(0xFF);
            v.push(0xFF);
            assert(v@ =~= seq![0xFFu8, 0xFF, 0xFF, 0xFF]);
            v
        },
        Command::BurnPage | Command::Flags => {
            let mut v: Vec<u8> = Vec::new();
            v.push(ACK);
            assert(v@ =~= seq![ACK]);
            v
        },
        Command::Unknown(_) => {
            let v: Vec<u8> = Vec::new();
            assert(v@ =~= Seq::<u8>::empty());
            v
        },
    }
}

/// Answer a byte received from the port (`None`: nothing received): every
/// received byte is parsed and answered, and nothing is answered without one.
pub fn serve_byte(byte: Option<u8>, och: &OchBlock) -> (r: Option<(u8, Command, Vec<u8>)>)
    ensures
        byte is None <==> r is None,
        byte matches Some(b) ==> (r matches Some((b2, cmd, reply)) && b2 == b && cmd
            == command_of_byte(b) && reply@ == response_spec(cmd, och@)),
{
    match byte {
        Some(b) => {
            let cmd = Command::from_byte(b);
            let reply = command_response(cmd, och);
            Some((b, cmd, reply))
        },
        None => None,
    }
}

/// Take one pending byte from the serial port and parse it as a command.
/// Returns the byte, its command and the reply to send back, or `None` when
/// no byte was available. Nothing is written to the port: sending the reply
/// is the caller's.
pub fn serve_command<P: SerialPort>(port: &mut P, och: &OchBlock) -> (r: Option<(u8, Command, Vec<u8>)>)
    ensures
        r matches Some((b, cmd, reply)) ==> cmd == command_of_byte(b) && reply@ == response_spec(
            cmd,
            och@,
        ),
{
    serve_byte(port.read_byte(), och)
}

} // verus!
