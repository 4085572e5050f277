use vstd::prelude::*;

use crate::cdrom::time::{CdTime, lemma_minus_wf, lemma_sector_of_time};

verus! {

/// The commands of the CD-ROM controller.
#[derive(Debug, Clone, Copy, PartialEq, Eq, Structural)]
pub enum Command {
    Demute,
    GetId,
    GetLocL,
    GetLocP,
    GetStat,
    GetTD,
    GetTN,
    Init,
    MotorOn,
    Mute,
    Pause,
    Play,
    ReadN,
    ReadS,
    ReadToc,
    SeekL,
    SeekP,
    SetFilter,
    SetLoc,
    SetMode,
    Stop,
    Test,
}

/// Where the controller is in receiving and answering a command.
#[derive(Debug, Clone, Copy, PartialEq, Eq, Structural)]
pub enum CommandState {
    Idle,
    CommandQueued { command: Command, cycles: u32 },
    ReceivingCommand { command: Command, cycles_remaining: u32 },
    GeneratingSecondResponse { command: Command, cycles_remaining: u32 },
}

/// What the drive does once a seek ends.
#[derive(Debug, Clone, Copy, PartialEq, Eq, Structural)]
pub enum SeekNextState {
    Pause,
    Read,
    Play,
}

/// What the drive does once the motor has spun up.
#[derive(Debug, Clone, Copy, PartialEq, Eq, Structural)]
pub enum SpinUpNextState {
    Pause,
    Seek(CdTime, SeekNextState),
}

/// The state of a data read: the time of the next sector, whether the
/// current one has been announced with INT1, and the cycles until the next.
#[derive(Debug, Clone, Copy, PartialEq, Eq, Structural)]
pub struct ReadState {
    pub time: CdTime,
    pub int1_generated: bool,
    pub cycles_till_next_sector: u32,
}

/// Which time the next audio position report gives.
#[derive(Debug, Clone, Copy, PartialEq, Eq, Structural)]
pub enum AudioReportType {
    Absolute,
    Relative,
}

/// The state of audio playback.
#[derive(Debug, Clone, Copy, PartialEq, Eq, Structural)]
pub struct PlayState {
    pub time: CdTime,
    pub sample_idx: u16,
    pub sectors_till_report: u8,
    pub next_report_type: AudioReportType,
}

/// The state of the drive mechanism.
#[derive(Debug, Clone, Copy, PartialEq, Eq, Structural)]
pub enum DriveState {
    Stopped,
    SpinningUp { cycles_remaining: u32, next: SpinUpNextState },
    Seeking { destination: CdTime, cycles_remaining: u32, next: SeekNextState },
    PreparingToRead { time: CdTime, cycles_remaining: u32 },
    Reading(ReadState),
    PreparingToPlay { time: CdTime, cycles_remaining: u32 },
    Playing(PlayState),
    Paused { time: CdTime, int2_queued: bool },
}

/// The cycles a spin-up takes.
pub const SPIN_UP_CYCLES: u32 = 22050;
/// The cycles from the end of a seek to the first sector: 5 frames of 588.
pub const PREPARE_CYCLES: u32 = 2940;
/// The cycles between two sectors of a read.
pub const SECTOR_CYCLES: u32 = 294;
/// The shortest seek.
pub const MIN_SEEK_CYCLES: u32 = 24;

impl DriveState {
    /// The time where the head is: the start of the disc while the motor is
    /// off or spinning up, else the time of the current state.
    pub open spec fn time_spec(self) -> CdTime {
        match self {
            DriveState::Stopped | DriveState::SpinningUp { .. } => CdTime::zero_spec(),
            DriveState::Paused { time, .. } => time,
            DriveState::PreparingToRead { time, .. } => time,
            DriveState::Reading(rs) => rs.time,
            DriveState::PreparingToPlay { time, .. } => time,
            DriveState::Playing(ps) => ps.time,
            DriveState::Seeking { destination, .. } => destination,
        }
    }

    /// Every time in the state is well formed and every counter is at
    /// least 1.
    pub open spec fn wf(self) -> bool {
        match self {
            DriveState::Stopped => true,
            DriveState::SpinningUp { cycles_remaining, next } => cycles_remaining >= 1 && match next {
                SpinUpNextState::Pause => true,
                SpinUpNextState::Seek(t, _) => t.wf(),
            },
            DriveState::Seeking { destination, cycles_remaining, .. } => destination.wf()
                && cycles_remaining >= 1,
            DriveState::PreparingToRead { time, cycles_remaining } => time.wf() && cycles_remaining
                >= 1,
            DriveState::Reading(rs) => rs.time.wf() && rs.cycles_till_next_sector >= 1,
            DriveState::PreparingToPlay { time, cycles_remaining } => time.wf() && cycles_remaining
                >= 1,
            DriveState::Playing(ps) => ps.time.wf(),
            DriveState::Paused { time, .. } => time.wf(),
        }
    }

    /// The time where the head is.
    pub fn current_time(self) -> (r: CdTime)
        ensures
            r == self.time_spec(),
    {
        match self {
            DriveState::Stopped | DriveState::SpinningUp { .. } => CdTime::zero(),
            DriveState::Paused { time, .. } => time,
            DriveState::PreparingToRead { time, .. } => time,
            DriveState::Reading(rs) => rs.time,
            DriveState::PreparingToPlay { time, .. } => time,
            DriveState::Playing(ps) => ps.time,
            DriveState::Seeking { destination, .. } => destination,
        }
    }
}

/// The distance in sectors between two times.
pub open spec fn sector_distance(a: CdTime, b: CdTime) -> int {
    if a.sector() <= b.sector() {
        b.sector() - a.sector()
    } else {
        a.sector() - b.sector()
    }
}

/// The cycles of a seek from `current` to `destination`: 1 when they are
/// equal, else the distance at 300 sectors per 49 cycles (a 60-minute seek
/// takes 44100 cycles, about a second), rounded up.
pub open spec fn seek_cycles_spec(current: CdTime, destination: CdTime) -> int {
    if current == destination {
        1
    } else {
        (sector_distance(current, destination) * 49 + 299) / 300
    }
}

/// The cycles of a seek from `current` to `destination`.
pub fn estimate_seek_cycles(current: CdTime, destination: CdTime) -> (r: u32)
    requires
        current.wf(),
        destination.wf(),
    ensures
        r == seek_cycles_spec(current, destination),
{
    if current == destination {
        return 1;
    }
    let diff = if current.is_before(&destination) {
        proof {
            lemma_minus_sector(destination, current);
        }
        destination - current
    } else {
        proof {
            lemma_minus_sector(current, destination);
        }
        current - destination
    };
    let diff_sectors = diff.to_sector_number();
    (diff_sectors * 49 + 299) / 300
}

/// The difference of two well-formed times in order is the difference of
/// their sectors, which is below 360000.
pub proof fn lemma_minus_sector(a: CdTime, b: CdTime)
    requires
        a.wf(),
        b.wf(),
        !a.before(b),
    ensures
        a.minus(b).sector() == a.sector() - b.sector(),
        b.sector() <= a.sector(),
        a.sector() - b.sector() == sector_distance(a, b),
        a.sector() - b.sector() == sector_distance(b, a),
        a.sector() < 360000,
{
    lemma_before_sector(a, b);
    lemma_minus_wf(a, b);
    vstd::arithmetic::div_mod::lemma_small_mod((a.sector() - b.sector()) as nat, 360000);
}

/// Between well-formed times, `before` is the order of their sectors.
pub proof fn lemma_before_sector(a: CdTime, b: CdTime)
    requires
        a.wf(),
        b.wf(),
    ensures
        a.before(b) <==> a.sector() < b.sector(),
        a == b <==> a.sector() == b.sector(),
{
    lemma_sector_of_time(a);
    lemma_sector_of_time(b);
}

/// The larger of two counts.
pub open spec fn max_u32(a: int, b: int) -> int {
    if a >= b { a } else { b }
}

/// The drive state that takes the drive to `destination`, to do `next`
/// there: a spin-up first when the motor is off or spinning up, else a
/// seek of at least 24 cycles from the current time.
pub open spec fn seek_state(drive_state: DriveState, destination: CdTime, next: SeekNextState) -> DriveState {
    match drive_state {
        DriveState::Stopped => DriveState::SpinningUp {
            cycles_remaining: SPIN_UP_CYCLES,
            next: SpinUpNextState::Seek(destination, next),
        },
        DriveState::SpinningUp { cycles_remaining, .. } => DriveState::SpinningUp {
            cycles_remaining,
            next: SpinUpNextState::Seek(destination, next),
        },
        _ => DriveState::Seeking {
            destination,
            cycles_remaining: max_u32(24, seek_cycles_spec(drive_state.time_spec(), destination)) as u32,
            next,
        },
    }
}

/// The drive state that takes the drive to `destination`, to do `next`
/// there.
pub fn determine_drive_state(drive_state: DriveState, destination: CdTime, next: SeekNextState) -> (r: DriveState)
    requires
        drive_state.wf(),
        destination.wf(),
    ensures
        r == seek_state(drive_state, destination, next),
        r.wf(),
{
    match drive_state {
        DriveState::Stopped => DriveState::SpinningUp {
            cycles_remaining: SPIN_UP_CYCLES,
            next: SpinUpNextState::Seek(destination, next),
        },
        DriveState::SpinningUp { cycles_remaining, .. } => DriveState::SpinningUp {
            cycles_remaining,
            next: SpinUpNextState::Seek(destination, next),
        },
        _ => {
            let time = drive_state.current_time();
            let estimate = estimate_seek_cycles(time, destination);
            let seek_cycles = if estimate >= MIN_SEEK_CYCLES { estimate } else { MIN_SEEK_CYCLES };
            DriveState::Seeking { destination, cycles_remaining: seek_cycles, next }
        },
    }
}

/// The binary-coded decimal form of `value`: tens in the high nibble, units
/// in the low one.
pub open spec fn bcd_spec(value: u8) -> u8 {
    (((value / 10) as u8) << 4u8) | ((value % 10) as u8)
}

/// The binary-coded decimal form of `value`.
pub fn binary_to_bcd(value: u8) -> (r: u8)
    ensures
        r == bcd_spec(value),
{
    ((value / 10) << 4u8) | (value % 10)
}

/// Decoding the BCD form of a number below 100 gives the number back.
pub proof fn lemma_bcd_roundtrip(value: u8)
    requires
        value < 100,
    ensures
        from_bcd_spec(bcd_spec(value)) == value,
{
    let b = bcd_spec(value);
    assert(b >> 4u8 == value / 10 && b & 0x0f == value % 10) by (bit_vector)
        requires
            value < 100,
            b == (((value / 10) as u8) << 4u8) | ((value % 10) as u8),
    ;
}

/// The value of a binary-coded decimal byte: ten times the high nibble plus
/// the low one.
pub open spec fn from_bcd_spec(value: u8) -> int {
    (value >> 4u8) * 10 + (value & 0x0f)
}

/// The drive status byte: bit 1 motor on, bit 5 reading, bit 6 seeking,
/// bit 7 playing.
pub open spec fn stat_spec(drive_state: DriveState) -> u8 {
    let motor_on = !(drive_state is Stopped || drive_state is SpinningUp);
    let seeking = drive_state is Seeking;
    let reading = drive_state is PreparingToRead || drive_state is Reading;
    let playing = drive_state is PreparingToPlay || drive_state is Playing;
    (if motor_on { 2u8 } else { 0u8 }) | (if reading { 0x20u8 } else { 0u8 }) | (if seeking {
        0x40u8
    } else {
        0u8
    }) | (if playing { 0x80u8 } else { 0u8 })
}

/// The command sent with `byte`, if the controller knows it.
pub open spec fn command_of_byte(byte: u8) -> Option<Command> {
    if byte == 0x01 {
        Some(Command::GetStat)
    } else if byte == 0x02 {
        Some(Command::SetLoc)
    } else if byte == 0x03 {
        Some(Command::Play)
    } else if byte == 0x06 {
        Some(Command::ReadN)
    } else if byte == 0x07 {
        Some(Command::MotorOn)
    } else if byte == 0x08 {
        Some(Command::Stop)
    } else if byte == 0x09 {
        Some(Command::Pause)
    } else if byte == 0x0a {
        Some(Command::Init)
    } else if byte == 0x0b {
        Some(Command::Mute)
    } else if byte == 0x0c {
        Some(Command::Demute)
    } else if byte == 0x0d {
        Some(Command::SetFilter)
    } else if byte == 0x0e {
        Some(Command::SetMode)
    } else if byte == 0x10 {
        Some(Command::GetLocL)
    } else if byte == 0x11 {
        Some(Command::GetLocP)
    } else if byte == 0x13 {
        Some(Command::GetTN)
    } else if byte == 0x14 {
        Some(Command::GetTD)
    } else if byte == 0x15 {
        Some(Command::SeekL)
    } else if byte == 0x16 {
        Some(Command::SeekP)
    } else if byte == 0x19 {
        Some(Command::Test)
    } else if byte == 0x1a {
        Some(Command::GetId)
    } else if byte == 0x1b {
        Some(Command::ReadS)
    } else if byte == 0x1e {
        Some(Command::ReadToc)
    } else {
        None
    }
}

/// The command sent with `byte`, if the controller knows it.
pub fn decode_command(byte: u8) -> (r: Option<Command>)
    ensures
        r == command_of_byte(byte),
{
    match byte {
        0x01 => Some(Command::GetStat),
        0x02 => Some(Command::SetLoc),
        0x03 => Some(Command::Play),
        0x06 => Some(Command::ReadN),
        0x07 => Some(Command::MotorOn),
        0x08 => Some(Command::Stop),
        0x09 => Some(Command::Pause),
        0x0a => Some(Command::Init),
        0x0b => Some(Command::Mute),
        0x0c => Some(Command::Demute),
        0x0d => Some(Command::SetFilter),
        0x0e => Some(Command::SetMode),
        0x10 => Some(Command::GetLocL),
        0x11 => Some(Command::GetLocP),
        0x13 => Some(Command::GetTN),
        0x14 => Some(Command::GetTD),
        0x15 => Some(Command::SeekL),
        0x16 => Some(Command::SeekP),
        0x19 => Some(Command::Test),
        0x1a => Some(Command::GetId),
        0x1b => Some(Command::ReadS),
        0x1e => Some(Command::ReadToc),
        _ => None,
    }
}

} // verus!
