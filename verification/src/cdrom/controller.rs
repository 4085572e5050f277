use vstd::prelude::*;

use crate::cdrom::cuebin::{CueSheet, Track};
use crate::cdrom::fifo::{BYTES_PER_SECTOR, DataFifo, idx_after_pop, pop_value};
use crate::cdrom::state::{
    AudioReportType, Command, CommandState, DriveState, ReadState, SeekNextState, SpinUpNextState,
    PREPARE_CYCLES, SECTOR_CYCLES, SPIN_UP_CYCLES, bcd_spec, binary_to_bcd, command_of_byte,
    decode_command, determine_drive_state, estimate_seek_cycles, from_bcd_spec, max_u32,
    seek_cycles_spec, seek_state, stat_spec,
};
use crate::cdrom::time::{CdTime, lemma_minus_wf, lemma_plus_wf, lemma_sector_of_time, lemma_time_of_sector, time_of_sector};
use crate::interrupts::InterruptController;
use crate::memory::AccessSize;

verus! {

/// The disc in the drive: gives the 2352 bytes of a sector of a track.
pub trait SectorReader {
    /// The bytes of sector `relative_sector_number` of track
    /// `track_number`, counted from the start of the track's data in its
    /// file.
    fn read_sector(&mut self, track_number: u8, relative_sector_number: u32) -> Vec<u8>;
}

/// A drive with no disc: every sector reads as zeros.
pub struct NoDisc;

impl SectorReader for NoDisc {
    fn read_sector(&mut self, track_number: u8, relative_sector_number: u32) -> Vec<u8> {
        vec![0u8; BYTES_PER_SECTOR]
    }
}

/// The cycles the controller takes to receive a command.
pub const RECEIVE_CYCLES: u32 = 60;

/// The state of the CD-ROM controller as the contracts see it.
#[verifier::ext_equal]
pub struct CdromView {
    pub bank: u8,
    pub response: Seq<u8>,
    pub response_read_index: usize,
    pub response_write_index: usize,
    pub parameters: Seq<u8>,
    pub parameter_index: usize,
    pub has_response: bool,
    pub int_mask: u8,
    pub int_status: u8,
    pub command_state: CommandState,
    pub drive_state: DriveState,
    pub seek_location: Option<CdTime>,
    pub sector_buffer: Seq<u8>,
    pub fifo_values: Seq<u8>,
    pub fifo_idx: usize,
    pub fifo_len: usize,
    pub raw_sectors: bool,
}

/// Every counter of a command state is at least 1.
pub open spec fn command_state_wf(c: CommandState) -> bool {
    match c {
        CommandState::Idle => true,
        CommandState::CommandQueued { cycles, .. } => cycles >= 1,
        CommandState::ReceivingCommand { cycles_remaining, .. } => cycles_remaining >= 1,
        CommandState::GeneratingSecondResponse { cycles_remaining, .. } => cycles_remaining >= 1,
    }
}

/// `n` zero bytes.
pub open spec fn zeros(n: int) -> Seq<u8> {
    Seq::new(n as nat, |i: int| 0u8)
}

/// The time of one frame.
pub open spec fn one_frame() -> CdTime {
    CdTime { minutes: 0, seconds: 0, frames: 1 }
}

/// The reply to GetId: a licensed mode 2 disc of the SCEE region.
pub open spec fn get_id_reply(stat: u8) -> Seq<u8> {
    seq![stat, 0x00, 0x20, 0x00, 0x53, 0x43, 0x45, 0x45]
}

/// The reply to Test 0x20: the controller's version date.
pub open spec fn version_reply() -> Seq<u8> {
    seq![0x95u8, 0x07, 0x24, 0xc1]
}

/// The sign-extended value of the halfword of bytes `b0` (low) and `b1`.
pub open spec fn halfword_sext(b0: u8, b1: u8) -> u32 {
    ((((b1 as u16) << 8u16) | (b0 as u16)) as i16) as u32
}

/// The little-endian word of four bytes.
pub open spec fn word_of(b0: u8, b1: u8, b2: u8, b3: u8) -> u32 {
    (b0 as u32) | ((b1 as u32) << 8u32) | ((b2 as u32) << 16u32) | ((b3 as u32) << 24u32)
}

impl CdromView {
    /// The buffers have their sizes, the indices lie within them, and the
    /// drive and command states are well formed.
    pub open spec fn wf(self) -> bool {
        &&& self.response.len() == 16
        &&& self.parameters.len() == 16
        &&& self.response_read_index < 16
        &&& self.response_write_index <= 16
        &&& self.parameter_index <= 16
        &&& self.bank < 4
        &&& self.sector_buffer.len() == BYTES_PER_SECTOR
        &&& self.fifo_values.len() == BYTES_PER_SECTOR
        &&& self.fifo_idx <= self.fifo_len <= BYTES_PER_SECTOR
        &&& self.drive_state.wf()
        &&& command_state_wf(self.command_state)
        &&& match self.seek_location {
            Some(t) => t.wf(),
            None => true,
        }
    }

    /// The drive status byte.
    pub open spec fn stat(self) -> u8 {
        stat_spec(self.drive_state)
    }

    /// Whether an interrupt (INT1 to INT7) waits to be acknowledged.
    pub open spec fn int_pending(self) -> bool {
        self.int_status & 7u8 != 0
    }

    /// The view after a reply of `bytes` is put in the response buffer,
    /// zero-padded to 16 bytes.
    pub open spec fn with_result(self, bytes: Seq<u8>) -> CdromView {
        CdromView {
            response: bytes + zeros(16 - bytes.len()),
            response_write_index: bytes.len() as usize,
            has_response: true,
            ..self
        }
    }

    /// The view after the interrupt bits `bits` are raised.
    pub open spec fn with_int(self, bits: u8) -> CdromView {
        CdromView { int_status: self.int_status | bits, ..self }
    }

    /// The view with another drive state.
    pub open spec fn with_drive(self, d: DriveState) -> CdromView {
        CdromView { drive_state: d, ..self }
    }

    /// The view with another command state.
    pub open spec fn with_command(self, c: CommandState) -> CdromView {
        CdromView { command_state: c, ..self }
    }

    /// The view after a one-byte status reply and INT3.
    pub open spec fn ack(self) -> CdromView {
        self.with_result(seq![self.stat()]).with_int(3)
    }

    /// The view after the sector at `time` is read into the sector buffer
    /// as `sector`, with the read moving on to the next frame.
    pub open spec fn read_data_sector(self, sector: Seq<u8>, time: CdTime) -> CdromView {
        CdromView {
            sector_buffer: sector,
            drive_state: DriveState::Reading(
                ReadState {
                    time: time.plus(one_frame()),
                    int1_generated: false,
                    cycles_till_next_sector: SECTOR_CYCLES,
                },
            ),
            ..self
        }
    }

    /// The bytes of the sector buffer handed to the CPU: from byte 12 to
    /// the end in raw mode, else the 2048 data bytes from byte 24.
    pub open spec fn sector_payload(self) -> Seq<u8> {
        if self.raw_sectors {
            self.sector_buffer.subrange(12, 2352)
        } else {
            self.sector_buffer.subrange(24, 2072)
        }
    }

    /// The view after the data FIFO is filled from the sector buffer.
    pub open spec fn fill_fifo(self) -> CdromView {
        let data = self.sector_payload();
        CdromView {
            fifo_values: data + self.fifo_values.subrange(data.len() as int, BYTES_PER_SECTOR as int),
            fifo_idx: 0,
            fifo_len: data.len() as usize,
            ..self
        }
    }

    /// The time of the sector the next drive step reads, if it reads one.
    pub open spec fn drive_read_time(self) -> Option<CdTime> {
        match self.drive_state {
            DriveState::PreparingToRead { time, cycles_remaining } => if cycles_remaining == 1 {
                Some(time)
            } else {
                None
            },
            DriveState::Reading(rs) => if rs.cycles_till_next_sector == 1 {
                Some(rs.time)
            } else {
                None
            },
            _ => None,
        }
    }

    /// Whether the next drive step is defined: it starts no audio playback
    /// and reads no sector past the end of the disc.
    pub open spec fn drive_defined(self, cue: CueSheet) -> bool {
        &&& match self.drive_state {
            DriveState::PreparingToPlay { cycles_remaining, .. } => cycles_remaining != 1,
            DriveState::Playing(_) => false,
            _ => true,
        }
        &&& match self.drive_read_time() {
            Some(t) => cue.track_at(t) is Some,
            None => true,
        }
    }

    /// One cycle of the drive mechanism; `sector` is what the disc gives
    /// when the step reads a sector.
    pub open spec fn drive_step(self, sector: Seq<u8>) -> CdromView {
        match self.drive_state {
            DriveState::Stopped => self,
            DriveState::SpinningUp { cycles_remaining, next } => if cycles_remaining == 1 {
                match next {
                    SpinUpNextState::Pause => self.with_drive(
                        DriveState::Paused { time: CdTime::zero_spec(), int2_queued: true },
                    ),
                    SpinUpNextState::Seek(time, seek_next) => self.with_drive(
                        DriveState::Seeking {
                            destination: time,
                            cycles_remaining: max_u32(24, seek_cycles_spec(CdTime::zero_spec(), time)) as u32,
                            next: seek_next,
                        },
                    ),
                }
            } else {
                self.with_drive(DriveState::SpinningUp { cycles_remaining: (cycles_remaining - 1) as u32, next })
            },
            DriveState::Seeking { destination, cycles_remaining, next } => if cycles_remaining == 1 {
                match next {
                    SeekNextState::Pause => self.with_drive(
                        DriveState::Paused { time: destination, int2_queued: true },
                    ),
                    SeekNextState::Read => self.with_drive(
                        DriveState::PreparingToRead { time: destination, cycles_remaining: PREPARE_CYCLES },
                    ),
                    SeekNextState::Play => self.with_drive(
                        DriveState::PreparingToPlay { time: destination, cycles_remaining: PREPARE_CYCLES },
                    ),
                }
            } else {
                self.with_drive(
                    DriveState::Seeking { destination, cycles_remaining: (cycles_remaining - 1) as u32, next },
                )
            },
            DriveState::PreparingToRead { time, cycles_remaining } => if cycles_remaining == 1 {
                self.read_data_sector(sector, time)
            } else {
                self.with_drive(DriveState::PreparingToRead { time, cycles_remaining: (cycles_remaining - 1) as u32 })
            },
            DriveState::Reading(rs) => if rs.cycles_till_next_sector == 1 {
                self.read_data_sector(sector, rs.time)
            } else if !rs.int1_generated && !self.int_pending()
                && !(self.command_state is ReceivingCommand) {
                self.with_result(seq![self.stat()]).with_int(1).fill_fifo().with_drive(
                    DriveState::Reading(
                        ReadState {
                            time: rs.time,
                            int1_generated: true,
                            cycles_till_next_sector: (rs.cycles_till_next_sector - 1) as u32,
                        },
                    ),
                )
            } else {
                self.with_drive(
                    DriveState::Reading(
                        ReadState {
                            time: rs.time,
                            int1_generated: rs.int1_generated,
                            cycles_till_next_sector: (rs.cycles_till_next_sector - 1) as u32,
                        },
                    ),
                )
            },
            DriveState::PreparingToPlay { time, cycles_remaining } => self.with_drive(
                DriveState::PreparingToPlay { time, cycles_remaining: (cycles_remaining - 1) as u32 },
            ),
            DriveState::Playing(_) => self,
            DriveState::Paused { time, int2_queued } => if int2_queued && !self.int_pending() {
                self.with_result(seq![self.stat()]).with_int(2).with_drive(
                    DriveState::Paused { time, int2_queued: false },
                )
            } else {
                self
            },
        }
    }

    /// Where a seek or a read goes: the location set by SetLoc, or else the
    /// current time.
    pub open spec fn seek_target(self) -> CdTime {
        match self.seek_location {
            Some(t) => t,
            None => self.drive_state.time_spec(),
        }
    }

    /// The time of SetLoc's three BCD parameters.
    pub open spec fn set_loc_time(self) -> CdTime {
        CdTime {
            minutes: from_bcd_spec(self.parameters[0]) as u8,
            seconds: from_bcd_spec(self.parameters[1]) as u8,
            frames: from_bcd_spec(self.parameters[2]) as u8,
        }
    }

    /// Whether the controller can execute `command` in this state.
    pub open spec fn execute_defined(self, command: Command) -> bool {
        match command {
            Command::GetStat | Command::Demute | Command::GetId | Command::ReadToc
            | Command::SetFilter | Command::SetMode | Command::Init | Command::SeekL
            | Command::GetLocP | Command::ReadN | Command::ReadS | Command::Pause => true,
            Command::SetLoc => self.parameter_index == 3 && from_bcd_spec(self.parameters[0]) < 80
                && from_bcd_spec(self.parameters[1]) < 60 && from_bcd_spec(self.parameters[2]) < 75,
            Command::Test => self.parameters[0] == 0x20,
            _ => false,
        }
    }

    /// The reply to GetLocP: the track, index and relative time of the
    /// current position, then its absolute time, all in BCD.
    pub open spec fn location_reply(self, cue: CueSheet) -> Seq<u8> {
        let absolute = self.drive_state.time_spec();
        let (track_number, index, relative) = match cue.track_at(absolute) {
            None => (0xaau8, 0u8, CdTime::zero_spec()),
            Some(track) => {
                let start = track.effective_start();
                (
                    bcd_spec(track.number),
                    if absolute.before(start) { 0u8 } else { 1u8 },
                    time_of_sector(
                        if absolute.sector() >= start.sector() { absolute.sector() - start.sector() } else { 0 },
                    ),
                )
            },
        };
        seq![
            track_number,
            index,
            bcd_spec(relative.minutes),
            bcd_spec(relative.seconds),
            bcd_spec(relative.frames),
            bcd_spec(absolute.minutes),
            bcd_spec(absolute.seconds),
            bcd_spec(absolute.frames)
        ]
    }

    /// The effects of executing `command`, but for the command state.
    pub open spec fn execute(self, command: Command, cue: CueSheet) -> CdromView {
        match command {
            Command::GetStat | Command::Demute | Command::GetId | Command::ReadToc => self.ack(),
            Command::SetFilter => CdromView { parameter_index: 0, ..self }.ack(),
            Command::SetMode => CdromView {
                parameter_index: 0,
                raw_sectors: self.parameters[0] & 0x20u8 != 0,
                ..self
            }.ack(),
            Command::SetLoc => CdromView {
                parameter_index: 0,
                seek_location: Some(self.set_loc_time()),
                ..self
            }.ack(),
            Command::Init => {
                let d = if self.drive_state is Stopped || self.drive_state is SpinningUp {
                    self.drive_state
                } else {
                    DriveState::Paused { time: self.drive_state.time_spec(), int2_queued: false }
                };
                let v = self.with_drive(d).ack();
                match d {
                    DriveState::Stopped => v.with_drive(
                        DriveState::SpinningUp { cycles_remaining: SPIN_UP_CYCLES, next: SpinUpNextState::Pause },
                    ),
                    DriveState::SpinningUp { cycles_remaining, .. } => v.with_drive(
                        DriveState::SpinningUp { cycles_remaining, next: SpinUpNextState::Pause },
                    ),
                    _ => v,
                }
            },
            Command::SeekL => CdromView {
                seek_location: None,
                drive_state: seek_state(self.drive_state, self.seek_target(), SeekNextState::Pause),
                ..self.ack()
            },
            Command::GetLocP => self.with_result(self.location_reply(cue)).with_int(3),
            Command::ReadN | Command::ReadS => {
                let v = CdromView { seek_location: None, ..self.ack() };
                match self.drive_state {
                    DriveState::Reading(rs) => if rs.time == self.seek_target() {
                        v
                    } else {
                        v.with_drive(seek_state(self.drive_state, self.seek_target(), SeekNextState::Read))
                    },
                    _ => v.with_drive(seek_state(self.drive_state, self.seek_target(), SeekNextState::Read)),
                }
            },
            Command::Pause => self.ack().with_drive(
                DriveState::Paused { time: self.drive_state.time_spec(), int2_queued: false },
            ),
            Command::Test => CdromView { parameter_index: 0, ..self }.with_result(version_reply()).with_int(3),
            _ => self,
        }
    }

    /// The command state after executing `command`.
    pub open spec fn execute_next(self, command: Command) -> CommandState {
        match command {
            Command::GetId => CommandState::GeneratingSecondResponse { command: Command::GetId, cycles_remaining: 24 },
            Command::ReadToc => CommandState::GeneratingSecondResponse { command: Command::ReadToc, cycles_remaining: 44 },
            Command::Pause => CommandState::GeneratingSecondResponse {
                command: Command::Pause,
                cycles_remaining: PREPARE_CYCLES,
            },
            Command::Init => if self.drive_state is Stopped || self.drive_state is SpinningUp {
                CommandState::Idle
            } else {
                CommandState::GeneratingSecondResponse { command: Command::Init, cycles_remaining: 24 }
            },
            _ => CommandState::Idle,
        }
    }

    /// Whether `command` has a second response.
    pub open spec fn second_defined(command: Command) -> bool {
        command is GetId || command is Init || command is Pause || command is ReadToc
    }

    /// The second response to `command`, with INT2; the command is then
    /// done.
    pub open spec fn second_response(self, command: Command) -> CdromView {
        let reply = if command is GetId { get_id_reply(self.stat()) } else { seq![self.stat()] };
        self.with_result(reply).with_int(2).with_command(CommandState::Idle)
    }

    /// One cycle of the command logic.
    pub open spec fn command_step(self, cue: CueSheet) -> CdromView {
        match self.command_state {
            CommandState::Idle => self,
            CommandState::CommandQueued { command, cycles } => if self.int_pending() {
                self.with_command(CommandState::ReceivingCommand { command, cycles_remaining: cycles })
            } else {
                self
            },
            CommandState::ReceivingCommand { command, cycles_remaining } => if cycles_remaining == 1 {
                self.execute(command, cue).with_command(self.execute_next(command))
            } else {
                self.with_command(
                    CommandState::ReceivingCommand { command, cycles_remaining: (cycles_remaining - 1) as u32 },
                )
            },
            CommandState::GeneratingSecondResponse { command, cycles_remaining } => if cycles_remaining
                == 1 {
                if !self.int_pending() {
                    self.second_response(command)
                } else {
                    self
                }
            } else {
                self.with_command(
                    CommandState::GeneratingSecondResponse {
                        command,
                        cycles_remaining: (cycles_remaining - 1) as u32,
                    },
                )
            },
        }
    }

    /// Whether the next command step is defined.
    pub open spec fn command_defined(self) -> bool {
        match self.command_state {
            CommandState::ReceivingCommand { command, cycles_remaining } => cycles_remaining == 1
                ==> self.execute_defined(command),
            CommandState::GeneratingSecondResponse { command, cycles_remaining } => (cycles_remaining
                == 1 && !self.int_pending()) ==> CdromView::second_defined(command),
            _ => true,
        }
    }

    /// One cycle of the controller: the drive, then the command logic.
    pub open spec fn clock_spec(self, sector: Seq<u8>, cue: CueSheet) -> CdromView {
        self.drive_step(sector).command_step(cue)
    }

    /// Whether the next cycle is defined.
    pub open spec fn clock_defined(self, cue: CueSheet) -> bool {
        self.drive_defined(cue) && self.drive_step(self.sector_buffer).command_defined()
    }

    /// The status register (offset 0): the bank, bit 3 always, bit 4 room
    /// for parameters, bit 5 a response to read, bit 6 data in the FIFO,
    /// bit 7 a command being received.
    pub open spec fn status_register(self) -> u32 {
        let receiving = self.command_state is CommandQueued || self.command_state is ReceivingCommand;
        (self.bank as u32) | 8u32 | (if self.has_response { 0x20u32 } else { 0u32 }) | (if receiving {
            0x80u32
        } else {
            0u32
        }) | (if self.parameter_index == 0 { 8u32 } else { 0u32 }) | (if self.parameter_index < 16 {
            0x10u32
        } else {
            0u32
        }) | (if self.fifo_idx != self.fifo_len { 0x40u32 } else { 0u32 })
    }

    /// The view after a read of the response register; the next byte comes
    /// from the next index, wrapping after 16, and the response is all read
    /// once that index meets the write index.
    pub open spec fn after_response_read(self) -> CdromView {
        let next = if self.response_read_index + 1 >= 16 { 0 } else { self.response_read_index + 1 };
        CdromView {
            response_read_index: next as usize,
            has_response: if self.response_write_index == next { false } else { self.has_response },
            ..self
        }
    }

    /// The byte a read of the data FIFO gives.
    pub open spec fn fifo_byte(self) -> u8 {
        pop_value(self.fifo_values, self.fifo_idx as int, self.fifo_len as int)
    }

    /// The view after a read of the data FIFO.
    pub open spec fn after_fifo_read(self) -> CdromView {
        CdromView { fifo_idx: idx_after_pop(self.fifo_idx as int, self.fifo_len as int) as usize, ..self }
    }

    /// The interrupt register (offset 3): the mask in banks 0 and 2, else
    /// the status, with bits 5 to 7 set.
    pub open spec fn interrupt_register(self) -> u32 {
        if self.bank == 0 || self.bank == 2 {
            self.int_mask as u32 | 0xe0u32
        } else {
            self.int_status as u32 | 0xe0u32
        }
    }

    /// Whether a write of `value` at register `offset` is defined: the
    /// command register takes only known commands.
    pub open spec fn write_defined(self, offset: u32, value: u32) -> bool {
        offset <= 3 && (offset == 1 && self.bank == 0 ==> command_of_byte(value as u8) is Some)
    }

    /// The view after a write of `value` at register `offset`.
    pub open spec fn write_spec(self, offset: u32, value: u32) -> CdromView {
        if offset == 0 {
            CdromView { bank: (value & 3) as u8, ..self }
        } else if offset == 1 {
            if self.bank == 0 {
                self.with_command(
                    CommandState::ReceivingCommand {
                        command: command_of_byte(value as u8)->Some_0,
                        cycles_remaining: RECEIVE_CYCLES,
                    },
                )
            } else {
                self
            }
        } else if offset == 2 {
            if self.bank == 0 {
                if self.parameter_index < 16 {
                    CdromView {
                        parameters: self.parameters.update(self.parameter_index as int, (value & 0xff) as u8),
                        parameter_index: (self.parameter_index + 1) as usize,
                        ..self
                    }
                } else {
                    self
                }
            } else if self.bank == 1 {
                CdromView { int_mask: (value & 0x1f) as u8, ..self }
            } else {
                self
            }
        } else {
            if self.bank == 1 {
                CdromView { int_status: self.int_status & !(value as u8), ..self }
            } else {
                self
            }
        }
    }
}

/// Whether the command step after a drive step is defined does not depend
/// on the sector the drive step reads.
pub proof fn lemma_command_defined_any_sector(v: CdromView, s1: Seq<u8>, s2: Seq<u8>)
    ensures
        v.drive_step(s1).command_defined() == v.drive_step(s2).command_defined(),
{
}

/// The CD-ROM controller: the registers the CPU sees, the command and drive
/// state machines, and the disc.
pub struct Cdrom<R: SectorReader> {
    pub bank: u8,
    pub response: [u8; 16],
    pub response_read_index: usize,
    pub response_write_index: usize,
    pub parameters: [u8; 16],
    pub parameter_index: usize,
    pub has_response: bool,
    pub int_mask: u8,
    pub int_status: u8,
    pub command_state: CommandState,
    pub drive_state: DriveState,
    pub seek_location: Option<CdTime>,
    pub sector_buffer: Vec<u8>,
    pub disc: R,
    pub cue: CueSheet,
    pub data_fifo: DataFifo,
    pub raw_sectors: bool,
}

/// The sector buffer after loading `data`, the bytes a disc read gave:
/// each byte the data holds replaces the buffer's, the others stay.
pub open spec fn loaded_sector(buffer: Seq<u8>, data: Seq<u8>) -> Seq<u8> {
    Seq::new(buffer.len(), |i: int| if i < data.len() { data[i] } else { buffer[i] })
}

impl<R: SectorReader> View for Cdrom<R> {
    type V = CdromView;

    open spec fn view(&self) -> CdromView {
        CdromView {
            bank: self.bank,
            response: self.response@,
            response_read_index: self.response_read_index,
            response_write_index: self.response_write_index,
            parameters: self.parameters@,
            parameter_index: self.parameter_index,
            has_response: self.has_response,
            int_mask: self.int_mask,
            int_status: self.int_status,
            command_state: self.command_state,
            drive_state: self.drive_state,
            seek_location: self.seek_location,
            sector_buffer: self.sector_buffer@,
            fifo_values: self.data_fifo.values@,
            fifo_idx: self.data_fifo.idx,
            fifo_len: self.data_fifo.len,
            raw_sectors: self.raw_sectors,
        }
    }
}

impl<R: SectorReader> Cdrom<R> {
    /// The view is well formed and the CUE sheet is ordered from the start
    /// of the disc.
    pub open spec fn wf(&self) -> bool {
        &&& self@.wf()
        &&& self.cue.wf()
        &&& self.cue.ordered()
    }

    /// A controller with the disc described by `cue` in the drive, the
    /// motor stopped and nothing pending.
    pub fn new(cue: CueSheet, disc: R) -> (r: Cdrom<R>)
        requires
            cue.wf(),
            cue.ordered(),
        ensures
            r.wf(),
            r.cue == cue,
            r@.bank == 0,
            r@.response == zeros(16),
            r@.response_read_index == 0,
            r@.response_write_index == 0,
            r@.parameters == zeros(16),
            r@.parameter_index == 0,
            !r@.has_response,
            r@.int_mask == 0,
            r@.int_status == 0,
            r@.command_state == CommandState::Idle,
            r@.drive_state == DriveState::Stopped,
            r@.seek_location is None,
            r@.sector_buffer == zeros(2352),
            r@.fifo_values == zeros(2352),
            r@.fifo_idx == 0,
            r@.fifo_len == 0,
            !r@.raw_sectors,
    {
        let r = Cdrom {
            bank: 0,
            response: [0u8; 16],
            response_read_index: 0,
            response_write_index: 0,
            parameters: [0u8; 16],
            parameter_index: 0,
            has_response: false,
            int_mask: 0,
            int_status: 0,
            command_state: CommandState::Idle,
            drive_state: DriveState::Stopped,
            seek_location: None,
            sector_buffer: vec![0u8; BYTES_PER_SECTOR],
            disc,
            cue,
            data_fifo: DataFifo::new(),
            raw_sectors: false,
        };
        assert(r@.response =~= zeros(16));
        assert(r@.parameters =~= zeros(16));
        assert(r@.sector_buffer =~= zeros(2352));
        assert(r@.fifo_values =~= zeros(2352));
        r
    }

    /// Puts `result` in the response buffer, zero-padded to 16 bytes.
    fn write_result(&mut self, result: &[u8])
        requires
            old(self).wf(),
            result@.len() <= 16,
        ensures
            final(self).wf(),
            final(self)@ == old(self)@.with_result(result@),
            final(self).cue == old(self).cue,
    {
        let mut response = [0u8; 16];
        let mut j: usize = 0;
        while j < result.len()
            invariant
                j <= result@.len() <= 16,
                response@.len() == 16,
                forall|k: int| 0 <= k < j ==> response@[k] == result@[k],
                forall|k: int| j <= k < 16 ==> response@[k] == 0,
            decreases result@.len() - j,
        {
            response[j] = result[j];
            j = j + 1;
        }
        self.response = response;
        self.response_write_index = result.len();
        self.has_response = true;
        assert(self@.response =~= result@ + zeros(16 - result@.len()));
        assert(self@ =~= old(self)@.with_result(result@));
    }

    /// Reads the controller register at `address` (0x1f80_1800 to
    /// 0x1f80_1803): the status, the next response byte, data from the
    /// FIFO (a byte, a sign-extended halfword or a word), or the interrupt
    /// mask or status.
    pub fn read(&mut self, address: u32, size: AccessSize) -> (r: u32)
        requires
            old(self).wf(),
            0x1f80_1800 <= address <= 0x1f80_1803,
        ensures
            final(self).wf(),
            final(self).cue == old(self).cue,
            address == 0x1f80_1800 ==> r == old(self)@.status_register() && final(self)@ == old(self)@,
            address == 0x1f80_1801 ==> r == old(self)@.response[old(self)@.response_read_index as int] as u32
                && final(self)@ == old(self)@.after_response_read(),
            address == 0x1f80_1802 ==> match size {
                AccessSize::Byte => r == old(self)@.fifo_byte() as u32 && final(self)@
                    == old(self)@.after_fifo_read(),
                AccessSize::HalfWord => {
                    let v1 = old(self)@.after_fifo_read();
                    r == halfword_sext(old(self)@.fifo_byte(), v1.fifo_byte()) && final(self)@
                        == v1.after_fifo_read()
                },
                AccessSize::Word => {
                    let v1 = old(self)@.after_fifo_read();
                    let v2 = v1.after_fifo_read();
                    let v3 = v2.after_fifo_read();
                    r == word_of(old(self)@.fifo_byte(), v1.fifo_byte(), v2.fifo_byte(), v3.fifo_byte())
                        && final(self)@ == v3.after_fifo_read()
                },
            },
            address == 0x1f80_1803 ==> r == old(self)@.interrupt_register() && final(self)@ == old(self)@,
    {
        let offset = address - 0x1f80_1800;
        if offset == 0 {
            let receiving_command = matches!(
                self.command_state,
                CommandState::CommandQueued { .. } | CommandState::ReceivingCommand { .. }
            );
            (self.bank as u32) | 8u32 | (if self.has_response { 0x20u32 } else { 0u32 }) | (
            if receiving_command {
                0x80u32
            } else {
                0u32
            }) | (if self.parameter_index == 0 { 8u32 } else { 0u32 }) | (if self.parameter_index
                < 16 {
                0x10u32
            } else {
                0u32
            }) | (if !self.data_fifo.fully_consumed() { 0x40u32 } else { 0u32 })
        } else if offset == 1 {
            let data = self.response[self.response_read_index];
            self.response_read_index = self.response_read_index + 1;
            if self.response_read_index >= 16 {
                self.response_read_index = 0;
            }
            if self.response_write_index == self.response_read_index {
                self.has_response = false;
            }
            assert(self@ =~= old(self)@.after_response_read());
            data as u32
        } else if offset == 2 {
            match size {
                AccessSize::Byte => self.get_sector_byte() as u32,
                AccessSize::HalfWord => {
                    let b0 = self.get_sector_byte();
                    let b1 = self.get_sector_byte();
                    ((((b1 as u16) << 8u16) | (b0 as u16)) as i16) as u32
                },
                AccessSize::Word => {
                    let b0 = self.get_sector_byte();
                    let b1 = self.get_sector_byte();
                    let b2 = self.get_sector_byte();
                    let b3 = self.get_sector_byte();
                    (b0 as u32) | ((b1 as u32) << 8u32) | ((b2 as u32) << 16u32) | ((b3 as u32) << 24u32)
                },
            }
        } else {
            if self.bank == 0 || self.bank == 2 {
                self.int_mask as u32 | 0xe0u32
            } else {
                self.int_status as u32 | 0xe0u32
            }
        }
    }

    /// Writes `value` to the controller register at `address`
    /// (0x1f80_1800 to 0x1f80_1803): the bank, a command, a parameter, the
    /// interrupt mask, or an acknowledgement of interrupts.
    pub fn write(&mut self, address: u32, value: u32)
        requires
            old(self).wf(),
            0x1f80_1800 <= address,
            old(self)@.write_defined((address - 0x1f80_1800) as u32, value),
        ensures
            final(self).wf(),
            final(self).cue == old(self).cue,
            final(self)@ == old(self)@.write_spec((address - 0x1f80_1800) as u32, value),
    {
        let offset = address - 0x1f80_1800;
        if offset == 0 {
            self.bank = (value & 0x03) as u8;
            assert((value & 0x03) < 4) by (bit_vector);
        } else if offset == 1 {
            if self.bank == 0 {
                self.write_command(value as u8);
            }
        } else if offset == 2 {
            if self.bank == 0 {
                if self.parameter_index < 16 {
                    self.parameters[self.parameter_index] = (value & 0xff) as u8;
                    self.parameter_index = self.parameter_index + 1;
                }
            } else if self.bank == 1 {
                self.int_mask = (value & 0x1f) as u8;
            }
        } else {
            if self.bank == 1 {
                self.int_status = self.int_status & !(value as u8);
            }
        }
        assert(self@ =~= old(self)@.write_spec(offset, value));
    }

    /// Reads the next byte of the data FIFO.
    pub fn get_sector_byte(&mut self) -> (r: u8)
        requires
            old(self).wf(),
        ensures
            final(self).wf(),
            final(self).cue == old(self).cue,
            r == old(self)@.fifo_byte(),
            final(self)@ == old(self)@.after_fifo_read(),
    {
        let r = self.data_fifo.pop();
        assert(self@ =~= old(self)@.after_fifo_read());
        r
    }

    /// The drive status byte.
    fn stat(&self) -> (r: u8)
        ensures
            r == self@.stat(),
    {
        let motor_on = !matches!(self.drive_state, DriveState::Stopped | DriveState::SpinningUp { .. });
        let seeking = matches!(self.drive_state, DriveState::Seeking { .. });
        let reading = matches!(self.drive_state, DriveState::PreparingToRead { .. } | DriveState::Reading(_));
        let playing = matches!(self.drive_state, DriveState::PreparingToPlay { .. } | DriveState::Playing(_));
        (if motor_on { 2u8 } else { 0u8 }) | (if reading { 0x20u8 } else { 0u8 }) | (if seeking {
            0x40u8
        } else {
            0u8
        }) | (if playing { 0x80u8 } else { 0u8 })
    }

    /// Raises INT1.
    fn emit_int1(&mut self)
        requires
            old(self).wf(),
        ensures
            final(self).wf(),
            final(self).cue == old(self).cue,
            final(self)@ == old(self)@.with_int(1),
    {
        self.int_status = self.int_status | 0x01;
    }

    /// Raises INT2.
    fn emit_int2(&mut self)
        requires
            old(self).wf(),
        ensures
            final(self).wf(),
            final(self).cue == old(self).cue,
            final(self)@ == old(self)@.with_int(2),
    {
        self.int_status = self.int_status | 0x02;
    }

    /// Raises INT3 (the bits of INT1 and INT2).
    fn emit_int3(&mut self)
        requires
            old(self).wf(),
        ensures
            final(self).wf(),
            final(self).cue == old(self).cue,
            final(self)@ == old(self)@.with_int(3),
    {
        self.int_status = self.int_status | 0x03;
    }

    /// Replies with the status byte and INT3.
    fn acknowledge(&mut self)
        requires
            old(self).wf(),
        ensures
            final(self).wf(),
            final(self).cue == old(self).cue,
            final(self)@ == old(self)@.ack(),
    {
        let st = self.stat();
        let reply = [st];
        assert(reply@ =~= seq![old(self)@.stat()]);
        self.write_result(&reply);
        self.emit_int3();
    }

    /// Where a seek or read goes; the location set by SetLoc is used up.
    fn take_seek_location(&mut self) -> (r: CdTime)
        requires
            old(self).wf(),
        ensures
            final(self).wf(),
            final(self).cue == old(self).cue,
            r == old(self)@.seek_target(),
            r.wf(),
            final(self)@ == (CdromView { seek_location: None, ..old(self)@ }),
    {
        let r = match self.seek_location {
            Some(t) => t,
            None => self.drive_state.current_time(),
        };
        self.seek_location = None;
        assert(self@ =~= (CdromView { seek_location: None, ..old(self)@ }));
        r
    }

    /// SetLoc: takes the BCD minutes, seconds and frames of the three
    /// parameters as the location of the next seek or read.
    fn execute_set_loc(&mut self) -> (r: CommandState)
        requires
            old(self).wf(),
            old(self)@.execute_defined(Command::SetLoc),
        ensures
            final(self).wf(),
            final(self).cue == old(self).cue,
            final(self)@ == old(self)@.execute(Command::SetLoc, old(self).cue),
            r == old(self)@.execute_next(Command::SetLoc),
    {
        let minutes = self.parameters[0];
        let seconds = self.parameters[1];
        let frames = self.parameters[2];
        self.parameter_index = 0;
        proof {
            crate::bits::lemma_nibbles(minutes);
            crate::bits::lemma_nibbles(seconds);
            crate::bits::lemma_nibbles(frames);
        }
        let minutes = (minutes >> 4u8) * 10 + (minutes & 0x0f);
        let seconds = (seconds >> 4u8) * 10 + (seconds & 0x0f);
        let frames = (frames >> 4u8) * 10 + (frames & 0x0f);
        let cdtime = CdTime::new(minutes, seconds, frames);
        self.seek_location = Some(cdtime);
        self.acknowledge();
        CommandState::Idle
    }

    /// ReadN and ReadS: acknowledges, then seeks to the read location
    /// unless the drive already reads there.
    fn execute_read(&mut self, command: Command) -> (r: CommandState)
        requires
            old(self).wf(),
            command is ReadN || command is ReadS,
        ensures
            final(self).wf(),
            final(self).cue == old(self).cue,
            final(self)@ == old(self)@.execute(command, old(self).cue),
            r == old(self)@.execute_next(command),
    {
        self.acknowledge();
        let seek_location = self.take_seek_location();
        if let DriveState::Reading(rs) = self.drive_state {
            if rs.time == seek_location {
                return CommandState::Idle;
            }
        }
        self.drive_state = determine_drive_state(self.drive_state, seek_location, SeekNextState::Read);
        CommandState::Idle
    }

    /// GetLocP: replies with the track, index and times of the current
    /// position.
    fn execute_get_loc_p(&mut self) -> (r: CommandState)
        requires
            old(self).wf(),
        ensures
            final(self).wf(),
            final(self).cue == old(self).cue,
            final(self)@ == old(self)@.execute(Command::GetLocP, old(self).cue),
            r == old(self)@.execute_next(Command::GetLocP),
    {
        let absolute_time = self.drive_state.current_time();
        proof {
            lemma_sector_of_time(absolute_time);
        }
        let track = self.cue.find_track_by_time(absolute_time);
        let (track_number, index, relative_time) = match track {
            None => (0xaau8, 0u8, CdTime::zero()),
            Some(track) => {
                proof {
                    let i = choose|i: int| self.cue.holds(i, absolute_time);
                    assert(self.cue.tracks@[i].wf());
                }
                let track_number = binary_to_bcd(track.number);
                let start = track.effective_start_time();
                let index: u8 = if absolute_time.is_before(&start) { 0 } else { 1 };
                let a = absolute_time.to_sector_number();
                let b = start.to_sector_number();
                let relative = if a >= b { a - b } else { 0 };
                (track_number, index, CdTime::from_sector_number(relative))
            },
        };
        let reply = [
            track_number,
            index,
            binary_to_bcd(relative_time.minutes),
            binary_to_bcd(relative_time.seconds),
            binary_to_bcd(relative_time.frames),
            binary_to_bcd(absolute_time.minutes),
            binary_to_bcd(absolute_time.seconds),
            binary_to_bcd(absolute_time.frames),
        ];
        assert(reply@ =~= old(self)@.location_reply(old(self).cue));
        self.write_result(&reply);
        self.emit_int3();
        CommandState::Idle
    }

    /// Executes a received command: replies, raises INT3, changes the drive
    /// state as the command asks, and returns the next command state.
    fn execute_command(&mut self, command: Command) -> (r: CommandState)
        requires
            old(self).wf(),
            old(self)@.execute_defined(command),
        ensures
            final(self).wf(),
            final(self).cue == old(self).cue,
            final(self)@ == old(self)@.execute(command, old(self).cue),
            r == old(self)@.execute_next(command),
            command_state_wf(r),
    {
        match command {
            Command::GetStat | Command::Demute => {
                self.acknowledge();
                CommandState::Idle
            },
            Command::GetId => {
                self.acknowledge();
                CommandState::GeneratingSecondResponse { command: Command::GetId, cycles_remaining: 24 }
            },
            Command::ReadToc => {
                self.acknowledge();
                CommandState::GeneratingSecondResponse { command: Command::ReadToc, cycles_remaining: 44 }
            },
            Command::SetFilter => {
                self.acknowledge();
                self.parameter_index = 0;
                assert(self@ =~= old(self)@.execute(command, old(self).cue));
                CommandState::Idle
            },
            Command::SetMode => {
                let mode = self.parameters[0];
                self.parameter_index = 0;
                self.raw_sectors = mode & 0x20 != 0;
                self.acknowledge();
                CommandState::Idle
            },
            Command::SetLoc => self.execute_set_loc(),
            Command::Init => {
                if !matches!(self.drive_state, DriveState::Stopped | DriveState::SpinningUp { .. }) {
                    self.drive_state = DriveState::Paused {
                        time: self.drive_state.current_time(),
                        int2_queued: false,
                    };
                }
                self.acknowledge();
                match self.drive_state {
                    DriveState::Stopped => {
                        self.drive_state = DriveState::SpinningUp {
                            cycles_remaining: SPIN_UP_CYCLES,
                            next: SpinUpNextState::Pause,
                        };
                        CommandState::Idle
                    },
                    DriveState::SpinningUp { cycles_remaining, .. } => {
                        self.drive_state = DriveState::SpinningUp { cycles_remaining, next: SpinUpNextState::Pause };
                        CommandState::Idle
                    },
                    _ => CommandState::GeneratingSecondResponse { command: Command::Init, cycles_remaining: 24 },
                }
            },
            Command::SeekL => {
                self.acknowledge();
                let seek_location = self.take_seek_location();
                self.drive_state = determine_drive_state(self.drive_state, seek_location, SeekNextState::Pause);
                assert(self@ =~= old(self)@.execute(command, old(self).cue));
                CommandState::Idle
            },
            Command::GetLocP => self.execute_get_loc_p(),
            Command::ReadN | Command::ReadS => self.execute_read(command),
            Command::Pause => {
                self.acknowledge();
                self.drive_state = DriveState::Paused { time: self.drive_state.current_time(), int2_queued: false };
                CommandState::GeneratingSecondResponse { command: Command::Pause, cycles_remaining: PREPARE_CYCLES }
            },
            Command::Test => {
                self.parameter_index = 0;
                let reply = [0x95u8, 0x07, 0x24, 0xc1];
                assert(reply@ =~= version_reply());
                self.write_result(&reply);
                self.emit_int3();
                CommandState::Idle
            },
            _ => {
                assert(false);
                CommandState::Idle
            },
        }
    }

    /// The second response to GetId, Init, Pause or ReadToc: the status
    /// (for GetId, the disc identification too) with INT2.
    fn generate_second_response(&mut self, command: Command) -> (r: CommandState)
        requires
            old(self).wf(),
            CdromView::second_defined(command),
        ensures
            final(self).wf(),
            final(self).cue == old(self).cue,
            final(self)@ == old(self)@.second_response(command).with_command(old(self)@.command_state),
            r == CommandState::Idle,
    {
        let st = self.stat();
        if matches!(command, Command::GetId) {
            let reply = [st, 0x00, 0x20, 0x00, 0x53, 0x43, 0x45, 0x45];
            assert(reply@ =~= get_id_reply(st));
            self.write_result(&reply);
        } else {
            let reply = [st];
            assert(reply@ =~= seq![st]);
            self.write_result(&reply);
        }
        self.emit_int2();
        CommandState::Idle
    }

    /// One cycle of the command logic.
    fn command_state_machine(&mut self)
        requires
            old(self).wf(),
            old(self)@.command_defined(),
        ensures
            final(self).wf(),
            final(self).cue == old(self).cue,
            final(self)@ == old(self)@.command_step(old(self).cue),
    {
        let next = match self.command_state {
            CommandState::Idle => CommandState::Idle,
            CommandState::CommandQueued { command, cycles } => {
                if (self.int_status & 7) != 0 {
                    CommandState::ReceivingCommand { command, cycles_remaining: cycles }
                } else {
                    CommandState::CommandQueued { command, cycles }
                }
            },
            CommandState::ReceivingCommand { command, cycles_remaining } => {
                if cycles_remaining == 1 {
                    self.execute_command(command)
                } else {
                    CommandState::ReceivingCommand { command, cycles_remaining: cycles_remaining - 1 }
                }
            },
            CommandState::GeneratingSecondResponse { command, cycles_remaining } => {
                if cycles_remaining == 1 {
                    if (self.int_status & 7) == 0 {
                        self.generate_second_response(command)
                    } else {
                        CommandState::GeneratingSecondResponse { command, cycles_remaining: 1 }
                    }
                } else {
                    CommandState::GeneratingSecondResponse { command, cycles_remaining: cycles_remaining - 1 }
                }
            },
        };
        self.command_state = next;
        assert(self@ =~= old(self)@.command_step(old(self).cue));
    }

    /// The track that holds `time` and the sector of `time` counted from
    /// the track's start: what the disc is asked for to read `time`.
    fn sector_location(&self, time: CdTime) -> (r: (u8, u32))
        requires
            self.wf(),
            time.wf(),
            self.cue.track_at(time) is Some,
        ensures
            r.0 == self.cue.track_at(time)->Some_0.number,
            r.1 == time.minus(self.cue.track_at(time)->Some_0.start_time).sector(),
    {
        let track = self.cue.find_track_by_time(time).unwrap();
        proof {
            let i = choose|i: int| self.cue.holds(i, time);
            assert(self.cue.tracks@[i].wf());
        }
        let relative_time = time - track.start_time;
        (track.number, relative_time.to_sector_number())
    }

    /// Loads the bytes a disc read gave into the sector buffer: as many as
    /// the buffer holds, the rest of the buffer staying as it was.
    pub fn load_sector(&mut self, data: &Vec<u8>)
        requires
            old(self).wf(),
        ensures
            final(self).wf(),
            final(self).cue == old(self).cue,
            final(self)@ == (CdromView { sector_buffer: loaded_sector(old(self)@.sector_buffer, data@), ..old(self)@ }),
    {
        let mut buffer: Vec<u8> = Vec::new();
        let mut i: usize = 0;
        while i < BYTES_PER_SECTOR
            invariant
                i <= BYTES_PER_SECTOR,
                buffer@.len() == i,
                self.sector_buffer@.len() == BYTES_PER_SECTOR,
                self.sector_buffer@ == old(self).sector_buffer@,
                forall|j: int| 0 <= j < i ==> buffer@[j] == #[trigger] loaded_sector(self.sector_buffer@, data@)[j],
            decreases BYTES_PER_SECTOR - i,
        {
            let byte = if i < data.len() { data[i] } else { self.sector_buffer[i] };
            buffer.push(byte);
            i = i + 1;
        }
        assert(buffer@ =~= loaded_sector(old(self).sector_buffer@, data@));
        self.sector_buffer = buffer;
        assert(self@ =~= (CdromView { sector_buffer: self@.sector_buffer, ..old(self)@ }));
    }

    /// Reads the sector at `time` from the disc into the sector buffer: the
    /// sector of the track that holds `time`, counted from the track's
    /// start.
    fn read_sector_atime(&mut self, time: CdTime)
        requires
            old(self).wf(),
            time.wf(),
            old(self).cue.track_at(time) is Some,
        ensures
            final(self).wf(),
            final(self).cue == old(self).cue,
            final(self)@ == (CdromView { sector_buffer: final(self)@.sector_buffer, ..old(self)@ }),
    {
        let (track_number, relative_sector) = self.sector_location(time);
        let data = self.disc.read_sector(track_number, relative_sector);
        self.load_sector(&data);
    }

    /// Reads the sector at `time` and starts on the next one.
    fn read_data_sector(&mut self, time: CdTime) -> (r: DriveState)
        requires
            old(self).wf(),
            time.wf(),
            old(self).cue.track_at(time) is Some,
        ensures
            final(self).wf(),
            final(self).cue == old(self).cue,
            final(self)@ == (CdromView { sector_buffer: final(self)@.sector_buffer, ..old(self)@ }),
            final(self)@.with_drive(r) == old(self)@.read_data_sector(final(self)@.sector_buffer, time),
            r.wf(),
    {
        self.read_sector_atime(time);
        let next = CdTime::new(0, 0, 1);
        proof {
            lemma_plus_wf(time, next);
        }
        DriveState::Reading(
            ReadState { time: time + next, int1_generated: false, cycles_till_next_sector: SECTOR_CYCLES },
        )
    }

    /// One cycle of a data read: the next sector once the cycles are up,
    /// else the announcement of the current one with INT1 and its transfer
    /// to the data FIFO, as soon as no interrupt is pending and no command
    /// is being received.
    fn progress_read_state(&mut self, rs: ReadState) -> (r: DriveState)
        requires
            old(self).wf(),
            old(self).drive_state == DriveState::Reading(rs),
            old(self)@.drive_defined(old(self).cue),
        ensures
            final(self).wf(),
            final(self).cue == old(self).cue,
            final(self)@.with_drive(r) == old(self)@.drive_step(final(self)@.sector_buffer),
            final(self)@.drive_state == old(self)@.drive_state,
            old(self)@.drive_read_time() is None ==> final(self)@.sector_buffer == old(self)@.sector_buffer,
            r.wf(),
    {
        if rs.cycles_till_next_sector == 1 {
            return self.read_data_sector(rs.time);
        }
        let mut int1_generated = rs.int1_generated;
        if !int1_generated && (self.int_status & 7) == 0 && !matches!(
            self.command_state,
            CommandState::ReceivingCommand { .. }
        ) {
            int1_generated = true;
            let st = self.stat();
            let reply = [st];
            assert(reply@ =~= seq![st]);
            self.write_result(&reply);
            self.emit_int1();
            if self.raw_sectors {
                let data = vstd::slice::slice_subrange(self.sector_buffer.as_slice(), 12, 2352);
                self.data_fifo.copy_from_slice(data);
            } else {
                let data = vstd::slice::slice_subrange(self.sector_buffer.as_slice(), 24, 2072);
                self.data_fifo.copy_from_slice(data);
            }
        }
        let r = DriveState::Reading(
            ReadState {
                time: rs.time,
                int1_generated,
                cycles_till_next_sector: rs.cycles_till_next_sector - 1,
            },
        );
        assert(self@.with_drive(r) =~= old(self)@.drive_step(self@.sector_buffer));
        r
    }

    /// One cycle of the drive mechanism.
    fn drive_state_machine(&mut self)
        requires
            old(self).wf(),
            old(self)@.drive_defined(old(self).cue),
        ensures
            final(self).wf(),
            final(self).cue == old(self).cue,
            final(self)@ == old(self)@.drive_step(final(self)@.sector_buffer),
            old(self)@.drive_read_time() is None ==> final(self)@.sector_buffer == old(self)@.sector_buffer,
    {
        let next = match self.drive_state {
            DriveState::Stopped => DriveState::Stopped,
            DriveState::SpinningUp { cycles_remaining, next } => {
                if cycles_remaining == 1 {
                    match next {
                        SpinUpNextState::Pause => DriveState::Paused { time: CdTime::zero(), int2_queued: true },
                        SpinUpNextState::Seek(time, seek_next) => {
                            let estimate = estimate_seek_cycles(CdTime::zero(), time);
                            let seek_cycles = if estimate >= 24 { estimate } else { 24 };
                            DriveState::Seeking { destination: time, cycles_remaining: seek_cycles, next: seek_next }
                        },
                    }
                } else {
                    DriveState::SpinningUp { cycles_remaining: cycles_remaining - 1, next }
                }
            },
            DriveState::Seeking { destination, cycles_remaining, next } => {
                if cycles_remaining == 1 {
                    match next {
                        SeekNextState::Pause => DriveState::Paused { time: destination, int2_queued: true },
                        SeekNextState::Read => DriveState::PreparingToRead {
                            time: destination,
                            cycles_remaining: PREPARE_CYCLES,
                        },
                        SeekNextState::Play => DriveState::PreparingToPlay {
                            time: destination,
                            cycles_remaining: PREPARE_CYCLES,
                        },
                    }
                } else {
                    DriveState::Seeking { destination, cycles_remaining: cycles_remaining - 1, next }
                }
            },
            DriveState::PreparingToRead { time, cycles_remaining } => {
                if cycles_remaining == 1 {
                    self.read_data_sector(time)
                } else {
                    DriveState::PreparingToRead { time, cycles_remaining: cycles_remaining - 1 }
                }
            },
            DriveState::Reading(rs) => self.progress_read_state(rs),
            DriveState::PreparingToPlay { time, cycles_remaining } => DriveState::PreparingToPlay {
                time,
                cycles_remaining: cycles_remaining - 1,
            },
            DriveState::Playing(ps) => DriveState::Playing(ps),
            DriveState::Paused { time, int2_queued } => {
                let mut queued = int2_queued;
                if queued && (self.int_status & 7) == 0 {
                    let st = self.stat();
                    let reply = [st];
                    assert(reply@ =~= seq![st]);
                    self.write_result(&reply);
                    self.emit_int2();
                    queued = false;
                }
                DriveState::Paused { time, int2_queued: queued }
            },
        };
        self.drive_state = next;
        assert(self@ =~= old(self)@.drive_step(self@.sector_buffer));
    }

    /// One cycle of the controller: the drive, then the command logic;
    /// IRQ 2 is raised while an interrupt is both pending and enabled.
    pub fn clock(&mut self, intc: &mut InterruptController)
        requires
            old(self).wf(),
            old(self)@.clock_defined(old(self).cue),
        ensures
            final(self).wf(),
            final(self).cue == old(self).cue,
            final(self)@ == old(self)@.clock_spec(final(self)@.sector_buffer, old(self).cue),
            old(self)@.drive_read_time() is None ==> final(self)@.sector_buffer == old(self)@.sector_buffer,
            final(intc).i_stat == (if final(self)@.int_mask & final(self)@.int_status != 0 {
                old(intc).i_stat | 4u16
            } else {
                old(intc).i_stat
            }),
            final(intc).i_mask == old(intc).i_mask,
    {
        self.drive_state_machine();
        proof {
            lemma_command_defined_any_sector(old(self)@, old(self)@.sector_buffer, self@.sector_buffer);
        }
        self.command_state_machine();
        if self.int_mask & self.int_status != 0 {
            intc.trigger_irq(2);
            assert(1u16 << 2usize == 4u16) by (bit_vector);
        }
    }

    /// Whether a write of `value` at `address` is one the controller
    /// takes: a known command, or any other register write.
    pub fn can_write(&self, address: u32, value: u32) -> (r: bool)
        requires
            0x1f80_1800 <= address,
        ensures
            r == self@.write_defined((address - 0x1f80_1800) as u32, value),
    {
        let offset = address - 0x1f80_1800;
        if offset > 3 {
            return false;
        }
        if offset == 1 && self.bank == 0 {
            decode_command(value as u8).is_some()
        } else {
            true
        }
    }

    /// Whether the controller can execute `command` now.
    fn can_execute(&self, command: Command) -> (r: bool)
        ensures
            r == self@.execute_defined(command),
    {
        match command {
            Command::GetStat | Command::Demute | Command::GetId | Command::ReadToc | Command::SetFilter
            | Command::SetMode | Command::Init | Command::SeekL | Command::GetLocP | Command::ReadN
            | Command::ReadS | Command::Pause => true,
            Command::SetLoc => {
                proof {
                    crate::bits::lemma_nibbles(self.parameters@[0]);
                    crate::bits::lemma_nibbles(self.parameters@[1]);
                    crate::bits::lemma_nibbles(self.parameters@[2]);
                }
                let m = (self.parameters[0] >> 4u8) as u32 * 10 + (self.parameters[0] & 0x0f) as u32;
                let s = (self.parameters[1] >> 4u8) as u32 * 10 + (self.parameters[1] & 0x0f) as u32;
                let f = (self.parameters[2] >> 4u8) as u32 * 10 + (self.parameters[2] & 0x0f) as u32;
                self.parameter_index == 3 && m < 80 && s < 60 && f < 75
            },
            Command::Test => self.parameters[0] == 0x20,
            _ => false,
        }
    }

    /// Whether the next cycle is one the controller handles: it starts no
    /// audio playback, reads no sector past the end of the disc, and
    /// executes only commands it knows with the parameters they need.
    pub fn can_clock(&self) -> (r: bool)
        requires
            self.wf(),
        ensures
            r == self@.clock_defined(self.cue),
    {
        let drive_ok = match self.drive_state {
            DriveState::PreparingToPlay { cycles_remaining, .. } => cycles_remaining != 1,
            DriveState::Playing(_) => false,
            DriveState::PreparingToRead { time, cycles_remaining } => cycles_remaining != 1
                || self.cue.find_track_by_time(time).is_some(),
            DriveState::Reading(rs) => rs.cycles_till_next_sector != 1 || self.cue.find_track_by_time(rs.time).is_some(),
            _ => true,
        };
        if !drive_ok {
            return false;
        }
        let pending = (self.int_status & 7) != 0;
        let receiving = matches!(self.command_state, CommandState::ReceivingCommand { .. });
        let int_after = match self.drive_state {
            DriveState::Reading(rs) => if rs.cycles_till_next_sector != 1 && !rs.int1_generated && !pending
                && !receiving {
                self.int_status | 1
            } else {
                self.int_status
            },
            DriveState::Paused { int2_queued, .. } => if int2_queued && !pending {
                self.int_status | 2
            } else {
                self.int_status
            },
            _ => self.int_status,
        };
        let ghost after = self@.drive_step(self@.sector_buffer);
        assert(after.int_status == int_after);
        assert(after.command_state == self@.command_state);
        assert(after.parameters == self@.parameters && after.parameter_index == self@.parameter_index);
        match self.command_state {
            CommandState::ReceivingCommand { command, cycles_remaining } => cycles_remaining != 1
                || self.can_execute(command),
            CommandState::GeneratingSecondResponse { command, cycles_remaining } => !(cycles_remaining == 1
                && (int_after & 7) == 0) || matches!(
                command,
                Command::GetId | Command::Init | Command::Pause | Command::ReadToc
            ),
            _ => true,
        }
    }

    /// Starts receiving the command of `command_byte`.
    fn write_command(&mut self, command_byte: u8)
        requires
            old(self).wf(),
            command_of_byte(command_byte) is Some,
        ensures
            final(self).wf(),
            final(self).cue == old(self).cue,
            final(self)@ == old(self)@.with_command(
                CommandState::ReceivingCommand {
                    command: command_of_byte(command_byte)->Some_0,
                    cycles_remaining: RECEIVE_CYCLES,
                },
            ),
    {
        let command = decode_command(command_byte).unwrap();
        self.command_state = CommandState::ReceivingCommand { command, cycles_remaining: RECEIVE_CYCLES };
    }
}

/// When a read reaches the first INT1 of a sector, the data FIFO is
/// refilled with the sector's payload from its start: in the normal mode
/// the 2048 user-data bytes, bytes 24..2072 of the sector (after the sync
/// bytes, the header and the subheader); in raw mode bytes 12..2352.
pub proof fn lemma_int1_fills_fifo_with_payload(v: CdromView, rs: ReadState, sector: Seq<u8>)
    requires
        v.wf(),
        v.drive_state == DriveState::Reading(rs),
        rs.cycles_till_next_sector != 1,
        !rs.int1_generated,
        !v.int_pending(),
        !(v.command_state is ReceivingCommand),
    ensures
        ({
            let r = v.drive_step(sector);
            let start: int = if v.raw_sectors { 12 } else { 24 };
            &&& r.fifo_idx == 0
            &&& r.fifo_len == (if v.raw_sectors { 2340usize } else { 2048usize })
            &&& forall|i: int| 0 <= i < r.fifo_len ==> r.fifo_values[i] == v.sector_buffer[start + i]
            &&& r.sector_buffer == v.sector_buffer
        }),
{
}
} // verus!
