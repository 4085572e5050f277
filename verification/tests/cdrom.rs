//! Tests of the CD-ROM controller, its disc times and the CUE sheet model.

use psemu::cdrom::controller::{Cdrom, NoDisc};
use psemu::cdrom::cuebin::{
    finalize_track_list, to_cue_sheet, tracks_are_continuous, CueSheet, ParsedFile, ParsedTrack, Track,
    TrackMetadata, TrackMode, TrackType,
};
use psemu::cdrom::fifo::DataFifo;
use psemu::cdrom::parser::{CueError, CueParser};
use psemu::cdrom::reader::{
    file_sector_number, is_outside_file, time_component_to_bcd, write_fake_data_pregap, Mode2Form,
};
use psemu::cdrom::state::{
    binary_to_bcd, determine_drive_state, estimate_seek_cycles, Command, CommandState, DriveState,
    ReadState, SeekNextState, SpinUpNextState,
};
use psemu::cdrom::text::{parse_u8, TimeParseError};
use psemu::cdrom::time::CdTime;
use psemu::interrupts::InterruptController;
use psemu::memory::AccessSize;

fn t(m: u8, s: u8, f: u8) -> CdTime {
    CdTime::new(m, s, f)
}

fn data_track(number: u8, start: CdTime, end: CdTime) -> Track {
    Track {
        number,
        mode: TrackMode::Mode2,
        track_type: TrackType::Data,
        start_time: start,
        end_time: end,
        pregap_len: t(0, 2, 0),
        pause_len: CdTime::zero(),
        postgap_len: t(0, 2, 0),
    }
}

fn one_track_sheet() -> CueSheet {
    CueSheet::new(vec![data_track(1, CdTime::zero(), t(10, 0, 0))])
}

#[test]
fn test_sector_numbers() {
    assert_eq!(t(0, 2, 0).to_sector_number(), 150);
    assert_eq!(t(1, 0, 0).to_sector_number(), 4500);
    assert_eq!(t(79, 59, 74).to_sector_number(), 359_999);
    assert_eq!(CdTime::from_sector_number(150), t(0, 2, 0));
    assert_eq!(CdTime::from_sector_number(359_999), t(79, 59, 74));
    for n in [0u32, 1, 74, 75, 4499, 4500, 123_456, 359_999] {
        assert_eq!(CdTime::from_sector_number(n).to_sector_number(), n);
    }
}

#[test]
fn test_add_and_sub_carry() {
    assert_eq!(t(0, 1, 74) + t(0, 0, 1), t(0, 2, 0));
    assert_eq!(t(0, 59, 74) + t(0, 0, 1), t(1, 0, 0));
    assert_eq!(t(79, 59, 74) + t(0, 0, 1), t(0, 0, 0));
    assert_eq!(t(0, 2, 0) - t(0, 0, 1), t(0, 1, 74));
    assert_eq!(t(1, 0, 0) - t(0, 0, 1), t(0, 59, 74));
    assert_eq!(t(0, 0, 0) - t(0, 0, 1), t(79, 59, 74));
    let a = t(12, 34, 56);
    let b = t(70, 40, 30);
    assert_eq!((a + b) - b, a);
    assert_eq!((a - b) + b, a);
}

#[test]
fn test_time_order() {
    assert!(t(0, 2, 0).is_before(&t(0, 2, 1)));
    assert!(t(0, 59, 74).is_before(&t(1, 0, 0)));
    assert!(!t(1, 0, 0).is_before(&t(1, 0, 0)));
    assert!(t(0, 59, 74) < t(1, 0, 0));
}

#[test]
fn test_parse_time() {
    assert_eq!(CdTime::parse(b"01:02:03"), Ok(CdTime { minutes: 1, seconds: 2, frames: 3 }));
    assert_eq!(CdTime::parse(b"99:99:99"), Ok(CdTime { minutes: 99, seconds: 99, frames: 99 }));
    assert_eq!(CdTime::parse(b"+1:02:03"), Ok(CdTime { minutes: 1, seconds: 2, frames: 3 }));
    assert_eq!(CdTime::parse(b"1:02:03"), Err(TimeParseError::InvalidLength(7)));
    assert_eq!(CdTime::parse(b"01-02:03"), Err(TimeParseError::UnexpectedFormat));
    assert_eq!(CdTime::parse(b"0a:02:03"), Err(TimeParseError::InvalidNumber));
    assert_eq!(parse_u8(b"255"), Some(255));
    assert_eq!(parse_u8(b"256"), None);
    assert_eq!(parse_u8(b"000000000001"), Some(1));
    assert_eq!(parse_u8(b"+"), None);
    assert_eq!(parse_u8(b""), None);
}

#[test]
fn test_bcd() {
    assert_eq!(binary_to_bcd(0), 0x00);
    assert_eq!(binary_to_bcd(9), 0x09);
    assert_eq!(binary_to_bcd(10), 0x10);
    assert_eq!(binary_to_bcd(59), 0x59);
    assert_eq!(binary_to_bcd(99), 0x99);
    assert_eq!(time_component_to_bcd(74), 0x74);
}

#[test]
fn test_seek_cycles() {
    assert_eq!(estimate_seek_cycles(t(0, 2, 0), t(0, 2, 0)), 1);
    assert_eq!(estimate_seek_cycles(t(0, 0, 0), t(0, 4, 0)), 49);
    assert_eq!(estimate_seek_cycles(t(0, 4, 0), t(0, 0, 0)), 49);
    assert_eq!(estimate_seek_cycles(t(0, 0, 0), t(0, 0, 1)), 1);
    assert_eq!(estimate_seek_cycles(t(0, 0, 0), t(60, 0, 0)), 44100);
}

#[test]
fn test_determine_drive_state() {
    let dest = t(0, 30, 0);
    assert_eq!(
        determine_drive_state(DriveState::Stopped, dest, SeekNextState::Read),
        DriveState::SpinningUp { cycles_remaining: 22050, next: SpinUpNextState::Seek(dest, SeekNextState::Read) }
    );
    assert_eq!(
        determine_drive_state(DriveState::Paused { time: dest, int2_queued: false }, dest, SeekNextState::Pause),
        DriveState::Seeking { destination: dest, cycles_remaining: 24, next: SeekNextState::Pause }
    );
    assert_eq!(
        determine_drive_state(DriveState::Paused { time: CdTime::zero(), int2_queued: false }, t(0, 40, 0), SeekNextState::Read),
        DriveState::Seeking { destination: t(0, 40, 0), cycles_remaining: 490, next: SeekNextState::Read }
    );
}

#[test]
fn test_data_fifo() {
    let mut fifo = DataFifo::new();
    assert!(fifo.fully_consumed());
    assert_eq!(fifo.pop(), 0);
    fifo.copy_from_slice(&[1, 2, 3]);
    assert!(!fifo.fully_consumed());
    assert_eq!(fifo.pop(), 1);
    assert_eq!(fifo.pop(), 2);
    assert_eq!(fifo.pop(), 3);
    assert!(fifo.fully_consumed());
    assert_eq!(fifo.pop(), 3);
}

#[test]
fn test_find_track_by_time() {
    let sheet = CueSheet::new(vec![
        data_track(1, CdTime::zero(), t(0, 10, 0)),
        data_track(2, t(0, 10, 0), t(0, 20, 0)),
    ]);
    assert!(sheet.is_ordered());
    assert_eq!(sheet.find_track_by_time(t(0, 0, 0)).unwrap().number, 1);
    assert_eq!(sheet.find_track_by_time(t(0, 9, 74)).unwrap().number, 1);
    assert_eq!(sheet.find_track_by_time(t(0, 10, 0)).unwrap().number, 2);
    assert_eq!(sheet.find_track_by_time(t(0, 20, 0)).unwrap().number, 2);
    assert!(sheet.find_track_by_time(t(0, 20, 1)).is_none());
    assert_eq!(sheet.track(2).start_time, t(0, 10, 0));
    assert_eq!(sheet.last_track().number, 2);
    assert_eq!(sheet.track(1).effective_start_time(), t(0, 2, 0));
}

#[test]
fn test_continuous_and_finalize() {
    let tracks = vec![data_track(1, CdTime::zero(), t(0, 10, 0)), data_track(2, t(0, 10, 0), t(0, 20, 0))];
    assert!(tracks_are_continuous(&tracks));
    let gap = vec![data_track(1, CdTime::zero(), t(0, 10, 0)), data_track(2, t(0, 11, 0), t(0, 20, 0))];
    assert!(!tracks_are_continuous(&gap));
    let mut audio = vec![Track {
        number: 1,
        mode: TrackMode::Audio,
        track_type: TrackType::Audio,
        start_time: CdTime::zero(),
        end_time: t(3, 0, 0),
        pregap_len: CdTime::zero(),
        pause_len: CdTime::zero(),
        postgap_len: CdTime::zero(),
    }];
    finalize_track_list(&mut audio);
    assert_eq!(audio[0].postgap_len, t(0, 2, 0));
    assert_eq!(audio[0].end_time, t(3, 2, 0));
    assert_eq!(TrackMode::Mode1.to_type(), TrackType::Data);
    assert_eq!(TrackMode::Audio.to_type(), TrackType::Audio);
    assert_eq!(TrackType::Data.default_postgap_len(), t(0, 2, 0));
}

#[test]
fn test_parse_cue_sheet() {
    let text = b"FILE \"game (track 1).bin\" BINARY\r\n  TRACK 01 MODE2/2352\r\n    INDEX 01 00:00:00\r\nFILE \"track 2.bin\" BINARY\n  TRACK 02 AUDIO\n    PREGAP 00:02:00\n    INDEX 00 00:00:00\n    INDEX 01 00:01:00\n";
    let files = CueParser::new().parse(text).unwrap();
    assert_eq!(files.len(), 2);
    assert_eq!(files[0].file_name, b"game (track 1).bin".to_vec());
    assert_eq!(files[0].tracks.len(), 1);
    assert_eq!(files[0].tracks[0].number, 1);
    assert_eq!(files[0].tracks[0].mode, TrackMode::Mode2);
    assert_eq!(files[0].tracks[0].track_start, t(0, 0, 0));
    assert_eq!(files[1].file_name, b"track 2.bin".to_vec());
    assert_eq!(files[1].tracks[0].mode, TrackMode::Audio);
    assert_eq!(files[1].tracks[0].pregap_len, Some(t(0, 2, 0)));
    assert_eq!(files[1].tracks[0].pause_start, Some(t(0, 0, 0)));
    assert_eq!(files[1].tracks[0].track_start, t(0, 1, 0));
}

#[test]
fn test_parse_cue_errors() {
    assert_eq!(CueParser::new().parse(b"REM nothing\n").unwrap_err(), CueError::NoFiles);
    assert_eq!(
        CueParser::new().parse(b"FILE \"a.bin\" BINARY\n  TRACK 02 AUDIO\n    INDEX 01 00:00:00\n").unwrap_err(),
        CueError::FirstTrackNotOne(2)
    );
    assert_eq!(
        CueParser::new().parse(b"FILE \"a.bin\" BINARY\n  TRACK 01 MODE3/2352\n").unwrap_err(),
        CueError::UnsupportedTrackMode
    );
    assert_eq!(
        CueParser::new().parse(b"FILE \"a.bin\" BINARY\n  TRACK 01 AUDIO\n").unwrap_err(),
        CueError::NoTrackStart(1)
    );
    assert_eq!(
        CueParser::new().parse(b"FILE \"a.bin\" BINARY\n  TRACK 01 AUDIO\n    INDEX 02 00:00:00\n").unwrap_err(),
        CueError::UnexpectedIndexNumber
    );
    assert_eq!(CueParser::new().parse(b"FILE a.bin BINARY\n").unwrap_err(), CueError::InvalidFileLine);
    assert_eq!(
        CueParser::new().parse(b"FILE \"a.bin\" BINARY\nFILE \"b.bin\" BINARY\n").unwrap_err(),
        CueError::NoTracksInFile
    );
}

#[test]
fn test_to_cue_sheet() {
    let files = vec![
        ParsedFile {
            file_name: b"t1.bin".to_vec(),
            tracks: vec![ParsedTrack {
                number: 1,
                mode: TrackMode::Mode2,
                pregap_len: None,
                pause_start: None,
                track_start: CdTime::zero(),
            }],
        },
        ParsedFile {
            file_name: b"t2.bin".to_vec(),
            tracks: vec![ParsedTrack {
                number: 2,
                mode: TrackMode::Audio,
                pregap_len: None,
                pause_start: Some(CdTime::zero()),
                track_start: t(0, 2, 0),
            }],
        },
    ];
    // 10 seconds of data, then 20 seconds of audio.
    let (sheet, metadata) = to_cue_sheet(&files, &vec![750, 1500]);
    assert_eq!(sheet.tracks.len(), 2);
    let data = sheet.tracks[0];
    assert_eq!(data.start_time, CdTime::zero());
    assert_eq!(data.pregap_len, t(0, 2, 0));
    assert_eq!(data.postgap_len, t(0, 2, 0));
    assert_eq!(data.end_time, t(0, 14, 0));
    let audio = sheet.tracks[1];
    assert_eq!(audio.start_time, t(0, 14, 0));
    assert_eq!(audio.pause_len, t(0, 2, 0));
    assert_eq!(audio.postgap_len, t(0, 2, 0));
    assert_eq!(audio.end_time, t(0, 36, 0));
    assert!(tracks_are_continuous(&sheet.tracks));
    assert_eq!(metadata.len(), 2);
    assert_eq!(metadata[1].file_name, b"t2.bin".to_vec());
    assert_eq!(metadata[1].time_in_file, CdTime::zero());
}

#[test]
fn test_fake_pregap_and_mode2_form() {
    let mut out = vec![0xffu8; 2352];
    write_fake_data_pregap(t(0, 1, 74), &mut out);
    assert_eq!(&out[..16], &[0, 0x11, 0x11, 0x11, 0x11, 0x11, 0x11, 0x11, 0x11, 0x11, 0x11, 0, 0x00, 0x01, 0x74, 1]);
    assert!(out[16..].iter().all(|&b| b == 0));
    let mut sector = vec![0u8; 2352];
    assert_eq!(Mode2Form::parse(&sector), Mode2Form::One);
    sector[18] = 0x20;
    assert_eq!(Mode2Form::parse(&sector), Mode2Form::Two);
}

const STATUS: u32 = 0x1f80_1800;
const RESPONSE: u32 = 0x1f80_1801;
const INTERRUPT: u32 = 0x1f80_1803;

/// Sends a command with its parameters and runs the controller until it
/// is idle again, or for `max` cycles.
fn send(cdrom: &mut Cdrom<NoDisc>, intc: &mut InterruptController, command: u8, params: &[u8]) {
    cdrom.write(STATUS, 0);
    for &p in params {
        cdrom.write(0x1f80_1802, p as u32);
    }
    cdrom.write(RESPONSE, command as u32);
    for _ in 0..60 {
        cdrom.clock(intc);
    }
}

fn acknowledge(cdrom: &mut Cdrom<NoDisc>) {
    cdrom.write(STATUS, 1);
    cdrom.write(INTERRUPT, 0x1f);
    cdrom.write(STATUS, 0);
}

#[test]
fn test_get_stat_command() {
    let mut cdrom = Cdrom::new(one_track_sheet(), NoDisc);
    let mut intc = InterruptController::new();
    assert_eq!(cdrom.read(STATUS, AccessSize::Byte), 0x18);
    cdrom.write(STATUS, 1);
    cdrom.write(0x1f80_1802, 0x1f);
    cdrom.write(STATUS, 0);
    send(&mut cdrom, &mut intc, 0x01, &[]);
    assert_eq!(cdrom.command_state, CommandState::Idle);
    cdrom.write(STATUS, 1);
    assert_eq!(cdrom.read(INTERRUPT, AccessSize::Byte), 0xe3);
    assert_eq!(cdrom.read(RESPONSE, AccessSize::Byte), 0x00);
    assert_eq!(intc.i_stat & 4, 4);
}

#[test]
fn test_test_command_version() {
    let mut cdrom = Cdrom::new(one_track_sheet(), NoDisc);
    let mut intc = InterruptController::new();
    send(&mut cdrom, &mut intc, 0x19, &[0x20]);
    let reply: Vec<u32> = (0..4).map(|_| cdrom.read(RESPONSE, AccessSize::Byte)).collect();
    assert_eq!(reply, vec![0x95, 0x07, 0x24, 0xc1]);
}

#[test]
fn test_set_loc_and_seek() {
    let mut cdrom = Cdrom::new(one_track_sheet(), NoDisc);
    let mut intc = InterruptController::new();
    send(&mut cdrom, &mut intc, 0x02, &[0x00, 0x02, 0x16]);
    assert_eq!(cdrom.seek_location, Some(t(0, 2, 16)));
    acknowledge(&mut cdrom);
    send(&mut cdrom, &mut intc, 0x15, &[]);
    assert_eq!(cdrom.seek_location, None);
    assert_eq!(
        cdrom.drive_state,
        DriveState::SpinningUp { cycles_remaining: 22050, next: SpinUpNextState::Seek(t(0, 2, 16), SeekNextState::Pause) }
    );
}

#[test]
fn test_init_spins_up_and_reports() {
    let mut cdrom = Cdrom::new(one_track_sheet(), NoDisc);
    let mut intc = InterruptController::new();
    send(&mut cdrom, &mut intc, 0x0a, &[]);
    assert_eq!(cdrom.drive_state, DriveState::SpinningUp { cycles_remaining: 22050, next: SpinUpNextState::Pause });
    acknowledge(&mut cdrom);
    for _ in 0..22051 {
        cdrom.clock(&mut intc);
    }
    assert_eq!(cdrom.drive_state, DriveState::Paused { time: CdTime::zero(), int2_queued: false });
    cdrom.write(STATUS, 1);
    assert_eq!(cdrom.read(INTERRUPT, AccessSize::Byte), 0xe2);
    assert_eq!(cdrom.read(RESPONSE, AccessSize::Byte), 0x02);
}

#[test]
fn test_read_delivers_sector_data() {
    let mut cdrom = Cdrom::new(one_track_sheet(), NoDisc);
    let mut intc = InterruptController::new();
    cdrom.drive_state = DriveState::PreparingToRead { time: t(0, 2, 0), cycles_remaining: 1 };
    cdrom.clock(&mut intc);
    assert_eq!(
        cdrom.drive_state,
        DriveState::Reading(ReadState { time: t(0, 2, 1), int1_generated: false, cycles_till_next_sector: 294 })
    );
    cdrom.clock(&mut intc);
    assert_eq!(
        cdrom.drive_state,
        DriveState::Reading(ReadState { time: t(0, 2, 1), int1_generated: true, cycles_till_next_sector: 293 })
    );
    assert_eq!(cdrom.int_status & 7, 1);
    assert_eq!(cdrom.data_fifo.len, 2048);
    assert_eq!(cdrom.read(0x1f80_1802, AccessSize::Word), 0);
    assert_eq!(cdrom.data_fifo.idx, 4);
}

#[test]
fn test_get_loc_p_reply() {
    let mut cdrom = Cdrom::new(one_track_sheet(), NoDisc);
    let mut intc = InterruptController::new();
    cdrom.drive_state = DriveState::Paused { time: t(0, 3, 5), int2_queued: false };
    send(&mut cdrom, &mut intc, 0x11, &[]);
    let reply: Vec<u32> = (0..8).map(|_| cdrom.read(RESPONSE, AccessSize::Byte)).collect();
    assert_eq!(reply, vec![0x01, 0x01, 0x00, 0x01, 0x05, 0x00, 0x03, 0x05]);
}

#[test]
fn test_unknown_states_of_commands() {
    assert_eq!(Command::GetStat, Command::GetStat);
    let mut cdrom = Cdrom::new(one_track_sheet(), NoDisc);
    cdrom.write(STATUS, 1);
    cdrom.write(0x1f80_1802, 0xff);
    assert_eq!(cdrom.int_mask, 0x1f);
    cdrom.int_status = 0x07;
    cdrom.write(INTERRUPT, 0x01);
    assert_eq!(cdrom.int_status, 0x06);
}

#[test]
fn test_file_offset_of_track_sectors() {
    let first = TrackMetadata { file_name: b"a.bin".to_vec(), time_in_file: t(0, 2, 0) };
    assert_eq!(first.file_offset(0), 0);
    assert_eq!(first.file_offset(3), 3 * 2352);
    let later = TrackMetadata { file_name: b"a.bin".to_vec(), time_in_file: t(1, 0, 10) };
    assert_eq!(later.file_offset(5), (4500 + 10 + 5 - 150) * 2352);
}

#[test]
fn test_gaps_outside_the_file() {
    // Starts at 0:00:00, ends at 0:10:00, with a 2 s pregap and a 2 s postgap.
    let track = data_track(1, t(0, 0, 0), t(0, 10, 0));
    assert!(is_outside_file(&track, t(0, 1, 74)));
    assert!(!is_outside_file(&track, t(0, 2, 0)));
    assert!(!is_outside_file(&track, t(0, 7, 74)));
    assert!(is_outside_file(&track, t(0, 8, 0)));
    assert_eq!(file_sector_number(&track, t(0, 2, 0)), 0);
    assert_eq!(file_sector_number(&track, t(0, 3, 1)), 76);
}

#[test]
fn test_load_sector_keeps_the_bytes_the_data_lacks() {
    let mut cdrom = Cdrom::new(one_track_sheet(), NoDisc);
    cdrom.load_sector(&vec![1u8; 2352]);
    cdrom.load_sector(&vec![7u8, 8, 9]);
    assert_eq!(cdrom.sector_buffer.len(), 2352);
    assert_eq!(&cdrom.sector_buffer[..4], &[7, 8, 9, 1]);
    assert!(cdrom.sector_buffer[3..].iter().all(|&b| b == 1));
    // Data longer than a sector fills the buffer and no more.
    cdrom.load_sector(&vec![5u8; 3000]);
    assert_eq!(cdrom.sector_buffer, vec![5u8; 2352]);
}
