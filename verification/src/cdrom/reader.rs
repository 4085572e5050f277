use vstd::prelude::*;

use crate::cdrom::fifo::BYTES_PER_SECTOR;
use crate::cdrom::state::bcd_spec;
use crate::cdrom::cuebin::Track;
use crate::cdrom::time::{CdTime, lemma_minus_wf};

verus! {

/// The length of a sector header: 12 sync bytes, the time and the mode.
pub const SECTOR_HEADER_LEN: usize = 16;

/// Where the submode byte of a mode 2 sector lies.
pub const MODE_2_SUBMODE_LOCATION: usize = 18;

/// The formats of disc images.
#[derive(Debug, Clone, Copy, PartialEq, Eq, Structural)]
pub enum CdRomFileFormat {
    /// A CUE sheet and its BIN files.
    CueBin,
}

/// The two forms of mode 2 sectors.
#[derive(Debug, Clone, Copy, PartialEq, Eq, Structural)]
pub enum Mode2Form {
    /// 2048 data bytes with error correction.
    One,
    /// 2324 data bytes with only error detection.
    Two,
}

impl Mode2Form {
    /// The form of a mode 2 sector: bit 5 of its submode byte.
    pub fn parse(sector_buffer: &[u8]) -> (r: Mode2Form)
        requires
            sector_buffer@.len() > MODE_2_SUBMODE_LOCATION,
        ensures
            r == (if sector_buffer@[18] & 0x20u8 != 0 { Mode2Form::Two } else { Mode2Form::One }),
    {
        if sector_buffer[MODE_2_SUBMODE_LOCATION] & 0x20u8 != 0 {
            Mode2Form::Two
        } else {
            Mode2Form::One
        }
    }
}

/// Whether a sector at `relative_time` into a track lies in a gap that the
/// track's file does not hold: before the end of its pregap, or at or after
/// the start of its postgap.
pub open spec fn outside_file(track: Track, relative_time: CdTime) -> bool {
    relative_time.before(track.pregap_len) || !relative_time.before(
        track.end_time.minus(track.postgap_len).minus(track.start_time),
    )
}

/// Whether a sector at `relative_time` into a track lies in a gap that the
/// track's file does not hold.
pub fn is_outside_file(track: &Track, relative_time: CdTime) -> (r: bool)
    requires
        track.wf(),
    ensures
        r == outside_file(*track, relative_time),
{
    proof {
        lemma_minus_wf(track.end_time, track.postgap_len);
    }
    let data_end = track.end_time - track.postgap_len - track.start_time;
    relative_time.is_before(&track.pregap_len) || !relative_time.is_before(&data_end)
}

/// The number of the sector at `relative_time` into a track, counted from
/// the end of its pregap, which is where its file starts.
pub fn file_sector_number(track: &Track, relative_time: CdTime) -> (r: u32)
    requires
        track.wf(),
        relative_time.wf(),
    ensures
        r == relative_time.minus(track.pregap_len).sector(),
{
    (relative_time - track.pregap_len).to_sector_number()
}

/// The BCD form of a field of a time.
pub fn time_component_to_bcd(component: u8) -> (r: u8)
    ensures
        r == bcd_spec(component),
{
    let msb = component / 10;
    let lsb = component % 10;
    (msb << 4u8) | lsb
}

/// The header of a sector made up for a gap of a data track at `time`:
/// the sync pattern, the BCD time and mode 1.
pub open spec fn fake_header(time: CdTime) -> Seq<u8> {
    seq![
        0x00u8,
        0x11,
        0x11,
        0x11,
        0x11,
        0x11,
        0x11,
        0x11,
        0x11,
        0x11,
        0x11,
        0x00,
        bcd_spec(time.minutes),
        bcd_spec(time.seconds),
        bcd_spec(time.frames),
        0x01
    ]
}

/// Fills the first 2352 bytes of `out` with a made-up data sector for a
/// gap at `time`: its header, then zeros.
pub fn write_fake_data_pregap(time: CdTime, out: &mut Vec<u8>)
    requires
        old(out)@.len() >= BYTES_PER_SECTOR,
    ensures
        final(out)@.len() == old(out)@.len(),
        final(out)@.subrange(0, 16) == fake_header(time),
        forall|k: int| 16 <= k < BYTES_PER_SECTOR ==> final(out)@[k] == 0,
        final(out)@.subrange(BYTES_PER_SECTOR as int, old(out)@.len() as int) == old(out)@.subrange(
            BYTES_PER_SECTOR as int,
            old(out)@.len() as int,
        ),
{
    let header: [u8; 16] = [
        0x00,
        0x11,
        0x11,
        0x11,
        0x11,
        0x11,
        0x11,
        0x11,
        0x11,
        0x11,
        0x11,
        0x00,
        time_component_to_bcd(time.minutes),
        time_component_to_bcd(time.seconds),
        time_component_to_bcd(time.frames),
        0x01,
    ];
    let mut i: usize = 0;
    while i < BYTES_PER_SECTOR
        invariant
            i <= BYTES_PER_SECTOR,
            old(out)@.len() >= BYTES_PER_SECTOR,
            out@.len() == old(out)@.len(),
            forall|k: int| 0 <= k < i && k < 16 ==> out@[k] == header@[k],
            forall|k: int| 16 <= k < i ==> out@[k] == 0,
            forall|k: int| BYTES_PER_SECTOR <= k < out@.len() ==> out@[k] == old(out)@[k],
        decreases BYTES_PER_SECTOR - i,
    {
        let byte = if i < SECTOR_HEADER_LEN { header[i] } else { 0u8 };
        out.set(i, byte);
        i = i + 1;
    }
    assert(header@ =~= fake_header(time));
    assert(out@.subrange(0, 16) =~= fake_header(time));
    assert(out@.subrange(BYTES_PER_SECTOR as int, old(out)@.len() as int) =~= old(out)@.subrange(
        BYTES_PER_SECTOR as int,
        old(out)@.len() as int,
    ));
}

} // verus!
