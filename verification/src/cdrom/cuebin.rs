use vstd::prelude::*;

use crate::cdrom::time::{CdTime, lemma_minus_wf, lemma_plus_wf, lemma_sector_of_time, lemma_time_of_sector, time_of_sector};

verus! {

/// Where a track's data lies in the BIN file that holds it.
#[derive(Debug, Clone)]
pub struct TrackMetadata {
    /// The name of the file, as the bytes of the CUE sheet give it.
    pub file_name: Vec<u8>,
    pub time_in_file: CdTime,
}

impl TrackMetadata {
    /// Where in its file the sector `relative_sector_number` of the track
    /// starts: files hold 2352-byte sectors, and a file's first sector is
    /// the one two seconds (150 sectors) into the disc.
    pub fn file_offset(&self, relative_sector_number: u32) -> (r: u64)
        requires
            self.time_in_file.wf(),
            self.time_in_file.sector() + relative_sector_number >= 150,
            self.time_in_file.sector() + relative_sector_number <= u32::MAX,
        ensures
            r == (self.time_in_file.sector() + relative_sector_number - 150) * 2352,
    {
        let sector_number: u32 = self.time_in_file.to_sector_number() + relative_sector_number - 150;
        sector_number as u64 * 2352
    }
}

/// Whether a track holds data or audio.
#[derive(Debug, Clone, Copy, PartialEq, Eq, Structural)]
pub enum TrackType {
    Data,
    Audio,
}

impl TrackType {
    /// The gap after a track of this type: 2 seconds after a data track,
    /// none after an audio track.
    pub fn default_postgap_len(self) -> (r: CdTime)
        ensures
            r == (match self {
                TrackType::Data => CdTime { minutes: 0, seconds: 2, frames: 0 },
                TrackType::Audio => CdTime { minutes: 0, seconds: 0, frames: 0 },
            }),
            r.wf(),
    {
        match self {
            TrackType::Data => CdTime::new(0, 2, 0),
            TrackType::Audio => CdTime::zero(),
        }
    }
}

/// The sector format of a track, as a CUE sheet names it.
#[derive(Debug, Clone, Copy, PartialEq, Eq, Structural)]
pub enum TrackMode {
    Mode1,
    Mode2,
    Audio,
}

/// The type of a track of the given mode.
pub open spec fn type_of_mode(mode: TrackMode) -> TrackType {
    match mode {
        TrackMode::Mode1 | TrackMode::Mode2 => TrackType::Data,
        TrackMode::Audio => TrackType::Audio,
    }
}

impl TrackMode {
    /// Mode 1 and mode 2 tracks hold data; audio tracks hold audio.
    pub fn to_type(self) -> (r: TrackType)
        ensures
            r == type_of_mode(self),
    {
        match self {
            TrackMode::Mode1 | TrackMode::Mode2 => TrackType::Data,
            TrackMode::Audio => TrackType::Audio,
        }
    }

    /// The mode a CUE sheet names `MODE1/2352`, `MODE2/2352` or `AUDIO`;
    /// `None` for any other name.
    pub fn parse(name: &[u8]) -> (r: Option<TrackMode>)
        ensures
            r == mode_named(name@),
    {
        if bytes_equal(name, &[0x4d, 0x4f, 0x44, 0x45, 0x31, 0x2f, 0x32, 0x33, 0x35, 0x32]) {
            Some(TrackMode::Mode1)
        } else if bytes_equal(name, &[0x4d, 0x4f, 0x44, 0x45, 0x32, 0x2f, 0x32, 0x33, 0x35, 0x32]) {
            Some(TrackMode::Mode2)
        } else if bytes_equal(name, &[0x41, 0x55, 0x44, 0x49, 0x4f]) {
            Some(TrackMode::Audio)
        } else {
            None
        }
    }
}

/// The ASCII bytes of `MODE1/2352`.
pub open spec fn mode1_name() -> Seq<u8> {
    seq![0x4du8, 0x4f, 0x44, 0x45, 0x31, 0x2f, 0x32, 0x33, 0x35, 0x32]
}

/// The ASCII bytes of `MODE2/2352`.
pub open spec fn mode2_name() -> Seq<u8> {
    seq![0x4du8, 0x4f, 0x44, 0x45, 0x32, 0x2f, 0x32, 0x33, 0x35, 0x32]
}

/// The ASCII bytes of `AUDIO`.
pub open spec fn audio_name() -> Seq<u8> {
    seq![0x41u8, 0x55, 0x44, 0x49, 0x4f]
}

/// The track mode with the given name in a CUE sheet.
pub open spec fn mode_named(name: Seq<u8>) -> Option<TrackMode> {
    if name == mode1_name() {
        Some(TrackMode::Mode1)
    } else if name == mode2_name() {
        Some(TrackMode::Mode2)
    } else if name == audio_name() {
        Some(TrackMode::Audio)
    } else {
        None
    }
}

/// Whether two byte strings are equal.
pub fn bytes_equal(a: &[u8], b: &[u8]) -> (r: bool)
    ensures
        r == (a@ == b@),
{
    if a.len() != b.len() {
        return false;
    }
    let mut i: usize = 0;
    while i < a.len()
        invariant
            a.len() == b.len(),
            i <= a.len(),
            forall|k: int| 0 <= k < i ==> a@[k] == b@[k],
        decreases a.len() - i,
    {
        if a[i] != b[i] {
            return false;
        }
        i = i + 1;
    }
    assert(a@ =~= b@);
    true
}

/// A track of a disc, with its times on the whole disc.
#[derive(Debug, Clone, Copy, PartialEq, Eq, Structural)]
pub struct Track {
    pub number: u8,
    pub mode: TrackMode,
    pub track_type: TrackType,
    pub start_time: CdTime,
    pub end_time: CdTime,
    pub pregap_len: CdTime,
    pub pause_len: CdTime,
    pub postgap_len: CdTime,
}

impl Track {
    /// Every time of the track is well formed.
    pub open spec fn wf(self) -> bool {
        &&& self.start_time.wf()
        &&& self.end_time.wf()
        &&& self.pregap_len.wf()
        &&& self.pause_len.wf()
        &&& self.postgap_len.wf()
    }

    /// Where the track's own data starts: after its pregap and its pause.
    pub open spec fn effective_start(self) -> CdTime {
        self.start_time.plus(self.pregap_len).plus(self.pause_len)
    }

    /// Where the track's own data starts: after its pregap and its pause.
    pub fn effective_start_time(&self) -> (r: CdTime)
        requires
            self.wf(),
        ensures
            r == self.effective_start(),
            r.wf(),
    {
        proof {
            lemma_plus_wf(self.start_time, self.pregap_len);
            lemma_plus_wf(self.start_time.plus(self.pregap_len), self.pause_len);
        }
        self.start_time + self.pregap_len + self.pause_len
    }
}

/// The start times of tracks, in order.
pub open spec fn start_times(tracks: Seq<Track>) -> Seq<CdTime> {
    Seq::new(tracks.len(), |i: int| tracks[i].start_time)
}

/// No start time comes before an earlier one.
pub open spec fn times_sorted(times: Seq<CdTime>) -> bool {
    forall|i: int, j: int| 0 <= i < j < times.len() ==> !#[trigger] times[j].before(#[trigger] times[i])
}

/// The tracks of a disc, with their start times for lookups by time.
#[derive(Debug, Clone)]
pub struct CueSheet {
    pub tracks: Vec<Track>,
    pub track_start_times: Vec<CdTime>,
}

impl CueSheet {
    /// There is at least one track, every time is well formed, and the
    /// start times are those of the tracks.
    pub open spec fn wf(&self) -> bool {
        &&& self.tracks@.len() > 0
        &&& self.track_start_times@ == start_times(self.tracks@)
        &&& forall|i: int| 0 <= i < self.tracks@.len() ==> (#[trigger] self.tracks@[i]).wf()
    }

    /// The start times of the tracks come in order, the first at the start
    /// of the disc.
    pub open spec fn ordered(&self) -> bool {
        &&& times_sorted(self.track_start_times@)
        &&& self.track_start_times@[0] == CdTime::zero_spec()
    }

    /// A sheet of the given tracks, of which there must be at least one.
    pub fn new(tracks: Vec<Track>) -> (r: CueSheet)
        requires
            tracks@.len() > 0,
            forall|i: int| 0 <= i < tracks@.len() ==> (#[trigger] tracks@[i]).wf(),
        ensures
            r.tracks@ == tracks@,
            r.wf(),
    {
        let mut track_start_times: Vec<CdTime> = Vec::new();
        let mut i: usize = 0;
        while i < tracks.len()
            invariant
                i <= tracks@.len(),
                track_start_times@ == start_times(tracks@).subrange(0, i as int),
            decreases tracks@.len() - i,
        {
            track_start_times.push(tracks[i].start_time);
            i = i + 1;
            assert(track_start_times@ =~= start_times(tracks@).subrange(0, i as int));
        }
        assert(track_start_times@ =~= start_times(tracks@));
        CueSheet { tracks, track_start_times }
    }

    /// The track with the given number; tracks are numbered from 1.
    pub fn track(&self, track_number: u8) -> (r: &Track)
        requires
            self.wf(),
            1 <= track_number <= self.tracks@.len(),
        ensures
            *r == self.tracks@[track_number - 1],
    {
        &self.tracks[(track_number - 1) as usize]
    }

    /// The last track.
    pub fn last_track(&self) -> (r: &Track)
        requires
            self.wf(),
        ensures
            *r == self.tracks@.last(),
    {
        &self.tracks[self.tracks.len() - 1]
    }

    /// Whether the start times come in order from the start of the disc.
    pub fn is_ordered(&self) -> (r: bool)
        requires
            self.wf(),
        ensures
            r == self.ordered(),
    {
        let n = self.track_start_times.len();
        let ghost s = self.track_start_times@;
        let mut i: usize = 1;
        while i < n
            invariant
                self.wf(),
                s == self.track_start_times@,
                n == s.len(),
                1 <= i <= n,
                forall|a: int, b: int| 0 <= a < b < i ==> !#[trigger] s[b].before(#[trigger] s[a]),
            decreases n - i,
        {
            if self.track_start_times[i].is_before(&self.track_start_times[i - 1]) {
                assert(!times_sorted(s)) by {
                    assert(s[i as int].before(s[i - 1]));
                }
                return false;
            }
            proof {
                assert forall|a: int, b: int| 0 <= a < b < i + 1 implies !#[trigger] s[b].before(#[trigger] s[a]) by {
                    if b == i && a < i - 1 {
                        assert(!s[i - 1].before(s[a]));
                    }
                }
            }
            i = i + 1;
        }
        let z = CdTime::zero();
        self.track_start_times[0] == z
    }

    /// The track that holds `time`: the first whose start is `time`, else
    /// the last that starts before it, unless `time` lies past the end of
    /// the last track.
    pub fn find_track_by_time(&self, time: CdTime) -> (r: Option<&Track>)
        requires
            self.wf(),
            self.ordered(),
        ensures
            match r {
                Some(t) => self.track_at(time) == Some(*t),
                None => self.track_at(time) is None,
            },
    {
        let ghost s = self.track_start_times@;
        let n = self.track_start_times.len();
        let mut lo: usize = 0;
        let mut hi: usize = n;
        while lo < hi
            invariant
                self.wf(),
                self.ordered(),
                s == self.track_start_times@,
                n == s.len(),
                lo <= hi <= n,
                forall|k: int| 0 <= k < lo ==> (#[trigger] s[k]).before(time),
                forall|k: int| hi <= k < n ==> !(#[trigger] s[k]).before(time),
            decreases hi - lo,
        {
            let mid = lo + (hi - lo) / 2;
            if self.track_start_times[mid].is_before(&time) {
                proof {
                    assert forall|k: int| 0 <= k <= mid implies (#[trigger] s[k]).before(time) by {
                        if k < mid {
                            assert(!s[mid as int].before(s[k]));
                        }
                    }
                }
                lo = mid + 1;
            } else {
                proof {
                    assert forall|k: int| mid <= k < n implies !(#[trigger] s[k]).before(time) by {
                        if k > mid {
                            assert(!s[k].before(s[mid as int]));
                        }
                    }
                }
                hi = mid;
            }
        }
        if lo < n && self.track_start_times[lo] == time {
            proof {
                self.lemma_track_at(lo as int, time);
            }
            Some(&self.tracks[lo])
        } else if lo < n {
            proof {
                self.lemma_track_at((lo - 1) as int, time);
            }
            Some(&self.tracks[lo - 1])
        } else {
            let last = &self.tracks[n - 1];
            if last.end_time.is_before(&time) {
                proof {
                    assert forall|i: int| !self.holds(i, time) by {
                        if 0 <= i < n - 1 {
                            assert(!s[n - 1].before(s[i + 1]));
                        }
                    }
                }
                None
            } else {
                proof {
                    self.lemma_track_at((n - 1) as int, time);
                }
                Some(last)
            }
        }
    }

    /// Whether track `i` is the one that holds `time`: its start is not
    /// after `time`, the start before it is before `time`, and either it
    /// starts at `time`, or the next track starts after `time`, or it is
    /// the last track and `time` is not after its end.
    pub open spec fn holds(&self, i: int, time: CdTime) -> bool {
        let s = self.track_start_times@;
        &&& 0 <= i < s.len()
        &&& !time.before(s[i])
        &&& (i == 0 || s[i - 1].before(time))
        &&& (s[i] == time || (i + 1 < s.len() && time.before(s[i + 1])) || (i + 1 == s.len()
            && !self.tracks@[i].end_time.before(time)))
    }

    /// The track that holds `time`, if any.
    pub open spec fn track_at(&self, time: CdTime) -> Option<Track> {
        if exists|i: int| self.holds(i, time) {
            Some(self.tracks@[choose|i: int| self.holds(i, time)])
        } else {
            None
        }
    }

    /// In an ordered sheet at most one track holds a time.
    pub proof fn lemma_holds_unique(&self, i: int, j: int, time: CdTime)
        requires
            self.wf(),
            self.ordered(),
            self.holds(i, time),
            self.holds(j, time),
        ensures
            i == j,
    {
        let s = self.track_start_times@;
        if i < j {
            assert(!s[j - 1].before(s[i]));
            if i + 1 < j {
                assert(!s[j - 1].before(s[i + 1]));
            }
        } else if j < i {
            assert(!s[i - 1].before(s[j]));
            if j + 1 < i {
                assert(!s[i - 1].before(s[j + 1]));
            }
        }
    }

    /// When track `i` holds `time`, it is the track at `time`.
    pub proof fn lemma_track_at(&self, i: int, time: CdTime)
        requires
            self.wf(),
            self.ordered(),
            self.holds(i, time),
        ensures
            self.track_at(time) == Some(self.tracks@[i]),
    {
        let j = choose|j: int| self.holds(j, time);
        self.lemma_holds_unique(i, j, time);
    }
}

/// Whether the tracks follow one another with no gap, the first from the
/// start of the disc.
pub open spec fn continuous(tracks: Seq<Track>) -> bool {
    &&& tracks[0].start_time == CdTime::zero_spec()
    &&& forall|i: int| 0 <= i < tracks.len() - 1 ==> #[trigger] tracks[i + 1].start_time == tracks[i].end_time
}

/// Whether the tracks follow one another with no gap, the first from the
/// start of the disc.
pub fn tracks_are_continuous(tracks: &[Track]) -> (r: bool)
    requires
        tracks@.len() > 0,
    ensures
        r == continuous(tracks@),
{
    if tracks[0].start_time != CdTime::zero() {
        return false;
    }
    let mut i: usize = 0;
    while i < tracks.len() - 1
        invariant
            tracks@.len() > 0,
            i < tracks@.len(),
            tracks@[0].start_time == CdTime::zero_spec(),
            forall|k: int| 0 <= k < i ==> #[trigger] tracks@[k + 1].start_time == tracks@[k].end_time,
        decreases tracks@.len() - i,
    {
        if tracks[i + 1].start_time != tracks[i].end_time {
            return false;
        }
        i = i + 1;
    }
    true
}

/// Gives the last track its 2-second postgap if it has none, extending its
/// end by 2 seconds.
pub fn finalize_track_list(tracks: &mut Vec<Track>)
    requires
        old(tracks)@.len() > 0,
        old(tracks)@.last().wf(),
    ensures
        final(tracks)@.len() == old(tracks)@.len(),
        final(tracks)@.drop_last() == old(tracks)@.drop_last(),
        final(tracks)@.last() == (if old(tracks)@.last().postgap_len == CdTime::zero_spec() {
            Track {
                postgap_len: CdTime { minutes: 0, seconds: 2, frames: 0 },
                end_time: old(tracks)@.last().end_time.plus(CdTime { minutes: 0, seconds: 2, frames: 0 }),
                ..old(tracks)@.last()
            }
        } else {
            old(tracks)@.last()
        }),
        final(tracks)@.last().wf(),
{
    let n = tracks.len();
    let mut last = tracks[n - 1];
    if last.postgap_len == CdTime::zero() {
        let two = CdTime::new(0, 2, 0);
        proof {
            lemma_plus_wf(last.end_time, two);
        }
        last.postgap_len = two;
        last.end_time = last.end_time + two;
    }
    tracks.set(n - 1, last);
    assert(tracks@.drop_last() =~= old(tracks)@.drop_last());
}

/// A track as a CUE sheet lists it.
#[derive(Debug, Clone, Copy, PartialEq, Eq, Structural)]
pub struct ParsedTrack {
    pub number: u8,
    pub mode: TrackMode,
    pub pregap_len: Option<CdTime>,
    pub pause_start: Option<CdTime>,
    pub track_start: CdTime,
}

/// A BIN file as a CUE sheet lists it, with its tracks.
#[derive(Debug, Clone)]
pub struct ParsedFile {
    pub file_name: Vec<u8>,
    pub tracks: Vec<ParsedTrack>,
}

/// An optional time, or the start of the disc.
pub open spec fn or_zero(t: Option<CdTime>) -> CdTime {
    match t {
        Some(t) => t,
        None => CdTime::zero_spec(),
    }
}

/// Every time of a parsed track is well formed.
pub open spec fn parsed_track_wf(t: ParsedTrack) -> bool {
    &&& t.track_start.wf()
    &&& (t.pregap_len matches Some(p) ==> p.wf())
    &&& (t.pause_start matches Some(p) ==> p.wf())
}

/// The times on a disc that a track of a CUE sheet takes.
pub open spec fn two_seconds() -> CdTime {
    CdTime { minutes: 0, seconds: 2, frames: 0 }
}

/// The pregap of a track: 2 seconds for data, the listed one (or none)
/// for audio.
pub open spec fn pregap_of(t: ParsedTrack) -> CdTime {
    match type_of_mode(t.mode) {
        TrackType::Data => two_seconds(),
        TrackType::Audio => or_zero(t.pregap_len),
    }
}

/// The pause of a track: from its index 00 to its index 01, if it has an
/// index 00.
pub open spec fn pause_of(t: ParsedTrack) -> CdTime {
    match t.pause_start {
        Some(p) => t.track_start.minus(p),
        None => CdTime::zero_spec(),
    }
}

/// The postgap of a track: 2 seconds for data, none for audio.
pub open spec fn postgap_of(t: ParsedTrack) -> CdTime {
    match type_of_mode(t.mode) {
        TrackType::Data => two_seconds(),
        TrackType::Audio => CdTime::zero_spec(),
    }
}

/// Where the data of track `i` of a file ends: at the end of the file for
/// the last track, else where the next track starts (at its index 00 if it
/// has one).
pub open spec fn data_end_of(ts: Seq<ParsedTrack>, i: int, file_len_sectors: u32) -> CdTime {
    if i == ts.len() - 1 {
        time_of_sector(file_len_sectors as int)
    } else {
        match ts[i + 1].pause_start {
            Some(p) => p,
            None => ts[i + 1].track_start,
        }
    }
}

/// The length on the disc of track `i` of a file: its pregap, its pause,
/// its data and its postgap.
pub open spec fn padded_len_of(ts: Seq<ParsedTrack>, i: int, file_len_sectors: u32) -> CdTime {
    pregap_of(ts[i]).plus(pause_of(ts[i])).plus(data_end_of(ts, i, file_len_sectors).minus(ts[i].track_start)).plus(
        postgap_of(ts[i]),
    )
}

/// Track `i` of a file, placed on the disc at `start`.
pub open spec fn make_track(ts: Seq<ParsedTrack>, i: int, file_len_sectors: u32, start: CdTime) -> Track {
    Track {
        number: ts[i].number,
        mode: ts[i].mode,
        track_type: type_of_mode(ts[i].mode),
        start_time: start,
        end_time: start.plus(padded_len_of(ts, i, file_len_sectors)),
        pregap_len: pregap_of(ts[i]),
        pause_len: pause_of(ts[i]),
        postgap_len: postgap_of(ts[i]),
    }
}

/// The tracks of a file from its track `i` on, the first placed at
/// `start` and each after the one before.
pub open spec fn file_tracks(ts: Seq<ParsedTrack>, file_len_sectors: u32, start: CdTime, i: int) -> Seq<Track>
    decreases ts.len() - i,
{
    if i < 0 || i >= ts.len() {
        Seq::empty()
    } else {
        seq![make_track(ts, i, file_len_sectors, start)] + file_tracks(
            ts,
            file_len_sectors,
            start.plus(padded_len_of(ts, i, file_len_sectors)),
            i + 1,
        )
    }
}

/// Where the tracks of a file from its track `i` on end, the first placed
/// at `start`.
pub open spec fn file_end(ts: Seq<ParsedTrack>, file_len_sectors: u32, start: CdTime, i: int) -> CdTime
    decreases ts.len() - i,
{
    if i < 0 || i >= ts.len() {
        start
    } else {
        file_end(ts, file_len_sectors, start.plus(padded_len_of(ts, i, file_len_sectors)), i + 1)
    }
}

/// Where the data of track `i` of a file starts in that file.
pub open spec fn time_in_file_of(t: ParsedTrack) -> CdTime {
    match t.pause_start {
        Some(p) => p,
        None => t.track_start,
    }
}

/// The tracks of the files from file `f` on, placed one after another
/// from `start`.
pub open spec fn files_tracks(files: Seq<ParsedFile>, lens: Seq<u32>, start: CdTime, f: int) -> Seq<Track>
    decreases files.len() - f,
{
    if f < 0 || f >= files.len() {
        Seq::empty()
    } else {
        file_tracks(files[f].tracks@, lens[f], start, 0) + files_tracks(
            files,
            lens,
            file_end(files[f].tracks@, lens[f], start, 0),
            f + 1,
        )
    }
}

/// For each track of the files from file `f` on, the name of its file and
/// where its data starts in that file.
pub open spec fn files_metadata(files: Seq<ParsedFile>, f: int) -> Seq<(Seq<u8>, CdTime)>
    decreases files.len() - f,
{
    if f < 0 || f >= files.len() {
        Seq::empty()
    } else {
        Seq::new(files[f].tracks@.len(), |i: int| (files[f].file_name@, time_in_file_of(files[f].tracks@[i])))
            + files_metadata(files, f + 1)
    }
}

/// The parsed files can be placed on a disc: each has a track, every time
/// is well formed, and each file is shorter than 80 minutes.
pub open spec fn files_valid(files: Seq<ParsedFile>, lens: Seq<u32>) -> bool {
    &&& files.len() > 0
    &&& lens.len() == files.len()
    &&& forall|f: int| 0 <= f < files.len() ==> (#[trigger] files[f]).tracks@.len() > 0
    &&& forall|f: int, i: int| 0 <= f < files.len() && 0 <= i < files[f].tracks@.len()
        ==> parsed_track_wf(#[trigger] files[f].tracks@[i])
    &&& forall|f: int| 0 <= f < lens.len() ==> #[trigger] lens[f] < 360000
}

/// The well-formed parts of a parsed track give a well-formed track.
proof fn lemma_make_track_wf(ts: Seq<ParsedTrack>, i: int, file_len_sectors: u32, start: CdTime)
    requires
        0 <= i < ts.len(),
        forall|k: int| 0 <= k < ts.len() ==> parsed_track_wf(#[trigger] ts[k]),
        file_len_sectors < 360000,
        start.wf(),
    ensures
        make_track(ts, i, file_len_sectors, start).wf(),
        padded_len_of(ts, i, file_len_sectors).wf(),
{
    let t = ts[i];
    lemma_time_of_sector(file_len_sectors as int);
    if i + 1 < ts.len() {
        assert(parsed_track_wf(ts[i + 1]));
    }
    let pre = pregap_of(t);
    let pause = pause_of(t);
    let data = data_end_of(ts, i, file_len_sectors).minus(t.track_start);
    if let Some(p) = t.pause_start {
        lemma_minus_wf(t.track_start, p);
    }
    lemma_minus_wf(data_end_of(ts, i, file_len_sectors), t.track_start);
    lemma_plus_wf(pre, pause);
    lemma_plus_wf(pre.plus(pause), data);
    lemma_plus_wf(pre.plus(pause).plus(data), postgap_of(t));
    lemma_plus_wf(start, padded_len_of(ts, i, file_len_sectors));
}

/// Places the tracks of `file` one after another from `start`, appending
/// them and their places in the file; returns where the last ends.
fn place_file_tracks(
    file: &ParsedFile,
    file_len: u32,
    start: CdTime,
    tracks: &mut Vec<Track>,
    track_metadata: &mut Vec<TrackMetadata>,
) -> (end: CdTime)
    requires
        forall|k: int| 0 <= k < file.tracks@.len() ==> parsed_track_wf(#[trigger] file.tracks@[k]),
        file_len < 360000,
        start.wf(),
        forall|k: int| 0 <= k < old(tracks)@.len() ==> (#[trigger] old(tracks)@[k]).wf(),
    ensures
        final(tracks)@ == old(tracks)@ + file_tracks(file.tracks@, file_len, start, 0),
        end == file_end(file.tracks@, file_len, start, 0),
        end.wf(),
        forall|k: int| 0 <= k < final(tracks)@.len() ==> (#[trigger] final(tracks)@[k]).wf(),
        final(track_metadata)@.len() == old(track_metadata)@.len() + file.tracks@.len(),
        final(track_metadata)@.subrange(0, old(track_metadata)@.len() as int) == old(track_metadata)@,
        forall|k: int| 0 <= k < file.tracks@.len() ==> (#[trigger] final(track_metadata)@[old(track_metadata)@.len() + k]).file_name@
            == file.file_name@ && final(track_metadata)@[old(track_metadata)@.len() + k].time_in_file
            == time_in_file_of(file.tracks@[k]),
{
    let ghost ts = file.tracks@;
    let ghost tracks0 = tracks@;
    let ghost meta0 = track_metadata@;
    let mut absolute_start_time = start;
    let mut i: usize = 0;
    while i < file.tracks.len()
        invariant
            ts == file.tracks@,
            file_len < 360000,
            forall|k: int| 0 <= k < ts.len() ==> parsed_track_wf(#[trigger] ts[k]),
            i <= ts.len(),
            absolute_start_time.wf(),
            tracks@ + file_tracks(ts, file_len, absolute_start_time, i as int) == tracks0 + file_tracks(ts, file_len, start, 0),
            file_end(ts, file_len, absolute_start_time, i as int) == file_end(ts, file_len, start, 0),
            forall|k: int| 0 <= k < tracks@.len() ==> (#[trigger] tracks@[k]).wf(),
            track_metadata@.len() == meta0.len() + i,
            track_metadata@.subrange(0, meta0.len() as int) == meta0,
            forall|k: int| 0 <= k < i ==> (#[trigger] track_metadata@[meta0.len() + k]).file_name@ == file.file_name@
                && track_metadata@[meta0.len() + k].time_in_file == time_in_file_of(ts[k]),
        decreases ts.len() - i,
    {
        let track = &file.tracks[i];
        proof {
            lemma_make_track_wf(ts, i as int, file_len, absolute_start_time);
        }
        let track_type = track.mode.to_type();
        let pregap_len = match track_type {
            TrackType::Data => CdTime::new(0, 2, 0),
            TrackType::Audio => match track.pregap_len {
                Some(p) => p,
                None => CdTime::zero(),
            },
        };
        let pause_len = match track.pause_start {
            Some(pause_start) => track.track_start - pause_start,
            None => CdTime::zero(),
        };
        let is_last_track_in_file = i == file.tracks.len() - 1;
        let data_end_time = if is_last_track_in_file {
            CdTime::from_sector_number(file_len)
        } else {
            let next_track = &file.tracks[i + 1];
            match next_track.pause_start {
                Some(p) => p,
                None => next_track.track_start,
            }
        };
        let postgap_len = track_type.default_postgap_len();
        proof {
            let t = ts[i as int];
            lemma_time_of_sector(file_len as int);
            if i + 1 < ts.len() {
                assert(parsed_track_wf(ts[i + 1]));
            }
            if let Some(p) = t.pause_start {
                lemma_minus_wf(t.track_start, p);
            }
            lemma_minus_wf(data_end_time, t.track_start);
            lemma_plus_wf(pregap_len, pause_len);
            lemma_plus_wf(pregap_len.plus(pause_len), data_end_time.minus(t.track_start));
            lemma_plus_wf(pregap_len.plus(pause_len).plus(data_end_time.minus(t.track_start)), postgap_len);
        }
        let padded_track_len = pregap_len + pause_len + (data_end_time - track.track_start) + postgap_len;
        assert(padded_track_len == padded_len_of(ts, i as int, file_len));
        let new_track = Track {
            number: track.number,
            mode: track.mode,
            track_type,
            start_time: absolute_start_time,
            end_time: absolute_start_time + padded_track_len,
            pregap_len,
            pause_len,
            postgap_len,
        };
        assert(new_track == make_track(ts, i as int, file_len, absolute_start_time));
        let ghost old_tracks = tracks@;
        tracks.push(new_track);
        let time_in_file = match track.pause_start {
            Some(p) => p,
            None => track.track_start,
        };
        track_metadata.push(TrackMetadata { file_name: vstd::slice::slice_to_vec(file.file_name.as_slice()), time_in_file });
        proof {
            assert(file_tracks(ts, file_len, absolute_start_time, i as int) == seq![new_track] + file_tracks(
                ts,
                file_len,
                absolute_start_time.plus(padded_track_len),
                i + 1,
            ));
            assert(tracks@ + file_tracks(ts, file_len, absolute_start_time.plus(padded_track_len), i + 1) =~= old_tracks
                + file_tracks(ts, file_len, absolute_start_time, i as int));
        }
        absolute_start_time = absolute_start_time + padded_track_len;
        i = i + 1;
        assert(track_metadata@.subrange(0, meta0.len() as int) =~= meta0);
    }
    assert(tracks@ =~= tracks0 + file_tracks(ts, file_len, start, 0));
    absolute_start_time
}

/// Places the tracks of the parsed files one after another from the start
/// of the disc, gives the last its postgap, and returns the sheet with,
/// for each track, where its data lies in its file. `file_len_sectors`
/// gives the length of each file in whole sectors.
pub fn to_cue_sheet(parsed_files: &Vec<ParsedFile>, file_len_sectors: &Vec<u32>) -> (r: (CueSheet, Vec<TrackMetadata>))
    requires
        files_valid(parsed_files@, file_len_sectors@),
    ensures
        r.0.wf(),
        r.0.tracks@.drop_last() == files_tracks(parsed_files@, file_len_sectors@, CdTime::zero_spec(), 0).drop_last(),
        r.0.tracks@.len() == files_tracks(parsed_files@, file_len_sectors@, CdTime::zero_spec(), 0).len(),
        ({
            let last = files_tracks(parsed_files@, file_len_sectors@, CdTime::zero_spec(), 0).last();
            r.0.tracks@.last() == (if last.postgap_len == CdTime::zero_spec() {
                Track { postgap_len: two_seconds(), end_time: last.end_time.plus(two_seconds()), ..last }
            } else {
                last
            })
        }),
        continuous(r.0.tracks@),
        r.1@.len() == files_metadata(parsed_files@, 0).len(),
        forall|k: int| 0 <= k < r.1@.len() ==> (#[trigger] r.1@[k]).file_name@ == files_metadata(parsed_files@, 0)[k].0
            && r.1@[k].time_in_file == files_metadata(parsed_files@, 0)[k].1,
{
    let ghost files = parsed_files@;
    let ghost lens = file_len_sectors@;
    let ghost all_tracks = files_tracks(files, lens, CdTime::zero_spec(), 0);
    let ghost all_meta = files_metadata(files, 0);
    let mut absolute_start_time = CdTime::zero();
    let mut tracks: Vec<Track> = Vec::new();
    let mut track_metadata: Vec<TrackMetadata> = Vec::new();
    let mut f: usize = 0;
    while f < parsed_files.len()
        invariant
            files == parsed_files@,
            lens == file_len_sectors@,
            files_valid(files, lens),
            all_tracks == files_tracks(files, lens, CdTime::zero_spec(), 0),
            all_meta == files_metadata(files, 0),
            f <= files.len(),
            absolute_start_time.wf(),
            tracks@ + files_tracks(files, lens, absolute_start_time, f as int) == all_tracks,
            forall|k: int| 0 <= k < tracks@.len() ==> (#[trigger] tracks@[k]).wf(),
            track_metadata@.len() + files_metadata(files, f as int).len() == all_meta.len(),
            forall|k: int| 0 <= k < track_metadata@.len() ==> (#[trigger] track_metadata@[k]).file_name@
                == all_meta[k].0 && track_metadata@[k].time_in_file == all_meta[k].1,
            forall|k: int| 0 <= k < files_metadata(files, f as int).len() ==> #[trigger] all_meta[track_metadata@.len() + k]
                == files_metadata(files, f as int)[k],
        decreases files.len() - f,
    {
        let file = &parsed_files[f];
        let ghost ts = file.tracks@;
        let file_len = file_len_sectors[f];
        assert(forall|k: int| 0 <= k < ts.len() ==> parsed_track_wf(#[trigger] ts[k])) by {
            assert forall|k: int| 0 <= k < ts.len() implies parsed_track_wf(#[trigger] ts[k]) by {
                assert(parsed_track_wf(files[f as int].tracks@[k]));
            }
        }
        assert(file_len < 360000);
        let ghost start0 = absolute_start_time;
        let ghost tracks0 = tracks@;
        let ghost meta0 = track_metadata@;
        absolute_start_time = place_file_tracks(file, file_len, absolute_start_time, &mut tracks, &mut track_metadata);
        proof {
            assert(files_tracks(files, lens, start0, f as int) == file_tracks(ts, file_len, start0, 0) + files_tracks(
                files,
                lens,
                absolute_start_time,
                f + 1,
            ));
            assert((tracks@ + files_tracks(files, lens, absolute_start_time, f + 1)) =~= (tracks0 + files_tracks(files, lens, start0, f as int)));
            let fm = files_metadata(files, f as int);
            let fm1 = files_metadata(files, f + 1);
            assert(fm == Seq::new(ts.len(), |k: int| (files[f as int].file_name@, time_in_file_of(ts[k]))) + fm1);
            assert forall|k: int| 0 <= k < track_metadata@.len() implies (#[trigger] track_metadata@[k]).file_name@
                == all_meta[k].0 && track_metadata@[k].time_in_file == all_meta[k].1 by {
                if k >= meta0.len() {
                    let j = k - meta0.len();
                    assert(all_meta[meta0.len() + j] == fm[j]);
                } else {
                    assert(track_metadata@[k] == track_metadata@.subrange(0, meta0.len() as int)[k]);
                }
            }
            assert forall|k: int| 0 <= k < fm1.len() implies #[trigger] all_meta[track_metadata@.len() + k] == fm1[k] by {
                assert(all_meta[meta0.len() + (ts.len() + k)] == fm[ts.len() + k]);
            }
        }
        f = f + 1;
    }
    proof {
        assert(files_tracks(files, lens, absolute_start_time, f as int) == Seq::<Track>::empty());
        assert(tracks@ =~= all_tracks);
    }
    assert(tracks@.len() > 0) by {
        assert(files[0].tracks@.len() > 0);
        assert(file_tracks(files[0].tracks@, lens[0], CdTime::zero_spec(), 0).len() > 0);
        assert(all_tracks == file_tracks(files[0].tracks@, lens[0], CdTime::zero_spec(), 0) + files_tracks(
            files,
            lens,
            file_end(files[0].tracks@, lens[0], CdTime::zero_spec(), 0),
            1,
        ));
    }
    let ghost before = tracks@;
    finalize_track_list(&mut tracks);
    assert forall|k: int| 0 <= k < tracks@.len() implies (#[trigger] tracks@[k]).wf() by {
        if k < tracks@.len() - 1 {
            assert(tracks@[k] == tracks@.drop_last()[k]);
            assert(before[k] == before.drop_last()[k]);
        }
    }
    proof {
        lemma_sheet_continuous(files, lens);
        let t = tracks@;
        assert forall|i: int| 0 <= i < t.len() - 1 implies #[trigger] t[i + 1].start_time == t[i].end_time by {
            assert(t[i] == t.drop_last()[i] && before[i] == before.drop_last()[i]);
            if i + 1 < t.len() - 1 {
                assert(t[i + 1] == t.drop_last()[i + 1] && before[i + 1] == before.drop_last()[i + 1]);
            }
        }
        assert(t[0].start_time == CdTime::zero_spec()) by {
            if t.len() > 1 {
                assert(t[0] == t.drop_last()[0] && before[0] == before.drop_last()[0]);
            }
        }
    }
    let sheet = CueSheet::new(tracks);
    (sheet, track_metadata)
}

/// Each track starts where the one before it ends.
pub open spec fn chained(tracks: Seq<Track>) -> bool {
    forall|i: int| 0 <= i < tracks.len() - 1 ==> #[trigger] tracks[i + 1].start_time == tracks[i].end_time
}

/// Two chained runs of tracks, the second starting where the first ends,
/// make one.
proof fn lemma_chained_concat(a: Seq<Track>, b: Seq<Track>)
    requires
        chained(a),
        chained(b),
        a.len() > 0 && b.len() > 0 ==> b[0].start_time == a.last().end_time,
    ensures
        chained(a + b),
{
    let c = a + b;
    assert forall|i: int| 0 <= i < c.len() - 1 implies #[trigger] c[i + 1].start_time == c[i].end_time by {
        if i + 1 < a.len() {
            assert(a[i + 1].start_time == a[i].end_time);
            assert(c[i + 1] == a[i + 1] && c[i] == a[i]);
        } else if i + 1 == a.len() {
            assert(c[i + 1] == b[0] && c[i] == a[i]);
        } else {
            let j = i - a.len();
            assert(b[j + 1].start_time == b[j].end_time);
            assert(c[i + 1] == b[j + 1] && c[i] == b[j]);
        }
    }
}

/// The tracks of a file from track `i` on are chained, the first starts at
/// `start`, and the last ends where the file ends.
proof fn lemma_file_tracks_chained(ts: Seq<ParsedTrack>, file_len: u32, start: CdTime, i: int)
    requires
        0 <= i,
    ensures
        chained(file_tracks(ts, file_len, start, i)),
        i < ts.len() ==> file_tracks(ts, file_len, start, i).len() > 0 && file_tracks(ts, file_len, start, i)[0].start_time
            == start && file_tracks(ts, file_len, start, i).last().end_time == file_end(ts, file_len, start, i),
        i >= ts.len() ==> file_tracks(ts, file_len, start, i).len() == 0,
    decreases ts.len() - i,
{
    if i < ts.len() {
        let next = start.plus(padded_len_of(ts, i, file_len));
        lemma_file_tracks_chained(ts, file_len, next, i + 1);
        let head = seq![make_track(ts, i, file_len, start)];
        let tail = file_tracks(ts, file_len, next, i + 1);
        lemma_chained_concat(head, tail);
        assert(file_tracks(ts, file_len, start, i) == head + tail);
        assert(file_end(ts, file_len, start, i) == file_end(ts, file_len, next, i + 1));
        assert((head + tail)[0] == head[0]);
        if tail.len() > 0 {
            assert((head + tail).last() == tail.last());
        } else {
            assert(file_end(ts, file_len, next, i + 1) == next);
            assert((head + tail).last() == head[0]);
        }
    }
}

/// The tracks of the files from file `f` on are chained, the first
/// starting at `start`, when every file has a track.
proof fn lemma_files_tracks_chained(files: Seq<ParsedFile>, lens: Seq<u32>, start: CdTime, f: int)
    requires
        0 <= f,
        forall|k: int| 0 <= k < files.len() ==> (#[trigger] files[k]).tracks@.len() > 0,
    ensures
        chained(files_tracks(files, lens, start, f)),
        f < files.len() ==> files_tracks(files, lens, start, f).len() > 0 && files_tracks(files, lens, start, f)[0].start_time
            == start,
    decreases files.len() - f,
{
    if f < files.len() {
        let ts = files[f].tracks@;
        let end = file_end(ts, lens[f], start, 0);
        lemma_file_tracks_chained(ts, lens[f], start, 0);
        lemma_files_tracks_chained(files, lens, end, f + 1);
        let head = file_tracks(ts, lens[f], start, 0);
        let tail = files_tracks(files, lens, end, f + 1);
        lemma_chained_concat(head, tail);
        assert(files_tracks(files, lens, start, f) == head + tail);
        assert((head + tail)[0] == head[0]);
    }
}

/// The tracks of a sheet made from CUE files follow one another from the
/// start of the disc.
pub proof fn lemma_sheet_continuous(files: Seq<ParsedFile>, lens: Seq<u32>)
    requires
        files_valid(files, lens),
    ensures
        continuous(files_tracks(files, lens, CdTime::zero_spec(), 0)),
{
    lemma_files_tracks_chained(files, lens, CdTime::zero_spec(), 0);
}

} // verus!
