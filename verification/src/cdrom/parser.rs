use vstd::prelude::*;

use crate::cdrom::cuebin::{ParsedFile, ParsedTrack, TrackMode, mode_named};
use crate::cdrom::text::{
    SPACE, TimeParseError, bytes_match_at, find_word_end, matches_at, parse_time_spec, parse_u8,
    parse_u8_spec, starts_with, word_end,
};
use crate::cdrom::time::CdTime;

verus! {

/// Why a CUE sheet is refused.
#[derive(Debug, Clone, Copy, PartialEq, Eq, Structural)]
pub enum CueError {
    /// The sheet names no file.
    NoFiles,
    /// A `FILE` line is not `FILE "name" BINARY`.
    InvalidFileLine,
    /// A `TRACK` line does not have a number and a mode.
    InvalidTrackLine,
    /// A track number is not a decimal byte.
    InvalidTrackNumber,
    /// A track mode is not `MODE1/2352`, `MODE2/2352` or `AUDIO`.
    UnsupportedTrackMode,
    /// An `INDEX` line does not have a number and a time.
    InvalidIndexLine,
    /// A time is not `MM:SS:FF`.
    InvalidTime(TimeParseError),
    /// An index is neither 00 nor 01.
    UnexpectedIndexNumber,
    /// A `PREGAP` line has no length.
    InvalidPregapLine,
    /// A file has no track.
    NoTracksInFile,
    /// The first track is not track 1.
    FirstTrackNotOne(u8),
    /// A track (the first number) does not follow the one before (the
    /// second).
    TracksOutOfOrder(u8, u8),
    /// A track has no index 01.
    NoTrackStart(u8),
}

/// `FILE `
pub open spec fn file_prefix() -> Seq<u8> {
    seq![0x46u8, 0x49, 0x4c, 0x45, 0x20]
}

/// `FILE "`
pub open spec fn file_quote() -> Seq<u8> {
    seq![0x46u8, 0x49, 0x4c, 0x45, 0x20, 0x22]
}

/// `" BINARY`
pub open spec fn binary_suffix() -> Seq<u8> {
    seq![0x22u8, 0x20, 0x42, 0x49, 0x4e, 0x41, 0x52, 0x59]
}

/// `  TRACK `
pub open spec fn track_prefix() -> Seq<u8> {
    seq![0x20u8, 0x20, 0x54, 0x52, 0x41, 0x43, 0x4b, 0x20]
}

/// `TRACK `
pub open spec fn track_keyword() -> Seq<u8> {
    seq![0x54u8, 0x52, 0x41, 0x43, 0x4b, 0x20]
}

/// `    INDEX `
pub open spec fn index_prefix() -> Seq<u8> {
    seq![0x20u8, 0x20, 0x20, 0x20, 0x49, 0x4e, 0x44, 0x45, 0x58, 0x20]
}

/// `INDEX `
pub open spec fn index_keyword() -> Seq<u8> {
    seq![0x49u8, 0x4e, 0x44, 0x45, 0x58, 0x20]
}

/// `    PREGAP `
pub open spec fn pregap_prefix() -> Seq<u8> {
    seq![0x20u8, 0x20, 0x20, 0x20, 0x50, 0x52, 0x45, 0x47, 0x41, 0x50, 0x20]
}

/// `PREGAP `
pub open spec fn pregap_keyword() -> Seq<u8> {
    seq![0x50u8, 0x52, 0x45, 0x47, 0x41, 0x50, 0x20]
}

/// The last position at most `r` and at least `lo` where `pat` occurs in
/// `s`, or -1.
pub open spec fn last_match(s: Seq<u8>, pat: Seq<u8>, r: int, lo: int) -> int
    decreases r - lo + 1,
{
    if r < lo {
        -1
    } else if matches_at(s, pat, r) {
        r
    } else {
        last_match(s, pat, r - 1, lo)
    }
}

/// The file name of a `FILE "name" BINARY` line, searched from `q`: at the
/// first `FILE "` followed somewhere by `" BINARY`, the name runs to the
/// last such `" BINARY`. Gives the range of the name.
pub open spec fn file_capture_from(line: Seq<u8>, q: int) -> Option<(int, int)>
    decreases line.len() - q,
{
    if q < 0 || q + 6 > line.len() {
        None
    } else if matches_at(line, file_quote(), q) && last_match(line, binary_suffix(), line.len() - 8, q + 6) >= 0 {
        Some((q + 6, last_match(line, binary_suffix(), line.len() - 8, q + 6)))
    } else {
        file_capture_from(line, q + 1)
    }
}

/// The two words after the first `kw` (searched from `q`) that is followed
/// by a word and a space: the ranges of the word and of the word after the
/// space.
pub open spec fn two_words_from(line: Seq<u8>, kw: Seq<u8>, q: int) -> Option<(int, int, int, int)>
    decreases line.len() + 1 - q,
{
    if q < 0 || q + kw.len() > line.len() {
        None
    } else if matches_at(line, kw, q) && word_end(line, q + kw.len()) < line.len() {
        let a = q + kw.len();
        let e = word_end(line, a);
        Some((a, e, e + 1, word_end(line, e + 1)))
    } else {
        two_words_from(line, kw, q + 1)
    }
}

/// The range of the word after the first `kw`, searched from `q`.
pub open spec fn one_word_from(line: Seq<u8>, kw: Seq<u8>, q: int) -> Option<(int, int)>
    decreases line.len() + 1 - q,
{
    if q < 0 || q + kw.len() > line.len() {
        None
    } else if matches_at(line, kw, q) {
        Some((q + kw.len(), word_end(line, q + kw.len())))
    } else {
        one_word_from(line, kw, q + 1)
    }
}

/// The end of the line that starts at `i`: the first newline at or after
/// `i`, or the end of the text.
pub open spec fn line_end(t: Seq<u8>, i: int) -> int
    decreases t.len() - i,
{
    if i < 0 || i >= t.len() {
        t.len() as int
    } else if t[i] == 0x0a {
        i
    } else {
        line_end(t, i + 1)
    }
}

/// The line that starts at `i`, without its newline, and without a
/// carriage return before that newline.
pub open spec fn line_at(t: Seq<u8>, i: int) -> Seq<u8> {
    let e = line_end(t, i);
    let raw = t.subrange(i, e);
    if e < t.len() && raw.len() > 0 && raw.last() == 0x0d {
        raw.drop_last()
    } else {
        raw
    }
}

/// The state of the CUE sheet parser.
#[verifier::ext_equal]
pub struct CueParserState {
    pub files: Seq<(Seq<u8>, Seq<ParsedTrack>)>,
    pub tracks: Seq<ParsedTrack>,
    pub current_file: Option<Seq<u8>>,
    pub current_track: Option<(u8, TrackMode)>,
    pub last_track_number: Option<u8>,
    pub pregap_len: Option<CdTime>,
    pub pause_start: Option<CdTime>,
    pub track_start: Option<CdTime>,
}

impl CueParserState {
    /// The state before the first line.
    pub open spec fn initial() -> CueParserState {
        CueParserState {
            files: Seq::empty(),
            tracks: Seq::empty(),
            current_file: None,
            current_track: None,
            last_track_number: None,
            pregap_len: None,
            pause_start: None,
            track_start: None,
        }
    }

    /// Ends the current track, if any: it must follow the track before (or
    /// be track 1) and have a start; it takes the pregap and pause seen
    /// since it began.
    pub open spec fn push_track(self) -> Result<CueParserState, CueError> {
        match self.current_track {
            None => Ok(self),
            Some((n, mode)) => match self.last_track_number {
                None if n != 1 => Err(CueError::FirstTrackNotOne(n)),
                Some(l) if n != l + 1 => Err(CueError::TracksOutOfOrder(n, l)),
                _ => match self.track_start {
                    None => Err(CueError::NoTrackStart(n)),
                    Some(start) => Ok(
                        CueParserState {
                            tracks: self.tracks.push(
                                ParsedTrack {
                                    number: n,
                                    mode,
                                    pregap_len: self.pregap_len,
                                    pause_start: self.pause_start,
                                    track_start: start,
                                },
                            ),
                            current_track: None,
                            last_track_number: Some(n),
                            pregap_len: None,
                            pause_start: None,
                            track_start: None,
                            ..self
                        },
                    ),
                },
            },
        }
    }

    /// Ends the current track and the current file, if any; a file must
    /// have a track.
    pub open spec fn push_file(self) -> Result<CueParserState, CueError> {
        match self.push_track() {
            Err(e) => Err(e),
            Ok(s) => match s.current_file {
                None => Ok(s),
                Some(name) => if s.tracks.len() == 0 {
                    Err(CueError::NoTracksInFile)
                } else {
                    Ok(
                        CueParserState {
                            files: s.files.push((name, s.tracks)),
                            tracks: Seq::empty(),
                            current_file: None,
                            ..s
                        },
                    )
                },
            },
        }
    }

    /// A `FILE` line: ends the current file and starts the named one.
    pub open spec fn file_line(self, line: Seq<u8>) -> Result<CueParserState, CueError> {
        match self.push_file() {
            Err(e) => Err(e),
            Ok(s) => match file_capture_from(line, 0) {
                None => Err(CueError::InvalidFileLine),
                Some((a, b)) => Ok(CueParserState { current_file: Some(line.subrange(a, b)), ..s }),
            },
        }
    }

    /// A `TRACK` line: ends the current track and starts the one of the
    /// given number and mode.
    pub open spec fn track_line(self, line: Seq<u8>) -> Result<CueParserState, CueError> {
        match self.push_track() {
            Err(e) => Err(e),
            Ok(s) => match two_words_from(line, track_keyword(), 0) {
                None => Err(CueError::InvalidTrackLine),
                Some((a, b, c, d)) => match parse_u8_spec(line.subrange(a, b)) {
                    None => Err(CueError::InvalidTrackNumber),
                    Some(n) => match mode_named(line.subrange(c, d)) {
                        None => Err(CueError::UnsupportedTrackMode),
                        Some(mode) => Ok(CueParserState { current_track: Some((n, mode)), ..s }),
                    },
                },
            },
        }
    }

    /// An `INDEX` line: index 00 starts the pause, index 01 the track.
    pub open spec fn index_line(self, line: Seq<u8>) -> Result<CueParserState, CueError> {
        match two_words_from(line, index_keyword(), 0) {
            None => Err(CueError::InvalidIndexLine),
            Some((a, b, c, d)) => match parse_time_spec(line.subrange(c, d)) {
                Err(e) => Err(CueError::InvalidTime(e)),
                Ok(t) => if line.subrange(a, b) == seq![0x30u8, 0x30] {
                    Ok(CueParserState { pause_start: Some(t), ..self })
                } else if line.subrange(a, b) == seq![0x30u8, 0x31] {
                    Ok(CueParserState { track_start: Some(t), ..self })
                } else {
                    Err(CueError::UnexpectedIndexNumber)
                },
            },
        }
    }

    /// A `PREGAP` line: the pregap of the current track.
    pub open spec fn pregap_line(self, line: Seq<u8>) -> Result<CueParserState, CueError> {
        match one_word_from(line, pregap_keyword(), 0) {
            None => Err(CueError::InvalidPregapLine),
            Some((a, b)) => match parse_time_spec(line.subrange(a, b)) {
                Err(e) => Err(CueError::InvalidTime(e)),
                Ok(t) => Ok(CueParserState { pregap_len: Some(t), ..self }),
            },
        }
    }

    /// One line of the sheet; lines of other kinds are ignored.
    pub open spec fn step_line(self, line: Seq<u8>) -> Result<CueParserState, CueError> {
        if starts_with(line, file_prefix()) {
            self.file_line(line)
        } else if starts_with(line, track_prefix()) {
            self.track_line(line)
        } else if starts_with(line, index_prefix()) {
            self.index_line(line)
        } else if starts_with(line, pregap_prefix()) {
            self.pregap_line(line)
        } else {
            Ok(self)
        }
    }
}

/// The state after the lines of `t` from position `i` on.
pub open spec fn run_lines(t: Seq<u8>, i: int, s: CueParserState) -> Result<CueParserState, CueError>
    decreases t.len() + 1 - i,
{
    if i < 0 || i >= t.len() {
        Ok(s)
    } else {
        match s.step_line(line_at(t, i)) {
            Err(e) => Err(e),
            Ok(s2) => if i <= line_end(t, i) <= t.len() {
                run_lines(t, line_end(t, i) + 1, s2)
            } else {
                Ok(s2)
            },
        }
    }
}

/// The files of a CUE sheet, each with its name and its tracks.
pub open spec fn parse_cue_spec(t: Seq<u8>) -> Result<Seq<(Seq<u8>, Seq<ParsedTrack>)>, CueError> {
    match run_lines(t, 0, CueParserState::initial()) {
        Err(e) => Err(e),
        Ok(s) => match s.push_file() {
            Err(e) => Err(e),
            Ok(s2) => if s2.files.len() == 0 {
                Err(CueError::NoFiles)
            } else {
                Ok(s2.files)
            },
        },
    }
}

/// The files as the parser sees them.
pub open spec fn files_view(files: Seq<ParsedFile>) -> Seq<(Seq<u8>, Seq<ParsedTrack>)> {
    Seq::new(files.len(), |k: int| (files[k].file_name@, files[k].tracks@))
}

/// The parser of CUE sheets.
pub struct CueParser {
    pub files: Vec<ParsedFile>,
    pub tracks: Vec<ParsedTrack>,
    pub current_file: Option<Vec<u8>>,
    pub current_track: Option<(u8, TrackMode)>,
    pub last_track_number: Option<u8>,
    pub pregap_len: Option<CdTime>,
    pub pause_start: Option<CdTime>,
    pub track_start: Option<CdTime>,
}

impl View for CueParser {
    type V = CueParserState;

    open spec fn view(&self) -> CueParserState {
        CueParserState {
            files: files_view(self.files@),
            tracks: self.tracks@,
            current_file: match self.current_file {
                Some(v) => Some(v@),
                None => None,
            },
            current_track: self.current_track,
            last_track_number: self.last_track_number,
            pregap_len: self.pregap_len,
            pause_start: self.pause_start,
            track_start: self.track_start,
        }
    }
}

/// Whether a step of the parser gave `expected`.
pub open spec fn step_result(r: Result<(), CueError>, after: CueParserState, expected: Result<CueParserState, CueError>) -> bool {
    match r {
        Ok(()) => expected == Ok::<CueParserState, CueError>(after),
        Err(e) => expected == Err::<CueParserState, CueError>(e),
    }
}

/// The last position from `hi` down to `lo` where `pat` occurs in `s`.
fn find_last_match(s: &[u8], pat: &[u8], hi: usize, lo: usize) -> (r: Option<usize>)
    ensures
        match r {
            Some(x) => last_match(s@, pat@, hi as int, lo as int) == x && lo <= x <= hi,
            None => last_match(s@, pat@, hi as int, lo as int) == -1,
        },
{
    let mut r = hi;
    while r >= lo
        invariant
            r <= hi,
            last_match(s@, pat@, hi as int, lo as int) == last_match(s@, pat@, r as int, lo as int),
        decreases r,
    {
        if bytes_match_at(s, pat, r) {
            return Some(r);
        }
        if r == 0 {
            assert(last_match(s@, pat@, -1, lo as int) == -1);
            return None;
        }
        r = r - 1;
    }
    None
}

/// The range of the file name of a `FILE` line.
fn find_file_capture(line: &[u8]) -> (r: Option<(usize, usize)>)
    ensures
        match r {
            Some((a, b)) => file_capture_from(line@, 0) == Some((a as int, b as int)) && a <= b <= line@.len(),
            None => file_capture_from(line@, 0) is None,
        },
{
    let quote: [u8; 6] = [0x46, 0x49, 0x4c, 0x45, 0x20, 0x22];
    let suffix: [u8; 8] = [0x22, 0x20, 0x42, 0x49, 0x4e, 0x41, 0x52, 0x59];
    assert(quote@ =~= file_quote());
    assert(suffix@ =~= binary_suffix());
    let n = line.len();
    let mut q: usize = 0;
    while q < n && n - q >= 6
        invariant
            q <= n,
            n == line@.len(),
            quote@ == file_quote(),
            suffix@ == binary_suffix(),
            file_capture_from(line@, q as int) == file_capture_from(line@, 0),
        decreases n - q,
    {
        if bytes_match_at(line, &quote, q) {
            if n >= 8 {
                if let Some(r) = find_last_match(line, &suffix, n - 8, q + 6) {
                    proof {
                        assert(matches_at(line@, binary_suffix(), r as int)) by {
                            lemma_last_match_matches(line@, binary_suffix(), (n - 8) as int, (q + 6) as int);
                        }
                    }
                    return Some((q + 6, r));
                }
            } else {
                assert(last_match(line@, binary_suffix(), n - 8, q + 6) == -1);
            }
        }
        q = q + 1;
    }
    None
}

/// The position `last_match` finds is a match within its bounds.
proof fn lemma_last_match_matches(s: Seq<u8>, pat: Seq<u8>, r: int, lo: int)
    requires
        last_match(s, pat, r, lo) >= 0,
    ensures
        matches_at(s, pat, last_match(s, pat, r, lo)),
        lo <= last_match(s, pat, r, lo) <= r,
    decreases r - lo + 1,
{
    if r >= lo && !matches_at(s, pat, r) {
        lemma_last_match_matches(s, pat, r - 1, lo);
    }
}

/// The ranges of the two words after `kw` on a line.
fn find_two_words(line: &[u8], kw: &[u8]) -> (r: Option<(usize, usize, usize, usize)>)
    requires
        kw@.len() > 0,
    ensures
        match r {
            Some((a, b, c, d)) => two_words_from(line@, kw@, 0) == Some((a as int, b as int, c as int, d as int))
                && a <= b < c <= d <= line@.len(),
            None => two_words_from(line@, kw@, 0) is None,
        },
{
    let n = line.len();
    let mut q: usize = 0;
    while q < n && n - q >= kw.len()
        invariant
            q <= n,
            kw@.len() > 0,
            n == line@.len(),
            two_words_from(line@, kw@, q as int) == two_words_from(line@, kw@, 0),
        decreases n + 1 - q,
    {
        if bytes_match_at(line, kw, q) {
            let a = q + kw.len();
            let e = find_word_end(line, a);
            if e < n {
                let d = find_word_end(line, e + 1);
                return Some((a, e, e + 1, d));
            }
        }
        q = q + 1;
    }
    None
}

/// The range of the word after `kw` on a line.
fn find_one_word(line: &[u8], kw: &[u8]) -> (r: Option<(usize, usize)>)
    requires
        kw@.len() > 0,
    ensures
        match r {
            Some((a, b)) => one_word_from(line@, kw@, 0) == Some((a as int, b as int)) && a <= b <= line@.len(),
            None => one_word_from(line@, kw@, 0) is None,
        },
{
    let n = line.len();
    let mut q: usize = 0;
    while q < n && n - q >= kw.len()
        invariant
            q <= n,
            kw@.len() > 0,
            n == line@.len(),
            one_word_from(line@, kw@, q as int) == one_word_from(line@, kw@, 0),
        decreases n + 1 - q,
    {
        if bytes_match_at(line, kw, q) {
            let a = q + kw.len();
            let e = find_word_end(line, a);
            return Some((a, e));
        }
        q = q + 1;
    }
    None
}

/// The end of the line that starts at `i`.
fn find_line_end(t: &[u8], i: usize) -> (r: usize)
    requires
        i <= t@.len(),
    ensures
        r == line_end(t@, i as int),
        i <= r <= t@.len(),
{
    let mut j = i;
    while j < t.len() && t[j] != 0x0a
        invariant
            i <= j <= t@.len(),
            line_end(t@, j as int) == line_end(t@, i as int),
        decreases t@.len() - j,
    {
        j = j + 1;
    }
    j
}

impl CueParser {
    /// A parser before the first line.
    pub fn new() -> (r: CueParser)
        ensures
            r@ == CueParserState::initial(),
    {
        let r = CueParser {
            files: Vec::new(),
            tracks: Vec::new(),
            current_file: None,
            current_track: None,
            last_track_number: None,
            pregap_len: None,
            pause_start: None,
            track_start: None,
        };
        assert(r@ =~= CueParserState::initial());
        r
    }

    /// Ends the current track, if any.
    fn push_track(&mut self) -> (r: Result<(), CueError>)
        ensures
            step_result(r, final(self)@, old(self)@.push_track()),
    {
        let current = self.current_track;
        let (n, mode) = match current {
            None => return Ok(()),
            Some(x) => x,
        };
        self.current_track = None;
        match self.last_track_number {
            None => {
                if n != 1 {
                    return Err(CueError::FirstTrackNotOne(n));
                }
            },
            Some(l) => {
                if l == 255 || n != l + 1 {
                    return Err(CueError::TracksOutOfOrder(n, l));
                }
            },
        }
        self.last_track_number = Some(n);
        let start = match self.track_start {
            None => return Err(CueError::NoTrackStart(n)),
            Some(t) => t,
        };
        self.track_start = None;
        let track = ParsedTrack {
            number: n,
            mode,
            pregap_len: self.pregap_len,
            pause_start: self.pause_start,
            track_start: start,
        };
        self.pregap_len = None;
        self.pause_start = None;
        self.tracks.push(track);
        assert(self@ =~= old(self)@.push_track()->Ok_0);
        Ok(())
    }

    /// Ends the current track and the current file, if any.
    fn push_file(&mut self) -> (r: Result<(), CueError>)
        ensures
            step_result(r, final(self)@, old(self)@.push_file()),
    {
        match self.push_track() {
            Err(e) => return Err(e),
            Ok(()) => {},
        }
        let ghost mid = self@;
        let name = match self.current_file.take() {
            None => return Ok(()),
            Some(name) => name,
        };
        if self.tracks.len() == 0 {
            return Err(CueError::NoTracksInFile);
        }
        let mut tracks: Vec<ParsedTrack> = Vec::new();
        core::mem::swap(&mut tracks, &mut self.tracks);
        let ghost old_files = self.files@;
        self.files.push(ParsedFile { file_name: name, tracks });
        assert(files_view(self.files@) =~= files_view(old_files).push((name@, tracks@)));
        assert(self@ =~= old(self)@.push_file()->Ok_0);
        Ok(())
    }

    /// A `FILE` line.
    fn parse_file_line(&mut self, line: &[u8]) -> (r: Result<(), CueError>)
        ensures
            step_result(r, final(self)@, old(self)@.file_line(line@)),
    {
        match self.push_file() {
            Err(e) => return Err(e),
            Ok(()) => {},
        }
        match find_file_capture(line) {
            None => Err(CueError::InvalidFileLine),
            Some((a, b)) => {
                let name = vstd::slice::slice_to_vec(vstd::slice::slice_subrange(line, a, b));
                self.current_file = Some(name);
                assert(self@ =~= old(self)@.file_line(line@)->Ok_0);
                Ok(())
            },
        }
    }

    /// A `TRACK` line.
    fn parse_track_line(&mut self, line: &[u8]) -> (r: Result<(), CueError>)
        ensures
            step_result(r, final(self)@, old(self)@.track_line(line@)),
    {
        match self.push_track() {
            Err(e) => return Err(e),
            Ok(()) => {},
        }
        let kw: [u8; 6] = [0x54, 0x52, 0x41, 0x43, 0x4b, 0x20];
        assert(kw@ =~= track_keyword());
        match find_two_words(line, &kw) {
            None => Err(CueError::InvalidTrackLine),
            Some((a, b, c, d)) => {
                let n = match parse_u8(vstd::slice::slice_subrange(line, a, b)) {
                    None => return Err(CueError::InvalidTrackNumber),
                    Some(n) => n,
                };
                let mode = match TrackMode::parse(vstd::slice::slice_subrange(line, c, d)) {
                    None => return Err(CueError::UnsupportedTrackMode),
                    Some(mode) => mode,
                };
                self.current_track = Some((n, mode));
                assert(self@ =~= old(self)@.track_line(line@)->Ok_0);
                Ok(())
            },
        }
    }

    /// An `INDEX` line.
    fn parse_index_line(&mut self, line: &[u8]) -> (r: Result<(), CueError>)
        ensures
            step_result(r, final(self)@, old(self)@.index_line(line@)),
    {
        let kw: [u8; 6] = [0x49, 0x4e, 0x44, 0x45, 0x58, 0x20];
        assert(kw@ =~= index_keyword());
        match find_two_words(line, &kw) {
            None => Err(CueError::InvalidIndexLine),
            Some((a, b, c, d)) => {
                let t = match CdTime::parse(vstd::slice::slice_subrange(line, c, d)) {
                    Err(e) => return Err(CueError::InvalidTime(e)),
                    Ok(t) => t,
                };
                let number = vstd::slice::slice_subrange(line, a, b);
                let pause: [u8; 2] = [0x30, 0x30];
                let start: [u8; 2] = [0x30, 0x31];
                assert(pause@ =~= seq![0x30u8, 0x30]);
                assert(start@ =~= seq![0x30u8, 0x31]);
                if crate::cdrom::cuebin::bytes_equal(number, &pause) {
                    self.pause_start = Some(t);
                } else if crate::cdrom::cuebin::bytes_equal(number, &start) {
                    self.track_start = Some(t);
                } else {
                    return Err(CueError::UnexpectedIndexNumber);
                }
                assert(self@ =~= old(self)@.index_line(line@)->Ok_0);
                Ok(())
            },
        }
    }

    /// A `PREGAP` line.
    fn parse_pregap_line(&mut self, line: &[u8]) -> (r: Result<(), CueError>)
        ensures
            step_result(r, final(self)@, old(self)@.pregap_line(line@)),
    {
        let kw: [u8; 7] = [0x50, 0x52, 0x45, 0x47, 0x41, 0x50, 0x20];
        assert(kw@ =~= pregap_keyword());
        match find_one_word(line, &kw) {
            None => Err(CueError::InvalidPregapLine),
            Some((a, b)) => {
                let t = match CdTime::parse(vstd::slice::slice_subrange(line, a, b)) {
                    Err(e) => return Err(CueError::InvalidTime(e)),
                    Ok(t) => t,
                };
                self.pregap_len = Some(t);
                assert(self@ =~= old(self)@.pregap_line(line@)->Ok_0);
                Ok(())
            },
        }
    }

    /// One line of the sheet.
    fn parse_line(&mut self, line: &[u8]) -> (r: Result<(), CueError>)
        ensures
            step_result(r, final(self)@, old(self)@.step_line(line@)),
    {
        let file: [u8; 5] = [0x46, 0x49, 0x4c, 0x45, 0x20];
        let track: [u8; 8] = [0x20, 0x20, 0x54, 0x52, 0x41, 0x43, 0x4b, 0x20];
        let index: [u8; 10] = [0x20, 0x20, 0x20, 0x20, 0x49, 0x4e, 0x44, 0x45, 0x58, 0x20];
        let pregap: [u8; 11] = [0x20, 0x20, 0x20, 0x20, 0x50, 0x52, 0x45, 0x47, 0x41, 0x50, 0x20];
        assert(file@ =~= file_prefix());
        assert(track@ =~= track_prefix());
        assert(index@ =~= index_prefix());
        assert(pregap@ =~= pregap_prefix());
        if bytes_match_at(line, &file, 0) {
            self.parse_file_line(line)
        } else if bytes_match_at(line, &track, 0) {
            self.parse_track_line(line)
        } else if bytes_match_at(line, &index, 0) {
            self.parse_index_line(line)
        } else if bytes_match_at(line, &pregap, 0) {
            self.parse_pregap_line(line)
        } else {
            Ok(())
        }
    }

    /// Parses the text of a CUE sheet into its files and their tracks.
    pub fn parse(self, text: &[u8]) -> (r: Result<Vec<ParsedFile>, CueError>)
        requires
            self@ == CueParserState::initial(),
        ensures
            match r {
                Ok(files) => parse_cue_spec(text@) == Ok::<Seq<(Seq<u8>, Seq<ParsedTrack>)>, CueError>(files_view(files@)),
                Err(e) => parse_cue_spec(text@) == Err::<Seq<(Seq<u8>, Seq<ParsedTrack>)>, CueError>(e),
            },
    {
        let mut parser = self;
        let n = text.len();
        let mut i: usize = 0;
        while i < n
            invariant
                n == text@.len(),
                i <= n,
                run_lines(text@, i as int, parser@) == run_lines(text@, 0, CueParserState::initial()),
            decreases n - i,
        {
            let e = find_line_end(text, i);
            let end = if e < n && e > i && text[e - 1] == 0x0d { e - 1 } else { e };
            let line = vstd::slice::slice_subrange(text, i, end);
            assert(line@ =~= line_at(text@, i as int));
            match parser.parse_line(line) {
                Err(err) => return Err(err),
                Ok(()) => {},
            }
            if e >= n {
                assert(run_lines(text@, (e + 1) as int, parser@) == Ok::<CueParserState, CueError>(parser@));
                i = n;
            } else {
                i = e + 1;
            }
        }
        match parser.push_file() {
            Err(err) => return Err(err),
            Ok(()) => {},
        }
        if parser.files.len() == 0 {
            return Err(CueError::NoFiles);
        }
        Ok(parser.files)
    }
}

} // verus!
