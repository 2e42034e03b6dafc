//! Track input framing and metadata.
//!
//! An input pairs a byte source with a codec and a container.  The
//! container tells the mixer how to find the next frame; the DCA
//! container prefixes each Opus frame with a little-endian 16-bit
//! length and the whole file with a magic header and a JSON metadata
//! blob.  The byte sources themselves live with the caller; the
//! framing rules and the metadata extraction are here.

use vstd::prelude::*;
use vstd::string::StrSliceExecFns;
use vstd::string::StringExecFns;
use crate::bytesutil::{read_i16_le, read_i32_le, spec_le_i16, spec_le_i32};
use crate::constants::{FRAME_LEN_MS, MONO_FRAME_SIZE};
use crate::error::VoiceError;

verus! {

/// Type of data an input hands the mixer.
#[derive(Clone, Copy, Debug, PartialEq, Eq, Structural)]
pub enum CodecType {
    /// Length-framed Opus packets.
    Opus,
    /// Signed 16-bit little-endian PCM.
    Pcm,
    /// 32-bit little-endian float PCM.
    FloatPcm,
}

impl CodecType {
    /// Bytes per sample as stored in the stream: two for integer PCM,
    /// four for float PCM and for decoded Opus.
    pub fn sample_len(&self) -> (r: usize)
        ensures
            r == (match *self {
                CodecType::Pcm => 2int,
                CodecType::FloatPcm => 4int,
                CodecType::Opus => 4int,
            }),
    {
        match self {
            CodecType::Opus => 4,
            CodecType::FloatPcm => 4,
            CodecType::Pcm => 2,
        }
    }
}

/// One frame located in an input stream.
#[derive(Clone, Copy, Debug, PartialEq, Eq, Structural)]
pub struct Frame {
    /// Bytes of framing before the payload.
    pub header_len: usize,
    /// Bytes of payload.
    pub frame_len: usize,
}

/// How frames are delimited in an input stream.
#[derive(Clone, Copy, Debug, PartialEq, Eq, Structural)]
pub enum Container {
    /// No framing: every frame is one sample wide.
    Raw,
    /// DCA framing: a little-endian 16-bit length before each frame.
    Dca,
}

impl Container {
    /// Locates the next frame.  For raw streams the frame is one
    /// sample of the codec and has no header.  For DCA streams
    /// `prefix` holds the two length-prefix bytes just read; a
    /// negative length is rejected as a framing error.
    pub fn next_frame_length(&self, codec: CodecType, prefix: &[u8]) -> (r: Result<
        Frame,
        VoiceError,
    >)
        requires
            self is Dca ==> prefix@.len() >= 2,
        ensures
            self is Raw ==> r == Ok::<Frame, VoiceError>(Frame {
                header_len: 0,
                frame_len: (match codec {
                    CodecType::Pcm => 2usize,
                    CodecType::FloatPcm => 4usize,
                    CodecType::Opus => 4usize,
                }),
            }),
            self is Dca ==> {
                let len = spec_le_i16(prefix@[0], prefix@[1]);
                &&& (len >= 0 ==> r == Ok::<Frame, VoiceError>(Frame {
                    header_len: 2,
                    frame_len: len as usize,
                }))
                &&& (len < 0 ==> r == Err::<Frame, VoiceError>(VoiceError::InputFormat))
            },
    {
        match self {
            Container::Raw => Ok(Frame { header_len: 0, frame_len: codec.sample_len() }),
            Container::Dca => {
                let len = read_i16_le(prefix, 0);
                if len < 0 {
                    Err(VoiceError::InputFormat)
                } else {
                    Ok(Frame { header_len: 2, frame_len: len as usize })
                }
            },
        }
    }

    /// Whether seeking needs no more than moving the byte source: true
    /// only for raw streams, where positions map linearly to bytes.
    pub fn is_seek_trivial(&self) -> (r: bool)
        ensures
            r == (*self is Raw),
    {
        match self {
            Container::Raw => true,
            Container::Dca => false,
        }
    }
}

/// A codec and container pair is well formed when Opus frames are
/// delimited by a length-framed container: a raw byte stream cannot
/// demarcate Opus frames.
pub open spec fn spec_input_well_formed(codec: CodecType, container: Container) -> bool {
    codec is Opus ==> container is Dca
}

/// Checks that a codec and container fit together; reading an input
/// that fails this check must fail rather than guess at frame bounds.
pub fn input_well_formed(codec: CodecType, container: Container) -> (r: bool)
    ensures
        r == spec_input_well_formed(codec, container),
{
    match codec {
        CodecType::Opus => match container {
            Container::Dca => true,
            Container::Raw => false,
        },
        _ => true,
    }
}

/// The magic bytes that open a DCA file: `DCA1`.
pub open spec fn spec_dca_magic() -> Seq<u8> {
    seq![0x44u8, 0x43u8, 0x41u8, 0x31u8]
}

/// Whether the first eight bytes of a DCA file are acceptable: the
/// magic, then a signed metadata length of at least 2.
pub open spec fn spec_dca_header_ok(b: Seq<u8>) -> bool {
    &&& b.len() >= 8
    &&& b.subrange(0, 4) == spec_dca_magic()
    &&& spec_le_i32(b[4], b[5], b[6], b[7]) >= 2
}

/// Parses the 8-byte DCA file header.  A file whose first four bytes
/// are not `DCA1`, or whose metadata size is below 2, is rejected as
/// an input-format error; a shorter prefix is a read failure.
/// Returns the length of the JSON metadata blob that follows.
pub fn parse_dca_header(b: &[u8]) -> (r: Result<u32, VoiceError>)
    ensures
        r is Ok <==> spec_dca_header_ok(b@),
        r matches Ok(n) ==> n == spec_le_i32(b@[4], b@[5], b@[6], b@[7]),
        b@.len() < 8 ==> r == Err::<u32, VoiceError>(VoiceError::InputIo),
        b@.len() >= 8 && !spec_dca_header_ok(b@) ==> r == Err::<u32, VoiceError>(
            VoiceError::InputFormat,
        ),
{
    if b.len() < 8 {
        return Err(VoiceError::InputIo);
    }
    if !(b[0] == 0x44 && b[1] == 0x43 && b[2] == 0x41 && b[3] == 0x31) {
        proof {
            assert(b@.subrange(0, 4)[0] == b@[0]);
            assert(b@.subrange(0, 4)[1] == b@[1]);
            assert(b@.subrange(0, 4)[2] == b@[2]);
            assert(b@.subrange(0, 4)[3] == b@[3]);
        }
        return Err(VoiceError::InputFormat);
    }
    proof {
        assert(b@.subrange(0, 4) =~= spec_dca_magic());
    }
    let size = read_i32_le(b, 4);
    if size < 2 {
        return Err(VoiceError::InputFormat);
    }
    Ok(size as u32)
}

/// Whether a character is a decimal digit.
pub open spec fn spec_is_digit(c: char) -> bool {
    48 <= c as int <= 57
}

/// Whether every character of `s` is a decimal digit.
pub open spec fn spec_all_digits(s: Seq<char>) -> bool {
    forall|i: int| 0 <= i < s.len() ==> spec_is_digit(#[trigger] s[i])
}

/// The value of a digit string.
pub open spec fn spec_digits_val(s: Seq<char>) -> int
    decreases s.len(),
{
    if s.len() == 0 {
        0int
    } else {
        spec_digits_val(s.take(s.len() - 1)) * 10 + (s[s.len() - 1] as int - 48)
    }
}

/// What parsing a digit string as an unsigned 64-bit number yields:
/// nothing for an empty or non-digit string or a value out of range.
pub open spec fn spec_parse_u64(s: Seq<char>) -> Option<u64> {
    if s.len() > 0 && spec_all_digits(s) && spec_digits_val(s) <= u64::MAX {
        Option::Some(spec_digits_val(s) as u64)
    } else {
        Option::None
    }
}

/// Parses a non-empty string of decimal digits as a 64-bit number.
pub fn parse_u64(s: &str) -> (r: Option<u64>)
    ensures
        r == spec_parse_u64(s@),
{
    let len = s.unicode_len();
    if len == 0 {
        return None;
    }
    let mut val: u64 = 0;
    let mut i: usize = 0;
    while i < len
        invariant
            i <= len,
            len == s@.len(),
            spec_all_digits(s@.take(i as int)),
            val == spec_digits_val(s@.take(i as int)),
        decreases len - i,
    {
        let c = s.get_char(i);
        let d = c as u32;
        if d < 48 || d > 57 {
            proof {
                assert(!spec_is_digit(s@[i as int]));
            }
            return None;
        }
        let digit: u64 = (d - 48) as u64;
        val = match val.checked_mul(10) {
            Some(v) => v,
            None => {
                proof {
                    lemma_digits_val_grows(s@, i as int);
                }
                return None;
            },
        };
        val = match val.checked_add(digit) {
            Some(v) => v,
            None => {
                proof {
                    lemma_digits_val_grows(s@, i as int);
                }
                return None;
            },
        };
        i = i + 1;
        proof {
            assert(s@.take(i as int).take(i - 1) =~= s@.take(i - 1));
            assert(s@.take(i as int)[i - 1] == s@[i - 1]);
        }
    }
    proof {
        assert(s@.take(len as int) =~= s@);
    }
    Some(val)
}

/// A digit string's value only grows as digits are appended, so a
/// prefix that already overflows settles the whole string.
proof fn lemma_digits_val_grows(s: Seq<char>, i: int)
    requires
        0 <= i < s.len(),
        spec_all_digits(s.take(i + 1)),
    ensures
        spec_all_digits(s) ==> spec_digits_val(s) >= spec_digits_val(s.take(i)) * 10 + (s[i] as int
            - 48),
    decreases s.len() - i,
{
    if spec_all_digits(s) {
        lemma_digits_val_monotone(s, i + 1);
        assert(s.take(i + 1).take(i) =~= s.take(i));
        assert(s.take(i + 1)[i] == s[i]);
    }
}

/// Dropping trailing digits never increases a digit string's value.
proof fn lemma_digits_val_monotone(s: Seq<char>, n: int)
    requires
        0 <= n <= s.len(),
        spec_all_digits(s),
    ensures
        spec_digits_val(s) >= spec_digits_val(s.take(n)),
        spec_digits_val(s.take(n)) >= 0,
    decreases s.len() - n,
{
    lemma_digits_val_nonneg(s.take(n));
    if n < s.len() {
        lemma_digits_val_monotone(s, n + 1);
        assert(s.take(n + 1).take(n) =~= s.take(n));
        assert(s.take(n + 1)[n] == s[n]);
        lemma_digits_val_nonneg(s.take(n));
        assert(spec_digits_val(s.take(n + 1)) == spec_digits_val(s.take(n)) * 10 + (s[n] as int
            - 48));
        assert(spec_digits_val(s.take(n)) * 10 >= spec_digits_val(s.take(n))) by (nonlinear_arith)
            requires
                spec_digits_val(s.take(n)) >= 0,
        ;
    } else {
        assert(s.take(n) =~= s);
    }
}

/// A digit string's value is never negative.
proof fn lemma_digits_val_nonneg(s: Seq<char>)
    requires
        spec_all_digits(s),
    ensures
        spec_digits_val(s) >= 0,
    decreases s.len(),
{
    if s.len() > 0 {
        assert(spec_all_digits(s.take(s.len() - 1)));
        lemma_digits_val_nonneg(s.take(s.len() - 1));
    }
}

/// The index of the first decimal point of `s`, or its length.
pub open spec fn spec_dot_pos(s: Seq<char>, i: int) -> int
    decreases s.len() - i,
{
    if i < 0 || i >= s.len() {
        s.len() as int
    } else if s[i] == '.' {
        i
    } else {
        spec_dot_pos(s, i + 1)
    }
}

/// The value in milliseconds of a fractional part: its first three
/// digits, padded with zeroes to three.
pub open spec fn spec_frac_ms(frac: Seq<char>) -> int {
    if frac.len() >= 3 {
        spec_digits_val(frac.take(3))
    } else {
        spec_digits_val(frac) * (if frac.len() == 0 {
            1000int
        } else if frac.len() == 1 {
            100int
        } else {
            10int
        })
    }
}

/// What parsing a decimal-seconds string to milliseconds yields: the
/// integer part times 1000 plus the leading milliseconds of the
/// fraction.  Strings with non-digits, an empty integer part, or a
/// value out of range yield nothing.  Precision beyond milliseconds
/// is dropped.
pub open spec fn spec_parse_seconds_ms(s: Seq<char>) -> Option<u64> {
    let dot = spec_dot_pos(s, 0);
    let intpart = s.take(dot);
    let frac = if dot < s.len() {
        s.skip(dot + 1)
    } else {
        Seq::<char>::empty()
    };
    if intpart.len() > 0 && spec_all_digits(intpart) && spec_all_digits(frac) && spec_digits_val(
        intpart,
    ) * 1000 + spec_frac_ms(frac) <= u64::MAX {
        Option::Some((spec_digits_val(intpart) * 1000 + spec_frac_ms(frac)) as u64)
    } else {
        Option::None
    }
}

/// A fractional part of digits never contributes negatively.
proof fn lemma_frac_ms_nonneg(f: Seq<char>)
    requires
        spec_all_digits(f),
    ensures
        spec_frac_ms(f) >= 0,
{
    if f.len() >= 3 {
        assert(spec_all_digits(f.take(3)));
        lemma_digits_val_nonneg(f.take(3));
    } else {
        lemma_digits_val_nonneg(f);
    }
}

/// A scan over non-dot characters that stopped at `i` — at the end or
/// on a dot — stopped exactly where `spec_dot_pos` points.
proof fn lemma_dot_scan_stop(s: Seq<char>, start: int, i: int)
    requires
        0 <= start <= i <= s.len(),
        forall|j: int| start <= j < i ==> s[j] != '.',
        i == s.len() || s[i] == '.',
    ensures
        spec_dot_pos(s, start) == i,
    decreases i - start,
{
    if start < i {
        lemma_dot_scan_stop(s, start + 1, i);
    }
}

/// The value of a digit string of at most three digits, spelled out.
proof fn lemma_digits_val_small(f: Seq<char>)
    ensures
        f.len() == 0 ==> spec_digits_val(f) == 0,
        f.len() == 1 ==> spec_digits_val(f) == f[0] as int - 48,
        f.len() == 2 ==> spec_digits_val(f) == (f[0] as int - 48) * 10 + (f[1] as int - 48),
        f.len() == 3 ==> spec_digits_val(f) == ((f[0] as int - 48) * 10 + (f[1] as int - 48)) * 10
            + (f[2] as int - 48),
{
    reveal_with_fuel(spec_digits_val, 5);
    if f.len() == 1 {
        assert(f.take(0) =~= Seq::<char>::empty());
    } else if f.len() == 2 {
        assert(f.take(1).take(0) =~= Seq::<char>::empty());
        assert(f.take(1)[0] == f[0]);
        assert(spec_digits_val(f.take(1)) == f[0] as int - 48);
    } else if f.len() == 3 {
        assert(f.take(1).take(0) =~= Seq::<char>::empty());
        assert(f.take(1)[0] == f[0]);
        assert(spec_digits_val(f.take(1)) == f[0] as int - 48);
        assert(f.take(2).take(1) =~= f.take(1));
        assert(f.take(2)[1] == f[1]);
        assert(spec_digits_val(f.take(2)) == (f[0] as int - 48) * 10 + (f[1] as int - 48));
    }
}

/// Parses a decimal-seconds string (`"123"`, `"123.456"`) into whole
/// milliseconds, dropping precision beyond the third fractional digit.
#[verifier::loop_isolation(false)]
pub fn parse_seconds_ms(s: &str) -> (r: Option<u64>)
    ensures
        r == spec_parse_seconds_ms(s@),
{
    let len = s.unicode_len();
    let mut dot: usize = 0;
    while dot < len && s.get_char(dot) != '.'
        invariant
            dot <= len,
            len == s@.len(),
            forall|j: int| 0 <= j < dot ==> s@[j] != '.',
        decreases len - dot,
    {
        dot = dot + 1;
    }
    proof {
        lemma_dot_scan_stop(s@, 0, dot as int);
    }
    let intpart = s.substring_char(0, dot);
    proof {
        assert(intpart@ =~= s@.take(dot as int));
    }
    let intval = match parse_u64(intpart) {
        Some(v) => v,
        None => {
            proof {
                let sfrac = if (dot as int) < s@.len() {
                    s@.skip(dot + 1)
                } else {
                    Seq::<char>::empty()
                };
                if spec_all_digits(s@.take(dot as int)) && dot > 0 {
                    lemma_digits_val_nonneg(s@.take(dot as int));
                    if spec_digits_val(s@.take(dot as int)) <= u64::MAX {
                        assert(spec_parse_u64(s@.take(dot as int)) is Some);
                    } else if spec_all_digits(sfrac) {
                        assert(spec_digits_val(s@.take(dot as int)) * 1000 >= spec_digits_val(
                            s@.take(dot as int),
                        )) by (nonlinear_arith)
                            requires
                                spec_digits_val(s@.take(dot as int)) >= 0,
                        ;
                        lemma_frac_ms_nonneg(sfrac);
                    }
                }
            }
            return None;
        },
    };
    let frac: &str = if dot < len {
        s.substring_char(dot + 1, len)
    } else {
        s.substring_char(len, len)
    };
    proof {
        if dot < len {
            assert(frac@ =~= s@.skip(dot + 1));
        } else {
            assert(frac@ =~= Seq::<char>::empty());
        }
    }
    let flen = frac.unicode_len();
    let mut k: usize = 0;
    while k < flen
        invariant
            k <= flen,
            flen == frac@.len(),
            spec_all_digits(frac@.take(k as int)),
        decreases flen - k,
    {
        let c = frac.get_char(k);
        let d = c as u32;
        if d < 48 || d > 57 {
            proof {
                assert(!spec_is_digit(frac@[k as int]));
            }
            return None;
        }
        k = k + 1;
        proof {
            assert(frac@.take(k as int).take(k - 1) =~= frac@.take(k - 1));
            assert(frac@.take(k as int)[k - 1] == frac@[k - 1]);
        }
    }
    proof {
        assert(frac@.take(flen as int) =~= frac@);
    }
    let frac_ms: u64 = if flen == 0 {
        0
    } else if flen == 1 {
        let d0 = (frac.get_char(0) as u32 - 48) as u64;
        proof {
            lemma_digits_val_small(frac@);
        }
        d0 * 100
    } else if flen == 2 {
        let d0 = (frac.get_char(0) as u32 - 48) as u64;
        let d1 = (frac.get_char(1) as u32 - 48) as u64;
        proof {
            lemma_digits_val_small(frac@);
        }
        (d0 * 10 + d1) * 10
    } else {
        let d0 = (frac.get_char(0) as u32 - 48) as u64;
        let d1 = (frac.get_char(1) as u32 - 48) as u64;
        let d2 = (frac.get_char(2) as u32 - 48) as u64;
        proof {
            assert(frac@.take(3)[0] == frac@[0]);
            assert(frac@.take(3)[1] == frac@[1]);
            assert(frac@.take(3)[2] == frac@[2]);
            lemma_digits_val_small(frac@.take(3));
        }
        (d0 * 10 + d1) * 10 + d2
    };
    proof {
        assert(frac_ms == spec_frac_ms(frac@));
    }
    proof {
        let sdot = spec_dot_pos(s@, 0);
        assert(sdot == dot as int);
        assert(s@.take(sdot) == intpart@);
        lemma_digits_val_nonneg(intpart@);
        assert(spec_digits_val(s@.take(sdot)) == intval);
        let sfrac = if sdot < s@.len() {
            s@.skip(sdot + 1)
        } else {
            Seq::<char>::empty()
        };
        assert(sfrac == frac@);
        assert(spec_frac_ms(sfrac) == frac_ms);
        assert(spec_all_digits(sfrac));
    }
    let scaled = match intval.checked_mul(1000) {
        Some(v) => v,
        None => {
            return None;
        },
    };
    match scaled.checked_add(frac_ms) {
        Some(total) => Some(total),
        None => None,
    }
}

/// What a probe of a media file reports about its format as a whole:
/// durations as decimal-seconds strings and the common tags.
#[derive(Clone, Debug)]
pub struct ProbeFormat {
    /// Total duration, in decimal seconds.
    pub duration: Option<String>,
    /// Start offset, in decimal seconds.
    pub start_time: Option<String>,
    /// Title tag.
    pub title: Option<String>,
    /// Artist tag.
    pub artist: Option<String>,
    /// Date tag.
    pub date: Option<String>,
}

/// What a probe reports about one stream of a media file.
#[derive(Clone, Debug)]
pub struct ProbeStream {
    /// The stream's kind; audio streams carry `"audio"` here.
    pub codec_type: String,
    /// Channel count.
    pub channels: Option<u64>,
    /// Sample rate, as a digit string.
    pub sample_rate: Option<String>,
}

/// The whole report of a media probe, as plain values.
#[derive(Clone, Debug)]
pub struct ProbeOutput {
    /// The format section, when present.
    pub format: Option<ProbeFormat>,
    /// The streams section, in file order.
    pub streams: Vec<ProbeStream>,
}

/// What a media downloader reports about an online resource.
#[derive(Clone, Debug)]
pub struct YtdlInfo {
    /// Track name, preferred over the page title.
    pub track: Option<String>,
    /// Page title.
    pub title: Option<String>,
    /// Performing artist.
    pub artist: Option<String>,
    /// Release date, preferred over the upload date.
    pub release_date: Option<String>,
    /// Upload date.
    pub upload_date: Option<String>,
    /// Duration in milliseconds.
    pub duration_ms: Option<u64>,
}

/// Information about an input source.
#[derive(Clone, Debug, Default, PartialEq, Eq)]
pub struct Metadata {
    /// Title of the piece.
    pub title: Option<String>,
    /// Performing artist.
    pub artist: Option<String>,
    /// Date tag.
    pub date: Option<String>,
    /// Audio channel count.
    pub channels: Option<u8>,
    /// Start offset in milliseconds.
    pub start_time_ms: Option<u64>,
    /// Total duration in milliseconds.
    pub duration_ms: Option<u64>,
    /// Sample rate in Hz.
    pub sample_rate: Option<u32>,
}

/// The index of the first audio stream of a probe report, if any.
pub open spec fn spec_first_audio(streams: Seq<ProbeStream>, i: int) -> Option<int>
    decreases streams.len() - i,
{
    if i < 0 || i >= streams.len() {
        Option::None
    } else if streams[i].codec_type@ == "audio"@ {
        Option::Some(i)
    } else {
        spec_first_audio(streams, i + 1)
    }
}

/// What a duration string of a probe contributes: its milliseconds,
/// when it parses.
pub open spec fn spec_probe_ms(s: Option<String>) -> Option<u64> {
    match s {
        Option::Some(d) => spec_parse_seconds_ms(d@),
        Option::None => Option::None,
    }
}

impl Metadata {
    /// Extracts metadata from a media probe's report: the tags and
    /// durations from the format section, channel count and sample
    /// rate from the first audio stream.  Durations are kept in whole
    /// milliseconds; a channel count above 255 is dropped, as is a
    /// sample rate string that does not parse or exceeds 32 bits.
    pub fn from_ffprobe_json(value: &ProbeOutput) -> (r: Metadata)
        ensures
            value.format is None ==> r.title is None && r.artist is None && r.date is None
                && r.duration_ms is None && r.start_time_ms is None,
            value.format matches Some(f) ==> {
                &&& r.title == f.title
                &&& r.artist == f.artist
                &&& r.date == f.date
                &&& r.duration_ms == spec_probe_ms(f.duration)
                &&& r.start_time_ms == spec_probe_ms(f.start_time)
            },
            spec_first_audio(value.streams@, 0) is None ==> r.channels is None && r.sample_rate
                is None,
            spec_first_audio(value.streams@, 0) matches Some(i) ==> {
                let st = value.streams@[i];
                &&& r.channels == (match st.channels {
                    Option::Some(c) => if c <= 255 {
                        Option::Some(c as u8)
                    } else {
                        Option::<u8>::None
                    },
                    Option::None => Option::<u8>::None,
                })
                &&& r.sample_rate == (match st.sample_rate {
                    Option::Some(sr) => (match spec_parse_u64(sr@) {
                        Option::Some(v) => if v <= u32::MAX {
                            Option::Some(v as u32)
                        } else {
                            Option::<u32>::None
                        },
                        Option::None => Option::<u32>::None,
                    }),
                    Option::None => Option::<u32>::None,
                })
            },
    {
        let (title, artist, date, duration_ms, start_time_ms) = match &value.format {
            Some(f) => {
                let duration_ms = match &f.duration {
                    Some(d) => parse_seconds_ms(d.as_str()),
                    None => None,
                };
                let start_time_ms = match &f.start_time {
                    Some(d) => parse_seconds_ms(d.as_str()),
                    None => None,
                };
                (f.title.clone(), f.artist.clone(), f.date.clone(), duration_ms, start_time_ms)
            },
            None => (None, None, None, None, None),
        };
        let (channels, sample_rate) = match find_first_audio(&value.streams) {
            Some(i) => {
                let st = &value.streams[i];
                let channels = match st.channels {
                    Some(c) => if c <= 255 {
                        Some(c as u8)
                    } else {
                        None
                    },
                    None => None,
                };
                let sample_rate = match &st.sample_rate {
                    Some(sr) => match parse_u64(sr.as_str()) {
                        Some(v) => if v <= 0xffff_ffff {
                            Some(v as u32)
                        } else {
                            None
                        },
                        None => None,
                    },
                    None => None,
                };
                (channels, sample_rate)
            },
            None => (None, None),
        };
        Metadata { title, artist, date, channels, start_time_ms, duration_ms, sample_rate }
    }

    /// Folds a downloader's report into metadata: the track name wins
    /// over the title, the release date over the upload date; online
    /// resources are transcoded to stereo at the mixer's rate.
    pub fn from_ytdl_info(info: &YtdlInfo) -> (r: Metadata)
        ensures
            r.title == (if info.track is Some {
                info.track
            } else {
                info.title
            }),
            r.artist == info.artist,
            r.date == (if info.release_date is Some {
                info.release_date
            } else {
                info.upload_date
            }),
            r.duration_ms == info.duration_ms,
            r.channels == Some(2u8),
            r.sample_rate == Some(48000u32),
            r.start_time_ms is None,
    {
        let title = match &info.track {
            Some(t) => Some(t.clone()),
            None => info.title.clone(),
        };
        let date = match &info.release_date {
            Some(d) => Some(d.clone()),
            None => info.upload_date.clone(),
        };
        Metadata {
            title,
            artist: info.artist.clone(),
            date,
            channels: Some(2),
            start_time_ms: None,
            duration_ms: info.duration_ms,
            sample_rate: Some(48000),
        }
    }

    /// Moves every field out, leaving nothing behind.
    pub fn take(&mut self) -> (r: Metadata)
        ensures
            r == *old(self),
            final(self).title is None,
            final(self).artist is None,
            final(self).date is None,
            final(self).channels is None,
            final(self).start_time_ms is None,
            final(self).duration_ms is None,
            final(self).sample_rate is None,
    {
        let r = Metadata {
            title: self.title.take(),
            artist: self.artist.take(),
            date: self.date.take(),
            channels: self.channels.take(),
            start_time_ms: self.start_time_ms.take(),
            duration_ms: self.duration_ms.take(),
            sample_rate: self.sample_rate.take(),
        };
        r
    }
}

/// Finds the first audio stream in a probe report.
fn find_first_audio(streams: &Vec<ProbeStream>) -> (r: Option<usize>)
    ensures
        r matches Some(i) ==> spec_first_audio(streams@, 0) == Option::Some(i as int) && i
            < streams@.len(),
        r is None ==> spec_first_audio(streams@, 0) is None,
{
    let target: String = "audio".to_owned();
    let mut i: usize = 0;
    while i < streams.len()
        invariant
            i <= streams@.len(),
            target@ == "audio"@,
            forall|j: int| 0 <= j < i ==> streams@[j].codec_type@ != "audio"@,
        decreases streams@.len() - i,
    {
        if streams[i].codec_type == target {
            proof {
                lemma_first_audio_scan(streams@, 0, i as int);
            }
            return Some(i);
        }
        i = i + 1;
    }
    proof {
        lemma_first_audio_none(streams@, 0);
    }
    None
}

/// A scan that found `"audio"` first at `i` agrees with
/// `spec_first_audio`.
proof fn lemma_first_audio_scan(streams: Seq<ProbeStream>, start: int, i: int)
    requires
        0 <= start <= i < streams.len(),
        forall|j: int| start <= j < i ==> streams[j].codec_type@ != "audio"@,
        streams[i].codec_type@ == "audio"@,
    ensures
        spec_first_audio(streams, start) == Option::Some(i),
    decreases i - start,
{
    if start < i {
        lemma_first_audio_scan(streams, start + 1, i);
    }
}

/// A scan that found no `"audio"` stream agrees with
/// `spec_first_audio`.
proof fn lemma_first_audio_none(streams: Seq<ProbeStream>, start: int)
    requires
        0 <= start,
        forall|j: int| start <= j < streams.len() ==> streams[j].codec_type@ != "audio"@,
    ensures
        spec_first_audio(streams, start) is None,
    decreases streams.len() - start,
{
    if start < streams.len() {
        lemma_first_audio_none(streams, start + 1);
    }
}

/// Stream offset corresponding to a playback position, as the byte
/// sources measure it: 48 units per millisecond, doubled for stereo.
pub fn timestamp_to_byte_count(ms: u64, stereo: bool) -> (r: u64)
    requires
        ms * (MONO_FRAME_SIZE / FRAME_LEN_MS) * 2 <= u64::MAX,
    ensures
        r == ms * (MONO_FRAME_SIZE / FRAME_LEN_MS) * (if stereo {
            2int
        } else {
            1int
        }),
{
    let per_ms: u64 = (MONO_FRAME_SIZE / FRAME_LEN_MS) as u64;
    if stereo {
        ms * per_ms * 2
    } else {
        ms * per_ms
    }
}

/// The playback position corresponding to a byte count: the inverse
/// of `timestamp_to_byte_count`, rounding down.
pub fn byte_count_to_timestamp(amt: u64, stereo: bool) -> (r: u64)
    requires
        amt * FRAME_LEN_MS <= u64::MAX,
    ensures
        r == (amt * FRAME_LEN_MS / MONO_FRAME_SIZE as int) / (if stereo {
            2int
        } else {
            1int
        }),
{
    let scaled: u64 = amt * (FRAME_LEN_MS as u64) / (MONO_FRAME_SIZE as u64);
    if stereo {
        scaled / 2
    } else {
        scaled
    }
}

} // verus!
