//! What probing a media file found, and what the player makes of it: the
//! metadata of the stream it will play, or the reason why it will not.

use crate::text::{decimal, push_decimal};
use vstd::prelude::*;

verus! {

/// A non-negative fraction in lowest terms, or what stands for one whose
/// denominator is zero.
#[derive(Debug, Clone, Copy, PartialEq, Eq, Structural)]
pub enum Rational {
    /// `numer / denom`, with `denom` above zero and no common divisor.
    Ratio { numer: u64, denom: u64 },
    /// A number other than zero over zero.
    Infinity,
    /// Zero over zero.
    NaN,
}

/// Whether no number above one divides both `a` and `b`.
pub open spec fn coprime(a: nat, b: nat) -> bool {
    forall|k: nat| k > 1 ==> !(#[trigger] (a % k) == 0 && b % k == 0)
}

impl Rational {
    /// Whether `self` is `numer / denom` in lowest terms.
    pub open spec fn reduces(self, numer: u32, denom: u32) -> bool {
        match self {
            Rational::Ratio { numer: n, denom: d } => {
                &&& denom != 0
                &&& d > 0
                &&& n * denom == d * numer
                &&& coprime(n as nat, d as nat)
            },
            Rational::Infinity => denom == 0 && numer != 0,
            Rational::NaN => denom == 0 && numer == 0,
        }
    }
}

/// Two numbers without a common divisor still have none when the smaller
/// is taken from the larger.
proof fn lemma_coprime_difference(a: nat, b: nat)
    requires
        coprime(a, b),
    ensures
        a >= b ==> coprime((a - b) as nat, b),
        b >= a ==> coprime(a, (b - a) as nat),
{
    if a >= b {
        let c = (a - b) as nat;
        assert forall|k: nat| k > 1 implies !(#[trigger] (c % k) == 0 && b % k == 0) by {
            if c % k == 0 && b % k == 0 {
                vstd::arithmetic::div_mod::lemma_add_mod_noop(c as int, b as int, k as int);
                vstd::arithmetic::div_mod::lemma_small_mod(0, k);
                assert(c + b == a);
                assert(a % k == 0);
            }
        }
    }
    if b >= a {
        let c = (b - a) as nat;
        assert forall|k: nat| k > 1 implies !(#[trigger] (a % k) == 0 && c % k == 0) by {
            if a % k == 0 && c % k == 0 {
                vstd::arithmetic::div_mod::lemma_add_mod_noop(a as int, c as int, k as int);
                vstd::arithmetic::div_mod::lemma_small_mod(0, k);
                assert(a + c == b);
                assert(b % k == 0);
            }
        }
    }
}

/// Two fractions in lowest terms that are equal as numbers have the same
/// numerator and the same denominator.
proof fn lemma_lowest_terms_agree(n1: nat, d1: nat, n2: nat, d2: nat)
    requires
        d1 > 0,
        d2 > 0,
        n1 * d2 == n2 * d1,
        coprime(n1, d1),
        coprime(n2, d2),
    ensures
        n1 == n2,
        d1 == d2,
    decreases n1 + d1 + n2 + d2,
{
    if n1 == 0 || n2 == 0 {
        assert(n1 == 0 && n2 == 0) by (nonlinear_arith)
            requires
                d1 > 0,
                d2 > 0,
                n1 * d2 == n2 * d1,
                n1 == 0 || n2 == 0,
        ;
        if d1 > 1 {
            vstd::arithmetic::div_mod::lemma_mod_self_0(d1 as int);
            assert(n1 % d1 == 0);
        }
        if d2 > 1 {
            vstd::arithmetic::div_mod::lemma_mod_self_0(d2 as int);
            assert(n2 % d2 == 0);
        }
    } else if n1 >= d1 {
        assert(n2 >= d2 && (n1 - d1) * d2 == (n2 - d2) * d1) by (nonlinear_arith)
            requires
                d1 > 0,
                d2 > 0,
                n1 >= d1,
                n1 * d2 == n2 * d1,
        ;
        lemma_coprime_difference(n1, d1);
        lemma_coprime_difference(n2, d2);
        lemma_lowest_terms_agree((n1 - d1) as nat, d1, (n2 - d2) as nat, d2);
    } else {
        assert(n2 < d2 && n1 * (d2 - n2) == n2 * (d1 - n1)) by (nonlinear_arith)
            requires
                d1 > 0,
                d2 > 0,
                n1 < d1,
                n1 * d2 == n2 * d1,
        ;
        lemma_coprime_difference(n1, d1);
        lemma_coprime_difference(n2, d2);
        lemma_lowest_terms_agree(n1, (d1 - n1) as nat, n2, (d2 - n2) as nat);
    }
}

/// A fraction has one reduction: whatever is `numer / denom` in lowest
/// terms is the same value.
pub proof fn lemma_reduction_is_unique(a: Rational, b: Rational, numer: u32, denom: u32)
    requires
        a.reduces(numer, denom),
        b.reduces(numer, denom),
    ensures
        a == b,
{
    if denom != 0 {
        let (n1, d1) = (a->numer as nat, a->denom as nat);
        let (n2, d2) = (b->numer as nat, b->denom as nat);
        assert(n1 * d2 == n2 * d1) by (nonlinear_arith)
            requires
                denom > 0,
                n1 * denom == d1 * numer,
                n2 * denom == d2 * numer,
        ;
        lemma_lowest_terms_agree(n1, d1, n2, d2);
    }
}

/// `fraction::Fraction::new`: the fraction `numer / denom` over `u64`, which
/// the crate brings to lowest terms with a positive sign. A zero denominator
/// gives its `NaN` for a zero numerator and its `Infinity` otherwise.
#[verifier::external_body]
fn fraction_new(numer: u32, denom: u32) -> (r: Rational)
    ensures
        r.reduces(numer, denom),
{
    match fraction::Fraction::new(numer, denom) {
        fraction::GenericFraction::Rational(_, ratio) => Rational::Ratio {
            numer: *ratio.numer(),
            denom: *ratio.denom(),
        },
        fraction::GenericFraction::Infinity(_) => Rational::Infinity,
        fraction::GenericFraction::NaN => Rational::NaN,
    }
}

/// One video stream as the prober reports it.
#[derive(Debug, Clone, PartialEq, Eq)]
pub struct VideoStreamInfo {
    pub width: u32,
    pub height: u32,
    pub framerate_numer: i32,
    pub framerate_denom: i32,
    pub par_numer: i32,
    pub par_denom: i32,
    pub bitrate: u32,
    pub max_bitrate: u32,
    pub depth: u32,
    pub is_interlaced: bool,
    /// The media types of the stream's capabilities, in the prober's order.
    pub caps: Vec<String>,
}

/// One audio stream as the prober reports it.
#[derive(Debug, Clone, PartialEq, Eq)]
pub struct AudioStreamInfo {
    pub bitrate: u32,
    pub max_bitrate: u32,
    pub channel_mask: u64,
    pub channels: u32,
    pub depth: u32,
    pub sample_rate: u32,
    /// The media types of the stream's capabilities, in the prober's order.
    pub caps: Vec<String>,
}

/// What the prober found in a file that it could read.
#[derive(Debug, Clone, PartialEq, Eq)]
pub struct ProbeReport {
    /// The duration in milliseconds, where the prober could tell it.
    pub duration_ms: Option<u64>,
    pub video: Vec<VideoStreamInfo>,
    pub audio: Vec<AudioStreamInfo>,
}

/// How probing a path ended.
#[derive(Debug, Clone, PartialEq, Eq)]
pub enum ProbeOutcome {
    /// The path does not resolve to a file.
    NotFound,
    /// The prober could not be set up or could not read the file.
    Failed,
    /// The prober read the file.
    Found(ProbeReport),
}

/// Why no session came of a `Start`.
#[derive(Debug, Clone, Copy, PartialEq, Eq, Structural)]
pub enum LoadError {
    /// The path does not resolve to a file.
    MediaNotFound,
    /// The file holds no video stream.
    NoVideoStream,
    /// Probing failed, or what it found cannot be played: no duration, a
    /// negative frame rate, a frame without width or height, or a frame too
    /// large to hold.
    ProbeFailed,
}

/// A remark on a report that does not stop the load.
#[derive(Debug, Clone, Copy, PartialEq, Eq, Structural)]
pub enum ProbeNote {
    /// The file holds this many video streams; the first is played.
    ExtraVideoStreams { count: usize },
    /// The video stream has several capabilities; the first names its type.
    ExtraVideoCaps,
    /// The file holds this many audio streams; the first is described.
    ExtraAudioStreams { count: usize },
    /// The audio stream has several capabilities; the first names its type.
    ExtraAudioCaps,
}

/// The audio stream that goes with the video.
#[derive(Debug, Clone, PartialEq, Eq)]
pub struct AudioMetadata {
    pub media_type: String,
    pub bitrate: u32,
    pub max_bitrate: u32,
    pub channel_mask: u64,
    pub channels: u32,
    pub depth: u32,
    pub sample_rate: u32,
}

/// The video that a session plays.
#[derive(Debug, Clone, PartialEq, Eq)]
pub struct VideoMetadata {
    pub duration_ms: u64,
    pub width: u32,
    pub height: u32,
    pub bitrate: u32,
    pub max_bitrate: u32,
    pub depth: u32,
    pub framerate: Rational,
    pub is_interlaced: bool,
    /// The pixel aspect ratio.
    pub par: Rational,
    pub media_type: String,
    pub audio_meta: Option<AudioMetadata>,
}

/// What `load` returns: the remarks, and the metadata or the error.
#[derive(Debug, PartialEq, Eq)]
pub struct Loaded {
    pub notes: Vec<ProbeNote>,
    pub result: Result<VideoMetadata, LoadError>,
}

/// Whether `numer / denom` lies below zero.
pub open spec fn is_negative_ratio(numer: i32, denom: i32) -> bool {
    (numer < 0 && denom > 0) || (numer > 0 && denom < 0)
}

/// The unsigned number with the bits of `x`: `x` itself where it is not
/// negative, and `x + 2^32` where it is.
pub open spec fn as_unsigned(x: i32) -> u32 {
    if x < 0 {
        (x + 0x1_0000_0000) as u32
    } else {
        x as u32
    }
}

/// The first media type of a stream's capabilities, or `fallback` where the
/// stream has none.
pub open spec fn first_media_type(caps: Seq<String>, fallback: Seq<char>) -> Seq<char> {
    if caps.len() > 0 {
        caps[0]@
    } else {
        fallback
    }
}

/// Why a report cannot be played, if it cannot. The checks come in this
/// order, and the first that fails decides.
pub open spec fn report_error(report: ProbeReport) -> Option<LoadError> {
    if report.duration_ms is None {
        Some(LoadError::ProbeFailed)
    } else if report.video@.len() == 0 {
        Some(LoadError::NoVideoStream)
    } else if is_negative_ratio(report.video@[0].framerate_numer, report.video@[0].framerate_denom) {
        Some(LoadError::ProbeFailed)
    } else if report.video@[0].width == 0 || report.video@[0].height == 0 {
        Some(LoadError::ProbeFailed)
    } else {
        None
    }
}

/// Whether `audio` describes the stream `stream`.
pub open spec fn describes_audio(audio: AudioMetadata, stream: AudioStreamInfo) -> bool {
    &&& audio.media_type@ == first_media_type(stream.caps@, "audio/*"@)
    &&& audio.bitrate == stream.bitrate
    &&& audio.max_bitrate == stream.max_bitrate
    &&& audio.channel_mask == stream.channel_mask
    &&& audio.channels == stream.channels
    &&& audio.depth == stream.depth
    &&& audio.sample_rate == stream.sample_rate
}

/// Whether `meta` describes what `report` found: its duration, its first
/// video stream and, where it has one, its first audio stream.
pub open spec fn describes(meta: VideoMetadata, report: ProbeReport) -> bool
    recommends
        report_error(report) is None,
{
    let video = report.video@[0];
    &&& Some(meta.duration_ms) == report.duration_ms
    &&& meta.width == video.width
    &&& meta.height == video.height
    &&& meta.bitrate == video.bitrate
    &&& meta.max_bitrate == video.max_bitrate
    &&& meta.depth == video.depth
    &&& meta.framerate.reduces(
        as_unsigned(video.framerate_numer),
        as_unsigned(video.framerate_denom),
    )
    &&& meta.is_interlaced == video.is_interlaced
    &&& meta.par.reduces(as_unsigned(video.par_numer), as_unsigned(video.par_denom))
    &&& meta.media_type@ == first_media_type(video.caps@, "video/*"@)
    &&& match meta.audio_meta {
        Some(audio) => report.audio@.len() > 0 && describes_audio(audio, report.audio@[0]),
        None => report.audio@.len() == 0,
    }
}

/// The remarks on a report, in the order in which they are made. A report
/// without duration or video stream gets none, and one whose first video
/// stream is refused gets none after the count of its video streams.
pub open spec fn report_notes(report: ProbeReport) -> Seq<ProbeNote> {
    if report.duration_ms is None || report.video@.len() == 0 {
        Seq::<ProbeNote>::empty()
    } else {
        let streams = if report.video@.len() > 1 {
            seq![ProbeNote::ExtraVideoStreams { count: report.video@.len() as usize }]
        } else {
            Seq::<ProbeNote>::empty()
        };
        if report_error(report) is Some {
            streams
        } else {
            streams + (if report.video@[0].caps@.len() > 1 {
                seq![ProbeNote::ExtraVideoCaps]
            } else {
                Seq::<ProbeNote>::empty()
            }) + (if report.audio@.len() > 1 {
                seq![ProbeNote::ExtraAudioStreams { count: report.audio@.len() as usize }]
            } else {
                Seq::<ProbeNote>::empty()
            }) + (if report.audio@.len() > 0 && report.audio@[0].caps@.len() > 1 {
                seq![ProbeNote::ExtraAudioCaps]
            } else {
                Seq::<ProbeNote>::empty()
            })
        }
    }
}

/// Why an outcome gives no session, if it gives none.
pub open spec fn outcome_error(outcome: ProbeOutcome) -> Option<LoadError> {
    match outcome {
        ProbeOutcome::NotFound => Some(LoadError::MediaNotFound),
        ProbeOutcome::Failed => Some(LoadError::ProbeFailed),
        ProbeOutcome::Found(report) => report_error(report),
    }
}

/// The remarks on an outcome.
pub open spec fn outcome_notes(outcome: ProbeOutcome) -> Seq<ProbeNote> {
    match outcome {
        ProbeOutcome::Found(report) => report_notes(report),
        _ => Seq::<ProbeNote>::empty(),
    }
}

/// The text that describes the decode pipeline for a file and a frame size
/// to the media framework: the file is decoded, its video converted to RGB
/// frames of that size for the application, its audio played at a tenth of
/// the volume.
pub open spec fn pipeline_text(path: Seq<char>, width: u32, height: u32) -> Seq<char> {
    "filesrc location=\""@ + path
        + "\" ! decodebin name=decode ! queue ! videoconvert ! video/x-raw,format=RGB,width="@
        + decimal(width as nat) + ",height="@ + decimal(height as nat)
        + ",colorimetry=sRGB ! appsink name=appsink sync=true decode. ! queue ! audioconvert !volume volume=0.1 ! audioresample ! autoaudiosink"@
}

/// Metadata comes only of a report: of one that tells the duration and
/// whose first video stream has frames of some width and height.
pub proof fn lemma_metadata_needs_a_playable_report(outcome: ProbeOutcome)
    requires
        outcome_error(outcome) is None,
    ensures
        outcome is Found,
        report_error(outcome->Found_0) is None,
        outcome->Found_0.video@.len() > 0,
        outcome->Found_0.video@[0].width > 0,
        outcome->Found_0.video@[0].height > 0,
        outcome->Found_0.duration_ms is Some,
{
}

/// The unsigned number with the bits of `x`.
fn to_unsigned(x: i32) -> (r: u32)
    ensures
        r == as_unsigned(x),
{
    if x < 0 {
        (x as i64 + 0x1_0000_0000i64) as u32
    } else {
        x as u32
    }
}

/// The first media type of `caps`, or `fallback`.
fn media_type_of(caps: &Vec<String>, fallback: &str) -> (name: String)
    ensures
        name@ == first_media_type(caps@, fallback@),
{
    if caps.len() > 0 {
        caps[0].clone()
    } else {
        String::from_str(fallback)
    }
}

/// Describes an audio stream.
fn audio_metadata(stream: &AudioStreamInfo) -> (audio: AudioMetadata)
    ensures
        describes_audio(audio, *stream),
{
    AudioMetadata {
        media_type: media_type_of(&stream.caps, "audio/*"),
        bitrate: stream.bitrate,
        max_bitrate: stream.max_bitrate,
        channel_mask: stream.channel_mask,
        channels: stream.channels,
        depth: stream.depth,
        sample_rate: stream.sample_rate,
    }
}

/// Judges a report: the metadata of what will be played, or the error, and
/// the remarks made on the way.
pub fn inspect(report: &ProbeReport) -> (loaded: Loaded)
    ensures
        loaded.notes@ == report_notes(*report),
        match loaded.result {
            Ok(meta) => report_error(*report) is None && describes(meta, *report),
            Err(e) => report_error(*report) == Some(e),
        },
{
    let mut notes: Vec<ProbeNote> = Vec::new();
    let duration_ms = match report.duration_ms {
        Some(d) => d,
        None => {
            return Loaded { notes, result: Err(LoadError::ProbeFailed) };
        },
    };
    if report.video.len() == 0 {
        return Loaded { notes, result: Err(LoadError::NoVideoStream) };
    }
    if report.video.len() > 1 {
        notes.push(ProbeNote::ExtraVideoStreams { count: report.video.len() });
    }
    let ghost streams = notes@;
    assert(streams =~= if report.video@.len() > 1 {
        seq![ProbeNote::ExtraVideoStreams { count: report.video@.len() as usize }]
    } else {
        Seq::<ProbeNote>::empty()
    });
    let video = &report.video[0];
    if (video.framerate_numer < 0 && video.framerate_denom > 0) || (video.framerate_numer > 0
        && video.framerate_denom < 0) {
        return Loaded { notes, result: Err(LoadError::ProbeFailed) };
    }
    if video.width == 0 || video.height == 0 {
        return Loaded { notes, result: Err(LoadError::ProbeFailed) };
    }
    let framerate = fraction_new(
        to_unsigned(video.framerate_numer),
        to_unsigned(video.framerate_denom),
    );
    let par = fraction_new(to_unsigned(video.par_numer), to_unsigned(video.par_denom));
    if video.caps.len() > 1 {
        notes.push(ProbeNote::ExtraVideoCaps);
    }
    let media_type = media_type_of(&video.caps, "video/*");
    if report.audio.len() > 1 {
        notes.push(ProbeNote::ExtraAudioStreams { count: report.audio.len() });
    }
    let audio_meta = if report.audio.len() > 0 {
        if report.audio[0].caps.len() > 1 {
            notes.push(ProbeNote::ExtraAudioCaps);
        }
        Some(audio_metadata(&report.audio[0]))
    } else {
        None
    };
    assert(notes@ =~= report_notes(*report));
    let meta = VideoMetadata {
        duration_ms,
        width: video.width,
        height: video.height,
        bitrate: video.bitrate,
        max_bitrate: video.max_bitrate,
        depth: video.depth,
        framerate,
        is_interlaced: video.is_interlaced,
        par,
        media_type,
        audio_meta,
    };
    Loaded { notes, result: Ok(meta) }
}

/// Judges how probing ended: a path that does not resolve is
/// `MediaNotFound`, a prober that failed is `ProbeFailed`, and a report is
/// judged by `inspect`.
pub fn load(outcome: &ProbeOutcome) -> (loaded: Loaded)
    ensures
        loaded.notes@ == outcome_notes(*outcome),
        match loaded.result {
            Ok(meta) => *outcome matches ProbeOutcome::Found(report) && report_error(report) is None
                && describes(meta, report),
            Err(e) => outcome_error(*outcome) == Some(e),
        },
{
    match outcome {
        ProbeOutcome::NotFound => Loaded {
            notes: Vec::new(),
            result: Err(LoadError::MediaNotFound),
        },
        ProbeOutcome::Failed => Loaded { notes: Vec::new(), result: Err(LoadError::ProbeFailed) },
        ProbeOutcome::Found(report) => inspect(report),
    }
}

/// The description of the decode pipeline for the file at `path`, which is
/// canonical, and frames of `width` by `height`.
pub fn pipeline_description(path: &str, width: u32, height: u32) -> (text: String)
    ensures
        text@ == pipeline_text(path@, width, height),
{
    let mut text = String::from_str("filesrc location=\"");
    text.append(path);
    text.append(
        "\" ! decodebin name=decode ! queue ! videoconvert ! video/x-raw,format=RGB,width=",
    );
    push_decimal(&mut text, width);
    text.append(",height=");
    push_decimal(&mut text, height);
    text.append(
        ",colorimetry=sRGB ! appsink name=appsink sync=true decode. ! queue ! audioconvert !volume volume=0.1 ! audioresample ! autoaudiosink",
    );
    text
}

} // verus!
