//! Decisions about video work: whether a video is cut or re-encoded, to what,
//! with which encoder, and how the tools' answers are read.
//!
//! The tools themselves are run by the caller.

use crate::float_bits::{FloatBits, HOUR_BITS};
use crate::numbers::{number_error_text, parse_u32, read_unsigned, NumberError};
use crate::paths::{
    file_stem, file_stem_of, join_path, joined_path, parent, parent_of,
};
use crate::text::{
    chars_of, contains_text, decimal, decimal_text, find_from, first_occurrence, occurs_in,
    same_text, text_between, trim, trimmed,
};
use crate::types::VideoQuality;
use vstd::prelude::*;

verus! {

/// The width and height of a video, in pixels.
#[derive(Debug, Clone, Copy, PartialEq, Eq, Structural)]
pub struct VideoResolution {
    pub width: u32,
    pub height: u32,
}

/// The number of seconds in a segment of a split video.
pub const SEGMENT_SECONDS: u64 = 3600;

/// The encoder that is used where no hardware encoder is.
pub const SOFTWARE_ENCODER: &'static str = "libx264";

/// The short name of a quality.
pub open spec fn quality_name(quality: VideoQuality) -> Seq<char> {
    match quality {
        VideoQuality::Quality1080p => "1080p"@,
        VideoQuality::Quality720p => "720p"@,
        VideoQuality::Quality480p => "480p"@,
        VideoQuality::NoConversion => "original"@,
    }
}

/// The short name of a quality.
pub fn target_quality_string(quality: &VideoQuality) -> (r: &'static str)
    ensures
        r@ == quality_name(*quality),
{
    match quality {
        VideoQuality::Quality1080p => "1080p",
        VideoQuality::Quality720p => "720p",
        VideoQuality::Quality480p => "480p",
        VideoQuality::NoConversion => "original",
    }
}

/// The resolution that a quality stands for; none where videos are left as
/// they are.
pub open spec fn resolution_of(quality: VideoQuality) -> Option<VideoResolution> {
    match quality {
        VideoQuality::Quality1080p => Some(VideoResolution { width: 1920, height: 1080 }),
        VideoQuality::Quality720p => Some(VideoResolution { width: 1280, height: 720 }),
        VideoQuality::Quality480p => Some(VideoResolution { width: 854, height: 480 }),
        VideoQuality::NoConversion => None,
    }
}

/// The resolution that a quality stands for; none where videos are left as
/// they are.
pub fn target_resolution(quality: &VideoQuality) -> (r: Option<VideoResolution>)
    ensures
        r == resolution_of(*quality),
{
    match quality {
        VideoQuality::Quality1080p => Some(VideoResolution { width: 1920, height: 1080 }),
        VideoQuality::Quality720p => Some(VideoResolution { width: 1280, height: 720 }),
        VideoQuality::Quality480p => Some(VideoResolution { width: 854, height: 480 }),
        VideoQuality::NoConversion => None,
    }
}

/// Whether a video of resolution `current` exceeds `target`: it is higher,
/// or as high and wider.
pub open spec fn exceeds(current: VideoResolution, target: VideoResolution) -> bool {
    current.height > target.height || (current.height == target.height && current.width
        > target.width)
}

/// Whether a video of resolution `current` must be encoded to reach
/// `target`.
pub fn needs_encoding(current: &VideoResolution, target: &VideoResolution) -> (r: bool)
    ensures
        r == exceeds(*current, *target),
{
    current.height > target.height || (current.height == target.height && current.width
        > target.width)
}

/// A video that is no larger than the target in either direction is never
/// encoded, and one that is higher always is.
pub proof fn lemma_encoding_is_reduction(current: VideoResolution, target: VideoResolution)
    ensures
        current.height <= target.height && current.width <= target.width ==> !exceeds(
            current,
            target,
        ),
        current.height > target.height ==> exceeds(current, target),
        !(exceeds(current, target) && exceeds(target, current)),
{
}

/// Why the output of the probe is not a resolution.
#[derive(Debug, Clone)]
pub enum ResolutionError {
    /// The output is not two parts around one `x`; this is the output.
    InvalidFormat(String),
    /// The part before the `x` is not a number; the part, and why.
    InvalidWidth(String, NumberError),
    /// The part after the `x` is not a number; the part, and why.
    InvalidHeight(String, NumberError),
}

/// The model of a `ResolutionError`.
pub ghost enum ResolutionErrorModel {
    InvalidFormat(Seq<char>),
    InvalidWidth(Seq<char>, NumberError),
    InvalidHeight(Seq<char>, NumberError),
}

impl DeepView for ResolutionError {
    type V = ResolutionErrorModel;

    open spec fn deep_view(&self) -> ResolutionErrorModel {
        match self {
            ResolutionError::InvalidFormat(text) => ResolutionErrorModel::InvalidFormat(text@),
            ResolutionError::InvalidWidth(part, why) => ResolutionErrorModel::InvalidWidth(
                part@,
                *why,
            ),
            ResolutionError::InvalidHeight(part, why) => ResolutionErrorModel::InvalidHeight(
                part@,
                *why,
            ),
        }
    }
}

/// The words that report `error`.
pub open spec fn resolution_error_text(error: ResolutionErrorModel) -> Seq<char> {
    match error {
        ResolutionErrorModel::InvalidFormat(text) => "Invalid resolution format: "@ + text,
        ResolutionErrorModel::InvalidWidth(part, why) => "Failed to parse width '"@ + part
            + "': "@ + number_error_text(why),
        ResolutionErrorModel::InvalidHeight(part, why) => "Failed to parse height '"@ + part
            + "': "@ + number_error_text(why),
    }
}

impl ResolutionError {
    /// The words that report the error.
    pub fn message(&self) -> (r: String)
        ensures
            r@ == resolution_error_text(self.deep_view()),
    {
        match self {
            ResolutionError::InvalidFormat(text) => {
                let mut out = String::from_str("Invalid resolution format: ");
                out.append(text.as_str());
                out
            },
            ResolutionError::InvalidWidth(part, why) => {
                let mut out = String::from_str("Failed to parse width '");
                out.append(part.as_str());
                out.append("': ");
                out.append(why.message().as_str());
                out
            },
            ResolutionError::InvalidHeight(part, why) => {
                let mut out = String::from_str("Failed to parse height '");
                out.append(part.as_str());
                out.append("': ");
                out.append(why.message().as_str());
                out
            },
        }
    }
}

/// The resolution that `text` writes as `WIDTHxHEIGHT`, or why it writes
/// none. The text must hold exactly one `x`; the width is read first.
pub open spec fn resolution_in(text: Seq<char>) -> Result<VideoResolution, ResolutionErrorModel> {
    match first_occurrence(text, seq!['x'], 0) {
        None => Err(ResolutionErrorModel::InvalidFormat(text)),
        Some(at) => if first_occurrence(text, seq!['x'], at + 1) is Some {
            Err(ResolutionErrorModel::InvalidFormat(text))
        } else {
            let left = text.subrange(0, at);
            let right = text.subrange(at + 1, text.len() as int);
            match read_unsigned(left, u32::MAX as nat) {
                Err(why) => Err(ResolutionErrorModel::InvalidWidth(left, why)),
                Ok(width) => match read_unsigned(right, u32::MAX as nat) {
                    Err(why) => Err(ResolutionErrorModel::InvalidHeight(right, why)),
                    Ok(height) => Ok(
                        VideoResolution { width: width as u32, height: height as u32 },
                    ),
                },
            }
        },
    }
}

/// Reads a resolution written as `WIDTHxHEIGHT`, without white space around
/// it.
pub fn read_resolution(text: &str) -> (r: Result<VideoResolution, ResolutionError>)
    ensures
        match r {
            Ok(resolution) => resolution_in(text@) == Ok::<
                VideoResolution,
                ResolutionErrorModel,
            >(resolution),
            Err(error) => resolution_in(text@) == Err::<VideoResolution, ResolutionErrorModel>(
                error.deep_view(),
            ),
        },
{
    let chars = chars_of(text);
    let mut sep: Vec<char> = Vec::new();
    sep.push('x');
    assert(sep@ == seq!['x']);
    let at = match find_from(chars.as_slice(), sep.as_slice(), 0) {
        None => {
            return Err(ResolutionError::InvalidFormat(String::from_str(text)));
        },
        Some(at) => at,
    };
    proof {
        crate::text::lemma_first_occurrence(chars@, sep@, 0);
    }
    if find_from(chars.as_slice(), sep.as_slice(), at + 1).is_some() {
        return Err(ResolutionError::InvalidFormat(String::from_str(text)));
    }
    let left = text_between(chars.as_slice(), 0, at);
    let right = text_between(chars.as_slice(), at + 1, chars.len());
    let left_chars = chars_of(left.as_str());
    let right_chars = chars_of(right.as_str());
    let width = match parse_u32(left_chars.as_slice()) {
        Err(why) => {
            return Err(ResolutionError::InvalidWidth(left, why));
        },
        Ok(width) => width,
    };
    let height = match parse_u32(right_chars.as_slice()) {
        Err(why) => {
            return Err(ResolutionError::InvalidHeight(right, why));
        },
        Ok(height) => height,
    };
    Ok(VideoResolution { width, height })
}

/// Reads the resolution that the probe printed: the output without the
/// white space at its ends, as `WIDTHxHEIGHT`.
pub fn parse_resolution(output: &str) -> (r: Result<VideoResolution, ResolutionError>)
    ensures
        match r {
            Ok(resolution) => resolution_in(trimmed(output@)) == Ok::<
                VideoResolution,
                ResolutionErrorModel,
            >(resolution),
            Err(error) => resolution_in(trimmed(output@)) == Err::<
                VideoResolution,
                ResolutionErrorModel,
            >(error.deep_view()),
        },
{
    let text = trim(output);
    read_resolution(text.as_str())
}

/// Whether a video of this duration, in seconds, is cut into segments: it
/// is, unless the duration is at most an hour.
pub open spec fn is_split(duration: FloatBits) -> bool {
    !duration.le(FloatBits { bits: HOUR_BITS })
}

/// Whether a video of this duration, in seconds, is cut into segments.
pub fn needs_split(duration: &FloatBits) -> (r: bool)
    ensures
        r == is_split(*duration),
{
    !duration.at_most(&FloatBits::hour())
}

/// The second at which segment `index` begins.
pub fn segment_start(index: u64) -> (r: u64)
    requires
        index * SEGMENT_SECONDS <= u64::MAX,
    ensures
        r == index * SEGMENT_SECONDS,
{
    index * SEGMENT_SECONDS
}

/// The file name of segment `index` of the video whose file stem is `stem`.
pub open spec fn segment_name(stem: Seq<char>, index: nat) -> Seq<char> {
    stem + "_segment_"@ + decimal_text(index) + ".mp4"@
}

/// The file name of segment `index` of the video whose file stem is `stem`.
pub fn segment_file_name(stem: &str, index: u64) -> (r: String)
    ensures
        r@ == segment_name(stem@, index as nat),
{
    let mut name = String::from_str(stem);
    name.append("_segment_");
    name.append(decimal(index).as_str());
    name.append(".mp4");
    name
}

/// The path of segment `index` of the video at `video_path`, beside the
/// video; none where the path has no file stem or no parent.
pub fn segment_path(video_path: &str, index: u64) -> (r: Option<String>)
    ensures
        r.deep_view() == match (file_stem_of(video_path@), parent_of(video_path@)) {
            (Some(stem), Some(directory)) => Some(
                joined_path(directory, segment_name(stem, index as nat)),
            ),
            _ => None,
        },
{
    match (file_stem(video_path), parent(video_path)) {
        (Some(stem), Some(directory)) => {
            let name = segment_file_name(stem.as_str(), index);
            Some(join_path(directory.as_str(), name.as_str()))
        },
        _ => None,
    }
}

/// The file name of a video with file stem `stem` once it is encoded to
/// `quality`.
pub open spec fn encoded_name(stem: Seq<char>, quality: VideoQuality) -> Seq<char> {
    stem + "_"@ + quality_name(quality) + ".mp4"@
}

/// The file name of a video with file stem `stem` once it is encoded to
/// `quality`.
pub fn encoded_file_name(stem: &str, quality: &VideoQuality) -> (r: String)
    ensures
        r@ == encoded_name(stem@, *quality),
{
    let mut name = String::from_str(stem);
    name.append("_");
    name.append(target_quality_string(quality));
    name.append(".mp4");
    name
}

/// Why a video cannot be encoded.
#[derive(Debug, Clone, Copy, PartialEq, Eq, Structural)]
pub enum EncodeError {
    /// The path of the video has no file name to derive the output from.
    InvalidFileName,
}

impl EncodeError {
    /// The words that report the error.
    pub fn message(&self) -> (r: String)
        ensures
            r@ == "Invalid video file name"@,
    {
        String::from_str("Invalid video file name")
    }
}

/// Where the video at `video_path` is written once it is encoded to
/// `quality`: under `output_dir`, named after the video and the quality.
pub fn encoded_output_path(video_path: &str, quality: &VideoQuality, output_dir: &str) -> (r:
    Result<String, EncodeError>)
    ensures
        match r {
            Ok(path) => match file_stem_of(video_path@) {
                Some(stem) => path@ == joined_path(output_dir@, encoded_name(stem, *quality)),
                None => false,
            },
            Err(_) => file_stem_of(video_path@) is None,
        },
{
    match file_stem(video_path) {
        Some(stem) => {
            let name = encoded_file_name(stem.as_str(), quality);
            Ok(join_path(output_dir, name.as_str()))
        },
        None => Err(EncodeError::InvalidFileName),
    }
}

/// What is done about the encoder before the encoding starts.
#[derive(Debug, Clone)]
pub enum EncoderPlan {
    /// The software encoder is used; nothing is said.
    Software,
    /// Hardware encoding was asked for and none is there: the software
    /// encoder is used, after this notice.
    Fallback { notice: String },
    /// This hardware encoder is tried, after this notice.
    Try { encoder: String, notice: String },
}

/// The model of an `EncoderPlan`.
pub ghost enum EncoderPlanModel {
    Software,
    Fallback { notice: Seq<char> },
    Try { encoder: Seq<char>, notice: Seq<char> },
}

impl DeepView for EncoderPlan {
    type V = EncoderPlanModel;

    open spec fn deep_view(&self) -> EncoderPlanModel {
        match self {
            EncoderPlan::Software => EncoderPlanModel::Software,
            EncoderPlan::Fallback { notice } => EncoderPlanModel::Fallback { notice: notice@ },
            EncoderPlan::Try { encoder, notice } => EncoderPlanModel::Try {
                encoder: encoder@,
                notice: notice@,
            },
        }
    }
}

/// What is done about the encoder, given whether hardware encoding was
/// asked for and which hardware encoder is the best one there.
pub open spec fn planned_encoder(hardware_encoding: bool, best: Option<Seq<char>>) -> EncoderPlanModel {
    if !hardware_encoding {
        EncoderPlanModel::Software
    } else {
        match best {
            Some(encoder) => EncoderPlanModel::Try {
                encoder,
                notice: "ハードウェアエンコーダーを使用します: "@ + encoder,
            },
            None => EncoderPlanModel::Fallback {
                notice: "ハードウェアエンコーダーが利用できません。ソフトウェアエンコーダーを使用します..."@,
            },
        }
    }
}

/// Decides what is done about the encoder. `best` is looked at only where
/// hardware encoding was asked for.
pub fn plan_encoder(hardware_encoding: bool, best: Option<String>) -> (r: EncoderPlan)
    ensures
        r.deep_view() == planned_encoder(hardware_encoding, best.deep_view()),
{
    if !hardware_encoding {
        EncoderPlan::Software
    } else {
        match best {
            Some(encoder) => {
                let mut notice = String::from_str("ハードウェアエンコーダーを使用します: ");
                notice.append(encoder.as_str());
                EncoderPlan::Try { encoder, notice }
            },
            None => EncoderPlan::Fallback {
                notice: String::from_str(
                    "ハードウェアエンコーダーが利用できません。ソフトウェアエンコーダーを使用します...",
                ),
            },
        }
    }
}

/// The encoder that is used after a hardware encoder was tried: that one
/// where the trial passed, else the software encoder, with a notice.
pub fn settle_encoder(encoder: String, trial_passed: bool) -> (r: (String, Option<String>))
    ensures
        trial_passed ==> r.0@ == encoder@ && r.1 is None,
        !trial_passed ==> r.0@ == SOFTWARE_ENCODER@ && r.1.deep_view() == Some(
            "ハードウェアエンコーダーのテストに失敗しました。ソフトウェアエンコーダーを使用します..."@,
        ),
{
    if trial_passed {
        (encoder, None)
    } else {
        (
            String::from_str(SOFTWARE_ENCODER),
            Some(
                String::from_str(
                    "ハードウェアエンコーダーのテストに失敗しました。ソフトウェアエンコーダーを使用します...",
                ),
            ),
        )
    }
}

/// The arguments that set the quality for `encoder`: a constant rate factor
/// for the software encoder, a bit rate for any other.
pub open spec fn quality_arguments(encoder: Seq<char>) -> Seq<Seq<char>> {
    if encoder == SOFTWARE_ENCODER@ {
        seq!["-crf"@, "23"@]
    } else {
        seq!["-b:v"@, "5M"@]
    }
}

/// The arguments with which the video at `video_path` is encoded to
/// `target` by `encoder` and written to `output_path`.
pub open spec fn encode_arguments(
    video_path: Seq<char>,
    target: VideoResolution,
    encoder: Seq<char>,
    output_path: Seq<char>,
) -> Seq<Seq<char>> {
    seq![
        "-i"@,
        video_path,
        "-vf"@,
        "scale="@ + decimal_text(target.width as nat) + ":"@ + decimal_text(target.height as nat),
        "-c:v"@,
        encoder,
        "-c:a"@,
        "aac"@,
    ] + quality_arguments(encoder) + seq!["-progress"@, "pipe:1"@, "-y"@, output_path]
}

/// The arguments with which the video at `video_path` is encoded to
/// `target` by `encoder` and written to `output_path`.
pub fn build_encode_arguments(
    video_path: &str,
    target: &VideoResolution,
    encoder: &str,
    output_path: &str,
) -> (r: Vec<String>)
    ensures
        r.deep_view() == encode_arguments(video_path@, *target, encoder@, output_path@),
{
    let mut scale = String::from_str("scale=");
    scale.append(decimal(target.width as u64).as_str());
    scale.append(":");
    scale.append(decimal(target.height as u64).as_str());
    let mut args: Vec<String> = Vec::new();
    args.push(String::from_str("-i"));
    args.push(String::from_str(video_path));
    args.push(String::from_str("-vf"));
    args.push(scale);
    args.push(String::from_str("-c:v"));
    args.push(String::from_str(encoder));
    args.push(String::from_str("-c:a"));
    args.push(String::from_str("aac"));
    if same_text(encoder, SOFTWARE_ENCODER) {
        args.push(String::from_str("-crf"));
        args.push(String::from_str("23"));
    } else {
        args.push(String::from_str("-b:v"));
        args.push(String::from_str("5M"));
    }
    args.push(String::from_str("-progress"));
    args.push(String::from_str("pipe:1"));
    args.push(String::from_str("-y"));
    args.push(String::from_str(output_path));
    assert(args.deep_view() =~= encode_arguments(video_path@, *target, encoder@, output_path@));
    args
}

/// The text that follows `out_time_ms=` in a line of the encoder's progress
/// report; none for any other line.
pub open spec fn progress_time(line: Seq<char>) -> Option<Seq<char>> {
    if crate::text::occurs_at(line, "out_time_ms="@, 0) {
        Some(line.subrange("out_time_ms="@.len() as int, line.len() as int))
    } else {
        None
    }
}

/// The text that follows `out_time_ms=` in a line of the encoder's progress
/// report; none for any other line.
pub fn progress_time_text(line: &str) -> (r: Option<String>)
    ensures
        r.deep_view() == progress_time(line@),
{
    let chars = chars_of(line);
    let prefix = chars_of("out_time_ms=");
    if crate::text::matches_at(chars.as_slice(), prefix.as_slice(), 0) {
        Some(text_between(chars.as_slice(), prefix.len(), chars.len()))
    } else {
        None
    }
}

/// The hardware encoders that are known, best first.
pub open spec fn encoder_priority() -> Seq<Seq<char>> {
    seq![
        "h264_videotoolbox"@,
        "h264_nvenc"@,
        "h264_qsv"@,
        "h264_amf"@,
        "h264_vaapi"@,
        "h264_v4l2m2m"@,
    ]
}

/// The first of `candidates`, from position `from` on, that `listing`
/// mentions.
pub open spec fn first_mentioned(listing: Seq<char>, candidates: Seq<Seq<char>>, from: int) -> Option<
    Seq<char>,
>
    decreases candidates.len() - from,
{
    if from < 0 || from >= candidates.len() {
        None
    } else if occurs_in(listing, candidates[from]) {
        Some(candidates[from])
    } else {
        first_mentioned(listing, candidates, from + 1)
    }
}

/// The best hardware encoder that the encoder listing mentions.
pub fn best_hardware_encoder(listing: &str) -> (r: Option<String>)
    ensures
        r.deep_view() == first_mentioned(listing@, encoder_priority(), 0),
{
    let candidates = [
        "h264_videotoolbox",
        "h264_nvenc",
        "h264_qsv",
        "h264_amf",
        "h264_vaapi",
        "h264_v4l2m2m",
    ];
    assert(candidates@.map_values(|s: &str| s@) =~= encoder_priority());
    let mut i: usize = 0;
    while i < candidates.len()
        invariant
            i <= candidates.len(),
            candidates@.map_values(|s: &str| s@) == encoder_priority(),
            first_mentioned(listing@, encoder_priority(), 0) == first_mentioned(
                listing@,
                encoder_priority(),
                i as int,
            ),
        decreases candidates.len() - i,
    {
        let candidate: &str = candidates[i];
        assert(candidate@ == encoder_priority()[i as int]) by {
            assert(candidates@.map_values(|s: &str| s@)[i as int] == candidate@);
        }
        if contains_text(listing, candidate) {
            return Some(String::from_str(candidate));
        }
        i += 1;
    }
    None
}

/// The directories in which the tools are looked for before the search
/// path is, in this order.
pub open spec fn common_directories() -> Seq<Seq<char>> {
    seq![
        "/opt/homebrew/bin"@,
        "/usr/local/bin"@,
        "/usr/bin"@,
        "/bin"@,
        "/opt/local/bin"@,
        "/sw/bin"@,
        "/usr/local/opt/ffmpeg/bin"@,
        "/opt/homebrew/opt/ffmpeg/bin"@,
    ]
}

/// Where the tool `name` is looked for before the search path is, in this
/// order.
pub fn executable_candidates(name: &str) -> (r: Vec<String>)
    ensures
        r.deep_view() == Seq::new(
            common_directories().len(),
            |i: int| joined_path(common_directories()[i], name@),
        ),
{
    let mut out: Vec<String> = Vec::new();
    out.push(join_path("/opt/homebrew/bin", name));
    out.push(join_path("/usr/local/bin", name));
    out.push(join_path("/usr/bin", name));
    out.push(join_path("/bin", name));
    out.push(join_path("/opt/local/bin", name));
    out.push(join_path("/sw/bin", name));
    out.push(join_path("/usr/local/opt/ffmpeg/bin", name));
    out.push(join_path("/opt/homebrew/opt/ffmpeg/bin", name));
    assert(out.deep_view() =~= Seq::new(
        common_directories().len(),
        |i: int| joined_path(common_directories()[i], name@),
    ));
    out
}

fn arguments(words: &[&str]) -> (r: Vec<String>)
    ensures
        r.deep_view() == words@.map_values(|w: &str| w@),
{
    let mut out: Vec<String> = Vec::new();
    let mut i: usize = 0;
    while i < words.len()
        invariant
            i <= words.len(),
            out.len() == i,
            forall|j: int| 0 <= j < i ==> #[trigger] out[j]@ == words[j]@,
        decreases words.len() - i,
    {
        out.push(String::from_str(words[i]));
        i += 1;
    }
    assert(out.deep_view() =~= words@.map_values(|w: &str| w@));
    out
}

/// The arguments with which the probe is asked for the resolution of the
/// video at `video_path`.
pub open spec fn resolution_probe_arguments(video_path: Seq<char>) -> Seq<Seq<char>> {
    seq![
        "-v"@,
        "error"@,
        "-select_streams"@,
        "v:0"@,
        "-show_entries"@,
        "stream=width,height"@,
        "-of"@,
        "csv=s=x:p=0"@,
        video_path,
    ]
}

/// The arguments with which the probe is asked for the resolution of the
/// video at `video_path`.
pub fn build_resolution_probe_arguments(video_path: &str) -> (r: Vec<String>)
    ensures
        r.deep_view() == resolution_probe_arguments(video_path@),
{
    let words = [
        "-v",
        "error",
        "-select_streams",
        "v:0",
        "-show_entries",
        "stream=width,height",
        "-of",
        "csv=s=x:p=0",
        video_path,
    ];
    let out = arguments(&words);
    assert(out.deep_view() =~= resolution_probe_arguments(video_path@));
    out
}

/// The arguments with which the probe is asked for the duration of the
/// video at `video_path`.
pub open spec fn duration_probe_arguments(video_path: Seq<char>) -> Seq<Seq<char>> {
    seq![
        "-v"@,
        "error"@,
        "-show_entries"@,
        "format=duration"@,
        "-of"@,
        "default=noprint_wrappers=1:nokey=1"@,
        video_path,
    ]
}

/// The arguments with which the probe is asked for the duration of the
/// video at `video_path`.
pub fn build_duration_probe_arguments(video_path: &str) -> (r: Vec<String>)
    ensures
        r.deep_view() == duration_probe_arguments(video_path@),
{
    let words = [
        "-v",
        "error",
        "-show_entries",
        "format=duration",
        "-of",
        "default=noprint_wrappers=1:nokey=1",
        video_path,
    ];
    let out = arguments(&words);
    assert(out.deep_view() =~= duration_probe_arguments(video_path@));
    out
}

/// The arguments with which segment `index` of the video at `video_path` is
/// copied to `segment_path`.
pub open spec fn split_arguments(video_path: Seq<char>, index: nat, segment_path: Seq<char>) -> Seq<
    Seq<char>,
> {
    seq![
        "-i"@,
        video_path,
        "-ss"@,
        decimal_text(index * SEGMENT_SECONDS as nat),
        "-t"@,
        "3600"@,
        "-c"@,
        "copy"@,
        segment_path,
    ]
}

/// The arguments with which segment `index` of the video at `video_path` is
/// copied to `segment_path`.
pub fn build_split_arguments(video_path: &str, index: u64, segment_path: &str) -> (r: Vec<String>)
    requires
        index * SEGMENT_SECONDS <= u64::MAX,
    ensures
        r.deep_view() == split_arguments(video_path@, index as nat, segment_path@),
{
    let start = decimal(segment_start(index));
    let words = [
        "-i",
        video_path,
        "-ss",
        start.as_str(),
        "-t",
        "3600",
        "-c",
        "copy",
        segment_path,
    ];
    let out = arguments(&words);
    assert(out.deep_view() =~= split_arguments(video_path@, index as nat, segment_path@));
    out
}

/// The arguments with which one frame of the video at `video_path` is
/// written to `output_path`; `moment` is the second of the frame, in text.
/// The fast form adds what lets the tool skip to the nearest key frame.
pub open spec fn frame_arguments(
    video_path: Seq<char>,
    moment: Seq<char>,
    output_path: Seq<char>,
    fast: bool,
) -> Seq<Seq<char>> {
    seq!["-ss"@, moment, "-i"@, video_path, "-vframes"@, "1"@, "-q:v"@, "2"@] + (if fast {
        seq!["-f"@, "image2"@, "-seek2any"@, "0"@]
    } else {
        Seq::empty()
    }) + seq!["-y"@, output_path]
}

/// The arguments with which one frame of the video at `video_path` is
/// written to `output_path`.
pub fn build_frame_arguments(video_path: &str, moment: &str, output_path: &str, fast: bool) -> (r:
    Vec<String>)
    ensures
        r.deep_view() == frame_arguments(video_path@, moment@, output_path@, fast),
{
    let out = if fast {
        let words = [
            "-ss",
            moment,
            "-i",
            video_path,
            "-vframes",
            "1",
            "-q:v",
            "2",
            "-f",
            "image2",
            "-seek2any",
            "0",
            "-y",
            output_path,
        ];
        arguments(&words)
    } else {
        let words = ["-ss", moment, "-i", video_path, "-vframes", "1", "-q:v", "2", "-y", output_path];
        arguments(&words)
    };
    assert(out.deep_view() =~= frame_arguments(video_path@, moment@, output_path@, fast));
    out
}

/// The arguments with which `encoder` is tried on a generated picture.
pub open spec fn trial_arguments(encoder: Seq<char>) -> Seq<Seq<char>> {
    seq![
        "-f"@,
        "lavfi"@,
        "-i"@,
        "testsrc=duration=1:size=320x240:rate=30"@,
        "-c:v"@,
        encoder,
        "-t"@,
        "1"@,
        "-f"@,
        "null"@,
        "-"@,
    ]
}

/// The arguments with which `encoder` is tried on a generated picture.
pub fn build_trial_arguments(encoder: &str) -> (r: Vec<String>)
    ensures
        r.deep_view() == trial_arguments(encoder@),
{
    let words = [
        "-f",
        "lavfi",
        "-i",
        "testsrc=duration=1:size=320x240:rate=30",
        "-c:v",
        encoder,
        "-t",
        "1",
        "-f",
        "null",
        "-",
    ];
    let out = arguments(&words);
    assert(out.deep_view() =~= trial_arguments(encoder@));
    out
}

/// `n` in decimal, with zeros before it up to three digits.
pub open spec fn padded_number(n: nat) -> Seq<char> {
    if n < 10 {
        "00"@ + decimal_text(n)
    } else if n < 100 {
        "0"@ + decimal_text(n)
    } else {
        decimal_text(n)
    }
}

/// The path of frame number `number` of a batch: in `output_dir`, named
/// after `base_filename` and the number.
pub open spec fn batch_frame_path(output_dir: Seq<char>, base_filename: Seq<char>, number: nat) -> Seq<
    char,
> {
    output_dir + "/"@ + base_filename + "_frame_"@ + padded_number(number) + ".jpg"@
}

/// The path of frame number `number` of a batch.
pub fn frame_output_path(output_dir: &str, base_filename: &str, number: u64) -> (r: String)
    ensures
        r@ == batch_frame_path(output_dir@, base_filename@, number as nat),
{
    let mut path = String::from_str(output_dir);
    path.append("/");
    path.append(base_filename);
    path.append("_frame_");
    let mut digits = if number < 10 {
        String::from_str("00")
    } else if number < 100 {
        String::from_str("0")
    } else {
        proof {
            reveal_strlit("");
        }
        String::from_str("")
    };
    digits.append(decimal(number).as_str());
    assert(digits@ =~= padded_number(number as nat));
    path.append(digits.as_str());
    path.append(".jpg");
    path
}

/// The filter that cuts frame `index` of a batch out at `moment`.
pub open spec fn frame_filter(moment: Seq<char>, index: nat) -> Seq<char> {
    "[0:v]trim=start="@ + moment + ":duration=0.1,select=eq(n\\,0)[out"@ + decimal_text(index)
        + "]"@
}

/// The filter that cuts frame `index` of a batch out at `moment`.
pub fn build_frame_filter(moment: &str, index: u64) -> (r: String)
    ensures
        r@ == frame_filter(moment@, index as nat),
{
    let mut filter = String::from_str("[0:v]trim=start=");
    filter.append(moment);
    filter.append(":duration=0.1,select=eq(n\\,0)[out");
    filter.append(decimal(index).as_str());
    filter.append("]");
    filter
}

/// The arguments that write frame `index` of a batch to `output_path`.
pub open spec fn frame_output_arguments(index: nat, output_path: Seq<char>) -> Seq<Seq<char>> {
    seq!["-map"@, "[out"@ + decimal_text(index) + "]"@, "-q:v"@, "2"@, output_path]
}

/// The arguments that write the first `count` frames of a batch.
pub open spec fn batch_output_arguments(
    output_dir: Seq<char>,
    base_filename: Seq<char>,
    count: nat,
) -> Seq<Seq<char>>
    decreases count,
{
    if count == 0 {
        Seq::empty()
    } else {
        batch_output_arguments(output_dir, base_filename, (count - 1) as nat)
            + frame_output_arguments(
            (count - 1) as nat,
            batch_frame_path(output_dir, base_filename, count),
        )
    }
}

/// The filters of a batch of frames at `moments`.
pub open spec fn batch_filters(moments: Seq<Seq<char>>) -> Seq<Seq<char>> {
    Seq::new(moments.len(), |i: int| frame_filter(moments[i], i as nat))
}

/// The paths of the frames of a batch of `count` frames.
pub open spec fn batch_paths(output_dir: Seq<char>, base_filename: Seq<char>, count: nat) -> Seq<
    Seq<char>,
> {
    Seq::new(count, |i: int| batch_frame_path(output_dir, base_filename, (i + 1) as nat))
}

/// The arguments with which the frames at `moments` are all taken from the
/// video at `video_path` in one run.
pub open spec fn batch_arguments(
    video_path: Seq<char>,
    moments: Seq<Seq<char>>,
    output_dir: Seq<char>,
    base_filename: Seq<char>,
) -> Seq<Seq<char>> {
    seq!["-i"@, video_path, "-filter_complex"@, crate::text::joined(batch_filters(moments), ";"@)]
        + batch_output_arguments(output_dir, base_filename, moments.len()) + seq!["-y"@]
}

/// How several frames are taken from one video.
#[derive(Debug, Clone)]
pub enum FramePlan {
    /// No frame is asked for.
    Nothing,
    /// One frame is asked for: it is taken by itself and written here.
    Single { output_path: String },
    /// Several frames are asked for: the tool is run once with these
    /// arguments and writes the frames here.
    Batch { arguments: Vec<String>, output_paths: Vec<String> },
}

/// The model of a `FramePlan`.
pub ghost enum FramePlanModel {
    Nothing,
    Single { output_path: Seq<char> },
    Batch { arguments: Seq<Seq<char>>, output_paths: Seq<Seq<char>> },
}

impl DeepView for FramePlan {
    type V = FramePlanModel;

    open spec fn deep_view(&self) -> FramePlanModel {
        match self {
            FramePlan::Nothing => FramePlanModel::Nothing,
            FramePlan::Single { output_path } => FramePlanModel::Single {
                output_path: output_path@,
            },
            FramePlan::Batch { arguments, output_paths } => FramePlanModel::Batch {
                arguments: arguments.deep_view(),
                output_paths: output_paths.deep_view(),
            },
        }
    }
}

/// How the frames at `moments` are taken from the video at `video_path`.
pub open spec fn frame_plan(
    video_path: Seq<char>,
    moments: Seq<Seq<char>>,
    output_dir: Seq<char>,
    base_filename: Seq<char>,
) -> FramePlanModel {
    if moments.len() > 1 {
        FramePlanModel::Batch {
            arguments: batch_arguments(video_path, moments, output_dir, base_filename),
            output_paths: batch_paths(output_dir, base_filename, moments.len()),
        }
    } else if moments.len() == 1 {
        FramePlanModel::Single { output_path: batch_frame_path(output_dir, base_filename, 1) }
    } else {
        FramePlanModel::Nothing
    }
}

/// Decides how the frames at `moments`, each a second in text, are taken
/// from the video at `video_path`.
pub fn plan_frames(video_path: &str, moments: &[String], output_dir: &str, base_filename: &str) -> (r:
    FramePlan)
    requires
        moments.len() < u64::MAX,
    ensures
        r.deep_view() == frame_plan(
            video_path@,
            moments.deep_view(),
            output_dir@,
            base_filename@,
        ),
{
    if moments.len() > 1 {
        let mut filters: Vec<String> = Vec::new();
        let mut i: usize = 0;
        while i < moments.len()
            invariant
                i <= moments.len() < u64::MAX,
                filters.len() == i,
                forall|j: int|
                    0 <= j < i ==> #[trigger] filters[j]@ == frame_filter(
                        moments.deep_view()[j],
                        j as nat,
                    ),
            decreases moments.len() - i,
        {
            filters.push(build_frame_filter(moments[i].as_str(), i as u64));
            i += 1;
        }
        assert(filters.deep_view() =~= batch_filters(moments.deep_view()));
        let mut args: Vec<String> = Vec::new();
        args.push(String::from_str("-i"));
        args.push(String::from_str(video_path));
        args.push(String::from_str("-filter_complex"));
        args.push(crate::text::join(filters.as_slice(), ";"));
        let ghost head = args.deep_view();
        assert(head =~= seq![
            "-i"@,
            video_path@,
            "-filter_complex"@,
            crate::text::joined(batch_filters(moments.deep_view()), ";"@),
        ]);
        let mut paths: Vec<String> = Vec::new();
        let mut k: usize = 0;
        while k < moments.len()
            invariant
                k <= moments.len() < u64::MAX,
                paths.len() == k,
                forall|j: int|
                    0 <= j < k ==> #[trigger] paths[j]@ == batch_frame_path(
                        output_dir@,
                        base_filename@,
                        (j + 1) as nat,
                    ),
                args.deep_view() == head + batch_output_arguments(
                    output_dir@,
                    base_filename@,
                    k as nat,
                ),
            decreases moments.len() - k,
        {
            let ghost before = args.deep_view();
            let path = frame_output_path(output_dir, base_filename, (k + 1) as u64);
            let mut label = String::from_str("[out");
            label.append(decimal(k as u64).as_str());
            label.append("]");
            args.push(String::from_str("-map"));
            args.push(label);
            args.push(String::from_str("-q:v"));
            args.push(String::from_str("2"));
            args.push(path.clone());
            assert(args.deep_view() =~= before + frame_output_arguments(k as nat, path@));
            paths.push(path);
            k += 1;
        }
        let ghost body = args.deep_view();
        args.push(String::from_str("-y"));
        assert(args.deep_view() =~= body + seq!["-y"@]);
        assert(paths.deep_view() =~= batch_paths(output_dir@, base_filename@, moments.len() as nat));
        FramePlan::Batch { arguments: args, output_paths: paths }
    } else if moments.len() == 1 {
        FramePlan::Single { output_path: frame_output_path(output_dir, base_filename, 1) }
    } else {
        FramePlan::Nothing
    }
}

/// Whether the segment that begins at `start` seconds is cut from a video
/// of `duration` seconds: it is while it begins before the video ends. A
/// duration that is no number has no segment.
pub open spec fn is_due(start: FloatBits, duration: FloatBits) -> bool {
    start.lt(duration)
}

/// Whether the segment that begins at `start` seconds is cut from a video
/// of `duration` seconds.
pub fn segment_is_due(start: &FloatBits, duration: &FloatBits) -> (r: bool)
    ensures
        r == is_due(*start, *duration),
        r == (start.le(*duration) && !duration.le(*start)),
{
    start.less_than(duration)
}

/// A video that is not split has one segment at most that is due after the
/// first: none begins at or after its end, and a video of an hour or less
/// ends before the second segment begins.
pub proof fn lemma_short_video_has_one_segment(start: FloatBits, duration: FloatBits)
    requires
        !is_split(duration),
        (FloatBits { bits: HOUR_BITS }).le(start),
    ensures
        !is_due(start, duration),
{
}

/// The segments that are due are the first ones: where a segment is due,
/// every segment that begins no later is due as well. So the segments cut
/// from a video are those that begin before it ends, and no others.
pub proof fn lemma_due_segments_come_first(
    earlier: FloatBits,
    later: FloatBits,
    duration: FloatBits,
)
    requires
        earlier.le(later),
        is_due(later, duration),
    ensures
        is_due(earlier, duration),
{
}

/// The message that reports that segment `index` could not be cut.
pub fn split_failure(index: u64) -> (r: String)
    ensures
        r@ == "ffmpeg split failed for segment "@ + decimal_text(index as nat),
{
    let mut message = String::from_str("ffmpeg split failed for segment ");
    message.append(decimal(index).as_str());
    message
}

/// What the user is told when an encoding begins.
pub fn encoding_started() -> (r: String)
    ensures
        r@ == "動画のエンコードを開始しています..."@,
{
    String::from_str("動画のエンコードを開始しています...")
}

/// What the user is told when an encoding has ended well.
pub fn encoding_finished() -> (r: String)
    ensures
        r@ == "エンコードが完了しました"@,
{
    String::from_str("エンコードが完了しました")
}

/// The message that reports that an encoding failed, with what the encoder
/// wrote about it.
pub fn encoding_failure(errors: &str) -> (r: String)
    ensures
        r@ == "Video encoding failed: "@ + errors@,
{
    let mut message = String::from_str("Video encoding failed: ");
    message.append(errors);
    message
}

} // verus!
