//! The values that pass between the application and the library.

use crate::float_bits::FloatBits;
use vstd::prelude::*;

verus! {

/// The resolution that videos are reduced to before they are uploaded.
#[derive(Debug, Clone, Copy, PartialEq, Eq, Structural)]
pub enum VideoQuality {
    NoConversion,
    Quality1080p,
    Quality720p,
    Quality480p,
}

/// How often the generated document should refer to screenshots.
#[derive(Debug, Clone, Copy, PartialEq, Eq, Structural)]
pub enum ImageEmbedFrequency {
    Minimal,
    Moderate,
    Detailed,
}

/// How frames are taken out of a video.
#[derive(Debug, Clone, Copy, PartialEq, Eq, Structural)]
pub enum FrameExtractionMethod {
    Standard,
    Fast,
    Multiple,
}

/// A local video file that the user picked.
#[derive(Debug, Clone)]
pub struct VideoFile {
    pub path: String,
    pub name: String,
    pub size: u64,
    pub duration: Option<FloatBits>,
}

/// A video on YouTube.
#[derive(Debug, Clone)]
pub struct YouTubeVideoInfo {
    pub url: String,
    pub title: String,
}

/// Where the video comes from.
#[derive(Debug, Clone)]
pub enum VideoSource {
    Local { files: Vec<VideoFile> },
    YouTube { video: YouTubeVideoInfo },
}

/// What the user has configured.
#[derive(Debug, Clone)]
pub struct AppSettings {
    pub gemini_api_key: String,
    pub language: String,
    pub temperature: FloatBits,
    pub custom_prompt: Option<String>,
    pub gemini_model: String,
    pub embed_images: bool,
    pub image_embed_frequency: ImageEmbedFrequency,
    pub video_quality: VideoQuality,
    pub hardware_encoding: bool,
    pub enable_experimental_features: bool,
    pub frame_extraction_method: FrameExtractionMethod,
}

/// One notice of progress: a message, and how far the work has come.
#[derive(Debug, Clone)]
pub struct ProgressUpdate {
    pub message: String,
    pub step: usize,
    pub total_steps: usize,
}

/// A named prompt that the user can pick.
#[derive(Debug, Clone)]
pub struct PromptPreset {
    pub id: String,
    pub name: String,
    pub prompt: String,
    pub is_default: bool,
}

/// The presets, as they are stored.
#[derive(Debug, Clone)]
pub struct PromptPresets {
    pub presets: Vec<PromptPreset>,
}

/// A request to generate text.
#[derive(Debug, Clone)]
pub struct GeminiRequest {
    pub contents: Vec<GeminiContent>,
    pub generation_config: Option<GeminiGenerationConfig>,
}

/// The settings of one generation.
#[derive(Debug, Clone)]
pub struct GeminiGenerationConfig {
    pub temperature: Option<FloatBits>,
}

/// One message of a request or of an answer.
#[derive(Debug, Clone)]
pub struct GeminiContent {
    pub parts: Vec<GeminiPart>,
}

/// One part of a message: text, or a reference to an uploaded file.
#[derive(Debug, Clone)]
pub enum GeminiPart {
    Text { text: String },
    FileData { file_data: GeminiFileData },
}

/// A reference to an uploaded file.
#[derive(Debug, Clone)]
pub struct GeminiFileData {
    pub mime_type: String,
    pub file_uri: String,
}

/// The answer to a request to generate text.
#[derive(Debug, Clone)]
pub struct GeminiResponse {
    pub candidates: Vec<GeminiCandidate>,
}

/// One candidate answer.
#[derive(Debug, Clone)]
pub struct GeminiCandidate {
    pub content: GeminiContent,
}

/// The answer to a finished upload.
#[derive(Debug, Clone)]
pub struct GeminiUploadResponse {
    pub file: GeminiFileInfo,
}

/// What the service says of a file right after the upload.
#[derive(Debug, Clone)]
pub struct GeminiFileInfo {
    pub name: String,
    pub uri: Option<String>,
    pub mime_type: Option<String>,
}

/// The model of a `PromptPreset`.
pub ghost struct PresetModel {
    pub id: Seq<char>,
    pub name: Seq<char>,
    pub prompt: Seq<char>,
    pub is_default: bool,
}

impl DeepView for PromptPreset {
    type V = PresetModel;

    open spec fn deep_view(&self) -> PresetModel {
        PresetModel {
            id: self.id@,
            name: self.name@,
            prompt: self.prompt@,
            is_default: self.is_default,
        }
    }
}

/// The model of a `VideoFile`.
pub ghost struct VideoFileModel {
    pub path: Seq<char>,
    pub name: Seq<char>,
    pub size: u64,
    pub duration: Option<FloatBits>,
}

impl DeepView for VideoFile {
    type V = VideoFileModel;

    open spec fn deep_view(&self) -> VideoFileModel {
        VideoFileModel {
            path: self.path@,
            name: self.name@,
            size: self.size,
            duration: self.duration,
        }
    }
}

/// The model of a `ProgressUpdate`.
pub ghost struct ProgressModel {
    pub message: Seq<char>,
    pub step: nat,
    pub total_steps: nat,
}

impl DeepView for ProgressUpdate {
    type V = ProgressModel;

    open spec fn deep_view(&self) -> ProgressModel {
        ProgressModel {
            message: self.message@,
            step: self.step as nat,
            total_steps: self.total_steps as nat,
        }
    }
}

/// The model of a `GeminiPart`.
pub ghost enum PartModel {
    Text { text: Seq<char> },
    FileData { mime_type: Seq<char>, file_uri: Seq<char> },
}

impl DeepView for GeminiPart {
    type V = PartModel;

    open spec fn deep_view(&self) -> PartModel {
        match self {
            GeminiPart::Text { text } => PartModel::Text { text: text@ },
            GeminiPart::FileData { file_data } => PartModel::FileData {
                mime_type: file_data.mime_type@,
                file_uri: file_data.file_uri@,
            },
        }
    }
}

impl DeepView for GeminiContent {
    type V = Seq<PartModel>;

    open spec fn deep_view(&self) -> Seq<PartModel> {
        self.parts.deep_view()
    }
}

impl DeepView for GeminiCandidate {
    type V = Seq<PartModel>;

    open spec fn deep_view(&self) -> Seq<PartModel> {
        self.content.deep_view()
    }
}

impl DeepView for GeminiResponse {
    type V = Seq<Seq<PartModel>>;

    open spec fn deep_view(&self) -> Seq<Seq<PartModel>> {
        self.candidates.deep_view()
    }
}

/// The model of a `GeminiRequest`: its messages, and its generation config
/// where it carries one, which in turn holds a temperature or none.
pub ghost struct RequestModel {
    pub contents: Seq<Seq<PartModel>>,
    pub generation_config: Option<Option<FloatBits>>,
}

impl DeepView for GeminiRequest {
    type V = RequestModel;

    open spec fn deep_view(&self) -> RequestModel {
        RequestModel {
            contents: self.contents.deep_view(),
            generation_config: match self.generation_config {
                Some(config) => Some(config.temperature),
                None => None,
            },
        }
    }
}

/// The language that documents are written in unless the user picks one.
pub fn default_language() -> (r: String)
    ensures
        r@ == "japanese"@,
{
    String::from_str("japanese")
}

/// The model that is asked unless the user picks one.
pub fn default_gemini_model() -> (r: String)
    ensures
        r@ == "gemini-2.5-pro"@,
{
    String::from_str("gemini-2.5-pro")
}

/// Videos are left as they are unless the user asks otherwise.
pub fn default_video_quality() -> (r: VideoQuality)
    ensures
        r == VideoQuality::NoConversion,
{
    VideoQuality::NoConversion
}

/// Screenshots are referred to at a moderate rate unless the user asks
/// otherwise.
pub fn default_image_embed_frequency() -> (r: ImageEmbedFrequency)
    ensures
        r == ImageEmbedFrequency::Moderate,
{
    ImageEmbedFrequency::Moderate
}

/// Frames are taken one by one unless the user asks otherwise.
pub fn default_frame_extraction_method() -> (r: FrameExtractionMethod)
    ensures
        r == FrameExtractionMethod::Standard,
{
    FrameExtractionMethod::Standard
}

/// The temperature that is used unless the user picks one: zero.
pub fn default_temperature() -> (r: FloatBits)
    ensures
        r.bits == 0,
{
    FloatBits::from_bits(0)
}

} // verus!
