//! What is asked of the language model, and how its answers are read.

use crate::float_bits::FloatBits;
use crate::paths::{extension, extension_of};
use crate::text::{decimal, decimal_text, join, joined, lowercase, lowercase_of, same_text};
use crate::types::{
    GeminiContent, GeminiFileData, GeminiGenerationConfig, GeminiPart, GeminiRequest,
    GeminiResponse, ImageEmbedFrequency, PartModel, RequestModel,
};
use vstd::prelude::*;

verus! {

/// What the service says of an uploaded file while it processes it.
#[derive(Debug, Clone)]
pub struct GeminiFileStatus {
    pub name: String,
    pub display_name: Option<String>,
    pub mime_type: Option<String>,
    pub size_bytes: Option<String>,
    pub create_time: Option<String>,
    pub update_time: Option<String>,
    pub expiration_time: Option<String>,
    pub sha256_hash: Option<String>,
    pub uri: Option<String>,
    pub state: Option<String>,
}

/// The request for screenshot references, for a document with few of them.
pub const MINIMAL_INSTRUCTION: &'static str = "\n\nIMPORTANT: When describing the most critical visual elements or key points in the document, please include screenshot references using this exact format: [Screenshot: XX:XXs] where XX:XX is the timestamp in MM:SS format (e.g., [Screenshot: 00:14s], [Screenshot: 01:23s]). Use these references sparingly, only for the most important moments that are essential for understanding.";

/// The request for screenshot references, for a document with some of them.
pub const MODERATE_INSTRUCTION: &'static str = "\n\nIMPORTANT: When describing visual elements or important points in the document, please include screenshot references using this exact format: [Screenshot: XX:XXs] where XX:XX is the timestamp in MM:SS format (e.g., [Screenshot: 00:14s], [Screenshot: 01:23s]). Use these references to mark key moments that would benefit from visual representation.";

/// The request for screenshot references, for a document with many of them.
pub const DETAILED_INSTRUCTION: &'static str = "\n\nIMPORTANT: When describing visual elements, UI components, or detailed explanations in the document, please include screenshot references using this exact format: [Screenshot: XX:XXs] where XX:XX is the timestamp in MM:SS format (e.g., [Screenshot: 00:14s], [Screenshot: 01:23s]). Use these references frequently to provide detailed visual context for readers.";

/// The prompt that is used where the user gave none, up to the sentence that
/// names the language.
pub const PROMPT_HEAD: &'static str = "Please analyze the uploaded video(s) and create a comprehensive document based on the content. The document should include:
        
        1. Overview of the content
        2. Key points and important information
        3. Step-by-step instructions or procedures if applicable
        4. Technical details and specifications
        5. Any relevant notes or recommendations
        
        ";

/// What follows the sentence that names the language.
pub const PROMPT_TAIL: &'static str = " and format it in a clear, professional manner.";

/// The sentence that opens a request to merge documents.
pub const INTEGRATION_HEAD: &'static str =
    "Please integrate the following documents into one comprehensive, cohesive document. Ensure proper flow, eliminate redundancy, organize the content logically, and maintain consistency throughout. ";

/// The address of the service.
pub const SERVICE: &'static str = "https://generativelanguage.googleapis.com/";

/// The MIME type of a video whose file extension, in lower case, is `ext`.
pub open spec fn mime_of_extension(ext: Seq<char>) -> Seq<char> {
    if ext == "mp4"@ {
        "video/mp4"@
    } else if ext == "mov"@ {
        "video/quicktime"@
    } else if ext == "avi"@ {
        "video/x-msvideo"@
    } else if ext == "mkv"@ {
        "video/x-matroska"@
    } else if ext == "wmv"@ {
        "video/x-ms-wmv"@
    } else if ext == "flv"@ {
        "video/x-flv"@
    } else if ext == "webm"@ {
        "video/webm"@
    } else if ext == "3gp"@ {
        "video/3gpp"@
    } else if ext == "mpg"@ || ext == "mpeg"@ {
        "video/mpeg"@
    } else {
        "video/mp4"@
    }
}

/// The extension of a path, or the empty text where it has none.
pub open spec fn extension_or_empty(extension: Option<Seq<char>>) -> Seq<char> {
    match extension {
        Some(ext) => ext,
        None => Seq::empty(),
    }
}

/// The MIME type of a video whose file extension, in lower case, is `ext`.
/// An unknown extension gives `video/mp4`.
pub fn mime_type_of_extension(ext: &str) -> (r: String)
    ensures
        r@ == mime_of_extension(ext@),
{
    if same_text(ext, "mp4") {
        String::from_str("video/mp4")
    } else if same_text(ext, "mov") {
        String::from_str("video/quicktime")
    } else if same_text(ext, "avi") {
        String::from_str("video/x-msvideo")
    } else if same_text(ext, "mkv") {
        String::from_str("video/x-matroska")
    } else if same_text(ext, "wmv") {
        String::from_str("video/x-ms-wmv")
    } else if same_text(ext, "flv") {
        String::from_str("video/x-flv")
    } else if same_text(ext, "webm") {
        String::from_str("video/webm")
    } else if same_text(ext, "3gp") {
        String::from_str("video/3gpp")
    } else if same_text(ext, "mpg") || same_text(ext, "mpeg") {
        String::from_str("video/mpeg")
    } else {
        String::from_str("video/mp4")
    }
}

/// The MIME type of the video at `file_path`, by its extension without regard
/// to case.
pub fn get_mime_type(file_path: &str) -> (r: String)
    ensures
        r@ == mime_of_extension(lowercase_of(extension_or_empty(extension_of(file_path@)))),
{
    let ext = match extension(file_path) {
        Some(ext) => ext,
        None => String::new(),
    };
    let lower = lowercase(ext.as_str());
    mime_type_of_extension(lower.as_str())
}

/// What is added to a prompt to ask for screenshot references.
pub open spec fn image_instruction(frequency: ImageEmbedFrequency) -> Seq<char> {
    match frequency {
        ImageEmbedFrequency::Minimal => MINIMAL_INSTRUCTION@,
        ImageEmbedFrequency::Moderate => MODERATE_INSTRUCTION@,
        ImageEmbedFrequency::Detailed => DETAILED_INSTRUCTION@,
    }
}

/// What is added to a prompt to ask for screenshot references, as often as
/// `frequency` says.
pub fn get_image_instruction(frequency: &ImageEmbedFrequency) -> (r: String)
    ensures
        r@ == image_instruction(*frequency),
{
    match frequency {
        ImageEmbedFrequency::Minimal => String::from_str(MINIMAL_INSTRUCTION),
        ImageEmbedFrequency::Moderate => String::from_str(MODERATE_INSTRUCTION),
        ImageEmbedFrequency::Detailed => String::from_str(DETAILED_INSTRUCTION),
    }
}

/// The language that `language` stands for: English where it says so, else
/// Japanese.
pub open spec fn language_name(language: Seq<char>) -> Seq<char> {
    if language == "english"@ {
        "English"@
    } else {
        "Japanese"@
    }
}

/// What is added to a prompt where images are to be embedded.
pub open spec fn optional_instruction(embed_images: bool, frequency: ImageEmbedFrequency) -> Seq<
    char,
> {
    if embed_images {
        image_instruction(frequency)
    } else {
        Seq::empty()
    }
}

/// The prompt that asks for a document.
pub open spec fn generation_prompt(
    language: Seq<char>,
    custom_prompt: Option<Seq<char>>,
    embed_images: bool,
    frequency: ImageEmbedFrequency,
) -> Seq<char> {
    match custom_prompt {
        Some(custom) => custom + optional_instruction(embed_images, frequency),
        None => PROMPT_HEAD@ + "Please write the document in "@ + language_name(language)
            + PROMPT_TAIL@ + optional_instruction(embed_images, frequency),
    }
}

fn language_word(language: &str) -> (r: &'static str)
    ensures
        r@ == language_name(language@),
{
    if same_text(language, "english") {
        "English"
    } else {
        "Japanese"
    }
}

/// The prompt that asks for a document: the user's own where there is one,
/// else the standard one in the chosen language; either is followed by the
/// request for screenshot references where images are to be embedded.
pub fn build_generation_prompt(
    language: &str,
    custom_prompt: Option<&str>,
    embed_images: bool,
    frequency: &ImageEmbedFrequency,
) -> (r: String)
    ensures
        r@ == generation_prompt(
            language@,
            match custom_prompt {
                Some(custom) => Some(custom@),
                None => None,
            },
            embed_images,
            *frequency,
        ),
{
    let mut prompt = match custom_prompt {
        Some(custom) => String::from_str(custom),
        None => {
            let mut base = String::from_str(PROMPT_HEAD);
            base.append("Please write the document in ");
            base.append(language_word(language));
            base.append(PROMPT_TAIL);
            base
        },
    };
    if embed_images {
        prompt.append(get_image_instruction(frequency).as_str());
    } else {
        assert(prompt@ + Seq::<char>::empty() == prompt@);
    }
    prompt
}

/// The parts of a request for a document: the prompt, then one reference for
/// each uploaded file, each announced as an MP4 video.
pub open spec fn generation_parts(prompt: Seq<char>, file_uris: Seq<Seq<char>>) -> Seq<PartModel> {
    seq![PartModel::Text { text: prompt }] + Seq::new(
        file_uris.len(),
        |i: int| PartModel::FileData { mime_type: "video/mp4"@, file_uri: file_uris[i] },
    )
}

/// The generation config that a request carries: one with the given
/// temperature where that is above zero, else none at all.
pub open spec fn sent_config(temperature: FloatBits) -> Option<Option<FloatBits>> {
    if temperature.is_positive() {
        Some(Some(temperature))
    } else {
        None
    }
}

fn generation_config(temperature: FloatBits) -> (r: Option<GeminiGenerationConfig>)
    ensures
        match r {
            Some(config) => config.temperature == Some(temperature) && temperature.is_positive(),
            None => !temperature.is_positive(),
        },
{
    if temperature.positive() {
        Some(GeminiGenerationConfig { temperature: Some(temperature) })
    } else {
        None
    }
}

/// The request for a document from `prompt` and the uploaded files.
pub fn build_generation_request(prompt: String, file_uris: &[String], temperature: FloatBits) -> (r:
    GeminiRequest)
    ensures
        r.deep_view() == (RequestModel {
            contents: seq![generation_parts(prompt@, file_uris.deep_view())],
            generation_config: sent_config(temperature),
        }),
        r.generation_config is Some <==> temperature.is_positive(),
{
    let mut parts: Vec<GeminiPart> = Vec::new();
    parts.push(GeminiPart::Text { text: prompt });
    assert(parts.deep_view() =~= generation_parts(
        prompt@,
        file_uris.deep_view().subrange(0, 0),
    ));
    let mut i: usize = 0;
    while i < file_uris.len()
        invariant
            i <= file_uris.len(),
            parts.deep_view() == generation_parts(prompt@, file_uris.deep_view().subrange(0, i as int)),
        decreases file_uris.len() - i,
    {
        let ghost before = parts.deep_view();
        let part = GeminiPart::FileData {
            file_data: GeminiFileData {
                mime_type: String::from_str("video/mp4"),
                file_uri: file_uris[i].clone(),
            },
        };
        parts.push(part);
        assert(parts.deep_view() =~= before.push(part.deep_view()));
        assert(parts.deep_view() =~= generation_parts(
            prompt@,
            file_uris.deep_view().subrange(0, i + 1),
        ));
        i += 1;
    }
    assert(file_uris.deep_view() == file_uris.deep_view().subrange(0, file_uris.len() as int));
    let mut contents: Vec<GeminiContent> = Vec::new();
    contents.push(GeminiContent { parts });
    let request = GeminiRequest { contents, generation_config: generation_config(temperature) };
    assert(request.contents.deep_view() == seq![generation_parts(prompt@, file_uris.deep_view())]);
    request
}

/// The request that carries `prompt` alone.
pub fn build_text_request(prompt: String, temperature: FloatBits) -> (r: GeminiRequest)
    ensures
        r.deep_view() == (RequestModel {
            contents: seq![seq![PartModel::Text { text: prompt@ }]],
            generation_config: sent_config(temperature),
        }),
        r.generation_config is Some <==> temperature.is_positive(),
{
    let mut parts: Vec<GeminiPart> = Vec::new();
    parts.push(GeminiPart::Text { text: prompt });
    assert(parts.deep_view() == seq![PartModel::Text { text: prompt@ }]);
    let mut contents: Vec<GeminiContent> = Vec::new();
    contents.push(GeminiContent { parts });
    let request = GeminiRequest { contents, generation_config: generation_config(temperature) };
    assert(request.contents.deep_view() == seq![seq![PartModel::Text { text: prompt@ }]]);
    request
}

/// Where a request to `model` is sent.
pub open spec fn generation_url(model: Seq<char>, api_key: Seq<char>) -> Seq<char> {
    SERVICE@ + "v1beta/models/"@ + model + ":generateContent?key="@ + api_key
}

/// Where a request to `model` is sent.
pub fn build_generation_url(model: &str, api_key: &str) -> (r: String)
    ensures
        r@ == generation_url(model@, api_key@),
{
    let mut url = String::from_str(SERVICE);
    url.append("v1beta/models/");
    url.append(model);
    url.append(":generateContent?key=");
    url.append(api_key);
    url
}

/// The text of an answer: that of the first part of the first candidate,
/// where there is one and it is text.
pub open spec fn answer_text(response: Seq<Seq<PartModel>>) -> Option<Seq<char>> {
    if response.len() > 0 && response[0].len() > 0 {
        match response[0][0] {
            PartModel::Text { text } => Some(text),
            PartModel::FileData { .. } => None,
        }
    } else {
        None
    }
}

/// The text of an answer: that of the first part of the first candidate,
/// where there is one and it is text.
pub fn first_text(response: &GeminiResponse) -> (r: Option<String>)
    ensures
        r.deep_view() == answer_text(response.deep_view()),
{
    if response.candidates.len() > 0 && response.candidates[0].content.parts.len() > 0 {
        match &response.candidates[0].content.parts[0] {
            GeminiPart::Text { text } => Some(text.clone()),
            GeminiPart::FileData { .. } => None,
        }
    } else {
        None
    }
}

/// Why a request to the model gave no text.
#[derive(Debug, Clone)]
pub enum GenerateError {
    /// The service refused the request; this is what it answered.
    RequestFailed(String),
    /// The answer holds no text.
    NoText,
}

/// What a request for text was for.
#[derive(Debug, Clone, Copy, PartialEq, Eq, Structural)]
pub enum Purpose {
    /// A document from videos.
    Generation,
    /// One document from several.
    Integration,
}

/// The words that report `error` for a request made for `purpose`.
pub open spec fn generate_error_text(error: GenerateError, purpose: Purpose) -> Seq<char> {
    match (error, purpose) {
        (GenerateError::RequestFailed(body), Purpose::Generation) => "API request failed: "@
            + body@,
        (GenerateError::RequestFailed(body), Purpose::Integration) => "Document integration failed: "@
            + body@,
        (GenerateError::NoText, Purpose::Generation) => "No text content in response"@,
        (GenerateError::NoText, Purpose::Integration) => "No text content in integration response"@,
    }
}

impl GenerateError {
    /// The words that report the error for a request made for `purpose`.
    pub fn message(&self, purpose: Purpose) -> (r: String)
        ensures
            r@ == generate_error_text(*self, purpose),
    {
        match self {
            GenerateError::RequestFailed(body) => {
                let mut text = match purpose {
                    Purpose::Generation => String::from_str("API request failed: "),
                    Purpose::Integration => String::from_str("Document integration failed: "),
                };
                text.append(body.as_str());
                text
            },
            GenerateError::NoText => match purpose {
                Purpose::Generation => String::from_str("No text content in response"),
                Purpose::Integration => String::from_str(
                    "No text content in integration response",
                ),
            },
        }
    }
}

/// The text of a successful answer, or the error where it holds none.
pub fn read_answer(response: &GeminiResponse) -> (r: Result<String, GenerateError>)
    ensures
        match r {
            Ok(text) => answer_text(response.deep_view()) == Some(text@),
            Err(error) => error is NoText && answer_text(response.deep_view()) is None,
        },
{
    match first_text(response) {
        Some(text) => Ok(text),
        None => Err(GenerateError::NoText),
    }
}

/// One document under its heading, numbered from one.
pub open spec fn numbered_document(index: nat, document: Seq<char>) -> Seq<char> {
    "=== Document "@ + decimal_text(index + 1) + " ===\n"@ + document + "\n"@
}

/// The documents, each under its heading.
pub open spec fn numbered_documents(documents: Seq<Seq<char>>) -> Seq<Seq<char>> {
    Seq::new(documents.len(), |i: int| numbered_document(i as nat, documents[i]))
}

/// The prompt that asks to merge `documents` into one.
pub open spec fn integration_prompt(
    documents: Seq<Seq<char>>,
    language: Seq<char>,
    custom_prompt: Option<Seq<char>>,
) -> Seq<char> {
    let listed = joined(numbered_documents(documents), "\n"@);
    match custom_prompt {
        Some(custom) => custom + "\n\n=== Documents to integrate ===\n"@ + listed,
        None => INTEGRATION_HEAD@ + "Please write the integrated document in "@ + language_name(
            language,
        ) + ":\n\n"@ + listed,
    }
}

/// The prompt that asks to merge `documents` into one: the user's own
/// instructions where there are any, else the standard ones in the chosen
/// language; the documents follow, each under a numbered heading.
pub fn build_integration_prompt(
    documents: &[String],
    language: &str,
    custom_prompt: Option<&str>,
) -> (r: String)
    requires
        documents.len() < u64::MAX,
    ensures
        r@ == integration_prompt(
            documents.deep_view(),
            language@,
            match custom_prompt {
                Some(custom) => Some(custom@),
                None => None,
            },
        ),
{
    let mut numbered: Vec<String> = Vec::new();
    let mut i: usize = 0;
    while i < documents.len()
        invariant
            i <= documents.len(),
            documents.len() < u64::MAX,
            numbered.deep_view() == numbered_documents(
                documents.deep_view().subrange(0, i as int),
            ),
        decreases documents.len() - i,
    {
        let mut entry = String::from_str("=== Document ");
        entry.append(decimal((i + 1) as u64).as_str());
        entry.append(" ===\n");
        entry.append(documents[i].as_str());
        entry.append("\n");
        let ghost before = numbered.deep_view();
        numbered.push(entry);
        assert(numbered.deep_view() =~= before.push(entry@));
        assert(numbered.deep_view() =~= numbered_documents(
            documents.deep_view().subrange(0, i + 1),
        ));
        i += 1;
    }
    assert(documents.deep_view() == documents.deep_view().subrange(0, documents.len() as int));
    let listed = join(numbered.as_slice(), "\n");
    let mut prompt = match custom_prompt {
        Some(custom) => {
            let mut start = String::from_str(custom);
            start.append("\n\n=== Documents to integrate ===\n");
            start
        },
        None => {
            let mut start = String::from_str(INTEGRATION_HEAD);
            start.append("Please write the integrated document in ");
            start.append(language_word(language));
            start.append(":\n\n");
            start
        },
    };
    prompt.append(listed.as_str());
    prompt
}

} // verus!
