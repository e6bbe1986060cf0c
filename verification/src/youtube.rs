//! The document of a YouTube video: under which name it is saved, and what
//! the user is told.

use crate::paths::{join_path, joined_path};
use crate::text::{replace_all, replaced};
use crate::types::{ProgressModel, ProgressUpdate};
use vstd::prelude::*;

verus! {

/// The number of steps of a run from a YouTube video.
pub const YOUTUBE_STEPS: usize = 1;

/// The file name of the document of the video titled `title`: the title,
/// each space an underscore, as a Markdown file.
pub open spec fn document_name(title: Seq<char>) -> Seq<char> {
    replaced(title, " "@, "_"@) + ".md"@
}

/// The file name of the document of the video titled `title`.
pub fn document_file_name(title: &str) -> (r: String)
    ensures
        r@ == document_name(title@),
{
    let mut name = replace_all(title, " ", "_");
    name.append(".md");
    name
}

/// Where the document of the video titled `title` is saved.
pub fn document_path(save_directory: &str, title: &str) -> (r: String)
    ensures
        r@ == joined_path(save_directory@, document_name(title@)),
{
    let name = document_file_name(title);
    join_path(save_directory, name.as_str())
}

/// What the user is told when the run begins.
pub fn start_notice() -> (r: ProgressUpdate)
    ensures
        r.deep_view() == (ProgressModel {
            message: "YouTube動画の処理を開始しています..."@,
            step: 0,
            total_steps: YOUTUBE_STEPS as nat,
        }),
{
    ProgressUpdate {
        message: String::from_str("YouTube動画の処理を開始しています..."),
        step: 0,
        total_steps: YOUTUBE_STEPS,
    }
}

/// What follows the generation of the document.
#[derive(Debug, Clone)]
pub enum Conclusion {
    /// The document is there: show this notice and save the document.
    Save { notice: ProgressUpdate, document: String },
    /// The generation failed: show this notice and report its message.
    Fail { notice: ProgressUpdate },
}

/// What follows the generation of the document: a document is announced as
/// complete; a failure is reported at step zero, with its reason.
pub fn conclude(outcome: Result<String, String>) -> (r: Conclusion)
    ensures
        match outcome {
            Ok(text) => match r {
                Conclusion::Save { notice, document } => document@ == text@ && notice.deep_view()
                    == (ProgressModel {
                    message: "YouTube動画からのドキュメント生成が完了しました！"@,
                    step: YOUTUBE_STEPS as nat,
                    total_steps: YOUTUBE_STEPS as nat,
                }),
                Conclusion::Fail { .. } => false,
            },
            Err(reason) => match r {
                Conclusion::Fail { notice } => notice.deep_view() == (ProgressModel {
                    message: "YouTube動画の処理に失敗しました: "@ + reason@,
                    step: 0,
                    total_steps: YOUTUBE_STEPS as nat,
                }),
                Conclusion::Save { .. } => false,
            },
        },
{
    match outcome {
        Ok(document) => Conclusion::Save {
            notice: ProgressUpdate {
                message: String::from_str("YouTube動画からのドキュメント生成が完了しました！"),
                step: YOUTUBE_STEPS,
                total_steps: YOUTUBE_STEPS,
            },
            document,
        },
        Err(reason) => {
            let mut message = String::from_str("YouTube動画の処理に失敗しました: ");
            message.append(reason.as_str());
            Conclusion::Fail {
                notice: ProgressUpdate { message, step: 0, total_steps: YOUTUBE_STEPS },
            }
        },
    }
}

/// The message that reports that the document could not be saved.
pub fn save_failure(reason: &str) -> (r: String)
    ensures
        r@ == "Failed to save document: "@ + reason@,
{
    let mut message = String::from_str("Failed to save document: ");
    message.append(reason);
    message
}

} // verus!
