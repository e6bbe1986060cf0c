//! What is made of the files that the user picks, and where documents go.

use crate::paths::{file_name, file_name_of, join_path, joined_path};
use crate::types::{VideoFile, VideoFileModel};
use vstd::prelude::*;

verus! {

/// The name of a picked file whose file name is `name`.
pub fn picked_name(name: Option<String>) -> (r: String)
    ensures
        r@ == match name {
            Some(n) => n@,
            None => "Unknown"@,
        },
{
    match name {
        Some(n) => n,
        None => String::from_str("Unknown"),
    }
}

/// The picked file at `path`, of `size` bytes: named by its file name, its
/// duration not yet known.
pub fn picked_video_file(path: String, size: u64) -> (r: VideoFile)
    ensures
        r.deep_view() == (VideoFileModel {
            path: path@,
            name: match file_name_of(path@) {
                Some(n) => n,
                None => "Unknown"@,
            },
            size,
            duration: None,
        }),
{
    let name = picked_name(file_name(path.as_str()));
    VideoFile { path, name, size, duration: None }
}

/// Where the document named `filename` is saved in `save_path`.
pub fn document_save_path(save_path: &str, filename: &str) -> (r: String)
    ensures
        r@ == joined_path(save_path@, filename@),
{
    join_path(save_path, filename)
}

} // verus!
