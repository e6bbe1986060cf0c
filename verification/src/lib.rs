//! Decisions behind a video-to-document tool: which video work is due, how an
//! upload is followed until the service has processed it, what is asked of
//! the language model, and how its answer becomes the final document.
//!
//! Nothing here touches a file, a process or the network. Callers do that
//! work and hand the outcomes back as plain values.

pub mod api_key;
pub mod file;
pub mod float_bits;
pub mod gemini;
pub mod numbers;
pub mod paths;
pub mod pipeline;
pub mod presets;
pub mod screenshots;
pub mod text;
pub mod types;
pub mod upload;
pub mod video;
pub mod youtube;
