//! Verified core of a collaborative sticky-note service: request validation,
//! colour normalisation, credential digests and the decisions that surround
//! every storage call.

pub mod api;
pub mod color;
pub mod db;
pub mod error;
pub mod groq;
pub mod json;
pub mod messages;
pub mod note;
pub mod password;
pub mod response;
pub mod summarize;
pub mod text;
