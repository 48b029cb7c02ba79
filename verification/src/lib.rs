//! On-device speech transcription: the rules that take a recorded clip from
//! the bytes of its audio file to the text that the recognition engine found
//! in it.
//!
//! The crate opens, validates and decodes the audio container, and assembles
//! the engine's segments into the final text. Reading the file and running
//! the engine are the caller's: the contents of the file come in as bytes, and
//! the engine as a function from a decoded clip to its segments.

pub mod clip;
pub mod error;
pub mod format;
pub mod pipeline;
pub mod segments;
pub mod text;
pub mod wav;
