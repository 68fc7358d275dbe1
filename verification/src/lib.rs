//! Subtitle generation core: fixed-point time codes, subtitle
//! serialization (LRC/SRT/VTT), model artifact acquisition with
//! cancelable progress, and assembly of time-coded transcripts
//! from flat decoder output.

pub mod download;
pub mod engine;
pub mod error;
pub mod lang;
pub mod merge;
pub mod model;
pub mod subtitle;
pub mod text;
pub mod timecode;
pub mod transcript;
