//! Decisions behind a desktop bridge to the host system: which programs to
//! run, how their output is read, which file steps to take and how failures
//! are worded. Every function here works on plain values; performing the
//! steps is left to the caller.

pub mod detect;
pub mod dirs;
pub mod ffmpeg;
pub mod files;
pub mod platform;
pub mod process;
pub mod system;
pub mod text;

pub use detect::FfmpegInfo;
pub use ffmpeg::FfmpegResult;
