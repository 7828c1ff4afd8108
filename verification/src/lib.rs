//! Decides which streams of a media file already meet a delivery profile,
//! builds the transcoder invocation that repairs the rest, and supervises one
//! job from start to the final placement of its output.

pub mod bus;
pub mod command;
pub mod config;
pub mod discord;
pub mod event;
pub mod ffmpeg;
pub mod ffprobe;
pub mod finalize;
pub mod job;
pub mod log;
pub mod naming;
pub mod paths;
pub mod progress;
pub mod text;
pub mod utils;
pub mod webhook;
