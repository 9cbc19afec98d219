//! Planning and text generation for a desktop media tool: clip concatenation,
//! storypack presentations, audio transcription and FTP publishing.
//!
//! Nothing here touches the file system, the network or a child process. Each
//! module computes what the surrounding program has to run or write, and
//! interprets what came back.

pub mod text;
pub mod paths;
pub mod command;
pub mod audio_compress;
pub mod clipforge;
pub mod cloudflare;
pub mod markup;
pub mod publish;
pub mod storypack;
