//! Core of a desktop front-end for a command-line media downloader.
//!
//! The front-end asks the downloader for the formats of a media item, shows them, and
//! has the downloader fetch the one that the user picks. Both calls run in the
//! background, at most one of a kind at a time, and each reports its end by one message.
//! This crate holds what is decided and computed on the way: the decoding of the
//! downloader's output, the messages, the queue that carries them, and the state with
//! its transitions. Running the downloader and drawing the window are left to the
//! program around it.

pub mod app;
pub mod format;
pub mod json;
pub mod message;
pub mod response;
pub mod status;
pub mod text;
pub mod transcript;

pub use app::YtDlpApp;
pub use format::{short_codec, FormatInfo};
