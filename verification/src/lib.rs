//! Verified core of a desktop front-end for `yt-dlp`.

pub mod arg_builder;
pub mod binary_probe;
pub mod download_service;
pub mod error;
pub mod format;
pub mod json;
pub mod job;
pub mod media_url;
pub mod ports;
pub mod preflight;
pub mod progress_parser;
pub mod quality;
pub mod session;
pub mod text;
pub mod ytdlp_downloader;
pub mod ytdlp_probe;
