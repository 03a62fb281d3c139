//! Download controller for a desktop front end to the `yt-dlp` / `youtube-dl`
//! command-line downloader: URL validation, the request lifecycle, and the
//! mapping of the downloader's result to what the user is shown.

pub mod url;
pub mod outcome;
pub mod request;
pub mod controller;
