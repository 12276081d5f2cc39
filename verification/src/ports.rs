//! Ports: the services the application needs from the outside world.

use crate::download_service::DownloadError;
use crate::job::Stage;
use vstd::prelude::*;

verus! {

/// Port for executing a download.
///
/// The adapter receives the yt-dlp binary and argument vector and calls
/// `on_line` for each line that the process prints on stdout.
pub trait MediaDownloader: Send + Sync {
    fn download<F: Fn(&str)>(&self, binary: &str, args: Vec<String>, on_line: &F) -> Result<(), DownloadError>;
}

/// Live progress data for a running download; `P` is the type of the
/// percentage.
#[derive(Debug, Clone, PartialEq)]
pub struct Progress<P> {
    /// Download percentage, 0 to 100.
    pub percent: P,
    /// Human-readable speed (e.g. "1.20MiB/s").
    pub speed: String,
    /// Human-readable ETA (e.g. "00:42").
    pub eta: String,
}

/// A sink that receives progress events during a download.
pub trait ProgressSink: Send {
    /// The type of the progress percentage.
    type Percent;

    /// Read a percentage field as printed by yt-dlp (without `%`); `None`
    /// when it is not a number.
    fn read_percent(&self, text: &str) -> Option<Self::Percent>;

    /// Called when a new progress update is available.
    fn on_progress(&self, progress: Progress<Self::Percent>);

    /// Called when the download moves to a new stage.
    fn on_stage(&self, stage: Stage);
}

/// Port for checking that a required external binary is available.
pub trait BinaryProbe: Send + Sync {
    /// Check that `binary_name` is available and return its version string.
    fn check_available(&self, binary_name: &str) -> Result<String, DownloadError>;
}

/// Errors that can occur when probing a media URL for metadata.
#[derive(Debug, Clone, PartialEq, Eq)]
pub enum ProbeError {
    Failed(String),
    Unsupported(String),
}

/// The text shown for a probe error.
pub open spec fn probe_error_text(e: ProbeError) -> Seq<char> {
    match e {
        ProbeError::Failed(s) => "probe failed: "@ + s@,
        ProbeError::Unsupported(s) => "unsupported site or private video: "@ + s@,
    }
}

impl ProbeError {
    /// Human-readable description of the error.
    pub fn message(&self) -> (s: String)
        ensures
            s@ == probe_error_text(*self),
    {
        let (prefix, detail) = match self {
            ProbeError::Failed(d) => ("probe failed: ", d),
            ProbeError::Unsupported(d) => ("unsupported site or private video: ", d),
        };
        let mut s = String::from_str(prefix);
        s.append(detail.as_str());
        s
    }
}

} // verus!
