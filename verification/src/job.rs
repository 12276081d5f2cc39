//! Download jobs and their lifecycle.

use crate::format::Format;
use crate::media_url::MediaUrl;
use vstd::prelude::*;

verus! {

/// The current processing stage of a download.
#[derive(Debug, Clone, Copy, PartialEq, Eq, Structural)]
pub enum Stage {
    /// Active network transfer: the progress percentage is meaningful.
    Downloading,
    /// Post-download mux or transcode: the percentage is not meaningful.
    Processing,
    /// Download and processing finished successfully.
    Complete,
    /// An error occurred.
    Error,
}

/// Lifecycle state of a download job.
#[derive(Debug, Clone, PartialEq, Eq)]
pub enum JobStatus {
    /// Job created but not yet started.
    Pending,
    /// Job is actively running.
    Running,
    /// Job completed successfully.
    Done,
    /// Job failed; carries an error description.
    Failed(String),
}

/// A download job definition.
#[derive(Debug, Clone)]
pub struct DownloadJob {
    pub url: MediaUrl,
    pub format: Format,
    /// Output path or yt-dlp output template.
    pub output_path: String,
}

/// Label shown for a stage in the status view.
pub open spec fn stage_label_text(s: Stage) -> Seq<char> {
    match s {
        Stage::Downloading => "Downloading\u{2026}"@,
        Stage::Processing => "Processing\u{2026}"@,
        Stage::Complete => "Complete"@,
        Stage::Error => "Error"@,
    }
}

/// The label of a stage in the status view.
pub fn stage_label(stage: &Stage) -> (s: &'static str)
    ensures
        s@ == stage_label_text(*stage),
{
    match stage {
        Stage::Downloading => "Downloading\u{2026}",
        Stage::Processing => "Processing\u{2026}",
        Stage::Complete => "Complete",
        Stage::Error => "Error",
    }
}

} // verus!
