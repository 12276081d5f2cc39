//! The download use case.

use crate::arg_builder::{build_command, download_args};
use crate::job::{DownloadJob, Stage};
use crate::ports::{MediaDownloader, Progress, ProgressSink};
use crate::progress_parser::{classifies, classify_line, is_stage_marker, three_fields, LineKind};
use crate::text::trim;
use vstd::prelude::*;

verus! {

/// Errors that can occur during download orchestration.
#[derive(Debug, Clone, PartialEq, Eq)]
pub enum DownloadError {
    Failed(String),
    BinaryNotFound(String),
    InvalidArgument(String),
}

/// The text shown for a download error.
pub open spec fn download_error_text(e: DownloadError) -> Seq<char> {
    match e {
        DownloadError::Failed(s) => "download failed: "@ + s@,
        DownloadError::BinaryNotFound(s) => "binary not found: "@ + s@,
        DownloadError::InvalidArgument(s) => "invalid argument: "@ + s@,
    }
}

impl DownloadError {
    /// Human-readable description of the error.
    pub fn message(&self) -> (s: String)
        ensures
            s@ == download_error_text(*self),
    {
        let (prefix, detail) = match self {
            DownloadError::Failed(d) => ("download failed: ", d),
            DownloadError::BinaryNotFound(d) => ("binary not found: ", d),
            DownloadError::InvalidArgument(d) => ("invalid argument: ", d),
        };
        let mut s = String::from_str(prefix);
        s.append(detail.as_str());
        s
    }
}

/// Orchestrates downloads through a `MediaDownloader` implementation.
pub struct DownloadService<D: MediaDownloader> {
    downloader: D,
}

/// What became of one stdout line.
#[derive(Debug, Clone, Copy, PartialEq, Eq)]
pub enum Forwarded {
    /// A stage change was passed to the sink.
    Stage(Stage),
    /// A progress update was passed to the sink.
    Progress,
    /// Nothing was passed on: the line is neither a stage marker nor a
    /// progress line, or the sink did not read its percentage as a number.
    Ignored,
}

/// How a line is forwarded: stage markers as Processing, pipe-delimited
/// lines as progress unless the percentage is unreadable, nothing else.
pub open spec fn forwards(line: Seq<char>, r: Forwarded) -> bool {
    let t = trim(line);
    if is_stage_marker(t) {
        r == Forwarded::Stage(Stage::Processing)
    } else if three_fields(t) is Some {
        r == Forwarded::Progress || r == Forwarded::Ignored
    } else {
        r == Forwarded::Ignored
    }
}

/// What one stdout line asks of a sink.
#[derive(Debug)]
pub enum SinkCall<P> {
    /// `on_stage` with this stage.
    Stage(Stage),
    /// `on_progress` with this update.
    Progress(Progress<P>),
    /// Nothing.
    Nothing,
}

/// `c` is what `line` asks of a sink: a stage marker announces Processing;
/// a `percent|speed|eta` line an update with the trimmed speed and ETA
/// (or nothing, when the sink cannot read the percentage); any other line
/// nothing.
pub open spec fn calls_for<P>(line: Seq<char>, c: SinkCall<P>) -> bool {
    let t = trim(line);
    if is_stage_marker(t) {
        c == SinkCall::<P>::Stage(Stage::Processing)
    } else {
        match three_fields(t) {
            None => c is Nothing,
            Some((_, sp, et)) => c is Nothing || (c matches SinkCall::Progress(p) && p.speed@ == trim(sp)
                && p.eta@ == trim(et)),
        }
    }
}

/// The call one stdout line of yt-dlp asks of `sink`, the percentage read
/// with the sink's `read_percent`.
pub fn sink_call<S: ProgressSink>(sink: &S, line: &str) -> (c: SinkCall<S::Percent>)
    ensures
        calls_for(line@, c),
{
    match classify_line(line) {
        LineKind::StageChange(stage) => SinkCall::Stage(stage),
        LineKind::Progress { percent, speed, eta } => match sink.read_percent(percent.as_str()) {
            Some(p) => SinkCall::Progress(Progress { percent: p, speed, eta }),
            None => SinkCall::Nothing,
        },
        LineKind::Ignored => SinkCall::Nothing,
    }
}

/// What a sink is asked follows the classification of the line: a stage
/// is announced only for a line classified as a stage change, and it is
/// always Processing; every stage marker is announced; an update carries
/// the speed and ETA the classification found; an ignored line asks
/// nothing.
pub proof fn sink_calls_follow_classification<P>(line: Seq<char>, c: SinkCall<P>, k: LineKind)
    requires
        calls_for(line, c),
        classifies(line, k),
    ensures
        c matches SinkCall::Stage(s) ==> (s == Stage::Processing && k == LineKind::StageChange(s)),
        k is StageChange ==> c == SinkCall::<P>::Stage(Stage::Processing),
        c matches SinkCall::Progress(p) ==> (k matches LineKind::Progress { speed, eta, .. } && p.speed@
            == speed@ && p.eta@ == eta@),
        k is Ignored ==> c is Nothing,
{
}

/// Pass one stdout line of yt-dlp to `sink`: a stage marker as
/// `on_stage(Processing)`, a progress line whose percentage the sink reads
/// as `on_progress`; anything else is dropped.
pub fn forward_line<S: ProgressSink>(sink: &S, line: &str) -> (r: Forwarded)
    ensures
        forwards(line@, r),
{
    match sink_call(sink, line) {
        SinkCall::Stage(stage) => {
            sink.on_stage(stage);
            Forwarded::Stage(stage)
        },
        SinkCall::Progress(p) => {
            sink.on_progress(p);
            Forwarded::Progress
        },
        SinkCall::Nothing => Forwarded::Ignored,
    }
}

/// The yt-dlp command that runs `job`: the `yt-dlp` binary with the
/// download arguments of the job's format, URL and output template.
pub fn job_command(job: &DownloadJob) -> (res: (String, Vec<String>))
    ensures
        res.0@ == "yt-dlp"@,
        res.1.deep_view() == download_args(job.format, job.url@, job.output_path@),
{
    build_command(job.format, &job.url, "yt-dlp", job.output_path.as_str())
}

impl<D: MediaDownloader> DownloadService<D> {
    /// The downloader adapter held by the service.
    pub closed spec fn held(&self) -> D {
        self.downloader
    }

    /// Create a service around the given downloader adapter.
    pub fn new(downloader: D) -> (s: Self)
        ensures
            s.held() == downloader,
    {
        DownloadService { downloader }
    }

    /// Execute a download job: build the yt-dlp command for it, run it
    /// through the downloader, and forward each stdout line to `sink`
    /// (see `forward_line`). The downloader's result is returned.
    pub fn execute<S: ProgressSink>(&self, job: &DownloadJob, sink: &S) -> Result<(), DownloadError> {
        let (binary, args) = job_command(job);
        self.downloader.download(
            binary.as_str(),
            args,
            &|line: &str|
                {
                    let _ = forward_line(sink, line);
                },
        )
    }
}

} // verus!
