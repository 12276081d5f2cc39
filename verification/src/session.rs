//! The state of a download as the user interface follows it.

use crate::error::{domain_error_text, DomainError};
use crate::format::{build_format, format_with_quality, Format};
use crate::job::{DownloadJob, Stage};
use crate::media_url::{media_url_outcome, rejection_text, rejection_text_describes_outcome, MediaUrl};
use crate::quality::{is_selectable_list, selectable_list_shape, Quality};
use crate::ytdlp_probe::MediaInfo;
use crate::text::{decimal, decimal_string};
use vstd::prelude::*;

verus! {

/// Lifecycle of the active download as the UI tracks it; `P` is the type of
/// the progress percentage.
#[derive(Debug, Clone)]
pub enum JobState<P> {
    /// No job is running; the form is interactive.
    Idle,
    /// A download is in progress; the latest progress snapshot.
    Running { percent: P, speed: String, eta: String, stage: Stage },
    /// The download completed successfully.
    Done,
    /// The download failed; carries an error description.
    Error(String),
}

/// What the worker thread's channel delivers to the UI.
#[derive(Debug, Clone)]
pub enum DownloadEvent<P> {
    Progress { percent: P, speed: String, eta: String },
    Stage(Stage),
    Done,
    Error(String),
    /// The worker hung up without a final event.
    Disconnected,
    /// An event that does not concern the download.
    Unrelated,
}

/// The state after `event`, and whether the channel is still listened to.
pub open spec fn job_step<P>(state: JobState<P>, event: DownloadEvent<P>) -> (JobState<P>, bool) {
    match event {
        DownloadEvent::Progress { percent, speed, eta } => match state {
            JobState::Running { stage, .. } => (JobState::Running { percent, speed, eta, stage }, true),
            _ => (state, true),
        },
        DownloadEvent::Stage(s) => match state {
            JobState::Running { percent, speed, eta, .. } => (
                JobState::Running { percent, speed, eta, stage: s },
                true,
            ),
            _ => (state, true),
        },
        DownloadEvent::Done => (JobState::Done, false),
        DownloadEvent::Error(m) => (JobState::Error(m), false),
        DownloadEvent::Disconnected => match state {
            JobState::Running { .. } => (JobState::Done, false),
            _ => (state, false),
        },
        DownloadEvent::Unrelated => (state, true),
    }
}

impl<P> JobState<P> {
    /// The state of a job that has just been started.
    pub fn started(initial_percent: P) -> (s: Self)
        ensures
            s matches JobState::Running { percent, speed, eta, stage } && percent == initial_percent
                && speed@.len() == 0 && eta@.len() == 0 && stage == Stage::Downloading,
    {
        JobState::Running {
            percent: initial_percent,
            speed: String::new(),
            eta: String::new(),
            stage: Stage::Downloading,
        }
    }

    /// Whether a download is in progress.
    pub fn is_running(&self) -> (b: bool)
        ensures
            b == (*self is Running),
    {
        match self {
            JobState::Running { .. } => true,
            _ => false,
        }
    }

    /// Apply one event of the download channel: progress and stage updates
    /// refresh a running job, `Done` and `Error` end it, a hang-up ends a
    /// running job as done. Returns whether to keep listening.
    pub fn advance(self, event: DownloadEvent<P>) -> (res: (Self, bool))
        ensures
            res == job_step(self, event),
    {
        match event {
            DownloadEvent::Progress { percent, speed, eta } => match self {
                JobState::Running { stage, .. } => (JobState::Running { percent, speed, eta, stage }, true),
                other => (other, true),
            },
            DownloadEvent::Stage(s) => match self {
                JobState::Running { percent, speed, eta, .. } => (
                    JobState::Running { percent, speed, eta, stage: s },
                    true,
                ),
                other => (other, true),
            },
            DownloadEvent::Done => (JobState::Done, false),
            DownloadEvent::Error(m) => (JobState::Error(m), false),
            DownloadEvent::Disconnected => match self {
                JobState::Running { .. } => (JobState::Done, false),
                other => (other, false),
            },
            DownloadEvent::Unrelated => (self, true),
        }
    }
}

/// A finished job stays finished: only an explicit `Done` or `Error` event
/// changes it, updates are ignored; and the channel is dropped exactly on
/// `Done`, `Error` and hang-up.
pub proof fn finished_job_ignores_updates<P>(state: JobState<P>, event: DownloadEvent<P>)
    ensures
        (state is Done || state is Error) && !(event is Done || event is Error) ==> job_step(
            state,
            event,
        ).0 == state,
        !job_step(state, event).1 <==> (event is Done || event is Error || event is Disconnected),
        state is Running && event is Disconnected ==> job_step(state, event).0 is Done,
{
}

/// State of the media preview: the probe's progress, the fetched thumbnail
/// and the quality selection; `D` is what the probe reports besides the
/// library's `MediaInfo`.
#[derive(Debug, Clone)]
pub enum ProbeState<D> {
    /// No probe has been requested yet.
    Idle,
    /// A probe is running.
    Loading,
    /// The probe completed.
    Loaded(MediaInfo, D),
    /// The probe failed; carries a human-readable message.
    Error(String),
}

/// The preview as the UI shows it.
pub struct PreviewState<D> {
    pub probe: ProbeState<D>,
    pub thumbnail_bytes: Option<Vec<u8>>,
    pub thumbnail_uri: Option<String>,
    pub selected_quality: Quality,
    /// Always holds at least `Best`.
    pub selectable_qualities: Vec<Quality>,
}

/// What the probe channel delivers.
pub enum ProbeEvent<D> {
    Loaded(MediaInfo, D),
    Failed(String),
    ThumbnailReady(Vec<u8>, String),
    /// The worker hung up.
    Disconnected,
    /// An event that does not concern the preview.
    Unrelated,
}

/// What the UI must do after a probe event.
#[derive(Debug, Clone, PartialEq, Eq)]
pub enum PreviewAction {
    /// Keep listening on the same channel.
    Keep,
    /// Stop listening.
    Stop,
    /// Fetch the thumbnail at this URL and listen for it instead.
    FetchThumbnail(String),
}

impl<D> PreviewState<D> {
    /// The preview before any probe: idle, no thumbnail, `Best` selected
    /// from `[Best]`.
    pub fn new() -> (s: Self)
        ensures
            s.probe is Idle,
            s.thumbnail_bytes is None,
            s.thumbnail_uri is None,
            s.selected_quality == Quality::Best,
            s.selectable_qualities@ == seq![Quality::Best],
    {
        let mut qualities: Vec<Quality> = Vec::new();
        qualities.push(Quality::Best);
        PreviewState {
            probe: ProbeState::Idle,
            thumbnail_bytes: None,
            thumbnail_uri: None,
            selected_quality: Quality::Best,
            selectable_qualities: qualities,
        }
    }

    /// A probe starts: loading, the old thumbnail dropped, `Best`
    /// selected; the offered list stays until the result arrives.
    pub fn begin_probe(&mut self)
        ensures
            final(self).probe is Loading,
            final(self).thumbnail_bytes is None,
            final(self).thumbnail_uri is None,
            final(self).selected_quality == Quality::Best,
            final(self).selectable_qualities == old(self).selectable_qualities,
    {
        self.probe = ProbeState::Loading;
        self.thumbnail_bytes = None;
        self.thumbnail_uri = None;
        self.selected_quality = Quality::Best;
    }

    /// A probe could not start or failed: show `message`.
    pub fn fail_probe(&mut self, message: String)
        ensures
            final(self).probe == ProbeState::<D>::Error(message),
            final(self).thumbnail_bytes == old(self).thumbnail_bytes,
            final(self).thumbnail_uri == old(self).thumbnail_uri,
            final(self).selected_quality == old(self).selected_quality,
            final(self).selectable_qualities == old(self).selectable_qualities,
    {
        self.probe = ProbeState::Error(message);
    }

    /// Apply one event of the probe channel. A result is shown with `Best`
    /// selected among the levels it offers, and its thumbnail is fetched if
    /// it has one; a failure is shown; a thumbnail is kept. Returns what to
    /// do with the channel.
    pub fn advance(&mut self, event: ProbeEvent<D>) -> (action: PreviewAction)
        ensures
            match event {
                ProbeEvent::Loaded(info, extra) => {
                    &&& final(self).probe == ProbeState::Loaded(info, extra)
                    &&& final(self).selected_quality == Quality::Best
                    &&& is_selectable_list(
                        info.available_qualities@,
                        final(self).selectable_qualities@,
                    )
                    &&& final(self).thumbnail_bytes == old(self).thumbnail_bytes
                    &&& final(self).thumbnail_uri == old(self).thumbnail_uri
                    &&& match info.thumbnail_url {
                        Some(u) => action matches PreviewAction::FetchThumbnail(v) && v@ == u@,
                        None => action == PreviewAction::Stop,
                    }
                },
                ProbeEvent::Failed(m) => {
                    &&& final(self).probe == ProbeState::<D>::Error(m)
                    &&& final(self).thumbnail_bytes == old(self).thumbnail_bytes
                    &&& final(self).thumbnail_uri == old(self).thumbnail_uri
                    &&& final(self).selected_quality == old(self).selected_quality
                    &&& final(self).selectable_qualities == old(self).selectable_qualities
                    &&& action == PreviewAction::Stop
                },
                ProbeEvent::ThumbnailReady(bytes, uri) => {
                    &&& final(self).probe == old(self).probe
                    &&& final(self).thumbnail_bytes == Some(bytes)
                    &&& final(self).thumbnail_uri == Some(uri)
                    &&& final(self).selected_quality == old(self).selected_quality
                    &&& final(self).selectable_qualities == old(self).selectable_qualities
                    &&& action == PreviewAction::Stop
                },
                ProbeEvent::Disconnected => *final(self) == *old(self) && action == PreviewAction::Stop,
                ProbeEvent::Unrelated => *final(self) == *old(self) && action == PreviewAction::Keep,
            },
    {
        match event {
            ProbeEvent::Loaded(info, extra) => {
                let action = match &info.thumbnail_url {
                    Some(u) => PreviewAction::FetchThumbnail(String::from_str(u.as_str())),
                    None => PreviewAction::Stop,
                };
                self.selected_quality = Quality::Best;
                self.selectable_qualities = Quality::selectable_list(info.available_qualities.as_slice());
                self.probe = ProbeState::Loaded(info, extra);
                action
            },
            ProbeEvent::Failed(m) => {
                self.probe = ProbeState::Error(m);
                PreviewAction::Stop
            },
            ProbeEvent::ThumbnailReady(bytes, uri) => {
                self.thumbnail_bytes = Some(bytes);
                self.thumbnail_uri = Some(uri);
                PreviewAction::Stop
            },
            ProbeEvent::Disconnected => PreviewAction::Stop,
            ProbeEvent::Unrelated => PreviewAction::Keep,
        }
    }
}

/// The offered list always starts with `Best`, whatever the probe reported.
pub proof fn preview_offers_best_first<D>(s: PreviewState<D>, info: MediaInfo)
    requires
        is_selectable_list(info.available_qualities@, s.selectable_qualities@),
    ensures
        s.selectable_qualities@.len() > 0,
        s.selectable_qualities@[0] == Quality::Best,
{
    selectable_list_shape(info.available_qualities@, s.selectable_qualities@);
}

/// The message shown for a URL the user typed that was rejected.
pub open spec fn invalid_url_text(e: DomainError) -> Seq<char> {
    "Invalid URL: "@ + domain_error_text(e)
}

/// The message shown for a rejected URL ("Invalid URL: <error>").
pub fn invalid_url_message(e: &DomainError) -> (s: String)
    ensures
        s@ == invalid_url_text(*e),
{
    let mut s = String::from_str("Invalid URL: ");
    s.append(e.message().as_str());
    s
}

/// Validate the URL the user typed and build the job to run: the base format
/// takes the selected quality. A rejected URL gives the message to show.
pub fn prepare_job(url_input: &str, base: Format, selected: Quality, output_path: String) -> (res: Result<DownloadJob, String>)
    ensures
        res is Ok <==> rejection_text(url_input@) is None,
        res matches Ok(job) ==> media_url_outcome(url_input@, Ok(job.url)) && job.format
            == format_with_quality(base, selected) && job.output_path == output_path,
        res matches Err(m) ==> m@ == "Invalid URL: "@ + rejection_text(url_input@)->Some_0,
{
    let parsed = MediaUrl::parse(url_input);
    proof {
        rejection_text_describes_outcome(url_input@, parsed);
    }
    match parsed {
        Ok(url) => Ok(DownloadJob { url, format: build_format(base, selected), output_path }),
        Err(e) => Err(invalid_url_message(&e)),
    }
}

/// A duration of whole seconds as `mm:ss`, each part padded to two digits
/// (minutes may take more); `--:--` when unknown.
pub open spec fn clock(total_secs: Option<u64>) -> Seq<char> {
    match total_secs {
        None => "--:--"@,
        Some(t) => two_digits((t / 60) as nat) + ":"@ + two_digits((t % 60) as nat),
    }
}

/// `n` in decimal, padded with a leading zero below 10.
pub open spec fn two_digits(n: nat) -> Seq<char> {
    if n < 10 {
        "0"@ + decimal(n)
    } else {
        decimal(n)
    }
}

fn push_two_digits(s: &mut String, n: u64)
    ensures
        final(s)@ == old(s)@ + two_digits(n as nat),
{
    if n < 10 {
        s.append("0");
    }
    let d = decimal_string(n);
    s.append(d.as_str());
    assert(final(s)@ =~= old(s)@ + two_digits(n as nat));
}

/// Format a duration in whole seconds as `mm:ss`, or `--:--` when unknown.
pub fn clock_text(total_secs: Option<u64>) -> (s: String)
    ensures
        s@ == clock(total_secs),
{
    match total_secs {
        None => String::from_str("--:--"),
        Some(t) => {
            let mut s = String::new();
            push_two_digits(&mut s, t / 60);
            s.append(":");
            push_two_digits(&mut s, t % 60);
            assert(s@ =~= clock(total_secs));
            s
        },
    }
}

} // verus!
