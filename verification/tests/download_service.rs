use converter_desk::download_service::{forward_line, DownloadError, DownloadService, Forwarded};
use converter_desk::format::Format;
use converter_desk::job::{DownloadJob, Stage};
use converter_desk::media_url::MediaUrl;
use converter_desk::ports::{MediaDownloader, Progress, ProgressSink};
use converter_desk::quality::Quality;
use std::sync::{Arc, Mutex};

fn make_job() -> DownloadJob {
    DownloadJob {
        url: MediaUrl::parse("https://example.com/video").unwrap(),
        format: Format::Video { quality: Quality::Best },
        output_path: "%(title)s.%(ext)s".to_string(),
    }
}

// --- Fakes ---

struct FakeDownloader;
impl MediaDownloader for FakeDownloader {
    fn download<F: Fn(&str)>(&self, _binary: &str, _args: Vec<String>, _on_line: &F) -> Result<(), DownloadError> {
        Ok(())
    }
}

struct FakeDownloaderWithProgress;
impl MediaDownloader for FakeDownloaderWithProgress {
    fn download<F: Fn(&str)>(&self, _binary: &str, _args: Vec<String>, on_line: &F) -> Result<(), DownloadError> {
        on_line("10.0%|1MiB/s|00:30");
        on_line("50.0%|2MiB/s|00:15");
        on_line("100.0%|3MiB/s|00:00");
        Ok(())
    }
}

struct FakeWithStage;
impl MediaDownloader for FakeWithStage {
    fn download<F: Fn(&str)>(&self, _binary: &str, _args: Vec<String>, on_line: &F) -> Result<(), DownloadError> {
        on_line("50.0%|2MiB/s|00:10");
        on_line("[Merger] Merging formats into \"output.mp4\"");
        Ok(())
    }
}

struct FailingDownloader;
impl MediaDownloader for FailingDownloader {
    fn download<F: Fn(&str)>(&self, _binary: &str, _args: Vec<String>, _on_line: &F) -> Result<(), DownloadError> {
        Err(DownloadError::Failed("network error".to_string()))
    }
}

/// Records the command it is given and prints nothing.
struct CommandRecorder {
    seen: Arc<Mutex<Vec<(String, Vec<String>)>>>,
}
impl MediaDownloader for CommandRecorder {
    fn download<F: Fn(&str)>(&self, binary: &str, args: Vec<String>, _on_line: &F) -> Result<(), DownloadError> {
        self.seen.lock().unwrap().push((binary.to_string(), args));
        Ok(())
    }
}

struct NoopSink;
impl ProgressSink for NoopSink {
    type Percent = f32;
    fn read_percent(&self, text: &str) -> Option<f32> {
        text.parse().ok()
    }
    fn on_progress(&self, _p: Progress<f32>) {}
    fn on_stage(&self, _s: Stage) {}
}

struct CountingSink {
    progress: Mutex<Vec<Progress<f32>>>,
    stages: Mutex<Vec<Stage>>,
}
impl CountingSink {
    fn new() -> Self {
        Self { progress: Mutex::new(Vec::new()), stages: Mutex::new(Vec::new()) }
    }
    fn progress_count(&self) -> usize {
        self.progress.lock().unwrap().len()
    }
    fn stage_count(&self) -> usize {
        self.stages.lock().unwrap().len()
    }
}
impl ProgressSink for CountingSink {
    type Percent = f32;
    fn read_percent(&self, text: &str) -> Option<f32> {
        text.parse().ok()
    }
    fn on_progress(&self, p: Progress<f32>) {
        self.progress.lock().unwrap().push(p);
    }
    fn on_stage(&self, s: Stage) {
        self.stages.lock().unwrap().push(s);
    }
}

#[test]
fn service_runs_to_completion_with_fake_adapter() {
    let service = DownloadService::new(FakeDownloader);
    let result = service.execute(&make_job(), &NoopSink);
    assert!(result.is_ok(), "Expected Ok(()), got {result:?}");
}

#[test]
fn service_propagates_progress_events() {
    let service = DownloadService::new(FakeDownloaderWithProgress);
    let sink = CountingSink::new();
    let _ = service.execute(&make_job(), &sink);
    assert_eq!(sink.progress_count(), 3, "Expected 3 progress events, got {}", sink.progress_count());
}

#[test]
fn service_propagates_stage_events() {
    let service = DownloadService::new(FakeWithStage);
    let sink = CountingSink::new();
    let _ = service.execute(&make_job(), &sink);
    assert_eq!(sink.progress_count(), 1, "Expected 1 progress event");
    assert_eq!(sink.stage_count(), 1, "Expected 1 stage event");
}

#[test]
fn service_propagates_adapter_errors() {
    let service = DownloadService::new(FailingDownloader);
    let result = service.execute(&make_job(), &NoopSink);
    assert!(result.is_err(), "Expected Err, got Ok");
    assert_eq!(result.unwrap_err(), DownloadError::Failed("network error".to_string()));
}

#[test]
fn service_hands_the_built_command_to_the_downloader() {
    let seen = Arc::new(Mutex::new(Vec::new()));
    let service = DownloadService::new(CommandRecorder { seen: seen.clone() });
    let job = DownloadJob {
        url: MediaUrl::parse("https://example.com/a").unwrap(),
        format: Format::AudioMp3,
        output_path: "out/%(title)s.%(ext)s".to_string(),
    };
    assert_eq!(service.execute(&job, &NoopSink), Ok(()));
    let recorded = seen.lock().unwrap().clone();
    assert_eq!(recorded.len(), 1);
    assert_eq!(recorded[0].0, "yt-dlp");
    assert_eq!(
        recorded[0].1,
        vec![
            "--no-playlist",
            "--newline",
            "--progress-template",
            "%(progress._percent_str)s|%(progress._speed_str)s|%(progress._eta_str)s",
            "-o",
            "out/%(title)s.%(ext)s",
            "--extract-audio",
            "--audio-format",
            "mp3",
            "https://example.com/a",
        ]
        .into_iter()
        .map(String::from)
        .collect::<Vec<String>>()
    );
}

#[test]
fn progress_lines_reach_the_sink_with_their_fields() {
    let sink = CountingSink::new();
    assert_eq!(forward_line(&sink, "42.5%|1.20MiB/s|00:42"), Forwarded::Progress);
    let progress = sink.progress.lock().unwrap().clone();
    assert_eq!(progress.len(), 1);
    assert!((progress[0].percent - 42.5).abs() < 0.01);
    assert_eq!(progress[0].speed, "1.20MiB/s");
    assert_eq!(progress[0].eta, "00:42");
}

#[test]
fn stage_markers_reach_the_sink_as_processing() {
    let sink = CountingSink::new();
    assert_eq!(forward_line(&sink, "[ExtractAudio] Destination: a.mp3"), Forwarded::Stage(Stage::Processing));
    assert_eq!(*sink.stages.lock().unwrap(), vec![Stage::Processing]);
    assert_eq!(sink.progress_count(), 0);
}

#[test]
fn other_lines_are_dropped() {
    let sink = CountingSink::new();
    assert_eq!(forward_line(&sink, "[download] Destination: a.mp4"), Forwarded::Ignored);
    assert_eq!(forward_line(&sink, ""), Forwarded::Ignored);
    assert_eq!(sink.progress_count(), 0);
    assert_eq!(sink.stage_count(), 0);
}
