use converter_desk::download_service::DownloadError;
use converter_desk::ytdlp_downloader::{
    after_attempt, exit_failure, is_mp3_extraction, should_retry_with_android_client,
    stderr_tail, with_android_player_client, with_ffmpeg_location, DownloadStep, YtDlpDownloader,
};
use std::path::PathBuf;

fn mp3_args() -> Vec<String> {
    vec![
        "--extract-audio".to_string(),
        "--audio-format".to_string(),
        "mp3".to_string(),
        "https://example.com/video".to_string(),
    ]
}

fn forbidden_error() -> DownloadError {
    DownloadError::Failed("yt-dlp failed: HTTP Error 403: Forbidden".to_string())
}

#[test]
fn ffmpeg_location_prepended_when_some() {
    let base = vec!["--no-playlist".to_string(), "https://example.com/v".to_string()];
    let out = with_ffmpeg_location(base, Some("C:/tools/ffmpeg.exe"));
    assert_eq!(out[0], "--ffmpeg-location");
    assert_eq!(out[1], "C:/tools/ffmpeg.exe");
    assert_eq!(out.last().unwrap(), "https://example.com/v");
}

#[test]
fn ffmpeg_location_absent_when_none() {
    let base = vec!["--no-playlist".to_string(), "url".to_string()];
    let out = with_ffmpeg_location(base.clone(), None);
    assert_eq!(out, base);
}

#[test]
fn retries_only_mp3_extraction_forbidden_errors() {
    assert!(should_retry_with_android_client(&mp3_args(), &forbidden_error()));
}

#[test]
fn does_not_retry_video_downloads() {
    let video_args = vec![
        "--format".to_string(),
        "bestvideo+bestaudio".to_string(),
        "https://example.com/video".to_string(),
    ];
    assert!(!should_retry_with_android_client(&video_args, &forbidden_error()));
}

#[test]
fn does_not_retry_other_errors() {
    let other_error = DownloadError::Failed("yt-dlp failed: network unavailable".to_string());
    assert!(!should_retry_with_android_client(&mp3_args(), &other_error));
}

#[test]
fn does_not_retry_non_mp3_audio_extraction() {
    let mut non_mp3_args = mp3_args();
    non_mp3_args[2] = "m4a".to_string();
    assert!(!should_retry_with_android_client(&non_mp3_args, &forbidden_error()));
}

#[test]
fn android_player_client_is_inserted_immediately_before_the_url() {
    let args = with_android_player_client(mp3_args());
    assert_eq!(
        args,
        vec![
            "--extract-audio",
            "--audio-format",
            "mp3",
            "--extractor-args",
            "youtube:player_client=android",
            "https://example.com/video",
        ]
    );
}

#[test]
fn existing_extractor_args_prevent_retry_and_duplicate_injection() {
    let mut args = mp3_args();
    args.splice(
        args.len() - 1..args.len() - 1,
        ["--extractor-args".to_string(), "youtube:player_client=web".to_string()],
    );
    assert!(!should_retry_with_android_client(&args, &forbidden_error()));
    assert_eq!(with_android_player_client(args.clone()), args);
}

#[test]
fn retried_arguments_are_not_retried_again() {
    let retried = with_android_player_client(mp3_args());
    assert!(!should_retry_with_android_client(&retried, &forbidden_error()));
}

#[test]
fn non_failed_errors_are_not_retried() {
    let err = DownloadError::BinaryNotFound("HTTP Error 403: Forbidden".to_string());
    assert!(!should_retry_with_android_client(&mp3_args(), &err));
}

#[test]
fn empty_arguments_are_left_alone() {
    assert_eq!(with_android_player_client(Vec::new()), Vec::<String>::new());
}

#[test]
fn mp3_extraction_needs_both_flags_adjacent() {
    assert!(is_mp3_extraction(&mp3_args()));
    let split = vec![
        "--extract-audio".to_string(),
        "--audio-format".to_string(),
        "x".to_string(),
        "mp3".to_string(),
    ];
    assert!(!is_mp3_extraction(&split));
    let no_extract = vec!["--audio-format".to_string(), "mp3".to_string()];
    assert!(!is_mp3_extraction(&no_extract));
}

#[test]
fn stderr_tail_prefers_last_error_line() {
    let lines = vec![
        "ERROR: first".to_string(),
        "  ERROR: second  ".to_string(),
        "trailing note".to_string(),
    ];
    assert_eq!(stderr_tail(&lines), "ERROR: second");
}

#[test]
fn stderr_tail_falls_back_to_last_nonblank_line() {
    let lines = vec!["warning one".to_string(), " warning two ".to_string(), "   ".to_string()];
    assert_eq!(stderr_tail(&lines), "warning two");
    assert_eq!(stderr_tail(&[]), "");
    assert_eq!(stderr_tail(&["  ".to_string()]), "");
}

#[test]
fn exit_failure_messages() {
    assert_eq!(
        exit_failure("exit status: 1", &[]),
        DownloadError::Failed("yt-dlp exited with non-zero status: exit status: 1".to_string())
    );
    assert_eq!(
        exit_failure("exit status: 1", &["ERROR: Unsupported URL".to_string()]),
        DownloadError::Failed("yt-dlp failed (exit status: 1): ERROR: Unsupported URL".to_string())
    );
}

#[test]
fn downloader_keeps_its_paths() {
    let d = YtDlpDownloader::new(PathBuf::from("/usr/bin/yt-dlp"), Some(PathBuf::from("/usr/bin/ffmpeg")));
    assert_eq!(d.binary_path(), &PathBuf::from("/usr/bin/yt-dlp"));
    assert_eq!(d.ffmpeg_path(), &Some(PathBuf::from("/usr/bin/ffmpeg")));
}

#[test]
fn forbidden_mp3_run_is_retried_with_android_client() {
    match after_attempt(mp3_args(), Err(forbidden_error())) {
        DownloadStep::Run(args) => assert_eq!(
            args,
            vec![
                "--extract-audio".to_string(),
                "--audio-format".to_string(),
                "mp3".to_string(),
                "--extractor-args".to_string(),
                "youtube:player_client=android".to_string(),
                "https://example.com/video".to_string(),
            ]
        ),
        other => panic!("expected a retry, got {other:?}"),
    }
}

#[test]
fn retried_run_finishes_with_its_result() {
    let retry_args = with_android_player_client(mp3_args());
    match after_attempt(retry_args, Err(forbidden_error())) {
        DownloadStep::Finish(result) => assert_eq!(result, Err(forbidden_error())),
        other => panic!("expected the end, got {other:?}"),
    }
}

#[test]
fn success_and_other_failures_finish() {
    match after_attempt(mp3_args(), Ok(())) {
        DownloadStep::Finish(result) => assert_eq!(result, Ok(())),
        other => panic!("expected the end, got {other:?}"),
    }
    let other_error = DownloadError::Failed("network unreachable".to_string());
    match after_attempt(mp3_args(), Err(other_error.clone())) {
        DownloadStep::Finish(result) => assert_eq!(result, Err(other_error)),
        other => panic!("expected the end, got {other:?}"),
    }
}
