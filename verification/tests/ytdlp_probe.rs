use converter_desk::json::Json;
use converter_desk::media_url::MediaUrl;
use converter_desk::ports::ProbeError;
use converter_desk::quality::Quality;
use converter_desk::ytdlp_probe::{
    best_thumbnail_url, build_probe_args, document_from_json, parse_probe_json, probe_failure,
    probe_outcome, read_probe_output, ProbeDocument, ThumbnailEntry, YtDlpProbe,
};

fn obj(members: Vec<(&str, Json)>) -> Json {
    Json::Object(members.into_iter().map(|(k, v)| (k.to_string(), v)).collect())
}

fn text(s: &str) -> Json {
    Json::Text(s.to_string())
}

fn uint(n: u64) -> Json {
    Json::Number { unsigned: Some(n), text: n.to_string() }
}

fn float(t: &str) -> Json {
    Json::Number { unsigned: None, text: t.to_string() }
}

fn s(v: &str) -> Option<String> {
    Some(v.to_string())
}

fn format(vcodec: &str, height: Json, ext: &str) -> Json {
    obj(vec![("vcodec", text(vcodec)), ("height", height), ("ext", text(ext))])
}

fn doc(title: Option<String>) -> ProbeDocument {
    ProbeDocument {
        kind: None,
        title,
        thumbnail: None,
        thumbnails: None,
        uploader: None,
        formats: None,
        duration: None,
    }
}

#[test]
fn test_full_json_maps_all_fields() {
    let value = obj(vec![
        ("title", text("Test Video")),
        ("thumbnail", text("https://i.ytimg.com/vi/abc/hqdefault.jpg")),
        ("duration", float("193.0")),
        ("uploader", text("TestChannel")),
        (
            "formats",
            Json::Array(vec![
                format("avc1.42001f", uint(1080), "mp4"),
                format("vp9", uint(720), "webm"),
                format("none", Json::Null, "m4a"),
            ]),
        ),
    ]);
    let result = parse_probe_json(&value).expect("should succeed");
    assert_eq!(result.title, "Test Video");
    assert_eq!(result.thumbnail_url, Some("https://i.ytimg.com/vi/abc/hqdefault.jpg".to_string()));
    let duration: f64 = result.duration_text.as_deref().unwrap().parse().unwrap();
    assert!((duration - 193.0).abs() < 0.001);
    assert_eq!(result.uploader, Some("TestChannel".to_string()));
    assert_eq!(result.available_qualities, vec![Quality::P1080, Quality::P720]);
}

#[test]
fn test_missing_optional_fields() {
    let value = obj(vec![("title", text("Minimal Video")), ("formats", Json::Array(vec![]))]);
    let result = parse_probe_json(&value).expect("should succeed");
    assert_eq!(result.title, "Minimal Video");
    assert!(result.thumbnail_url.is_none());
    assert!(result.duration_text.is_none());
    assert!(result.uploader.is_none());
    assert!(result.available_qualities.is_empty());
}

#[test]
fn test_audio_only_excluded() {
    let value = obj(vec![
        ("title", text("Audio Only Test")),
        (
            "formats",
            Json::Array(vec![
                format("none", uint(1080), "m4a"),
                format("none", Json::Null, "opus"),
                format("avc1", uint(720), "mp4"),
            ]),
        ),
    ]);
    let result = parse_probe_json(&value).expect("should succeed");
    assert_eq!(result.available_qualities, vec![Quality::P720]);
}

#[test]
fn test_duplicate_heights_deduped() {
    let value = obj(vec![
        ("title", text("Dup Heights")),
        (
            "formats",
            Json::Array(vec![
                format("avc1", uint(1080), "mp4"),
                format("vp9", uint(1080), "webm"),
                format("avc1", uint(720), "mp4"),
            ]),
        ),
    ]);
    let result = parse_probe_json(&value).expect("should succeed");
    assert_eq!(result.available_qualities, vec![Quality::P1080, Quality::P720]);
    assert_eq!(result.available_qualities.iter().filter(|&&q| q == Quality::P1080).count(), 1);
}

#[test]
fn test_no_video_formats_empty_qualities() {
    let value = obj(vec![
        ("title", text("No Video")),
        (
            "formats",
            Json::Array(vec![
                obj(vec![("vcodec", text("none")), ("ext", text("m4a"))]),
                obj(vec![("vcodec", text("none")), ("ext", text("opus"))]),
            ]),
        ),
    ]);
    let result = parse_probe_json(&value).expect("should succeed");
    assert!(result.available_qualities.is_empty());
}

#[test]
fn test_playlist_json_no_panic() {
    let value = obj(vec![
        ("_type", text("playlist")),
        ("title", text("My Playlist")),
        ("entries", Json::Array(vec![])),
    ]);
    let result = parse_probe_json(&value);
    match result {
        Ok(_) | Err(_) => {}
    }
}

#[test]
fn playlist_is_a_failure() {
    let value = obj(vec![("_type", text("playlist")), ("title", text("My Playlist"))]);
    assert_eq!(
        parse_probe_json(&value).unwrap_err(),
        ProbeError::Failed("URL is a playlist; probe a single video".to_string())
    );
}

#[test]
fn missing_or_mistyped_title_fails() {
    let missing = ProbeError::Failed("missing 'title' in yt-dlp JSON".to_string());
    assert_eq!(parse_probe_json(&obj(vec![])).unwrap_err(), missing);
    assert_eq!(parse_probe_json(&obj(vec![("title", uint(7))])).unwrap_err(), missing);
    assert_eq!(parse_probe_json(&Json::Array(vec![])).unwrap_err(), missing);
}

#[test]
fn picks_widest_thumbnail_from_array() {
    let value = obj(vec![
        ("title", text("Thumb Test")),
        ("thumbnail", text("https://example.com/small.jpg")),
        (
            "thumbnails",
            Json::Array(vec![
                obj(vec![("url", text("https://example.com/120.jpg")), ("width", uint(120))]),
                obj(vec![("url", text("https://example.com/1280.jpg")), ("width", uint(1280))]),
                obj(vec![("url", text("https://example.com/640.jpg")), ("width", uint(640))]),
            ]),
        ),
        ("formats", Json::Array(vec![])),
    ]);
    let result = parse_probe_json(&value).expect("should succeed");
    assert_eq!(
        result.thumbnail_url,
        Some("https://example.com/1280.jpg".to_string()),
        "must pick the widest thumbnail from the array"
    );
}

#[test]
fn falls_back_to_top_level_thumbnail() {
    let value = obj(vec![
        ("title", text("Fallback Test")),
        ("thumbnail", text("https://example.com/only.jpg")),
        ("formats", Json::Array(vec![])),
    ]);
    let result = parse_probe_json(&value).expect("should succeed");
    assert_eq!(result.thumbnail_url, Some("https://example.com/only.jpg".to_string()));
}

#[test]
fn equally_wide_thumbnails_pick_the_last() {
    let mut d = doc(s("Ties"));
    d.thumbnails = Some(vec![
        ThumbnailEntry { url: s("a"), width: None },
        ThumbnailEntry { url: s("b"), width: Some(0) },
        ThumbnailEntry { url: None, width: Some(9999) },
    ]);
    assert_eq!(best_thumbnail_url(&d), s("b"));
}

#[test]
fn thumbnails_without_urls_fall_back() {
    let mut d = doc(s("No urls"));
    d.thumbnail = s("top");
    d.thumbnails = Some(vec![ThumbnailEntry { url: None, width: Some(10) }]);
    assert_eq!(best_thumbnail_url(&d), s("top"));
}

#[test]
fn all_buckets_sorted_from_unsorted_heights() {
    let value = obj(vec![
        ("title", text("Many")),
        (
            "formats",
            Json::Array(vec![
                format("vp9", uint(144), "webm"),
                obj(vec![("height", uint(2160))]),
                format("av01", uint(4320), "mp4"),
                format("avc1", uint(1440), "mp4"),
                format("avc1", uint(480), "mp4"),
                format("avc1", float("720.5"), "mp4"),
                format("avc1", Json::Null, "mp4"),
            ]),
        ),
    ]);
    let result = parse_probe_json(&value).unwrap();
    assert_eq!(result.available_qualities, vec![Quality::P2160, Quality::P1440, Quality::P480, Quality::P360]);
}

#[test]
fn document_reads_typed_fields_only() {
    let value = obj(vec![
        ("_type", text("video")),
        ("title", text("T")),
        ("uploader", uint(3)),
        ("duration", uint(61)),
        ("thumbnails", text("not an array")),
        ("formats", Json::Array(vec![format("vp9", uint(360), "webm"), Json::Null])),
    ]);
    let d = document_from_json(&value);
    assert_eq!(d.kind, s("video"));
    assert_eq!(d.title, s("T"));
    assert_eq!(d.uploader, None);
    assert_eq!(d.duration, s("61"));
    assert!(d.thumbnails.is_none());
    let formats = d.formats.unwrap();
    assert_eq!(formats.len(), 2);
    assert_eq!(formats[0].vcodec, s("vp9"));
    assert_eq!(formats[0].height, Some(360));
    assert_eq!(formats[1].vcodec, None);
    assert_eq!(formats[1].height, None);
}

#[test]
fn first_member_of_a_repeated_key_is_read() {
    let value = obj(vec![("title", text("first")), ("title", text("second"))]);
    assert_eq!(parse_probe_json(&value).unwrap().title, "first");
}

#[test]
fn undecodable_output_is_invalid_json() {
    assert_eq!(
        read_probe_output(Err("EOF while parsing a value at line 1 column 0".to_string())).unwrap_err(),
        ProbeError::Failed("invalid JSON from yt-dlp: EOF while parsing a value at line 1 column 0".to_string())
    );
    let read = read_probe_output(Ok(obj(vec![("title", text("ok"))]))).unwrap();
    assert_eq!(read.title, "ok");
}

#[test]
fn probe_outcome_decodes_yt_dlp_output() {
    let stdout = br#"{"title": "Test Video", "duration": 193.0, "uploader": "TestChannel",
        "formats": [{"vcodec": "avc1", "height": 1080}, {"vcodec": "none", "height": null}]}"#;
    let info = probe_outcome(true, "exit status: 0", "", stdout).unwrap();
    assert_eq!(info.title, "Test Video");
    assert_eq!(info.duration_text, s("193.0"));
    assert_eq!(info.uploader, s("TestChannel"));
    assert_eq!(info.available_qualities, vec![Quality::P1080]);
}

#[test]
fn probe_outcome_reports_bad_json_and_failed_runs() {
    match probe_outcome(true, "exit status: 0", "", b"not json") {
        Err(ProbeError::Failed(m)) => assert!(m.starts_with("invalid JSON from yt-dlp: "), "{m}"),
        other => panic!("expected a failure, got {other:?}"),
    }
    assert_eq!(
        probe_outcome(false, "exit status: 1", "ERROR: Unsupported URL\nmore", b"{}").unwrap_err(),
        ProbeError::Failed("yt-dlp exited with exit status: 1: ERROR: Unsupported URL".to_string())
    );
    assert_eq!(
        probe_outcome(true, "exit status: 0", "", br#"{"_type": "playlist", "title": "P"}"#).unwrap_err(),
        ProbeError::Failed("URL is a playlist; probe a single video".to_string())
    );
}

#[test]
fn test_no_playlist_in_probe_args() {
    let url = MediaUrl::parse("https://www.youtube.com/watch?v=abc&list=PLxyz").unwrap();
    let args = build_probe_args(&url);
    assert!(args.contains(&"--no-playlist".to_string()), "--no-playlist must be present in probe args");
    assert!(args.contains(&"-J".to_string()), "-J must be present in probe args");
    assert_eq!(args.last().unwrap(), url.as_str(), "URL must be the last probe arg");
}

#[test]
fn probe_keeps_its_binary_path() {
    let p = YtDlpProbe::new(std::path::PathBuf::from("/opt/yt-dlp"));
    assert_eq!(p.binary_path(), &std::path::PathBuf::from("/opt/yt-dlp"));
}

#[test]
fn probe_failure_reports_first_stderr_line() {
    assert_eq!(
        probe_failure("exit status: 1", "ERROR: [generic] Unsupported URL\r\nmore\n"),
        ProbeError::Failed("yt-dlp exited with exit status: 1: ERROR: [generic] Unsupported URL".to_string())
    );
    assert_eq!(
        probe_failure("exit status: 1", ""),
        ProbeError::Failed("yt-dlp exited with exit status: 1: no output".to_string())
    );
    assert_eq!(
        probe_failure("exit status: 2", "\nsecond"),
        ProbeError::Failed("yt-dlp exited with exit status: 2: ".to_string())
    );
    assert_eq!(
        probe_failure("exit status: 2", "lonely\r"),
        ProbeError::Failed("yt-dlp exited with exit status: 2: lonely\r".to_string())
    );
}
