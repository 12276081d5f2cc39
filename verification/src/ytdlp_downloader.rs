//! Argument rewriting and failure reporting for the yt-dlp process adapter.

use crate::download_service::DownloadError;
use crate::text::{contains_str, contains_text, has_substring, same_text, trim, trim_str, views};
use vstd::prelude::*;

verus! {

#[verifier::external_type_specification]
#[verifier::external_body]
pub struct ExPathBuf(std::path::PathBuf);

/// yt-dlp's message for a refused (403) request.
pub const FORBIDDEN_ERROR: &'static str = "HTTP Error 403: Forbidden";

/// The yt-dlp flag that passes extractor arguments.
pub const EXTRACTOR_ARGS: &'static str = "--extractor-args";

/// Extractor arguments selecting YouTube's Android player client.
pub const ANDROID_PLAYER_CLIENT: &'static str = "youtube:player_client=android";

/// Configuration of the adapter that spawns yt-dlp.
///
/// `binary_path` is the resolved yt-dlp executable; `ffmpeg_path`, when
/// known, is passed to yt-dlp as `--ffmpeg-location`.
pub struct YtDlpDownloader {
    binary_path: std::path::PathBuf,
    ffmpeg_path: Option<std::path::PathBuf>,
}

impl YtDlpDownloader {
    /// The yt-dlp executable to run.
    pub closed spec fn spec_binary_path(&self) -> std::path::PathBuf {
        self.binary_path
    }

    /// The ffmpeg executable to hand to yt-dlp, if known.
    pub closed spec fn spec_ffmpeg_path(&self) -> Option<std::path::PathBuf> {
        self.ffmpeg_path
    }

    /// Construct a downloader that will invoke `binary_path` directly.
    pub fn new(binary_path: std::path::PathBuf, ffmpeg_path: Option<std::path::PathBuf>) -> (d: Self)
        ensures
            d.spec_binary_path() == binary_path,
            d.spec_ffmpeg_path() == ffmpeg_path,
    {
        YtDlpDownloader { binary_path, ffmpeg_path }
    }

    /// The yt-dlp executable to run.
    pub fn binary_path(&self) -> (p: &std::path::PathBuf)
        ensures
            *p == self.spec_binary_path(),
    {
        &self.binary_path
    }

    /// The ffmpeg executable to hand to yt-dlp, if known.
    pub fn ffmpeg_path(&self) -> (p: &Option<std::path::PathBuf>)
        ensures
            *p == self.spec_ffmpeg_path(),
    {
        &self.ffmpeg_path
    }
}

/// `--ffmpeg-location <path>` in front of `args` when a path is known.
pub open spec fn ffmpeg_args(args: Seq<Seq<char>>, ffmpeg_path: Option<Seq<char>>) -> Seq<Seq<char>> {
    match ffmpeg_path {
        Some(p) => seq!["--ffmpeg-location"@, p] + args,
        None => args,
    }
}

/// `--audio-format mp3` stands at index `i` of `args`.
pub open spec fn mp3_format_at(args: Seq<Seq<char>>, i: int) -> bool {
    args[i] == "--audio-format"@ && args[i + 1] == "mp3"@
}

/// The arguments ask yt-dlp to extract audio as MP3.
pub open spec fn is_mp3_args(args: Seq<Seq<char>>) -> bool {
    &&& args.contains("--extract-audio"@)
    &&& exists|i: int| 0 <= i < args.len() - 1 && #[trigger] mp3_format_at(args, i)
}

/// The error is a download failure whose message reports a 403.
pub open spec fn is_forbidden_failure(e: DownloadError) -> bool {
    e matches DownloadError::Failed(m) && has_substring(m@, FORBIDDEN_ERROR@)
}

/// A failed MP3 extraction that was refused with a 403, and that did not
/// already choose extractor arguments, is retried with the Android client.
pub open spec fn retry_wanted(args: Seq<Seq<char>>, e: DownloadError) -> bool {
    is_mp3_args(args) && !args.contains(EXTRACTOR_ARGS@) && is_forbidden_failure(e)
}

/// `args` with the Android player client chosen just before the last
/// argument (the URL), unless `args` is empty or already has extractor
/// arguments.
pub open spec fn android_args(args: Seq<Seq<char>>) -> Seq<Seq<char>> {
    if args.len() == 0 || args.contains(EXTRACTOR_ARGS@) {
        args
    } else {
        args.drop_last() + seq![EXTRACTOR_ARGS@, ANDROID_PLAYER_CLIENT@, args.last()]
    }
}

/// The last line of `lines` that contains "ERROR", trimmed.
pub open spec fn last_error_line(lines: Seq<Seq<char>>) -> Option<Seq<char>>
    decreases lines.len(),
{
    if lines.len() == 0 {
        None
    } else if has_substring(lines.last(), "ERROR"@) {
        Some(trim(lines.last()))
    } else {
        last_error_line(lines.drop_last())
    }
}

/// The last line of `lines` that is not blank, trimmed.
pub open spec fn last_nonblank_line(lines: Seq<Seq<char>>) -> Option<Seq<char>>
    decreases lines.len(),
{
    if lines.len() == 0 {
        None
    } else if trim(lines.last()).len() > 0 {
        Some(trim(lines.last()))
    } else {
        last_nonblank_line(lines.drop_last())
    }
}

/// The most relevant stderr line: the last one reporting an ERROR, else the
/// last non-blank one, else nothing.
pub open spec fn stderr_summary(lines: Seq<Seq<char>>) -> Seq<char> {
    match last_error_line(lines) {
        Some(l) => l,
        None => match last_nonblank_line(lines) {
            Some(l) => l,
            None => Seq::empty(),
        },
    }
}

/// The message of a run that exited unsuccessfully with status `status`.
pub open spec fn exit_failure_text(status: Seq<char>, lines: Seq<Seq<char>>) -> Seq<char> {
    let detail = stderr_summary(lines);
    if detail.len() == 0 {
        "yt-dlp exited with non-zero status: "@ + status
    } else {
        "yt-dlp failed ("@ + status + "): "@ + detail
    }
}

/// Prepend `--ffmpeg-location <path>` to the yt-dlp arguments when an ffmpeg
/// path is known, so that yt-dlp uses it for muxing and transcoding.
/// Without a path the arguments are returned unchanged.
pub fn with_ffmpeg_location(args: Vec<String>, ffmpeg_path: Option<&str>) -> (out: Vec<String>)
    ensures
        out.deep_view() == ffmpeg_args(
            args.deep_view(),
            match ffmpeg_path {
                Some(p) => Some(p@),
                None => None,
            },
        ),
{
    match ffmpeg_path {
        Some(path) => {
            let mut output: Vec<String> = Vec::new();
            output.push(String::from_str("--ffmpeg-location"));
            output.push(String::from_str(path));
            let mut rest = args;
            output.append(&mut rest);
            assert(output.deep_view() =~= seq!["--ffmpeg-location"@, path@] + args.deep_view());
            output
        },
        None => args,
    }
}

/// Whether the arguments extract audio as MP3.
pub fn is_mp3_extraction(args: &[String]) -> (b: bool)
    ensures
        b == is_mp3_args(args.deep_view()),
{
    proof {
        assert(args.deep_view() =~= views(args@));
    }
    if !contains_text(args, "--extract-audio") {
        return false;
    }
    let n = args.len();
    if n < 2 {
        return false;
    }
    for i in 0..n - 1
        invariant
            n == args@.len(),
            n >= 2,
            args.deep_view() == views(args@),
            args.deep_view().contains("--extract-audio"@),
            forall|k: int| 0 <= k < i ==> !mp3_format_at(args.deep_view(), k),
    {
        if same_text(args[i].as_str(), "--audio-format") && same_text(args[i + 1].as_str(), "mp3") {
            assert(mp3_format_at(args.deep_view(), i as int));
            return true;
        }
    }
    false
}

/// Whether a failed download should be retried with the Android client:
/// only MP3 extractions refused with a 403 that have no extractor arguments
/// yet.
pub fn should_retry_with_android_client(args: &[String], error: &DownloadError) -> (b: bool)
    ensures
        b == retry_wanted(args.deep_view(), *error),
{
    proof {
        assert(args.deep_view() =~= views(args@));
    }
    if !is_mp3_extraction(args) || contains_text(args, EXTRACTOR_ARGS) {
        return false;
    }
    match error {
        DownloadError::Failed(message) => contains_str(message.as_str(), FORBIDDEN_ERROR),
        _ => false,
    }
}

/// Choose YouTube's Android player client by inserting extractor arguments
/// immediately before the URL (the last argument), unless the arguments are
/// empty or already carry extractor arguments.
pub fn with_android_player_client(args: Vec<String>) -> (out: Vec<String>)
    ensures
        out.deep_view() == android_args(args.deep_view()),
{
    proof {
        assert(args.deep_view() =~= views(args@));
    }
    if args.len() == 0 || contains_text(args.as_slice(), EXTRACTOR_ARGS) {
        return args;
    }
    let mut args = args;
    let ghost before = args.deep_view();
    let url = args.pop().unwrap();
    args.push(String::from_str(EXTRACTOR_ARGS));
    args.push(String::from_str(ANDROID_PLAYER_CLIENT));
    args.push(url);
    assert(args.deep_view() =~= before.drop_last() + seq![
        EXTRACTOR_ARGS@,
        ANDROID_PLAYER_CLIENT@,
        before.last(),
    ]);
    args
}

/// Pick the most relevant line from yt-dlp's captured stderr: the last line
/// containing `ERROR`, else the last non-empty line, trimmed; empty when
/// stderr held nothing.
pub fn stderr_tail(lines: &[String]) -> (s: String)
    ensures
        s@ == stderr_summary(lines.deep_view()),
{
    let ghost all = lines.deep_view();
    let n = lines.len();
    let mut i: usize = n;
    assert(all.take(n as int) =~= all);
    while i > 0
        invariant
            n == lines@.len(),
            all == lines.deep_view(),
            i <= n,
            last_error_line(all) == last_error_line(all.take(i as int)),
        decreases i,
    {
        assert(all.take(i as int).drop_last() =~= all.take(i - 1));
        if contains_str(lines[i - 1].as_str(), "ERROR") {
            return String::from_str(trim_str(lines[i - 1].as_str()));
        }
        i = i - 1;
    }
    assert(all.take(0) =~= Seq::<Seq<char>>::empty());
    let mut j: usize = n;
    while j > 0
        invariant
            n == lines@.len(),
            all == lines.deep_view(),
            j <= n,
            last_error_line(all) is None,
            last_nonblank_line(all) == last_nonblank_line(all.take(j as int)),
        decreases j,
    {
        assert(all.take(j as int).drop_last() =~= all.take(j - 1));
        let t = trim_str(lines[j - 1].as_str());
        if t.unicode_len() > 0 {
            return String::from_str(t);
        }
        j = j - 1;
    }
    String::new()
}

/// The error reported when yt-dlp exits with status `status` after printing
/// `stderr_lines` on stderr.
pub fn exit_failure(status: &str, stderr_lines: &[String]) -> (e: DownloadError)
    ensures
        e matches DownloadError::Failed(m) && m@ == exit_failure_text(status@, stderr_lines.deep_view()),
{
    let detail = stderr_tail(stderr_lines);
    let mut m: String;
    if detail.as_str().is_empty() {
        m = String::from_str("yt-dlp exited with non-zero status: ");
        m.append(status);
    } else {
        m = String::from_str("yt-dlp failed (");
        m.append(status);
        m.append("): ");
        m.append(detail.as_str());
    }
    DownloadError::Failed(m)
}

/// What to do after one run of yt-dlp.
#[derive(Debug)]
pub enum DownloadStep {
    /// Run yt-dlp again with these arguments.
    Run(Vec<String>),
    /// The download is over with this result.
    Finish(Result<(), DownloadError>),
}

/// A run that failed in a way that warrants the Android-client retry.
pub open spec fn calls_for_retry(args: Seq<Seq<char>>, result: Result<(), DownloadError>) -> bool {
    result matches Err(e) && retry_wanted(args, e)
}

/// Decide what follows a run of yt-dlp with `args` that ended with
/// `result`: a refused MP3 extraction is run again with the Android player
/// client; anything else ends the download with that result.
pub fn after_attempt(args: Vec<String>, result: Result<(), DownloadError>) -> (step: DownloadStep)
    ensures
        calls_for_retry(args.deep_view(), result) ==> (step matches DownloadStep::Run(a)
            && a.deep_view() == android_args(args.deep_view())),
        !calls_for_retry(args.deep_view(), result) ==> step == DownloadStep::Finish(result),
{
    let retry = match &result {
        Err(e) => should_retry_with_android_client(args.as_slice(), e),
        Ok(()) => false,
    };
    if retry {
        DownloadStep::Run(with_android_player_client(args))
    } else {
        DownloadStep::Finish(result)
    }
}

/// A download runs yt-dlp at most twice: the arguments of a retry never
/// call for another retry, whatever that run returns.
pub proof fn at_most_one_retry(args: Seq<Seq<char>>, first: Result<(), DownloadError>, second: Result<(), DownloadError>)
    requires
        calls_for_retry(args, first),
    ensures
        !calls_for_retry(android_args(args), second),
{
    android_retry_happens_once(args, first->Err_0);
    if second is Err {
        let e = second->Err_0;
        let a = android_args(args);
        assert(a.contains(EXTRACTOR_ARGS@)) by {
            assert(a[args.len() - 1] == EXTRACTOR_ARGS@);
        }
    }
}

/// Injecting the Android client keeps the URL last, adds exactly the two
/// extractor arguments, and leaves nothing that would be retried again:
/// a retried argument vector is never retried a second time.
pub proof fn android_retry_happens_once(args: Seq<Seq<char>>, e: DownloadError)
    requires
        retry_wanted(args, e),
    ensures
        android_args(args).len() == args.len() + 2,
        android_args(args).last() == args.last(),
        android_args(args).subrange(0, args.len() - 1) == args.drop_last(),
        android_args(args)[args.len() - 1] == EXTRACTOR_ARGS@,
        android_args(args)[args.len() as int] == ANDROID_PLAYER_CLIENT@,
        !retry_wanted(android_args(args), e),
        android_args(android_args(args)) == android_args(args),
{
    let out = android_args(args);
    assert(out.subrange(0, args.len() - 1) =~= args.drop_last());
    assert(out[args.len() - 1] == EXTRACTOR_ARGS@);
    assert(out.contains(EXTRACTOR_ARGS@));
}

/// Prepending the ffmpeg location never moves the URL off the end.
pub proof fn ffmpeg_location_keeps_url_last(args: Seq<Seq<char>>, ffmpeg_path: Option<Seq<char>>)
    requires
        args.len() > 0,
    ensures
        ffmpeg_args(args, ffmpeg_path).last() == args.last(),
        ffmpeg_path is Some ==> ffmpeg_args(args, ffmpeg_path).subrange(2, args.len() + 2int) == args,
{
    if ffmpeg_path is Some {
        assert(ffmpeg_args(args, ffmpeg_path).subrange(2, args.len() + 2int) =~= args);
    }
}

} // verus!

verus! {

/// Only a request refused with HTTP 403 is retried: whenever a run calls
/// for the Android-client retry, its error is a download failure whose
/// message reports "HTTP Error 403: Forbidden", its arguments extract MP3
/// audio, and they carry no extractor arguments yet. Any other failure
/// (404, 429, 500, a missing binary, ...) ends the download.
pub proof fn only_forbidden_mp3_failures_are_retried(args: Seq<Seq<char>>, result: Result<(), DownloadError>)
    requires
        calls_for_retry(args, result),
    ensures
        result matches Err(DownloadError::Failed(m)) && has_substring(m@, "HTTP Error 403: Forbidden"@),
        args.contains("--extract-audio"@),
        exists|i: int| 0 <= i < args.len() - 1 && #[trigger] args[i] == "--audio-format"@ && args[i + 1] == "mp3"@,
        !args.contains("--extractor-args"@),
{
    let i = choose|i: int| 0 <= i < args.len() - 1 && #[trigger] mp3_format_at(args, i);
    assert(args[i] == "--audio-format"@ && args[i + 1] == "mp3"@);
}

} // verus!
