//! The binary-availability check run at startup.

use crate::download_service::{download_error_text, DownloadError};
use crate::text::{join_strings, joined, views};
use vstd::prelude::*;

verus! {

/// What the availability check found.
pub struct PreflightResult {
    pub ytdlp_version: Option<String>,
    pub ffmpeg_version: Option<String>,
    pub errors: Vec<String>,
}

/// The version text shown for an optional version.
pub open spec fn version_or_missing(v: Option<String>) -> Seq<char> {
    match v {
        Some(s) => s@,
        None => "not found"@,
    }
}

/// Install hint appended to yt-dlp errors.
pub open spec fn ytdlp_install_hint() -> Seq<char> {
    ". Install: winget install yt-dlp  /  pacman -S yt-dlp"@
}

/// The errors the preflight reports for the outcome of the yt-dlp probe (`None`
/// when its path could not be resolved) and of the ffmpeg check.
pub open spec fn preflight_errors(
    ytdlp: Option<Result<String, DownloadError>>,
    ffmpeg: Result<String, DownloadError>,
) -> Seq<Seq<char>> {
    let first: Seq<Seq<char>> = match ytdlp {
        None => seq!["yt-dlp not found. Install: winget install yt-dlp  /  pacman -S yt-dlp"@],
        Some(Err(e)) => seq!["yt-dlp is not working: "@ + download_error_text(e) + ytdlp_install_hint()],
        Some(Ok(_)) => seq![],
    };
    let second: Seq<Seq<char>> = match ffmpeg {
        Err(_) => seq!["ffmpeg not found. Install: winget install ffmpeg  /  pacman -S ffmpeg"@],
        Ok(_) => seq![],
    };
    first + second
}

impl PreflightResult {
    /// Combine the outcome of the yt-dlp check (`None` when its path could
    /// not be resolved) and of the ffmpeg check: versions where they worked,
    /// an actionable message for each binary that did not.
    pub fn from_checks(ytdlp: Option<Result<String, DownloadError>>, ffmpeg: Result<String, DownloadError>) -> (r: PreflightResult)
        ensures
            views(r.errors@) == preflight_errors(ytdlp, ffmpeg),
            r.ytdlp_version == match ytdlp {
                Some(Ok(v)) => Some(v),
                _ => None::<String>,
            },
            r.ffmpeg_version == match ffmpeg {
                Ok(v) => Some(v),
                _ => None::<String>,
            },
    {
        let ghost expected = preflight_errors(ytdlp, ffmpeg);
        let mut errors: Vec<String> = Vec::new();
        let ytdlp_version = match ytdlp {
            None => {
                errors.push(String::from_str("yt-dlp not found. Install: winget install yt-dlp  /  pacman -S yt-dlp"));
                None
            },
            Some(Err(e)) => {
                let mut m = String::from_str("yt-dlp is not working: ");
                m.append(e.message().as_str());
                m.append(". Install: winget install yt-dlp  /  pacman -S yt-dlp");
                errors.push(m);
                None
            },
            Some(Ok(v)) => Some(v),
        };
        let ffmpeg_version = match ffmpeg {
            Err(_) => {
                errors.push(String::from_str("ffmpeg not found. Install: winget install ffmpeg  /  pacman -S ffmpeg"));
                None
            },
            Ok(v) => Some(v),
        };
        assert(views(errors@) =~= expected);
        PreflightResult { ytdlp_version, ffmpeg_version, errors }
    }

    /// Both binaries are available: no error was recorded.
    pub fn is_ok(&self) -> (b: bool)
        ensures
            b == (self.errors@.len() == 0),
    {
        self.errors.len() == 0
    }

    /// The banner shown when something is missing: the errors joined by
    /// "  |  ".
    pub fn banner_text(&self) -> (s: String)
        ensures
            s@ == joined(views(self.errors@), "  |  "@),
    {
        join_strings(self.errors.as_slice(), "  |  ")
    }

    /// A brief summary of the versions found.
    pub fn version_summary(&self) -> (s: String)
        ensures
            s@ == "yt-dlp: "@ + version_or_missing(self.ytdlp_version) + "  ffmpeg: "@
                + version_or_missing(self.ffmpeg_version),
    {
        let mut s = String::from_str("yt-dlp: ");
        match &self.ytdlp_version {
            Some(v) => s.append(v.as_str()),
            None => s.append("not found"),
        }
        s.append("  ffmpeg: ");
        match &self.ffmpeg_version {
            Some(v) => s.append(v.as_str()),
            None => s.append("not found"),
        }
        s
    }
}

/// The preflight passes exactly when both binaries answered with a version.
pub proof fn preflight_ok_iff_both_found(
    ytdlp: Option<Result<String, DownloadError>>,
    ffmpeg: Result<String, DownloadError>,
)
    ensures
        (preflight_errors(ytdlp, ffmpeg).len() == 0) <==> (ytdlp matches Some(Ok(_)) && ffmpeg is Ok),
{
}

} // verus!
