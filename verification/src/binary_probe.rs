//! Naming and version checks of the external binaries (yt-dlp, ffmpeg).

use crate::download_service::DownloadError;
use crate::text::{first_line, first_line_of, same_text, trim, trim_str};
use vstd::prelude::*;

verus! {

/// The file name of binary `name` on the platform (`.exe` appended on
/// Windows).
pub open spec fn platform_file_name(name: Seq<char>, on_windows: bool) -> Seq<char> {
    if on_windows {
        name + ".exe"@
    } else {
        name
    }
}

/// The environment variable that overrides the path of a well-known binary.
pub open spec fn env_var_name(name: Seq<char>) -> Seq<char> {
    if name == "yt-dlp"@ {
        "YT_DLP_PATH"@
    } else if name == "ffmpeg"@ {
        "FFMPEG_PATH"@
    } else {
        ""@
    }
}

/// The flag that makes a well-known binary print its version.
pub open spec fn version_flag_text(name: Seq<char>) -> Seq<char> {
    if name == "yt-dlp"@ {
        "--version"@
    } else if name == "ffmpeg"@ {
        "-version"@
    } else {
        "--version"@
    }
}

/// The first line of `s`, trimmed (empty when `s` is).
pub open spec fn first_line_trimmed(s: Seq<char>) -> Seq<char> {
    match first_line(s) {
        Some(l) => trim(l),
        None => Seq::empty(),
    }
}

/// What a version check reports for a binary that exited with `exited_ok`
/// and status text `status` after printing `stdout`.
pub open spec fn version_outcome(
    name: Seq<char>,
    exited_ok: bool,
    status: Seq<char>,
    stdout: Seq<char>,
    res: Result<String, DownloadError>,
) -> bool {
    if !exited_ok {
        res matches Err(DownloadError::BinaryNotFound(m)) && m@ == name + ": exited with "@ + status
    } else if first_line_trimmed(stdout).len() == 0 {
        res matches Err(DownloadError::BinaryNotFound(m)) && m@ == name
            + ": --version produced no output"@
    } else {
        res matches Ok(v) && v@ == first_line_trimmed(stdout)
    }
}

/// The file name of binary `name` on the target platform: `name.exe` on
/// Windows, `name` elsewhere.
pub fn platform_name(name: &str, on_windows: bool) -> (s: String)
    ensures
        s@ == platform_file_name(name@, on_windows),
{
    let mut s = String::from_str(name);
    if on_windows {
        s.append(".exe");
    }
    s
}

/// Maps a well-known binary name to the environment variable that
/// overrides its path ("" for others).
pub fn env_var_for(name: &str) -> (v: &'static str)
    ensures
        v@ == env_var_name(name@),
{
    if same_text(name, "yt-dlp") {
        "YT_DLP_PATH"
    } else if same_text(name, "ffmpeg") {
        "FFMPEG_PATH"
    } else {
        ""
    }
}

/// Maps a well-known binary name to its version flag.
pub fn version_flag(name: &str) -> (f: &'static str)
    ensures
        f@ == version_flag_text(name@),
{
    if same_text(name, "yt-dlp") {
        "--version"
    } else if same_text(name, "ffmpeg") {
        "-version"
    } else {
        "--version"
    }
}

fn no_version_output(binary_name: &str) -> (e: DownloadError)
    ensures
        e matches DownloadError::BinaryNotFound(m) && m@ == binary_name@
            + ": --version produced no output"@,
{
    let mut m = String::from_str(binary_name);
    m.append(": --version produced no output");
    DownloadError::BinaryNotFound(m)
}

/// Checks binary availability by running `<binary> --version`; the process
/// itself is run by the caller, which hands the outcome to
/// `version_from_output`.
pub struct BinaryProbeImpl;

impl BinaryProbeImpl {
    /// Interpret the run of `<binary_name> <version flag>`: a failed exit or
    /// an empty first line means the binary is unusable; otherwise the first
    /// line of stdout, trimmed, is its version.
    pub fn version_from_output(&self, binary_name: &str, exited_ok: bool, status: &str, stdout: &str) -> (res: Result<String, DownloadError>)
        ensures
            version_outcome(binary_name@, exited_ok, status@, stdout@, res),
    {
        if !exited_ok {
            let mut m = String::from_str(binary_name);
            m.append(": exited with ");
            m.append(status);
            return Err(DownloadError::BinaryNotFound(m));
        }
        let first = match first_line_of(stdout) {
            Some(line) => trim_str(line),
            None => {
                return Err(no_version_output(binary_name));
            },
        };
        if first.unicode_len() == 0 {
            return Err(no_version_output(binary_name));
        }
        Ok(String::from_str(first))
    }
}

} // verus!

verus! {

/// The first candidate that exists (`(candidate, exists)` pairs, in order).
pub open spec fn first_existing<T>(candidates: Seq<(T, bool)>) -> Option<T>
    decreases candidates.len(),
{
    if candidates.len() == 0 {
        None
    } else if candidates[0].1 {
        Some(candidates[0].0)
    } else {
        first_existing(candidates.drop_first())
    }
}

/// Where a binary is taken from: the environment variable override if it
/// names an existing file, else the binary next to the executable if it
/// exists, else the first existing candidate along `PATH`.
pub open spec fn resolution<T>(
    env: Option<(T, bool)>,
    beside_exe: Option<(T, bool)>,
    on_path: Seq<(T, bool)>,
) -> Option<T> {
    match env {
        Some((p, true)) => Some(p),
        _ => match beside_exe {
            Some((p, true)) => Some(p),
            _ => first_existing(on_path),
        },
    }
}

proof fn lemma_first_existing_skip<T>(candidates: Seq<(T, bool)>, i: int)
    requires
        0 <= i <= candidates.len(),
        forall|k: int| 0 <= k < i ==> !(#[trigger] candidates[k]).1,
    ensures
        first_existing(candidates) == first_existing(candidates.subrange(i, candidates.len() as int)),
    decreases i,
{
    if i > 0 {
        let rest = candidates.drop_first();
        assert forall|k: int| 0 <= k < i - 1 implies !(#[trigger] rest[k]).1 by {
            assert(rest[k] == candidates[k + 1]);
        }
        lemma_first_existing_skip(rest, i - 1);
        assert(rest.subrange(i - 1, rest.len() as int) =~= candidates.subrange(i, candidates.len() as int));
    } else {
        assert(candidates.subrange(0, candidates.len() as int) =~= candidates);
    }
}

/// Resolve a binary path from the candidates the caller looked up, each
/// paired with whether it names an existing file: the environment variable
/// override, then the binary next to the executable, then each `PATH`
/// directory in order. `None` when no candidate exists.
pub fn resolve_binary<T>(env: Option<(T, bool)>, beside_exe: Option<(T, bool)>, on_path: Vec<(T, bool)>) -> (r: Option<T>)
    ensures
        r == resolution(env, beside_exe, on_path@),
{
    if let Some((p, true)) = env {
        return Some(p);
    }
    if let Some((p, true)) = beside_exe {
        return Some(p);
    }
    let ghost cands = on_path@;
    let n = on_path.len();
    let mut i: usize = 0;
    while i < n && !on_path[i].1
        invariant
            n == on_path@.len(),
            cands == on_path@,
            i <= n,
            forall|k: int| 0 <= k < i ==> !(#[trigger] cands[k]).1,
        decreases n - i,
    {
        i = i + 1;
    }
    proof {
        lemma_first_existing_skip(cands, i as int);
    }
    if i == n {
        assert(cands.subrange(n as int, n as int).len() == 0);
        None
    } else {
        let mut on_path = on_path;
        let (p, _) = on_path.swap_remove(i);
        Some(p)
    }
}

/// The override wins whenever it names an existing file, whatever else
/// exists; a stale override (not a file) is never chosen.
pub proof fn override_precedence<T>(env: (T, bool), beside_exe: Option<(T, bool)>, on_path: Seq<(T, bool)>)
    ensures
        env.1 ==> resolution(Some(env), beside_exe, on_path) == Some(env.0),
        !env.1 ==> resolution(Some(env), beside_exe, on_path) == resolution(None, beside_exe, on_path),
{
}

} // verus!
