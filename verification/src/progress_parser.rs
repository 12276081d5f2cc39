//! Classification of the lines that yt-dlp prints on stdout.

use crate::job::Stage;
use crate::text::{
    find_char, first_index_of, starts_with_str, strip_trailing, strip_trailing_char, trim, trim_str,
};
use vstd::prelude::*;

verus! {

/// What a single stdout line of yt-dlp carries.
#[derive(Debug, Clone, PartialEq)]
pub enum LineKind {
    /// A progress update: the percentage (as printed, without `%`), the
    /// speed and the ETA.
    Progress { percent: String, speed: String, eta: String },
    /// A stage transition (`[Merger]` or `[ExtractAudio]` means Processing).
    StageChange(Stage),
    /// Not recognized or irrelevant: callers skip it.
    Ignored,
}

/// The trimmed line announces post-processing.
pub open spec fn is_stage_marker(t: Seq<char>) -> bool {
    "[Merger]"@.is_prefix_of(t) || "[ExtractAudio]"@.is_prefix_of(t)
}

/// `t.splitn(3, '|')` when it yields three parts.
pub open spec fn three_fields(t: Seq<char>) -> Option<(Seq<char>, Seq<char>, Seq<char>)> {
    let a = first_index_of(t, '|');
    if a >= t.len() {
        None
    } else {
        let rest = t.subrange(a + 1, t.len() as int);
        let b = first_index_of(rest, '|');
        if b >= rest.len() {
            None
        } else {
            Some((t.subrange(0, a), rest.subrange(0, b), rest.subrange(b + 1, rest.len() as int)))
        }
    }
}

/// `res` is how `line` is classified: stage markers first, then the
/// pipe-delimited `percent|speed|eta` form, everything else ignored.
pub open spec fn classifies(line: Seq<char>, res: LineKind) -> bool {
    let t = trim(line);
    if is_stage_marker(t) {
        res == LineKind::StageChange(Stage::Processing)
    } else {
        match three_fields(t) {
            None => res == LineKind::Ignored,
            Some((p, s, e)) => match res {
                LineKind::Progress { percent, speed, eta } => percent@ == trim(
                    strip_trailing(p, '%'),
                ) && speed@ == trim(s) && eta@ == trim(e),
                _ => false,
            },
        }
    }
}

/// Classify one line of yt-dlp stdout.
///
/// - lines starting (after trimming) with `[Merger]` or `[ExtractAudio]`
///   mark the Processing stage;
/// - pipe-delimited `percent|speed|eta` lines carry progress, the percent
///   field stripped of trailing `%` and whitespace;
/// - everything else (empty, partial, unrecognized) is ignored.
///
/// Whether the percent field is a number is for the caller to decide.
pub fn classify_line(line: &str) -> (res: LineKind)
    ensures
        classifies(line@, res),
{
    let t = trim_str(line);
    if starts_with_str(t, "[Merger]") || starts_with_str(t, "[ExtractAudio]") {
        return LineKind::StageChange(Stage::Processing);
    }
    let tn = t.unicode_len();
    let a = find_char(t, '|');
    if a >= tn {
        return LineKind::Ignored;
    }
    let rest = t.substring_char(a + 1, tn);
    let rn = rest.unicode_len();
    let b = find_char(rest, '|');
    if b >= rn {
        return LineKind::Ignored;
    }
    let first = t.substring_char(0, a);
    let second = rest.substring_char(0, b);
    let third = rest.substring_char(b + 1, rn);
    let percent = trim_str(strip_trailing_char(first, '%'));
    let speed = trim_str(second);
    let eta = trim_str(third);
    LineKind::Progress {
        percent: percent.to_owned(),
        speed: speed.to_owned(),
        eta: eta.to_owned(),
    }
}

} // verus!
