//! Output formats offered to the user.

use crate::quality::Quality;
use vstd::prelude::*;

verus! {

/// Output format selected by the user.
#[derive(Debug, Clone, Copy, PartialEq, Eq, Structural)]
pub enum Format {
    /// Video with a quality constraint; `Quality::Best` is unconstrained.
    Video { quality: Quality },
    /// Audio extracted and encoded to MP3.
    AudioMp3,
}

/// The format of a job: a video format takes the `selected` quality, the
/// audio format is kept as it is.
pub open spec fn format_with_quality(base: Format, selected: Quality) -> Format {
    match base {
        Format::Video { .. } => Format::Video { quality: selected },
        Format::AudioMp3 => Format::AudioMp3,
    }
}

/// Label shown for a format in the format selector.
pub open spec fn format_label_text(f: Format) -> Seq<char> {
    match f {
        Format::Video { .. } => "Video (highest quality)"@,
        Format::AudioMp3 => "Audio (MP3)"@,
    }
}

/// Build the `Format` of a download job by threading the `selected` quality
/// into a video format; `AudioMp3` passes through unchanged.
pub fn build_format(base: Format, selected: Quality) -> (f: Format)
    ensures
        f == format_with_quality(base, selected),
{
    match base {
        Format::Video { .. } => Format::Video { quality: selected },
        Format::AudioMp3 => Format::AudioMp3,
    }
}

/// The label of a format in the format selector.
pub fn format_label(format: Format) -> (s: &'static str)
    ensures
        s@ == format_label_text(format),
{
    match format {
        Format::Video { .. } => "Video (highest quality)",
        Format::AudioMp3 => "Audio (MP3)",
    }
}

/// The audio format ignores whatever quality is selected, and a video
/// format always carries the selected one.
pub proof fn build_format_respects_kind(base: Format, selected: Quality)
    ensures
        base == Format::AudioMp3 ==> format_with_quality(base, selected) == Format::AudioMp3,
        base is Video ==> format_with_quality(base, selected) == (Format::Video {
            quality: selected,
        }),
{
}

} // verus!
