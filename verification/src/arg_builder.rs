//! The yt-dlp argument vector for a download.

use crate::format::Format;
use crate::media_url::{is_web_text, MediaUrl};
use crate::quality::{height_cap_of, Quality};
use crate::text::{decimal, decimal_string, digit_char};
use vstd::prelude::*;

verus! {

/// yt-dlp progress template: pipe-delimited percent|speed|eta.
pub const PROGRESS_TEMPLATE: &'static str = "%(progress._percent_str)s|%(progress._speed_str)s|%(progress._eta_str)s";

/// The `-f` format selector for a quality level.
pub open spec fn format_selector(q: Quality) -> Seq<char> {
    match q {
        Quality::Best => "bestvideo+bestaudio/best"@,
        _ => {
            let h = decimal(height_cap_of(q) as nat);
            "bestvideo[height<="@ + h + "]+bestaudio/best[height<="@ + h + "]"@
        },
    }
}

/// The format-specific flags: a height-bounded selector and MP4 remux for
/// video, audio extraction to MP3 otherwise.
pub open spec fn format_flags(f: Format) -> Seq<Seq<char>> {
    match f {
        Format::Video { quality } => seq![
            "-f"@,
            format_selector(quality),
            "--merge-output-format"@,
            "mp4"@,
        ],
        Format::AudioMp3 => seq!["--extract-audio"@, "--audio-format"@, "mp3"@],
    }
}

/// The full yt-dlp argument vector for a download: fixed flags, the output
/// template, the format flags, and the URL as the last element.
pub open spec fn download_args(f: Format, url: Seq<char>, output_template: Seq<char>) -> Seq<Seq<char>> {
    seq![
        "--no-playlist"@,
        "--newline"@,
        "--progress-template"@,
        PROGRESS_TEMPLATE@,
        "-o"@,
        output_template,
    ] + format_flags(f) + seq![url]
}

fn owned(s: &str) -> (r: String)
    ensures
        r@ == s@,
{
    String::from_str(s)
}

/// Map a quality level to the yt-dlp `-f` format selector: unconstrained
/// for `Best`, height-bounded by the level's cap otherwise.
pub fn quality_to_format_selector(q: Quality) -> (s: String)
    ensures
        s@ == format_selector(q),
{
    match q {
        Quality::Best => owned("bestvideo+bestaudio/best"),
        other => {
            let h = decimal_string(other.height_cap() as u64);
            let mut s = owned("bestvideo[height<=");
            s.append(h.as_str());
            s.append("]+bestaudio/best[height<=");
            s.append(h.as_str());
            s.append("]");
            s
        },
    }
}

/// Returns `(binary_path, args)`: the executable and the argument vector
/// for downloading `url` in `format` to `output_template`.
///
/// No shell is involved: the URL, an http(s) text, stays one element, the
/// last one.
pub fn build_command(format: Format, url: &MediaUrl, binary_path: &str, output_template: &str) -> (res: (
    String,
    Vec<String>,
))
    ensures
        res.0@ == binary_path@,
        res.1.deep_view() == download_args(format, url@, output_template@),
        is_web_text(url@),
{
    let mut args: Vec<String> = Vec::new();
    args.push(owned("--no-playlist"));
    args.push(owned("--newline"));
    args.push(owned("--progress-template"));
    args.push(owned(PROGRESS_TEMPLATE));
    args.push(owned("-o"));
    args.push(owned(output_template));
    match format {
        Format::Video { quality } => {
            args.push(owned("-f"));
            args.push(quality_to_format_selector(quality));
            args.push(owned("--merge-output-format"));
            args.push(owned("mp4"));
        },
        Format::AudioMp3 => {
            args.push(owned("--extract-audio"));
            args.push(owned("--audio-format"));
            args.push(owned("mp3"));
        },
    }
    let url_text = url.as_str();
    args.push(owned(url_text));
    assert(args.deep_view() =~= download_args(format, url@, output_template@));
    (owned(binary_path), args)
}

/// The yt-dlp argument vector for downloading `url` in `format`; the binary
/// path is not part of it.
pub fn build_args(format: Format, url: &MediaUrl, binary_path: &str, output_template: &str) -> (args: Vec<String>)
    ensures
        args.deep_view() == download_args(format, url@, output_template@),
        is_web_text(url@),
{
    let (_binary, args) = build_command(format, url, binary_path, output_template);
    args
}

/// Every argument vector starts with `--no-playlist`, asks for one progress
/// line per update in the pipe-delimited template, and ends with the URL.
pub proof fn download_args_guarantees(f: Format, url: Seq<char>, output_template: Seq<char>)
    ensures
        download_args(f, url, output_template).len() > 1,
        download_args(f, url, output_template)[0] == "--no-playlist"@,
        download_args(f, url, output_template).contains("--newline"@),
        download_args(f, url, output_template)[2] == "--progress-template"@,
        download_args(f, url, output_template)[3] == PROGRESS_TEMPLATE@,
        download_args(f, url, output_template)[4] == "-o"@,
        download_args(f, url, output_template)[5] == output_template,
        download_args(f, url, output_template).last() == url,
{
    assert(download_args(f, url, output_template)[1] == "--newline"@);
}

/// Video downloads carry the selector of their quality and remux to MP4;
/// MP3 downloads extract audio as MP3; so the two never share a vector.
pub proof fn download_args_by_format(q: Quality, url: Seq<char>, output_template: Seq<char>)
    ensures
        download_args(Format::Video { quality: q }, url, output_template)[6] == "-f"@,
        download_args(Format::Video { quality: q }, url, output_template)[7] == format_selector(q),
        download_args(Format::Video { quality: q }, url, output_template)[8]
            == "--merge-output-format"@,
        download_args(Format::Video { quality: q }, url, output_template)[9] == "mp4"@,
        download_args(Format::AudioMp3, url, output_template)[6] == "--extract-audio"@,
        download_args(Format::AudioMp3, url, output_template)[7] == "--audio-format"@,
        download_args(Format::AudioMp3, url, output_template)[8] == "mp3"@,
        download_args(Format::Video { quality: q }, url, output_template) != download_args(
            Format::AudioMp3,
            url,
            output_template,
        ),
{
    assert(download_args(Format::Video { quality: q }, url, output_template).len() == 11);
    assert(download_args(Format::AudioMp3, url, output_template).len() == 10);
}

} // verus!

verus! {

/// A video vector never asks for audio extraction, and an MP3 vector never
/// carries a format selector or a remux flag (unless the output template
/// itself is such a flag): the URL, always an http(s) text, is never
/// mistaken for one.
pub proof fn download_args_keep_kinds_apart(q: Quality, url: Seq<char>, output_template: Seq<char>)
    requires
        is_web_text(url),
    ensures
        output_template != "--extract-audio"@ ==> !download_args(
            Format::Video { quality: q },
            url,
            output_template,
        ).contains("--extract-audio"@),
        output_template != "-f"@ ==> !download_args(Format::AudioMp3, url, output_template).contains(
            "-f"@,
        ),
        output_template != "--merge-output-format"@ ==> !download_args(
            Format::AudioMp3,
            url,
            output_template,
        ).contains("--merge-output-format"@),
{
    reveal_strlit("--no-playlist");
    reveal_strlit("--newline");
    reveal_strlit("--progress-template");
    reveal_strlit("%(progress._percent_str)s|%(progress._speed_str)s|%(progress._eta_str)s");
    reveal_strlit("-o");
    reveal_strlit("-f");
    reveal_strlit("--merge-output-format");
    reveal_strlit("mp4");
    reveal_strlit("--extract-audio");
    reveal_strlit("--audio-format");
    reveal_strlit("mp3");
    reveal_strlit("bestvideo+bestaudio/best");
    reveal_strlit("bestvideo[height<=");
    reveal_strlit("http:");
    reveal_strlit("https:");
    if "http:"@.is_prefix_of(url) {
        assert(url.subrange(0, 5)[0] == url[0]);
    } else {
        assert(url.subrange(0, 6)[0] == url[0]);
    }
    assert(url[0] == 'h');
    let sel = format_selector(q);
    if q != Quality::Best {
        let h = decimal(height_cap_of(q) as nat);
        let l = "bestvideo[height<="@;
        assert(sel == l + h + "]+bestaudio/best[height<="@ + h + "]"@);
        assert((l + h)[0] == l[0]);
        assert(((l + h) + "]+bestaudio/best[height<="@)[0] == l[0]);
        assert((((l + h) + "]+bestaudio/best[height<="@) + h)[0] == l[0]);
    }
    assert(sel[0] == 'b');
    let v = download_args(Format::Video { quality: q }, url, output_template);
    let a = download_args(Format::AudioMp3, url, output_template);
    if output_template != "--extract-audio"@ {
        assert forall|i: int| 0 <= i < v.len() implies v[i] != "--extract-audio"@ by {
            if i == 0 { assert(v[i][2] != "--extract-audio"@[2]); }
            if i == 1 { assert(v[i][2] != "--extract-audio"@[2]); }
            if i == 2 { assert(v[i][2] != "--extract-audio"@[2]); }
            if i == 3 { assert(v[i][0] != "--extract-audio"@[0]); }
            if i == 4 { assert(v[i][1] != "--extract-audio"@[1]); }
            if i == 6 { assert(v[i][1] != "--extract-audio"@[1]); }
            if i == 7 { assert(v[i][0] != "--extract-audio"@[0]); }
            if i == 8 { assert(v[i][2] != "--extract-audio"@[2]); }
            if i == 9 { assert(v[i][0] != "--extract-audio"@[0]); }
            if i == 10 { assert(v[i][0] != "--extract-audio"@[0]); }
        }
    }
    if output_template != "-f"@ {
        assert forall|i: int| 0 <= i < a.len() implies a[i] != "-f"@ by {
            if i != 5 && i != 9 {
                assert(a[i].len() != 2 || a[i][1] != 'f');
            }
            if i == 9 { assert(a[i][0] != "-f"@[0]); }
        }
    }
    if output_template != "--merge-output-format"@ {
        assert forall|i: int| 0 <= i < a.len() implies a[i] != "--merge-output-format"@ by {
            if i == 9 { assert(a[i][0] != "--merge-output-format"@[0]); }
            if i == 3 { assert(a[i][0] != "--merge-output-format"@[0]); }
            if i != 5 && i != 9 && i != 3 {
                assert(a[i].len() != "--merge-output-format"@.len());
            }
        }
    }
}

} // verus!

verus! {

proof fn digit_char_injective(a: int, b: int)
    requires
        0 <= a < 10,
        0 <= b < 10,
        digit_char(a) == digit_char(b),
    ensures
        a == b,
{
}

/// Different numbers have different decimal texts.
proof fn decimal_injective(n: nat, m: nat)
    requires
        decimal(n) == decimal(m),
    ensures
        n == m,
    decreases n,
{
    if n < 10 && m < 10 {
        assert(decimal(n) == seq![digit_char(n as int)]);
        assert(decimal(m) == seq![digit_char(m as int)]);
        assert(decimal(n)[0] == digit_char(n as int));
        assert(decimal(m)[0] == digit_char(m as int));
        digit_char_injective(n as int, m as int);
    } else if n < 10 {
        lemma_decimal_nonempty((m / 10) as nat);
        assert(decimal(m).len() >= 2);
    } else if m < 10 {
        lemma_decimal_nonempty((n / 10) as nat);
        assert(decimal(n).len() >= 2);
    } else {
        let dn = decimal((n / 10) as nat);
        let dm = decimal((m / 10) as nat);
        assert(decimal(n) == dn.push(digit_char((n % 10) as int)));
        assert(decimal(m) == dm.push(digit_char((m % 10) as int)));
        assert(decimal(n).last() == digit_char((n % 10) as int));
        assert(decimal(m).last() == digit_char((m % 10) as int));
        digit_char_injective((n % 10) as int, (m % 10) as int);
        assert(decimal(n).drop_last() =~= dn);
        assert(decimal(m).drop_last() =~= dm);
        decimal_injective((n / 10) as nat, (m / 10) as nat);
    }
}

proof fn lemma_decimal_nonempty(n: nat)
    ensures
        decimal(n).len() >= 1,
    decreases n,
{
    if n >= 10 {
        lemma_decimal_nonempty((n / 10) as nat);
    }
}

/// Each quality level has its own format selector, and only `Best` leaves
/// the height unbounded: a video download always asks for the level that
/// was selected.
pub proof fn format_selector_is_injective(a: Quality, b: Quality)
    ensures
        format_selector(a) == format_selector(b) ==> a == b,
        a != Quality::Best ==> "bestvideo[height<="@.is_prefix_of(format_selector(a)),
        !"bestvideo[height<="@.is_prefix_of(format_selector(Quality::Best)),
{
    reveal_strlit("bestvideo[height<=");
    reveal_strlit("bestvideo+bestaudio/best");
    reveal_strlit("]+bestaudio/best[height<=");
    reveal_strlit("]");
    let l = "bestvideo[height<="@;
    let m = "]+bestaudio/best[height<="@;
    let r = "]"@;
    assert(l.len() == 18);
    assert(format_selector(Quality::Best)[9] == '+');
    assert(l[9] == '[');
    if a != Quality::Best {
        let ha = decimal(height_cap_of(a) as nat);
        assert(format_selector(a) == l + ha + m + ha + r);
        assert((l + ha + m + ha + r).subrange(0, 18) =~= l);
    }
    if format_selector(a) == format_selector(b) && a != b {
        if a == Quality::Best || b == Quality::Best {
            let q = if a == Quality::Best { b } else { a };
            let h = decimal(height_cap_of(q) as nat);
            assert((l + h + m + h + r)[9] == l[9]);
        } else {
            let ha = decimal(height_cap_of(a) as nat);
            let hb = decimal(height_cap_of(b) as nat);
            let sa = l + ha + m + ha + r;
            let sb = l + hb + m + hb + r;
            assert(sa == sb);
            assert(sa.len() == 18 + 2 * ha.len() + m.len() + 1);
            assert(sb.len() == 18 + 2 * hb.len() + m.len() + 1);
            assert(ha.len() == hb.len());
            assert(sa.subrange(18, 18 + ha.len() as int) =~= ha);
            assert(sb.subrange(18, 18 + hb.len() as int) =~= hb);
            decimal_injective(height_cap_of(a) as nat, height_cap_of(b) as nat);
        }
    }
}

/// Two video downloads of the same URL to the same template run the same
/// command only when they ask for the same quality level: the selected
/// level is never replaced by another, `Best` included.
pub proof fn video_args_keep_the_selected_quality(q1: Quality, q2: Quality, url: Seq<char>, output_template: Seq<char>)
    ensures
        download_args(Format::Video { quality: q1 }, url, output_template) == download_args(
            Format::Video { quality: q2 },
            url,
            output_template,
        ) ==> q1 == q2,
{
    let a1 = download_args(Format::Video { quality: q1 }, url, output_template);
    let a2 = download_args(Format::Video { quality: q2 }, url, output_template);
    assert(a1[7] == format_selector(q1));
    assert(a2[7] == format_selector(q2));
    format_selector_is_injective(q1, q2);
}

} // verus!
