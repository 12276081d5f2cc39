//! Metadata probing: the yt-dlp arguments, and the decoding and reading of
//! its JSON.

use crate::json::{
    array_field, decode_json, json_field, number_text, number_text_field, parsed_json, text_field,
    text_value, unsigned_field, unsigned_value, decoded_view, Json,
};
use crate::media_url::{opt_view, MediaUrl};
use crate::ports::ProbeError;
use crate::quality::{quality_for_height, rank, Quality};
use crate::text::{first_line, first_line_of, same_text};
use vstd::prelude::*;

verus! {

/// Adapter configuration for probing a media URL with `yt-dlp --no-playlist -J`.
pub struct YtDlpProbe {
    binary_path: std::path::PathBuf,
}

impl YtDlpProbe {
    /// The yt-dlp executable to run.
    pub closed spec fn spec_binary_path(&self) -> std::path::PathBuf {
        self.binary_path
    }

    /// Construct a probe adapter using the given binary path.
    pub fn new(binary_path: std::path::PathBuf) -> (p: Self)
        ensures
            p.spec_binary_path() == binary_path,
    {
        YtDlpProbe { binary_path }
    }

    /// The yt-dlp executable to run.
    pub fn binary_path(&self) -> (p: &std::path::PathBuf)
        ensures
            *p == self.spec_binary_path(),
    {
        &self.binary_path
    }
}

/// One entry of the `formats` array of yt-dlp's JSON, as far as it is read:
/// `vcodec` and `height` when they are a string and an unsigned integer.
#[derive(Debug, Clone)]
pub struct FormatEntry {
    pub vcodec: Option<String>,
    pub height: Option<u64>,
}

/// One entry of the `thumbnails` array: `url` and `width` when they are a
/// string and an unsigned integer.
#[derive(Debug, Clone)]
pub struct ThumbnailEntry {
    pub url: Option<String>,
    pub width: Option<u64>,
}

/// The fields of yt-dlp's JSON that the probe reads: each is present when
/// the JSON holds it with the expected type.
#[derive(Debug, Clone)]
pub struct ProbeDocument {
    /// `_type` (a playlist says "playlist").
    pub kind: Option<String>,
    pub title: Option<String>,
    pub thumbnail: Option<String>,
    pub thumbnails: Option<Vec<ThumbnailEntry>>,
    pub uploader: Option<String>,
    pub formats: Option<Vec<FormatEntry>>,
    /// The text of the `duration` number (seconds).
    pub duration: Option<String>,
}

/// The model of a format entry.
pub struct FormatView {
    pub vcodec: Option<Seq<char>>,
    pub height: Option<u64>,
}

/// The model of a thumbnail entry.
pub struct ThumbnailView {
    pub url: Option<Seq<char>>,
    pub width: Option<u64>,
}

/// The model of a probe document.
pub struct DocView {
    pub kind: Option<Seq<char>>,
    pub title: Option<Seq<char>>,
    pub thumbnail: Option<Seq<char>>,
    pub thumbnails: Option<Seq<ThumbnailView>>,
    pub uploader: Option<Seq<char>>,
    pub formats: Option<Seq<FormatView>>,
    pub duration: Option<Seq<char>>,
}

impl View for FormatEntry {
    type V = FormatView;

    open spec fn view(&self) -> FormatView {
        FormatView { vcodec: opt_view(self.vcodec), height: self.height }
    }
}

impl View for ThumbnailEntry {
    type V = ThumbnailView;

    open spec fn view(&self) -> ThumbnailView {
        ThumbnailView { url: opt_view(self.url), width: self.width }
    }
}

/// The models of format entries.
pub open spec fn format_views(v: Seq<FormatEntry>) -> Seq<FormatView> {
    v.map_values(|f: FormatEntry| f@)
}

/// The models of thumbnail entries.
pub open spec fn thumbnail_views(v: Seq<ThumbnailEntry>) -> Seq<ThumbnailView> {
    v.map_values(|t: ThumbnailEntry| t@)
}

impl View for ProbeDocument {
    type V = DocView;

    open spec fn view(&self) -> DocView {
        DocView {
            kind: opt_view(self.kind),
            title: opt_view(self.title),
            thumbnail: opt_view(self.thumbnail),
            thumbnails: match self.thumbnails {
                Some(v) => Some(thumbnail_views(v@)),
                None => None,
            },
            uploader: opt_view(self.uploader),
            formats: match self.formats {
                Some(v) => Some(format_views(v@)),
                None => None,
            },
            duration: opt_view(self.duration),
        }
    }
}

/// What the probe reads of one item of a `formats` array.
pub open spec fn json_format(item: Json) -> FormatView {
    FormatView {
        vcodec: text_value(json_field(item, "vcodec"@)),
        height: unsigned_value(json_field(item, "height"@)),
    }
}

/// What the probe reads of one item of a `thumbnails` array.
pub open spec fn json_thumbnail(item: Json) -> ThumbnailView {
    ThumbnailView {
        url: text_value(json_field(item, "url"@)),
        width: unsigned_value(json_field(item, "width"@)),
    }
}

/// What the probe reads of the items of a `formats` array.
pub open spec fn json_formats(items: Seq<Json>) -> Seq<FormatView> {
    items.map_values(|item: Json| json_format(item))
}

/// What the probe reads of the items of a `thumbnails` array.
pub open spec fn json_thumbnails(items: Seq<Json>) -> Seq<ThumbnailView> {
    items.map_values(|item: Json| json_thumbnail(item))
}

/// The document yt-dlp's JSON `value` describes: each field read with
/// `value[key]` and the expected type.
pub open spec fn json_document(value: Json) -> DocView {
    DocView {
        kind: text_value(json_field(value, "_type"@)),
        title: text_value(json_field(value, "title"@)),
        thumbnail: text_value(json_field(value, "thumbnail"@)),
        thumbnails: match json_field(value, "thumbnails"@) {
            Some(Json::Array(items)) => Some(json_thumbnails(items@)),
            _ => None,
        },
        uploader: text_value(json_field(value, "uploader"@)),
        formats: match json_field(value, "formats"@) {
            Some(Json::Array(items)) => Some(json_formats(items@)),
            _ => None,
        },
        duration: number_text(json_field(value, "duration"@)),
    }
}

/// Metadata of a media URL, derived from yt-dlp's JSON.
#[derive(Debug, Clone)]
pub struct MediaInfo {
    pub title: String,
    /// Direct URL of the thumbnail image, if available.
    pub thumbnail_url: Option<String>,
    /// Duration in seconds, as the JSON number's text, if available.
    pub duration_text: Option<String>,
    /// Uploader or channel name, if available.
    pub uploader: Option<String>,
    /// Video quality levels, sorted descending and without repetition.
    pub available_qualities: Vec<Quality>,
}

/// The yt-dlp arguments for a metadata probe of `url`.
pub open spec fn probe_args(url: Seq<char>) -> Seq<Seq<char>> {
    seq!["--no-playlist"@, "-J"@, url]
}

/// A format entry describes a video stream (its codec is not "none") of
/// known height.
pub open spec fn is_video_format(f: FormatView) -> bool {
    &&& f.vcodec matches Some(v) && v != "none"@
    &&& f.height is Some
}

/// The quality level of a video format entry.
pub open spec fn format_quality(f: FormatView) -> Quality {
    quality_for_height((f.height->Some_0 as u32) as int)
}

/// Some video format of `formats` has quality `q`.
pub open spec fn offers_quality(formats: Seq<FormatView>, q: Quality) -> bool {
    exists|i: int| 0 <= i < formats.len() && is_video_format(formats[i]) && #[trigger] format_quality(formats[i]) == q
}

/// The qualities offered by a document: those of its video formats.
pub open spec fn document_offers(doc: DocView, q: Quality) -> bool {
    match doc.formats {
        Some(v) => offers_quality(v, q),
        None => false,
    }
}

/// `res` lists the qualities `doc` offers, each once, sorted descending.
pub open spec fn lists_offered_qualities(doc: DocView, res: Seq<Quality>) -> bool {
    &&& forall|i: int, j: int| 0 <= i < j < res.len() ==> rank(res[i]) > rank(res[j])
    &&& forall|q: Quality| res.contains(q) <==> document_offers(doc, q)
}

/// The widest thumbnail with a URL, as `(width, url)` (width 0 when
/// unknown); among equally wide ones the last.
pub open spec fn widest_thumbnail(entries: Seq<ThumbnailView>) -> Option<(u64, Seq<char>)>
    decreases entries.len(),
{
    if entries.len() == 0 {
        None
    } else {
        let rest = widest_thumbnail(entries.drop_last());
        let e = entries.last();
        match e.url {
            None => rest,
            Some(u) => {
                let w = match e.width {
                    Some(w) => w,
                    None => 0,
                };
                match rest {
                    Some((bw, _)) => if w >= bw {
                        Some((w, u))
                    } else {
                        rest
                    },
                    None => Some((w, u)),
                }
            },
        }
    }
}

/// The thumbnail URL of a document: the widest of `thumbnails`, else the
/// top-level `thumbnail`.
pub open spec fn document_thumbnail(doc: DocView) -> Option<Seq<char>> {
    match doc.thumbnails {
        Some(v) => match widest_thumbnail(v) {
            Some((_, u)) => Some(u),
            None => doc.thumbnail,
        },
        None => doc.thumbnail,
    }
}

/// The document describes a playlist.
pub open spec fn is_playlist(doc: DocView) -> bool {
    doc.kind == Some("playlist"@)
}

/// `res` is what reading `doc` must give: a playlist or a document without
/// title fails, anything else maps field by field.
pub open spec fn reads_document(doc: DocView, res: Result<MediaInfo, ProbeError>) -> bool {
    if is_playlist(doc) {
        res matches Err(ProbeError::Failed(m)) && m@ == "URL is a playlist; probe a single video"@
    } else if doc.title is None {
        res matches Err(ProbeError::Failed(m)) && m@ == "missing 'title' in yt-dlp JSON"@
    } else {
        res matches Ok(info) && info.title@ == doc.title->Some_0 && opt_view(info.thumbnail_url)
            == document_thumbnail(doc) && opt_view(info.duration_text) == doc.duration
            && opt_view(info.uploader) == doc.uploader
            && lists_offered_qualities(doc, info.available_qualities@)
    }
}

/// `res` is what the probe gives for the decoded stdout of a successful
/// yt-dlp run: undecodable output fails, a JSON value is read as a
/// document.
pub open spec fn reads_output(decoded: Result<Json, Seq<char>>, res: Result<MediaInfo, ProbeError>) -> bool {
    match decoded {
        Err(e) => res matches Err(ProbeError::Failed(m)) && m@ == "invalid JSON from yt-dlp: "@ + e,
        Ok(value) => reads_document(json_document(value), res),
    }
}

/// Reading a document never reports `Unsupported`: every error is a
/// failure, and a document is refused exactly when it is a playlist or has
/// no string title.
pub proof fn document_errors_are_failures(doc: DocView, res: Result<MediaInfo, ProbeError>)
    requires
        reads_document(doc, res),
    ensures
        res is Err <==> (is_playlist(doc) || doc.title is None),
        res matches Err(e) ==> e is Failed,
{
}

/// The message of a probe whose yt-dlp run exited with status `status`:
/// the first line of its stderr, or "no output".
pub open spec fn probe_failure_text(status: Seq<char>, stderr: Seq<char>) -> Seq<char> {
    "yt-dlp exited with "@ + status + ": "@ + match first_line(stderr) {
        Some(l) => l,
        None => "no output"@,
    }
}

/// The error of a probe whose yt-dlp run exited unsuccessfully.
pub fn probe_failure(status: &str, stderr: &str) -> (e: ProbeError)
    ensures
        e matches ProbeError::Failed(m) && m@ == probe_failure_text(status@, stderr@),
{
    let mut m = String::from_str("yt-dlp exited with ");
    m.append(status);
    m.append(": ");
    match first_line_of(stderr) {
        Some(line) => m.append(line),
        None => m.append("no output"),
    }
    ProbeError::Failed(m)
}

/// The arguments of a metadata probe: `--no-playlist` (a URL with a
/// `list=` component would otherwise dump the whole playlist), `-J`, and
/// the URL last.
pub fn build_probe_args(url: &MediaUrl) -> (args: Vec<String>)
    ensures
        args.deep_view() == probe_args(url@),
{
    let mut args: Vec<String> = Vec::new();
    args.push(String::from_str("--no-playlist"));
    args.push(String::from_str("-J"));
    args.push(String::from_str(url.as_str()));
    assert(args.deep_view() =~= probe_args(url@));
    args
}

fn copy_opt(o: &Option<String>) -> (r: Option<String>)
    ensures
        opt_view(r) == opt_view(*o),
{
    match o {
        Some(s) => Some(String::from_str(s.as_str())),
        None => None,
    }
}

fn is_video_entry(f: &FormatEntry) -> (b: bool)
    ensures
        b == is_video_format(f@),
{
    match (&f.vcodec, f.height) {
        (Some(v), Some(_)) => !same_text(v.as_str(), "none"),
        _ => false,
    }
}

/// Whether some video format of `formats` has quality `q`.
fn has_video_quality(formats: &Vec<FormatEntry>, q: Quality) -> (b: bool)
    ensures
        b == offers_quality(format_views(formats@), q),
{
    let ghost views = format_views(formats@);
    let n = formats.len();
    for i in 0..n
        invariant
            n == formats@.len(),
            views == format_views(formats@),
            forall|k: int| 0 <= k < i ==> !(is_video_format(views[k]) && #[trigger] format_quality(views[k]) == q),
    {
        let f = &formats[i];
        assert(views[i as int] == f@);
        if is_video_entry(f) {
            let h = match f.height {
                Some(h) => h,
                None => 0,
            };
            if Quality::from_height(h as u32) == q {
                assert(is_video_format(views[i as int]) && format_quality(views[i as int]) == q);
                return true;
            }
        }
    }
    false
}

/// Index of a bounded level in the descending order of bounded levels
/// (6 for `Best`, which no height maps to).
spec fn bounded_position(q: Quality) -> int {
    match q {
        Quality::P2160 => 0,
        Quality::P1440 => 1,
        Quality::P1080 => 2,
        Quality::P720 => 3,
        Quality::P480 => 4,
        Quality::P360 => 5,
        Quality::Best => 6,
    }
}

/// The quality levels offered by `doc`, sorted descending, each once.
fn offered_qualities(doc: &ProbeDocument) -> (res: Vec<Quality>)
    ensures
        lists_offered_qualities(doc@, res@),
{
    let mut res: Vec<Quality> = Vec::new();
    match &doc.formats {
        None => {
            assert(res@.len() == 0);
            res
        },
        Some(formats) => {
            let ghost views = format_views(formats@);
            let order: [Quality; 6] = [
                Quality::P2160,
                Quality::P1440,
                Quality::P1080,
                Quality::P720,
                Quality::P480,
                Quality::P360,
            ];
            for i in 0..6
                invariant
                    doc@.formats == Some(views),
                    views == format_views(formats@),
                    order@ == seq![
                        Quality::P2160,
                        Quality::P1440,
                        Quality::P1080,
                        Quality::P720,
                        Quality::P480,
                        Quality::P360,
                    ],
                    forall|a: int, b: int| 0 <= a < b < res@.len() ==> rank(res@[a]) > rank(res@[b]),
                    forall|k: int| 0 <= k < res@.len() ==> bounded_position(#[trigger] res@[k]) < i,
                    forall|q: Quality|
                        res@.contains(q) <==> bounded_position(q) < i && offers_quality(views, q),
            {
                let q = order[i];
                assert(bounded_position(q) == i);
                if has_video_quality(formats, q) {
                    let ghost before = res@;
                    res.push(q);
                    assert forall|qq: Quality|
                        res@.contains(qq) <==> bounded_position(qq) < i + 1 && offers_quality(
                            views,
                            qq,
                        ) by {
                        if res@.contains(qq) && qq != q {
                            let k = choose|k: int| 0 <= k < res@.len() && res@[k] == qq;
                            assert(before[k] == qq);
                        }
                        if bounded_position(qq) < i + 1 && offers_quality(views, qq) {
                            if qq == q {
                                assert(res@[res@.len() - 1] == qq);
                            } else {
                                assert(before.contains(qq));
                                let m = choose|m: int| 0 <= m < before.len() && before[m] == qq;
                                assert(res@[m] == qq);
                            }
                        }
                    }
                } else {
                    assert forall|qq: Quality|
                        res@.contains(qq) <==> bounded_position(qq) < i + 1 && offers_quality(
                            views,
                            qq,
                        ) by {
                        if bounded_position(qq) == i {
                            assert(qq == q);
                        }
                    }
                }
            }
            assert forall|q: Quality| res@.contains(q) <==> document_offers(doc@, q) by {
                if offers_quality(views, q) {
                    let k = choose|k: int|
                        0 <= k < views.len() && is_video_format(views[k]) && #[trigger] format_quality(
                            views[k],
                        ) == q;
                    assert(q != Quality::Best);
                }
            }
            res
        },
    }
}

/// The widest thumbnail of `entries` that has a URL (the last of the
/// widest ones), with its width.
fn widest_of(entries: &Vec<ThumbnailEntry>) -> (res: Option<(u64, String)>)
    ensures
        match res {
            Some((w, u)) => widest_thumbnail(thumbnail_views(entries@)) == Some((w, u@)),
            None => widest_thumbnail(thumbnail_views(entries@)) is None,
        },
{
    let ghost views = thumbnail_views(entries@);
    let mut best: Option<(u64, String)> = None;
    let n = entries.len();
    for i in 0..n
        invariant
            n == entries@.len(),
            views == thumbnail_views(entries@),
            match best {
                Some((w, u)) => widest_thumbnail(views.take(i as int)) == Some((w, u@)),
                None => widest_thumbnail(views.take(i as int)) is None,
            },
    {
        assert(views.take(i + 1).drop_last() =~= views.take(i as int));
        let e = &entries[i];
        assert(views.take(i + 1).last() == e@);
        match &e.url {
            None => {},
            Some(u) => {
                let w = match e.width {
                    Some(w) => w,
                    None => 0,
                };
                let replace = match &best {
                    Some((bw, _)) => w >= *bw,
                    None => true,
                };
                if replace {
                    best = Some((w, String::from_str(u.as_str())));
                }
            },
        }
    }
    assert(views.take(n as int) =~= views);
    best
}

/// The thumbnail URL of `doc`: the widest entry of `thumbnails` that has a
/// URL, falling back to the top-level `thumbnail` field.
pub fn best_thumbnail_url(doc: &ProbeDocument) -> (res: Option<String>)
    ensures
        opt_view(res) == document_thumbnail(doc@),
{
    if let Some(entries) = &doc.thumbnails {
        if let Some((_, url)) = widest_of(entries) {
            return Some(url);
        }
    }
    copy_opt(&doc.thumbnail)
}

/// The format entries of the items of a `formats` array.
fn format_entries(items: &Vec<Json>) -> (res: Vec<FormatEntry>)
    ensures
        format_views(res@) == json_formats(items@),
{
    let mut res: Vec<FormatEntry> = Vec::new();
    let n = items.len();
    for i in 0..n
        invariant
            n == items@.len(),
            res@.len() == i,
            forall|k: int| 0 <= k < i ==> #[trigger] res@[k]@ == json_format(items@[k]),
    {
        let item = &items[i];
        res.push(FormatEntry { vcodec: text_field(item, "vcodec"), height: unsigned_field(item, "height") });
    }
    assert(format_views(res@) =~= json_formats(items@));
    res
}

/// The thumbnail entries of the items of a `thumbnails` array.
fn thumbnail_entries(items: &Vec<Json>) -> (res: Vec<ThumbnailEntry>)
    ensures
        thumbnail_views(res@) == json_thumbnails(items@),
{
    let mut res: Vec<ThumbnailEntry> = Vec::new();
    let n = items.len();
    for i in 0..n
        invariant
            n == items@.len(),
            res@.len() == i,
            forall|k: int| 0 <= k < i ==> #[trigger] res@[k]@ == json_thumbnail(items@[k]),
    {
        let item = &items[i];
        res.push(ThumbnailEntry { url: text_field(item, "url"), width: unsigned_field(item, "width") });
    }
    assert(thumbnail_views(res@) =~= json_thumbnails(items@));
    res
}

/// The fields of yt-dlp's JSON `value` that the probe reads.
pub fn document_from_json(value: &Json) -> (doc: ProbeDocument)
    ensures
        doc@ == json_document(*value),
{
    let thumbnails = match array_field(value, "thumbnails") {
        Some(items) => Some(thumbnail_entries(items)),
        None => None,
    };
    let formats = match array_field(value, "formats") {
        Some(items) => Some(format_entries(items)),
        None => None,
    };
    ProbeDocument {
        kind: text_field(value, "_type"),
        title: text_field(value, "title"),
        thumbnail: text_field(value, "thumbnail"),
        thumbnails,
        uploader: text_field(value, "uploader"),
        formats,
        duration: number_text_field(value, "duration"),
    }
}

/// Read a probe document into `MediaInfo`.
fn read_document(doc: &ProbeDocument) -> (res: Result<MediaInfo, ProbeError>)
    ensures
        reads_document(doc@, res),
{
    if let Some(kind) = &doc.kind {
        if same_text(kind.as_str(), "playlist") {
            return Err(ProbeError::Failed(String::from_str("URL is a playlist; probe a single video")));
        }
    }
    let title = match &doc.title {
        Some(t) => String::from_str(t.as_str()),
        None => {
            return Err(ProbeError::Failed(String::from_str("missing 'title' in yt-dlp JSON")));
        },
    };
    let thumbnail_url = best_thumbnail_url(doc);
    let duration_text = copy_opt(&doc.duration);
    let uploader = copy_opt(&doc.uploader);
    let available_qualities = offered_qualities(doc);
    Ok(MediaInfo { title, thumbnail_url, duration_text, uploader, available_qualities })
}

/// Read yt-dlp's JSON into `MediaInfo`.
///
/// A playlist is refused as a failure (probe a single video); a missing
/// title is an error; missing optional fields become `None`. The available
/// qualities come from the `formats` entries whose `vcodec` is not "none"
/// and whose `height` is known, sorted descending without repetition.
pub fn parse_probe_json(value: &Json) -> (res: Result<MediaInfo, ProbeError>)
    ensures
        reads_document(json_document(*value), res),
{
    let doc = document_from_json(value);
    read_document(&doc)
}

/// Read the decoded stdout of a successful yt-dlp run.
pub fn read_probe_output(decoded: Result<Json, String>) -> (res: Result<MediaInfo, ProbeError>)
    ensures
        reads_output(decoded_view(decoded), res),
{
    match decoded {
        Err(e) => {
            let mut m = String::from_str("invalid JSON from yt-dlp: ");
            m.append(e.as_str());
            Err(ProbeError::Failed(m))
        },
        Ok(value) => parse_probe_json(&value),
    }
}

/// The outcome of a metadata probe from what its yt-dlp run gave: a run
/// that exited unsuccessfully fails with the first line of its stderr;
/// otherwise stdout is decoded as JSON and read.
pub fn probe_outcome(exited_ok: bool, status: &str, stderr: &str, stdout: &[u8]) -> (res: Result<MediaInfo, ProbeError>)
    ensures
        !exited_ok ==> (res matches Err(ProbeError::Failed(m)) && m@ == probe_failure_text(status@, stderr@)),
        exited_ok ==> reads_output(parsed_json(stdout@), res),
{
    if !exited_ok {
        return Err(probe_failure(status, stderr));
    }
    read_probe_output(decode_json(stdout))
}

} // verus!

verus! {

/// The quality levels a successful reading offers are exactly those of the
/// document's video streams: a level is offered if and only if some format
/// entry has a `vcodec` string other than "none" and a known height in
/// that level's bucket. An entry without `vcodec` is never a video stream.
pub proof fn offered_levels_are_those_of_video_streams(doc: DocView, res: Result<MediaInfo, ProbeError>, q: Quality)
    requires
        reads_document(doc, res),
        res is Ok,
    ensures
        res->Ok_0.available_qualities@.contains(q) <==> (doc.formats is Some && exists|i: int|
            0 <= i < doc.formats->Some_0.len() && {
                let f = #[trigger] doc.formats->Some_0[i];
                f.vcodec is Some && f.vcodec->Some_0 != "none"@ && f.height is Some
                    && quality_for_height((f.height->Some_0 as u32) as int) == q
            }),
{
    if let Some(fs) = doc.formats {
        if offers_quality(fs, q) {
            let i = choose|i: int| 0 <= i < fs.len() && is_video_format(fs[i]) && #[trigger] format_quality(fs[i]) == q;
            assert(fs[i].vcodec is Some && fs[i].vcodec->Some_0 != "none"@);
        }
        if exists|i: int|
            0 <= i < fs.len() && (#[trigger] fs[i]).vcodec is Some && fs[i].vcodec->Some_0 != "none"@
                && fs[i].height is Some && quality_for_height((fs[i].height->Some_0 as u32) as int) == q {
            let i = choose|i: int|
                0 <= i < fs.len() && (#[trigger] fs[i]).vcodec is Some && fs[i].vcodec->Some_0 != "none"@
                    && fs[i].height is Some && quality_for_height((fs[i].height->Some_0 as u32) as int) == q;
            assert(is_video_format(fs[i]) && format_quality(fs[i]) == q);
        }
    }
}

} // verus!

verus! {

/// The width a thumbnail entry is ranked by: its width, 0 when unknown.
pub open spec fn reported_width(t: ThumbnailView) -> u64 {
    match t.width {
        Some(w) => w,
        None => 0,
    }
}

/// The widest thumbnail is one of the entries, and the widest one: when
/// some entry has a URL the result is `(w, u)` for an entry with URL `u`
/// and width `w` (0 when unknown) that no entry with a URL exceeds, and
/// that every later entry with a URL falls short of (ties go to the last).
/// Without any entry that has a URL there is none.
pub proof fn widest_thumbnail_is_the_widest(entries: Seq<ThumbnailView>)
    ensures
        (exists|k: int| 0 <= k < entries.len() && (#[trigger] entries[k]).url is Some) <==> widest_thumbnail(
            entries,
        ) is Some,
        widest_thumbnail(entries) matches Some((w, u)) ==> exists|i: int|
            0 <= i < entries.len() && (#[trigger] entries[i]).url == Some(u) && reported_width(entries[i]) == w
                && (forall|j: int| 0 <= j < entries.len() && (#[trigger] entries[j]).url is Some ==> reported_width(entries[j]) <= w)
                && (forall|j: int| i < j < entries.len() && (#[trigger] entries[j]).url is Some ==> reported_width(entries[j]) < w),
    decreases entries.len(),
{
    if entries.len() > 0 {
        let rest = entries.drop_last();
        let n = entries.len() - 1;
        let e = entries.last();
        widest_thumbnail_is_the_widest(rest);
        assert forall|k: int| 0 <= k < n implies #[trigger] rest[k] == entries[k] by {}
        if exists|k: int| 0 <= k < entries.len() && (#[trigger] entries[k]).url is Some {
            if e.url is None {
                let k = choose|k: int| 0 <= k < entries.len() && (#[trigger] entries[k]).url is Some;
                assert(rest[k].url is Some);
            }
        }
        match widest_thumbnail(entries) {
            None => {},
            Some((w, u)) => {
                match e.url {
                    None => {
                        let i = choose|i: int|
                            0 <= i < rest.len() && (#[trigger] rest[i]).url == Some(u) && reported_width(rest[i]) == w
                                && (forall|j: int| 0 <= j < rest.len() && (#[trigger] rest[j]).url is Some ==> reported_width(rest[j]) <= w)
                                && (forall|j: int| i < j < rest.len() && (#[trigger] rest[j]).url is Some ==> reported_width(rest[j]) < w);
                        assert(entries[i] == rest[i]);
                        assert forall|j: int| 0 <= j < entries.len() && (#[trigger] entries[j]).url is Some implies reported_width(entries[j]) <= w by {
                            assert(j < n);
                            assert(rest[j] == entries[j]);
                        }
                        assert forall|j: int| i < j < entries.len() && (#[trigger] entries[j]).url is Some implies reported_width(entries[j]) < w by {
                            assert(j < n);
                            assert(rest[j] == entries[j]);
                        }
                    },
                    Some(eu) => {
                        let ew = reported_width(e);
                        match widest_thumbnail(rest) {
                            Some((bw, bu)) => {
                                let i = choose|i: int|
                                    0 <= i < rest.len() && (#[trigger] rest[i]).url == Some(bu) && reported_width(rest[i]) == bw
                                        && (forall|j: int| 0 <= j < rest.len() && (#[trigger] rest[j]).url is Some ==> reported_width(rest[j]) <= bw)
                                        && (forall|j: int| i < j < rest.len() && (#[trigger] rest[j]).url is Some ==> reported_width(rest[j]) < bw);
                                if ew >= bw {
                                    assert(entries[n] == e);
                                    assert forall|j: int| 0 <= j < entries.len() && (#[trigger] entries[j]).url is Some implies reported_width(entries[j]) <= w by {
                                        if j < n {
                                            assert(rest[j] == entries[j]);
                                        }
                                    }
                                } else {
                                    assert(entries[i] == rest[i]);
                                    assert forall|j: int| 0 <= j < entries.len() && (#[trigger] entries[j]).url is Some implies reported_width(entries[j]) <= w by {
                                        if j < n {
                                            assert(rest[j] == entries[j]);
                                        }
                                    }
                                    assert forall|j: int| i < j < entries.len() && (#[trigger] entries[j]).url is Some implies reported_width(entries[j]) < w by {
                                        if j < n {
                                            assert(rest[j] == entries[j]);
                                        }
                                    }
                                }
                            },
                            None => {
                                assert(entries[n] == e);
                                assert forall|j: int| 0 <= j < entries.len() && (#[trigger] entries[j]).url is Some implies reported_width(entries[j]) <= w by {
                                    if j < n {
                                        assert(rest[j] == entries[j]);
                                        assert(rest[j].url is Some);
                                    }
                                }
                            },
                        }
                    },
                }
            },
        }
    }
}

/// The thumbnail of a successful reading is the widest entry of
/// `thumbnails` that has a URL (no entry with a URL is wider); only when
/// there is no such entry does the top-level `thumbnail` stand in.
pub proof fn thumbnail_is_the_widest_entry(doc: DocView, res: Result<MediaInfo, ProbeError>)
    requires
        reads_document(doc, res),
        res is Ok,
    ensures
        ({
            let has_url = doc.thumbnails is Some && exists|k: int|
                0 <= k < doc.thumbnails->Some_0.len() && (#[trigger] doc.thumbnails->Some_0[k]).url is Some;
            let got = opt_view(res->Ok_0.thumbnail_url);
            &&& has_url ==> got is Some && exists|i: int|
                0 <= i < doc.thumbnails->Some_0.len() && (#[trigger] doc.thumbnails->Some_0[i]).url == got
                    && forall|j: int|
                    0 <= j < doc.thumbnails->Some_0.len() && (#[trigger] doc.thumbnails->Some_0[j]).url is Some
                        ==> reported_width(doc.thumbnails->Some_0[j]) <= reported_width(doc.thumbnails->Some_0[i])
            &&& !has_url ==> got == doc.thumbnail
        }),
{
    if let Some(ts) = doc.thumbnails {
        widest_thumbnail_is_the_widest(ts);
    }
}

} // verus!
