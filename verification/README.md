# converter_desk

Verified core of a small desktop front-end for `yt-dlp` and `ffmpeg`:
download a video at a chosen quality, or its audio as MP3, with live
progress.

- `src/` is the library, proved with Verus: quality buckets and the quality
  selector, URL validation, the yt-dlp argument vectors (download and
  metadata probe), classification and forwarding of yt-dlp's progress lines,
  the download use case, the retry with the Android player client, the
  choice of a binary among its candidate locations, decoding and reading of
  yt-dlp's metadata JSON, the preflight check, and the download and preview
  state the UI follows.
- `app/` is the egui program around it: process execution, environment and
  file-system lookups, threads and channels, the thumbnail fetch and the
  widgets. Values with floating point (progress percentage, media duration)
  are read there.
- `tests/` exercises the library on concrete values.
