# convpalette

The core of ConvPalette, a small desktop palette that converts media files with
ffmpeg: it classifies the selected files, offers conversion presets, builds ffmpeg
argument lists (from presets, or from options proposed by a language model, which
are checked first), names the results, keeps the selection, the history and the
caches, and decides what each conversion reports.

- `src/` is the library, verified with Verus: every public function states what it
  returns in its `ensures`, and `src/laws.rs` holds the properties that span
  several functions.
- `app/` is the application around it: files, processes, the network, the
  credential store and the registry. It hands the library plain values and acts on
  what the library returns.
- `tests/` runs the library on concrete values.
