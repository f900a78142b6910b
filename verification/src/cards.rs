//! File cards for the side panel: folder contents by category, the names and ffmpeg
//! arguments of thumbnails and previews.
use vstd::prelude::*;

use crate::paths::{extension_of, joined, path_extension, path_join};
use crate::presets::{category_for_ext, category_for_path, category_of_ext, category_of_path, Category};
use crate::text::{copy_str, lowercase, to_lowercase, views};

verus! {

/// What a folder holds, by category. Sub-folders are counted apart.
#[derive(Debug, Clone, Copy, PartialEq, Eq, Structural)]
pub struct FolderStats {
    pub video: usize,
    pub audio: usize,
    pub image: usize,
    pub other: usize,
    pub dirs: usize,
}

/// How many entries of a folder are looked at.
pub const FOLDER_SCAN_LIMIT: usize = 2000;

/// The kind of a folder entry: a sub-folder, or a file of some category.
pub open spec fn entry_is(entry: (bool, Seq<char>), dir: bool, cat: Category) -> bool {
    if dir {
        entry.0
    } else {
        !entry.0 && category_of_path(entry.1) == cat
    }
}

/// How many entries are of the given kind.
pub open spec fn count_entries(entries: Seq<(bool, Seq<char>)>, dir: bool, cat: Category) -> nat
    decreases entries.len(),
{
    if entries.len() == 0 {
        0
    } else {
        count_entries(entries.drop_last(), dir, cat) + if entry_is(entries.last(), dir, cat) {
            1nat
        } else {
            0nat
        }
    }
}

/// The views of folder entries given as (is a folder, path).
pub open spec fn entry_views(entries: Seq<(bool, String)>) -> Seq<(bool, Seq<char>)> {
    entries.map_values(|e: (bool, String)| (e.0, e.1@))
}

/// The statistics of the first 2000 entries.
pub open spec fn folder_stats_of(entries: Seq<(bool, Seq<char>)>) -> FolderStats {
    let seen = if entries.len() > FOLDER_SCAN_LIMIT {
        entries.take(FOLDER_SCAN_LIMIT as int)
    } else {
        entries
    };
    FolderStats {
        video: count_entries(seen, false, Category::Video) as usize,
        audio: count_entries(seen, false, Category::Audio) as usize,
        image: count_entries(seen, false, Category::Image) as usize,
        other: count_entries(seen, false, Category::Other) as usize,
        dirs: count_entries(seen, true, Category::Other) as usize,
    }
}

/// Each entry is of exactly one kind, so the counts add up to the number of entries.
pub proof fn lemma_counts_sum(entries: Seq<(bool, Seq<char>)>)
    ensures
        count_entries(entries, false, Category::Video) + count_entries(entries, false, Category::Audio)
            + count_entries(entries, false, Category::Image) + count_entries(
            entries,
            false,
            Category::Other,
        ) + count_entries(entries, true, Category::Other) == entries.len(),
        count_entries(entries, true, Category::Other) <= entries.len(),
    decreases entries.len(),
{
    if entries.len() > 0 {
        lemma_counts_sum(entries.drop_last());
    }
}

/// Counts the entries of a folder by kind: sub-folders, and files by the category of
/// their extension. Only the first 2000 entries are looked at. Each entry is
/// `(is a folder, path)`.
pub fn tally_entries(entries: &Vec<(bool, String)>) -> (res: FolderStats)
    ensures
        res == folder_stats_of(entry_views(entries@)),
        res.video + res.audio + res.image + res.other + res.dirs == if entries.len()
            > FOLDER_SCAN_LIMIT {
            FOLDER_SCAN_LIMIT as int
        } else {
            entries.len() as int
        },
{
    let ghost es = entry_views(entries@);
    let n = if entries.len() > FOLDER_SCAN_LIMIT { FOLDER_SCAN_LIMIT } else { entries.len() };
    let mut st = FolderStats { video: 0, audio: 0, image: 0, other: 0, dirs: 0 };
    let mut i: usize = 0;
    assert(es.take(0) =~= Seq::<(bool, Seq<char>)>::empty());
    while i < n
        invariant
            n <= entries.len(),
            n <= FOLDER_SCAN_LIMIT,
            i <= n,
            es == entry_views(entries@),
            st.video == count_entries(es.take(i as int), false, Category::Video),
            st.audio == count_entries(es.take(i as int), false, Category::Audio),
            st.image == count_entries(es.take(i as int), false, Category::Image),
            st.other == count_entries(es.take(i as int), false, Category::Other),
            st.dirs == count_entries(es.take(i as int), true, Category::Other),
        decreases n - i,
    {
        proof {
            lemma_counts_sum(es.take(i as int));
        }
        assert(es.take(i + 1).drop_last() =~= es.take(i as int));
        assert(es.take(i + 1).last() == (entries@[i as int].0, entries@[i as int].1@));
        if entries[i].0 {
            st.dirs = st.dirs + 1;
        } else {
            match category_for_path(entries[i].1.as_str()) {
                Category::Video => st.video = st.video + 1,
                Category::Audio => st.audio = st.audio + 1,
                Category::Image => st.image = st.image + 1,
                Category::Other => st.other = st.other + 1,
            }
        }
        i += 1;
    }
    proof {
        lemma_counts_sum(es.take(i as int));
        if entries.len() <= FOLDER_SCAN_LIMIT {
            assert(es.take(i as int) =~= es);
        }
    }
    st
}

/// The lower-case hexadecimal digit for `d < 16`.
pub open spec fn hex_char(d: nat) -> char {
    if d < 10 {
        ((d + 48) as u8) as char
    } else {
        ((d + 87) as u8) as char
    }
}

/// The last `n` hexadecimal digits of `h`, most significant first.
pub open spec fn hex_digits(h: nat, n: nat) -> Seq<char>
    decreases n,
{
    if n == 0 {
        seq![]
    } else {
        hex_digits(h / 16, (n - 1) as nat).push(hex_char(h % 16))
    }
}

/// The name of a thumbnail: the hash as 16 lower-case hex digits, a dot, the extension.
pub open spec fn thumb_name(hash: u64, ext: Seq<char>) -> Seq<char> {
    hex_digits(hash as nat, 16) + "."@ + ext
}

/// The name of a thumbnail (`format!("{:016x}.{ext}")`). The hash stands for the path
/// and the modification time of the source, so a changed file gets a new thumbnail.
pub fn thumb_file_name(hash: u64, ext: &str) -> (res: String)
    ensures
        res@ == thumb_name(hash, ext@),
{
    let mut digits: Vec<char> = Vec::new();
    let mut h: u64 = hash;
    let mut k: usize = 0;
    assert(hex_digits(hash as nat, 0) =~= Seq::<char>::empty());
    while k < 16
        invariant
            k <= 16,
            hex_digits(hash as nat, 16) == hex_digits(h as nat, (16 - k) as nat) + digits@,
        decreases 16 - k,
    {
        let d: u64 = h % 16;
        let c: char = if d < 10 { ((d as u8) + 48) as char } else { ((d as u8) + 87) as char };
        assert(c == hex_char(d as nat));
        let ghost old_digits = digits@;
        digits.insert(0, c);
        assert(hex_digits(h as nat, (16 - k) as nat) == hex_digits((h / 16) as nat, (16 - k - 1) as nat).push(c));
        assert(hex_digits((h / 16) as nat, (16 - k - 1) as nat).push(c) + old_digits =~= hex_digits(
            (h / 16) as nat,
            (16 - k - 1) as nat,
        ) + digits@);
        h = h / 16;
        k += 1;
    }
    assert(hex_digits(h as nat, 0) + digits@ =~= digits@);
    let mut name = crate::text::string_from_range(&digits, 0, digits.len());
    name.append(".");
    name.append(ext);
    name
}

/// The size of the first stream of a medium that has both a width and a height, each
/// as ffprobe reports it, narrowed to `u32` as the card holds it.
pub open spec fn first_dimensions(streams: Seq<(Option<u64>, Option<u64>)>) -> Option<(u32, u32)>
    decreases streams.len(),
{
    if streams.len() == 0 {
        None
    } else {
        match streams[0] {
            (Some(w), Some(h)) => Some((w as u32, h as u32)),
            _ => first_dimensions(streams.drop_first()),
        }
    }
}

/// The width and height of a medium: those of its first stream that has both.
pub fn stream_dimensions(streams: &Vec<(Option<u64>, Option<u64>)>) -> (res: Option<(u32, u32)>)
    ensures
        res == first_dimensions(streams@),
{
    let mut i: usize = 0;
    assert(streams@.skip(0) =~= streams@);
    while i < streams.len()
        invariant
            i <= streams.len(),
            first_dimensions(streams@) == first_dimensions(streams@.skip(i as int)),
        decreases streams.len() - i,
    {
        assert(streams@.skip(i as int)[0] == streams@[i as int]);
        assert(streams@.skip(i as int).drop_first() =~= streams@.skip(i + 1));
        match streams[i] {
            (Some(w), Some(h)) => {
                return Some((w as u32, h as u32));
            },
            _ => {},
        }
        i += 1;
    }
    assert(streams@.skip(i as int) =~= Seq::<(Option<u64>, Option<u64>)>::empty());
    None
}

/// What ffprobe's JSON report holds for a card, as `serde_json` reads it: `None` where
/// the bytes are no JSON; otherwise the text at `format.duration` where it is a string,
/// and for each element of `streams` (none where that is no array) the numbers at
/// `width` and `height` where they are unsigned integers.
pub uninterp spec fn probe_report_fields(report: Seq<u8>) -> Option<
    (Option<Seq<char>>, Seq<(Option<u64>, Option<u64>)>),
>;

/// The view of an optional string.
pub open spec fn opt_text(o: Option<String>) -> Option<Seq<char>> {
    match o {
        Some(t) => Some(t@),
        None => None,
    }
}

/// `serde_json::from_slice` into a `serde_json::Value`, then the fields a card reads:
/// `format.duration` as a string, and `width` and `height` of each stream as `u64`.
/// Indexing a `Value` by a key it lacks gives `Null`, which none of the readers accepts.
/// Its result is named `probe_report_fields`.
#[verifier::external_body]
pub(crate) fn parse_probe_report(report: &[u8]) -> (res: Option<
    (Option<String>, Vec<(Option<u64>, Option<u64>)>),
>)
    ensures
        match res {
            Some((d, s)) => probe_report_fields(report@) == Some((opt_text(d), s@)),
            None => probe_report_fields(report@) is None,
        },
{
    let v: serde_json::Value = serde_json::from_slice(report).ok()?;
    let duration = v["format"]["duration"].as_str().map(|d| d.to_string());
    let sizes = match v["streams"].as_array() {
        Some(streams) => streams.iter().map(|st| (st["width"].as_u64(), st["height"].as_u64())).collect(),
        None => Vec::new(),
    };
    Some((duration, sizes))
}

/// What a card takes from ffprobe's report: the duration as the report writes it, and
/// the width and height of the first stream that has both. Nothing where the report is
/// no JSON.
pub fn media_fields(report: &[u8]) -> (res: (Option<String>, Option<(u32, u32)>))
    ensures
        opt_text(res.0) == (match probe_report_fields(report@) {
            Some((d, _)) => d,
            None => None,
        }),
        res.1 == (match probe_report_fields(report@) {
            Some((_, s)) => first_dimensions(s),
            None => None,
        }),
{
    match parse_probe_report(report) {
        Some((duration, sizes)) => (duration, stream_dimensions(&sizes)),
        None => (None, None),
    }
}

/// How many files the thumbnail folder may hold before it is emptied.
pub const THUMB_CACHE_LIMIT: usize = 800;

/// Whether the thumbnail folder, holding `files` files, is to be emptied: once it holds
/// more than `THUMB_CACHE_LIMIT`.
pub fn thumbs_need_pruning(files: usize) -> (res: bool)
    ensures
        res == (files > THUMB_CACHE_LIMIT),
{
    files > THUMB_CACHE_LIMIT
}

/// What `DefaultHasher::new()` gives after hashing the path and then the modification
/// time, as `finish` reports it.
pub uninterp spec fn path_hash(path: Seq<char>, mtime: u64) -> u64;

/// Hashes a path and a modification time with `DefaultHasher::new()` (`str::hash`, then
/// `u64::hash`, then `finish`); its result is named `path_hash`. Hashers made by `new`
/// start alike, so within one build of the program the same path and time give the same
/// hash; std leaves the algorithm open from one Rust release to the next.
#[verifier::external_body]
fn hash_path_mtime(path: &str, mtime: u64) -> (res: u64)
    ensures
        res == path_hash(path@, mtime),
{
    let mut h = std::collections::hash_map::DefaultHasher::new();
    std::hash::Hash::hash(path, &mut h);
    std::hash::Hash::hash(&mtime, &mut h);
    std::hash::Hasher::finish(&h)
}

/// The path of the thumbnail of `input`, whose modification time is `mtime`: in `dir`,
/// named by the hash of the path and the time, with the extension `ext`.
pub fn thumb_path(dir: &str, input: &str, mtime: u64, ext: &str) -> (res: String)
    ensures
        res@ == joined(dir@, thumb_name(path_hash(input@, mtime), ext@)),
{
    let hash = hash_path_mtime(input, mtime);
    let name = thumb_file_name(hash, ext);
    path_join(dir, name.as_str())
}

/// Audio waveforms need transparency, so their thumbnails are PNG; the others JPEG.
pub open spec fn thumb_ext_of(kind: Category) -> Seq<char> {
    if kind == Category::Audio {
        "png"@
    } else {
        "jpg"@
    }
}

/// The extension of the thumbnail of a file of the given category.
pub fn thumb_ext(kind: Category) -> (res: &'static str)
    ensures
        res@ == thumb_ext_of(kind),
{
    if kind == Category::Audio {
        "png"
    } else {
        "jpg"
    }
}

/// The ffmpeg arguments that make a thumbnail: a frame of a video (from the first
/// second where `seek`), a scaled image, or the waveform of audio. `None` for other files.
pub open spec fn thumb_args_of(kind: Category, input: Seq<char>, seek: bool, out: Seq<char>) -> Option<
    Seq<Seq<char>>,
> {
    match kind {
        Category::Video => Some(
            seq!["-y"@] + (if seek { seq!["-ss"@, "1"@] } else { seq![] }) + seq![
                "-i"@,
                input,
                "-frames:v"@,
                "1"@,
                "-vf"@,
                "scale=320:-2"@,
                "-q:v"@,
                "4"@,
                out,
            ],
        ),
        Category::Image => Some(
            seq!["-y"@, "-i"@, input, "-frames:v"@, "1"@, "-vf"@, "scale=320:-2"@, "-q:v"@, "4"@, out],
        ),
        Category::Audio => Some(
            seq![
                "-y"@,
                "-i"@,
                input,
                "-filter_complex"@,
                "showwavespic=s=320x72:colors=0x7c86ff"@,
                "-frames:v"@,
                "1"@,
                out,
            ],
        ),
        Category::Other => None,
    }
}

/// The ffmpeg arguments that make a thumbnail.
pub fn thumb_args(kind: Category, input: &str, seek: bool, out: &str) -> (res: Option<Vec<String>>)
    ensures
        match res {
            Some(v) => thumb_args_of(kind, input@, seek, out@) == Some(views(v@)),
            None => thumb_args_of(kind, input@, seek, out@) is None,
        },
{
    let mut args: Vec<String> = Vec::new();
    match kind {
        Category::Video => {
            args.push(copy_str("-y"));
            if seek {
                args.push(copy_str("-ss"));
                args.push(copy_str("1"));
            }
            args.push(copy_str("-i"));
            args.push(copy_str(input));
            args.push(copy_str("-frames:v"));
            args.push(copy_str("1"));
            args.push(copy_str("-vf"));
            args.push(copy_str("scale=320:-2"));
            args.push(copy_str("-q:v"));
            args.push(copy_str("4"));
        },
        Category::Image => {
            args.push(copy_str("-y"));
            args.push(copy_str("-i"));
            args.push(copy_str(input));
            args.push(copy_str("-frames:v"));
            args.push(copy_str("1"));
            args.push(copy_str("-vf"));
            args.push(copy_str("scale=320:-2"));
            args.push(copy_str("-q:v"));
            args.push(copy_str("4"));
        },
        Category::Audio => {
            args.push(copy_str("-y"));
            args.push(copy_str("-i"));
            args.push(copy_str(input));
            args.push(copy_str("-filter_complex"));
            args.push(copy_str("showwavespic=s=320x72:colors=0x7c86ff"));
            args.push(copy_str("-frames:v"));
            args.push(copy_str("1"));
        },
        Category::Other => {
            return None;
        },
    }
    args.push(copy_str(out));
    assert(thumb_args_of(kind, input@, seek, out@) == Some(views(args@)));
    Some(args)
}

/// Only a video thumbnail is tried again, from the start, when taking a frame at the
/// first second failed (the clip may be shorter than a second).
pub fn retry_from_start(kind: Category) -> (res: bool)
    ensures
        res == (kind == Category::Video),
{
    kind == Category::Video
}

/// The ffmpeg arguments of a large preview of an image, at most 1280 pixels wide.
pub open spec fn preview_args_of(input: Seq<char>, out: Seq<char>) -> Seq<Seq<char>> {
    seq!["-y"@, "-i"@, input, "-frames:v"@, "1"@, "-vf"@, "scale='min(1280,iw)':-2"@, "-q:v"@, "3"@, out]
}

/// The ffmpeg arguments of a large preview of an image.
pub fn preview_args(input: &str, out: &str) -> (res: Vec<String>)
    ensures
        views(res@) == preview_args_of(input@, out@),
{
    let mut args: Vec<String> = Vec::new();
    args.push(copy_str("-y"));
    args.push(copy_str("-i"));
    args.push(copy_str(input));
    args.push(copy_str("-frames:v"));
    args.push(copy_str("1"));
    args.push(copy_str("-vf"));
    args.push(copy_str("scale='min(1280,iw)':-2"));
    args.push(copy_str("-q:v"));
    args.push(copy_str("3"));
    args.push(copy_str(out));
    assert(views(args@) =~= preview_args_of(input@, out@));
    args
}

/// The lower-case extension of a file, empty where it has none.
pub open spec fn card_ext_of(path: Seq<char>) -> Seq<char> {
    lowercase(
        match extension_of(path) {
            Some(e) => e,
            None => Seq::empty(),
        },
    )
}

/// The lower-case extension of a file and its category.
pub fn card_kind(path: &str) -> (res: (String, Category))
    ensures
        res.0@ == card_ext_of(path@),
        res.1 == category_of_ext(card_ext_of(path@)),
{
    let ext = match path_extension(path) {
        Some(e) => to_lowercase(e.as_str()),
        None => {
            proof {
                reveal_strlit("");
            }
            assert(""@ =~= Seq::<char>::empty());
            to_lowercase("")
        },
    };
    let cat = category_for_ext(ext.as_str());
    (ext, cat)
}

} // verus!
