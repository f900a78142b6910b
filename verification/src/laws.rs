//! Properties that hold across the library's operations.
use vstd::prelude::*;

use crate::args::{
    ai_args_error, ascii_alnum_only, first_problem, has_banned_part, is_ascii_alnum,
    is_banned_exact, option_problem, preset_options, safe_ext, validation_error, wrapped_args,
    MAX_AI_OPTIONS,
};
use crate::presets::{
    category_name, category_of_lower, category_of_path, find_by_id, lookup_preset, presets_of, recommendations,
    Category, PresetSpec, };
use crate::cards::{lemma_counts_sum, folder_stats_of, hex_digits, thumb_name, FOLDER_SCAN_LIMIT};
use crate::context::merged;
use crate::ffmpeg::{diagnostic, tail_after, DIAG_LIMIT, TAIL_LINES};
use crate::hotkey::{hotkey_candidates, hotkey_of};
use crate::output::{first_free, output_file_name};
use crate::paths::{is_flag_arg, is_subsequence, non_flags, path_candidates, select};
use crate::settings::{history_after, HistoryEntry, HISTORY_LIMIT};
use crate::ai::probe_summary;
use crate::text::{
    all_ascii, ascii_lower, ascii_lowercase, contains, ends_with, is_ws, join, lowercase,
    occurs_at, replace_char, trim, trim_end, trim_start, trim_start_char,
};

verus! {

/// Every preset offered for a category carries that category's name.
pub proof fn lemma_presets_carry_category(cat: Category, i: int)
    requires
        0 <= i < presets_of(cat).len(),
    ensures
        presets_of(cat)[i].category == category_name(cat),
{
}

/// Recommended presets fit every selected file: each carries the category of each path.
pub proof fn lemma_recommendations_fit_selection(paths: Seq<Seq<char>>, i: int, j: int)
    requires
        0 <= i < recommendations(paths).len(),
        0 <= j < paths.len(),
    ensures
        recommendations(paths)[i].category == category_name(category_of_path(paths[j])),
{
    assert(paths.len() > 0);
    let c = category_of_path(paths[0]);
    assert(forall|k: int| 0 <= k < paths.len() ==> #[trigger] category_of_path(paths[k]) == c);
    lemma_presets_carry_category(c, i);
}


/// The ids of the catalogue differ in their first, seventh or eighth character.
proof fn reveal_preset_ids()
    ensures
        "video_mp4"@.len() == 9,
        "video_compress"@.len() == 14,
        "video_extract_audio"@.len() == 19,
        "video_gif"@.len() == 9,
        "video_webm"@.len() == 10,
        "video_mute"@.len() == 10,
        "audio_mp3"@.len() == 9,
        "audio_wav"@.len() == 9,
        "audio_flac"@.len() == 10,
        "audio_m4a"@.len() == 9,
        "audio_normalize"@.len() == 15,
        "image_jpg"@.len() == 9,
        "image_png"@.len() == 9,
        "image_webp"@.len() == 10,
        "image_resize"@.len() == 12,
        "video_mp4"@[0] == 'v' && "video_mp4"@[6] == 'm' && "video_mp4"@[7] == 'p',
        "video_compress"@[0] == 'v' && "video_compress"@[6] == 'c' && "video_compress"@[7] == 'o',
        "video_extract_audio"@[0] == 'v' && "video_extract_audio"@[6] == 'e' && "video_extract_audio"@[7] == 'x',
        "video_gif"@[0] == 'v' && "video_gif"@[6] == 'g' && "video_gif"@[7] == 'i',
        "video_webm"@[0] == 'v' && "video_webm"@[6] == 'w' && "video_webm"@[7] == 'e',
        "video_mute"@[0] == 'v' && "video_mute"@[6] == 'm' && "video_mute"@[7] == 'u',
        "audio_mp3"@[0] == 'a' && "audio_mp3"@[6] == 'm' && "audio_mp3"@[7] == 'p',
        "audio_wav"@[0] == 'a' && "audio_wav"@[6] == 'w' && "audio_wav"@[7] == 'a',
        "audio_flac"@[0] == 'a' && "audio_flac"@[6] == 'f' && "audio_flac"@[7] == 'l',
        "audio_m4a"@[0] == 'a' && "audio_m4a"@[6] == 'm' && "audio_m4a"@[7] == '4',
        "audio_normalize"@[0] == 'a' && "audio_normalize"@[6] == 'n' && "audio_normalize"@[7] == 'o',
        "image_jpg"@[0] == 'i' && "image_jpg"@[6] == 'j' && "image_jpg"@[7] == 'p',
        "image_png"@[0] == 'i' && "image_png"@[6] == 'p' && "image_png"@[7] == 'n',
        "image_webp"@[0] == 'i' && "image_webp"@[6] == 'w' && "image_webp"@[7] == 'e',
        "image_resize"@[0] == 'i' && "image_resize"@[6] == 'r' && "image_resize"@[7] == 'e',
{
    reveal_strlit("video_mp4");
    reveal_strlit("video_compress");
    reveal_strlit("video_extract_audio");
    reveal_strlit("video_gif");
    reveal_strlit("video_webm");
    reveal_strlit("video_mute");
    reveal_strlit("audio_mp3");
    reveal_strlit("audio_wav");
    reveal_strlit("audio_flac");
    reveal_strlit("audio_m4a");
    reveal_strlit("audio_normalize");
    reveal_strlit("image_jpg");
    reveal_strlit("image_png");
    reveal_strlit("image_webp");
    reveal_strlit("image_resize");
}

/// Every preset of the catalogue is found again by its id, and can be run: ids are
/// unique across categories, so `preset_by_id` returns exactly the preset shown.
pub proof fn lemma_lookup_finds_catalogue(cat: Category, i: int)
    requires
        cat != Category::Other,
        0 <= i < presets_of(cat).len(),
    ensures
        lookup_preset(presets_of(cat)[i].id) == Some(presets_of(cat)[i]),
        preset_options(presets_of(cat)[i].id) is Some,
{
    reveal_preset_ids();
    reveal_strlit("video_mp4");
    reveal_strlit("video_compress");
    reveal_strlit("video_extract_audio");
    reveal_strlit("video_gif");
    reveal_strlit("video_webm");
    reveal_strlit("video_mute");
    reveal_strlit("audio_mp3");
    reveal_strlit("audio_wav");
    reveal_strlit("audio_flac");
    reveal_strlit("audio_m4a");
    reveal_strlit("audio_normalize");
    reveal_strlit("image_jpg");
    reveal_strlit("image_png");
    reveal_strlit("image_webp");
    reveal_strlit("image_resize");
    reveal_with_fuel(find_by_id, 7);
    if cat == Category::Video {
        if i == 0 {} else if i == 1 {} else if i == 2 {} else if i == 3 {} else if i == 4 {} else if i == 5 {}
    } else if cat == Category::Audio {
        if i == 0 {} else if i == 1 {} else if i == 2 {} else if i == 3 {} else if i == 4 {}
    } else {
        if i == 0 {} else if i == 1 {} else if i == 2 {} else if i == 3 {}
    }
}

proof fn lemma_first_problem_none(opts: Seq<Seq<char>>, i: int)
    requires
        first_problem(opts) is None,
        0 <= i < opts.len(),
    ensures
        option_problem(opts[i]) is None,
    decreases opts.len(),
{
    if i > 0 {
        assert(opts.drop_first()[i - 1] == opts[i]);
        lemma_first_problem_none(opts.drop_first(), i - 1);
    }
}

/// Accepted options are safe: there are at most forty, and none of them, in any case,
/// is an input, overwrite or format switch or holds a protocol, a file-reading filter or
/// a device.
pub proof fn lemma_accepted_options_are_safe(opts: Seq<Seq<char>>, i: int)
    requires
        validation_error(opts) is None,
        0 <= i < opts.len(),
    ensures
        opts.len() <= MAX_AI_OPTIONS,
        !is_banned_exact(lowercase(opts[i])),
        !has_banned_part(lowercase(opts[i])),
{
    lemma_first_problem_none(opts, i);
}

/// The application, not the model, places the input and the output: an argument list
/// built from accepted options starts with `-y -i <input>`, ends with the output, and
/// what lies between is the options, none of them an input switch.
pub proof fn lemma_ai_args_frame(input: Seq<char>, opts: Seq<Seq<char>>, target_ext: Seq<char>, out: Seq<char>, i: int)
    requires
        ai_args_error(opts, target_ext) is None,
        0 <= i < opts.len(),
    ensures
        wrapped_args(input, opts, out).len() == opts.len() + 4,
        wrapped_args(input, opts, out)[0] == "-y"@,
        wrapped_args(input, opts, out)[1] == "-i"@,
        wrapped_args(input, opts, out)[2] == input,
        wrapped_args(input, opts, out).last() == out,
        wrapped_args(input, opts, out)[3 + i] == opts[i],
        lowercase(wrapped_args(input, opts, out)[3 + i]) != "-i"@,
{
    lemma_first_problem_none(opts, i);
}

/// The history holds at most thirty entries, the newest first, the older ones after it
/// in their order.
pub proof fn lemma_history_order(old: Seq<HistoryEntry>, entry: HistoryEntry, i: int)
    requires
        1 <= i < history_after(old, entry).len(),
    ensures
        history_after(old, entry).len() <= HISTORY_LIMIT,
        history_after(old, entry)[0] == entry,
        history_after(old, entry)[i] == old[i - 1],
{
}

/// After a launch is merged, every path it brought is in the selection.
pub proof fn lemma_merged_holds_new(base: Seq<Seq<char>>, new: Seq<Seq<char>>, j: int)
    requires
        0 <= j < new.len(),
    ensures
        merged(base, new).contains(new[j]),
    decreases new.len(),
{
    if j == new.len() - 1 {
        let r = merged(base, new.drop_last());
        if !r.contains(new.last()) {
            assert(r.push(new.last())[r.len() as int] == new.last());
        }
    } else {
        assert(new.drop_last()[j] == new[j]);
        lemma_merged_holds_new(base, new.drop_last(), j);
        let r = merged(base, new.drop_last());
        let k = choose|k: int| 0 <= k < r.len() && r[k] == new[j];
        if !r.contains(new.last()) {
            assert(r.push(new.last())[k] == new[j]);
        }
    }
}

/// Merging keeps the earlier selection in front, in its order, and adds only paths of
/// the launch.
pub proof fn lemma_merged_keeps_base(base: Seq<Seq<char>>, new: Seq<Seq<char>>)
    ensures
        merged(base, new).len() >= base.len(),
        merged(base, new).take(base.len() as int) == base,
        forall|k: int|
            base.len() <= k < merged(base, new).len() ==> new.contains(#[trigger] merged(base, new)[k]),
    decreases new.len(),
{
    if new.len() > 0 {
        lemma_merged_keeps_base(base, new.drop_last());
        let r = merged(base, new.drop_last());
        if !r.contains(new.last()) {
            assert(r.push(new.last()).take(base.len() as int) =~= r.take(base.len() as int));
        }
        assert forall|k: int| base.len() <= k < merged(base, new).len() implies new.contains(
            #[trigger] merged(base, new)[k],
        ) by {
            if k < r.len() {
                let m = choose|m: int| 0 <= m < new.drop_last().len() && new.drop_last()[m] == r[k];
                assert(new[m] == r[k]);
                if !r.contains(new.last()) {
                    assert(r.push(new.last())[k] == r[k]);
                }
            } else {
                assert(new[new.len() - 1] == new.last());
            }
        }
    }
}

/// The kept lines after feeding `lines` one by one into an empty tail.
pub open spec fn tail_of(lines: Seq<Seq<char>>) -> Seq<Seq<char>>
    decreases lines.len(),
{
    if lines.len() == 0 {
        seq![]
    } else {
        tail_after(tail_of(lines.drop_last()), lines.last())
    }
}

/// The error report keeps the last eight diagnostic lines, in their order.
pub proof fn lemma_tail_keeps_last_lines(lines: Seq<Seq<char>>)
    ensures
        tail_of(lines) == (if lines.len() > TAIL_LINES {
            lines.skip(lines.len() - TAIL_LINES)
        } else {
            lines
        }),
    decreases lines.len(),
{
    if lines.len() > 0 {
        lemma_tail_keeps_last_lines(lines.drop_last());
        let prev = lines.drop_last();
        if prev.len() > TAIL_LINES {
            assert(prev.skip(prev.len() - TAIL_LINES).drop_first().push(lines.last()) =~= lines.skip(
                lines.len() - TAIL_LINES,
            ));
        } else if prev.len() == TAIL_LINES {
            assert(prev.drop_first().push(lines.last()) =~= lines.skip(lines.len() - TAIL_LINES));
        } else {
            assert(prev.push(lines.last()) =~= lines);
        }
    }
}

/// The error report is the end of the kept lines joined by line breaks: at most 700
/// characters long, and all of them where they fit.
pub proof fn lemma_diagnostic_bounded(lines: Seq<Seq<char>>)
    ensures
        diagnostic(lines).len() <= DIAG_LIMIT,
        join(lines, "\n"@).len() <= DIAG_LIMIT ==> diagnostic(lines) == join(lines, "\n"@),
        ends_with(join(lines, "\n"@), diagnostic(lines)),
{
    let d = join(lines, "\n"@);
    let r = diagnostic(lines);
    assert(d.subrange(d.len() - r.len(), d.len() as int) =~= r);
}

/// A bare key is no global hotkey: every parsed hotkey holds a modifier.
pub proof fn lemma_hotkey_has_modifier(spec: Seq<char>)
    ensures
        hotkey_of(spec) matches Some(h) ==> h.ctrl || h.alt || h.shift || h.super_key,
{
}

/// The wanted hotkey is tried first, and no fallback repeats it.
pub proof fn lemma_candidates_start_with_wanted(spec: Seq<char>, i: int)
    requires
        1 <= i < hotkey_candidates(spec).len(),
    ensures
        hotkey_candidates(spec)[0] == spec,
        hotkey_candidates(spec)[i] != spec,
        hotkey_candidates(spec).len() <= 5,
{
}

proof fn lemma_non_flags_are_not_flags(s: Seq<Seq<char>>, i: int)
    requires
        0 <= i < non_flags(s).len(),
    ensures
        !is_flag_arg(non_flags(s)[i]),
    decreases s.len(),
{
    let r = non_flags(s.drop_last());
    if !is_flag_arg(s.last()) && i == r.len() {
    } else {
        if !is_flag_arg(s.last()) {
            assert(r.push(s.last())[i] == r[i]);
        }
        lemma_non_flags_are_not_flags(s.drop_last(), i);
    }
}

proof fn lemma_select_from(s: Seq<Seq<char>>, keep: Seq<bool>, i: int)
    requires
        0 <= i < select(s, keep).len(),
    ensures
        s.contains(select(s, keep)[i]),
    decreases s.len(),
{
    let r = select(s.drop_last(), keep.drop_last());
    if keep.last() && i == r.len() {
        assert(s[s.len() - 1] == s.last());
    } else {
        if keep.last() {
            assert(r.push(s.last())[i] == r[i]);
        }
        lemma_select_from(s.drop_last(), keep.drop_last(), i);
        let k = choose|k: int| 0 <= k < s.drop_last().len() && s.drop_last()[k] == r[i];
        assert(s[k] == r[i]);
    }
}

/// Paths taken from the command line never look like options: none starts with `-`,
/// and each is one of the arguments after the program's own path.
pub proof fn lemma_extracted_paths_are_arguments(argv: Seq<Seq<char>>, res: Seq<Seq<char>>, i: int)
    requires
        is_subsequence(res, path_candidates(argv)),
        0 <= i < res.len(),
    ensures
        !is_flag_arg(res[i]),
        path_candidates(argv).contains(res[i]),
{
    let c = path_candidates(argv);
    let keep = choose|keep: Seq<bool>| keep.len() == c.len() && res == #[trigger] select(c, keep);
    lemma_select_from(c, keep, i);
    let k = choose|k: int| 0 <= k < c.len() && c[k] == res[i];
    if argv.len() > 0 {
        lemma_non_flags_are_not_flags(argv.skip(1), k);
    }
}

/// A result is always named `<name>.<ext>` with the extension asked for.
pub proof fn lemma_output_name_ends_with_ext(base: Seq<char>, ext: Seq<char>, k: nat)
    ensures
        ends_with(output_file_name(base, ext, k), "."@ + ext),
{
    let n = output_file_name(base, ext, k);
    let suffix = "."@ + ext;
    if k == 0 {
        assert(n.subrange(n.len() - suffix.len(), n.len() as int) =~= suffix);
    } else {
        assert(n.subrange(n.len() - suffix.len(), n.len() as int) =~= suffix);
    }
}

proof fn lemma_hex_digits_len(h: nat, n: nat)
    ensures
        hex_digits(h, n).len() == n,
    decreases n,
{
    if n > 0 {
        lemma_hex_digits_len(h / 16, (n - 1) as nat);
    }
}

/// A thumbnail's name is the hash in exactly sixteen hex digits, then the extension.
pub proof fn lemma_thumb_name_width(hash: u64, ext: Seq<char>)
    ensures
        thumb_name(hash, ext).len() == 17 + ext.len(),
        thumb_name(hash, ext)[16] == '.',
{
    reveal_strlit(".");
    lemma_hex_digits_len(hash as nat, 16);
}

/// Counting a folder looks at no more than 2000 entries, and sorts each entry it looks
/// at into exactly one kind.
pub proof fn lemma_folder_counts_cover_entries(entries: Seq<(bool, Seq<char>)>)
    requires
        entries.len() <= FOLDER_SCAN_LIMIT,
    ensures
        folder_stats_of(entries).video + folder_stats_of(entries).audio + folder_stats_of(entries).image
            + folder_stats_of(entries).other + folder_stats_of(entries).dirs == entries.len(),
{
    lemma_counts_sum(entries);
}

/// `p` matches `s` at `i` from its `j`-th character on, checked character by character.
spec fn matches_from(s: Seq<char>, p: Seq<char>, i: int, j: int) -> bool
    decreases p.len() - j,
{
    if j < 0 || j >= p.len() {
        true
    } else {
        0 <= i + j < s.len() && s[i + j] == p[j] && matches_from(s, p, i, j + 1)
    }
}

/// A non-empty `p` occurs in `s` at `i` or later, checked position by position.
spec fn found_from(s: Seq<char>, p: Seq<char>, i: int) -> bool
    decreases s.len() - i,
{
    if p.len() == 0 || i < 0 || i + p.len() > s.len() {
        false
    } else {
        matches_from(s, p, i, 0) || found_from(s, p, i + 1)
    }
}

proof fn lemma_matches_from(s: Seq<char>, p: Seq<char>, i: int, j: int)
    requires
        occurs_at(s, p, i),
        0 <= j <= p.len(),
    ensures
        matches_from(s, p, i, j),
    decreases p.len() - j,
{
    if j < p.len() {
        assert(s.subrange(i, i + p.len())[j] == s[i + j]);
        lemma_matches_from(s, p, i, j + 1);
    }
}

proof fn lemma_not_found(s: Seq<char>, p: Seq<char>, i: int, k: int)
    requires
        p.len() > 0,
        0 <= i <= k,
        !found_from(s, p, i),
    ensures
        !occurs_at(s, p, k),
    decreases k - i,
{
    if occurs_at(s, p, k) {
        if i == k {
            lemma_matches_from(s, p, k, 0);
        } else {
            lemma_not_found(s, p, i + 1, k);
        }
    }
}

/// A non-empty `p` that is not found from the start does not occur in `s`.
proof fn lemma_absent(s: Seq<char>, p: Seq<char>)
    requires
        p.len() > 0,
        !found_from(s, p, 0),
    ensures
        !contains(s, p),
{
    if contains(s, p) {
        let k = choose|k: int| occurs_at(s, p, k);
        lemma_not_found(s, p, 0, k);
    }
}

/// From `i` on, `s` holds ASCII characters and no capital letter.
spec fn lower_ascii_from(s: Seq<char>, i: int) -> bool
    decreases s.len() - i,
{
    if i < 0 || i >= s.len() {
        true
    } else {
        s[i] <= '\u{7f}' && !('A' <= s[i] && s[i] <= 'Z') && lower_ascii_from(s, i + 1)
    }
}

proof fn lemma_lower_ascii_from(s: Seq<char>, i: int, k: int)
    requires
        0 <= i <= k < s.len(),
        lower_ascii_from(s, i),
    ensures
        s[k] <= '\u{7f}',
        ascii_lower(s[k]) == s[k],
    decreases k - i,
{
    if i < k {
        lemma_lower_ascii_from(s, i + 1, k);
    }
}

/// The checks of a proposed option, written out on characters: ASCII in lower case,
/// not `-i`, `-y` or `-f`, and holding none of the banned pieces.
spec fn checked_option(s: Seq<char>) -> bool {
    &&& lower_ascii_from(s, 0)
    &&& !(s.len() == 2 && s[0] == '-' && (s[1] == 'i' || s[1] == 'y' || s[1] == 'f'))
    &&& !found_from(s, seq!['m', 'o', 'v', 'i', 'e', '='], 0)
    &&& !found_from(s, seq!['a', 'm', 'o', 'v', 'i', 'e', '='], 0)
    &&& !found_from(s, seq!['c', 'o', 'n', 'c', 'a', 't', ':'], 0)
    &&& !found_from(s, seq!['s', 'u', 'b', 'f', 'i', 'l', 'e'], 0)
    &&& !found_from(s, seq!['/', 'd', 'e', 'v', '/'], 0)
    &&& !found_from(s, seq!['\\', '\\', '.', '\\'], 0)
    &&& !found_from(s, seq!['h', 't', 't', 'p', ':', '/', '/'], 0)
    &&& !found_from(s, seq!['h', 't', 't', 'p', 's', ':', '/', '/'], 0)
    &&& !found_from(s, seq!['f', 'i', 'l', 'e', ':'], 0)
    &&& !found_from(s, seq!['p', 'i', 'p', 'e', ':'], 0)
    &&& !found_from(s, seq!['-', 'a', 't', 't', 'a', 'c', 'h'], 0)
    &&& !found_from(s, seq!['-', 'm', 'a', 'p', '_', 'm', 'e', 't', 'a', 'd', 'a', 't', 'a', ':'], 0)
}

/// An option that passes the checks on characters is ASCII, its own lower-case form,
/// and refused by no rule of the option check.
proof fn lemma_checked_option(s: Seq<char>)
    requires
        checked_option(s),
    ensures
        all_ascii(s),
        ascii_lowercase(s) == s,
        !is_banned_exact(s),
        !has_banned_part(s),
{
    assert forall|k: int| 0 <= k < s.len() implies s[k] <= '\u{7f}' && ascii_lower(s[k]) == s[k] by {
        lemma_lower_ascii_from(s, 0, k);
    }
    assert(ascii_lowercase(s) =~= s);
    reveal_strlit("-i");
    reveal_strlit("-y");
    reveal_strlit("-f");
    reveal_strlit("movie=");
    assert("movie="@ == seq!['m', 'o', 'v', 'i', 'e', '=']);
    lemma_absent(s, seq!['m', 'o', 'v', 'i', 'e', '=']);
    reveal_strlit("amovie=");
    assert("amovie="@ == seq!['a', 'm', 'o', 'v', 'i', 'e', '=']);
    lemma_absent(s, seq!['a', 'm', 'o', 'v', 'i', 'e', '=']);
    reveal_strlit("concat:");
    assert("concat:"@ == seq!['c', 'o', 'n', 'c', 'a', 't', ':']);
    lemma_absent(s, seq!['c', 'o', 'n', 'c', 'a', 't', ':']);
    reveal_strlit("subfile");
    assert("subfile"@ == seq!['s', 'u', 'b', 'f', 'i', 'l', 'e']);
    lemma_absent(s, seq!['s', 'u', 'b', 'f', 'i', 'l', 'e']);
    reveal_strlit("/dev/");
    assert("/dev/"@ == seq!['/', 'd', 'e', 'v', '/']);
    lemma_absent(s, seq!['/', 'd', 'e', 'v', '/']);
    reveal_strlit("\\\\.\\");
    assert("\\\\.\\"@ == seq!['\\', '\\', '.', '\\']);
    lemma_absent(s, seq!['\\', '\\', '.', '\\']);
    reveal_strlit("http://");
    assert("http://"@ == seq!['h', 't', 't', 'p', ':', '/', '/']);
    lemma_absent(s, seq!['h', 't', 't', 'p', ':', '/', '/']);
    reveal_strlit("https://");
    assert("https://"@ == seq!['h', 't', 't', 'p', 's', ':', '/', '/']);
    lemma_absent(s, seq!['h', 't', 't', 'p', 's', ':', '/', '/']);
    reveal_strlit("file:");
    assert("file:"@ == seq!['f', 'i', 'l', 'e', ':']);
    lemma_absent(s, seq!['f', 'i', 'l', 'e', ':']);
    reveal_strlit("pipe:");
    assert("pipe:"@ == seq!['p', 'i', 'p', 'e', ':']);
    lemma_absent(s, seq!['p', 'i', 'p', 'e', ':']);
    reveal_strlit("-attach");
    assert("-attach"@ == seq!['-', 'a', 't', 't', 'a', 'c', 'h']);
    lemma_absent(s, seq!['-', 'a', 't', 't', 'a', 'c', 'h']);
    reveal_strlit("-map_metadata:");
    assert("-map_metadata:"@ == seq!['-', 'm', 'a', 'p', '_', 'm', 'e', 't', 'a', 'd', 'a', 't', 'a', ':']);
    lemma_absent(s, seq!['-', 'm', 'a', 'p', '_', 'm', 'e', 't', 'a', 'd', 'a', 't', 'a', ':']);
}

/// Options that each pass the checks on characters, and that the trusted lower-casing
/// maps as ASCII, raise no problem.
proof fn lemma_checked_list(opts: Seq<Seq<char>>)
    requires
        forall|k: int| 0 <= k < opts.len() ==> #[trigger] checked_option(opts[k]),
        forall|k: int| 0 <= k < opts.len() ==> #[trigger] lowercase(opts[k]) == ascii_lowercase(opts[k]),
    ensures
        first_problem(opts) is None,
    decreases opts.len(),
{
    if opts.len() > 0 {
        lemma_checked_option(opts[0]);
        assert(lowercase(opts[0]) == ascii_lowercase(opts[0]));
        let rest = opts.drop_first();
        assert forall|k: int| 0 <= k < rest.len() implies #[trigger] checked_option(rest[k]) by {
            assert(rest[k] == opts[k + 1]);
        }
        assert forall|k: int| 0 <= k < rest.len() implies #[trigger] lowercase(rest[k]) == ascii_lowercase(rest[k]) by {
            assert(rest[k] == opts[k + 1]);
            assert(lowercase(opts[k + 1]) == ascii_lowercase(opts[k + 1]));
        }
        lemma_checked_list(rest);
    }
}

/// The option `-af` passes the checks on characters.
proof fn lemma_option_0()
    ensures
        checked_option("-af"@),
{
    reveal_strlit("-af");
    reveal_with_fuel(lower_ascii_from, 5);
    reveal_with_fuel(found_from, 5);
    reveal_with_fuel(matches_from, 16);
    assert("-af"@ == seq!['-', 'a', 'f']);
}

/// The option `-an` passes the checks on characters.
proof fn lemma_option_1()
    ensures
        checked_option("-an"@),
{
    reveal_strlit("-an");
    reveal_with_fuel(lower_ascii_from, 5);
    reveal_with_fuel(found_from, 5);
    reveal_with_fuel(matches_from, 16);
    assert("-an"@ == seq!['-', 'a', 'n']);
}

/// The option `-b:a` passes the checks on characters.
proof fn lemma_option_2()
    ensures
        checked_option("-b:a"@),
{
    reveal_strlit("-b:a");
    reveal_with_fuel(lower_ascii_from, 6);
    reveal_with_fuel(found_from, 6);
    reveal_with_fuel(matches_from, 16);
    assert("-b:a"@ == seq!['-', 'b', ':', 'a']);
}

/// The option `-b:v` passes the checks on characters.
proof fn lemma_option_3()
    ensures
        checked_option("-b:v"@),
{
    reveal_strlit("-b:v");
    reveal_with_fuel(lower_ascii_from, 6);
    reveal_with_fuel(found_from, 6);
    reveal_with_fuel(matches_from, 16);
    assert("-b:v"@ == seq!['-', 'b', ':', 'v']);
}

/// The option `-c:a` passes the checks on characters.
proof fn lemma_option_4()
    ensures
        checked_option("-c:a"@),
{
    reveal_strlit("-c:a");
    reveal_with_fuel(lower_ascii_from, 6);
    reveal_with_fuel(found_from, 6);
    reveal_with_fuel(matches_from, 16);
    assert("-c:a"@ == seq!['-', 'c', ':', 'a']);
}

/// The option `-c:v` passes the checks on characters.
proof fn lemma_option_5()
    ensures
        checked_option("-c:v"@),
{
    reveal_strlit("-c:v");
    reveal_with_fuel(lower_ascii_from, 6);
    reveal_with_fuel(found_from, 6);
    reveal_with_fuel(matches_from, 16);
    assert("-c:v"@ == seq!['-', 'c', ':', 'v']);
}

/// The option `-crf` passes the checks on characters.
proof fn lemma_option_6()
    ensures
        checked_option("-crf"@),
{
    reveal_strlit("-crf");
    reveal_with_fuel(lower_ascii_from, 6);
    reveal_with_fuel(found_from, 6);
    reveal_with_fuel(matches_from, 16);
    assert("-crf"@ == seq!['-', 'c', 'r', 'f']);
}

/// The option `-preset` passes the checks on characters.
proof fn lemma_option_7()
    ensures
        checked_option("-preset"@),
{
    reveal_strlit("-preset");
    reveal_with_fuel(lower_ascii_from, 9);
    reveal_with_fuel(found_from, 9);
    reveal_with_fuel(matches_from, 16);
    assert("-preset"@ == seq!['-', 'p', 'r', 'e', 's', 'e', 't']);
}

/// The option `-q:v` passes the checks on characters.
proof fn lemma_option_8()
    ensures
        checked_option("-q:v"@),
{
    reveal_strlit("-q:v");
    reveal_with_fuel(lower_ascii_from, 6);
    reveal_with_fuel(found_from, 6);
    reveal_with_fuel(matches_from, 16);
    assert("-q:v"@ == seq!['-', 'q', ':', 'v']);
}

/// The option `-quality` passes the checks on characters.
proof fn lemma_option_9()
    ensures
        checked_option("-quality"@),
{
    reveal_strlit("-quality");
    reveal_with_fuel(lower_ascii_from, 10);
    reveal_with_fuel(found_from, 10);
    reveal_with_fuel(matches_from, 16);
    assert("-quality"@ == seq!['-', 'q', 'u', 'a', 'l', 'i', 't', 'y']);
}

/// The option `-vf` passes the checks on characters.
proof fn lemma_option_10()
    ensures
        checked_option("-vf"@),
{
    reveal_strlit("-vf");
    reveal_with_fuel(lower_ascii_from, 5);
    reveal_with_fuel(found_from, 5);
    reveal_with_fuel(matches_from, 16);
    assert("-vf"@ == seq!['-', 'v', 'f']);
}

/// The option `-vn` passes the checks on characters.
proof fn lemma_option_11()
    ensures
        checked_option("-vn"@),
{
    reveal_strlit("-vn");
    reveal_with_fuel(lower_ascii_from, 5);
    reveal_with_fuel(found_from, 5);
    reveal_with_fuel(matches_from, 16);
    assert("-vn"@ == seq!['-', 'v', 'n']);
}

/// The option `0` passes the checks on characters.
proof fn lemma_option_12()
    ensures
        checked_option("0"@),
{
    reveal_strlit("0");
    reveal_with_fuel(lower_ascii_from, 3);
    reveal_with_fuel(found_from, 3);
    reveal_with_fuel(matches_from, 16);
    assert("0"@ == seq!['0']);
}

/// The option `128k` passes the checks on characters.
proof fn lemma_option_13()
    ensures
        checked_option("128k"@),
{
    reveal_strlit("128k");
    reveal_with_fuel(lower_ascii_from, 6);
    reveal_with_fuel(found_from, 6);
    reveal_with_fuel(matches_from, 16);
    assert("128k"@ == seq!['1', '2', '8', 'k']);
}

/// The option `192k` passes the checks on characters.
proof fn lemma_option_14()
    ensures
        checked_option("192k"@),
{
    reveal_strlit("192k");
    reveal_with_fuel(lower_ascii_from, 6);
    reveal_with_fuel(found_from, 6);
    reveal_with_fuel(matches_from, 16);
    assert("192k"@ == seq!['1', '9', '2', 'k']);
}

/// The option `2` passes the checks on characters.
proof fn lemma_option_15()
    ensures
        checked_option("2"@),
{
    reveal_strlit("2");
    reveal_with_fuel(lower_ascii_from, 3);
    reveal_with_fuel(found_from, 3);
    reveal_with_fuel(matches_from, 16);
    assert("2"@ == seq!['2']);
}

/// The option `20` passes the checks on characters.
proof fn lemma_option_16()
    ensures
        checked_option("20"@),
{
    reveal_strlit("20");
    reveal_with_fuel(lower_ascii_from, 4);
    reveal_with_fuel(found_from, 4);
    reveal_with_fuel(matches_from, 16);
    assert("20"@ == seq!['2', '0']);
}

/// The option `28` passes the checks on characters.
proof fn lemma_option_17()
    ensures
        checked_option("28"@),
{
    reveal_strlit("28");
    reveal_with_fuel(lower_ascii_from, 4);
    reveal_with_fuel(found_from, 4);
    reveal_with_fuel(matches_from, 16);
    assert("28"@ == seq!['2', '8']);
}

/// The option `32` passes the checks on characters.
proof fn lemma_option_18()
    ensures
        checked_option("32"@),
{
    reveal_strlit("32");
    reveal_with_fuel(lower_ascii_from, 4);
    reveal_with_fuel(found_from, 4);
    reveal_with_fuel(matches_from, 16);
    assert("32"@ == seq!['3', '2']);
}

/// The option `85` passes the checks on characters.
proof fn lemma_option_19()
    ensures
        checked_option("85"@),
{
    reveal_strlit("85");
    reveal_with_fuel(lower_ascii_from, 4);
    reveal_with_fuel(found_from, 4);
    reveal_with_fuel(matches_from, 16);
    assert("85"@ == seq!['8', '5']);
}

/// The option `aac` passes the checks on characters.
proof fn lemma_option_20()
    ensures
        checked_option("aac"@),
{
    reveal_strlit("aac");
    reveal_with_fuel(lower_ascii_from, 5);
    reveal_with_fuel(found_from, 5);
    reveal_with_fuel(matches_from, 16);
    assert("aac"@ == seq!['a', 'a', 'c']);
}

/// The option `copy` passes the checks on characters.
proof fn lemma_option_21()
    ensures
        checked_option("copy"@),
{
    reveal_strlit("copy");
    reveal_with_fuel(lower_ascii_from, 6);
    reveal_with_fuel(found_from, 6);
    reveal_with_fuel(matches_from, 16);
    assert("copy"@ == seq!['c', 'o', 'p', 'y']);
}

/// The option `flac` passes the checks on characters.
proof fn lemma_option_22()
    ensures
        checked_option("flac"@),
{
    reveal_strlit("flac");
    reveal_with_fuel(lower_ascii_from, 6);
    reveal_with_fuel(found_from, 6);
    reveal_with_fuel(matches_from, 16);
    assert("flac"@ == seq!['f', 'l', 'a', 'c']);
}

/// The option `fps=12,scale=480:-1:flags=lanczos` passes the checks on characters.
proof fn lemma_option_23()
    ensures
        checked_option("fps=12,scale=480:-1:flags=lanczos"@),
{
    reveal_strlit("fps=12,scale=480:-1:flags=lanczos");
    reveal_with_fuel(lower_ascii_from, 35);
    reveal_with_fuel(found_from, 35);
    reveal_with_fuel(matches_from, 16);
    assert("fps=12,scale=480:-1:flags=lanczos"@ == seq!['f', 'p', 's', '=', '1', '2', ',', 's', 'c', 'a', 'l', 'e', '=', '4', '8', '0', ':', '-', '1', ':', 'f', 'l', 'a', 'g', 's', '=', 'l', 'a', 'n', 'c', 'z', 'o', 's']);
}

/// The option `libmp3lame` passes the checks on characters.
proof fn lemma_option_24()
    ensures
        checked_option("libmp3lame"@),
{
    reveal_strlit("libmp3lame");
    reveal_with_fuel(lower_ascii_from, 12);
    reveal_with_fuel(found_from, 12);
    reveal_with_fuel(matches_from, 16);
    assert("libmp3lame"@ == seq!['l', 'i', 'b', 'm', 'p', '3', 'l', 'a', 'm', 'e']);
}

/// The option `libopus` passes the checks on characters.
proof fn lemma_option_25()
    ensures
        checked_option("libopus"@),
{
    reveal_strlit("libopus");
    reveal_with_fuel(lower_ascii_from, 9);
    reveal_with_fuel(found_from, 9);
    reveal_with_fuel(matches_from, 16);
    assert("libopus"@ == seq!['l', 'i', 'b', 'o', 'p', 'u', 's']);
}

/// The option `libvpx-vp9` passes the checks on characters.
proof fn lemma_option_26()
    ensures
        checked_option("libvpx-vp9"@),
{
    reveal_strlit("libvpx-vp9");
    reveal_with_fuel(lower_ascii_from, 12);
    reveal_with_fuel(found_from, 12);
    reveal_with_fuel(matches_from, 16);
    assert("libvpx-vp9"@ == seq!['l', 'i', 'b', 'v', 'p', 'x', '-', 'v', 'p', '9']);
}

/// The option `libx264` passes the checks on characters.
proof fn lemma_option_27()
    ensures
        checked_option("libx264"@),
{
    reveal_strlit("libx264");
    reveal_with_fuel(lower_ascii_from, 9);
    reveal_with_fuel(found_from, 9);
    reveal_with_fuel(matches_from, 16);
    assert("libx264"@ == seq!['l', 'i', 'b', 'x', '2', '6', '4']);
}

/// The option `loudnorm` passes the checks on characters.
proof fn lemma_option_28()
    ensures
        checked_option("loudnorm"@),
{
    reveal_strlit("loudnorm");
    reveal_with_fuel(lower_ascii_from, 10);
    reveal_with_fuel(found_from, 10);
    reveal_with_fuel(matches_from, 16);
    assert("loudnorm"@ == seq!['l', 'o', 'u', 'd', 'n', 'o', 'r', 'm']);
}

/// The option `medium` passes the checks on characters.
proof fn lemma_option_29()
    ensures
        checked_option("medium"@),
{
    reveal_strlit("medium");
    reveal_with_fuel(lower_ascii_from, 8);
    reveal_with_fuel(found_from, 8);
    reveal_with_fuel(matches_from, 16);
    assert("medium"@ == seq!['m', 'e', 'd', 'i', 'u', 'm']);
}

/// The option `pcm_s16le` passes the checks on characters.
proof fn lemma_option_30()
    ensures
        checked_option("pcm_s16le"@),
{
    reveal_strlit("pcm_s16le");
    reveal_with_fuel(lower_ascii_from, 11);
    reveal_with_fuel(found_from, 11);
    reveal_with_fuel(matches_from, 16);
    assert("pcm_s16le"@ == seq!['p', 'c', 'm', '_', 's', '1', '6', 'l', 'e']);
}

/// The option `scale='min(1920,iw)':'min(1080,ih)':force_original_aspect_ratio=decrease` passes the checks on characters.
proof fn lemma_option_31()
    ensures
        checked_option("scale='min(1920,iw)':'min(1080,ih)':force_original_aspect_ratio=decrease"@),
{
    reveal_strlit("scale='min(1920,iw)':'min(1080,ih)':force_original_aspect_ratio=decrease");
    reveal_with_fuel(lower_ascii_from, 74);
    reveal_with_fuel(found_from, 74);
    reveal_with_fuel(matches_from, 16);
    assert("scale='min(1920,iw)':'min(1080,ih)':force_original_aspect_ratio=decrease"@ == seq!['s', 'c', 'a', 'l', 'e', '=', '\'', 'm', 'i', 'n', '(', '1', '9', '2', '0', ',', 'i', 'w', ')', '\'', ':', '\'', 'm', 'i', 'n', '(', '1', '0', '8', '0', ',', 'i', 'h', ')', '\'', ':', 'f', 'o', 'r', 'c', 'e', '_', 'o', 'r', 'i', 'g', 'i', 'n', 'a', 'l', '_', 'a', 's', 'p', 'e', 'c', 't', '_', 'r', 'a', 't', 'i', 'o', '=', 'd', 'e', 'c', 'r', 'e', 'a', 's', 'e']);
}

/// The option `scale=-2:720` passes the checks on characters.
proof fn lemma_option_32()
    ensures
        checked_option("scale=-2:720"@),
{
    reveal_strlit("scale=-2:720");
    reveal_with_fuel(lower_ascii_from, 14);
    reveal_with_fuel(found_from, 14);
    reveal_with_fuel(matches_from, 16);
    assert("scale=-2:720"@ == seq!['s', 'c', 'a', 'l', 'e', '=', '-', '2', ':', '7', '2', '0']);
}

/// Every preset's options would pass the check applied to a model's options: they are
/// ASCII, and since `str::to_lowercase` maps ASCII text as ASCII, none of them is refused.
pub proof fn lemma_preset_options_pass_check(id: Seq<char>)
    requires
        preset_options(id) is Some,
    ensures
        forall|k: int|
            0 <= k < preset_options(id)->0.len() ==> all_ascii(#[trigger] preset_options(id)->0[k]),
        (forall|k: int|
            0 <= k < preset_options(id)->0.len() ==> #[trigger] lowercase(preset_options(id)->0[k])
                == ascii_lowercase(preset_options(id)->0[k])) ==> validation_error(
            preset_options(id)->0,
        ) is None,
{
    lemma_option_0();
    lemma_option_1();
    lemma_option_2();
    lemma_option_3();
    lemma_option_4();
    lemma_option_5();
    lemma_option_6();
    lemma_option_7();
    lemma_option_8();
    lemma_option_9();
    lemma_option_10();
    lemma_option_11();
    lemma_option_12();
    lemma_option_13();
    lemma_option_14();
    lemma_option_15();
    lemma_option_16();
    lemma_option_17();
    lemma_option_18();
    lemma_option_19();
    lemma_option_20();
    lemma_option_21();
    lemma_option_22();
    lemma_option_23();
    lemma_option_24();
    lemma_option_25();
    lemma_option_26();
    lemma_option_27();
    lemma_option_28();
    lemma_option_29();
    lemma_option_30();
    lemma_option_31();
    lemma_option_32();
    let o = preset_options(id)->0;
    assert forall|k: int| 0 <= k < o.len() implies #[trigger] checked_option(o[k]) by {
        if id == "video_mp4"@ {
        } else if id == "video_compress"@ {
        } else if id == "video_extract_audio"@ {
        } else if id == "video_gif"@ {
        } else if id == "video_webm"@ {
        } else if id == "video_mute"@ {
        } else if id == "audio_mp3"@ {
        } else if id == "audio_wav"@ {
        } else if id == "audio_flac"@ {
        } else if id == "audio_m4a"@ {
        } else if id == "audio_normalize"@ {
        } else if id == "image_jpg"@ {
        } else if id == "image_png"@ {
        } else if id == "image_webp"@ {
        } else if id == "image_resize"@ {
        }
    }
    assert forall|k: int| 0 <= k < o.len() implies all_ascii(#[trigger] o[k]) by {
        lemma_checked_option(o[k]);
    }
    if forall|k: int| 0 <= k < o.len() ==> #[trigger] lowercase(o[k]) == ascii_lowercase(o[k]) {
        lemma_checked_list(o);
    }
}

proof fn lemma_replaced_has_no_break(s: Seq<char>)
    ensures
        !replace_char(s, '\n', "; "@).contains('\n'),
    decreases s.len(),
{
    reveal_strlit("; ");
    if s.len() > 0 {
        lemma_replaced_has_no_break(s.drop_first());
        let head = if s[0] == '\n' { "; "@ } else { seq![s[0]] };
        let rest = replace_char(s.drop_first(), '\n', "; "@);
        assert forall|i: int| 0 <= i < (head + rest).len() implies (head + rest)[i] != '\n' by {
            if i >= head.len() {
                assert((head + rest)[i] == rest[i - head.len()]);
            }
        }
    }
}

proof fn lemma_trim_start_shape(s: Seq<char>)
    ensures
        trim_start(s).len() <= s.len(),
        trim_start(s) == s.skip(s.len() - trim_start(s).len()),
        trim_start(s).len() > 0 ==> !is_ws(trim_start(s)[0]),
    decreases s.len(),
{
    if s.len() > 0 && is_ws(s[0]) {
        lemma_trim_start_shape(s.drop_first());
        assert(s.drop_first().skip(s.len() - 1 - trim_start(s).len()) =~= s.skip(
            s.len() - trim_start(s).len(),
        ));
    } else {
        assert(s.skip(0) =~= s);
    }
}

proof fn lemma_trim_end_shape(s: Seq<char>)
    ensures
        trim_end(s).len() <= s.len(),
        trim_end(s) == s.take(trim_end(s).len() as int),
        trim_end(s).len() > 0 ==> !is_ws(trim_end(s).last()),
    decreases s.len(),
{
    if s.len() > 0 && is_ws(s.last()) {
        lemma_trim_end_shape(s.drop_last());
        assert(s.drop_last().take(trim_end(s).len() as int) =~= s.take(trim_end(s).len() as int));
    } else {
        assert(s.take(s.len() as int) =~= s);
    }
}

/// The ffprobe report put into a prompt is one line: it holds no line break, and there
/// is no whitespace left to trim at either end.
pub proof fn lemma_probe_summary_one_line(report: Seq<char>)
    ensures
        !probe_summary(report).contains('\n'),
        trim(probe_summary(report)) == probe_summary(report),
{
    let x = replace_char(report, '\n', "; "@);
    lemma_replaced_has_no_break(report);
    let u = trim_start(x);
    let t = trim_end(u);
    lemma_trim_start_shape(x);
    lemma_trim_end_shape(u);
    assert(t == probe_summary(report));
    assert forall|i: int| 0 <= i < t.len() implies t[i] != '\n' by {
        assert(t[i] == u[i]);
        assert(u[i] == x[x.len() - u.len() + i]);
    }
    if t.len() > 0 {
        assert(t[0] == u[0]);
        assert(trim_start(t) == t);
        assert(trim_end(t) == t);
    } else {
        assert(trim_start(t) == t);
    }
}

proof fn lemma_no_problems(opts: Seq<Seq<char>>)
    requires
        forall|i: int| 0 <= i < opts.len() ==> #[trigger] option_problem(opts[i]) is None,
    ensures
        first_problem(opts) is None,
    decreases opts.len(),
{
    if opts.len() > 0 {
        let rest = opts.drop_first();
        assert(option_problem(opts[0]) is None);
        assert forall|i: int| 0 <= i < rest.len() implies #[trigger] option_problem(rest[i]) is None by {
            assert(rest[i] == opts[i + 1]);
        }
        lemma_no_problems(rest);
    }
}

proof fn lemma_select_len(s: Seq<Seq<char>>, keep: Seq<bool>)
    ensures
        select(s, keep).len() <= s.len(),
    decreases s.len(),
{
    if s.len() > 0 && keep.len() > 0 {
        lemma_select_len(s.drop_last(), keep.drop_last());
    }
}

/// Leaving options out of an accepted list keeps it accepted: whatever remains of an
/// accepted list once some options are dropped passes the check too.
pub proof fn lemma_fewer_options_still_accepted(xs: Seq<Seq<char>>, ys: Seq<Seq<char>>)
    requires
        validation_error(ys) is None,
        is_subsequence(xs, ys),
    ensures
        validation_error(xs) is None,
{
    let keep = choose|keep: Seq<bool>| keep.len() == ys.len() && xs == #[trigger] select(ys, keep);
    lemma_select_len(ys, keep);
    assert forall|i: int| 0 <= i < xs.len() implies #[trigger] option_problem(xs[i]) is None by {
        lemma_select_from(ys, keep, i);
        let k = choose|k: int| 0 <= k < ys.len() && ys[k] == xs[i];
        lemma_first_problem_none(ys, k);
    }
    lemma_no_problems(xs);
}

/// A lower-case ASCII letter or a digit.
pub open spec fn is_lower_alnum(c: char) -> bool {
    ('0' <= c && c <= '9') || ('a' <= c && c <= 'z')
}

proof fn lemma_alnum_only_keeps(s: Seq<char>)
    requires
        forall|j: int| 0 <= j < s.len() ==> is_ascii_alnum(#[trigger] s[j]),
    ensures
        ascii_alnum_only(s) == s,
    decreases s.len(),
{
    if s.len() > 0 {
        assert(is_ascii_alnum(s[s.len() - 1]));
        lemma_alnum_only_keeps(s.drop_last());
        assert(s.drop_last().push(s.last()) =~= s);
    }
}

/// An extension of lower-case letters and digits is its own sanitized form.
proof fn lemma_plain_ext_is_safe(e: Seq<char>)
    requires
        e.len() > 0,
        forall|j: int| 0 <= j < e.len() ==> is_lower_alnum(#[trigger] e[j]),
    ensures
        safe_ext(e) == e,
{
    assert(is_lower_alnum(e[0]));
    assert(trim_start_char(e, '.') == e);
    lemma_alnum_only_keeps(e);
}

/// The catalogue's shape: six video, five audio, four image presets and none for other
/// files; each preset's extension is a non-empty run of lower-case letters and digits,
/// with no dot, so sanitizing it changes nothing.
pub proof fn lemma_catalogue_shape(cat: Category, i: int)
    requires
        0 <= i < presets_of(cat).len(),
    ensures
        presets_of(Category::Video).len() == 6,
        presets_of(Category::Audio).len() == 5,
        presets_of(Category::Image).len() == 4,
        presets_of(Category::Other).len() == 0,
        presets_of(cat)[i].target_ext.len() > 0,
        forall|j: int|
            0 <= j < presets_of(cat)[i].target_ext.len() ==> is_lower_alnum(
                #[trigger] presets_of(cat)[i].target_ext[j],
            ),
        safe_ext(presets_of(cat)[i].target_ext) == presets_of(cat)[i].target_ext,
{
    reveal_strlit("flac");
    reveal_strlit("gif");
    reveal_strlit("jpg");
    reveal_strlit("m4a");
    reveal_strlit("mp3");
    reveal_strlit("mp4");
    reveal_strlit("png");
    reveal_strlit("wav");
    reveal_strlit("webm");
    reveal_strlit("webp");
    let e = presets_of(cat)[i].target_ext;
    assert(e.len() > 0 && forall|j: int| 0 <= j < e.len() ==> is_lower_alnum(#[trigger] e[j])) by {
        if cat == Category::Video && i == 0 {
            assert(e == "mp4"@);
        } else if cat == Category::Video && i == 1 {
            assert(e == "mp4"@);
        } else if cat == Category::Video && i == 2 {
            assert(e == "mp3"@);
        } else if cat == Category::Video && i == 3 {
            assert(e == "gif"@);
        } else if cat == Category::Video && i == 4 {
            assert(e == "webm"@);
        } else if cat == Category::Video && i == 5 {
            assert(e == "mp4"@);
        } else if cat == Category::Audio && i == 0 {
            assert(e == "mp3"@);
        } else if cat == Category::Audio && i == 1 {
            assert(e == "wav"@);
        } else if cat == Category::Audio && i == 2 {
            assert(e == "flac"@);
        } else if cat == Category::Audio && i == 3 {
            assert(e == "m4a"@);
        } else if cat == Category::Audio && i == 4 {
            assert(e == "mp3"@);
        } else if cat == Category::Image && i == 0 {
            assert(e == "jpg"@);
        } else if cat == Category::Image && i == 1 {
            assert(e == "png"@);
        } else if cat == Category::Image && i == 2 {
            assert(e == "webp"@);
        } else if cat == Category::Image && i == 3 {
            assert(e == "jpg"@);
        }
    }
    lemma_plain_ext_is_safe(e);
}

/// No two presets of the catalogue share an id.
pub proof fn lemma_catalogue_ids_distinct(c1: Category, i: int, c2: Category, j: int)
    requires
        0 <= i < presets_of(c1).len(),
        0 <= j < presets_of(c2).len(),
        !(c1 == c2 && i == j),
    ensures
        presets_of(c1)[i].id != presets_of(c2)[j].id,
{
    reveal_preset_ids();
    let a = presets_of(c1)[i].id;
    let b = presets_of(c2)[j].id;
    if c1 == Category::Video && i == 0 {
        assert(a == "video_mp4"@);
        if c2 == Category::Video && j == 0 {
            assert(b == "video_mp4"@);
        } else if c2 == Category::Video && j == 1 {
            assert(b == "video_compress"@);
        } else if c2 == Category::Video && j == 2 {
            assert(b == "video_extract_audio"@);
        } else if c2 == Category::Video && j == 3 {
            assert(b == "video_gif"@);
        } else if c2 == Category::Video && j == 4 {
            assert(b == "video_webm"@);
        } else if c2 == Category::Video && j == 5 {
            assert(b == "video_mute"@);
        } else if c2 == Category::Audio && j == 0 {
            assert(b == "audio_mp3"@);
        } else if c2 == Category::Audio && j == 1 {
            assert(b == "audio_wav"@);
        } else if c2 == Category::Audio && j == 2 {
            assert(b == "audio_flac"@);
        } else if c2 == Category::Audio && j == 3 {
            assert(b == "audio_m4a"@);
        } else if c2 == Category::Audio && j == 4 {
            assert(b == "audio_normalize"@);
        } else if c2 == Category::Image && j == 0 {
            assert(b == "image_jpg"@);
        } else if c2 == Category::Image && j == 1 {
            assert(b == "image_png"@);
        } else if c2 == Category::Image && j == 2 {
            assert(b == "image_webp"@);
        } else if c2 == Category::Image && j == 3 {
            assert(b == "image_resize"@);
        }
    } else if c1 == Category::Video && i == 1 {
        assert(a == "video_compress"@);
        if c2 == Category::Video && j == 0 {
            assert(b == "video_mp4"@);
        } else if c2 == Category::Video && j == 1 {
            assert(b == "video_compress"@);
        } else if c2 == Category::Video && j == 2 {
            assert(b == "video_extract_audio"@);
        } else if c2 == Category::Video && j == 3 {
            assert(b == "video_gif"@);
        } else if c2 == Category::Video && j == 4 {
            assert(b == "video_webm"@);
        } else if c2 == Category::Video && j == 5 {
            assert(b == "video_mute"@);
        } else if c2 == Category::Audio && j == 0 {
            assert(b == "audio_mp3"@);
        } else if c2 == Category::Audio && j == 1 {
            assert(b == "audio_wav"@);
        } else if c2 == Category::Audio && j == 2 {
            assert(b == "audio_flac"@);
        } else if c2 == Category::Audio && j == 3 {
            assert(b == "audio_m4a"@);
        } else if c2 == Category::Audio && j == 4 {
            assert(b == "audio_normalize"@);
        } else if c2 == Category::Image && j == 0 {
            assert(b == "image_jpg"@);
        } else if c2 == Category::Image && j == 1 {
            assert(b == "image_png"@);
        } else if c2 == Category::Image && j == 2 {
            assert(b == "image_webp"@);
        } else if c2 == Category::Image && j == 3 {
            assert(b == "image_resize"@);
        }
    } else if c1 == Category::Video && i == 2 {
        assert(a == "video_extract_audio"@);
        if c2 == Category::Video && j == 0 {
            assert(b == "video_mp4"@);
        } else if c2 == Category::Video && j == 1 {
            assert(b == "video_compress"@);
        } else if c2 == Category::Video && j == 2 {
            assert(b == "video_extract_audio"@);
        } else if c2 == Category::Video && j == 3 {
            assert(b == "video_gif"@);
        } else if c2 == Category::Video && j == 4 {
            assert(b == "video_webm"@);
        } else if c2 == Category::Video && j == 5 {
            assert(b == "video_mute"@);
        } else if c2 == Category::Audio && j == 0 {
            assert(b == "audio_mp3"@);
        } else if c2 == Category::Audio && j == 1 {
            assert(b == "audio_wav"@);
        } else if c2 == Category::Audio && j == 2 {
            assert(b == "audio_flac"@);
        } else if c2 == Category::Audio && j == 3 {
            assert(b == "audio_m4a"@);
        } else if c2 == Category::Audio && j == 4 {
            assert(b == "audio_normalize"@);
        } else if c2 == Category::Image && j == 0 {
            assert(b == "image_jpg"@);
        } else if c2 == Category::Image && j == 1 {
            assert(b == "image_png"@);
        } else if c2 == Category::Image && j == 2 {
            assert(b == "image_webp"@);
        } else if c2 == Category::Image && j == 3 {
            assert(b == "image_resize"@);
        }
    } else if c1 == Category::Video && i == 3 {
        assert(a == "video_gif"@);
        if c2 == Category::Video && j == 0 {
            assert(b == "video_mp4"@);
        } else if c2 == Category::Video && j == 1 {
            assert(b == "video_compress"@);
        } else if c2 == Category::Video && j == 2 {
            assert(b == "video_extract_audio"@);
        } else if c2 == Category::Video && j == 3 {
            assert(b == "video_gif"@);
        } else if c2 == Category::Video && j == 4 {
            assert(b == "video_webm"@);
        } else if c2 == Category::Video && j == 5 {
            assert(b == "video_mute"@);
        } else if c2 == Category::Audio && j == 0 {
            assert(b == "audio_mp3"@);
        } else if c2 == Category::Audio && j == 1 {
            assert(b == "audio_wav"@);
        } else if c2 == Category::Audio && j == 2 {
            assert(b == "audio_flac"@);
        } else if c2 == Category::Audio && j == 3 {
            assert(b == "audio_m4a"@);
        } else if c2 == Category::Audio && j == 4 {
            assert(b == "audio_normalize"@);
        } else if c2 == Category::Image && j == 0 {
            assert(b == "image_jpg"@);
        } else if c2 == Category::Image && j == 1 {
            assert(b == "image_png"@);
        } else if c2 == Category::Image && j == 2 {
            assert(b == "image_webp"@);
        } else if c2 == Category::Image && j == 3 {
            assert(b == "image_resize"@);
        }
    } else if c1 == Category::Video && i == 4 {
        assert(a == "video_webm"@);
        if c2 == Category::Video && j == 0 {
            assert(b == "video_mp4"@);
        } else if c2 == Category::Video && j == 1 {
            assert(b == "video_compress"@);
        } else if c2 == Category::Video && j == 2 {
            assert(b == "video_extract_audio"@);
        } else if c2 == Category::Video && j == 3 {
            assert(b == "video_gif"@);
        } else if c2 == Category::Video && j == 4 {
            assert(b == "video_webm"@);
        } else if c2 == Category::Video && j == 5 {
            assert(b == "video_mute"@);
        } else if c2 == Category::Audio && j == 0 {
            assert(b == "audio_mp3"@);
        } else if c2 == Category::Audio && j == 1 {
            assert(b == "audio_wav"@);
        } else if c2 == Category::Audio && j == 2 {
            assert(b == "audio_flac"@);
        } else if c2 == Category::Audio && j == 3 {
            assert(b == "audio_m4a"@);
        } else if c2 == Category::Audio && j == 4 {
            assert(b == "audio_normalize"@);
        } else if c2 == Category::Image && j == 0 {
            assert(b == "image_jpg"@);
        } else if c2 == Category::Image && j == 1 {
            assert(b == "image_png"@);
        } else if c2 == Category::Image && j == 2 {
            assert(b == "image_webp"@);
        } else if c2 == Category::Image && j == 3 {
            assert(b == "image_resize"@);
        }
    } else if c1 == Category::Video && i == 5 {
        assert(a == "video_mute"@);
        if c2 == Category::Video && j == 0 {
            assert(b == "video_mp4"@);
        } else if c2 == Category::Video && j == 1 {
            assert(b == "video_compress"@);
        } else if c2 == Category::Video && j == 2 {
            assert(b == "video_extract_audio"@);
        } else if c2 == Category::Video && j == 3 {
            assert(b == "video_gif"@);
        } else if c2 == Category::Video && j == 4 {
            assert(b == "video_webm"@);
        } else if c2 == Category::Video && j == 5 {
            assert(b == "video_mute"@);
        } else if c2 == Category::Audio && j == 0 {
            assert(b == "audio_mp3"@);
        } else if c2 == Category::Audio && j == 1 {
            assert(b == "audio_wav"@);
        } else if c2 == Category::Audio && j == 2 {
            assert(b == "audio_flac"@);
        } else if c2 == Category::Audio && j == 3 {
            assert(b == "audio_m4a"@);
        } else if c2 == Category::Audio && j == 4 {
            assert(b == "audio_normalize"@);
        } else if c2 == Category::Image && j == 0 {
            assert(b == "image_jpg"@);
        } else if c2 == Category::Image && j == 1 {
            assert(b == "image_png"@);
        } else if c2 == Category::Image && j == 2 {
            assert(b == "image_webp"@);
        } else if c2 == Category::Image && j == 3 {
            assert(b == "image_resize"@);
        }
    } else if c1 == Category::Audio && i == 0 {
        assert(a == "audio_mp3"@);
        if c2 == Category::Video && j == 0 {
            assert(b == "video_mp4"@);
        } else if c2 == Category::Video && j == 1 {
            assert(b == "video_compress"@);
        } else if c2 == Category::Video && j == 2 {
            assert(b == "video_extract_audio"@);
        } else if c2 == Category::Video && j == 3 {
            assert(b == "video_gif"@);
        } else if c2 == Category::Video && j == 4 {
            assert(b == "video_webm"@);
        } else if c2 == Category::Video && j == 5 {
            assert(b == "video_mute"@);
        } else if c2 == Category::Audio && j == 0 {
            assert(b == "audio_mp3"@);
        } else if c2 == Category::Audio && j == 1 {
            assert(b == "audio_wav"@);
        } else if c2 == Category::Audio && j == 2 {
            assert(b == "audio_flac"@);
        } else if c2 == Category::Audio && j == 3 {
            assert(b == "audio_m4a"@);
        } else if c2 == Category::Audio && j == 4 {
            assert(b == "audio_normalize"@);
        } else if c2 == Category::Image && j == 0 {
            assert(b == "image_jpg"@);
        } else if c2 == Category::Image && j == 1 {
            assert(b == "image_png"@);
        } else if c2 == Category::Image && j == 2 {
            assert(b == "image_webp"@);
        } else if c2 == Category::Image && j == 3 {
            assert(b == "image_resize"@);
        }
    } else if c1 == Category::Audio && i == 1 {
        assert(a == "audio_wav"@);
        if c2 == Category::Video && j == 0 {
            assert(b == "video_mp4"@);
        } else if c2 == Category::Video && j == 1 {
            assert(b == "video_compress"@);
        } else if c2 == Category::Video && j == 2 {
            assert(b == "video_extract_audio"@);
        } else if c2 == Category::Video && j == 3 {
            assert(b == "video_gif"@);
        } else if c2 == Category::Video && j == 4 {
            assert(b == "video_webm"@);
        } else if c2 == Category::Video && j == 5 {
            assert(b == "video_mute"@);
        } else if c2 == Category::Audio && j == 0 {
            assert(b == "audio_mp3"@);
        } else if c2 == Category::Audio && j == 1 {
            assert(b == "audio_wav"@);
        } else if c2 == Category::Audio && j == 2 {
            assert(b == "audio_flac"@);
        } else if c2 == Category::Audio && j == 3 {
            assert(b == "audio_m4a"@);
        } else if c2 == Category::Audio && j == 4 {
            assert(b == "audio_normalize"@);
        } else if c2 == Category::Image && j == 0 {
            assert(b == "image_jpg"@);
        } else if c2 == Category::Image && j == 1 {
            assert(b == "image_png"@);
        } else if c2 == Category::Image && j == 2 {
            assert(b == "image_webp"@);
        } else if c2 == Category::Image && j == 3 {
            assert(b == "image_resize"@);
        }
    } else if c1 == Category::Audio && i == 2 {
        assert(a == "audio_flac"@);
        if c2 == Category::Video && j == 0 {
            assert(b == "video_mp4"@);
        } else if c2 == Category::Video && j == 1 {
            assert(b == "video_compress"@);
        } else if c2 == Category::Video && j == 2 {
            assert(b == "video_extract_audio"@);
        } else if c2 == Category::Video && j == 3 {
            assert(b == "video_gif"@);
        } else if c2 == Category::Video && j == 4 {
            assert(b == "video_webm"@);
        } else if c2 == Category::Video && j == 5 {
            assert(b == "video_mute"@);
        } else if c2 == Category::Audio && j == 0 {
            assert(b == "audio_mp3"@);
        } else if c2 == Category::Audio && j == 1 {
            assert(b == "audio_wav"@);
        } else if c2 == Category::Audio && j == 2 {
            assert(b == "audio_flac"@);
        } else if c2 == Category::Audio && j == 3 {
            assert(b == "audio_m4a"@);
        } else if c2 == Category::Audio && j == 4 {
            assert(b == "audio_normalize"@);
        } else if c2 == Category::Image && j == 0 {
            assert(b == "image_jpg"@);
        } else if c2 == Category::Image && j == 1 {
            assert(b == "image_png"@);
        } else if c2 == Category::Image && j == 2 {
            assert(b == "image_webp"@);
        } else if c2 == Category::Image && j == 3 {
            assert(b == "image_resize"@);
        }
    } else if c1 == Category::Audio && i == 3 {
        assert(a == "audio_m4a"@);
        if c2 == Category::Video && j == 0 {
            assert(b == "video_mp4"@);
        } else if c2 == Category::Video && j == 1 {
            assert(b == "video_compress"@);
        } else if c2 == Category::Video && j == 2 {
            assert(b == "video_extract_audio"@);
        } else if c2 == Category::Video && j == 3 {
            assert(b == "video_gif"@);
        } else if c2 == Category::Video && j == 4 {
            assert(b == "video_webm"@);
        } else if c2 == Category::Video && j == 5 {
            assert(b == "video_mute"@);
        } else if c2 == Category::Audio && j == 0 {
            assert(b == "audio_mp3"@);
        } else if c2 == Category::Audio && j == 1 {
            assert(b == "audio_wav"@);
        } else if c2 == Category::Audio && j == 2 {
            assert(b == "audio_flac"@);
        } else if c2 == Category::Audio && j == 3 {
            assert(b == "audio_m4a"@);
        } else if c2 == Category::Audio && j == 4 {
            assert(b == "audio_normalize"@);
        } else if c2 == Category::Image && j == 0 {
            assert(b == "image_jpg"@);
        } else if c2 == Category::Image && j == 1 {
            assert(b == "image_png"@);
        } else if c2 == Category::Image && j == 2 {
            assert(b == "image_webp"@);
        } else if c2 == Category::Image && j == 3 {
            assert(b == "image_resize"@);
        }
    } else if c1 == Category::Audio && i == 4 {
        assert(a == "audio_normalize"@);
        if c2 == Category::Video && j == 0 {
            assert(b == "video_mp4"@);
        } else if c2 == Category::Video && j == 1 {
            assert(b == "video_compress"@);
        } else if c2 == Category::Video && j == 2 {
            assert(b == "video_extract_audio"@);
        } else if c2 == Category::Video && j == 3 {
            assert(b == "video_gif"@);
        } else if c2 == Category::Video && j == 4 {
            assert(b == "video_webm"@);
        } else if c2 == Category::Video && j == 5 {
            assert(b == "video_mute"@);
        } else if c2 == Category::Audio && j == 0 {
            assert(b == "audio_mp3"@);
        } else if c2 == Category::Audio && j == 1 {
            assert(b == "audio_wav"@);
        } else if c2 == Category::Audio && j == 2 {
            assert(b == "audio_flac"@);
        } else if c2 == Category::Audio && j == 3 {
            assert(b == "audio_m4a"@);
        } else if c2 == Category::Audio && j == 4 {
            assert(b == "audio_normalize"@);
        } else if c2 == Category::Image && j == 0 {
            assert(b == "image_jpg"@);
        } else if c2 == Category::Image && j == 1 {
            assert(b == "image_png"@);
        } else if c2 == Category::Image && j == 2 {
            assert(b == "image_webp"@);
        } else if c2 == Category::Image && j == 3 {
            assert(b == "image_resize"@);
        }
    } else if c1 == Category::Image && i == 0 {
        assert(a == "image_jpg"@);
        if c2 == Category::Video && j == 0 {
            assert(b == "video_mp4"@);
        } else if c2 == Category::Video && j == 1 {
            assert(b == "video_compress"@);
        } else if c2 == Category::Video && j == 2 {
            assert(b == "video_extract_audio"@);
        } else if c2 == Category::Video && j == 3 {
            assert(b == "video_gif"@);
        } else if c2 == Category::Video && j == 4 {
            assert(b == "video_webm"@);
        } else if c2 == Category::Video && j == 5 {
            assert(b == "video_mute"@);
        } else if c2 == Category::Audio && j == 0 {
            assert(b == "audio_mp3"@);
        } else if c2 == Category::Audio && j == 1 {
            assert(b == "audio_wav"@);
        } else if c2 == Category::Audio && j == 2 {
            assert(b == "audio_flac"@);
        } else if c2 == Category::Audio && j == 3 {
            assert(b == "audio_m4a"@);
        } else if c2 == Category::Audio && j == 4 {
            assert(b == "audio_normalize"@);
        } else if c2 == Category::Image && j == 0 {
            assert(b == "image_jpg"@);
        } else if c2 == Category::Image && j == 1 {
            assert(b == "image_png"@);
        } else if c2 == Category::Image && j == 2 {
            assert(b == "image_webp"@);
        } else if c2 == Category::Image && j == 3 {
            assert(b == "image_resize"@);
        }
    } else if c1 == Category::Image && i == 1 {
        assert(a == "image_png"@);
        if c2 == Category::Video && j == 0 {
            assert(b == "video_mp4"@);
        } else if c2 == Category::Video && j == 1 {
            assert(b == "video_compress"@);
        } else if c2 == Category::Video && j == 2 {
            assert(b == "video_extract_audio"@);
        } else if c2 == Category::Video && j == 3 {
            assert(b == "video_gif"@);
        } else if c2 == Category::Video && j == 4 {
            assert(b == "video_webm"@);
        } else if c2 == Category::Video && j == 5 {
            assert(b == "video_mute"@);
        } else if c2 == Category::Audio && j == 0 {
            assert(b == "audio_mp3"@);
        } else if c2 == Category::Audio && j == 1 {
            assert(b == "audio_wav"@);
        } else if c2 == Category::Audio && j == 2 {
            assert(b == "audio_flac"@);
        } else if c2 == Category::Audio && j == 3 {
            assert(b == "audio_m4a"@);
        } else if c2 == Category::Audio && j == 4 {
            assert(b == "audio_normalize"@);
        } else if c2 == Category::Image && j == 0 {
            assert(b == "image_jpg"@);
        } else if c2 == Category::Image && j == 1 {
            assert(b == "image_png"@);
        } else if c2 == Category::Image && j == 2 {
            assert(b == "image_webp"@);
        } else if c2 == Category::Image && j == 3 {
            assert(b == "image_resize"@);
        }
    } else if c1 == Category::Image && i == 2 {
        assert(a == "image_webp"@);
        if c2 == Category::Video && j == 0 {
            assert(b == "video_mp4"@);
        } else if c2 == Category::Video && j == 1 {
            assert(b == "video_compress"@);
        } else if c2 == Category::Video && j == 2 {
            assert(b == "video_extract_audio"@);
        } else if c2 == Category::Video && j == 3 {
            assert(b == "video_gif"@);
        } else if c2 == Category::Video && j == 4 {
            assert(b == "video_webm"@);
        } else if c2 == Category::Video && j == 5 {
            assert(b == "video_mute"@);
        } else if c2 == Category::Audio && j == 0 {
            assert(b == "audio_mp3"@);
        } else if c2 == Category::Audio && j == 1 {
            assert(b == "audio_wav"@);
        } else if c2 == Category::Audio && j == 2 {
            assert(b == "audio_flac"@);
        } else if c2 == Category::Audio && j == 3 {
            assert(b == "audio_m4a"@);
        } else if c2 == Category::Audio && j == 4 {
            assert(b == "audio_normalize"@);
        } else if c2 == Category::Image && j == 0 {
            assert(b == "image_jpg"@);
        } else if c2 == Category::Image && j == 1 {
            assert(b == "image_png"@);
        } else if c2 == Category::Image && j == 2 {
            assert(b == "image_webp"@);
        } else if c2 == Category::Image && j == 3 {
            assert(b == "image_resize"@);
        }
    } else if c1 == Category::Image && i == 3 {
        assert(a == "image_resize"@);
        if c2 == Category::Video && j == 0 {
            assert(b == "video_mp4"@);
        } else if c2 == Category::Video && j == 1 {
            assert(b == "video_compress"@);
        } else if c2 == Category::Video && j == 2 {
            assert(b == "video_extract_audio"@);
        } else if c2 == Category::Video && j == 3 {
            assert(b == "video_gif"@);
        } else if c2 == Category::Video && j == 4 {
            assert(b == "video_webm"@);
        } else if c2 == Category::Video && j == 5 {
            assert(b == "video_mute"@);
        } else if c2 == Category::Audio && j == 0 {
            assert(b == "audio_mp3"@);
        } else if c2 == Category::Audio && j == 1 {
            assert(b == "audio_wav"@);
        } else if c2 == Category::Audio && j == 2 {
            assert(b == "audio_flac"@);
        } else if c2 == Category::Audio && j == 3 {
            assert(b == "audio_m4a"@);
        } else if c2 == Category::Audio && j == 4 {
            assert(b == "audio_normalize"@);
        } else if c2 == Category::Image && j == 0 {
            assert(b == "image_jpg"@);
        } else if c2 == Category::Image && j == 1 {
            assert(b == "image_png"@);
        } else if c2 == Category::Image && j == 2 {
            assert(b == "image_webp"@);
        } else if c2 == Category::Image && j == 3 {
            assert(b == "image_resize"@);
        }
    }
}

proof fn lemma_found_in_list(list: Seq<PresetSpec>, id: Seq<char>)
    requires
        find_by_id(list, id) is Some,
    ensures
        exists|i: int| 0 <= i < list.len() && list[i] == find_by_id(list, id)->0,
    decreases list.len(),
{
    if list[0].id != id {
        lemma_found_in_list(list.drop_first(), id);
        let i = choose|i: int| 0 <= i < list.drop_first().len() && list.drop_first()[i] == find_by_id(list.drop_first(), id)->0;
        assert(list[i + 1] == list.drop_first()[i]);
    } else {
        assert(list[0] == find_by_id(list, id)->0);
    }
}

/// A preset's command and the command built from its options as if a model had proposed
/// them agree: the preset's extension is its own sanitized form, so both outputs are
/// drawn from the same candidates within the same `-y -i <input> … <output>` frame, and,
/// where `str::to_lowercase` maps the options as ASCII, the options pass the check.
pub proof fn lemma_preset_and_model_commands_agree(id: Seq<char>)
    requires
        lookup_preset(id) is Some,
        preset_options(id) is Some,
    ensures
        safe_ext(lookup_preset(id)->0.target_ext) == lookup_preset(id)->0.target_ext,
        (forall|k: int|
            0 <= k < preset_options(id)->0.len() ==> #[trigger] lowercase(preset_options(id)->0[k])
                == ascii_lowercase(preset_options(id)->0[k])) ==> ai_args_error(
            preset_options(id)->0,
            lookup_preset(id)->0.target_ext,
        ) is None,
{
    let p = lookup_preset(id)->0;
    let cat = if find_by_id(presets_of(Category::Video), id) is Some {
        Category::Video
    } else if find_by_id(presets_of(Category::Audio), id) is Some {
        Category::Audio
    } else {
        Category::Image
    };
    assert(find_by_id(presets_of(cat), id) == Some(p));
    lemma_found_in_list(presets_of(cat), id);
    let i = choose|i: int| 0 <= i < presets_of(cat).len() && presets_of(cat)[i] == p;
    lemma_catalogue_shape(cat, i);
    lemma_preset_options_pass_check(id);
}

/// The command of every preset of the catalogue, whatever the input and the output:
/// `-y -i <input>`, then the preset's own options as listed here, then the output, which
/// carries the listed extension. In particular, normalizing runs the `loudnorm` filter,
/// compressing scales to 720 lines at CRF 28, and muting drops the audio.
pub proof fn lemma_preset_commands(input: Seq<char>, out: Seq<char>)
    ensures
        lookup_preset("video_mp4"@) matches Some(p) && p.target_ext == "mp4"@,
        preset_options("video_mp4"@) matches Some(o) && wrapped_args(input, o, out) == seq!["-y"@, "-i"@, input, "-c:v"@, "libx264"@, "-preset"@, "medium"@, "-crf"@, "20"@, "-c:a"@, "aac"@, "-b:a"@, "192k"@, out],
        lookup_preset("video_compress"@) matches Some(p) && p.target_ext == "mp4"@,
        preset_options("video_compress"@) matches Some(o) && wrapped_args(input, o, out) == seq!["-y"@, "-i"@, input, "-vf"@, "scale=-2:720"@, "-c:v"@, "libx264"@, "-preset"@, "medium"@, "-crf"@, "28"@, "-c:a"@, "aac"@, "-b:a"@, "128k"@, out],
        lookup_preset("video_extract_audio"@) matches Some(p) && p.target_ext == "mp3"@,
        preset_options("video_extract_audio"@) matches Some(o) && wrapped_args(input, o, out) == seq!["-y"@, "-i"@, input, "-vn"@, "-c:a"@, "libmp3lame"@, "-b:a"@, "192k"@, out],
        lookup_preset("video_gif"@) matches Some(p) && p.target_ext == "gif"@,
        preset_options("video_gif"@) matches Some(o) && wrapped_args(input, o, out) == seq!["-y"@, "-i"@, input, "-vf"@, "fps=12,scale=480:-1:flags=lanczos"@, out],
        lookup_preset("video_webm"@) matches Some(p) && p.target_ext == "webm"@,
        preset_options("video_webm"@) matches Some(o) && wrapped_args(input, o, out) == seq!["-y"@, "-i"@, input, "-c:v"@, "libvpx-vp9"@, "-crf"@, "32"@, "-b:v"@, "0"@, "-c:a"@, "libopus"@, out],
        lookup_preset("video_mute"@) matches Some(p) && p.target_ext == "mp4"@,
        preset_options("video_mute"@) matches Some(o) && wrapped_args(input, o, out) == seq!["-y"@, "-i"@, input, "-an"@, "-c:v"@, "copy"@, out],
        lookup_preset("audio_mp3"@) matches Some(p) && p.target_ext == "mp3"@,
        preset_options("audio_mp3"@) matches Some(o) && wrapped_args(input, o, out) == seq!["-y"@, "-i"@, input, "-c:a"@, "libmp3lame"@, "-b:a"@, "192k"@, out],
        lookup_preset("audio_wav"@) matches Some(p) && p.target_ext == "wav"@,
        preset_options("audio_wav"@) matches Some(o) && wrapped_args(input, o, out) == seq!["-y"@, "-i"@, input, "-c:a"@, "pcm_s16le"@, out],
        lookup_preset("audio_flac"@) matches Some(p) && p.target_ext == "flac"@,
        preset_options("audio_flac"@) matches Some(o) && wrapped_args(input, o, out) == seq!["-y"@, "-i"@, input, "-c:a"@, "flac"@, out],
        lookup_preset("audio_m4a"@) matches Some(p) && p.target_ext == "m4a"@,
        preset_options("audio_m4a"@) matches Some(o) && wrapped_args(input, o, out) == seq!["-y"@, "-i"@, input, "-c:a"@, "aac"@, "-b:a"@, "192k"@, out],
        lookup_preset("audio_normalize"@) matches Some(p) && p.target_ext == "mp3"@,
        preset_options("audio_normalize"@) matches Some(o) && wrapped_args(input, o, out) == seq!["-y"@, "-i"@, input, "-af"@, "loudnorm"@, "-c:a"@, "libmp3lame"@, "-b:a"@, "192k"@, out],
        lookup_preset("image_jpg"@) matches Some(p) && p.target_ext == "jpg"@,
        preset_options("image_jpg"@) matches Some(o) && wrapped_args(input, o, out) == seq!["-y"@, "-i"@, input, "-q:v"@, "2"@, out],
        lookup_preset("image_png"@) matches Some(p) && p.target_ext == "png"@,
        preset_options("image_png"@) matches Some(o) && wrapped_args(input, o, out) == seq!["-y"@, "-i"@, input, out],
        lookup_preset("image_webp"@) matches Some(p) && p.target_ext == "webp"@,
        preset_options("image_webp"@) matches Some(o) && wrapped_args(input, o, out) == seq!["-y"@, "-i"@, input, "-quality"@, "85"@, out],
        lookup_preset("image_resize"@) matches Some(p) && p.target_ext == "jpg"@,
        preset_options("image_resize"@) matches Some(o) && wrapped_args(input, o, out) == seq!["-y"@, "-i"@, input, "-vf"@, "scale='min(1920,iw)':'min(1080,ih)':force_original_aspect_ratio=decrease"@, "-q:v"@, "2"@, out],
{
    reveal_preset_ids();
    lemma_lookup_finds_catalogue(Category::Video, 0);
    lemma_lookup_finds_catalogue(Category::Video, 1);
    lemma_lookup_finds_catalogue(Category::Video, 2);
    lemma_lookup_finds_catalogue(Category::Video, 3);
    lemma_lookup_finds_catalogue(Category::Video, 4);
    lemma_lookup_finds_catalogue(Category::Video, 5);
    lemma_lookup_finds_catalogue(Category::Audio, 0);
    lemma_lookup_finds_catalogue(Category::Audio, 1);
    lemma_lookup_finds_catalogue(Category::Audio, 2);
    lemma_lookup_finds_catalogue(Category::Audio, 3);
    lemma_lookup_finds_catalogue(Category::Audio, 4);
    lemma_lookup_finds_catalogue(Category::Image, 0);
    lemma_lookup_finds_catalogue(Category::Image, 1);
    lemma_lookup_finds_catalogue(Category::Image, 2);
    lemma_lookup_finds_catalogue(Category::Image, 3);
    assert(seq!["-y"@, "-i"@, input] + seq!["-c:v"@, "libx264"@, "-preset"@, "medium"@, "-crf"@, "20"@, "-c:a"@, "aac"@, "-b:a"@, "192k"@] + seq![out] =~= seq!["-y"@, "-i"@, input, "-c:v"@, "libx264"@, "-preset"@, "medium"@, "-crf"@, "20"@, "-c:a"@, "aac"@, "-b:a"@, "192k"@, out]);
    assert(seq!["-y"@, "-i"@, input] + seq!["-vf"@, "scale=-2:720"@, "-c:v"@, "libx264"@, "-preset"@, "medium"@, "-crf"@, "28"@, "-c:a"@, "aac"@, "-b:a"@, "128k"@] + seq![out] =~= seq!["-y"@, "-i"@, input, "-vf"@, "scale=-2:720"@, "-c:v"@, "libx264"@, "-preset"@, "medium"@, "-crf"@, "28"@, "-c:a"@, "aac"@, "-b:a"@, "128k"@, out]);
    assert(seq!["-y"@, "-i"@, input] + seq!["-vn"@, "-c:a"@, "libmp3lame"@, "-b:a"@, "192k"@] + seq![out] =~= seq!["-y"@, "-i"@, input, "-vn"@, "-c:a"@, "libmp3lame"@, "-b:a"@, "192k"@, out]);
    assert(seq!["-y"@, "-i"@, input] + seq!["-vf"@, "fps=12,scale=480:-1:flags=lanczos"@] + seq![out] =~= seq!["-y"@, "-i"@, input, "-vf"@, "fps=12,scale=480:-1:flags=lanczos"@, out]);
    assert(seq!["-y"@, "-i"@, input] + seq!["-c:v"@, "libvpx-vp9"@, "-crf"@, "32"@, "-b:v"@, "0"@, "-c:a"@, "libopus"@] + seq![out] =~= seq!["-y"@, "-i"@, input, "-c:v"@, "libvpx-vp9"@, "-crf"@, "32"@, "-b:v"@, "0"@, "-c:a"@, "libopus"@, out]);
    assert(seq!["-y"@, "-i"@, input] + seq!["-an"@, "-c:v"@, "copy"@] + seq![out] =~= seq!["-y"@, "-i"@, input, "-an"@, "-c:v"@, "copy"@, out]);
    assert(seq!["-y"@, "-i"@, input] + seq!["-c:a"@, "libmp3lame"@, "-b:a"@, "192k"@] + seq![out] =~= seq!["-y"@, "-i"@, input, "-c:a"@, "libmp3lame"@, "-b:a"@, "192k"@, out]);
    assert(seq!["-y"@, "-i"@, input] + seq!["-c:a"@, "pcm_s16le"@] + seq![out] =~= seq!["-y"@, "-i"@, input, "-c:a"@, "pcm_s16le"@, out]);
    assert(seq!["-y"@, "-i"@, input] + seq!["-c:a"@, "flac"@] + seq![out] =~= seq!["-y"@, "-i"@, input, "-c:a"@, "flac"@, out]);
    assert(seq!["-y"@, "-i"@, input] + seq!["-c:a"@, "aac"@, "-b:a"@, "192k"@] + seq![out] =~= seq!["-y"@, "-i"@, input, "-c:a"@, "aac"@, "-b:a"@, "192k"@, out]);
    assert(seq!["-y"@, "-i"@, input] + seq!["-af"@, "loudnorm"@, "-c:a"@, "libmp3lame"@, "-b:a"@, "192k"@] + seq![out] =~= seq!["-y"@, "-i"@, input, "-af"@, "loudnorm"@, "-c:a"@, "libmp3lame"@, "-b:a"@, "192k"@, out]);
    assert(seq!["-y"@, "-i"@, input] + seq!["-q:v"@, "2"@] + seq![out] =~= seq!["-y"@, "-i"@, input, "-q:v"@, "2"@, out]);
    assert(seq!["-y"@, "-i"@, input] + seq![] + seq![out] =~= seq!["-y"@, "-i"@, input, out]);
    assert(seq!["-y"@, "-i"@, input] + seq!["-quality"@, "85"@] + seq![out] =~= seq!["-y"@, "-i"@, input, "-quality"@, "85"@, out]);
    assert(seq!["-y"@, "-i"@, input] + seq!["-vf"@, "scale='min(1920,iw)':'min(1080,ih)':force_original_aspect_ratio=decrease"@, "-q:v"@, "2"@] + seq![out] =~= seq!["-y"@, "-i"@, input, "-vf"@, "scale='min(1920,iw)':'min(1080,ih)':force_original_aspect_ratio=decrease"@, "-q:v"@, "2"@, out]);
}

/// Sanitizing a proposed extension keeps every ASCII letter, of either case, and every
/// digit: an extension made only of those is kept as it is, also when dots lead it, so
/// a model's `MP4` or `.webm` names the result's extension unchanged.
pub proof fn lemma_sanitize_keeps_letters_and_digits(e: Seq<char>, dots: nat)
    requires
        forall|j: int|
            0 <= j < e.len() ==> ('0' <= #[trigger] e[j] && e[j] <= '9') || ('a' <= e[j] && e[j]
                <= 'z') || ('A' <= e[j] && e[j] <= 'Z'),
    ensures
        safe_ext(e) == e,
        safe_ext(Seq::new(dots, |i: int| '.') + e) == e,
    decreases dots,
{
    assert forall|j: int| 0 <= j < e.len() implies is_ascii_alnum(#[trigger] e[j]) by {}
    lemma_alnum_only_keeps(e);
    if e.len() > 0 {
        assert(e[0] != '.');
    }
    assert(trim_start_char(e, '.') == e);
    if dots > 0 {
        let d = Seq::new(dots, |i: int| '.') + e;
        let d1 = Seq::new((dots - 1) as nat, |i: int| '.') + e;
        assert(d.drop_first() =~= d1);
        assert(d[0] == '.');
        lemma_sanitize_keeps_letters_and_digits(e, (dots - 1) as nat);
        assert(trim_start_char(d, '.') == trim_start_char(d1, '.'));
    } else {
        assert(Seq::new(0, |i: int| '.') + e =~= e);
    }
}

/// Files are classified by extension without regard to case: any spelling whose ASCII
/// lower-case form is one of the video extensions (mp4, mov, mkv, avi, webm, flv, m4v,
/// wmv, mpg, mpeg, ts, 3gp), audio extensions (mp3, wav, flac, m4a, aac, ogg, opus, wma,
/// aiff) or image extensions (png, jpg, jpeg, webp, bmp, gif, tiff, tif, heic, heif)
/// is of that category.
pub proof fn lemma_extension_categories(e: Seq<char>)
    ensures
        ascii_lowercase(e) == "mp4"@ ==> category_of_lower(ascii_lowercase(e)) == Category::Video,
        ascii_lowercase(e) == "mov"@ ==> category_of_lower(ascii_lowercase(e)) == Category::Video,
        ascii_lowercase(e) == "mkv"@ ==> category_of_lower(ascii_lowercase(e)) == Category::Video,
        ascii_lowercase(e) == "avi"@ ==> category_of_lower(ascii_lowercase(e)) == Category::Video,
        ascii_lowercase(e) == "webm"@ ==> category_of_lower(ascii_lowercase(e)) == Category::Video,
        ascii_lowercase(e) == "flv"@ ==> category_of_lower(ascii_lowercase(e)) == Category::Video,
        ascii_lowercase(e) == "m4v"@ ==> category_of_lower(ascii_lowercase(e)) == Category::Video,
        ascii_lowercase(e) == "wmv"@ ==> category_of_lower(ascii_lowercase(e)) == Category::Video,
        ascii_lowercase(e) == "mpg"@ ==> category_of_lower(ascii_lowercase(e)) == Category::Video,
        ascii_lowercase(e) == "mpeg"@ ==> category_of_lower(ascii_lowercase(e)) == Category::Video,
        ascii_lowercase(e) == "ts"@ ==> category_of_lower(ascii_lowercase(e)) == Category::Video,
        ascii_lowercase(e) == "3gp"@ ==> category_of_lower(ascii_lowercase(e)) == Category::Video,
        ascii_lowercase(e) == "mp3"@ ==> category_of_lower(ascii_lowercase(e)) == Category::Audio,
        ascii_lowercase(e) == "wav"@ ==> category_of_lower(ascii_lowercase(e)) == Category::Audio,
        ascii_lowercase(e) == "flac"@ ==> category_of_lower(ascii_lowercase(e)) == Category::Audio,
        ascii_lowercase(e) == "m4a"@ ==> category_of_lower(ascii_lowercase(e)) == Category::Audio,
        ascii_lowercase(e) == "aac"@ ==> category_of_lower(ascii_lowercase(e)) == Category::Audio,
        ascii_lowercase(e) == "ogg"@ ==> category_of_lower(ascii_lowercase(e)) == Category::Audio,
        ascii_lowercase(e) == "opus"@ ==> category_of_lower(ascii_lowercase(e)) == Category::Audio,
        ascii_lowercase(e) == "wma"@ ==> category_of_lower(ascii_lowercase(e)) == Category::Audio,
        ascii_lowercase(e) == "aiff"@ ==> category_of_lower(ascii_lowercase(e)) == Category::Audio,
        ascii_lowercase(e) == "png"@ ==> category_of_lower(ascii_lowercase(e)) == Category::Image,
        ascii_lowercase(e) == "jpg"@ ==> category_of_lower(ascii_lowercase(e)) == Category::Image,
        ascii_lowercase(e) == "jpeg"@ ==> category_of_lower(ascii_lowercase(e)) == Category::Image,
        ascii_lowercase(e) == "webp"@ ==> category_of_lower(ascii_lowercase(e)) == Category::Image,
        ascii_lowercase(e) == "bmp"@ ==> category_of_lower(ascii_lowercase(e)) == Category::Image,
        ascii_lowercase(e) == "gif"@ ==> category_of_lower(ascii_lowercase(e)) == Category::Image,
        ascii_lowercase(e) == "tiff"@ ==> category_of_lower(ascii_lowercase(e)) == Category::Image,
        ascii_lowercase(e) == "tif"@ ==> category_of_lower(ascii_lowercase(e)) == Category::Image,
        ascii_lowercase(e) == "heic"@ ==> category_of_lower(ascii_lowercase(e)) == Category::Image,
        ascii_lowercase(e) == "heif"@ ==> category_of_lower(ascii_lowercase(e)) == Category::Image,
{
    reveal_strlit("mp4");
    reveal_strlit("mov");
    reveal_strlit("mkv");
    reveal_strlit("avi");
    reveal_strlit("webm");
    reveal_strlit("flv");
    reveal_strlit("m4v");
    reveal_strlit("wmv");
    reveal_strlit("mpg");
    reveal_strlit("mpeg");
    reveal_strlit("ts");
    reveal_strlit("3gp");
    reveal_strlit("mp3");
    reveal_strlit("wav");
    reveal_strlit("flac");
    reveal_strlit("m4a");
    reveal_strlit("aac");
    reveal_strlit("ogg");
    reveal_strlit("opus");
    reveal_strlit("wma");
    reveal_strlit("aiff");
    reveal_strlit("png");
    reveal_strlit("jpg");
    reveal_strlit("jpeg");
    reveal_strlit("webp");
    reveal_strlit("bmp");
    reveal_strlit("gif");
    reveal_strlit("tiff");
    reveal_strlit("tif");
    reveal_strlit("heic");
    reveal_strlit("heif");
    assert("mp3"@[2] != "mp4"@[2]);
    assert("mp3"@[1] != "mov"@[1]);
    assert("mp3"@[1] != "mkv"@[1]);
    assert("mp3"@[0] != "avi"@[0]);
    assert("mp3"@.len() != "webm"@.len());
    assert("mp3"@[0] != "flv"@[0]);
    assert("mp3"@[1] != "m4v"@[1]);
    assert("mp3"@[0] != "wmv"@[0]);
    assert("mp3"@[2] != "mpg"@[2]);
    assert("mp3"@.len() != "mpeg"@.len());
    assert("mp3"@.len() != "ts"@.len());
    assert("mp3"@[0] != "3gp"@[0]);
    assert("wav"@[0] != "mp4"@[0]);
    assert("wav"@[0] != "mov"@[0]);
    assert("wav"@[0] != "mkv"@[0]);
    assert("wav"@[0] != "avi"@[0]);
    assert("wav"@.len() != "webm"@.len());
    assert("wav"@[0] != "flv"@[0]);
    assert("wav"@[0] != "m4v"@[0]);
    assert("wav"@[1] != "wmv"@[1]);
    assert("wav"@[0] != "mpg"@[0]);
    assert("wav"@.len() != "mpeg"@.len());
    assert("wav"@.len() != "ts"@.len());
    assert("wav"@[0] != "3gp"@[0]);
    assert("flac"@.len() != "mp4"@.len());
    assert("flac"@.len() != "mov"@.len());
    assert("flac"@.len() != "mkv"@.len());
    assert("flac"@.len() != "avi"@.len());
    assert("flac"@[0] != "webm"@[0]);
    assert("flac"@.len() != "flv"@.len());
    assert("flac"@.len() != "m4v"@.len());
    assert("flac"@.len() != "wmv"@.len());
    assert("flac"@.len() != "mpg"@.len());
    assert("flac"@[0] != "mpeg"@[0]);
    assert("flac"@.len() != "ts"@.len());
    assert("flac"@.len() != "3gp"@.len());
    assert("m4a"@[1] != "mp4"@[1]);
    assert("m4a"@[1] != "mov"@[1]);
    assert("m4a"@[1] != "mkv"@[1]);
    assert("m4a"@[0] != "avi"@[0]);
    assert("m4a"@.len() != "webm"@.len());
    assert("m4a"@[0] != "flv"@[0]);
    assert("m4a"@[2] != "m4v"@[2]);
    assert("m4a"@[0] != "wmv"@[0]);
    assert("m4a"@[1] != "mpg"@[1]);
    assert("m4a"@.len() != "mpeg"@.len());
    assert("m4a"@.len() != "ts"@.len());
    assert("m4a"@[0] != "3gp"@[0]);
    assert("aac"@[0] != "mp4"@[0]);
    assert("aac"@[0] != "mov"@[0]);
    assert("aac"@[0] != "mkv"@[0]);
    assert("aac"@[1] != "avi"@[1]);
    assert("aac"@.len() != "webm"@.len());
    assert("aac"@[0] != "flv"@[0]);
    assert("aac"@[0] != "m4v"@[0]);
    assert("aac"@[0] != "wmv"@[0]);
    assert("aac"@[0] != "mpg"@[0]);
    assert("aac"@.len() != "mpeg"@.len());
    assert("aac"@.len() != "ts"@.len());
    assert("aac"@[0] != "3gp"@[0]);
    assert("ogg"@[0] != "mp4"@[0]);
    assert("ogg"@[0] != "mov"@[0]);
    assert("ogg"@[0] != "mkv"@[0]);
    assert("ogg"@[0] != "avi"@[0]);
    assert("ogg"@.len() != "webm"@.len());
    assert("ogg"@[0] != "flv"@[0]);
    assert("ogg"@[0] != "m4v"@[0]);
    assert("ogg"@[0] != "wmv"@[0]);
    assert("ogg"@[0] != "mpg"@[0]);
    assert("ogg"@.len() != "mpeg"@.len());
    assert("ogg"@.len() != "ts"@.len());
    assert("ogg"@[0] != "3gp"@[0]);
    assert("opus"@.len() != "mp4"@.len());
    assert("opus"@.len() != "mov"@.len());
    assert("opus"@.len() != "mkv"@.len());
    assert("opus"@.len() != "avi"@.len());
    assert("opus"@[0] != "webm"@[0]);
    assert("opus"@.len() != "flv"@.len());
    assert("opus"@.len() != "m4v"@.len());
    assert("opus"@.len() != "wmv"@.len());
    assert("opus"@.len() != "mpg"@.len());
    assert("opus"@[0] != "mpeg"@[0]);
    assert("opus"@.len() != "ts"@.len());
    assert("opus"@.len() != "3gp"@.len());
    assert("wma"@[0] != "mp4"@[0]);
    assert("wma"@[0] != "mov"@[0]);
    assert("wma"@[0] != "mkv"@[0]);
    assert("wma"@[0] != "avi"@[0]);
    assert("wma"@.len() != "webm"@.len());
    assert("wma"@[0] != "flv"@[0]);
    assert("wma"@[0] != "m4v"@[0]);
    assert("wma"@[2] != "wmv"@[2]);
    assert("wma"@[0] != "mpg"@[0]);
    assert("wma"@.len() != "mpeg"@.len());
    assert("wma"@.len() != "ts"@.len());
    assert("wma"@[0] != "3gp"@[0]);
    assert("aiff"@.len() != "mp4"@.len());
    assert("aiff"@.len() != "mov"@.len());
    assert("aiff"@.len() != "mkv"@.len());
    assert("aiff"@.len() != "avi"@.len());
    assert("aiff"@[0] != "webm"@[0]);
    assert("aiff"@.len() != "flv"@.len());
    assert("aiff"@.len() != "m4v"@.len());
    assert("aiff"@.len() != "wmv"@.len());
    assert("aiff"@.len() != "mpg"@.len());
    assert("aiff"@[0] != "mpeg"@[0]);
    assert("aiff"@.len() != "ts"@.len());
    assert("aiff"@.len() != "3gp"@.len());
    assert("png"@[0] != "mp4"@[0]);
    assert("png"@[0] != "mov"@[0]);
    assert("png"@[0] != "mkv"@[0]);
    assert("png"@[0] != "avi"@[0]);
    assert("png"@.len() != "webm"@.len());
    assert("png"@[0] != "flv"@[0]);
    assert("png"@[0] != "m4v"@[0]);
    assert("png"@[0] != "wmv"@[0]);
    assert("png"@[0] != "mpg"@[0]);
    assert("png"@.len() != "mpeg"@.len());
    assert("png"@.len() != "ts"@.len());
    assert("png"@[0] != "3gp"@[0]);
    assert("png"@[0] != "mp3"@[0]);
    assert("png"@[0] != "wav"@[0]);
    assert("png"@.len() != "flac"@.len());
    assert("png"@[0] != "m4a"@[0]);
    assert("png"@[0] != "aac"@[0]);
    assert("png"@[0] != "ogg"@[0]);
    assert("png"@.len() != "opus"@.len());
    assert("png"@[0] != "wma"@[0]);
    assert("png"@.len() != "aiff"@.len());
    assert("jpg"@[0] != "mp4"@[0]);
    assert("jpg"@[0] != "mov"@[0]);
    assert("jpg"@[0] != "mkv"@[0]);
    assert("jpg"@[0] != "avi"@[0]);
    assert("jpg"@.len() != "webm"@.len());
    assert("jpg"@[0] != "flv"@[0]);
    assert("jpg"@[0] != "m4v"@[0]);
    assert("jpg"@[0] != "wmv"@[0]);
    assert("jpg"@[0] != "mpg"@[0]);
    assert("jpg"@.len() != "mpeg"@.len());
    assert("jpg"@.len() != "ts"@.len());
    assert("jpg"@[0] != "3gp"@[0]);
    assert("jpg"@[0] != "mp3"@[0]);
    assert("jpg"@[0] != "wav"@[0]);
    assert("jpg"@.len() != "flac"@.len());
    assert("jpg"@[0] != "m4a"@[0]);
    assert("jpg"@[0] != "aac"@[0]);
    assert("jpg"@[0] != "ogg"@[0]);
    assert("jpg"@.len() != "opus"@.len());
    assert("jpg"@[0] != "wma"@[0]);
    assert("jpg"@.len() != "aiff"@.len());
    assert("jpeg"@.len() != "mp4"@.len());
    assert("jpeg"@.len() != "mov"@.len());
    assert("jpeg"@.len() != "mkv"@.len());
    assert("jpeg"@.len() != "avi"@.len());
    assert("jpeg"@[0] != "webm"@[0]);
    assert("jpeg"@.len() != "flv"@.len());
    assert("jpeg"@.len() != "m4v"@.len());
    assert("jpeg"@.len() != "wmv"@.len());
    assert("jpeg"@.len() != "mpg"@.len());
    assert("jpeg"@[0] != "mpeg"@[0]);
    assert("jpeg"@.len() != "ts"@.len());
    assert("jpeg"@.len() != "3gp"@.len());
    assert("jpeg"@.len() != "mp3"@.len());
    assert("jpeg"@.len() != "wav"@.len());
    assert("jpeg"@[0] != "flac"@[0]);
    assert("jpeg"@.len() != "m4a"@.len());
    assert("jpeg"@.len() != "aac"@.len());
    assert("jpeg"@.len() != "ogg"@.len());
    assert("jpeg"@[0] != "opus"@[0]);
    assert("jpeg"@.len() != "wma"@.len());
    assert("jpeg"@[0] != "aiff"@[0]);
    assert("webp"@.len() != "mp4"@.len());
    assert("webp"@.len() != "mov"@.len());
    assert("webp"@.len() != "mkv"@.len());
    assert("webp"@.len() != "avi"@.len());
    assert("webp"@[3] != "webm"@[3]);
    assert("webp"@.len() != "flv"@.len());
    assert("webp"@.len() != "m4v"@.len());
    assert("webp"@.len() != "wmv"@.len());
    assert("webp"@.len() != "mpg"@.len());
    assert("webp"@[0] != "mpeg"@[0]);
    assert("webp"@.len() != "ts"@.len());
    assert("webp"@.len() != "3gp"@.len());
    assert("webp"@.len() != "mp3"@.len());
    assert("webp"@.len() != "wav"@.len());
    assert("webp"@[0] != "flac"@[0]);
    assert("webp"@.len() != "m4a"@.len());
    assert("webp"@.len() != "aac"@.len());
    assert("webp"@.len() != "ogg"@.len());
    assert("webp"@[0] != "opus"@[0]);
    assert("webp"@.len() != "wma"@.len());
    assert("webp"@[0] != "aiff"@[0]);
    assert("bmp"@[0] != "mp4"@[0]);
    assert("bmp"@[0] != "mov"@[0]);
    assert("bmp"@[0] != "mkv"@[0]);
    assert("bmp"@[0] != "avi"@[0]);
    assert("bmp"@.len() != "webm"@.len());
    assert("bmp"@[0] != "flv"@[0]);
    assert("bmp"@[0] != "m4v"@[0]);
    assert("bmp"@[0] != "wmv"@[0]);
    assert("bmp"@[0] != "mpg"@[0]);
    assert("bmp"@.len() != "mpeg"@.len());
    assert("bmp"@.len() != "ts"@.len());
    assert("bmp"@[0] != "3gp"@[0]);
    assert("bmp"@[0] != "mp3"@[0]);
    assert("bmp"@[0] != "wav"@[0]);
    assert("bmp"@.len() != "flac"@.len());
    assert("bmp"@[0] != "m4a"@[0]);
    assert("bmp"@[0] != "aac"@[0]);
    assert("bmp"@[0] != "ogg"@[0]);
    assert("bmp"@.len() != "opus"@.len());
    assert("bmp"@[0] != "wma"@[0]);
    assert("bmp"@.len() != "aiff"@.len());
    assert("gif"@[0] != "mp4"@[0]);
    assert("gif"@[0] != "mov"@[0]);
    assert("gif"@[0] != "mkv"@[0]);
    assert("gif"@[0] != "avi"@[0]);
    assert("gif"@.len() != "webm"@.len());
    assert("gif"@[0] != "flv"@[0]);
    assert("gif"@[0] != "m4v"@[0]);
    assert("gif"@[0] != "wmv"@[0]);
    assert("gif"@[0] != "mpg"@[0]);
    assert("gif"@.len() != "mpeg"@.len());
    assert("gif"@.len() != "ts"@.len());
    assert("gif"@[0] != "3gp"@[0]);
    assert("gif"@[0] != "mp3"@[0]);
    assert("gif"@[0] != "wav"@[0]);
    assert("gif"@.len() != "flac"@.len());
    assert("gif"@[0] != "m4a"@[0]);
    assert("gif"@[0] != "aac"@[0]);
    assert("gif"@[0] != "ogg"@[0]);
    assert("gif"@.len() != "opus"@.len());
    assert("gif"@[0] != "wma"@[0]);
    assert("gif"@.len() != "aiff"@.len());
    assert("tiff"@.len() != "mp4"@.len());
    assert("tiff"@.len() != "mov"@.len());
    assert("tiff"@.len() != "mkv"@.len());
    assert("tiff"@.len() != "avi"@.len());
    assert("tiff"@[0] != "webm"@[0]);
    assert("tiff"@.len() != "flv"@.len());
    assert("tiff"@.len() != "m4v"@.len());
    assert("tiff"@.len() != "wmv"@.len());
    assert("tiff"@.len() != "mpg"@.len());
    assert("tiff"@[0] != "mpeg"@[0]);
    assert("tiff"@.len() != "ts"@.len());
    assert("tiff"@.len() != "3gp"@.len());
    assert("tiff"@.len() != "mp3"@.len());
    assert("tiff"@.len() != "wav"@.len());
    assert("tiff"@[0] != "flac"@[0]);
    assert("tiff"@.len() != "m4a"@.len());
    assert("tiff"@.len() != "aac"@.len());
    assert("tiff"@.len() != "ogg"@.len());
    assert("tiff"@[0] != "opus"@[0]);
    assert("tiff"@.len() != "wma"@.len());
    assert("tiff"@[0] != "aiff"@[0]);
    assert("tif"@[0] != "mp4"@[0]);
    assert("tif"@[0] != "mov"@[0]);
    assert("tif"@[0] != "mkv"@[0]);
    assert("tif"@[0] != "avi"@[0]);
    assert("tif"@.len() != "webm"@.len());
    assert("tif"@[0] != "flv"@[0]);
    assert("tif"@[0] != "m4v"@[0]);
    assert("tif"@[0] != "wmv"@[0]);
    assert("tif"@[0] != "mpg"@[0]);
    assert("tif"@.len() != "mpeg"@.len());
    assert("tif"@.len() != "ts"@.len());
    assert("tif"@[0] != "3gp"@[0]);
    assert("tif"@[0] != "mp3"@[0]);
    assert("tif"@[0] != "wav"@[0]);
    assert("tif"@.len() != "flac"@.len());
    assert("tif"@[0] != "m4a"@[0]);
    assert("tif"@[0] != "aac"@[0]);
    assert("tif"@[0] != "ogg"@[0]);
    assert("tif"@.len() != "opus"@.len());
    assert("tif"@[0] != "wma"@[0]);
    assert("tif"@.len() != "aiff"@.len());
    assert("heic"@.len() != "mp4"@.len());
    assert("heic"@.len() != "mov"@.len());
    assert("heic"@.len() != "mkv"@.len());
    assert("heic"@.len() != "avi"@.len());
    assert("heic"@[0] != "webm"@[0]);
    assert("heic"@.len() != "flv"@.len());
    assert("heic"@.len() != "m4v"@.len());
    assert("heic"@.len() != "wmv"@.len());
    assert("heic"@.len() != "mpg"@.len());
    assert("heic"@[0] != "mpeg"@[0]);
    assert("heic"@.len() != "ts"@.len());
    assert("heic"@.len() != "3gp"@.len());
    assert("heic"@.len() != "mp3"@.len());
    assert("heic"@.len() != "wav"@.len());
    assert("heic"@[0] != "flac"@[0]);
    assert("heic"@.len() != "m4a"@.len());
    assert("heic"@.len() != "aac"@.len());
    assert("heic"@.len() != "ogg"@.len());
    assert("heic"@[0] != "opus"@[0]);
    assert("heic"@.len() != "wma"@.len());
    assert("heic"@[0] != "aiff"@[0]);
    assert("heif"@.len() != "mp4"@.len());
    assert("heif"@.len() != "mov"@.len());
    assert("heif"@.len() != "mkv"@.len());
    assert("heif"@.len() != "avi"@.len());
    assert("heif"@[0] != "webm"@[0]);
    assert("heif"@.len() != "flv"@.len());
    assert("heif"@.len() != "m4v"@.len());
    assert("heif"@.len() != "wmv"@.len());
    assert("heif"@.len() != "mpg"@.len());
    assert("heif"@[0] != "mpeg"@[0]);
    assert("heif"@.len() != "ts"@.len());
    assert("heif"@.len() != "3gp"@.len());
    assert("heif"@.len() != "mp3"@.len());
    assert("heif"@.len() != "wav"@.len());
    assert("heif"@[0] != "flac"@[0]);
    assert("heif"@.len() != "m4a"@.len());
    assert("heif"@.len() != "aac"@.len());
    assert("heif"@.len() != "ogg"@.len());
    assert("heif"@[0] != "opus"@[0]);
    assert("heif"@.len() != "wma"@.len());
    assert("heif"@[0] != "aiff"@[0]);
}

/// The chosen number never names a candidate reported taken: every candidate numbered
/// before it was reported taken, and it was itself reported free unless every answer
/// given was `taken`, in which case it is the next number. For answers as
/// `ask_until_free` gives them (all taken but a free last one), it is the last number
/// asked about.
pub proof fn lemma_first_free_is_free(taken: Seq<bool>)
    ensures
        first_free(taken) <= taken.len(),
        forall|j: int| 0 <= j < first_free(taken) ==> #[trigger] taken[j],
        first_free(taken) < taken.len() ==> !taken[first_free(taken) as int],
        (taken.len() >= 1 && !taken.last() && forall|j: int| 0 <= j < taken.len() - 1 ==> #[trigger] taken[j])
            ==> first_free(taken) == taken.len() - 1,
    decreases taken.len(),
{
    if taken.len() > 0 && taken[0] {
        let rest = taken.drop_first();
        lemma_first_free_is_free(rest);
        assert forall|j: int| 0 <= j < first_free(taken) implies #[trigger] taken[j] by {
            if j > 0 {
                assert(taken[j] == rest[j - 1]);
            }
        }
        if first_free(taken) < taken.len() {
            assert(taken[first_free(taken) as int] == rest[first_free(rest) as int]);
        }
        if taken.len() >= 1 && !taken.last() && forall|j: int| 0 <= j < taken.len() - 1 ==> #[trigger] taken[j] {
            assert(rest.len() >= 1);
            assert(rest.last() == taken.last());
            assert forall|j: int| 0 <= j < rest.len() - 1 implies #[trigger] rest[j] by {
                assert(rest[j] == taken[j + 1]);
            }
        }
    } else if taken.len() > 0 {
        if !taken.last() && forall|j: int| 0 <= j < taken.len() - 1 ==> #[trigger] taken[j] {
            if taken.len() > 1 {
                assert(taken[0]);
            }
        }
    }
}

} // verus!
