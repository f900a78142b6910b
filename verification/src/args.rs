//! ffmpeg argument lists: for presets, and for options proposed by a model, which are
//! checked first. The binary and the input and output paths are always set here.
use vstd::prelude::*;

use crate::output::{is_output_path, output_path_for, OutputConfig};
use crate::presets::{lookup_preset, preset_by_id};
use crate::text::{
    chars_of, contains, contains_vec, copy_str, extend_strings, lowercase,
    push_char, str_eq, str_trim_start_char, str_views, strings_of, to_lowercase, trim_start_char,
    views,
};

verus! {

/// The most options a model may propose.
pub const MAX_AI_OPTIONS: usize = 40;

/// Options that a model may not propose, compared in lower case.
pub open spec fn is_banned_exact(low: Seq<char>) -> bool {
    low == "-i"@ || low == "-y"@ || low == "-f"@
}

/// Pieces that no proposed option may hold, compared in lower case: further inputs,
/// protocols, filters that read or write files, devices.
pub open spec fn has_banned_part(low: Seq<char>) -> bool {
    ||| contains(low, "movie="@)
    ||| contains(low, "amovie="@)
    ||| contains(low, "concat:"@)
    ||| contains(low, "subfile"@)
    ||| contains(low, "/dev/"@)
    ||| contains(low, "\\\\.\\"@)
    ||| contains(low, "http://"@)
    ||| contains(low, "https://"@)
    ||| contains(low, "file:"@)
    ||| contains(low, "pipe:"@)
    ||| contains(low, "-attach"@)
    ||| contains(low, "-map_metadata:"@)
}

/// Why a single option is refused, if it is.
pub open spec fn option_problem(opt: Seq<char>) -> Option<Seq<char>> {
    let low = lowercase(opt);
    if is_banned_exact(low) {
        Some("Опция '"@ + opt + "' запрещена"@)
    } else if has_banned_part(low) {
        Some("Опция '"@ + opt + "' содержит запрещённую конструкцию"@)
    } else {
        None
    }
}

/// Why the first refused option of `opts` is refused, if one is.
pub open spec fn first_problem(opts: Seq<Seq<char>>) -> Option<Seq<char>>
    decreases opts.len(),
{
    if opts.len() == 0 {
        None
    } else {
        match option_problem(opts[0]) {
            Some(e) => Some(e),
            None => first_problem(opts.drop_first()),
        }
    }
}

/// Why a list of proposed options is refused, if it is.
pub open spec fn validation_error(opts: Seq<Seq<char>>) -> Option<Seq<char>> {
    if opts.len() > MAX_AI_OPTIONS {
        Some("Слишком длинный список опций от ИИ"@)
    } else {
        first_problem(opts)
    }
}

/// The error of a `Result<(), String>`, as a sequence.
pub open spec fn unit_error(r: Result<(), String>) -> Option<Seq<char>> {
    match r {
        Ok(_) => None,
        Err(e) => Some(e@),
    }
}

fn is_banned_exact_lower(low: &str) -> (res: bool)
    ensures
        res == is_banned_exact(low@),
{
    str_eq(low, "-i") || str_eq(low, "-y") || str_eq(low, "-f")
}

fn has_banned_part_lower(low: &str) -> (res: bool)
    ensures
        res == has_banned_part(low@),
{
    let cs = chars_of(low);
    contains_vec(&cs, &chars_of("movie=")) || contains_vec(&cs, &chars_of("amovie="))
        || contains_vec(&cs, &chars_of("concat:")) || contains_vec(&cs, &chars_of("subfile"))
        || contains_vec(&cs, &chars_of("/dev/")) || contains_vec(&cs, &chars_of("\\\\.\\"))
        || contains_vec(&cs, &chars_of("http://")) || contains_vec(&cs, &chars_of("https://"))
        || contains_vec(&cs, &chars_of("file:")) || contains_vec(&cs, &chars_of("pipe:"))
        || contains_vec(&cs, &chars_of("-attach")) || contains_vec(
        &cs,
        &chars_of("-map_metadata:"),
    )
}

/// `prefix` + `s` + `suffix`.
fn wrap(prefix: &str, s: &str, suffix: &str) -> (res: String)
    ensures
        res@ == prefix@ + s@ + suffix@,
{
    let mut r = copy_str(prefix);
    r.append(s);
    r.append(suffix);
    r
}

/// Why a single option is refused, if it is.
fn check_option(opt: &str) -> (res: Result<(), String>)
    ensures
        unit_error(res) == option_problem(opt@),
{
    let low = to_lowercase(opt);
    if is_banned_exact_lower(low.as_str()) {
        return Err(wrap("Опция '", opt, "' запрещена"));
    }
    if has_banned_part_lower(low.as_str()) {
        return Err(wrap("Опция '", opt, "' содержит запрещённую конструкцию"));
    }
    Ok(())
}

/// Checks the options a model proposed: at most forty of them, none of them an input,
/// overwrite or format switch, none holding a protocol, a file-reading filter or a
/// device. The error names the first option refused.
pub fn validate_ai_options(options: &[String]) -> (res: Result<(), String>)
    ensures
        unit_error(res) == validation_error(views(options@)),
{
    if options.len() > MAX_AI_OPTIONS {
        return Err(copy_str("Слишком длинный список опций от ИИ"));
    }
    let ghost opts = views(options@);
    let mut i: usize = 0;
    assert(opts.skip(0) =~= opts);
    while i < options.len()
        invariant
            i <= options.len(),
            options.len() <= MAX_AI_OPTIONS,
            opts == views(options@),
            first_problem(opts) == first_problem(opts.skip(i as int)),
        decreases options.len() - i,
    {
        assert(opts.skip(i as int)[0] == options@[i as int]@);
        assert(opts.skip(i as int).drop_first() =~= opts.skip(i + 1));
        assert(opts.skip(i as int).len() > 0);
        match check_option(options[i].as_str()) {
            Err(e) => {
                assert(first_problem(opts.skip(i as int)) == Some(e@));
                return Err(e);
            },
            Ok(()) => {},
        }
        i += 1;
    }
    assert(opts.skip(i as int) =~= Seq::<Seq<char>>::empty());
    Ok(())
}

/// ASCII letters and digits.
pub open spec fn is_ascii_alnum(c: char) -> bool {
    ('0' <= c && c <= '9') || ('a' <= c && c <= 'z') || ('A' <= c && c <= 'Z')
}

/// The ASCII letters and digits of `s`, in order.
pub open spec fn ascii_alnum_only(s: Seq<char>) -> Seq<char>
    decreases s.len(),
{
    if s.len() == 0 {
        s
    } else {
        let rest = ascii_alnum_only(s.drop_last());
        if is_ascii_alnum(s.last()) {
            rest.push(s.last())
        } else {
            rest
        }
    }
}

/// The extension a proposed target extension stands for: leading dots removed, then
/// only ASCII letters and digits kept.
pub open spec fn safe_ext(target_ext: Seq<char>) -> Seq<char> {
    ascii_alnum_only(trim_start_char(target_ext, '.'))
}

/// Why options proposed by a model cannot be turned into an argument list, if they cannot.
pub open spec fn ai_args_error(opts: Seq<Seq<char>>, target_ext: Seq<char>) -> Option<Seq<char>> {
    match validation_error(opts) {
        Some(e) => Some(e),
        None => if safe_ext(target_ext).len() == 0 {
            Some("ИИ не указал корректное расширение результата"@)
        } else {
            None
        },
    }
}

/// The full argument list around options: overwrite, the input, the options, the output.
pub open spec fn wrapped_args(
    input: Seq<char>,
    opts: Seq<Seq<char>>,
    out: Seq<char>,
) -> Seq<Seq<char>> {
    seq!["-y"@, "-i"@, input] + opts + seq![out]
}

/// The extension a proposed target extension stands for.
pub fn sanitize_ext(target_ext: &str) -> (res: String)
    ensures
        res@ == safe_ext(target_ext@),
{
    let trimmed = str_trim_start_char(target_ext, '.');
    let cs = chars_of(trimmed.as_str());
    let mut out = String::new();
    let mut i: usize = 0;
    while i < cs.len()
        invariant
            cs@ == trimmed@,
            i <= cs.len(),
            out@ == ascii_alnum_only(cs@.take(i as int)),
        decreases cs.len() - i,
    {
        assert(cs@.take(i + 1).drop_last() =~= cs@.take(i as int));
        let c = cs[i];
        if ('0' <= c && c <= '9') || ('a' <= c && c <= 'z') || ('A' <= c && c <= 'Z') {
            push_char(&mut out, c);
        }
        i += 1;
    }
    assert(cs@.take(i as int) =~= cs@);
    out
}

/// `-y -i <input> <options…> <output>`.
fn assemble(input: &str, options: &[String], out: &str) -> (res: Vec<String>)
    ensures
        views(res@) == wrapped_args(input@, views(options@), out@),
{
    let mut args: Vec<String> = Vec::new();
    args.push(copy_str("-y"));
    args.push(copy_str("-i"));
    args.push(copy_str(input));
    assert(views(args@) =~= seq!["-y"@, "-i"@, input@]);
    extend_strings(&mut args, options);
    let ghost prev = args@;
    args.push(copy_str(out));
    assert(views(args@) =~= views(prev).push(out@));
    assert(views(args@) =~= wrapped_args(input@, views(options@), out@));
    args
}

/// The ffmpeg arguments for one input from options a model proposed, with the path of
/// the result: `-y -i <input> <options…> <output>`, where the output is named after the
/// input with the sanitized extension. The options are checked first.
pub fn build_ai_args(
    options: &[String],
    target_ext: &str,
    input: &str,
    out_cfg: &OutputConfig,
) -> (res: Result<(Vec<String>, String), String>)
    ensures
        match res {
            Ok((args, out)) => {
                &&& ai_args_error(views(options@), target_ext@) is None
                &&& is_output_path(out@, input@, safe_ext(target_ext@), out_cfg@)
                &&& views(args@) == wrapped_args(input@, views(options@), out@)
            },
            Err(e) => ai_args_error(views(options@), target_ext@) == Some(e@),
        },
{
    match validate_ai_options(options) {
        Err(e) => {
            return Err(e);
        },
        Ok(()) => {},
    }
    let ext = sanitize_ext(target_ext);
    if ext.as_str().is_empty() {
        return Err(copy_str("ИИ не указал корректное расширение результата"));
    }
    let out = output_path_for(input, ext.as_str(), out_cfg);
    let args = assemble(input, options, out.as_str());
    Ok((args, out))
}

/// The options each preset adds between the input and the output.
pub open spec fn preset_options(id: Seq<char>) -> Option<Seq<Seq<char>>> {
    if id == "video_mp4"@ {
        Some(seq!["-c:v"@, "libx264"@, "-preset"@, "medium"@, "-crf"@, "20"@, "-c:a"@, "aac"@, "-b:a"@, "192k"@])
    } else if id == "video_compress"@ {
        Some(seq!["-vf"@, "scale=-2:720"@, "-c:v"@, "libx264"@, "-preset"@, "medium"@, "-crf"@, "28"@, "-c:a"@, "aac"@, "-b:a"@, "128k"@])
    } else if id == "video_extract_audio"@ {
        Some(seq!["-vn"@, "-c:a"@, "libmp3lame"@, "-b:a"@, "192k"@])
    } else if id == "video_gif"@ {
        Some(seq!["-vf"@, "fps=12,scale=480:-1:flags=lanczos"@])
    } else if id == "video_webm"@ {
        Some(seq!["-c:v"@, "libvpx-vp9"@, "-crf"@, "32"@, "-b:v"@, "0"@, "-c:a"@, "libopus"@])
    } else if id == "video_mute"@ {
        Some(seq!["-an"@, "-c:v"@, "copy"@])
    } else if id == "audio_mp3"@ {
        Some(seq!["-c:a"@, "libmp3lame"@, "-b:a"@, "192k"@])
    } else if id == "audio_wav"@ {
        Some(seq!["-c:a"@, "pcm_s16le"@])
    } else if id == "audio_flac"@ {
        Some(seq!["-c:a"@, "flac"@])
    } else if id == "audio_m4a"@ {
        Some(seq!["-c:a"@, "aac"@, "-b:a"@, "192k"@])
    } else if id == "audio_normalize"@ {
        Some(seq!["-af"@, "loudnorm"@, "-c:a"@, "libmp3lame"@, "-b:a"@, "192k"@])
    } else if id == "image_jpg"@ {
        Some(seq!["-q:v"@, "2"@])
    } else if id == "image_png"@ {
        Some(seq![])
    } else if id == "image_webp"@ {
        Some(seq!["-quality"@, "85"@])
    } else if id == "image_resize"@ {
        Some(seq!["-vf"@, "scale='min(1920,iw)':'min(1080,ih)':force_original_aspect_ratio=decrease"@, "-q:v"@, "2"@])
    } else {
        None
    }
}

/// Owned copies of a list of string slices, as `Some`.
fn some_strings(list: &[&str]) -> (res: Option<Vec<String>>)
    ensures
        match res {
            Some(v) => views(v@) == str_views(list@),
            None => false,
        },
{
    Some(strings_of(list))
}

/// The options a preset adds between the input and the output.
pub fn preset_options_for(id: &str) -> (res: Option<Vec<String>>)
    ensures
        match res {
            Some(v) => preset_options(id@) == Some(views(v@)),
            None => preset_options(id@) is None,
        },
{
    let r = if str_eq(id, "video_mp4") {
        some_strings(&["-c:v", "libx264", "-preset", "medium", "-crf", "20", "-c:a", "aac", "-b:a", "192k"])
    } else if str_eq(id, "video_compress") {
        some_strings(&["-vf", "scale=-2:720", "-c:v", "libx264", "-preset", "medium", "-crf", "28", "-c:a", "aac", "-b:a", "128k"])
    } else if str_eq(id, "video_extract_audio") {
        some_strings(&["-vn", "-c:a", "libmp3lame", "-b:a", "192k"])
    } else if str_eq(id, "video_gif") {
        some_strings(&["-vf", "fps=12,scale=480:-1:flags=lanczos"])
    } else if str_eq(id, "video_webm") {
        some_strings(&["-c:v", "libvpx-vp9", "-crf", "32", "-b:v", "0", "-c:a", "libopus"])
    } else if str_eq(id, "video_mute") {
        some_strings(&["-an", "-c:v", "copy"])
    } else if str_eq(id, "audio_mp3") {
        some_strings(&["-c:a", "libmp3lame", "-b:a", "192k"])
    } else if str_eq(id, "audio_wav") {
        some_strings(&["-c:a", "pcm_s16le"])
    } else if str_eq(id, "audio_flac") {
        some_strings(&["-c:a", "flac"])
    } else if str_eq(id, "audio_m4a") {
        some_strings(&["-c:a", "aac", "-b:a", "192k"])
    } else if str_eq(id, "audio_normalize") {
        some_strings(&["-af", "loudnorm", "-c:a", "libmp3lame", "-b:a", "192k"])
    } else if str_eq(id, "image_jpg") {
        some_strings(&["-q:v", "2"])
    } else if str_eq(id, "image_png") {
        Some(Vec::new())
    } else if str_eq(id, "image_webp") {
        some_strings(&["-quality", "85"])
    } else if str_eq(id, "image_resize") {
        some_strings(&["-vf", "scale='min(1920,iw)':'min(1080,ih)':force_original_aspect_ratio=decrease", "-q:v", "2"])
    } else {
        None
    };
    r
}

/// The ffmpeg arguments for a preset and one input, with the path of the result:
/// `-y -i <input> <preset options…> <output>`, the output carrying the preset's target
/// extension. `None` for an unknown preset.
pub fn build_ffmpeg_args(preset_id: &str, input: &str, out_cfg: &OutputConfig) -> (res: Option<
    (Vec<String>, String),
>)
    ensures
        match res {
            Some((args, out)) => {
                &&& lookup_preset(preset_id@) is Some
                &&& preset_options(preset_id@) is Some
                &&& is_output_path(
                    out@,
                    input@,
                    lookup_preset(preset_id@)->0.target_ext,
                    out_cfg@,
                )
                &&& views(args@) == wrapped_args(input@, preset_options(preset_id@)->0, out@)
            },
            None => lookup_preset(preset_id@) is None || preset_options(preset_id@) is None,
        },
{
    let preset = match preset_by_id(preset_id) {
        Some(p) => p,
        None => {
            return None;
        },
    };
    let out = output_path_for(input, preset.target_ext.as_str(), out_cfg);
    let extra = match preset_options_for(preset_id) {
        Some(v) => v,
        None => {
            return None;
        },
    };
    let args = assemble(input, extra.as_slice(), out.as_str());
    Some((args, out))
}

} // verus!
