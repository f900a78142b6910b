//! What the front end's commands compute before anything runs: command previews and
//! the list of conversions of a batch.
use vstd::prelude::*;

use crate::args::{
    ai_args_error, build_ai_args, build_ffmpeg_args, preset_options, safe_ext, validate_ai_options,
    wrapped_args,
};
use crate::output::{is_output_path, OutputConfig};
use crate::presets::lookup_preset;
use crate::text::{copy_str, join, join_strings, views};

verus! {

/// How a command is shown: `ffmpeg` followed by its arguments separated by spaces.
pub open spec fn command_line(args: Seq<Seq<char>>) -> Seq<char> {
    "ffmpeg "@ + join(args, " "@)
}

/// How a command is shown.
pub fn command_line_of(args: &Vec<String>) -> (res: String)
    ensures
        res@ == command_line(views(args@)),
{
    let mut line = copy_str("ffmpeg ");
    let joined = join_strings(args, " ");
    line.append(joined.as_str());
    line
}

/// Whether a preset id names a preset that can be run.
pub open spec fn runnable_preset(id: Seq<char>) -> bool {
    lookup_preset(id) is Some && preset_options(id) is Some
}

/// `line` shows the preset's command for `input`, with one of its output paths.
pub open spec fn is_preset_preview(line: Seq<char>, id: Seq<char>, input: Seq<char>, cfg: crate::output::OutputConfigSpec) -> bool {
    exists|out: Seq<char>|
        is_output_path(out, input, lookup_preset(id)->0.target_ext, cfg) && line == #[trigger] command_line(
            wrapped_args(input, preset_options(id)->0, out),
        )
}

/// The commands a preset would run, one line per file; none for an unknown preset.
pub fn command_preview(preset_id: &str, paths: &Vec<String>, cfg: &OutputConfig) -> (res: Vec<String>)
    ensures
        runnable_preset(preset_id@) ==> res.len() == paths.len() && forall|i: int|
            0 <= i < paths.len() ==> is_preset_preview(
                #[trigger] res@[i]@,
                preset_id@,
                paths@[i]@,
                cfg@,
            ),
        !runnable_preset(preset_id@) ==> res.len() == 0,
{
    let mut lines: Vec<String> = Vec::new();
    let mut i: usize = 0;
    while i < paths.len()
        invariant
            i <= paths.len(),
            runnable_preset(preset_id@) ==> lines.len() == i && forall|j: int|
                0 <= j < i ==> is_preset_preview(#[trigger] lines@[j]@, preset_id@, paths@[j]@, cfg@),
            !runnable_preset(preset_id@) ==> lines.len() == 0,
        decreases paths.len() - i,
    {
        match build_ffmpeg_args(preset_id, paths[i].as_str(), cfg) {
            Some((args, out)) => {
                let line = command_line_of(&args);
                assert(is_preset_preview(line@, preset_id@, paths@[i as int]@, cfg@));
                lines.push(line);
            },
            None => {},
        }
        i += 1;
    }
    lines
}

/// `line` shows the command made of a model's options for `input`, with one of its
/// output paths.
pub open spec fn is_ai_preview(
    line: Seq<char>,
    options: Seq<Seq<char>>,
    target_ext: Seq<char>,
    input: Seq<char>,
    cfg: crate::output::OutputConfigSpec,
) -> bool {
    exists|out: Seq<char>|
        is_output_path(out, input, safe_ext(target_ext), cfg) && line == #[trigger] command_line(
            wrapped_args(input, options, out),
        )
}

/// The commands a model's options would run, one line per file; none where the
/// options or the extension are refused.
pub fn ai_command_preview(
    options: &Vec<String>,
    target_ext: &str,
    paths: &Vec<String>,
    cfg: &OutputConfig,
) -> (res: Vec<String>)
    ensures
        ai_args_error(views(options@), target_ext@) is None ==> res.len() == paths.len() && forall|
            i: int,
        |
            0 <= i < paths.len() ==> is_ai_preview(
                #[trigger] res@[i]@,
                views(options@),
                target_ext@,
                paths@[i]@,
                cfg@,
            ),
        ai_args_error(views(options@), target_ext@) is Some ==> res.len() == 0,
{
    let mut lines: Vec<String> = Vec::new();
    let mut i: usize = 0;
    while i < paths.len()
        invariant
            i <= paths.len(),
            ai_args_error(views(options@), target_ext@) is None ==> lines.len() == i && forall|j: int|
                0 <= j < i ==> is_ai_preview(
                    #[trigger] lines@[j]@,
                    views(options@),
                    target_ext@,
                    paths@[j]@,
                    cfg@,
                ),
            ai_args_error(views(options@), target_ext@) is Some ==> lines.len() == 0,
        decreases paths.len() - i,
    {
        match build_ai_args(options.as_slice(), target_ext, paths[i].as_str(), cfg) {
            Ok((args, out)) => {
                let line = command_line_of(&args);
                assert(is_ai_preview(line@, views(options@), target_ext@, paths@[i as int]@, cfg@));
                lines.push(line);
            },
            Err(_) => {},
        }
        i += 1;
    }
    lines
}

/// One conversion of a batch: the input, the ffmpeg arguments, the output path.
pub type Job = (String, Vec<String>, String);

/// The conversions a preset makes of a batch of files; none for an unknown preset.
pub fn preset_jobs(preset_id: &str, paths: &Vec<String>, cfg: &OutputConfig) -> (res: Vec<Job>)
    ensures
        runnable_preset(preset_id@) ==> res.len() == paths.len() && forall|i: int|
            0 <= i < paths.len() ==> {
                &&& (#[trigger] res@[i]).0@ == paths@[i]@
                &&& is_output_path(
                    res@[i].2@,
                    paths@[i]@,
                    lookup_preset(preset_id@)->0.target_ext,
                    cfg@,
                )
                &&& views(res@[i].1@) == wrapped_args(
                    paths@[i]@,
                    preset_options(preset_id@)->0,
                    res@[i].2@,
                )
            },
        !runnable_preset(preset_id@) ==> res.len() == 0,
{
    let mut jobs: Vec<Job> = Vec::new();
    let mut i: usize = 0;
    while i < paths.len()
        invariant
            i <= paths.len(),
            runnable_preset(preset_id@) ==> jobs.len() == i && forall|j: int|
                0 <= j < i ==> {
                    &&& (#[trigger] jobs@[j]).0@ == paths@[j]@
                    &&& is_output_path(
                        jobs@[j].2@,
                        paths@[j]@,
                        lookup_preset(preset_id@)->0.target_ext,
                        cfg@,
                    )
                    &&& views(jobs@[j].1@) == wrapped_args(
                        paths@[j]@,
                        preset_options(preset_id@)->0,
                        jobs@[j].2@,
                    )
                },
            !runnable_preset(preset_id@) ==> jobs.len() == 0,
        decreases paths.len() - i,
    {
        match build_ffmpeg_args(preset_id, paths[i].as_str(), cfg) {
            Some((args, out)) => {
                jobs.push((copy_str(paths[i].as_str()), args, out));
            },
            None => {},
        }
        i += 1;
    }
    jobs
}

/// The conversions a model's options make of a batch of files. The options are checked
/// first; an error for the batch where they, or the extension, are refused and there
/// is a file to convert.
pub fn ai_jobs(options: &Vec<String>, target_ext: &str, paths: &Vec<String>, cfg: &OutputConfig) -> (res:
    Result<Vec<Job>, String>)
    ensures
        match res {
            Ok(jobs) => {
                &&& validate_error_free(views(options@))
                &&& (paths.len() > 0 ==> ai_args_error(views(options@), target_ext@) is None)
                &&& jobs.len() == paths.len()
                &&& forall|i: int|
                    0 <= i < paths.len() ==> {
                        &&& (#[trigger] jobs@[i]).0@ == paths@[i]@
                        &&& is_output_path(jobs@[i].2@, paths@[i]@, safe_ext(target_ext@), cfg@)
                        &&& views(jobs@[i].1@) == wrapped_args(paths@[i]@, views(options@), jobs@[i].2@)
                    }
            },
            Err(e) => ai_args_error(views(options@), target_ext@) == Some(e@) && (paths.len() > 0
                || !validate_error_free(views(options@))),
        },
{
    match validate_ai_options(options.as_slice()) {
        Err(e) => {
            return Err(e);
        },
        Ok(()) => {},
    }
    let mut jobs: Vec<Job> = Vec::new();
    let mut i: usize = 0;
    while i < paths.len()
        invariant
            i <= paths.len(),
            validate_error_free(views(options@)),
            i > 0 ==> ai_args_error(views(options@), target_ext@) is None,
            jobs.len() == i,
            forall|j: int|
                0 <= j < i ==> {
                    &&& (#[trigger] jobs@[j]).0@ == paths@[j]@
                    &&& is_output_path(jobs@[j].2@, paths@[j]@, safe_ext(target_ext@), cfg@)
                    &&& views(jobs@[j].1@) == wrapped_args(paths@[j]@, views(options@), jobs@[j].2@)
                },
        decreases paths.len() - i,
    {
        match build_ai_args(options.as_slice(), target_ext, paths[i].as_str(), cfg) {
            Ok((args, out)) => {
                jobs.push((copy_str(paths[i].as_str()), args, out));
            },
            Err(e) => {
                return Err(e);
            },
        }
        i += 1;
    }
    Ok(jobs)
}

/// The options pass the checks.
pub open spec fn validate_error_free(opts: Seq<Seq<char>>) -> bool {
    crate::args::validation_error(opts) is None
}

} // verus!
