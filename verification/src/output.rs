//! Where a conversion puts its result and under which name.
use vstd::prelude::*;

use crate::paths::{file_stem_of, joined, parent_of, path_exists, path_file_stem, path_is_dir, path_join, path_parent};
use crate::text::{
    chars_of, copy_str, decimal, is_blank, push_char, replace_all, str_replace, str_trim, trim,
    u64_to_decimal,
};

verus! {

/// Where and under which name results are written, as the settings give it.
#[derive(Debug)]
pub struct OutputConfig {
    /// Output folder; `None`, blank or not an existing folder means: next to the source.
    pub dir: Option<String>,
    /// Name template; `{name}` stands for the source's name without extension.
    pub template: String,
}

/// The contents of an output configuration.
pub struct OutputConfigSpec {
    pub dir: Option<Seq<char>>,
    pub template: Seq<char>,
}

impl View for OutputConfig {
    type V = OutputConfigSpec;

    open spec fn view(&self) -> OutputConfigSpec {
        OutputConfigSpec {
            dir: match self.dir {
                Some(d) => Some(d@),
                None => None,
            },
            template: self.template@,
        }
    }
}

impl Default for OutputConfig {
    fn default() -> (res: Self)
        ensures
            res.dir is None,
            res.template@ == Seq::<char>::empty(),
    {
        OutputConfig { dir: None, template: String::new() }
    }
}

/// Characters that file names on Windows may not hold.
pub open spec fn is_forbidden(c: char) -> bool {
    c == '<' || c == '>' || c == ':' || c == '"' || c == '/' || c == '\\' || c == '|' || c == '?'
        || c == '*'
}

/// `s` without the characters that file names may not hold.
pub open spec fn strip_forbidden(s: Seq<char>) -> Seq<char>
    decreases s.len(),
{
    if s.len() == 0 {
        s
    } else {
        let rest = strip_forbidden(s.drop_last());
        if is_forbidden(s.last()) {
            rest
        } else {
            rest.push(s.last())
        }
    }
}

/// The template in use: the configured one, trimmed, or `{name}_converted` where that is blank.
pub open spec fn effective_template(template: Seq<char>) -> Seq<char> {
    if trim(template).len() == 0 {
        "{name}_converted"@
    } else {
        trim(template)
    }
}

/// The name of a result without extension: the template with `{name}` replaced by the
/// source's stem and forbidden characters removed; `<stem>_converted` where that leaves
/// nothing but whitespace.
pub open spec fn output_base_name(template: Seq<char>, stem: Seq<char>) -> Seq<char> {
    let name = strip_forbidden(replace_all(effective_template(template), "{name}"@, stem));
    if trim(name).len() == 0 {
        stem + "_converted"@
    } else {
        name
    }
}

/// The `k`-th candidate file name: `<base>.<ext>` first, then `<base>_<k>.<ext>`.
pub open spec fn output_file_name(base: Seq<char>, ext: Seq<char>, k: nat) -> Seq<char> {
    if k == 0 {
        base + "."@ + ext
    } else {
        base + "_"@ + decimal(k) + "."@ + ext
    }
}

/// The stem of the source, or `output` where it has none.
pub open spec fn stem_or_default(input: Seq<char>) -> Seq<char> {
    match file_stem_of(input) {
        Some(s) => s,
        None => "output"@,
    }
}

/// The configured folder, trimmed, unless it is missing or blank.
pub open spec fn configured_dir(dir: Option<Seq<char>>) -> Option<Seq<char>> {
    match dir {
        Some(d) => if trim(d).len() == 0 { None } else { Some(trim(d)) },
        None => None,
    }
}

/// The folder of the result: the configured one where it is set and `dir_ok` (it is an
/// existing folder), else the source's parent, else `.`.
pub open spec fn output_dir(dir: Option<Seq<char>>, input: Seq<char>, dir_ok: bool) -> Seq<char> {
    match configured_dir(dir) {
        Some(d) if dir_ok => d,
        _ => match parent_of(input) {
            Some(p) => p,
            None => "."@,
        },
    }
}

/// The `k`-th candidate path for the result of converting `input` to `ext`, where
/// `dir_ok` says whether the configured folder exists.
pub open spec fn output_candidate(
    input: Seq<char>,
    ext: Seq<char>,
    cfg: OutputConfigSpec,
    dir_ok: bool,
    k: nat,
) -> Seq<char> {
    joined(
        output_dir(cfg.dir, input, dir_ok),
        output_file_name(output_base_name(cfg.template, stem_or_default(input)), ext, k),
    )
}

/// `out` is one of the candidate paths for the result of converting `input` to `ext`.
pub open spec fn is_output_path(
    out: Seq<char>,
    input: Seq<char>,
    ext: Seq<char>,
    cfg: OutputConfigSpec,
) -> bool {
    exists|dir_ok: bool, k: nat| out == #[trigger] output_candidate(input, ext, cfg, dir_ok, k)
}

/// `s` without the characters that file names may not hold.
pub fn remove_forbidden(s: &str) -> (res: String)
    ensures
        res@ == strip_forbidden(s@),
{
    let cs = chars_of(s);
    let mut out = String::new();
    let mut i: usize = 0;
    while i < cs.len()
        invariant
            cs@ == s@,
            i <= cs.len(),
            out@ == strip_forbidden(cs@.take(i as int)),
        decreases cs.len() - i,
    {
        assert(cs@.take(i + 1).drop_last() =~= cs@.take(i as int));
        let c = cs[i];
        if !(c == '<' || c == '>' || c == ':' || c == '"' || c == '/' || c == '\\' || c == '|'
            || c == '?' || c == '*') {
            push_char(&mut out, c);
        }
        i += 1;
    }
    assert(cs@.take(i as int) =~= cs@);
    out
}

/// The name of a result without extension, from the template and the source's stem.
pub fn base_name(template: &str, stem: &str) -> (res: String)
    ensures
        res@ == output_base_name(template@, stem@),
{
    let trimmed = str_trim(template);
    let effective = if trimmed.as_str().is_empty() {
        proof {
            reveal_strlit("{name}_converted");
        }
        copy_str("{name}_converted")
    } else {
        trimmed
    };
    assert(effective@ == effective_template(template@)) by {
        if trim(template@).len() == 0 {
            assert(trimmed@ =~= Seq::<char>::empty());
        }
    }
    let replaced = str_replace(effective.as_str(), "{name}", stem);
    let name = remove_forbidden(replaced.as_str());
    if is_blank(name.as_str()) {
        let mut n = copy_str(stem);
        n.append("_converted");
        n
    } else {
        name
    }
}

/// The `k`-th candidate file name for a result.
pub fn candidate_file_name(base: &str, ext: &str, k: u64) -> (res: String)
    ensures
        res@ == output_file_name(base@, ext@, k as nat),
{
    let mut n = copy_str(base);
    if k != 0 {
        n.append("_");
        let digits = u64_to_decimal(k);
        n.append(digits.as_str());
    }
    n.append(".");
    n.append(ext);
    n
}

/// The configured output folder, trimmed, unless missing or blank.
pub fn configured_output_dir(dir: &Option<String>) -> (res: Option<String>)
    ensures
        match res {
            Some(d) => configured_dir(
                match dir {
                    Some(x) => Some(x@),
                    None => None,
                },
            ) == Some(d@),
            None => configured_dir(
                match dir {
                    Some(x) => Some(x@),
                    None => None,
                },
            ) is None,
        },
{
    match dir {
        Some(d) => {
            let t = str_trim(d.as_str());
            if t.as_str().is_empty() {
                assert(t@.len() == 0);
                None
            } else {
                Some(t)
            }
        },
        None => None,
    }
}

/// The folder of the result, given whether the configured folder exists.
pub fn choose_output_dir(cfg: &OutputConfig, input: &str, dir_ok: bool) -> (res: String)
    ensures
        res@ == output_dir(cfg@.dir, input@, dir_ok),
{
    match configured_output_dir(&cfg.dir) {
        Some(d) => {
            if dir_ok {
                return d;
            }
        },
        None => {},
    }
    match path_parent(input) {
        Some(p) => p,
        None => copy_str("."),
    }
}

/// The `k`-th candidate path for the result of converting `input` to `target_ext`, given
/// whether the configured folder exists (`dir_ok`): the folder joined with the `k`-th
/// candidate file name.
pub fn output_candidate_path(
    input: &str,
    target_ext: &str,
    cfg: &OutputConfig,
    dir_ok: bool,
    k: u64,
) -> (res: String)
    ensures
        res@ == output_candidate(input@, target_ext@, cfg@, dir_ok, k as nat),
{
    let stem = match path_file_stem(input) {
        Some(s) => s,
        None => copy_str("output"),
    };
    let dir = choose_output_dir(cfg, input, dir_ok);
    let base = base_name(cfg.template.as_str(), stem.as_str());
    path_join(dir.as_str(), candidate_file_name(base.as_str(), target_ext, k).as_str())
}

/// The number of the first candidate that is free, given for the candidates `0`, `1`,
/// … in turn whether a file of that name is there: the index of the first `false`, or
/// the next number where every candidate asked about is taken.
pub open spec fn first_free(taken: Seq<bool>) -> nat
    decreases taken.len(),
{
    if taken.len() == 0 {
        0
    } else if !taken[0] {
        0
    } else {
        1 + first_free(taken.drop_first())
    }
}

/// The path of the result, given whether the configured folder exists (`dir_ok`) and,
/// for the candidates in turn, whether a file of that name exists (`taken`): the first
/// candidate that is free, never one that is taken.
pub fn pick_output_path(
    input: &str,
    target_ext: &str,
    cfg: &OutputConfig,
    dir_ok: bool,
    taken: &Vec<bool>,
) -> (res: String)
    requires
        taken.len() <= u64::MAX,
    ensures
        res@ == output_candidate(input@, target_ext@, cfg@, dir_ok, first_free(taken@)),
{
    let mut k: usize = 0;
    assert(taken@.skip(0) =~= taken@);
    while k < taken.len() && taken[k]
        invariant
            k <= taken.len(),
            first_free(taken@) == k + first_free(taken@.skip(k as int)),
        decreases taken.len() - k,
    {
        assert(taken@.skip(k as int).drop_first() =~= taken@.skip(k + 1));
        k += 1;
    }
    assert(first_free(taken@.skip(k as int)) == 0) by {
        if k < taken.len() {
            assert(taken@.skip(k as int)[0] == taken@[k as int]);
        }
    }
    output_candidate_path(input, target_ext, cfg, dir_ok, k as u64)
}

/// Asks `is_taken` about the candidates `0`, `1`, … in turn, and stops at the first
/// that is free: the answers come back in order, each the one `is_taken` gave for its
/// number, every one but the last `true`, and the last `false` unless all `u64::MAX`
/// numbers asked were taken.
pub fn ask_until_free<F: Fn(u64) -> bool>(is_taken: F) -> (taken: Vec<bool>)
    requires
        forall|k: u64| is_taken.requires((k,)),
    ensures
        1 <= taken.len() <= u64::MAX,
        forall|j: int| 0 <= j < taken.len() ==> is_taken.ensures((j as u64,), #[trigger] taken@[j]),
        forall|j: int| 0 <= j < taken.len() - 1 ==> #[trigger] taken@[j],
        !taken@.last() || taken.len() == u64::MAX,
{
    let mut taken: Vec<bool> = Vec::new();
    let mut k: u64 = 0;
    loop
        invariant_except_break
            taken.len() == k,
            k < u64::MAX,
            forall|k: u64| is_taken.requires((k,)),
            forall|j: int| 0 <= j < taken.len() ==> is_taken.ensures((j as u64,), #[trigger] taken@[j]),
            forall|j: int| 0 <= j < taken.len() ==> #[trigger] taken@[j],
        ensures
            1 <= taken.len() <= u64::MAX,
            forall|j: int| 0 <= j < taken.len() ==> is_taken.ensures((j as u64,), #[trigger] taken@[j]),
            forall|j: int| 0 <= j < taken.len() - 1 ==> #[trigger] taken@[j],
            !taken@.last() || taken.len() == u64::MAX,
        decreases u64::MAX - k,
    {
        let there = is_taken(k);
        taken.push(there);
        assert(taken@[k as int] == there);
        if !there || k + 1 == u64::MAX {
            break;
        }
        k += 1;
    }
    taken
}

/// The path of the result of converting `input` to `target_ext`: in the configured folder
/// where it exists, else next to the source; named by the template, with `_1`, `_2`, …
/// added while a file of that name exists. The file system is asked whether the folder
/// exists and, through `ask_until_free`, whether each candidate in turn is there;
/// `pick_output_path` chooses from those answers, so the result is the first candidate
/// found free.
pub fn output_path_for(input: &str, target_ext: &str, cfg: &OutputConfig) -> (res: String)
    ensures
        exists|dir_ok: bool, taken: Seq<bool>|
            res@ == #[trigger] output_candidate(input@, target_ext@, cfg@, dir_ok, first_free(taken)),
        is_output_path(res@, input@, target_ext@, cfg@),
{
    let dir_ok = match configured_output_dir(&cfg.dir) {
        Some(d) => path_is_dir(d.as_str()),
        None => false,
    };
    let taken = ask_until_free(
        |k: u64| path_exists(output_candidate_path(input, target_ext, cfg, dir_ok, k).as_str()),
    );
    let res = pick_output_path(input, target_ext, cfg, dir_ok, &taken);
    assert(is_output_path(res@, input@, target_ext@, cfg@));
    res
}

} // verus!
