//! Paths as strings: the std path operations the library relies on, and the
//! file-name rules built on them.
use vstd::prelude::*;

use crate::text::{chars_of, copy_str, string_from_range, views};

verus! {

/// What `Path::file_name` gives for `path` on the platform the library is built for:
/// the final component, or `None` where the path ends in `..` or has no component.
pub uninterp spec fn file_name_of(path: Seq<char>) -> Option<Seq<char>>;

/// What `Path::parent` gives for `path` on the platform the library is built for.
pub uninterp spec fn parent_of(path: Seq<char>) -> Option<Seq<char>>;

/// What `Path::join` gives for `base` and `rest` on the platform the library is
/// built for.
pub uninterp spec fn joined(base: Seq<char>, rest: Seq<char>) -> Seq<char>;

/// `Path::file_name`, for a path given as a string. Its result is named `file_name_of`.
#[verifier::external_body]
pub(crate) fn path_file_name(path: &str) -> (res: Option<String>)
    ensures
        match res {
            Some(n) => file_name_of(path@) == Some(n@),
            None => file_name_of(path@) is None,
        },
{
    std::path::Path::new(path).file_name().map(|n| n.to_string_lossy().to_string())
}

/// `Path::parent`, for a path given as a string. Its result is named `parent_of`.
#[verifier::external_body]
pub(crate) fn path_parent(path: &str) -> (res: Option<String>)
    ensures
        match res {
            Some(p) => parent_of(path@) == Some(p@),
            None => parent_of(path@) is None,
        },
{
    std::path::Path::new(path).parent().map(|p| p.to_string_lossy().to_string())
}

/// `Path::join` followed by `to_string_lossy`. Its result is named `joined`.
#[verifier::external_body]
pub(crate) fn path_join(base: &str, rest: &str) -> (res: String)
    ensures
        res@ == joined(base@, rest@),
{
    std::path::Path::new(base).join(rest).to_string_lossy().to_string()
}

/// `Path::exists`. The answer depends on the file system at the time of the call,
/// so nothing is stated of it.
#[verifier::external_body]
pub(crate) fn path_exists(path: &str) -> bool {
    std::path::Path::new(path).exists()
}

/// `Path::is_dir`. The answer depends on the file system at the time of the call,
/// so nothing is stated of it.
#[verifier::external_body]
pub(crate) fn path_is_dir(path: &str) -> bool {
    std::path::Path::new(path).is_dir()
}

/// The index of the last `.` in `name`, if any.
pub open spec fn last_dot(name: Seq<char>) -> Option<int>
    decreases name.len(),
{
    if name.len() == 0 {
        None
    } else if name.last() == '.' {
        Some(name.len() - 1)
    } else {
        last_dot(name.drop_last())
    }
}

/// The extension of a file name, as `Path::extension` documents it: `None` without an
/// embedded `.` or when the only `.` starts the name; otherwise what follows the last `.`.
pub open spec fn extension_of_name(name: Seq<char>) -> Option<Seq<char>> {
    match last_dot(name) {
        Some(k) => if k == 0 { None } else { Some(name.skip(k + 1)) },
        None => None,
    }
}

/// The stem of a file name, as `Path::file_stem` documents it: the whole name without an
/// embedded `.` or when the only `.` starts the name; otherwise what precedes the last `.`.
pub open spec fn stem_of_name(name: Seq<char>) -> Seq<char> {
    match last_dot(name) {
        Some(k) => if k == 0 { name } else { name.take(k) },
        None => name,
    }
}

/// `Path::extension` of a path.
pub open spec fn extension_of(path: Seq<char>) -> Option<Seq<char>> {
    match file_name_of(path) {
        Some(n) => extension_of_name(n),
        None => None,
    }
}

/// `Path::file_stem` of a path.
pub open spec fn file_stem_of(path: Seq<char>) -> Option<Seq<char>> {
    match file_name_of(path) {
        Some(n) => Some(stem_of_name(n)),
        None => None,
    }
}

proof fn lemma_last_dot_take(name: Seq<char>, j: int)
    requires
        0 <= j <= name.len(),
        forall|k: int| j <= k < name.len() ==> name[k] != '.',
    ensures
        last_dot(name) == last_dot(name.take(j)),
    decreases name.len() - j,
{
    if j < name.len() {
        assert(name.drop_last().take(j) =~= name.take(j));
        lemma_last_dot_take(name.drop_last(), j);
    } else {
        assert(name.take(j) =~= name);
    }
}

/// The index of the last `.` in `cs`.
fn find_last_dot(cs: &Vec<char>) -> (res: Option<usize>)
    ensures
        match res {
            Some(k) => last_dot(cs@) == Some(k as int) && k < cs.len(),
            None => last_dot(cs@) is None,
        },
{
    let mut j: usize = cs.len();
    while j > 0
        invariant
            j <= cs.len(),
            forall|k: int| j <= k < cs.len() ==> cs@[k] != '.',
        decreases j,
    {
        if cs[j - 1] == '.' {
            proof {
                lemma_last_dot_take(cs@, j as int);
                assert(cs@.take(j as int).last() == '.');
            }
            return Some(j - 1);
        }
        j -= 1;
    }
    proof {
        lemma_last_dot_take(cs@, 0);
    }
    None
}

/// The extension of a path (`Path::extension`).
pub fn path_extension(path: &str) -> (res: Option<String>)
    ensures
        match res {
            Some(e) => extension_of(path@) == Some(e@),
            None => extension_of(path@) is None,
        },
{
    match path_file_name(path) {
        None => None,
        Some(name) => {
            let cs = chars_of(name.as_str());
            match find_last_dot(&cs) {
                Some(k) => {
                    if k == 0 {
                        None
                    } else {
                        assert(cs@.skip(k + 1) =~= cs@.subrange(k + 1, cs.len() as int));
                        Some(string_from_range(&cs, k + 1, cs.len()))
                    }
                },
                None => None,
            }
        },
    }
}

/// The stem of a path (`Path::file_stem`).
pub fn path_file_stem(path: &str) -> (res: Option<String>)
    ensures
        match res {
            Some(s) => file_stem_of(path@) == Some(s@),
            None => file_stem_of(path@) is None,
        },
{
    match path_file_name(path) {
        None => None,
        Some(name) => {
            let cs = chars_of(name.as_str());
            match find_last_dot(&cs) {
                Some(k) => {
                    if k == 0 {
                        Some(name)
                    } else {
                        assert(cs@.take(k as int) =~= cs@.subrange(0, k as int));
                        Some(string_from_range(&cs, 0, k))
                    }
                },
                None => Some(name),
            }
        },
    }
}

/// The name shown for a path: its file name, or the whole path where it has none.
pub open spec fn display_name_of(path: Seq<char>) -> Seq<char> {
    match file_name_of(path) {
        Some(n) => n,
        None => path,
    }
}

/// The name shown for a path: its file name, or the whole path where it has none.
pub fn display_name(path: &str) -> (res: String)
    ensures
        res@ == display_name_of(path@),
{
    match path_file_name(path) {
        Some(n) => n,
        None => copy_str(path),
    }
}

/// Whether an argument looks like an option: it starts with `-`.
pub open spec fn is_flag_arg(a: Seq<char>) -> bool {
    a.len() > 0 && a[0] == '-'
}

/// The elements of `s` that do not look like options, in order.
pub open spec fn non_flags(s: Seq<Seq<char>>) -> Seq<Seq<char>>
    decreases s.len(),
{
    if s.len() == 0 {
        seq![]
    } else {
        let rest = non_flags(s.drop_last());
        if is_flag_arg(s.last()) {
            rest
        } else {
            rest.push(s.last())
        }
    }
}

/// The arguments after the program's own path that do not start with `-`: the
/// candidates for paths handed over on the command line.
pub open spec fn path_candidates(argv: Seq<Seq<char>>) -> Seq<Seq<char>> {
    if argv.len() == 0 {
        seq![]
    } else {
        non_flags(argv.skip(1))
    }
}

/// The elements of `s` whose flag in `keep` is set, in order.
pub open spec fn select(s: Seq<Seq<char>>, keep: Seq<bool>) -> Seq<Seq<char>>
    decreases s.len(),
{
    if s.len() == 0 || keep.len() == 0 {
        seq![]
    } else {
        let rest = select(s.drop_last(), keep.drop_last());
        if keep.last() {
            rest.push(s.last())
        } else {
            rest
        }
    }
}

/// `s` is a subsequence of `t`: `s` is what remains of `t` once some elements are dropped.
pub open spec fn is_subsequence(s: Seq<Seq<char>>, t: Seq<Seq<char>>) -> bool {
    exists|keep: Seq<bool>| keep.len() == t.len() && s == #[trigger] select(t, keep)
}

/// Whether an argument looks like an option (starts with `-`).
fn is_flag(a: &str) -> (res: bool)
    ensures
        res == is_flag_arg(a@),
{
    let cs = chars_of(a);
    cs.len() > 0 && cs[0] == '-'
}

/// The command-line arguments that may name paths: all but the first, without those
/// that start with `-`.
pub fn candidate_args(argv: &[String]) -> (res: Vec<String>)
    ensures
        views(res@) == path_candidates(views(argv@)),
{
    let mut res: Vec<String> = Vec::new();
    if argv.len() == 0 {
        return res;
    }
    let ghost src = views(argv@).skip(1);
    let mut i: usize = 1;
    assert(src.take(0) =~= Seq::<Seq<char>>::empty());
    while i < argv.len()
        invariant
            1 <= i <= argv.len(),
            src == views(argv@).skip(1),
            views(res@) == non_flags(src.take(i - 1)),
        decreases argv.len() - i,
    {
        assert(src.take(i as int).drop_last() =~= src.take(i - 1));
        assert(src.take(i as int).last() == argv@[i as int]@);
        if !is_flag(argv[i].as_str()) {
            let a = copy_str(argv[i].as_str());
            res.push(a);
            assert(views(res@) =~= non_flags(src.take(i as int)));
        } else {
            assert(views(res@) =~= non_flags(src.take(i as int)));
        }
        i += 1;
    }
    assert(src.take(i - 1) =~= src);
    res
}

/// The elements of `items` whose flag in `keep` is set, in order.
pub fn select_kept(items: &Vec<String>, keep: &Vec<bool>) -> (res: Vec<String>)
    requires
        keep.len() == items.len(),
    ensures
        views(res@) == select(views(items@), keep@),
{
    let mut res: Vec<String> = Vec::new();
    let mut i: usize = 0;
    while i < items.len()
        invariant
            keep.len() == items.len(),
            i <= items.len(),
            views(res@) == select(views(items@).take(i as int), keep@.take(i as int)),
        decreases items.len() - i,
    {
        assert(views(items@).take(i + 1).drop_last() =~= views(items@).take(i as int));
        assert(keep@.take(i + 1).drop_last() =~= keep@.take(i as int));
        if keep[i] {
            res.push(copy_str(items[i].as_str()));
            assert(views(res@) =~= select(views(items@).take(i + 1), keep@.take(i + 1)));
        }
        i += 1;
    }
    assert(views(items@).take(i as int) =~= views(items@));
    assert(keep@.take(i as int) =~= keep@);
    res
}

/// Asks `keeps` about each item in turn by its position and keeps the items it answers
/// `true` for, in order: each item is kept exactly when the answer given for it was
/// `true`.
pub fn keep_answered<F: Fn(usize) -> bool>(items: &Vec<String>, keeps: F) -> (res: Vec<String>)
    requires
        forall|i: usize| keeps.requires((i,)),
    ensures
        exists|keep: Seq<bool>|
            keep.len() == items.len() && (forall|i: int|
                0 <= i < items.len() ==> keeps.ensures((i as usize,), #[trigger] keep[i]))
                && views(res@) == select(views(items@), keep),
{
    let mut keep: Vec<bool> = Vec::new();
    let mut i: usize = 0;
    while i < items.len()
        invariant
            i <= items.len(),
            keep.len() == i,
            forall|i: usize| keeps.requires((i,)),
            forall|j: int| 0 <= j < i ==> keeps.ensures((j as usize,), #[trigger] keep@[j]),
        decreases items.len() - i,
    {
        let answer = keeps(i);
        keep.push(answer);
        assert(keep@[i as int] == answer);
        i += 1;
    }
    select_kept(items, &keep)
}

/// The paths named on a command line: the candidate arguments (all but the first,
/// none starting with `-`) that exist on disk. Each candidate is asked about once, through
/// `keep_answered`, and kept exactly when the file system answered that it exists;
/// whatever it answers, the result keeps candidates only, in their order.
pub fn extract_paths(argv: &[String]) -> (res: Vec<String>)
    ensures
        is_subsequence(views(res@), path_candidates(views(argv@))),
{
    let candidates = candidate_args(argv);
    let res = keep_answered(&candidates, |i: usize| i < candidates.len() && path_exists(candidates[i].as_str()));
    assert(is_subsequence(views(res@), views(candidates@)));
    res
}

} // verus!
