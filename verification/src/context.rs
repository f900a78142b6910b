//! The paths handed over from the file manager. Several launches in quick succession
//! (one per selected file) add up to one selection; a launch after a pause starts a
//! new one.
use vstd::prelude::*;

use crate::text::{copy_str, vec_contains_str, views};

verus! {

/// How long, in milliseconds, launches keep adding to the same selection.
pub const AGGREGATION_WINDOW_MS: u128 = 1500;

/// Whether a launch starts a new selection: when there was no earlier launch, or the
/// last one is more than 1.5 s ago.
pub open spec fn should_reset_spec(elapsed_ms: Option<u128>) -> bool {
    match elapsed_ms {
        Some(t) => t > AGGREGATION_WINDOW_MS,
        None => true,
    }
}

/// Whether a launch starts a new selection: when there was no earlier launch, or the
/// last one is more than 1.5 s ago.
pub fn should_reset(elapsed_ms: Option<u128>) -> (res: bool)
    ensures
        res == should_reset_spec(elapsed_ms),
{
    match elapsed_ms {
        Some(t) => t > AGGREGATION_WINDOW_MS,
        None => true,
    }
}

/// `base` with the paths of `new` that it does not hold yet appended, in order.
pub open spec fn merged(base: Seq<Seq<char>>, new: Seq<Seq<char>>) -> Seq<Seq<char>>
    decreases new.len(),
{
    if new.len() == 0 {
        base
    } else {
        let r = merged(base, new.drop_last());
        if r.contains(new.last()) {
            r
        } else {
            r.push(new.last())
        }
    }
}

/// The current selection of paths; no path occurs twice.
#[derive(Debug)]
pub struct ContextPaths {
    paths: Vec<String>,
}

impl View for ContextPaths {
    type V = Seq<Seq<char>>;

    closed spec fn view(&self) -> Seq<Seq<char>> {
        views(self.paths@)
    }
}

/// `merged` keeps a sequence free of repeats.
proof fn lemma_merged_no_duplicates(base: Seq<Seq<char>>, new: Seq<Seq<char>>)
    requires
        base.no_duplicates(),
    ensures
        merged(base, new).no_duplicates(),
    decreases new.len(),
{
    if new.len() > 0 {
        lemma_merged_no_duplicates(base, new.drop_last());
    }
}

impl ContextPaths {
    /// The invariant: no path occurs twice.
    pub closed spec fn wf(&self) -> bool {
        self@.no_duplicates()
    }

    /// An empty selection.
    pub fn new() -> (res: Self)
        ensures
            res.wf(),
            res@ == Seq::<Seq<char>>::empty(),
    {
        let res = ContextPaths { paths: Vec::new() };
        assert(res@ =~= Seq::<Seq<char>>::empty());
        res
    }

    /// The paths of the selection, in the order they came.
    pub fn paths(&self) -> (res: &Vec<String>)
        ensures
            views(res@) == self@,
    {
        &self.paths
    }

    /// Adds the paths that are not in the selection yet, after emptying it if `reset`.
    pub fn merge(&mut self, new_paths: &Vec<String>, reset: bool)
        requires
            old(self).wf(),
        ensures
            final(self).wf(),
            final(self)@ == merged(
                if reset {
                    Seq::<Seq<char>>::empty()
                } else {
                    old(self)@
                },
                views(new_paths@),
            ),
    {
        if reset {
            self.paths.clear();
        }
        let ghost base = views(self.paths@);
        assert(base == (if reset {
            Seq::<Seq<char>>::empty()
        } else {
            old(self)@
        }));
        let ghost ns = views(new_paths@);
        let mut i: usize = 0;
        assert(ns.take(0) =~= Seq::<Seq<char>>::empty());
        while i < new_paths.len()
            invariant
                i <= new_paths.len(),
                ns == views(new_paths@),
                views(self.paths@) == merged(base, ns.take(i as int)),
            decreases new_paths.len() - i,
        {
            assert(ns.take(i + 1).drop_last() =~= ns.take(i as int));
            assert(ns.take(i + 1).last() == new_paths@[i as int]@);
            if !vec_contains_str(&self.paths, new_paths[i].as_str()) {
                let ghost prev = views(self.paths@);
                self.paths.push(copy_str(new_paths[i].as_str()));
                assert(views(self.paths@) =~= prev.push(new_paths@[i as int]@));
            }
            i += 1;
        }
        assert(ns.take(i as int) =~= ns);
        proof {
            lemma_merged_no_duplicates(base, ns);
        }
    }
}

/// Takes the paths of one launch: nothing happens for none; otherwise they are added
/// to the selection, which starts afresh after a pause. Returns whether the palette
/// should be shown.
pub fn update_context(ctx: &mut ContextPaths, new_paths: &Vec<String>, elapsed_ms: Option<u128>) -> (res: bool)
    requires
        old(ctx).wf(),
    ensures
        final(ctx).wf(),
        res == (new_paths.len() > 0),
        new_paths.len() == 0 ==> final(ctx)@ == old(ctx)@,
        new_paths.len() > 0 ==> final(ctx)@ == merged(
            if should_reset_spec(elapsed_ms) {
                Seq::<Seq<char>>::empty()
            } else {
                old(ctx)@
            },
            views(new_paths@),
        ),
{
    if new_paths.len() == 0 {
        return false;
    }
    let reset = should_reset(elapsed_ms);
    ctx.merge(new_paths, reset);
    true
}

} // verus!
