//! State reconstruction: the current metadata of a path, derived by
//! replaying the journal's history.
//!
//! A path currently exists as a directory when the last `Mkdir`/`Rmdir`
//! entry naming it exactly is a `Mkdir`. A directory is empty when no path
//! strictly below it (in the string-prefix sense) currently exists. `Write`
//! entries play no part here: they affect neither existence-as-directory nor
//! emptiness.

use vstd::prelude::*;

use crate::entry::{entry_path, is_mkdir, EntryView, LogEntry};
use crate::paths::{dirname, is_strict_descendant, spec_dirname, str_eq, str_starts_with};

verus! {

/// Whether `p` currently exists as a directory after replaying `log`.
pub open spec fn dir_exists_in(log: Seq<EntryView>, p: Seq<char>) -> bool
    decreases log.len(),
{
    if log.len() == 0 {
        false
    } else {
        match log.last() {
            EntryView::Mkdir { path } => {
                if path == p {
                    true
                } else {
                    dir_exists_in(log.drop_last(), p)
                }
            },
            EntryView::Rmdir { path } => {
                if path == p {
                    false
                } else {
                    dir_exists_in(log.drop_last(), p)
                }
            },
            EntryView::Write { .. } => dir_exists_in(log.drop_last(), p),
        }
    }
}

/// Whether `p` has no currently-existing strict descendant.
pub open spec fn empty_dir(log: Seq<EntryView>, p: Seq<char>) -> bool {
    forall|q: Seq<char>| is_strict_descendant(q, p) ==> !(#[trigger] dir_exists_in(log, q))
}

/// A currently-existing directory was created at some point: some `Mkdir`
/// entry names it.
pub proof fn lemma_live_has_mkdir(log: Seq<EntryView>, q: Seq<char>)
    requires
        dir_exists_in(log, q),
    ensures
        exists|j: int|
            0 <= j < log.len() && is_mkdir(#[trigger] log[j]) && entry_path(log[j]) == q,
    decreases log.len(),
{
    let last = log.last();
    if is_mkdir(last) && entry_path(last) == q {
        assert(0 <= log.len() - 1 < log.len() && is_mkdir(log[log.len() - 1]) && entry_path(
            log[log.len() - 1],
        ) == q);
    } else {
        lemma_live_has_mkdir(log.drop_last(), q);
        let j = choose|j: int|
            0 <= j < log.drop_last().len() && is_mkdir(#[trigger] log.drop_last()[j])
                && entry_path(log.drop_last()[j]) == q;
        assert(log.drop_last()[j] == log[j]);
        assert(0 <= j < log.len() && is_mkdir(log[j]) && entry_path(log[j]) == q);
    }
}

/// There is a live strict descendant of `p` exactly when some `Mkdir` entry
/// names a strict descendant of `p` that is still live.
pub proof fn lemma_empty_iff_no_witness(log: Seq<EntryView>, p: Seq<char>)
    ensures
        empty_dir(log, p) <==> (forall|j: int|
            0 <= j < log.len() ==> !(is_mkdir(#[trigger] log[j]) && is_strict_descendant(
                entry_path(log[j]),
                p,
            ) && dir_exists_in(log, entry_path(log[j])))),
{
    if forall|j: int|
        0 <= j < log.len() ==> !(is_mkdir(#[trigger] log[j]) && is_strict_descendant(
            entry_path(log[j]),
            p,
        ) && dir_exists_in(log, entry_path(log[j]))) {
        assert forall|q: Seq<char>| is_strict_descendant(q, p) implies !(#[trigger] dir_exists_in(
            log,
            q,
        )) by {
            if dir_exists_in(log, q) {
                lemma_live_has_mkdir(log, q);
            }
        }
    }
}

/// Transient metadata for one queried path, recomputed per call.
pub struct MetaData {
    pub empty: bool,
    pub is_dir: bool,
    pub self_exists: bool,
    pub parent_exists: bool,
    pub dirname: String,
}

/// Whether `p` currently exists as a directory, by a full replay of `log`.
pub fn dir_live(log: &Vec<LogEntry>, p: &str) -> (r: bool)
    ensures
        r == dir_exists_in(log.deep_view(), p@),
{
    let ghost lv = log.deep_view();
    let mut live = false;
    let mut i: usize = 0;
    proof {
        assert(lv.take(0) =~= Seq::<EntryView>::empty());
    }
    while i < log.len()
        invariant
            lv == log.deep_view(),
            lv.len() == log@.len(),
            0 <= i <= log@.len(),
            live == dir_exists_in(lv.take(i as int), p@),
        decreases log@.len() - i,
    {
        match &log[i] {
            LogEntry::Mkdir { path } => {
                if str_eq(path.as_str(), p) {
                    live = true;
                }
            },
            LogEntry::Rmdir { path } => {
                if str_eq(path.as_str(), p) {
                    live = false;
                }
            },
            LogEntry::Write { .. } => {},
        }
        proof {
            assert(lv.take(i + 1).drop_last() =~= lv.take(i as int));
            assert(lv.take(i + 1).last() == lv[i as int]);
            assert(lv[i as int] == log@[i as int]@);
        }
        i += 1;
    }
    proof {
        assert(lv.take(log@.len() as int) =~= lv);
    }
    live
}

/// The current metadata of `p`: parent path, existence of parent and of `p`
/// itself, and emptiness, all derived from the entry sequence alone.
pub fn get_meta_data(log: &Vec<LogEntry>, p: &str) -> (m: MetaData)
    requires
        p@.len() >= 1,
    ensures
        m.dirname@ == spec_dirname(p@),
        m.parent_exists == dir_exists_in(log.deep_view(), spec_dirname(p@)),
        m.self_exists == dir_exists_in(log.deep_view(), p@),
        m.is_dir == dir_exists_in(log.deep_view(), p@),
        m.empty == empty_dir(log.deep_view(), p@),
{
    let ghost lv = log.deep_view();
    let dn = dirname(p);
    let parent_exists = dir_live(log, dn.as_str());
    let self_exists = dir_live(log, p);

    let mut empty = true;
    let mut i: usize = 0;
    while i < log.len()
        invariant
            lv == log.deep_view(),
            lv.len() == log@.len(),
            0 <= i <= log@.len(),
            empty == (forall|j: int|
                0 <= j < i ==> !(is_mkdir(#[trigger] lv[j]) && is_strict_descendant(
                    entry_path(lv[j]),
                    p@,
                ) && dir_exists_in(lv, entry_path(lv[j])))),
        decreases log@.len() - i,
    {
        proof {
            assert(lv[i as int] == log@[i as int]@);
        }
        match &log[i] {
            LogEntry::Mkdir { path } => {
                if str_starts_with(path.as_str(), p) && path.as_str().unicode_len()
                    != p.unicode_len() {
                    if dir_live(log, path.as_str()) {
                        empty = false;
                    }
                }
            },
            _ => {},
        }
        i += 1;
    }
    proof {
        lemma_empty_iff_no_witness(lv, p@);
    }
    MetaData { empty, is_dir: self_exists, self_exists, parent_exists, dirname: dn }
}

} // verus!
