//! Properties of the journal that hold for every history, stated over the
//! same spec functions the operation contracts use and proved once and for
//! all.

use vstd::prelude::*;

use crate::digest::spec_blob_name;
use crate::entry::{entry_hash, EntryView};
use crate::journal::{mkdir_check, rmdir_check, write_check, JournalError};
use crate::paths::{is_strict_descendant, lemma_dirname_shorter, spec_dirname, valid_path};
use crate::render::{chain_hash_at, spec_line_at};
use crate::replay::{dir_exists_in, empty_dir};

verus! {

/// Appending one entry re-decides liveness only for the path the entry
/// names: a pushed `Mkdir` makes its path live, a pushed `Rmdir` makes its
/// path dead, and every other path keeps its previous answer.
pub proof fn lemma_push_liveness(log: Seq<EntryView>, e: EntryView, q: Seq<char>)
    ensures
        dir_exists_in(log.push(e), q) == (match e {
            EntryView::Mkdir { path } => path == q || (path != q && dir_exists_in(log, q)),
            EntryView::Rmdir { path } => path != q && dir_exists_in(log, q),
            EntryView::Write { .. } => dir_exists_in(log, q),
        }),
{
    assert(log.push(e).drop_last() =~= log);
    assert(log.push(e).last() == e);
}

/// A directory just created reports "exists, is a directory, empty", and
/// its parent still exists. The emptiness clause needs the premise that
/// nothing strictly below `p` was live already: a history such as
/// `mkdir("/ab")` leaves `mkdir("/a")` permitted while `/ab` already counts
/// as a strict (string-prefix) descendant of `/a`.
pub proof fn lemma_mkdir_then_query(log: Seq<EntryView>, p: Seq<char>)
    requires
        mkdir_check(log, p) is Ok,
        empty_dir(log, p),
    ensures
        dir_exists_in(log.push(EntryView::Mkdir { path: p }), p),
        empty_dir(log.push(EntryView::Mkdir { path: p }), p),
        dir_exists_in(log.push(EntryView::Mkdir { path: p }), spec_dirname(p)),
{
    let e = EntryView::Mkdir { path: p };
    lemma_push_liveness(log, e, p);
    if p == seq!['/'] {
        // the root's parent is the root itself, which mkdir_check found dead
        // and live at once: impossible
        assert(spec_dirname(p) == p);
        assert(false);
    }
    lemma_dirname_shorter(p);
    lemma_push_liveness(log, e, spec_dirname(p));
    assert forall|q: Seq<char>| is_strict_descendant(q, p) implies !(#[trigger] dir_exists_in(
        log.push(e),
        q,
    )) by {
        lemma_push_liveness(log, e, q);
    }
}

/// `rmdir` is permitted exactly on a currently-existing directory with no
/// live descendants; a dead path is refused as `NotFound`, a live one with
/// live descendants as `NotEmpty`.
pub proof fn lemma_rmdir_success_condition(log: Seq<EntryView>, p: Seq<char>)
    requires
        valid_path(p),
    ensures
        (rmdir_check(log, p) is Ok) == (dir_exists_in(log, p) && empty_dir(log, p)),
        !dir_exists_in(log, p) ==> rmdir_check(log, p) == Err::<(), JournalError>(
            JournalError::NotFound,
        ),
        dir_exists_in(log, p) && !empty_dir(log, p) ==> rmdir_check(log, p) == Err::<
            (),
            JournalError,
        >(JournalError::NotEmpty),
{
}

/// Directories are reusable after removal: when `mkdir(p)` is permitted (and
/// nothing below `p` is live), `rmdir(p)` right after it is permitted, and a
/// second `mkdir(p)` after that is permitted again.
pub proof fn lemma_mkdir_rmdir_mkdir(log: Seq<EntryView>, p: Seq<char>)
    requires
        mkdir_check(log, p) is Ok,
        empty_dir(log, p),
    ensures
        ({
            let l1 = log.push(EntryView::Mkdir { path: p });
            let l2 = l1.push(EntryView::Rmdir { path: p });
            rmdir_check(l1, p) is Ok && mkdir_check(l2, p) is Ok
        }),
{
    let l1 = log.push(EntryView::Mkdir { path: p });
    let l2 = l1.push(EntryView::Rmdir { path: p });
    lemma_mkdir_then_query(log, p);
    if p == seq!['/'] {
        assert(spec_dirname(p) == p);
        assert(false);
    }
    lemma_dirname_shorter(p);
    lemma_push_liveness(l1, EntryView::Rmdir { path: p }, p);
    lemma_push_liveness(l1, EntryView::Rmdir { path: p }, spec_dirname(p));
}

/// The blob name depends on the written bytes alone: identical payloads
/// written at any two paths are stored under one and the same name.
pub proof fn lemma_blob_name_content_only(p1: Seq<char>, p2: Seq<char>, data: Seq<u8>)
    ensures
        entry_hash(EntryView::Write { path: p1, hash: spec_blob_name(data) }) == entry_hash(
            EntryView::Write { path: p2, hash: spec_blob_name(data) },
        ),
{
}

/// Rendering is deterministic: the transcript line of each entry is a
/// function of the entry sequence alone, so two renderings of the same
/// sequence are identical.
pub proof fn lemma_render_deterministic(log1: Seq<EntryView>, log2: Seq<EntryView>, i: int)
    requires
        log1 == log2,
        0 <= i < log1.len(),
    ensures
        spec_line_at(log1, i) == spec_line_at(log2, i),
{
}

/// Appending an entry never rewrites history: the chain hash and the
/// transcript line of every earlier entry stay exactly as they were.
pub proof fn lemma_append_preserves_lines(log: Seq<EntryView>, e: EntryView, i: int)
    requires
        0 <= i < log.len(),
    ensures
        chain_hash_at(log.push(e), i) == chain_hash_at(log, i),
        spec_line_at(log.push(e), i) == spec_line_at(log, i),
    decreases i,
{
    assert(log.push(e)[i] == log[i]);
    if i > 0 {
        lemma_append_preserves_lines(log, e, i - 1);
    } else {
        assert(log.push(e)[0] == log[0]);
    }
}

/// A malformed path - empty, or not rooted at `/` - is refused as
/// `InvalidArgument` by every operation (and the refusing operation leaves
/// the journal unchanged, as each mutator's contract states).
pub proof fn lemma_invalid_path_refused(log: Seq<EntryView>, p: Seq<char>)
    requires
        !valid_path(p),
    ensures
        mkdir_check(log, p) == Err::<(), JournalError>(JournalError::InvalidArgument),
        rmdir_check(log, p) == Err::<(), JournalError>(JournalError::InvalidArgument),
        write_check(log, p) == Err::<(), JournalError>(JournalError::InvalidArgument),
{
}

} // verus!
