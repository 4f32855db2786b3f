//! The tamper-evident transcript: a running hash chain over the entry
//! sequence, emitted newest entry first.
//!
//! Entry `i` contributes the line `"{chain_hash_i} {tag} {text}"`, where
//! `chain_hash_i` is the encoded SHA-256 digest of `"{tag} {text}"` for the
//! first entry and of `"{tag} {text} {chain_hash_(i-1)}"` afterwards.
//! Altering or reordering any earlier entry therefore changes every later
//! chain hash, and tampering is detectable by recomputation.

use vstd::prelude::*;

use crate::digest::{line_hash, spec_line_hash};
use crate::entry::{EntryView, LogEntry};
use crate::journal::Log;

verus! {

/// The type tag an entry is rendered under.
pub open spec fn entry_tag(e: EntryView) -> Seq<char> {
    match e {
        EntryView::Mkdir { .. } => "mkdir"@,
        EntryView::Rmdir { .. } => "rmdir"@,
        EntryView::Write { .. } => "write"@,
    }
}

/// The canonical text form of an entry: its path, plus the blob name for a
/// write.
pub open spec fn entry_text(e: EntryView) -> Seq<char> {
    match e {
        EntryView::Mkdir { path } => path,
        EntryView::Rmdir { path } => path,
        EntryView::Write { path, hash } => path + " "@ + hash,
    }
}

/// The chain hash after entry `i`: each step digests the entry's tag and
/// text, bound to the previous chain hash for every entry after the first.
pub open spec fn chain_hash_at(log: Seq<EntryView>, i: int) -> Seq<char>
    recommends
        0 <= i < log.len(),
    decreases i,
{
    if i <= 0 {
        spec_line_hash(entry_tag(log[0]) + " "@ + entry_text(log[0]))
    } else {
        spec_line_hash(
            entry_tag(log[i]) + " "@ + entry_text(log[i]) + " "@ + chain_hash_at(log, i - 1),
        )
    }
}

/// The printable line recorded for entry `i`.
pub open spec fn spec_line_at(log: Seq<EntryView>, i: int) -> Seq<char>
    recommends
        0 <= i < log.len(),
{
    chain_hash_at(log, i) + " "@ + entry_tag(log[i]) + " "@ + entry_text(log[i])
}

impl Log {
    /// The transcript: one line per entry, newest first. Line `i` of the
    /// result describes entry `len - 1 - i`. Rendering reads the entry
    /// sequence alone, so it is deterministic and repeatable.
    pub fn render(&self) -> (lines: Vec<String>)
        ensures
            lines@.len() == self@.len(),
            forall|i: int|
                0 <= i < lines@.len() ==> #[trigger] lines@[i]@ == spec_line_at(
                    self@,
                    self@.len() - 1 - i,
                ),
    {
        let ghost lv = self@;
        let entries = self.entries();
        let n = entries.len();
        let mut fwd: Vec<String> = Vec::new();
        let mut hash: String = String::new();
        let mut i: usize = 0;
        while i < n
            invariant
                lv == self@,
                lv == entries.deep_view(),
                n == lv.len(),
                n == entries@.len(),
                0 <= i <= n,
                fwd@.len() == i,
                forall|j: int| 0 <= j < i ==> #[trigger] fwd@[j]@ == spec_line_at(lv, j),
                i > 0 ==> hash@ == chain_hash_at(lv, i - 1),
            decreases n - i,
        {
            proof {
                assert(lv[i as int] == entries@[i as int]@);
            }
            let entry = &entries[i];
            let tag: &str = match entry {
                LogEntry::Mkdir { .. } => "mkdir",
                LogEntry::Rmdir { .. } => "rmdir",
                LogEntry::Write { .. } => "write",
            };
            let mut text = String::new();
            match entry {
                LogEntry::Mkdir { path } => {
                    text.append(path.as_str());
                },
                LogEntry::Rmdir { path } => {
                    text.append(path.as_str());
                },
                LogEntry::Write { path, hash: blob } => {
                    text.append(path.as_str());
                    text.append(" ");
                    text.append(blob.as_str());
                },
            }
            proof {
                assert(text@ =~= entry_text(lv[i as int]));
            }
            let mut pre = String::new();
            pre.append(tag);
            pre.append(" ");
            pre.append(text.as_str());
            if i > 0 {
                pre.append(" ");
                pre.append(hash.as_str());
                proof {
                    assert(pre@ =~= entry_tag(lv[i as int]) + " "@ + entry_text(lv[i as int])
                        + " "@ + chain_hash_at(lv, i - 1));
                }
            } else {
                proof {
                    assert(pre@ =~= entry_tag(lv[i as int]) + " "@ + entry_text(lv[i as int]));
                }
            }
            hash = line_hash(pre.as_str());
            let mut line = String::new();
            line.append(hash.as_str());
            line.append(" ");
            line.append(tag);
            line.append(" ");
            line.append(text.as_str());
            proof {
                assert(line@ =~= spec_line_at(lv, i as int));
            }
            fwd.push(line);
            i += 1;
        }
        let mut lines: Vec<String> = Vec::new();
        while fwd.len() > 0
            invariant
                lv == self@,
                n == lv.len(),
                fwd@.len() + lines@.len() == n,
                forall|j: int| 0 <= j < fwd@.len() ==> #[trigger] fwd@[j]@ == spec_line_at(lv, j),
                forall|t: int|
                    0 <= t < lines@.len() ==> #[trigger] lines@[t]@ == spec_line_at(
                        lv,
                        n - 1 - t,
                    ),
            decreases fwd@.len(),
        {
            let s = fwd.pop().unwrap();
            lines.push(s);
        }
        lines
    }
}

} // verus!
