//! The journal's entries: one recorded operation each.

use vstd::prelude::*;

verus! {

/// One historical event. `Write` carries the content-addressed name of the
/// payload (the blob name), never the payload itself.
pub enum LogEntry {
    Mkdir { path: String },
    Rmdir { path: String },
    Write { path: String, hash: String },
}

/// The mathematical shape of an entry: the same tagged variant over
/// character sequences.
pub enum EntryView {
    Mkdir { path: Seq<char> },
    Rmdir { path: Seq<char> },
    Write { path: Seq<char>, hash: Seq<char> },
}

impl View for LogEntry {
    type V = EntryView;

    open spec fn view(&self) -> EntryView {
        match self {
            LogEntry::Mkdir { path } => EntryView::Mkdir { path: path@ },
            LogEntry::Rmdir { path } => EntryView::Rmdir { path: path@ },
            LogEntry::Write { path, hash } => (EntryView::Write { path: path@, hash: hash@ }),
        }
    }
}

impl DeepView for LogEntry {
    type V = EntryView;

    open spec fn deep_view(&self) -> EntryView {
        self.view()
    }
}

/// The path an entry speaks about.
pub open spec fn entry_path(e: EntryView) -> Seq<char> {
    match e {
        EntryView::Mkdir { path } => path,
        EntryView::Rmdir { path } => path,
        EntryView::Write { path, .. } => path,
    }
}

/// The blob name a write entry carries; empty for the other variants.
pub open spec fn entry_hash(e: EntryView) -> Seq<char> {
    match e {
        EntryView::Write { hash, .. } => hash,
        _ => Seq::empty(),
    }
}

pub open spec fn is_mkdir(e: EntryView) -> bool {
    match e {
        EntryView::Mkdir { .. } => true,
        _ => false,
    }
}

} // verus!
