//! The journal: an append-only entry log with validated mutators.
//!
//! Entries are never edited or removed; logical deletion is itself a new
//! entry. Each mutator replays history to check its preconditions and, only
//! when all of them hold, appends exactly one entry.

use vstd::prelude::*;

use crate::digest::{blob_name, spec_blob_name};
use crate::entry::{EntryView, LogEntry};
use crate::paths::{spec_dirname, valid_path};
use crate::replay::{dir_exists_in, empty_dir, get_meta_data};

verus! {

/// Why an operation was refused. `IOFailure` is reserved for the blob
/// store's filesystem errors, which arise outside this crate; the journal's
/// own validation never produces it.
#[derive(Clone, Copy, Debug, PartialEq, Eq, Structural)]
pub enum JournalError {
    InvalidArgument,
    NotFound,
    AlreadyExists,
    NotEmpty,
    IOFailure,
}

/// The validation `mkdir` performs, in order: path format, parent existence,
/// absence of the directory itself.
pub open spec fn mkdir_check(log: Seq<EntryView>, p: Seq<char>) -> Result<(), JournalError> {
    if !valid_path(p) {
        Err(JournalError::InvalidArgument)
    } else if !dir_exists_in(log, spec_dirname(p)) {
        Err(JournalError::NotFound)
    } else if dir_exists_in(log, p) {
        Err(JournalError::AlreadyExists)
    } else {
        Ok(())
    }
}

/// The validation `rmdir` performs: path format, existence, emptiness.
pub open spec fn rmdir_check(log: Seq<EntryView>, p: Seq<char>) -> Result<(), JournalError> {
    if !valid_path(p) {
        Err(JournalError::InvalidArgument)
    } else if !dir_exists_in(log, p) {
        Err(JournalError::NotFound)
    } else if !empty_dir(log, p) {
        Err(JournalError::NotEmpty)
    } else {
        Ok(())
    }
}

/// The validation `write` performs: path format, parent existence, and that
/// the path is not currently a directory. A path holding a file may be
/// written again: repeated writes are versioning, not an error.
pub open spec fn write_check(log: Seq<EntryView>, p: Seq<char>) -> Result<(), JournalError> {
    if !valid_path(p) {
        Err(JournalError::InvalidArgument)
    } else if !dir_exists_in(log, spec_dirname(p)) {
        Err(JournalError::NotFound)
    } else if dir_exists_in(log, p) {
        Err(JournalError::AlreadyExists)
    } else {
        Ok(())
    }
}

/// The journal: its ordered entry log, a human-readable name, and the
/// location of the blob store that holds written payloads.
pub struct Log {
    log: Vec<LogEntry>,
    pub name: String,
    pub blob_dir: String,
}

impl View for Log {
    type V = Seq<EntryView>;

    closed spec fn view(&self) -> Seq<EntryView> {
        self.log.deep_view()
    }
}

impl Log {
    /// The journal's name, as a character sequence.
    pub closed spec fn spec_name(&self) -> Seq<char> {
        self.name@
    }

    /// The blob store location, as a character sequence.
    pub closed spec fn spec_blob_dir(&self) -> Seq<char> {
        self.blob_dir@
    }

    /// Every journal starts with the root: its first entry is `Mkdir { "/" }`.
    pub open spec fn wf(&self) -> bool {
        self@.len() >= 1 && self@[0] == (EntryView::Mkdir { path: seq!['/'] })
    }

    /// The entry log, for read-only inspection and replay.
    pub fn entries(&self) -> (r: &Vec<LogEntry>)
        ensures
            r.deep_view() == self@,
    {
        &self.log
    }

    /// Record the creation of a directory at `p`.
    pub fn mkdir(&mut self, p: &str) -> (r: Result<(), JournalError>)
        ensures
            r == mkdir_check(old(self)@, p@),
            r is Ok ==> final(self)@ == old(self)@.push(EntryView::Mkdir { path: p@ }),
            r is Err ==> final(self)@ == old(self)@,
            final(self).spec_name() == old(self).spec_name(),
            final(self).spec_blob_dir() == old(self).spec_blob_dir(),
            old(self).wf() ==> final(self).wf(),
    {
        if p.is_empty() {
            return Err(JournalError::InvalidArgument);
        }
        if p.get_char(0) != '/' {
            return Err(JournalError::InvalidArgument);
        }
        let info = get_meta_data(&self.log, p);
        if !info.parent_exists {
            return Err(JournalError::NotFound);
        }
        if info.self_exists {
            return Err(JournalError::AlreadyExists);
        }
        self.log.push(LogEntry::Mkdir { path: p.to_owned() });
        proof {
            assert(self@ =~= old(self)@.push(EntryView::Mkdir { path: p@ }));
        }
        Ok(())
    }

    /// Record the removal of the directory at `p`.
    pub fn rmdir(&mut self, p: &str) -> (r: Result<(), JournalError>)
        ensures
            r == rmdir_check(old(self)@, p@),
            r is Ok ==> final(self)@ == old(self)@.push(EntryView::Rmdir { path: p@ }),
            r is Err ==> final(self)@ == old(self)@,
            final(self).spec_name() == old(self).spec_name(),
            final(self).spec_blob_dir() == old(self).spec_blob_dir(),
            old(self).wf() ==> final(self).wf(),
    {
        if p.is_empty() {
            return Err(JournalError::InvalidArgument);
        }
        if p.get_char(0) != '/' {
            return Err(JournalError::InvalidArgument);
        }
        let info = get_meta_data(&self.log, p);
        if !info.self_exists {
            return Err(JournalError::NotFound);
        }
        if !info.empty {
            return Err(JournalError::NotEmpty);
        }
        self.log.push(LogEntry::Rmdir { path: p.to_owned() });
        proof {
            assert(self@ =~= old(self)@.push(EntryView::Rmdir { path: p@ }));
        }
        Ok(())
    }

    /// Record a file write at `p`. The entry carries the blob name of
    /// `data`; persisting the payload under that name is the blob store's
    /// business and must happen before this call, so that no entry ever
    /// names a blob that was not stored.
    pub fn write(&mut self, p: &str, data: Vec<u8>) -> (r: Result<(), JournalError>)
        ensures
            r == write_check(old(self)@, p@),
            r is Ok ==> final(self)@ == old(self)@.push(
                EntryView::Write { path: p@, hash: spec_blob_name(data@) },
            ),
            r is Err ==> final(self)@ == old(self)@,
            final(self).spec_name() == old(self).spec_name(),
            final(self).spec_blob_dir() == old(self).spec_blob_dir(),
            old(self).wf() ==> final(self).wf(),
    {
        if p.is_empty() {
            return Err(JournalError::InvalidArgument);
        }
        if p.get_char(0) != '/' {
            return Err(JournalError::InvalidArgument);
        }
        let info = get_meta_data(&self.log, p);
        if !info.parent_exists {
            return Err(JournalError::NotFound);
        }
        if info.is_dir {
            return Err(JournalError::AlreadyExists);
        }
        let hash = blob_name(data.as_slice());
        self.log.push(LogEntry::Write { path: p.to_owned(), hash });
        proof {
            assert(self@ =~= old(self)@.push(
                EntryView::Write { path: p@, hash: spec_blob_name(data@) },
            ));
        }
        Ok(())
    }
}

/// A fresh journal, pre-seeded with the root entry `Mkdir { "/" }`. The
/// blob store directory itself lives outside this crate: whoever persists
/// payloads ensures it exists at `path`.
pub fn new(name: &str, path: &str) -> (log: Log)
    ensures
        log@.len() == 1,
        log@[0] == (EntryView::Mkdir { path: seq!['/'] }),
        log.wf(),
        log.spec_name() == name@,
        log.spec_blob_dir() == path@,
{
    proof {
        reveal_strlit("/");
        assert("/"@ =~= seq!['/']);
    }
    let mut entries: Vec<LogEntry> = Vec::new();
    entries.push(LogEntry::Mkdir { path: "/".to_owned() });
    let log = Log { log: entries, name: name.to_owned(), blob_dir: path.to_owned() };
    proof {
        assert(log@ =~= seq![EntryView::Mkdir { path: seq!['/'] }]);
    }
    log
}

} // verus!
