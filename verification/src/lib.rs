//! A content-addressed, tamper-evident journal for a virtual hierarchical
//! namespace. Directory creation, directory removal and file writes are
//! appended to an immutable log; the current state of a path is derived on
//! demand by replaying that log, and the whole history can be rendered as a
//! hash-chained, reverse-chronological transcript.

pub mod digest;
pub mod entry;
pub mod journal;
pub mod laws;
pub mod paths;
pub mod render;
pub mod replay;

pub use digest::{b64url_of, blob_name, sha256_of, spec_blob_name};
pub use entry::{entry_hash, entry_path, is_mkdir, EntryView, LogEntry};
pub use journal::{mkdir_check, new, rmdir_check, write_check, JournalError, Log};
pub use render::{chain_hash_at, entry_tag, entry_text, spec_line_at};
pub use paths::{dirname, last_sep, spec_dirname, spec_last_sep, valid_path, is_strict_descendant};
pub use replay::{dir_exists_in, empty_dir, get_meta_data, MetaData};
