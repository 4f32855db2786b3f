use base64::Engine;
use blox::{blob_name, dirname, get_meta_data, last_sep, new, JournalError};
use sha2::Digest;

#[test]
fn mkdir_then_query_reports_empty_directory() {
    let mut log = new("t", "./t");
    assert!(log.mkdir("/foo").is_ok());
    let m = get_meta_data(log.entries(), "/foo");
    assert!(m.self_exists);
    assert!(m.is_dir);
    assert!(m.empty);
    assert!(m.parent_exists);
    assert_eq!(m.dirname, "/");
}

#[test]
fn rmdir_success_conditions() {
    let mut log = new("t", "./t");
    assert_eq!(log.rmdir("/x").err(), Some(JournalError::NotFound));
    assert!(log.mkdir("/x").is_ok());
    assert!(log.mkdir("/x/y").is_ok());
    assert_eq!(log.rmdir("/x").err(), Some(JournalError::NotEmpty));
    assert!(log.rmdir("/x/y").is_ok());
    assert!(log.rmdir("/x").is_ok());
}

#[test]
fn mkdir_rmdir_mkdir_reuses_directory() {
    let mut log = new("t", "./t");
    assert!(log.mkdir("/a").is_ok());
    assert!(log.rmdir("/a").is_ok());
    assert!(log.mkdir("/a").is_ok());
}

#[test]
fn identical_bytes_share_one_blob_name() {
    let n1 = blob_name("same payload".as_bytes());
    let n2 = blob_name("same payload".as_bytes());
    assert_eq!(n1, n2);

    let mut log = new("t", "./t");
    assert!(log.mkdir("/a").is_ok());
    assert!(log.mkdir("/b").is_ok());
    assert!(log.write("/a/f.txt", "same payload".as_bytes().to_vec()).is_ok());
    assert!(log.write("/b/g.txt", "same payload".as_bytes().to_vec()).is_ok());
    let lines = log.render();
    let d1 = lines[0].split(' ').last().unwrap();
    let d2 = lines[1].split(' ').last().unwrap();
    assert_eq!(d1, d2);
    assert_eq!(d1, n1);
}

#[test]
fn invalid_paths_leave_the_journal_unchanged() {
    let mut log = new("t", "./t");
    let before = log.entries().len();
    assert_eq!(log.mkdir("").err(), Some(JournalError::InvalidArgument));
    assert_eq!(log.mkdir("relative/path").err(), Some(JournalError::InvalidArgument));
    assert_eq!(log.rmdir("").err(), Some(JournalError::InvalidArgument));
    assert_eq!(log.rmdir("no-root").err(), Some(JournalError::InvalidArgument));
    assert_eq!(log.write("", vec![1u8]).err(), Some(JournalError::InvalidArgument));
    assert_eq!(log.write("x.txt", vec![1u8]).err(), Some(JournalError::InvalidArgument));
    assert_eq!(log.entries().len(), before);
}

#[test]
fn mkdir_without_parent_is_not_found() {
    let mut log = new("t", "./t");
    assert_eq!(log.mkdir("/x/y").err(), Some(JournalError::NotFound));
}

#[test]
fn mkdir_on_existing_directory_already_exists() {
    let mut log = new("t", "./t");
    assert!(log.mkdir("/x").is_ok());
    assert_eq!(log.mkdir("/x").err(), Some(JournalError::AlreadyExists));
}

#[test]
fn write_on_directory_already_exists() {
    let mut log = new("t", "./t");
    assert!(log.mkdir("/x").is_ok());
    assert_eq!(log.write("/x", vec![1u8, 2]).err(), Some(JournalError::AlreadyExists));
}

#[test]
fn write_without_parent_is_not_found() {
    let mut log = new("t", "./t");
    assert_eq!(log.write("/x/f.txt", vec![1u8]).err(), Some(JournalError::NotFound));
}

#[test]
fn repeated_writes_to_one_path_are_versioning() {
    let mut log = new("t", "./t");
    assert!(log.write("/f.txt", vec![1u8]).is_ok());
    assert!(log.write("/f.txt", vec![2u8]).is_ok());
    assert_eq!(log.entries().len(), 3);
}

#[test]
fn rendering_is_deterministic() {
    let mut log = new("t", "./t");
    assert!(log.mkdir("/foo").is_ok());
    assert!(log.write("/foo/b.txt", "hi".as_bytes().to_vec()).is_ok());
    let first = log.render();
    let second = log.render();
    assert_eq!(first, second);
}

#[test]
fn appending_keeps_earlier_lines() {
    let mut log = new("t", "./t");
    assert!(log.mkdir("/foo").is_ok());
    let before = log.render();
    assert!(log.mkdir("/bar").is_ok());
    let after = log.render();
    assert_eq!(after.len(), before.len() + 1);
    // newest first: the old lines reappear unchanged at the tail
    assert_eq!(&after[1..], &before[..]);
}

#[test]
fn end_to_end_transcript() {
    let mut log = new("t", "./t");
    assert!(log.mkdir("/foo").is_ok());
    assert!(log.write("/foo/b.txt", "hi".as_bytes().to_vec()).is_ok());
    assert!(log.mkdir("/foo/bar").is_ok());
    assert!(log.rmdir("/foo/bar").is_ok());
    let lines = log.render();
    assert_eq!(lines.len(), 5);

    let tails: Vec<String> = lines
        .iter()
        .map(|l| l.splitn(2, ' ').nth(1).unwrap().to_string())
        .collect();
    assert_eq!(tails[0], "rmdir /foo/bar");
    assert_eq!(tails[1], "mkdir /foo/bar");
    assert!(tails[2].starts_with("write /foo/b.txt "));
    assert_eq!(tails[3], "mkdir /foo");
    assert_eq!(tails[4], "mkdir /");

    let hashes: Vec<&str> = lines.iter().map(|l| l.split(' ').next().unwrap()).collect();
    for h in &hashes {
        assert_eq!(h.len(), 43);
        assert!(h.chars().all(|c| c.is_ascii_alphanumeric() || c == '-' || c == '_'));
    }
    for i in 0..hashes.len() {
        for j in 0..i {
            assert_ne!(hashes[i], hashes[j]);
        }
    }
}

#[test]
fn blob_name_matches_known_digests() {
    assert_eq!(blob_name(b""), "47DEQpj8HBSa-_TImW-5JCeuQeRkm5NMpJWZG3hSuFU");
    assert_eq!(
        blob_name(b"hello world"),
        "uU0nuZNNPgilLlLX2n2r-sSE7-N6U4DukIj3rOLvzek"
    );
}

#[test]
fn chain_matches_direct_recomputation() {
    let mut log = new("t", "./t");
    assert!(log.mkdir("/foo").is_ok());
    assert!(log.write("/foo/b.txt", "hi".as_bytes().to_vec()).is_ok());
    let lines = log.render();

    let b64 = base64::engine::general_purpose::URL_SAFE_NO_PAD;
    let blob = b64.encode(sha2::Sha256::digest(b"hi"));
    let h0 = b64.encode(sha2::Sha256::digest("mkdir /".as_bytes()));
    let h1 = b64.encode(sha2::Sha256::digest(format!("mkdir /foo {}", h0).as_bytes()));
    let h2 = b64.encode(sha2::Sha256::digest(
        format!("write /foo/b.txt {} {}", blob, h1).as_bytes(),
    ));
    assert_eq!(lines[2], format!("{} mkdir /", h0));
    assert_eq!(lines[1], format!("{} mkdir /foo", h1));
    assert_eq!(lines[0], format!("{} write /foo/b.txt {}", h2, blob));
}

#[test]
fn dirname_cuts_at_the_last_separator() {
    assert_eq!(dirname("/foo/bar"), "/foo");
    assert_eq!(dirname("/foo"), "/");
    assert_eq!(dirname("/"), "/");
    assert_eq!(dirname("//"), "/");
    assert_eq!(last_sep("/foo/bar"), 4);
    assert_eq!(last_sep("/foo"), 0);
    assert_eq!(last_sep("/"), 0);
}

#[test]
fn descendants_go_by_string_prefix() {
    // "/ab" counts as lying below "/a", exactly as the replay algorithm
    // defines descendants: by string prefix, not by path components
    let mut log = new("t", "./t");
    assert!(log.mkdir("/ab").is_ok());
    assert!(log.mkdir("/a").is_ok());
    let m = get_meta_data(log.entries(), "/a");
    assert!(m.self_exists && !m.empty);
    assert_eq!(log.rmdir("/a").err(), Some(JournalError::NotEmpty));
}
