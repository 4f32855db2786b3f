use blox::{new, Log};

fn setup() -> Log {
    let mut log = new("rmdir", "./rmdir");
    let _ = log.mkdir("/foo");
    let _ = log.mkdir("/foo/bar");
    let _ = log.mkdir("/foo/buzz");
    log
}

#[test]
fn rmdir() {
    let mut log = setup();
    let err = log.rmdir("/foo/buzz").err();
    assert!(
        err.is_none(),
        "rmdir returned an error {:?}", err.expect("is_none with value"));
}

#[test]
fn rmdir_missing() {
    let mut log = setup();
    let err = log.rmdir("/beep/bop").err();
    assert!(
        err.is_some(),
        "rmdir did not return an error!");
}

#[test]
fn rmdir_empty_string() {
    let mut log = setup();
    let err = log.rmdir("").err();
    assert!(
        err.is_some(),
        "rmdir did not return an error!");
}

#[test]
fn rmdir_invalid_string() {
    let mut log = setup();
    let err = log.rmdir("C:\\\\not\\valid").err();
    assert!(
        err.is_some(),
        "rmdir did not return an error!");
}

#[test]
fn rmdir_double() {
    let mut log = setup();
    let err = log.rmdir("/foo/bar").err();
    assert!(
        err.is_none(),
        "rmdir returned an error on first invocation!");
    let err = log.rmdir("/foo/bar").err();
    assert!(
        err.is_some(),
        "rmdir did not return an error! on second invocation");
}

#[test]
fn rmdir_not_empty() {
    let mut log = setup();
    let err = log.rmdir("/foo").err();
    assert!(
        err.is_some(),
        "rmdir did not return an error!");
}
