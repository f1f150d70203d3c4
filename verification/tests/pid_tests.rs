use std::io::Write;

use tempfile::TempDir;
use v2ray_rs::pid::{PidError, PidFile};

fn test_pid_path(dir: &TempDir) -> String {
    dir.path().join("test.pid").to_str().unwrap().to_string()
}

#[test]
fn write_and_read_roundtrip() {
    let dir = TempDir::new().unwrap();
    let pid_file = PidFile::new(test_pid_path(&dir));

    let test_pid = 12345u32;
    pid_file.write(test_pid).unwrap();

    let read_pid = pid_file.read().unwrap();
    assert_eq!(read_pid, Some(test_pid));
}

#[test]
fn read_nonexistent_returns_none() {
    let dir = TempDir::new().unwrap();
    let pid_file = PidFile::new(test_pid_path(&dir));

    let result = pid_file.read().unwrap();
    assert_eq!(result, None);
}

#[test]
fn remove_nonexistent_no_error() {
    let dir = TempDir::new().unwrap();
    let pid_file = PidFile::new(test_pid_path(&dir));

    let result = pid_file.remove();
    assert!(result.is_ok());
}

#[test]
fn write_overwrites_existing() {
    let dir = TempDir::new().unwrap();
    let pid_file = PidFile::new(test_pid_path(&dir));

    pid_file.write(11111).unwrap();
    pid_file.write(22222).unwrap();

    let read_pid = pid_file.read().unwrap();
    assert_eq!(read_pid, Some(22222));
}

#[test]
fn write_creates_parent_directory() {
    let dir = TempDir::new().unwrap();
    let nested_path = dir
        .path()
        .join("nested")
        .join("dir")
        .join("test.pid")
        .to_str()
        .unwrap()
        .to_string();
    let pid_file = PidFile::new(nested_path.clone());

    pid_file.write(99999).unwrap();

    let read_pid = pid_file.read().unwrap();
    assert_eq!(read_pid, Some(99999));
}

#[test]
fn check_and_kill_orphaned_with_no_file() {
    let dir = TempDir::new().unwrap();
    let pid_file = PidFile::new(test_pid_path(&dir));

    let found_orphan = pid_file.check_and_kill_orphaned().unwrap();
    assert_eq!(found_orphan, false);
}

#[test]
fn check_and_kill_orphaned_with_dead_process() {
    let dir = TempDir::new().unwrap();
    let pid_file = PidFile::new(test_pid_path(&dir));

    let dead_pid = 999999u32;
    pid_file.write(dead_pid).unwrap();

    let found_orphan = pid_file.check_and_kill_orphaned().unwrap();
    assert_eq!(found_orphan, false);

    let read_result = pid_file.read().unwrap();
    assert_eq!(read_result, None);
}

#[test]
fn check_and_kill_orphaned_cleans_up_pid_file() {
    let dir = TempDir::new().unwrap();
    let pid_file = PidFile::new(test_pid_path(&dir));

    let fake_pid = 999999u32;
    pid_file.write(fake_pid).unwrap();

    pid_file.check_and_kill_orphaned().unwrap();

    let read_result = pid_file.read().unwrap();
    assert_eq!(read_result, None);
}

#[test]
fn read_invalid_pid_returns_error() {
    let dir = TempDir::new().unwrap();
    let path = test_pid_path(&dir);
    let pid_file = PidFile::new(path.clone());

    let mut tmp = tempfile::NamedTempFile::new_in(dir.path()).unwrap();
    tmp.write_all(b"not_a_number").unwrap();
    tmp.persist(&path).unwrap();

    let result = pid_file.read();
    assert!(result.is_err());
    assert_eq!(result.unwrap_err(), PidError::Corrupt);
}

#[test]
fn read_accepts_surrounding_whitespace() {
    let dir = TempDir::new().unwrap();
    let path = test_pid_path(&dir);
    let pid_file = PidFile::new(path.clone());

    let mut tmp = tempfile::NamedTempFile::new_in(dir.path()).unwrap();
    tmp.write_all(b"  4242\n").unwrap();
    tmp.persist(&path).unwrap();

    assert_eq!(pid_file.read().unwrap(), Some(4242));
}

#[test]
fn read_rejects_overflowing_pid() {
    let dir = TempDir::new().unwrap();
    let path = test_pid_path(&dir);
    let pid_file = PidFile::new(path.clone());

    let mut tmp = tempfile::NamedTempFile::new_in(dir.path()).unwrap();
    tmp.write_all(b"99999999999999999999").unwrap();
    tmp.persist(&path).unwrap();

    assert_eq!(pid_file.read().unwrap_err(), PidError::Corrupt);
}
