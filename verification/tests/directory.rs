use host_commands::directory::get_current_dir;
use std::io::Error;
use std::io::ErrorKind;
use std::path::PathBuf;

#[test]
fn path_becomes_its_text() {
    let answer = get_current_dir(Ok(PathBuf::from("/home/user/project")));
    assert_eq!(answer, Ok("/home/user/project".to_string()));
}

#[test]
fn path_beyond_ascii_keeps_its_characters() {
    let answer = get_current_dir(Ok(PathBuf::from("/srv/übung/继续")));
    assert_eq!(answer, Ok("/srv/übung/继续".to_string()));
}

#[test]
fn empty_path_becomes_empty_text() {
    let answer = get_current_dir(Ok(PathBuf::new()));
    assert_eq!(answer, Ok(String::new()));
}

#[test]
fn error_becomes_its_description() {
    let answer = get_current_dir(Err(Error::new(ErrorKind::NotFound, "directory is gone")));
    assert_eq!(answer, Err("directory is gone".to_string()));
}

#[test]
fn error_of_a_kind_alone_is_described_too() {
    let error = Error::from(ErrorKind::PermissionDenied);
    let expected = error.to_string();
    let answer = get_current_dir(Err(Error::from(ErrorKind::PermissionDenied)));
    assert!(!expected.is_empty());
    assert_eq!(answer, Err(expected));
}

#[test]
fn relative_path_is_not_made_absolute() {
    let answer = get_current_dir(Ok(PathBuf::from("work/../here")));
    assert_eq!(answer, Ok("work/../here".to_string()));
}

#[test]
fn same_path_gives_the_same_text() {
    let first = get_current_dir(Ok(PathBuf::from("/var/tmp")));
    let second = get_current_dir(Ok(PathBuf::from("/var/tmp")));
    assert_eq!(first, second);
}
