use pip_shell::files::read_text_file;
use pip_shell::listing::read_directory;
use pip_shell::messages::greet;
use pip_shell::state::AppState;

#[test]
fn greet_formats_name() {
    assert_eq!(greet("World"), "Hello, World! You've been greeted from Rust!");
}

#[test]
fn greet_empty_name() {
    assert_eq!(greet(""), "Hello, ! You've been greeted from Rust!");
}

#[test]
fn read_text_file_passes_contents_through() {
    let r = read_text_file("/tmp/hello.txt", Ok(String::from("hello")));
    assert_eq!(r, Ok(String::from("hello")));
}

#[test]
fn read_text_file_error_names_path_and_cause() {
    let r = read_text_file("/missing/file.txt", Err(String::from("no such file")));
    let message = r.unwrap_err();
    assert_eq!(message, "Failed to read file /missing/file.txt: no such file");
    assert!(message.contains("/missing/file.txt"));
}

#[test]
fn read_directory_returns_every_decodable_name() {
    let listing = Ok(vec![
        Some(String::from("notes.txt")),
        Some(String::from("shot.png")),
        Some(String::from("sub")),
    ]);
    let r = read_directory("/tmp/d", listing);
    assert_eq!(
        r,
        Ok(vec![
            String::from("notes.txt"),
            String::from("shot.png"),
            String::from("sub"),
        ])
    );
}

#[test]
fn read_directory_skips_undecodable_names() {
    let listing = Ok(vec![
        Some(String::from("a")),
        None,
        Some(String::from("b")),
        None,
    ]);
    let r = read_directory("/tmp/d", listing);
    assert_eq!(r, Ok(vec![String::from("a"), String::from("b")]));
}

#[test]
fn read_directory_error_names_path_and_cause() {
    let r = read_directory("/gone", Err(String::from("permission denied")));
    let message = r.unwrap_err();
    assert_eq!(message, "Failed to read directory /gone: permission denied");
    assert!(message.contains("/gone"));
}

#[test]
fn screenshot_path_starts_empty() {
    let state = AppState::new();
    assert_eq!(state.get_screenshot_path(), "");
}

#[test]
fn screenshot_path_set_then_get() {
    let mut state = AppState::new();
    let confirmation = state.set_screenshot_path(String::from("/tmp/x"));
    assert_eq!(confirmation, Ok(String::from("Screenshot path set to: /tmp/x")));
    assert_eq!(state.get_screenshot_path(), "/tmp/x");
}

#[test]
fn screenshot_path_overwrites_previous_value() {
    let mut state = AppState::new();
    let _ = state.set_screenshot_path(String::from("/tmp/a"));
    let _ = state.set_screenshot_path(String::from("/tmp/b"));
    assert_eq!(state.get_screenshot_path(), "/tmp/b");
}
