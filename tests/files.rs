use std::io::ErrorKind;
use text_editor::files::{
    chosen_path, default_load_file, load_result, save_needs_dialog, save_result, Error,
};

#[test]
fn default_file_is_under_package_dir() {
    assert_eq!(default_load_file("/home/me/editor"), "/home/me/editor/src/main.rs");
    assert_eq!(default_load_file(""), "/src/main.rs");
}

#[test]
fn dialog_choice_becomes_path() {
    assert_eq!(chosen_path(Some("/tmp/x.rs".to_string())).unwrap(), "/tmp/x.rs");
    assert!(matches!(chosen_path(None), Err(Error::DialogClosed)));
}

#[test]
fn load_keeps_error_category() {
    let r = load_result("/nope".to_string(), Err(ErrorKind::NotFound));
    assert!(matches!(r, Err(Error::IOFailed(ErrorKind::NotFound))));
    let (p, t) = load_result("/yes".to_string(), Ok("abc".to_string())).unwrap();
    assert_eq!(p, "/yes");
    assert_eq!(t, "abc");
}

#[test]
fn save_then_load_round_trips() {
    let path = "/tmp/text_editor_round_trip.txt".to_string();
    let text = "first line\nsecond line\n\u{e9}\n".to_string();
    let rt = tokio::runtime::Builder::new_current_thread().build().unwrap();
    let written = rt
        .block_on(tokio::fs::write(path.clone(), text.clone()))
        .map_err(|e| e.kind());
    let saved = save_result(path.clone(), written).unwrap();
    assert_eq!(saved, path);
    let read = rt
        .block_on(tokio::fs::read_to_string(saved.clone()))
        .map_err(|e| e.kind());
    let (loaded_path, loaded) = load_result(saved, read).unwrap();
    assert_eq!(loaded_path, path);
    assert_eq!(loaded, text);
}

#[test]
fn dialog_only_for_untitled_save() {
    assert!(save_needs_dialog(&None));
    assert!(!save_needs_dialog(&Some("/tmp/a.txt".to_string())));
}
