use clipboard_history::paths::{
    data_path, data_path_in, history_path, history_path_in, is_private_mode, private_mode_path,
    private_mode_path_in,
};
use std::path::PathBuf;

#[test]
fn data_files_live_in_clipboard_history_dir() {
    let dir = data_path();
    assert!(dir.ends_with("clipboard-history"));
    assert!(history_path().ends_with("clipboard-history/history.json"));
    assert!(private_mode_path().ends_with("clipboard-history/.private"));
    assert_eq!(history_path().parent(), Some(dir.as_path()));
}

#[test]
fn private_mode_follows_marker_file() {
    assert_eq!(is_private_mode(), private_mode_path().exists());
}

#[test]
fn data_path_in_joins_the_directory_name() {
    let base = PathBuf::from("/home/alice/.local/share");
    assert_eq!(data_path_in(Some(base.clone())), PathBuf::from("/home/alice/.local/share/clipboard-history"));
    assert_eq!(data_path_in(None), PathBuf::from("./clipboard-history"));
    assert_eq!(
        history_path_in(Some(base.clone())),
        PathBuf::from("/home/alice/.local/share/clipboard-history/history.json")
    );
    assert_eq!(
        private_mode_path_in(Some(base)),
        PathBuf::from("/home/alice/.local/share/clipboard-history/.private")
    );
    assert_eq!(history_path_in(None), PathBuf::from("./clipboard-history/history.json"));
    assert_eq!(private_mode_path_in(None), PathBuf::from("./clipboard-history/.private"));
}

#[test]
fn paths_follow_the_data_directory() {
    let base = dirs_next::data_dir();
    assert_eq!(history_path(), history_path_in(base.clone()));
    assert_eq!(data_path(), data_path_in(base));
}
