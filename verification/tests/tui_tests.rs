use video_encoder::scanner::{VideoCodec, VideoFile};
use video_encoder::tui::{AppState, SelectionKey};

fn files(n: usize) -> Vec<VideoFile> {
    (0..n)
        .map(|i| VideoFile {
            path: format!("/test/movie_{}.mkv", i),
            filename: format!("movie_{}.mkv", i),
            size: 1000,
            codec: VideoCodec::H264,
            resolution: None,
            duration: None,
            bitrate: None,
        })
        .collect()
}

#[test]
fn test_tui_file_selection_state() {
    let mut state = AppState::new(files(3));
    assert_eq!(state.highlighted, Some(0));
    state.next();
    assert_eq!(state.highlighted, Some(1));
    state.toggle_selection();
    assert!(state.selected_files.contains(&1));
    state.previous();
    state.previous();
    assert_eq!(state.highlighted, Some(2));
    assert_eq!(state.current_selection, 2);
    state.next();
    assert_eq!(state.highlighted, Some(0));
    state.toggle_selection();
    let chosen: Vec<&str> = state.get_selected_files().iter().map(|f| f.filename.as_str()).collect();
    assert_eq!(chosen, vec!["movie_0.mkv", "movie_1.mkv"]);
    state.toggle_selection();
    assert!(!state.selected_files.contains(&0));
    state.select_all();
    assert_eq!(state.get_selected_files().len(), 3);
    state.deselect_all();
    assert!(state.get_selected_files().is_empty());
}

#[test]
fn test_tui_empty_list() {
    let mut state = AppState::new(Vec::new());
    assert_eq!(state.highlighted, None);
    state.next();
    state.previous();
    state.toggle_selection();
    assert_eq!(state.highlighted, None);
    assert!(state.get_selected_files().is_empty());
    assert!(!state.should_quit);
    assert!(!state.confirmed);
}

#[test]
fn test_keys_map_to_actions() {
    assert_eq!(SelectionKey::from_char('q'), SelectionKey::Quit);
    assert_eq!(SelectionKey::from_char('j'), SelectionKey::Down);
    assert_eq!(SelectionKey::from_char('k'), SelectionKey::Up);
    assert_eq!(SelectionKey::from_char(' '), SelectionKey::Toggle);
    assert_eq!(SelectionKey::from_char('a'), SelectionKey::SelectAll);
    assert_eq!(SelectionKey::from_char('d'), SelectionKey::DeselectAll);
    assert_eq!(SelectionKey::from_char('x'), SelectionKey::Other);
}

#[test]
fn test_handle_key_confirm_returns_chosen_files() {
    let mut state = AppState::new(files(4));
    assert!(!state.handle_key(SelectionKey::Down));
    assert!(!state.handle_key(SelectionKey::Toggle));
    assert!(!state.handle_key(SelectionKey::Down));
    assert!(!state.handle_key(SelectionKey::Down));
    assert!(!state.handle_key(SelectionKey::Toggle));
    assert!(!state.handle_key(SelectionKey::Other));
    assert_eq!(state.highlighted, Some(3));
    assert!(state.handle_key(SelectionKey::Confirm));
    assert!(state.confirmed);
    let chosen: Vec<String> = state.into_selection().into_iter().map(|f| f.filename).collect();
    assert_eq!(chosen, vec!["movie_1.mkv".to_string(), "movie_3.mkv".to_string()]);
}

#[test]
fn test_handle_key_quit_returns_nothing() {
    let mut state = AppState::new(files(2));
    assert!(!state.handle_key(SelectionKey::SelectAll));
    assert_eq!(state.get_selected_files().len(), 2);
    assert!(state.handle_key(SelectionKey::Quit));
    assert!(state.should_quit);
    assert!(state.into_selection().is_empty());
}

#[test]
fn test_handle_key_deselect_then_confirm() {
    let mut state = AppState::new(files(3));
    state.handle_key(SelectionKey::SelectAll);
    state.handle_key(SelectionKey::DeselectAll);
    state.handle_key(SelectionKey::Up);
    assert_eq!(state.highlighted, Some(2));
    state.handle_key(SelectionKey::Toggle);
    assert!(state.handle_key(SelectionKey::Confirm));
    let chosen: Vec<String> = state.into_selection().into_iter().map(|f| f.filename).collect();
    assert_eq!(chosen, vec!["movie_2.mkv".to_string()]);
}
