use audio_browser::app::Action;
use audio_browser::app::App;
use audio_browser::app::AudioError;
use audio_browser::app::Key;
use audio_browser::app::Pane;
use audio_browser::listing::DirListing;

fn b(s: &str) -> Vec<u8> {
    s.as_bytes().to_vec()
}

fn listing(dirs: &[&str], files: &[&str]) -> DirListing {
    DirListing {
        directories: dirs.iter().map(|d| b(d)).collect(),
        files: files.iter().map(|f| b(f)).collect(),
    }
}

fn expect_navigate(a: Action) -> Vec<u8> {
    match a {
        Action::Navigate { target } => target,
        _ => panic!("expected a navigate action"),
    }
}

fn expect_play(a: Action) -> (Vec<u8>, bool) {
    match a {
        Action::Play { path, looping } => (path, looping),
        _ => panic!("expected a play action"),
    }
}

#[test]
fn fresh_session_selects_first_entries() {
    let app = App::new(b("/music"), listing(&["rock"], &["a.mp3"]));
    assert_eq!(app.current_path, b("/music"));
    assert_eq!(app.dir_cursor, Some(0));
    assert_eq!(app.file_cursor, Some(0));
    assert_eq!(app.focus, Pane::Directories);
    assert!(!app.should_exit);
    assert!(app.looping);
    assert_eq!(app.error_msg, None);
    assert_eq!(app.progress_parts(0), None);
}

#[test]
fn fresh_session_of_empty_directory_has_no_selection() {
    let app = App::new(b("/empty"), listing(&[], &[]));
    assert_eq!(app.dir_cursor, None);
    assert_eq!(app.file_cursor, None);
}

#[test]
fn quit_key_sets_exit_flag() {
    let mut app = App::new(b("/music"), listing(&["rock"], &["a.mp3"]));
    let a = app.handle_key(Key::Char('q'));
    assert!(matches!(a, Action::Idle));
    assert!(app.should_exit);
}

#[test]
fn tab_into_files_plays_the_selection() {
    let mut app = App::new(b("/music"), listing(&["rock"], &["a.mp3"]));
    let a = app.handle_key(Key::Tab);
    assert_eq!(app.focus, Pane::Files);
    let (path, looping) = expect_play(a);
    assert_eq!(path, b("/music/a.mp3"));
    assert!(looping);
}

#[test]
fn tab_into_empty_file_list_plays_nothing() {
    let mut app = App::new(b("/music"), listing(&["rock"], &[]));
    let a = app.handle_key(Key::Tab);
    assert_eq!(app.focus, Pane::Files);
    assert!(matches!(a, Action::Idle));
}

#[test]
fn tab_back_to_directories_stops_playback() {
    let mut app = App::new(b("/music"), listing(&[], &["a.mp3"]));
    app.handle_key(Key::Tab);
    app.on_play_result(Ok(Some(1_000)));
    assert_eq!(app.progress_parts(500), Some((500, 1_000)));
    let a = app.handle_key(Key::Tab);
    assert_eq!(app.focus, Pane::Directories);
    assert!(matches!(a, Action::Stop));
    assert_eq!(app.progress_parts(500), None);
}

#[test]
fn directory_cursor_clamps_at_both_ends() {
    let mut app = App::new(b("/music"), listing(&["a", "b"], &[]));
    app.handle_key(Key::Up);
    assert_eq!(app.dir_cursor, Some(0));
    app.handle_key(Key::Down);
    assert_eq!(app.dir_cursor, Some(1));
    app.handle_key(Key::Down);
    assert_eq!(app.dir_cursor, Some(1));
}

#[test]
fn file_cursor_moves_play_the_new_selection() {
    let mut app = App::new(b("/music"), listing(&[], &["a.mp3", "b.wav"]));
    app.handle_key(Key::Tab);
    let a = app.handle_key(Key::Down);
    let (path, _) = expect_play(a);
    assert_eq!(path, b("/music/b.wav"));
    let a = app.handle_key(Key::Up);
    let (path, _) = expect_play(a);
    assert_eq!(path, b("/music/a.mp3"));
    let a = app.handle_key(Key::Up);
    let (path, _) = expect_play(a);
    assert_eq!(path, b("/music/a.mp3"));
}

#[test]
fn enter_key_replays_the_selection() {
    let mut app = App::new(b("/music"), listing(&[], &["a.mp3"]));
    app.handle_key(Key::Tab);
    let a = app.handle_key(Key::Enter);
    let (path, _) = expect_play(a);
    assert_eq!(path, b("/music/a.mp3"));
}

#[test]
fn entering_a_subdirectory_resets_the_file_cursor() {
    let mut app = App::new(b("/music"), listing(&["rock"], &["a.mp3", "b.wav"]));
    app.handle_key(Key::Tab);
    app.handle_key(Key::Down);
    assert_eq!(app.file_cursor, Some(1));
    app.handle_key(Key::Tab);
    let target = expect_navigate(app.handle_key(Key::Right));
    assert_eq!(target, b("/music/rock"));
    app.navigate_to(target, Ok(listing(&[], &["x.ogg", "y.ogg", "z.ogg"])));
    assert_eq!(app.file_cursor, Some(0));
    let target = expect_navigate(app.handle_key(Key::Left));
    app.navigate_to(target, Ok(listing(&["rock"], &["a.mp3", "b.wav"])));
    assert_eq!(app.file_cursor, Some(0));
}

#[test]
fn enter_and_exit_restore_the_directory_cursor() {
    let music = || listing(&["rock"], &[]);
    let rock = || listing(&["sixties", "seventies", "eighties"], &[]);
    let mut app = App::new(b("/music"), music());

    let target = expect_navigate(app.handle_key(Key::Right));
    assert_eq!(target, b("/music/rock"));
    app.navigate_to(target, Ok(rock()));
    assert_eq!(app.dir_cursor, Some(0));

    app.handle_key(Key::Down);
    app.handle_key(Key::Down);
    assert_eq!(app.dir_cursor, Some(2));

    let target = expect_navigate(app.handle_key(Key::Left));
    assert_eq!(target, b("/music"));
    app.navigate_to(target, Ok(music()));
    assert_eq!(app.current_path, b("/music"));
    assert_eq!(app.dir_cursor, Some(0));

    let target = expect_navigate(app.handle_key(Key::Right));
    app.navigate_to(target, Ok(rock()));
    assert_eq!(app.current_path, b("/music/rock"));
    assert_eq!(app.dir_cursor, Some(2));
}

#[test]
fn exit_at_the_root_is_a_no_op() {
    let mut app = App::new(b("/"), listing(&["music"], &[]));
    let a = app.handle_key(Key::Left);
    assert!(matches!(a, Action::Idle));
    assert_eq!(app.current_path, b("/"));
}

#[test]
fn enter_with_no_subdirectory_is_a_no_op() {
    let mut app = App::new(b("/music"), listing(&[], &["a.mp3"]));
    let a = app.handle_key(Key::Right);
    assert!(matches!(a, Action::Idle));
    assert_eq!(app.current_path, b("/music"));
}

#[test]
fn failed_scan_keeps_the_browser_where_it_was() {
    let mut app = App::new(b("/music"), listing(&["rock"], &["a.mp3"]));
    let target = expect_navigate(app.handle_key(Key::Right));
    app.navigate_to(target, Err(String::from("permission denied")));
    assert_eq!(app.current_path, b("/music"));
    assert_eq!(app.dir_cursor, Some(0));
    assert_eq!(app.error_msg, Some(String::from("permission denied")));
}

#[test]
fn next_key_press_clears_the_error_message() {
    let mut app = App::new(b("/music"), listing(&["rock"], &["a.mp3"]));
    app.navigate_to(b("/music/rock"), Err(String::from("gone")));
    assert!(app.error_msg.is_some());
    app.handle_key(Key::Other);
    assert_eq!(app.error_msg, None);
}

#[test]
fn failed_decode_shows_a_message_and_keeps_the_session() {
    let mut app = App::new(b("/music"), listing(&[], &["a.mp3", "bad.wav"]));
    app.handle_key(Key::Tab);
    app.on_play_result(Ok(Some(2_000)));
    let a = app.handle_key(Key::Down);
    let (path, _) = expect_play(a);
    assert_eq!(path, b("/music/bad.wav"));
    app.on_play_result(Err(AudioError::Decode));
    assert!(!app.should_exit);
    assert_eq!(app.error_msg, Some(String::from("Failed to decode the file")));
    assert_eq!(app.progress_parts(100), None);
}

#[test]
fn error_messages_name_each_failure_kind() {
    assert_eq!(AudioError::Device.message(), "Failed to open the default audio device");
    assert_eq!(AudioError::Io.message(), "Failed to open file");
    assert_eq!(AudioError::Decode.message(), "Failed to decode the file");
}

#[test]
fn toggle_loop_stops_playback_at_once() {
    let mut app = App::new(b("/music"), listing(&[], &["a.mp3"]));
    app.handle_key(Key::Tab);
    app.on_play_result(Ok(Some(3_000)));
    assert_eq!(app.progress_parts(1_500), Some((1_500, 3_000)));
    let a = app.handle_key(Key::Char('l'));
    assert!(matches!(a, Action::Stop));
    assert!(!app.looping);
    assert_eq!(app.progress_parts(1_500), None);
    let a = app.handle_key(Key::Char('l'));
    assert!(matches!(a, Action::Stop));
    assert!(app.looping);
}

#[test]
fn next_play_picks_up_the_toggled_flag() {
    let mut app = App::new(b("/music"), listing(&[], &["a.mp3"]));
    app.handle_key(Key::Char('l'));
    app.handle_key(Key::Tab);
    let a = app.handle_key(Key::Enter);
    let (_, looping) = expect_play(a);
    assert!(!looping);
}

#[test]
fn progress_wraps_past_the_duration() {
    let mut app = App::new(b("/music"), listing(&[], &["a.mp3"]));
    app.handle_key(Key::Tab);
    app.on_play_result(Ok(Some(1_000)));
    assert_eq!(app.progress_parts(2_500), Some((500, 1_000)));
    assert_eq!(app.progress_parts(999), Some((999, 1_000)));
    assert_eq!(app.progress_parts(1_000), Some((0, 1_000)));
}

#[test]
fn unknown_duration_reads_as_no_progress() {
    let mut app = App::new(b("/music"), listing(&[], &["a.mp3"]));
    app.handle_key(Key::Tab);
    app.on_play_result(Ok(None));
    assert_eq!(app.progress_parts(12_345), None);
}
