use cli_home::status::{failure_status, first_line, outcome_to_status};
use cli_home::{App, Effect, Key, KeyPress, RunStatus, StatusError, UpdateOutcome};

fn press(code: Key) -> KeyPress {
    KeyPress { code, control: false }
}

fn failed(message: &str) -> RunStatus {
    RunStatus::Failed(message.to_string())
}

fn all_statuses(app: &App) -> Vec<RunStatus> {
    (0..app.len()).map(|i| app.status(i).unwrap().clone()).collect()
}

#[test]
fn new_menu_has_four_items_never_run() {
    let app = App::new();
    assert_eq!(app.len(), 4);
    assert!(app.is_running());
    assert_eq!(app.current_index(), 0);
    let labels: Vec<&str> = (0..4).map(|i| app.label(i).unwrap().as_str()).collect();
    assert_eq!(labels, vec!["Check for updates", "Weather", "Check Repo (Git only)", "quit"]);
    for i in 0..4 {
        assert_eq!(app.status(i), Some(&RunStatus::Never));
    }
    assert!(app.label(4).is_none());
    assert!(app.status(4).is_none());
}

#[test]
fn cursor_walks_down_and_up_within_bounds() {
    let mut app = App::new();
    for _ in 0..3 {
        app.on_key_event(press(Key::Down));
    }
    assert_eq!(app.current_index(), 3);
    app.on_key_event(press(Key::Down));
    assert_eq!(app.current_index(), 3);
    for _ in 0..4 {
        app.on_key_event(press(Key::Up));
    }
    assert_eq!(app.current_index(), 0);
}

#[test]
fn move_up_at_top_does_nothing() {
    let mut app = App::new();
    app.move_up();
    assert_eq!(app.current_index(), 0);
    assert!(app.is_running());
}

#[test]
fn move_down_at_bottom_does_nothing() {
    let mut app = App::new();
    for _ in 0..3 {
        app.move_down();
    }
    assert_eq!(app.current_index(), 3);
    app.move_down();
    assert_eq!(app.current_index(), 3);
}

#[test]
fn long_move_sequence_keeps_cursor_on_an_item() {
    let mut app = App::new();
    let mut state: u32 = 12345;
    for _ in 0..200 {
        state = state.wrapping_mul(1103515245).wrapping_add(12345);
        if (state >> 16) % 2 == 0 {
            app.move_up();
        } else {
            app.move_down();
        }
        assert!(app.current_index() < app.len());
    }
    assert_eq!(all_statuses(&app), vec![RunStatus::Never; 4]);
}

#[test]
fn successful_update_records_success() {
    let mut app = App::new();
    assert_eq!(app.on_key_event(press(Key::Enter)), Effect::CheckForUpdates);
    app.check_for_updates(UpdateOutcome::Exited { success: true, stderr: b"ignored\n".to_vec() });
    assert_eq!(app.status(0), Some(&RunStatus::Success));
    assert_eq!(app.status(1), Some(&RunStatus::Never));
}

#[test]
fn failing_update_records_first_line_of_stderr() {
    let mut app = App::new();
    app.check_for_updates(UpdateOutcome::Exited {
        success: false,
        stderr: b"E: Unable to locate package\nmore text".to_vec(),
    });
    assert_eq!(app.status(0), Some(&failed("E: Unable to locate package")));
}

#[test]
fn failing_update_with_empty_stderr_records_unknown_error() {
    let mut app = App::new();
    app.check_for_updates(UpdateOutcome::Exited { success: false, stderr: Vec::new() });
    assert_eq!(app.status(0), Some(&failed("unknown error")));
}

#[test]
fn launch_error_records_its_description() {
    let mut app = App::new();
    let message = "No such file or directory (os error 2)";
    app.check_for_updates(UpdateOutcome::LaunchFailed(message.to_string()));
    assert_eq!(app.status(0), Some(&failed(message)));
}

#[test]
fn carriage_return_before_line_feed_is_dropped() {
    let status = outcome_to_status(UpdateOutcome::Exited {
        success: false,
        stderr: b"W: first\r\nsecond".to_vec(),
    });
    assert_eq!(status, failed("W: first"));
}

#[test]
fn invalid_utf8_is_replaced() {
    let status = outcome_to_status(UpdateOutcome::Exited {
        success: false,
        stderr: vec![b'f', 0xFF, b'\n', b'x'],
    });
    assert_eq!(status, failed("f\u{FFFD}"));
}

#[test]
fn first_line_cases() {
    assert_eq!(first_line(&Vec::new()), None);
    assert_eq!(first_line(&b"\nrest".to_vec()), Some(Vec::new()));
    assert_eq!(first_line(&b"only".to_vec()), Some(b"only".to_vec()));
    assert_eq!(first_line(&b"a\r".to_vec()), Some(b"a\r".to_vec()));
    assert_eq!(first_line(&b"\r\n".to_vec()), Some(Vec::new()));
    assert_eq!(first_line(&b"ab\ncd\nef".to_vec()), Some(b"ab".to_vec()));
}

#[test]
fn failure_status_falls_back_to_unknown_error() {
    assert_eq!(failure_status(None), failed("unknown error"));
    assert_eq!(failure_status(Some("x".to_string())), failed("x"));
}

#[test]
fn escape_quits_without_status_change() {
    let mut app = App::new();
    app.check_for_updates(UpdateOutcome::Exited { success: true, stderr: Vec::new() });
    app.move_down();
    assert_eq!(app.on_key_event(press(Key::Esc)), Effect::Nothing);
    assert!(!app.is_running());
    assert_eq!(app.current_index(), 1);
    assert_eq!(
        all_statuses(&app),
        vec![RunStatus::Success, RunStatus::Never, RunStatus::Never, RunStatus::Never]
    );
}

#[test]
fn q_quits() {
    let mut app = App::new();
    assert_eq!(app.on_key_event(press(Key::Char('q'))), Effect::Nothing);
    assert!(!app.is_running());
    assert_eq!(all_statuses(&app), vec![RunStatus::Never; 4]);
}

#[test]
fn control_c_quits_but_plain_c_does_not() {
    let mut app = App::new();
    app.on_key_event(press(Key::Char('c')));
    assert!(app.is_running());
    app.on_key_event(KeyPress { code: Key::Char('c'), control: true });
    assert!(!app.is_running());
    assert_eq!(all_statuses(&app), vec![RunStatus::Never; 4]);
}

#[test]
fn enter_on_quit_item_quits() {
    let mut app = App::new();
    for _ in 0..3 {
        app.on_key_event(press(Key::Down));
    }
    assert_eq!(app.on_key_event(press(Key::Enter)), Effect::Nothing);
    assert!(!app.is_running());
    assert_eq!(all_statuses(&app), vec![RunStatus::Never; 4]);
}

#[test]
fn placeholder_items_announce_without_status_change() {
    let mut app = App::new();
    app.move_down();
    assert_eq!(app.activate(), Effect::Announce("Retrieve Weather info...".to_string()));
    app.move_down();
    assert_eq!(app.activate(), Effect::Announce("Checking".to_string()));
    assert!(app.is_running());
    assert_eq!(all_statuses(&app), vec![RunStatus::Never; 4]);
}

#[test]
fn other_keys_do_nothing() {
    let mut app = App::new();
    app.move_down();
    assert_eq!(app.on_key_event(press(Key::Other)), Effect::Nothing);
    assert_eq!(app.on_key_event(press(Key::Char('x'))), Effect::Nothing);
    assert!(app.is_running());
    assert_eq!(app.current_index(), 1);
}

#[test]
fn set_status_checks_the_index() {
    let mut app = App::new();
    assert_eq!(app.set_status(2, RunStatus::Success), Ok(()));
    assert_eq!(app.status(2), Some(&RunStatus::Success));
    assert_eq!(app.set_status(4, failed("x")), Err(StatusError::OutOfRange));
    assert_eq!(
        all_statuses(&app),
        vec![RunStatus::Never, RunStatus::Never, RunStatus::Success, RunStatus::Never]
    );
}

#[test]
fn row_notes_follow_status_and_skip_quit_row() {
    let mut app = App::new();
    assert_eq!(app.row_note(0), Some(" (never run)".to_string()));
    app.check_for_updates(UpdateOutcome::Exited { success: true, stderr: Vec::new() });
    assert_eq!(app.row_note(0), Some(" (success)".to_string()));
    app.set_status(1, failed("no network")).unwrap();
    assert_eq!(app.row_note(1), Some(" (failed: no network)".to_string()));
    assert_eq!(app.row_note(3), None);
    assert_eq!(app.row_note(9), None);
    assert_eq!(RunStatus::Never.note(), " (never run)");
}
