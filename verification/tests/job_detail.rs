use hexa_client::{Action, Event, JobDetail, JobStatus, KeyCode, KeyEvent, KeyEventKind, ScreenArea};
use tokio::sync::mpsc;

fn key_event(code: KeyCode) -> KeyEvent {
    KeyEvent { code, kind: KeyEventKind::Press }
}

#[test]
fn backspace_opens_job_list() {
    let (_tx, rx) = mpsc::unbounded_channel();
    let mut detail = JobDetail::new("job-1".to_string(), rx);

    let action = detail.handle_key_events(key_event(KeyCode::Backspace));

    assert!(matches!(action, Some(Action::OpenJobList)));
}

#[test]
fn scroll_keys_update_offset() {
    let (_tx, rx) = mpsc::unbounded_channel();
    let mut detail = JobDetail::new("job-1".to_string(), rx);
    detail.logs = (0..10).map(|i| format!("line-{i}")).collect();
    detail.visible_log_lines = 3;
    detail.scroll_offset = 7;
    detail.auto_follow = true;

    detail.handle_key_events(key_event(KeyCode::Up));
    assert_eq!(detail.scroll_offset, 6);
    assert!(!detail.auto_follow);

    detail.handle_key_events(key_event(KeyCode::Char('j')));
    assert_eq!(detail.scroll_offset, 7);
    assert!(detail.auto_follow);
}

#[test]
fn prepare_render_collects_available_log_lines() {
    let (tx, rx) = mpsc::unbounded_channel();
    tx.send("[OUT] started".to_string()).expect("first log line should be queued");
    tx.send("[ERR] failed".to_string()).expect("second log line should be queued");

    let mut detail = JobDetail::new("job-1".to_string(), rx);
    let layout = detail.prepare_render(ScreenArea { x: 0, y: 0, width: 140, height: 12 });

    assert_eq!(detail.logs, vec!["[OUT] started".to_string(), "[ERR] failed".to_string()]);
    assert_eq!(layout.header, ScreenArea { x: 0, y: 0, width: 140, height: 3 });
    assert_eq!(layout.logs, ScreenArea { x: 0, y: 3, width: 140, height: 6 });
    assert_eq!(layout.controls, ScreenArea { x: 0, y: 9, width: 140, height: 3 });
    assert_eq!(detail.visible_log_lines, 4);
    assert_eq!(detail.scroll_offset, 0);
    assert!(detail.auto_follow);
    assert_eq!(detail.status(), JobStatus::Running);

    drop(tx);
    assert_eq!(detail.status(), JobStatus::Finished);
}

#[test]
fn following_view_jumps_to_newest_lines_on_redraw() {
    let (tx, rx) = mpsc::unbounded_channel();
    for i in 0..10 {
        tx.send(format!("line-{i}")).expect("log line should be queued");
    }
    let mut detail = JobDetail::new("job-7".to_string(), rx);
    detail.prepare_render(ScreenArea { x: 0, y: 0, width: 80, height: 12 });
    // 6 rows for the log window, 4 of them inside its border
    assert_eq!(detail.visible_log_lines, 4);
    assert_eq!(detail.scroll_offset, 6);
    assert_eq!(detail.scroll_row(), 6);

    // Scrolling up stops following; new lines then leave the view in place.
    detail.handle_key_events(key_event(KeyCode::Char('k')));
    assert_eq!(detail.scroll_offset, 5);
    assert!(!detail.auto_follow);
    tx.send("line-10".to_string()).expect("log line should be queued");
    detail.prepare_render(ScreenArea { x: 0, y: 0, width: 80, height: 12 });
    assert_eq!(detail.logs.len(), 11);
    assert_eq!(detail.scroll_offset, 5);

    // Scrolling back down to the bottom follows again.
    detail.handle_key_events(key_event(KeyCode::Down));
    detail.handle_key_events(key_event(KeyCode::Down));
    assert_eq!(detail.scroll_offset, 7);
    assert!(detail.auto_follow);
    detail.handle_key_events(key_event(KeyCode::Down));
    assert_eq!(detail.scroll_offset, 7);
}

#[test]
fn shrinking_window_cuts_scroll_offset_to_bottom() {
    let (_tx, rx) = mpsc::unbounded_channel();
    let mut detail = JobDetail::new("job-1".to_string(), rx);
    detail.logs = (0..10).map(|i| format!("line-{i}")).collect();
    detail.auto_follow = false;
    detail.visible_log_lines = 2;
    detail.scroll_offset = 8;
    detail.update_viewport(7);
    assert_eq!(detail.visible_log_lines, 5);
    assert_eq!(detail.scroll_offset, 5);
    detail.update_viewport(1);
    assert_eq!(detail.visible_log_lines, 0);
    assert_eq!(detail.scroll_offset, 5);
    detail.update_viewport(30);
    assert_eq!(detail.scroll_offset, 0);
}

#[test]
fn scroll_up_at_top_stays_at_top() {
    let (_tx, rx) = mpsc::unbounded_channel();
    let mut detail = JobDetail::new("job-1".to_string(), rx);
    let action = detail.handle_key_events(key_event(KeyCode::Up));
    assert!(action.is_none());
    assert_eq!(detail.scroll_offset, 0);
    assert!(!detail.auto_follow);
}

#[test]
fn detail_quit_keys_and_ignored_events() {
    let (_tx, rx) = mpsc::unbounded_channel();
    let mut detail = JobDetail::new("job-1".to_string(), rx);
    assert!(matches!(detail.handle_key_events(key_event(KeyCode::Char('q'))), Some(Action::Quit)));
    assert!(matches!(detail.handle_key_events(key_event(KeyCode::Esc)), Some(Action::Quit)));
    assert!(detail.handle_key_events(key_event(KeyCode::Enter)).is_none());
    assert!(detail.handle_key_events(key_event(KeyCode::Other)).is_none());

    detail.logs = (0..10).map(|i| format!("line-{i}")).collect();
    detail.visible_log_lines = 3;
    detail.scroll_offset = 4;
    let released = KeyEvent { code: KeyCode::Up, kind: KeyEventKind::Release };
    assert!(detail.handle_key_events(released).is_none());
    let repeated = KeyEvent { code: KeyCode::Backspace, kind: KeyEventKind::Repeat };
    assert!(detail.handle_events(Some(Event::Key(repeated))).is_none());
    assert!(detail.handle_events(Some(Event::Other)).is_none());
    assert!(detail.handle_events(None).is_none());
    assert_eq!(detail.scroll_offset, 4);
    assert!(detail.auto_follow);
    assert!(matches!(
        detail.handle_events(Some(Event::Key(key_event(KeyCode::Backspace)))),
        Some(Action::OpenJobList)
    ));
}

#[test]
fn append_log_takes_a_line_or_reports_nothing_waiting() {
    let (_tx, rx) = mpsc::unbounded_channel();
    let mut detail = JobDetail::new("job-1".to_string(), rx);
    assert!(detail.append_log(Some("[OUT] one".to_string())));
    assert!(!detail.append_log(None));
    assert!(detail.append_log(Some("[OUT] two".to_string())));
    assert_eq!(detail.logs, vec!["[OUT] one".to_string(), "[OUT] two".to_string()]);
}

#[test]
fn status_follows_stream_state() {
    assert_eq!(JobStatus::from_stream_closed(true), JobStatus::Finished);
    assert_eq!(JobStatus::from_stream_closed(false), JobStatus::Running);
}
