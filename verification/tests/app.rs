use hexa_client::app::{App, Command, Config, Screen};
use hexa_client::jobs::JobFileEntry;
use hexa_client::{Action, Event, Job, KeyCode, KeyEvent, KeyEventKind};
use tokio::sync::mpsc;

fn test_config(job_dir: String) -> Config {
    Config { commander_addr: "http://localhost:50051".to_string(), job_dir }
}

fn key_event(code: KeyCode) -> KeyEvent {
    KeyEvent { code, kind: KeyEventKind::Press }
}

fn file(name: &str, contents: &str) -> JobFileEntry {
    JobFileEntry { is_file: true, name: Some(name.to_string()), contents: Some(contents.to_string()) }
}

#[test]
fn get_jobs_returns_only_regular_files() {
    let entries = vec![
        file("job-a.yaml", "name: a"),
        JobFileEntry { is_file: false, name: Some("nested".to_string()), contents: None },
    ];

    let jobs = App::get_jobs(&entries);

    assert_eq!(jobs.len(), 1);
    assert_eq!(jobs[0].name, "job-a.yaml");
    assert_eq!(jobs[0].raw, "name: a");
}

#[test]
fn get_jobs_skips_unreadable_entries_and_keeps_order() {
    let entries = vec![
        file("one.yaml", "1"),
        JobFileEntry { is_file: true, name: None, contents: Some("no name".to_string()) },
        JobFileEntry { is_file: true, name: Some("binary.yaml".to_string()), contents: None },
        JobFileEntry { is_file: false, name: Some("dir".to_string()), contents: Some("x".to_string()) },
        file("two.yaml", "2"),
    ];
    let jobs = App::get_jobs(&entries);
    let names: Vec<&str> = jobs.iter().map(|j| j.name.as_str()).collect();
    assert_eq!(names, vec!["one.yaml", "two.yaml"]);
    assert_eq!(jobs[1].raw, "2");
    assert!(App::get_jobs(&Vec::new()).is_empty());
}

#[test]
fn apply_action_quit_marks_app_for_exit() {
    let mut app = App::new(test_config("missing".to_string()), Vec::new());

    let command = app.apply_action(Action::Quit);

    assert!(matches!(command, Command::Idle));
    assert!(app.should_quit);
}

#[test]
fn apply_action_select_job_submits_and_switches_to_detail_screen() {
    let mut app = App::new(test_config("missing".to_string()), Vec::new());

    let command = app.apply_action(Action::SelectJob(Job {
        name: "job.yaml".to_string(),
        raw: "kind: job".to_string(),
    }));

    match command {
        Command::SubmitJob { payload } => assert_eq!(payload, "kind: job"),
        _ => panic!("expected the job to be submitted"),
    }
    assert!(!app.should_quit);

    let (_tx, rx) = mpsc::unbounded_channel();
    app.show_job_detail("job-123".to_string(), rx);
    match &app.screen {
        Screen::JobDetail(detail) => assert_eq!(detail.job_id, "job-123"),
        Screen::JobList(_) => panic!("expected the detail screen"),
    }

    let action = app.screen.handle_events(Some(Event::Key(key_event(KeyCode::Backspace))));
    assert!(matches!(action, Some(Action::OpenJobList)));
}

#[test]
fn apply_action_open_job_list_reloads_jobs() {
    let mut app = App::new(test_config("jobs-dir".to_string()), Vec::new());
    let (_tx, rx) = mpsc::unbounded_channel();
    app.show_job_detail("job-1".to_string(), rx);

    let command = app.apply_action(Action::OpenJobList);
    let job_dir = match command {
        Command::LoadJobs { job_dir } => job_dir,
        _ => panic!("expected the job directory to be read"),
    };
    assert_eq!(job_dir, "jobs-dir");

    app.show_job_list(App::get_jobs(&vec![file("job-b.yaml", "kind: batch")]));

    let action = app.screen.handle_events(Some(Event::Key(key_event(KeyCode::Enter))));
    match action {
        Some(Action::SelectJob(job)) => {
            assert_eq!(job.name, "job-b.yaml");
            assert_eq!(job.raw, "kind: batch");
        }
        _ => panic!("expected selected job action from reloaded job list"),
    }
}

#[test]
fn handle_events_runs_screen_then_action() {
    let jobs = vec![
        Job { name: "a.yaml".to_string(), raw: "kind: a".to_string() },
        Job { name: "b.yaml".to_string(), raw: "kind: b".to_string() },
    ];
    let mut app = App::new(test_config("dir".to_string()), jobs);
    assert!(matches!(app.handle_events(None), Command::Idle));
    assert!(matches!(app.handle_events(Some(Event::Key(key_event(KeyCode::Down)))), Command::Idle));
    match app.handle_events(Some(Event::Key(key_event(KeyCode::Enter)))) {
        Command::SubmitJob { payload } => assert_eq!(payload, "kind: b"),
        _ => panic!("expected the highlighted job to be submitted"),
    }
    assert!(!app.should_quit);

    let (_tx, rx) = mpsc::unbounded_channel();
    app.show_job_detail("job-9".to_string(), rx);
    match app.handle_events(Some(Event::Key(key_event(KeyCode::Backspace)))) {
        Command::LoadJobs { job_dir } => assert_eq!(job_dir, "dir"),
        _ => panic!("expected the job directory to be read"),
    }
    assert!(matches!(app.handle_events(Some(Event::Key(key_event(KeyCode::Esc)))), Command::Idle));
    assert!(app.should_quit);
}

#[test]
fn detail_screen_refuses_scrolling_past_the_largest_offset() {
    let mut app = App::new(test_config("dir".to_string()), Vec::new());
    let down = Some(Event::Key(key_event(KeyCode::Down)));
    assert!(app.screen.accepts_event(down));
    let (_tx, rx) = mpsc::unbounded_channel();
    app.show_job_detail("job-1".to_string(), rx);
    assert!(app.screen.accepts_event(down));
    if let Screen::JobDetail(detail) = &mut app.screen {
        detail.scroll_offset = usize::MAX;
    }
    assert!(!app.screen.accepts_event(down));
    assert!(app.screen.accepts_event(Some(Event::Key(key_event(KeyCode::Up)))));
    assert!(app.screen.accepts_event(Some(Event::Other)));
}
