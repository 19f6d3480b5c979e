use vstd::prelude::*;

use crate::action::{Action, Job};
use crate::input::Event;
use crate::job_detail::{detail_key_step, scroll_overflows, JobDetail, JobLogReceiver};
use crate::job_list::{list_key_step, JobList};
use crate::jobs::{jobs_from_entries, JobFileEntry};

verus! {

/// Where the commander listens and where the job definitions lie.
#[derive(Clone, Debug)]
pub struct Config {
    pub commander_addr: String,
    pub job_dir: String,
}

/// The screen on show.
pub enum Screen {
    JobList(JobList),
    JobDetail(JobDetail),
}

impl Screen {
    /// The screen can take `event`: the log view cannot scroll down from
    /// the largest offset there is.
    pub open spec fn accepts(&self, event: Option<Event>) -> bool {
        match (self, event) {
            (Screen::JobDetail(detail), Some(Event::Key(key))) => !scroll_overflows(
                detail.scroll_offset,
                key,
            ),
            _ => true,
        }
    }

    /// Whether the screen can take `event`.
    pub fn accepts_event(&self, event: Option<Event>) -> (r: bool)
        ensures
            r == self.accepts(event),
    {
        match (self, event) {
            (Screen::JobDetail(detail), Some(Event::Key(key))) => {
                let scrolls_down = match key.code {
                    crate::input::KeyCode::Char('j') | crate::input::KeyCode::Down => true,
                    _ => false,
                };
                !(key.is_press() && scrolls_down && detail.scroll_offset == usize::MAX)
            },
            _ => true,
        }
    }

    /// Hands an input event to the screen on show.
    pub fn handle_events(&mut self, event: Option<Event>) -> (r: Option<Action>)
        requires
            old(self).accepts(event),
        ensures
            r == screen_action(*old(self), event),
            screen_transition(*old(self), event, *final(self)),
    {
        match self {
            Screen::JobList(list) => list.handle_events(event),
            Screen::JobDetail(detail) => detail.handle_events(event),
        }
    }
}

/// The action that the screen asks for on `event`.
pub open spec fn screen_action(screen: Screen, event: Option<Event>) -> Option<Action> {
    match event {
        Some(Event::Key(key)) => match screen {
            Screen::JobList(list) => list_key_step(list.selected, list.jobs@, key).1,
            Screen::JobDetail(detail) => detail_key_step(
                detail.scroll_offset as int,
                detail.auto_follow,
                detail.max_scroll(),
                key,
            ).2,
        },
        _ => None,
    }
}

/// How the screen changes on `event`: the list moves its highlight and the
/// log view its scroll position and follow flag; nothing else changes,
/// and events that are not keys change nothing.
pub open spec fn screen_transition(before: Screen, event: Option<Event>, after: Screen) -> bool {
    match (before, after) {
        (Screen::JobList(b), Screen::JobList(a)) => {
            &&& a.jobs == b.jobs
            &&& a.offset == b.offset
            &&& a.selected == match event {
                Some(Event::Key(key)) => list_key_step(b.selected, b.jobs@, key).0,
                _ => b.selected,
            }
        },
        (Screen::JobDetail(b), Screen::JobDetail(a)) => {
            &&& a.job_id == b.job_id
            &&& a.logs == b.logs
            &&& a.log_rx == b.log_rx
            &&& a.visible_log_lines == b.visible_log_lines
            &&& match event {
                Some(Event::Key(key)) => {
                    let step = detail_key_step(
                        b.scroll_offset as int,
                        b.auto_follow,
                        b.max_scroll(),
                        key,
                    );
                    a.scroll_offset == step.0 && a.auto_follow == step.1
                },
                _ => a.scroll_offset == b.scroll_offset && a.auto_follow == b.auto_follow,
            }
        },
        _ => false,
    }
}

/// The command that carrying out `action` gives.
pub open spec fn action_command(action: Option<Action>, config: Config) -> Command {
    match action {
        Some(Action::SelectJob(job)) => Command::SubmitJob { payload: job.raw },
        Some(Action::OpenJobList) => Command::LoadJobs { job_dir: config.job_dir },
        _ => Command::Idle,
    }
}

/// What the application has to do outside itself after an input event.
#[derive(Clone, Debug)]
pub enum Command {
    /// Nothing.
    Idle,
    /// Submit this job definition to the commander, then follow the job it
    /// starts (`App::show_job_detail`).
    SubmitJob { payload: String },
    /// Read the job definitions in this directory, then show them
    /// (`App::show_job_list`).
    LoadJobs { job_dir: String },
}

/// The application's state: whether it is done, its settings and the
/// screen on show.
pub struct App {
    pub should_quit: bool,
    pub config: Config,
    pub screen: Screen,
}

impl App {
    /// Starts on the list of `jobs`, read from `config.job_dir`.
    pub fn new(config: Config, jobs: Vec<Job>) -> (r: App)
        ensures
            !r.should_quit,
            r.config == config,
            r.screen matches Screen::JobList(list) && list.jobs@ == jobs@ && list.selected == Some(
                0usize,
            ) && list.offset == 0,
    {
        App { should_quit: false, config, screen: Screen::JobList(JobList::new(jobs)) }
    }

    /// The job definitions among the entries of the job directory: one per
    /// regular file whose name and contents are valid text, in order.
    pub fn get_jobs(entries: &Vec<JobFileEntry>) -> (r: Vec<Job>)
        ensures
            r@ == jobs_from_entries(entries@),
    {
        let mut jobs: Vec<Job> = Vec::new();
        let mut i: usize = 0;
        while i < entries.len()
            invariant
                i <= entries@.len(),
                jobs@ == jobs_from_entries(entries@.subrange(0, i as int)),
            decreases entries@.len() - i,
        {
            let entry = &entries[i];
            assert(entries@.subrange(0, i + 1).drop_last() =~= entries@.subrange(0, i as int));
            if entry.is_file {
                match (&entry.name, &entry.contents) {
                    (Some(name), Some(contents)) => {
                        jobs.push(Job { name: name.clone(), raw: contents.clone() });
                    },
                    _ => {},
                }
            }
            i = i + 1;
        }
        assert(entries@.subrange(0, entries@.len() as int) =~= entries@);
        jobs
    }

    /// Carries out what a screen asked for: `Quit` marks the application
    /// as done; choosing a job asks for its definition to be submitted;
    /// going back asks for the job directory to be read again.
    pub fn apply_action(&mut self, action: Action) -> (r: Command)
        ensures
            final(self).config == old(self).config,
            final(self).screen == old(self).screen,
            match action {
                Action::Quit => final(self).should_quit && r == Command::Idle,
                Action::SelectJob(job) => final(self).should_quit == old(self).should_quit && r
                    == (Command::SubmitJob { payload: job.raw }),
                Action::OpenJobList => final(self).should_quit == old(self).should_quit && r == (
                Command::LoadJobs { job_dir: old(self).config.job_dir }),
            },
    {
        match action {
            Action::Quit => {
                self.should_quit = true;
                Command::Idle
            },
            Action::SelectJob(job) => Command::SubmitJob { payload: job.raw },
            Action::OpenJobList => Command::LoadJobs { job_dir: self.config.job_dir.clone() },
        }
    }

    /// Hands an input event to the screen on show and carries out the
    /// action it asks for, if any.
    pub fn handle_events(&mut self, event: Option<Event>) -> (r: Command)
        requires
            old(self).screen.accepts(event),
        ensures
            r == action_command(screen_action(old(self).screen, event), old(self).config),
            final(self).should_quit == (old(self).should_quit || screen_action(
                old(self).screen,
                event,
            ) == Some(Action::Quit)),
            screen_transition(old(self).screen, event, final(self).screen),
            final(self).config == old(self).config,
    {
        match self.screen.handle_events(event) {
            Some(action) => self.apply_action(action),
            None => Command::Idle,
        }
    }

    /// Shows the live view of job `job_id`, whose log lines arrive on
    /// `log_rx`.
    pub fn show_job_detail(&mut self, job_id: String, log_rx: JobLogReceiver)
        ensures
            final(self).should_quit == old(self).should_quit,
            final(self).config == old(self).config,
            final(self).screen matches Screen::JobDetail(detail) && detail.job_id == job_id
                && detail.log_rx == log_rx && detail.logs@.len() == 0 && detail.scroll_offset == 0
                && detail.auto_follow && detail.visible_log_lines == 0,
    {
        self.screen = Screen::JobDetail(JobDetail::new(job_id, log_rx));
    }

    /// Shows the list of `jobs` with the first one highlighted.
    pub fn show_job_list(&mut self, jobs: Vec<Job>)
        ensures
            final(self).should_quit == old(self).should_quit,
            final(self).config == old(self).config,
            final(self).screen matches Screen::JobList(list) && list.jobs@ == jobs@
                && list.selected == Some(0usize) && list.offset == 0,
    {
        self.screen = Screen::JobList(JobList::new(jobs));
    }
}

} // verus!
