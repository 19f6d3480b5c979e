//! Properties of the screens and the application that hold over several
//! steps or for every input.
use vstd::prelude::*;

use crate::action::{Action, Job};
use crate::app::{action_command, screen_action, App, Command};
use crate::input::{Event, KeyCode, KeyEvent, KeyEventKind};
use crate::job_detail::{detail_key_step, viewport_offset};
use crate::job_list::{list_key_step, next_selection, previous_selection};
use crate::jobs::{entry_job, jobs_from_entries, JobFileEntry};

verus! {

/// In the log view, scrolling up one line and then down one line comes
/// back to the same line, whenever the view was not at the top and not
/// past the bottom; and it follows new lines again exactly when that line
/// is the bottom.
pub proof fn lemma_scroll_up_then_down_restores(offset: int, follow: bool, max: int, up: KeyCode, down: KeyCode)
    requires
        0 < offset <= max,
        up == KeyCode::Up || up == KeyCode::Char('k'),
        down == KeyCode::Down || down == KeyCode::Char('j'),
    ensures
        ({
            let after_up = detail_key_step(offset, follow, max, KeyEvent { code: up, kind: KeyEventKind::Press });
            let after_down = detail_key_step(after_up.0, after_up.1, max, KeyEvent { code: down, kind: KeyEventKind::Press });
            &&& after_up.0 == offset - 1
            &&& !after_up.1
            &&& after_down.0 == offset
            &&& after_down.1 == (offset == max)
        }),
{
}

/// In the log view, scrolling up (`k` or the up arrow) moves at most one
/// line towards the top and never above it: from any line but the top it
/// goes exactly one line up, from the top it stays there. Either way the
/// view stops following new lines and asks for nothing.
pub proof fn lemma_scroll_up_moves_one_line_towards_top(offset: int, follow: bool, max: int, up: KeyCode)
    requires
        0 <= offset,
        0 <= max,
        up == KeyCode::Up || up == KeyCode::Char('k'),
    ensures
        ({
            let step = detail_key_step(offset, follow, max, KeyEvent { code: up, kind: KeyEventKind::Press });
            &&& 0 <= step.0 <= offset
            &&& offset - 1 <= step.0
            &&& offset > 0 ==> step.0 < offset
            &&& offset == 0 ==> step.0 == 0
            &&& !step.1
            &&& step.2 is None
        }),
{
}

/// In the log view, scrolling down never passes the bottom, and the view
/// follows new lines afterwards exactly when it is at the bottom.
pub proof fn lemma_scroll_down_follows_at_bottom(offset: int, follow: bool, max: int, down: KeyCode)
    requires
        0 <= offset <= max,
        down == KeyCode::Down || down == KeyCode::Char('j'),
    ensures
        ({
            let step = detail_key_step(offset, follow, max, KeyEvent { code: down, kind: KeyEventKind::Press });
            &&& offset <= step.0 <= max
            &&& step.1 == (step.0 == max)
        }),
{
}

/// A log view that follows new lines shows the newest lines whenever it is
/// drawn; one that does not keeps its place unless the lines no longer
/// reach that far.
pub proof fn lemma_follow_shows_newest(offset: int, max: int)
    requires
        0 <= offset,
        0 <= max,
    ensures
        viewport_offset(offset, true, max) == max,
        offset <= max ==> viewport_offset(offset, false, max) == offset,
        viewport_offset(offset, false, max) <= max,
{
}

/// Key events that are not presses change neither screen and ask for
/// nothing.
pub proof fn lemma_non_press_keys_are_ignored(
    selected: Option<usize>,
    jobs: Seq<Job>,
    offset: int,
    follow: bool,
    max: int,
    key: KeyEvent,
)
    requires
        key.kind != KeyEventKind::Press,
    ensures
        list_key_step(selected, jobs, key) == (selected, None::<Action>),
        detail_key_step(offset, follow, max, key) == (offset, follow, None::<Action>),
{
}

/// On the job list, moving down and then up comes back to the same entry,
/// and so does moving up and then down from any entry but the first.
pub proof fn lemma_selection_moves_undo(i: usize)
    ensures
        i < usize::MAX ==> previous_selection(next_selection(Some(i))) == Some(i),
        i > 0 ==> next_selection(previous_selection(Some(i))) == Some(i),
{
}

/// `q` and `Esc` end the application from either screen.
pub proof fn lemma_quit_keys_quit(app: App, code: KeyCode)
    requires
        code == KeyCode::Char('q') || code == KeyCode::Esc,
    ensures
        screen_action(app.screen, Some(Event::Key(KeyEvent { code, kind: KeyEventKind::Press })))
            == Some(Action::Quit),
        action_command(
            screen_action(app.screen, Some(Event::Key(KeyEvent { code, kind: KeyEventKind::Press }))),
            app.config,
        ) == Command::Idle,
{
}

/// Pressing `Enter` on the job list submits exactly the text of the
/// highlighted job, when the highlight is on a job; otherwise it does
/// nothing.
pub proof fn lemma_enter_submits_highlighted_job(app: App)
    requires
        (app.screen is JobList),
    ensures
        ({
            let list = app.screen->JobList_0;
            let command = action_command(
                screen_action(
                    app.screen,
                    Some(Event::Key(KeyEvent { code: KeyCode::Enter, kind: KeyEventKind::Press })),
                ),
                app.config,
            );
            match list.selected {
                Some(i) => if i < list.jobs@.len() {
                    command == Command::SubmitJob { payload: list.jobs@[i as int].raw }
                } else {
                    command == Command::Idle
                },
                None => command == Command::Idle,
            }
        }),
{
}

/// `Backspace` on the log view goes back to the job list, read again from
/// the configured job directory.
pub proof fn lemma_backspace_reloads_job_list(app: App)
    requires
        (app.screen is JobDetail),
    ensures
        action_command(
            screen_action(
                app.screen,
                Some(Event::Key(KeyEvent { code: KeyCode::Backspace, kind: KeyEventKind::Press })),
            ),
            app.config,
        ) == (Command::LoadJobs { job_dir: app.config.job_dir }),
{
}

/// One job is read for every entry that gives one: the number of jobs is
/// the number of regular-file entries with a readable name and contents.
pub proof fn lemma_one_job_per_readable_file(entries: Seq<JobFileEntry>)
    ensures
        jobs_from_entries(entries).len() == entries.filter(
            |e: JobFileEntry| entry_job(e) is Some,
        ).len(),
    decreases entries.len(),
{
    reveal_with_fuel(Seq::filter, 1);
    if entries.len() > 0 {
        lemma_one_job_per_readable_file(entries.drop_last());
    }
}

/// No readable job file is left out: the job that any entry gives is among
/// the jobs read.
pub proof fn lemma_every_readable_file_is_read(entries: Seq<JobFileEntry>, i: int)
    requires
        0 <= i < entries.len(),
        entry_job(entries[i]) is Some,
    ensures
        jobs_from_entries(entries).contains(entry_job(entries[i])->0),
    decreases entries.len(),
{
    let jobs = jobs_from_entries(entries);
    let earlier = entries.drop_last();
    if i < entries.len() - 1 {
        lemma_every_readable_file_is_read(earlier, i);
        assert(earlier[i] == entries[i]);
        let k = choose|k: int| 0 <= k < jobs_from_entries(earlier).len()
            && jobs_from_entries(earlier)[k] == entry_job(entries[i])->0;
        assert(jobs[k] == jobs_from_entries(earlier)[k]);
    } else {
        assert(entries[i] == entries.last());
        assert(jobs[jobs.len() - 1] == entry_job(entries[i])->0);
    }
}

/// The jobs read keep the order of the directory entries they come from:
/// they are the entries' jobs, with the entries that give none left out.
pub proof fn lemma_jobs_keep_entry_order(entries: Seq<JobFileEntry>)
    ensures
        jobs_from_entries(entries) == entries.filter_map(|e: JobFileEntry| entry_job(e)),
    decreases entries.len(),
{
    if entries.len() > 0 {
        lemma_jobs_keep_entry_order(entries.drop_last());
        let earlier = jobs_from_entries(entries.drop_last());
        match entry_job(entries.last()) {
            Some(job) => assert(earlier.push(job) =~= earlier + seq![job]),
            None => {},
        }
    }
}

/// `job` is what a regular file among `entries` gives.
pub open spec fn has_source(entries: Seq<JobFileEntry>, job: Job) -> bool {
    exists|i: int| 0 <= i < entries.len() && entries[i].is_file && #[trigger] entry_job(entries[i]) == Some(job)
}

/// Every job read from the job directory comes from a regular file entry
/// with that name and text, and there are never more jobs than entries.
pub proof fn lemma_jobs_come_from_regular_files(entries: Seq<JobFileEntry>)
    ensures
        jobs_from_entries(entries).len() <= entries.len(),
        forall|k: int|
            0 <= k < jobs_from_entries(entries).len() ==> has_source(
                entries,
                #[trigger] jobs_from_entries(entries)[k],
            ),
    decreases entries.len(),
{
    if entries.len() > 0 {
        let earlier = entries.drop_last();
        lemma_jobs_come_from_regular_files(earlier);
        let before = jobs_from_entries(earlier);
        let jobs = jobs_from_entries(entries);
        assert forall|k: int| 0 <= k < jobs.len() implies has_source(entries, #[trigger] jobs[k]) by {
            if k < before.len() {
                assert(jobs[k] == before[k]);
                assert(has_source(earlier, before[k]));
                let i = choose|i: int|
                    0 <= i < earlier.len() && earlier[i].is_file && #[trigger] entry_job(earlier[i])
                        == Some(before[k]);
                assert(entries[i] == earlier[i]);
                assert(entry_job(entries[i]) == Some(jobs[k]));
            } else {
                let last = entries.len() - 1;
                assert(entries[last] == entries.last());
                assert(entry_job(entries[last]) == Some(jobs[k]));
            }
        }
    }
}

} // verus!
