use vstd::prelude::*;
use ratatui::widgets::ListState;

use crate::action::{Action, Job};
use crate::input::{is_down_key, is_quit_key, is_up_key, Event, KeyCode, KeyEvent, KeyEventKind};
use crate::layout::{layout_split, solve_layout, ScreenArea, SizeConstraint};

verus! {

/// The selection after moving down: the first item when nothing is
/// selected, else the next index (staying at `usize::MAX`).
pub open spec fn next_selection(selected: Option<usize>) -> Option<usize> {
    match selected {
        None => Some(0),
        Some(i) => Some(if i < usize::MAX { (i + 1) as usize } else { usize::MAX }),
    }
}

/// The selection after moving up: `usize::MAX` (the last item once the
/// list is drawn) when nothing is selected, else the previous index
/// (staying at 0).
pub open spec fn previous_selection(selected: Option<usize>) -> Option<usize> {
    match selected {
        None => Some(usize::MAX),
        Some(i) => Some(if i > 0 { (i - 1) as usize } else { 0 }),
    }
}

/// Moves a list selection down.
///
/// Calls ratatui's `ListState::select_next` on a state that holds
/// `selected`, and claims what its source shows:
/// `selected.map_or(0, |i| i.saturating_add(1))`.
#[verifier::external_body]
fn list_select_next(selected: Option<usize>) -> (r: Option<usize>)
    ensures
        r == next_selection(selected),
{
    let mut state = ListState::default().with_selected(selected);
    state.select_next();
    state.selected()
}

/// Moves a list selection up.
///
/// Calls ratatui's `ListState::select_previous` on a state that holds
/// `selected`, and claims what its source shows:
/// `selected.map_or(usize::MAX, |i| i.saturating_sub(1))`.
#[verifier::external_body]
fn list_select_previous(selected: Option<usize>) -> (r: Option<usize>)
    ensures
        r == previous_selection(selected),
{
    let mut state = ListState::default().with_selected(selected);
    state.select_previous();
    state.selected()
}

/// The outcome of a key event on the job list: the new selection and the
/// action asked for.
pub open spec fn list_key_step(selected: Option<usize>, jobs: Seq<Job>, key: KeyEvent) -> (
    Option<usize>,
    Option<Action>,
) {
    if key.kind != KeyEventKind::Press {
        (selected, None)
    } else if is_down_key(key.code) {
        (next_selection(selected), None)
    } else if is_up_key(key.code) {
        (previous_selection(selected), None)
    } else if is_quit_key(key.code) {
        (selected, Some(Action::Quit))
    } else if key.code == KeyCode::Enter {
        (selected, selected_job_action(selected, jobs))
    } else {
        (selected, None)
    }
}

/// Choosing the highlighted entry: the job at the selected index, if
/// there is one there.
pub open spec fn selected_job_action(selected: Option<usize>, jobs: Seq<Job>) -> Option<Action> {
    match selected {
        Some(i) => if i < jobs.len() {
            Some(Action::SelectJob(jobs[i as int]))
        } else {
            None
        },
        None => None,
    }
}

/// The list of job definitions with one of them highlighted.
///
/// `selected` and `offset` are the list's selection and first visible
/// row; drawing the list may correct both to fit the items and the window.
pub struct JobList {
    pub jobs: Vec<Job>,
    pub selected: Option<usize>,
    pub offset: usize,
}

/// The list on the left half, the highlighted job's text on the right.
pub open spec fn list_constraints() -> Seq<SizeConstraint> {
    seq![SizeConstraint::Percentage(50), SizeConstraint::Percentage(50)]
}

impl JobList {
    /// A list of `jobs` with the first entry highlighted.
    pub fn new(jobs: Vec<Job>) -> (r: JobList)
        ensures
            r.jobs@ == jobs@,
            r.selected == Some(0usize),
            r.offset == 0,
    {
        JobList { jobs, selected: Some(0), offset: 0 }
    }

    /// Reacts to a key: `j`/down and `k`/up move the highlight, `q`/`Esc`
    /// quit, `Enter` chooses the highlighted job if the highlight is on
    /// one. Keys that are not presses change nothing.
    pub fn handle_key_events(&mut self, key: KeyEvent) -> (r: Option<Action>)
        ensures
            ({
                let step = list_key_step(old(self).selected, old(self).jobs@, key);
                &&& final(self).selected == step.0
                &&& r == step.1
            }),
            final(self).jobs == old(self).jobs,
            final(self).offset == old(self).offset,
    {
        if !key.is_press() {
            return None;
        }
        match key.code {
            KeyCode::Char('j') | KeyCode::Down => {
                self.selected = list_select_next(self.selected);
                None
            },
            KeyCode::Char('k') | KeyCode::Up => {
                self.selected = list_select_previous(self.selected);
                None
            },
            KeyCode::Char('q') | KeyCode::Esc => Some(Action::Quit),
            KeyCode::Enter => {
                if let Some(index) = self.selected {
                    if index < self.jobs.len() {
                        return Some(Action::SelectJob(self.jobs[index].duplicate()));
                    }
                }
                None
            },
            _ => None,
        }
    }

    /// Reacts to an input event: key events go to `handle_key_events`,
    /// every other event is ignored.
    pub fn handle_events(&mut self, event: Option<Event>) -> (r: Option<Action>)
        ensures
            match event {
                Some(Event::Key(key)) => {
                    let step = list_key_step(old(self).selected, old(self).jobs@, key);
                    &&& final(self).selected == step.0
                    &&& r == step.1
                },
                _ => r is None && final(self).selected == old(self).selected,
            },
            final(self).jobs == old(self).jobs,
            final(self).offset == old(self).offset,
    {
        match event {
            Some(Event::Key(key)) => self.handle_key_events(key),
            _ => None,
        }
    }

    /// Splits `area` into the list (left half) and the highlighted job's
    /// text (right half).
    pub fn areas(&self, area: ScreenArea) -> (r: (ScreenArea, ScreenArea))
        ensures
            r.0 == layout_split(false, area, list_constraints())[0],
            r.1 == layout_split(false, area, list_constraints())[1],
    {
        let constraints = vec![SizeConstraint::Percentage(50), SizeConstraint::Percentage(50)];
        assert(constraints@ == list_constraints());
        let parts = solve_layout(false, area, &constraints);
        (parts[0], parts[1])
    }
}

} // verus!
