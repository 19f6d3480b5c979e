use vstd::prelude::*;
use tokio::sync::mpsc::UnboundedReceiver;

use crate::action::Action;
use crate::layout::{layout_split, solve_layout, ScreenArea, SizeConstraint};
use crate::input::{is_down_key, is_quit_key, is_up_key, Event, KeyCode, KeyEvent, KeyEventKind};

verus! {

#[verifier::external_type_specification]
#[verifier::external_body]
#[verifier::reject_recursive_types(T)]
pub struct ExUnboundedReceiver<T>(UnboundedReceiver<T>);

/// The receiving end of a job's log stream: one line of text per message.
pub type JobLogReceiver = UnboundedReceiver<String>;

/// Takes the next log line that is already waiting, without waiting for one.
///
/// Calls tokio's `UnboundedReceiver::try_recv`. What comes back depends on
/// what the sending task has sent so far, so nothing is stated of it.
#[verifier::external_body]
fn try_receive_line(rx: &mut JobLogReceiver) -> (r: Option<String>) {
    rx.try_recv().ok()
}

/// Whether every sender of the log stream is gone.
///
/// Calls tokio's `UnboundedReceiver::is_closed`; the answer depends on the
/// sending task, so nothing is stated of it.
#[verifier::external_body]
fn log_stream_closed(rx: &JobLogReceiver) -> (r: bool) {
    rx.is_closed()
}

/// Whether the job is still streaming logs.
#[derive(Clone, Copy, Debug, PartialEq, Eq)]
pub enum JobStatus {
    Running,
    Finished,
}

impl JobStatus {
    /// The status of a job whose log stream is closed (`Finished`) or
    /// still open (`Running`).
    pub fn from_stream_closed(closed: bool) -> (r: JobStatus)
        ensures
            r == (if closed {
                JobStatus::Finished
            } else {
                JobStatus::Running
            }),
    {
        if closed {
            JobStatus::Finished
        } else {
            JobStatus::Running
        }
    }
}

/// The live view of one submitted job: its id, the log lines received so
/// far and the position of the log window.
pub struct JobDetail {
    pub job_id: String,
    pub logs: Vec<String>,
    pub log_rx: JobLogReceiver,
    /// Index of the first log line shown.
    pub scroll_offset: usize,
    /// Whether the window sticks to the newest lines.
    pub auto_follow: bool,
    /// How many log lines the window showed when it was last drawn.
    pub visible_log_lines: usize,
}

/// The largest scroll offset that still fills the window: `len - visible`,
/// or 0 when every line fits.
pub open spec fn max_scroll_offset(len: int, visible: int) -> int {
    if len > visible { len - visible } else { 0 }
}

/// The outcome of a key event on the log view:
/// the new scroll offset, the new follow flag and the action asked for.
pub open spec fn detail_key_step(offset: int, follow: bool, max: int, key: KeyEvent) -> (
    int,
    bool,
    Option<Action>,
) {
    if key.kind != KeyEventKind::Press {
        (offset, follow, None)
    } else if is_quit_key(key.code) {
        (offset, follow, Some(Action::Quit))
    } else if key.code == KeyCode::Backspace {
        (offset, follow, Some(Action::OpenJobList))
    } else if is_up_key(key.code) {
        (if offset > 0 { offset - 1 } else { 0 }, false, None)
    } else if is_down_key(key.code) {
        let next = if offset + 1 < max { offset + 1 } else { max };
        (next, next == max, None)
    } else {
        (offset, follow, None)
    }
}

/// Scrolling down from `offset` would step past the largest offset there
/// is: the one key event that the log view cannot handle.
pub open spec fn scroll_overflows(offset: usize, key: KeyEvent) -> bool {
    key.kind == KeyEventKind::Press && is_down_key(key.code) && offset == usize::MAX
}

/// The scroll offset after the window is redrawn: the bottom when
/// following, else the old offset cut down to the bottom.
pub open spec fn viewport_offset(offset: int, follow: bool, max: int) -> int {
    if follow {
        max
    } else if offset < max {
        offset
    } else {
        max
    }
}

impl JobDetail {
    /// The largest useful scroll offset for the current lines and window.
    pub open spec fn max_scroll(&self) -> int {
        max_scroll_offset(self.logs@.len() as int, self.visible_log_lines as int)
    }

    /// The window does not scroll past the last line.
    pub open spec fn scroll_in_bounds(&self) -> bool {
        self.scroll_offset <= self.max_scroll()
    }

    /// A fresh view of job `job_id` that reads its logs from `log_rx`:
    /// no lines yet, at the top, following new lines.
    pub fn new(job_id: String, log_rx: JobLogReceiver) -> (r: JobDetail)
        ensures
            r.job_id == job_id,
            r.log_rx == log_rx,
            r.logs@.len() == 0,
            r.scroll_offset == 0,
            r.auto_follow,
            r.visible_log_lines == 0,
            r.scroll_in_bounds(),
    {
        JobDetail {
            job_id,
            logs: Vec::new(),
            log_rx,
            scroll_offset: 0,
            auto_follow: true,
            visible_log_lines: 0,
        }
    }

    /// Reacts to a key: `q`/`Esc` quit, `Backspace` goes back to the job
    /// list, `k`/up scrolls up one line and stops following, `j`/down
    /// scrolls down one line up to the bottom and follows again once the
    /// bottom is reached. Keys that are not presses change nothing.
    pub fn handle_key_events(&mut self, key: KeyEvent) -> (r: Option<Action>)
        requires
            !scroll_overflows(old(self).scroll_offset, key),
        ensures
            ({
                let step = detail_key_step(
                    old(self).scroll_offset as int,
                    old(self).auto_follow,
                    old(self).max_scroll(),
                    key,
                );
                &&& final(self).scroll_offset == step.0
                &&& final(self).auto_follow == step.1
                &&& r == step.2
            }),
            final(self).job_id == old(self).job_id,
            final(self).logs == old(self).logs,
            final(self).log_rx == old(self).log_rx,
            final(self).visible_log_lines == old(self).visible_log_lines,
            old(self).scroll_in_bounds() ==> final(self).scroll_in_bounds(),
    {
        if !key.is_press() {
            return None;
        }
        match key.code {
            KeyCode::Char('q') | KeyCode::Esc => Some(Action::Quit),
            KeyCode::Backspace => Some(Action::OpenJobList),
            KeyCode::Char('k') | KeyCode::Up => {
                self.scroll_offset = self.scroll_offset.saturating_sub(1);
                self.auto_follow = false;
                None
            },
            KeyCode::Char('j') | KeyCode::Down => {
                let max_scroll_offset = self.logs.len().saturating_sub(self.visible_log_lines);
                let next = self.scroll_offset + 1;
                self.scroll_offset = if next < max_scroll_offset {
                    next
                } else {
                    max_scroll_offset
                };
                self.auto_follow = self.scroll_offset == max_scroll_offset;
                None
            },
            _ => None,
        }
    }
    /// Reacts to an input event: key events go to `handle_key_events`,
    /// every other event is ignored.
    pub fn handle_events(&mut self, event: Option<Event>) -> (r: Option<Action>)
        requires
            event matches Some(Event::Key(key)) ==> !scroll_overflows(old(self).scroll_offset, key),
        ensures
            match event {
                Some(Event::Key(key)) => {
                    let step = detail_key_step(
                        old(self).scroll_offset as int,
                        old(self).auto_follow,
                        old(self).max_scroll(),
                        key,
                    );
                    &&& final(self).scroll_offset == step.0
                    &&& final(self).auto_follow == step.1
                    &&& r == step.2
                },
                _ => r is None && *final(self) == *old(self),
            },
            final(self).job_id == old(self).job_id,
            final(self).logs == old(self).logs,
            final(self).log_rx == old(self).log_rx,
            final(self).visible_log_lines == old(self).visible_log_lines,
            old(self).scroll_in_bounds() ==> final(self).scroll_in_bounds(),
    {
        match event {
            Some(Event::Key(key)) => self.handle_key_events(key),
            _ => None,
        }
    }

    /// Moves every log line that has already arrived to the end of `logs`,
    /// in the order received. The lines already held stay as they are.
    /// (Taking stops once `logs` is as long as a length can be, which no
    /// vector reaches.)
    pub fn collect_logs(&mut self)
        ensures
            old(self).logs@.len() <= final(self).logs@.len(),
            final(self).logs@.subrange(0, old(self).logs@.len() as int) == old(self).logs@,
            final(self).job_id == old(self).job_id,
            final(self).scroll_offset == old(self).scroll_offset,
            final(self).auto_follow == old(self).auto_follow,
            final(self).visible_log_lines == old(self).visible_log_lines,
            old(self).scroll_in_bounds() ==> final(self).scroll_in_bounds(),
    {
        let ghost start = self.logs@;
        while self.logs.len() < usize::MAX
            invariant
                start.len() <= self.logs@.len(),
                self.logs@.subrange(0, start.len() as int) == start,
                self.job_id == old(self).job_id,
                self.scroll_offset == old(self).scroll_offset,
                self.auto_follow == old(self).auto_follow,
                self.visible_log_lines == old(self).visible_log_lines,
                start == old(self).logs@,
            decreases usize::MAX - self.logs.len(),
        {
            let line = try_receive_line(&mut self.log_rx);
            if !self.append_log(line) {
                break;
            }
            assert(self.logs@.subrange(0, start.len() as int) =~= start);
        }
    }

    /// Takes in what one look at the log stream gave: a line is added at
    /// the end of `logs` and `true` returned; nothing waiting leaves the
    /// view as it is and returns `false`.
    pub fn append_log(&mut self, line: Option<String>) -> (taken: bool)
        ensures
            taken == (line is Some),
            match line {
                Some(l) => final(self).logs@ == old(self).logs@.push(l),
                None => final(self).logs@ == old(self).logs@,
            },
            final(self).job_id == old(self).job_id,
            final(self).log_rx == old(self).log_rx,
            final(self).scroll_offset == old(self).scroll_offset,
            final(self).auto_follow == old(self).auto_follow,
            final(self).visible_log_lines == old(self).visible_log_lines,
    {
        match line {
            Some(l) => {
                self.logs.push(l);
                true
            },
            None => false,
        }
    }

    /// Fits the scroll position to a log window `log_area_height` cells
    /// tall, two of which are its border: at the bottom when following,
    /// else no further down than the bottom.
    pub fn update_viewport(&mut self, log_area_height: u16)
        ensures
            final(self).visible_log_lines == (if log_area_height >= 2 {
                log_area_height - 2
            } else {
                0
            }),
            final(self).scroll_offset == viewport_offset(
                old(self).scroll_offset as int,
                old(self).auto_follow,
                final(self).max_scroll(),
            ),
            final(self).scroll_in_bounds(),
            final(self).job_id == old(self).job_id,
            final(self).logs == old(self).logs,
            final(self).log_rx == old(self).log_rx,
            final(self).auto_follow == old(self).auto_follow,
    {
        self.visible_log_lines = log_area_height.saturating_sub(2) as usize;
        let max_scroll_offset = self.logs.len().saturating_sub(self.visible_log_lines);
        self.scroll_offset = if self.auto_follow {
            max_scroll_offset
        } else if self.scroll_offset < max_scroll_offset {
            self.scroll_offset
        } else {
            max_scroll_offset
        };
    }

    /// Gets the view ready to be drawn in `area`: takes in the log lines
    /// that have arrived, splits `area` into the header (3 rows), the log
    /// window (the rest, at least 3 rows) and the key help (3 rows), and
    /// fits the scroll position to the log window.
    pub fn prepare_render(&mut self, area: ScreenArea) -> (r: DetailLayout)
        ensures
            ({
                let parts = layout_split(true, area, detail_constraints());
                &&& r.header == parts[0]
                &&& r.logs == parts[1]
                &&& r.controls == parts[2]
                &&& final(self).visible_log_lines == (if parts[1].height >= 2 {
                    parts[1].height - 2
                } else {
                    0
                })
            }),
            area.height >= 9 && area.y + area.height <= u16::MAX ==> {
                &&& r.header == (ScreenArea { x: area.x, y: area.y, width: area.width, height: 3 })
                &&& r.logs == (ScreenArea {
                    x: area.x,
                    y: (area.y + 3) as u16,
                    width: area.width,
                    height: (area.height - 6) as u16,
                })
                &&& r.controls == (ScreenArea {
                    x: area.x,
                    y: (area.y + area.height - 3) as u16,
                    width: area.width,
                    height: 3,
                })
                &&& final(self).visible_log_lines == area.height - 8
            },
            old(self).logs@.len() <= final(self).logs@.len(),
            final(self).logs@.subrange(0, old(self).logs@.len() as int) == old(self).logs@,
            final(self).scroll_offset == viewport_offset(
                old(self).scroll_offset as int,
                old(self).auto_follow,
                final(self).max_scroll(),
            ),
            final(self).scroll_in_bounds(),
            final(self).job_id == old(self).job_id,
            final(self).auto_follow == old(self).auto_follow,
    {
        self.collect_logs();
        let constraints = vec![
            SizeConstraint::Length(3),
            SizeConstraint::Min(3),
            SizeConstraint::Length(3),
        ];
        assert(constraints@ == detail_constraints());
        let parts = solve_layout(true, area, &constraints);
        let layout = DetailLayout { header: parts[0], logs: parts[1], controls: parts[2] };
        self.update_viewport(layout.logs.height);
        layout
    }

    /// Whether the job is still sending log lines.
    pub fn status(&self) -> (r: JobStatus) {
        JobStatus::from_stream_closed(log_stream_closed(&self.log_rx))
    }

    /// The first log row to show, as a terminal row index (the offset cut
    /// to 16 bits).
    pub fn scroll_row(&self) -> (r: u16)
        ensures
            r == self.scroll_offset as u16,
    {
        self.scroll_offset as u16
    }
}

/// The three parts of the log view, top to bottom.
#[derive(Clone, Copy, Debug, PartialEq, Eq)]
pub struct DetailLayout {
    pub header: ScreenArea,
    pub logs: ScreenArea,
    pub controls: ScreenArea,
}

/// Header, log window and key help: 3 rows, at least 3 rows, 3 rows.
pub open spec fn detail_constraints() -> Seq<SizeConstraint> {
    seq![SizeConstraint::Length(3), SizeConstraint::Min(3), SizeConstraint::Length(3)]
}

} // verus!
