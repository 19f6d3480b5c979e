//! Verified core of a terminal client that lists job definitions, submits
//! one to a job commander and follows its live log output.
//!
//! The crate holds the screens' state machines, the application's
//! decisions and the log-stream framing; terminal drawing, event polling,
//! file reading and the network client live around it.

pub mod action;
pub mod app;
pub mod input;
pub mod job_detail;
pub mod job_list;
pub mod jobs;
pub mod laws;
pub mod layout;
pub mod log_stream;

pub use action::{Action, Job};
pub use input::{Event, KeyCode, KeyEvent, KeyEventKind};
pub use job_detail::{DetailLayout, JobDetail, JobLogReceiver, JobStatus};
pub use job_list::JobList;
pub use layout::{ScreenArea, SizeConstraint};
