use vstd::prelude::*;

use crate::action::Job;

verus! {

/// What was learned about one entry of the job directory: whether it is a
/// regular file, its name if that is valid text, and its contents if they
/// could be read as text.
#[derive(Clone, Debug)]
pub struct JobFileEntry {
    pub is_file: bool,
    pub name: Option<String>,
    pub contents: Option<String>,
}

/// The job an entry gives: a regular file with a readable name and
/// contents; nothing otherwise.
pub open spec fn entry_job(entry: JobFileEntry) -> Option<Job> {
    if entry.is_file && entry.name is Some && entry.contents is Some {
        Some(Job { name: entry.name->0, raw: entry.contents->0 })
    } else {
        None
    }
}

/// The jobs that `entries` give, in the entries' order.
pub open spec fn jobs_from_entries(entries: Seq<JobFileEntry>) -> Seq<Job>
    decreases entries.len(),
{
    if entries.len() == 0 {
        Seq::empty()
    } else {
        let earlier = jobs_from_entries(entries.drop_last());
        match entry_job(entries.last()) {
            Some(job) => earlier.push(job),
            None => earlier,
        }
    }
}

} // verus!
