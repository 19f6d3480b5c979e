use vstd::prelude::*;

verus! {

/// A job definition: the file name it was read from and its raw text.
#[derive(Clone, Debug)]
pub struct Job {
    pub name: String,
    pub raw: String,
}

impl Job {
    /// A copy of the job with the same name and text.
    pub fn duplicate(&self) -> (r: Job)
        ensures
            r == *self,
    {
        Job { name: self.name.clone(), raw: self.raw.clone() }
    }
}

/// What a screen asks the application to do after an input event.
#[derive(Clone, Debug)]
pub enum Action {
    /// Leave the application.
    Quit,
    /// Submit this job and follow its logs.
    SelectJob(Job),
    /// Go back to the list of job definitions.
    OpenJobList,
}

} // verus!
