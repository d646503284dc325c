//! Immutable job identity and the persisted, monotonically-filled checkpoint
//! record of a job's progress.

use vstd::prelude::*;

verus! {

/// Immutable identity and static configuration for one job.
#[derive(Debug)]
pub struct JobConfig {
    pub id: String,
    pub pipeline_name: String,
}

/// The user's submitted program together with a content fingerprint used for
/// change detection and progress events.
#[derive(Debug)]
pub struct ProgramHandle {
    pub content: String,
    pub hash: String,
}

impl Clone for ProgramHandle {
    fn clone(&self) -> (other: Self)
        ensures
            other == *self,
    {
        ProgramHandle { content: self.content.clone(), hash: self.hash.clone() }
    }
}

impl ProgramHandle {
    /// The content fingerprint, as recorded in progress events.
    pub fn get_hash(&self) -> (h: &String)
        ensures
            h == &self.hash,
    {
        &self.hash
    }
}

/// Durable checkpoint record of progress: each field is set exactly once,
/// when the stage that produces it completes, and is never cleared again for
/// the life of the job. A set field means "this unit of work is already
/// done", so a restarted controller never repeats it.
#[derive(Debug)]
pub struct JobStatus {
    pub pipeline_path: Option<String>,
    pub wasm_path: Option<String>,
}

impl JobStatus {
    /// Both artifact fields of `later` are at least as filled in as in
    /// `self`, and whatever `self` had recorded is unchanged in `later`:
    /// the once-set-never-cleared invariant between two observations of one
    /// job's status.
    pub open spec fn grows_into(self, later: JobStatus) -> bool {
        &&& (self.pipeline_path is Some ==> later.pipeline_path == self.pipeline_path)
        &&& (self.wasm_path is Some ==> later.wasm_path == self.wasm_path)
    }

    /// A fresh record: no stage has completed yet.
    pub fn new() -> (s: JobStatus)
        ensures
            s.pipeline_path is None,
            s.wasm_path is None,
    {
        JobStatus { pipeline_path: None, wasm_path: None }
    }
}

} // verus!
