use vstd::prelude::*;

use crate::error::{ArchiveError, Operation, ToolFailure};

verus! {

/// The character sequences held by a sequence of strings.
pub open spec fn strs(v: Seq<String>) -> Seq<Seq<char>> {
    v.map_values(|s: String| s@)
}

/// The character sequence held by an optional string.
pub open spec fn opt_str(o: Option<String>) -> Option<Seq<char>> {
    match o {
        Some(s) => Some(s@),
        None => None,
    }
}

/// A planned run of one delegated tool.
#[derive(Debug, PartialEq, Eq)]
pub struct Job {
    /// The operation the run carries out.
    pub operation: Operation,
    /// A directory to create before the tool runs.
    pub make_dir: Option<String>,
    /// The executable to run.
    pub program: String,
    /// Its arguments, in order.
    pub args: Vec<String>,
}

/// A job as plain character sequences.
pub struct JobView {
    pub operation: Operation,
    pub make_dir: Option<Seq<char>>,
    pub program: Seq<char>,
    pub args: Seq<Seq<char>>,
}

impl View for Job {
    type V = JobView;

    open spec fn view(&self) -> JobView {
        JobView {
            operation: self.operation,
            make_dir: opt_str(self.make_dir),
            program: self.program@,
            args: strs(self.args@),
        }
    }
}

/// What the caller is to do next for a job.
#[derive(Debug, PartialEq, Eq)]
pub enum Step {
    /// Create this directory, then report how that went.
    CreateDir(String),
    /// Run the job's program with its arguments and wait for it.
    Run,
    /// The job has succeeded.
    Done,
    /// The job has failed with this error.
    Fail(ArchiveError),
}

/// What happened when the caller carried out a step.
#[derive(Debug, PartialEq, Eq)]
pub enum Event {
    /// The directory was created.
    DirCreated,
    /// The directory could not be created.
    DirFailed { path: String, cause: String },
    /// The program could not be started.
    SpawnFailed(String),
    /// The program ended, with this exit code or with none when a signal ended it.
    Exited(Option<i32>),
}

impl Job {
    /// The first step of a job: its directory, if it has one to create, comes before the tool.
    pub fn first_step(&self) -> (r: Step)
        ensures
            match self.make_dir {
                Some(d) => r == Step::CreateDir(d),
                None => r == Step::Run,
            },
    {
        match &self.make_dir {
            Some(d) => Step::CreateDir(d.clone()),
            None => Step::Run,
        }
    }

    /// The step that follows an event. Only a zero exit code is success; every other
    /// outcome of the tool is reported against the job's operation.
    pub fn next(&self, event: Event) -> (r: Step)
        ensures
            match event {
                Event::DirCreated => r == Step::Run,
                Event::DirFailed { path, cause } => r == Step::Fail(
                    ArchiveError::DestinationCreateFailed { path, cause },
                ),
                Event::SpawnFailed(why) => r == Step::Fail(
                    ArchiveError::ExternalToolFailed {
                        operation: self.operation,
                        tool: self.program,
                        failure: ToolFailure::NotStarted(why),
                    },
                ),
                Event::Exited(code) => if code == Some(0i32) {
                    r == Step::Done
                } else {
                    r == Step::Fail(
                        ArchiveError::ExternalToolFailed {
                            operation: self.operation,
                            tool: self.program,
                            failure: ToolFailure::Exited(code),
                        },
                    )
                },
            },
    {
        match event {
            Event::DirCreated => Step::Run,
            Event::DirFailed { path, cause } => Step::Fail(
                ArchiveError::DestinationCreateFailed { path, cause },
            ),
            Event::SpawnFailed(why) => Step::Fail(
                ArchiveError::ExternalToolFailed {
                    operation: self.operation,
                    tool: self.program.clone(),
                    failure: ToolFailure::NotStarted(why),
                },
            ),
            Event::Exited(code) => {
                let succeeded = match code {
                    Some(c) => c == 0,
                    None => false,
                };
                if succeeded {
                    Step::Done
                } else {
                    Step::Fail(
                        ArchiveError::ExternalToolFailed {
                            operation: self.operation,
                            tool: self.program.clone(),
                            failure: ToolFailure::Exited(code),
                        },
                    )
                }
            },
        }
    }
}

} // verus!
