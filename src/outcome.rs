use vstd::prelude::*;

verus! {

/// Modification time of a file: whole seconds and nanoseconds relative to the Unix epoch.
#[derive(Clone, Copy, Debug, PartialEq, Eq, Structural)]
pub struct ModTime {
    pub secs: i64,
    pub nanos: u32,
}

impl ModTime {
    /// Whether two observed modification times are the same instant.
    pub fn same_as(&self, other: &ModTime) -> (r: bool)
        ensures
            r == (*self == *other),
    {
        self.secs == other.secs && self.nanos == other.nanos
    }
}

/// Three-way outcome of a decode or transform step.
pub enum WatchingFuncResult<T> {
    /// The step succeeded; the value flows to the next step.
    Success(T),
    /// A transient failure: run the step again after waiting.
    Retry(String),
    /// A fatal failure: the whole run stops.
    Fail(String),
}

/// Why a run of the engine stopped with an error.
#[derive(Debug, PartialEq, Eq)]
pub enum PipelineError {
    /// A step returned `Fail` with this reason.
    Failed(String),
    /// A step kept asking for a retry until its budget ran out.
    RetriesExhausted,
    /// The modification time of a watched file could not be read.
    Unreadable(String),
}

impl PipelineError {
    /// Human-readable reason carried by the error.
    pub fn message(&self) -> (r: String)
        ensures
            self matches PipelineError::Failed(s) ==> r@ == s@,
            self matches PipelineError::Unreadable(s) ==> r@ == s@,
            self is RetriesExhausted ==> r@ == "no more retries"@,
    {
        match self {
            PipelineError::Failed(s) => s.clone(),
            PipelineError::Unreadable(s) => s.clone(),
            PipelineError::RetriesExhausted => {
                proof {
                    reveal_strlit("no more retries");
                }
                String::from_str("no more retries")
            },
        }
    }
}

} // verus!
