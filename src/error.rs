use vstd::prelude::*;

verus! {

/// The four ways driving a workflow run can fail.
#[derive(Debug, Clone, Copy, PartialEq, Eq, Structural)]
pub enum ErrorKind {
    Nondeterminism,
    Fatal,
    HistoryFetching,
    CacheMiss,
}

#[derive(Debug, Clone, PartialEq)]
pub enum WFMachinesError {
    /// History contradicts the state rebuilt from the workflow's commands.
    Nondeterminism(String),
    /// A broken rule of the engine; the run cannot go on.
    Fatal(String),
    /// Reading history from the service failed; the text is the service's status.
    HistoryFetchingError(String),
    /// Partial history arrived for a run of which nothing is known.
    CacheMiss,
}

impl WFMachinesError {
    pub open spec fn spec_kind(&self) -> ErrorKind {
        match self {
            WFMachinesError::Nondeterminism(_) => ErrorKind::Nondeterminism,
            WFMachinesError::Fatal(_) => ErrorKind::Fatal,
            WFMachinesError::HistoryFetchingError(_) => ErrorKind::HistoryFetching,
            WFMachinesError::CacheMiss => ErrorKind::CacheMiss,
        }
    }

    pub fn kind(&self) -> (r: ErrorKind)
        ensures
            r == self.spec_kind(),
    {
        match self {
            WFMachinesError::Nondeterminism(_) => ErrorKind::Nondeterminism,
            WFMachinesError::Fatal(_) => ErrorKind::Fatal,
            WFMachinesError::HistoryFetchingError(_) => ErrorKind::HistoryFetching,
            WFMachinesError::CacheMiss => ErrorKind::CacheMiss,
        }
    }

    /// Describes the error in words.
    pub fn message(&self) -> (r: String)
        ensures
            match self {
                WFMachinesError::Nondeterminism(m) => r@ == m@,
                WFMachinesError::Fatal(m) => r@ == m@,
                WFMachinesError::HistoryFetchingError(m) => r@ == m@,
                WFMachinesError::CacheMiss => r@.len() > 0,
            },
    {
        match self {
            WFMachinesError::Nondeterminism(m) => m.clone(),
            WFMachinesError::Fatal(m) => m.clone(),
            WFMachinesError::HistoryFetchingError(m) => m.clone(),
            WFMachinesError::CacheMiss => {
                let m = "Unable to process partial event history because workflow is no longer cached.";
                proof {
                    reveal_strlit(
                        "Unable to process partial event history because workflow is no longer cached.",
                    );
                }
                m.to_owned()
            },
        }
    }
}

pub fn nondeterminism(msg: &str) -> (r: WFMachinesError)
    ensures
        r.spec_kind() == ErrorKind::Nondeterminism,
{
    WFMachinesError::Nondeterminism(msg.to_owned())
}

pub fn fatal(msg: &str) -> (r: WFMachinesError)
    ensures
        r.spec_kind() == ErrorKind::Fatal,
{
    WFMachinesError::Fatal(msg.to_owned())
}

} // verus!
