use vstd::prelude::*;

verus! {

/// General failure of an isolate's own work.
#[derive(Debug)]
pub enum IsolateError {
    /// The work failed with no retained detail.
    Failed,
    /// The work failed for the recorded reason.
    Reason(String),
}

impl IsolateError {
    /// Fold any error of another kind into a plain failure.
    pub fn from_error(_e: impl std::error::Error) -> (r: IsolateError)
        ensures
            r is Failed,
    {
        IsolateError::Failed
    }

    /// Wrap a plain text reason.
    pub fn from_reason(s: &str) -> (r: IsolateError)
        ensures
            r matches IsolateError::Reason(m) && m@ == s@,
    {
        IsolateError::Reason(s.to_owned())
    }
}

} // verus!
