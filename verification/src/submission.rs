//! The worker's handler for the server's verdicts on its submissions.

use vstd::prelude::*;

verus! {

/// A handler that takes note of each verdict and does nothing else.
#[derive(Debug, Clone, Copy, PartialEq, Eq, Structural)]
pub struct NockPoolSubmissionResponseHandler {}

impl NockPoolSubmissionResponseHandler {
    /// A handler. It holds nothing, so any two are the same.
    pub fn new() -> (h: Self)
        ensures
            h == (NockPoolSubmissionResponseHandler {  }),
    {
        Self {  }
    }
}

} // verus!
