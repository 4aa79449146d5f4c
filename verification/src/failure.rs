use vstd::prelude::*;

verus! {

/// Whether a failed job is retried later or moved to the dead letters.
#[derive(Clone, Copy, Debug, PartialEq, Eq, Structural)]
pub enum FailureDisposition {
    Retry,
    Permanent,
}

/// The outcome of a handler that did not complete its job.
#[derive(Clone, Debug)]
pub struct HandlerFailure {
    pub disposition: FailureDisposition,
    pub message: String,
}

impl HandlerFailure {
    /// A failure that is retried with backoff.
    pub fn retry(message: &str) -> (failure: HandlerFailure)
        ensures
            failure.disposition == FailureDisposition::Retry,
            failure.message@ == message@,
    {
        HandlerFailure { disposition: FailureDisposition::Retry, message: message.to_owned() }
    }

    /// A failure that dead-letters the job.
    pub fn permanent(message: &str) -> (failure: HandlerFailure)
        ensures
            failure.disposition == FailureDisposition::Permanent,
            failure.message@ == message@,
    {
        HandlerFailure { disposition: FailureDisposition::Permanent, message: message.to_owned() }
    }
}

} // verus!
