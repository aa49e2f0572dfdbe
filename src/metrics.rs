use vstd::prelude::*;
use crate::error::Error;

verus! {

/// Final status of the processing of one message.
#[derive(Debug, Clone, Copy, PartialEq, Eq, Structural)]
pub enum ProcessingStatus {
    Success,
    Error,
}

impl ProcessingStatus {
    /// The metric label of the status.
    pub fn label(&self) -> (r: &'static str)
        ensures
            *self == ProcessingStatus::Success ==> r@ == "success"@,
            *self == ProcessingStatus::Error ==> r@ == "error"@,
    {
        match self {
            ProcessingStatus::Success => "success",
            ProcessingStatus::Error => "error",
        }
    }
}

/// The status of a message whose processing ended with `result`.
pub open spec fn status_of(result: Result<(), Error>) -> ProcessingStatus {
    if result is Ok {
        ProcessingStatus::Success
    } else {
        ProcessingStatus::Error
    }
}

/// Tells how the processing of a message ended: an unknown event, a skipped
/// event and an accepted forward call are successes; any error is a failure.
pub fn processing_status(result: &Result<(), Error>) -> (r: ProcessingStatus)
    ensures
        r == status_of(*result),
{
    match result {
        Ok(()) => ProcessingStatus::Success,
        Err(_) => ProcessingStatus::Error,
    }
}

/// Counts of processed messages by final status. A count stops at the
/// largest `u64` rather than wrapping.
#[derive(Debug)]
pub struct ProcessedMessages {
    success: u64,
    error: u64,
}

/// Adds one to a count, stopping at the largest `u64`.
pub open spec fn bumped(n: u64) -> u64 {
    if n < u64::MAX {
        (n + 1) as u64
    } else {
        n
    }
}

impl ProcessedMessages {
    pub closed spec fn success_count(&self) -> u64 {
        self.success
    }

    pub closed spec fn error_count(&self) -> u64 {
        self.error
    }

    /// Counters with nothing processed yet.
    pub fn new() -> (r: ProcessedMessages)
        ensures
            r.success_count() == 0,
            r.error_count() == 0,
    {
        ProcessedMessages { success: 0, error: 0 }
    }

    /// Counts one more message with the given status.
    pub fn record(&mut self, status: ProcessingStatus)
        ensures
            status == ProcessingStatus::Success ==> final(self).success_count() == bumped(
                old(self).success_count(),
            ) && final(self).error_count() == old(self).error_count(),
            status == ProcessingStatus::Error ==> final(self).error_count() == bumped(
                old(self).error_count(),
            ) && final(self).success_count() == old(self).success_count(),
    {
        match status {
            ProcessingStatus::Success => {
                self.success = self.success.saturating_add(1);
            },
            ProcessingStatus::Error => {
                self.error = self.error.saturating_add(1);
            },
        }
    }

    /// Counts a message whose processing ended with `result`, and tells its status.
    pub fn observe(&mut self, result: &Result<(), Error>) -> (r: ProcessingStatus)
        ensures
            r == status_of(*result),
            r == ProcessingStatus::Success ==> final(self).success_count() == bumped(
                old(self).success_count(),
            ) && final(self).error_count() == old(self).error_count(),
            r == ProcessingStatus::Error ==> final(self).error_count() == bumped(
                old(self).error_count(),
            ) && final(self).success_count() == old(self).success_count(),
    {
        let status = processing_status(result);
        self.record(status);
        status
    }

    /// Messages processed with success.
    pub fn success(&self) -> (r: u64)
        ensures
            r == self.success_count(),
    {
        self.success
    }

    /// Messages whose processing failed.
    pub fn error(&self) -> (r: u64)
        ensures
            r == self.error_count(),
    {
        self.error
    }

    /// Messages counted under a status.
    pub fn count(&self, status: ProcessingStatus) -> (r: u64)
        ensures
            status == ProcessingStatus::Success ==> r == self.success_count(),
            status == ProcessingStatus::Error ==> r == self.error_count(),
    {
        match status {
            ProcessingStatus::Success => self.success,
            ProcessingStatus::Error => self.error,
        }
    }
}

} // verus!
