use vstd::prelude::*;

use crate::backoff::advanced;
use crate::backoff::envelope_of;
use crate::backoff::Backoff;
use crate::substring::contains_seq;
use crate::substring::str_contains;

verus! {

/// The categorical outcome of an RPC, mirroring the gRPC status codes.
#[derive(Clone, Copy, Debug, PartialEq, Eq, Structural)]
pub enum Code {
    /// The operation completed successfully.
    Okay,
    /// The operation was cancelled.
    Cancelled,
    /// Unknown error.
    Unknown,
    /// Client specified an invalid argument.
    InvalidArgument,
    /// Deadline expired before operation could complete.
    DeadlineExceeded,
    /// Some requested entity was not found.
    NotFound,
    /// Some entity that we attempted to create already exists.
    AlreadyExists,
    /// The caller does not have permission to execute the operation.
    PermissionDenied,
    /// Some resource has been exhausted.
    ResourceExhausted,
    /// The system is not in a state required for the operation.
    FailedPrecondition,
    /// The operation was aborted.
    Aborted,
    /// Operation was attempted past the valid range.
    OutOfRange,
    /// Operation is not implemented or not supported.
    Unimplemented,
    /// Internal error.
    Internal,
    /// The service is currently unavailable.
    Unavailable,
    /// Unrecoverable data loss or corruption.
    DataLoss,
    /// The request does not have valid authentication credentials.
    Unauthenticated,
}

/// One failed RPC outcome: the categorical code plus the free-text
/// message the transport reported alongside it.
#[derive(Clone, Debug)]
pub struct Status {
    pub code: Code,
    pub message: String,
}

/// The message carries one of the known-benign markers that backends
/// attach to transport-level hiccups reported under `Internal`.
pub open spec fn internal_transient(msg: Seq<char>) -> bool {
    ||| contains_seq(msg, "stream terminated by RST_STREAM"@)
    ||| contains_seq(msg, "HTTP/2 error code: INTERNAL_ERROR"@)
    ||| contains_seq(msg, "Connection closed with unknown cause"@)
    ||| contains_seq(msg, "Received unexpected EOS on DATA frame from server"@)
}

/// The message reports the backend's transient "session not found"
/// condition.
pub open spec fn session_not_found(msg: Seq<char>) -> bool {
    contains_seq(msg, "Session not found:"@)
}

/// The retry decision, as a predicate over the failed call's code and
/// message and the policy's configuration.
///
/// An `Internal` error is many backends' catch-all, so it is retried
/// only when the message carries a known transient marker — that gate
/// overrides everything that follows. Otherwise a retry is due when
/// the code is one of the configured retryable codes, or, with the
/// heuristic enabled, when the message reports a lost session.
pub open spec fn should_retry(
    code: Code,
    msg: Seq<char>,
    codes: Seq<Code>,
    check_session_not_found: bool,
) -> bool {
    if code == Code::Internal && !internal_transient(msg) {
        false
    } else if codes.contains(code) {
        true
    } else {
        check_session_not_found && session_not_found(msg)
    }
}

/// Whether the message carries one of the known-benign markers for
/// transient `Internal` errors.
pub fn is_internal_transient(msg: &str) -> (r: bool)
    ensures
        r == internal_transient(msg@),
{
    str_contains(msg, "stream terminated by RST_STREAM") || str_contains(
        msg,
        "HTTP/2 error code: INTERNAL_ERROR",
    ) || str_contains(msg, "Connection closed with unknown cause") || str_contains(
        msg,
        "Received unexpected EOS on DATA frame from server",
    )
}

/// Whether `code` is one of the configured retryable codes.
fn code_is_member(codes: &Vec<Code>, code: Code) -> (r: bool)
    ensures
        r == codes@.contains(code),
{
    let mut k: usize = 0;
    while k < codes.len()
        invariant
            k <= codes.len(),
            forall|j: int| 0 <= j < k ==> codes@[j] != code,
        decreases codes.len() - k,
    {
        if codes[k] == code {
            return true;
        }
        k += 1;
    }
    false
}

/// Retryer is used by an invocation loop to determine retry behavior:
/// after each failed attempt it is handed the failure and answers
/// either "do not retry" (`None`) or "retry after this many
/// nanoseconds" (`Some`).
pub trait Retryer: Sized {
    /// When `retry` may be called on this state.
    spec fn retry_pre(&self) -> bool;

    /// What `retry` returns and how it changes the state.
    spec fn retry_post(pre: Self, post: Self, status: Status, r: Option<u64>) -> bool;

    /// Decide whether the failed call should be retried and, if so,
    /// after how many nanoseconds.
    fn retry(&mut self, status: &Status) -> (r: Option<u64>)
        requires
            old(self).retry_pre(),
        ensures
            Self::retry_post(*old(self), *final(self), *status, r),
    ;
}

/// A retry policy backed by jittered exponential backoff: a failed
/// call is retried when `should_retry` says so, and the wait before
/// the next attempt is the backoff generator's next draw.
#[derive(Clone, Debug)]
pub struct BackoffRetryer {
    /// Per-sequence backoff state; supports backoff retry only.
    pub backoff: Backoff,
    /// The status codes eligible for retry.
    pub codes: Vec<Code>,
    /// Enables the "Session not found:" message heuristic.
    pub check_session_not_found: bool,
}

impl Retryer for BackoffRetryer {
    /// The backoff configuration must be valid.
    open spec fn retry_pre(&self) -> bool {
        self.backoff.wf()
    }

    /// Exactly when `should_retry` holds, the answer is a wait of
    /// between 1ns and the current envelope and the backoff state
    /// advances one step; otherwise the answer is `None` and the state
    /// is untouched. The policy configuration never changes.
    open spec fn retry_post(pre: Self, post: Self, status: Status, r: Option<u64>) -> bool {
        &&& post.codes == pre.codes
        &&& post.check_session_not_found == pre.check_session_not_found
        &&& post.backoff.wf()
        &&& if should_retry(
            status.code,
            status.message@,
            pre.codes@,
            pre.check_session_not_found,
        ) {
            &&& r is Some
            &&& 1 <= r->0 <= envelope_of(pre.backoff)
            &&& post.backoff == advanced(pre.backoff)
        } else {
            &&& r is None
            &&& post.backoff == pre.backoff
        }
    }

    fn retry(&mut self, status: &Status) -> (r: Option<u64>) {
        let code = status.code;
        if code == Code::Internal && !is_internal_transient(status.message.as_str()) {
            return None;
        }
        if code_is_member(&self.codes, code) {
            return Some(self.backoff.duration());
        }
        if self.check_session_not_found {
            if str_contains(status.message.as_str(), "Session not found:") {
                return Some(self.backoff.duration());
            }
        }
        None
    }
}

/// CallSettings allow fine-grained control over how calls are made.
#[derive(Clone, Debug)]
pub struct CallSettings {
    pub retryer: BackoffRetryer,
}

} // verus!
