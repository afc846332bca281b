//! Failures of a download, and whether the operation may be attempted again.

use vstd::prelude::*;
use vstd::string::StringExecFns;

verus! {

/// What the caller of a failed download should do next.
#[derive(Clone, Copy, Debug, PartialEq, Eq, Structural)]
pub enum RetryPolicy {
    /// The same request would fail again: do not retry.
    Terminal,
    /// The condition is transient: retry after a delay.
    Retryable,
}

/// The cause of a failed download.
#[derive(Clone, Copy, Debug, PartialEq, Eq, Structural)]
pub enum ErrorKind {
    /// A request header or the destination URI is malformed.
    Validation,
    /// Neither the response headers nor its URL give a file name.
    Resolution,
    /// The server answered with the given status outside the success range.
    HttpStatus(u16),
    /// The connection failed before a response arrived or while its body was read.
    Transport,
    /// The storage backend refused to open, write or finalize the object.
    Storage,
}

/// Whether `status` lies in the range of successful responses.
pub open spec fn is_success(status: u16) -> bool {
    200 <= status < 300
}

/// Whether `status` lies in the range of client errors.
pub open spec fn is_client_error(status: u16) -> bool {
    400 <= status < 500
}

/// The message that says what failed (`context`) and why (`cause`).
pub open spec fn explained(context: Seq<char>, cause: Seq<char>) -> Seq<char> {
    context + seq![':', ' '] + cause
}

impl ErrorKind {
    /// The retry policy that belongs to each kind of failure.
    pub open spec fn policy(self) -> RetryPolicy {
        match self {
            ErrorKind::Validation => RetryPolicy::Terminal,
            ErrorKind::Resolution => RetryPolicy::Terminal,
            ErrorKind::HttpStatus(status) => if is_client_error(status) {
                RetryPolicy::Terminal
            } else {
                RetryPolicy::Retryable
            },
            ErrorKind::Transport => RetryPolicy::Retryable,
            ErrorKind::Storage => RetryPolicy::Terminal,
        }
    }

    pub fn retry_policy(&self) -> (policy: RetryPolicy)
        ensures
            policy == self.policy(),
    {
        match self {
            ErrorKind::Validation => RetryPolicy::Terminal,
            ErrorKind::Resolution => RetryPolicy::Terminal,
            ErrorKind::HttpStatus(status) => {
                if 400 <= *status && *status < 500 {
                    RetryPolicy::Terminal
                } else {
                    RetryPolicy::Retryable
                }
            },
            ErrorKind::Transport => RetryPolicy::Retryable,
            ErrorKind::Storage => RetryPolicy::Terminal,
        }
    }
}

/// A failure as mathematical text.
pub struct Failure {
    pub kind: ErrorKind,
    pub message: Seq<char>,
}

/// A failed download: its cause and a message for the operator.
#[derive(Clone, Debug)]
pub struct DownloadError {
    pub kind: ErrorKind,
    pub message: String,
}

impl View for DownloadError {
    type V = Failure;

    open spec fn view(&self) -> Failure {
        Failure { kind: self.kind, message: self.message@ }
    }
}

impl DownloadError {
    pub fn new(kind: ErrorKind, message: String) -> (error: DownloadError)
        ensures
            error@ == (Failure { kind, message: message@ }),
    {
        DownloadError { kind, message }
    }

    /// The failure of `kind` whose message is `context`, a colon and `cause`.
    pub fn with_cause(kind: ErrorKind, context: &str, cause: &str) -> (error: DownloadError)
        ensures
            error@ == (Failure { kind, message: explained(context@, cause@) }),
    {
        let mut message = String::from_str(context);
        message.append(": ");
        message.append(cause);
        proof {
            reveal_strlit(": ");
            assert(": "@ =~= seq![':', ' ']);
        }
        DownloadError { kind, message }
    }

    /// Whether the failure must not be retried.
    pub open spec fn terminal(self) -> bool {
        self.kind.policy() == RetryPolicy::Terminal
    }

    pub fn is_terminal(&self) -> (terminal: bool)
        ensures
            terminal == self.terminal(),
    {
        self.kind.retry_policy() == RetryPolicy::Terminal
    }
}

} // verus!
