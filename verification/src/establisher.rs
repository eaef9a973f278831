//! Connection establishment with bounded, backed-off retries.
//!
//! The driver attempts to open the pooled connection and reports each
//! outcome here. A failure with attempts remaining is answered with a
//! strictly increasing backoff delay; a failure on the last permitted
//! attempt is fatal; the first success ends the sequence. Every attempt is
//! recorded, with its structured error detail, for diagnostics.

use vstd::prelude::*;
use vstd::string::StringExecFns;
use crate::config;

verus! {

/// Structured detail of a failed connection attempt, as the driver
/// classified it: a database-level error carries the engine's optional code
/// and its message; anything else only a description.
#[derive(Clone, PartialEq, Eq, Debug)]
pub enum ErrorDetail {
    /// The database engine itself reported the failure.
    Database { code: Option<String>, message: String },
    /// Some other I/O or driver failure.
    Other { message: String },
}

/// The one-line rendering of an error detail.
pub open spec fn describe_spec(e: ErrorDetail) -> Seq<char> {
    match e {
        ErrorDetail::Database { code, message } => match code {
            Some(c) => "database error ["@ + c@ + "]: "@ + message@,
            None => "database error: "@ + message@,
        },
        ErrorDetail::Other { message } => "error: "@ + message@,
    }
}

impl ErrorDetail {
    /// Render the detail as one line for the diagnostic stream.
    pub fn describe(&self) -> (r: String)
        ensures
            r@ == describe_spec(*self),
    {
        match self {
            ErrorDetail::Database { code: Some(c), message } => String::from_str(
                "database error [",
            ).concat(c.as_str()).concat("]: ").concat(message.as_str()),
            ErrorDetail::Database { code: None, message } => String::from_str(
                "database error: ",
            ).concat(message.as_str()),
            ErrorDetail::Other { message } => String::from_str("error: ").concat(message.as_str()),
        }
    }
}

/// How one connection attempt ended.
#[derive(Clone, Copy, PartialEq, Eq, Debug)]
pub enum AttemptOutcome {
    /// The connection opened: the protocol is done attempting.
    Success,
    /// The attempt failed but a retry remains.
    TransientFailure,
    /// The attempt failed and no retry remains: fatal.
    FatalFailure,
}

/// The record of one attempt, kept for diagnostics only.
#[derive(Clone, PartialEq, Eq, Debug)]
pub struct ConnectionAttempt {
    /// 1-based position of the attempt in the sequence.
    pub attempt_number: u32,
    /// How the attempt ended.
    pub outcome: AttemptOutcome,
    /// The failure's detail; `None` exactly on success.
    pub error_detail: Option<ErrorDetail>,
}

/// What the driver must do after reporting an outcome.
#[derive(Clone, PartialEq, Eq, Debug)]
pub enum ConnectAction {
    /// The connection is open: stop attempting.
    Connected,
    /// Suspend for the given delay, then attempt again.
    Retry { delay_ms: u64 },
    /// All attempts failed: abort with this message.
    Fatal { message: String },
}

/// The backoff delay owed after the given (1-based) failed attempt.
pub open spec fn retry_delay_spec(attempt: int) -> int {
    config::RETRY_BASE_MS * attempt
}

/// The message of the fatal action: the last observed error, rendered.
pub open spec fn exhausted_message_spec(last_error: ErrorDetail) -> Seq<char> {
    "all connection attempts failed: "@ + describe_spec(last_error)
}

/// The retry state machine. The driver makes one attempt, reports its
/// outcome through [`ConnectionEstablisher::record_outcome`], performs the
/// returned action, and repeats until `Connected` or `Fatal`.
pub struct ConnectionEstablisher {
    /// How many attempts have been reported.
    pub attempts_made: u32,
    /// A success has been reported; no further attempt is permitted.
    pub succeeded: bool,
    /// The attempt bound was reached without a success.
    pub exhausted: bool,
    /// The record of every reported attempt, in order.
    pub log: Vec<ConnectionAttempt>,
}

impl ConnectionEstablisher {
    /// Neither success nor exhaustion has been reached: another attempt is
    /// permitted.
    pub open spec fn in_progress(self) -> bool {
        !self.succeeded && !self.exhausted
    }

    /// The establisher's invariant: the log mirrors the attempt counter,
    /// the counter never exceeds the bound, at most one terminal state
    /// holds, every non-final entry is a transient failure, and error
    /// detail is present exactly on failures.
    pub open spec fn wf(self) -> bool {
        &&& self.log.len() == self.attempts_made
        &&& self.attempts_made <= config::MAX_ATTEMPTS
        &&& !(self.succeeded && self.exhausted)
        &&& ((self.succeeded || self.exhausted) ==> self.attempts_made >= 1)
        &&& (self.exhausted ==> self.attempts_made == config::MAX_ATTEMPTS)
        &&& (self.in_progress() ==> self.attempts_made < config::MAX_ATTEMPTS)
        &&& (forall|i: int|
            0 <= i < self.log.len() ==> (#[trigger] self.log@[i]).attempt_number == i + 1)
        &&& (forall|i: int|
            0 <= i < self.log.len() - 1 ==> (#[trigger] self.log@[i]).outcome is TransientFailure)
        &&& (forall|i: int|
            0 <= i < self.log.len() ==> ((#[trigger] self.log@[i]).outcome is Success
                <==> self.log@[i].error_detail is None))
        &&& (self.succeeded ==> self.log@.last().outcome is Success)
        &&& (self.exhausted ==> self.log@.last().outcome is FatalFailure)
        &&& (self.in_progress() && self.log.len() > 0 ==> self.log@.last().outcome
            is TransientFailure)
    }

    /// A fresh establisher: nothing attempted yet.
    pub fn new() -> (r: ConnectionEstablisher)
        ensures
            r.wf(),
            r.in_progress(),
            r.attempts_made == 0,
            r.log@ =~= Seq::<ConnectionAttempt>::empty(),
    {
        ConnectionEstablisher { attempts_made: 0, succeeded: false, exhausted: false, log: Vec::new() }
    }

    /// Report the outcome of one attempt: `None` for a success, `Some` for
    /// a failure with its classified detail.
    ///
    /// The attempt is appended to the log with the matching outcome. A
    /// success answers `Connected` and closes the sequence; a failure with
    /// attempts remaining answers `Retry` with the backoff delay owed after
    /// this attempt; a failure on the last permitted attempt answers
    /// `Fatal`, whose message renders this last error.
    pub fn record_outcome(&mut self, error: Option<ErrorDetail>) -> (a: ConnectAction)
        requires
            old(self).wf(),
            old(self).in_progress(),
        ensures
            final(self).wf(),
            final(self).attempts_made == old(self).attempts_made + 1,
            final(self).succeeded == (error is None),
            final(self).exhausted == (error is Some && old(self).attempts_made + 1
                == config::MAX_ATTEMPTS),
            error is None ==> {
                &&& a is Connected
                &&& final(self).log@ == old(self).log@.push(
                    (ConnectionAttempt {
                        attempt_number: (old(self).attempts_made + 1) as u32,
                        outcome: AttemptOutcome::Success,
                        error_detail: None,
                    }),
                )
            },
            error is Some && old(self).attempts_made + 1 < config::MAX_ATTEMPTS ==> {
                &&& a matches ConnectAction::Retry { delay_ms } && delay_ms == retry_delay_spec(
                    old(self).attempts_made + 1,
                )
                &&& final(self).log@ == old(self).log@.push(
                    (ConnectionAttempt {
                        attempt_number: (old(self).attempts_made + 1) as u32,
                        outcome: AttemptOutcome::TransientFailure,
                        error_detail: Some(error.unwrap()),
                    }),
                )
            },
            error is Some && old(self).attempts_made + 1 == config::MAX_ATTEMPTS ==> {
                &&& a matches ConnectAction::Fatal { message } && message@
                    == exhausted_message_spec(error.unwrap())
                &&& final(self).log@ == old(self).log@.push(
                    (ConnectionAttempt {
                        attempt_number: (old(self).attempts_made + 1) as u32,
                        outcome: AttemptOutcome::FatalFailure,
                        error_detail: Some(error.unwrap()),
                    }),
                )
            },
    {
        let number: u32 = self.attempts_made + 1;
        self.attempts_made = number;
        match error {
            None => {
                self.succeeded = true;
                self.log.push(
                    ConnectionAttempt {
                        attempt_number: number,
                        outcome: AttemptOutcome::Success,
                        error_detail: None,
                    },
                );
                ConnectAction::Connected
            },
            Some(e) => {
                if number < config::MAX_ATTEMPTS {
                    let delay_ms: u64 = config::RETRY_BASE_MS * (number as u64);
                    self.log.push(
                        ConnectionAttempt {
                            attempt_number: number,
                            outcome: AttemptOutcome::TransientFailure,
                            error_detail: Some(e),
                        },
                    );
                    ConnectAction::Retry { delay_ms }
                } else {
                    self.exhausted = true;
                    let message = String::from_str("all connection attempts failed: ").concat(
                        e.describe().as_str(),
                    );
                    self.log.push(
                        ConnectionAttempt {
                            attempt_number: number,
                            outcome: AttemptOutcome::FatalFailure,
                            error_detail: Some(e),
                        },
                    );
                    ConnectAction::Fatal { message }
                }
            },
        }
    }

    /// The diagnostic record of every attempt so far, in order.
    pub fn attempt_log(&self) -> (r: &Vec<ConnectionAttempt>)
        ensures
            r@ == self.log@,
    {
        &self.log
    }
}

/// At most the configured number of attempts is ever made: the counter and
/// the log never pass the bound.
pub proof fn lemma_attempts_bounded(e: ConnectionEstablisher)
    requires
        e.wf(),
    ensures
        e.attempts_made <= config::MAX_ATTEMPTS,
        e.log@.len() <= config::MAX_ATTEMPTS,
{
}

/// Backoff delays are strictly increasing in the attempt number.
pub proof fn lemma_backoff_strictly_increasing(i: int, j: int)
    requires
        1 <= i < j,
    ensures
        retry_delay_spec(i) < retry_delay_spec(j),
{
}

/// A success is terminal and unique: it is the last recorded attempt,
/// every attempt before it failed transiently, and the sequence cannot be
/// exhausted as well. (That no attempt follows a success is forced by
/// `record_outcome`, which demands an in-progress establisher.)
pub proof fn lemma_success_is_last(e: ConnectionEstablisher)
    requires
        e.wf(),
        e.succeeded,
    ensures
        !e.exhausted,
        e.log@.len() >= 1,
        e.log@.last().outcome is Success,
        forall|i: int|
            0 <= i < e.log@.len() - 1 ==> (#[trigger] e.log@[i]).outcome is TransientFailure,
{
}

} // verus!
