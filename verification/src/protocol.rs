//! The readiness protocol as one machine: locate, wait, connect, publish.
//!
//! [`ReadinessProtocol`] strings the waiter, the establisher and the
//! registry together behind a single invariant: the handle is observable
//! exactly in the `Complete` phase, which is reached only through a
//! successful connection attempt. The driver performs the I/O the actions
//! ask for — sleeping, attempting the connection — and feeds back what it
//! observed.

use vstd::prelude::*;
use vstd::string::StringExecFns;
use crate::config;
use crate::establisher::ConnectAction;
use crate::establisher::ConnectionAttempt;
use crate::establisher::ConnectionEstablisher;
use crate::establisher::ErrorDetail;
use crate::establisher::exhausted_message_spec;
use crate::establisher::retry_delay_spec;
use crate::locator::StoragePath;
use crate::locator::db_file_path_spec;
use crate::reporter::HandleRegistry;
use crate::waiter::FileStatus;
use crate::waiter::ReadinessWaiter;
use crate::waiter::WaitAction;
use crate::waiter::waiter_step_spec;

verus! {

/// Where the whole protocol stands.
#[derive(Clone, Copy, PartialEq, Eq, Debug)]
pub enum ProtocolPhase {
    /// Waiting for the database file to appear.
    Polling,
    /// The file was observed; connection attempts are under way.
    Connecting,
    /// A connection succeeded and its handle is published.
    Complete,
    /// A fatal condition was reached; nothing was published.
    Failed,
}

/// Which fatal condition ended a failed run.
#[derive(Clone, Copy, PartialEq, Eq, Debug)]
pub enum FailureKind {
    /// The file never appeared within both wait windows.
    FileNotReadyTimeout,
    /// Every permitted connection attempt failed.
    ConnectionExhausted,
}

/// What the driver must do next.
#[derive(Clone, PartialEq, Eq, Debug)]
pub enum ProtocolAction {
    /// Suspend for the given duration, then observe the file and poll again.
    Wait { duration_ms: u64 },
    /// Attempt to open the connection now.
    Connect,
    /// Suspend for the given backoff delay, then attempt again.
    RetryConnect { delay_ms: u64 },
    /// The handle is published; the protocol is complete.
    Published,
    /// Fatal: terminate the process with this message.
    Abort { kind: FailureKind, message: String },
}

/// The message of the timeout abort: it names the expected file location.
pub open spec fn timeout_message_spec(db_path: Seq<char>) -> Seq<char> {
    "database file not found after both wait windows; expected location: "@ + db_path
}

/// The whole readiness protocol, driven by observations.
pub struct ReadinessProtocol<H> {
    /// The resolved storage directory, fixed at construction.
    pub storage: StoragePath,
    /// The full path of the database file, fixed at construction.
    pub db_path: String,
    /// The polling machine.
    pub waiter: ReadinessWaiter,
    /// The retry machine.
    pub establisher: ConnectionEstablisher,
    /// The publish-once slot for the handle. Its content is reachable
    /// only through [`HandleRegistry`]'s own interface.
    pub registry: HandleRegistry<H>,
    /// Where the protocol stands.
    pub phase: ProtocolPhase,
}

impl<H> ReadinessProtocol<H> {
    /// The published handle, or `None` while nothing has been published.
    pub open spec fn published_handle(self) -> Option<H> {
        self.registry.handle_spec()
    }

    /// Whether a handle has been published.
    pub open spec fn is_published(self) -> bool {
        self.published_handle() is Some
    }

    /// The protocol's invariant. Beyond the parts' own invariants it ties
    /// the phases together; above all, a handle is observable exactly in
    /// the `Complete` phase, which records a successful attempt.
    pub open spec fn wf(self) -> bool {
        &&& self.db_path@ == db_file_path_spec(self.storage.dir@)
        &&& self.waiter.wf()
        &&& self.establisher.wf()
        &&& (self.phase is Polling ==> self.waiter.in_progress()
            && self.establisher.in_progress() && self.establisher.attempts_made == 0)
        &&& (self.phase is Connecting ==> self.waiter.phase is Ready
            && self.establisher.in_progress())
        &&& (self.phase is Complete ==> self.waiter.phase is Ready
            && self.establisher.succeeded)
        &&& (self.phase is Failed ==> self.waiter.phase is TimedOut || self.establisher.exhausted)
        &&& (self.is_published() <==> self.phase is Complete)
    }

    /// Begin the protocol for a resolved storage directory. The database
    /// file's path is fixed here; polling starts at the first window.
    pub fn new(storage: StoragePath) -> (r: ReadinessProtocol<H>)
        ensures
            r.wf(),
            r.phase is Polling,
            r.storage == storage,
            r.db_path@ == db_file_path_spec(storage.dir@),
            r.waiter.phase is Start,
            r.establisher.attempts_made == 0,
            !r.is_published(),
    {
        let db_path = storage.database_file_path();
        ReadinessProtocol {
            storage,
            db_path,
            waiter: ReadinessWaiter::new(),
            establisher: ConnectionEstablisher::new(),
            registry: HandleRegistry::new(),
            phase: ProtocolPhase::Polling,
        }
    }

    /// Consume one observation of the database file while polling.
    ///
    /// The answer follows the waiter's schedule: the first window
    /// unconditionally, then `Connect` when the file is seen, the second
    /// window otherwise, and after both windows a fatal abort whose
    /// message names the expected path.
    pub fn poll_step(&mut self, status: &FileStatus) -> (a: ProtocolAction)
        requires
            old(self).wf(),
            old(self).phase is Polling,
        ensures
            final(self).wf(),
            final(self).storage == old(self).storage,
            final(self).db_path == old(self).db_path,
            final(self).establisher == old(self).establisher,
            !final(self).is_published(),
            ({
                let (wp, wa) = waiter_step_spec(old(self).waiter.phase, status.exists);
                &&& final(self).waiter.phase == wp
                &&& match wa {
                    WaitAction::Wait { duration_ms } => a == (ProtocolAction::Wait {
                        duration_ms,
                    }) && final(self).phase is Polling,
                    WaitAction::Proceed => a is Connect && final(self).phase is Connecting,
                    WaitAction::Abort => a matches ProtocolAction::Abort { kind, message }
                        && kind is FileNotReadyTimeout && message@ == timeout_message_spec(
                        old(self).db_path@,
                    ) && final(self).phase is Failed,
                }
            }),
    {
        let action = self.waiter.observe(status);
        match action {
            WaitAction::Wait { duration_ms } => ProtocolAction::Wait { duration_ms },
            WaitAction::Proceed => {
                self.phase = ProtocolPhase::Connecting;
                ProtocolAction::Connect
            },
            WaitAction::Abort => {
                self.phase = ProtocolPhase::Failed;
                let message = String::from_str(
                    "database file not found after both wait windows; expected location: ",
                ).concat(self.db_path.as_str());
                ProtocolAction::Abort { kind: FailureKind::FileNotReadyTimeout, message }
            },
        }
    }

    /// Consume the result of one connection attempt.
    ///
    /// A success publishes the handle — once, and only here — and
    /// completes the protocol. A failure is recorded with its detail and
    /// answered with a strictly increasing backoff delay while attempts
    /// remain, and with a fatal abort that renders the last error once
    /// they are exhausted.
    pub fn connect_step(&mut self, result: Result<H, ErrorDetail>) -> (a: ProtocolAction)
        requires
            old(self).wf(),
            old(self).phase is Connecting,
        ensures
            final(self).wf(),
            final(self).storage == old(self).storage,
            final(self).db_path == old(self).db_path,
            final(self).waiter == old(self).waiter,
            final(self).establisher.attempts_made == old(self).establisher.attempts_made + 1,
            result is Ok ==> {
                &&& a is Published
                &&& final(self).phase is Complete
                &&& final(self).published_handle() == Some(result->Ok_0)
                &&& final(self).establisher.succeeded
                &&& final(self).establisher.log@ == old(self).establisher.log@.push(
                    (ConnectionAttempt {
                        attempt_number: (old(self).establisher.attempts_made + 1) as u32,
                        outcome: crate::establisher::AttemptOutcome::Success,
                        error_detail: None,
                    }),
                )
            },
            result is Err && old(self).establisher.attempts_made + 1 < config::MAX_ATTEMPTS ==> {
                &&& a matches ProtocolAction::RetryConnect { delay_ms } && delay_ms
                    == retry_delay_spec(old(self).establisher.attempts_made + 1)
                &&& final(self).phase is Connecting
                &&& !final(self).is_published()
                &&& final(self).establisher.log@ == old(self).establisher.log@.push(
                    (ConnectionAttempt {
                        attempt_number: (old(self).establisher.attempts_made + 1) as u32,
                        outcome: crate::establisher::AttemptOutcome::TransientFailure,
                        error_detail: Some(result->Err_0),
                    }),
                )
            },
            result is Err && old(self).establisher.attempts_made + 1 == config::MAX_ATTEMPTS ==> {
                &&& a matches ProtocolAction::Abort { kind, message } && kind
                    is ConnectionExhausted && message@ == exhausted_message_spec(result->Err_0)
                &&& final(self).phase is Failed
                &&& !final(self).is_published()
                &&& final(self).establisher.log@ == old(self).establisher.log@.push(
                    (ConnectionAttempt {
                        attempt_number: (old(self).establisher.attempts_made + 1) as u32,
                        outcome: crate::establisher::AttemptOutcome::FatalFailure,
                        error_detail: Some(result->Err_0),
                    }),
                )
            },
    {
        match result {
            Ok(handle) => {
                let _ = self.establisher.record_outcome(None);
                self.registry.publish(handle);
                self.phase = ProtocolPhase::Complete;
                ProtocolAction::Published
            },
            Err(e) => {
                let action = self.establisher.record_outcome(Some(e));
                match action {
                    ConnectAction::Retry { delay_ms } => ProtocolAction::RetryConnect { delay_ms },
                    ConnectAction::Fatal { message } => {
                        self.phase = ProtocolPhase::Failed;
                        ProtocolAction::Abort { kind: FailureKind::ConnectionExhausted, message }
                    },
                    ConnectAction::Connected => {
                        assert(false);
                        ProtocolAction::Connect
                    },
                }
            },
        }
    }

    /// The published handle, or `None` until the protocol completes.
    pub fn handle(&self) -> (r: Option<&H>)
        requires
            self.wf(),
        ensures
            r is Some <==> self.phase is Complete,
            r matches Some(h) ==> Some(*h) == self.published_handle(),
    {
        self.registry.try_get()
    }

    /// The diagnostic record of every connection attempt so far, in order.
    pub fn attempt_log(&self) -> (r: &Vec<ConnectionAttempt>)
        ensures
            r@ == self.establisher.log@,
    {
        self.establisher.attempt_log()
    }
}

/// No connection is ever attempted — let alone completed — before at
/// least one wait window has elapsed: the connecting and complete phases
/// presuppose a ready waiter, and a waiter becomes ready only after a
/// window.
pub proof fn lemma_no_connection_before_first_window<H>(p: ReadinessProtocol<H>)
    requires
        p.wf(),
        p.phase is Connecting || p.phase is Complete,
    ensures
        p.waiter.windows_waited >= 1,
{
}

/// A handle is observable exactly in the `Complete` phase: a consumer can
/// never see process-wide state holding the handle before the establisher
/// reports success, and a completed run holds exactly one successful,
/// final attempt.
pub proof fn lemma_handle_only_after_success<H>(p: ReadinessProtocol<H>)
    requires
        p.wf(),
    ensures
        p.is_published() <==> p.phase is Complete,
        p.is_published() ==> {
            &&& p.establisher.succeeded
            &&& p.establisher.log@.len() >= 1
            &&& p.establisher.log@.last().outcome is Success
            &&& forall|i: int|
                0 <= i < p.establisher.log@.len() - 1 ==> (#[trigger] p.establisher.log@[i]).outcome
                    is TransientFailure
        },
{
}

} // verus!
