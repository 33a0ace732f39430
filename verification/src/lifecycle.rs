//! The observer lifecycle state machine.
//!
//! One observation session moves `NotStarted -> Running -> Stopped`, with
//! `Stopped` terminal.  `start` fails fast, before any resource would be
//! allocated, on a zero pid or missing OS consent; `stop` is idempotent at
//! the API level, answering `AlreadyStopped` the second time; and the native
//! observation handle is released exactly once, whether teardown happens
//! through `stop` or through the destructor path (`teardown`).
//!
//! The unverified rim owns the real native handle and the delivery thread;
//! it consults this state machine before every transition and performs the
//! spawn, the registration, and the release only when a transition here
//! answered `Ok`.

use vstd::prelude::*;

use crate::Error;

verus! {

/// The phase of one observation session.
#[derive(Clone, Copy, Debug, PartialEq, Eq, Structural)]
pub enum SessionPhase {
    /// The session was created but not started.
    NotStarted,
    /// The session is running: the native handle exists and the delivery
    /// thread is live.
    Running,
    /// The session was stopped.  Terminal.
    Stopped,
}

/// The verified skeleton of one window-observation session.
///
/// `native_releases` counts how often the native observation handle was
/// released; a well-formed session has released it exactly once when and
/// only when it is `Stopped`.
#[derive(Clone, Copy, Debug, PartialEq, Eq, Structural)]
pub struct WindowObserver {
    /// Where the session stands in its lifecycle.
    pub phase: SessionPhase,
    /// How many times the native observation handle was released.
    pub native_releases: u64,
}

impl WindowObserver {
    /// The session invariant: the native handle is released exactly once,
    /// exactly when the session is stopped.
    pub open spec fn wf(self) -> bool {
        self.native_releases == if self.phase is Stopped {
            1u64
        } else {
            0u64
        }
    }

    /// What `start` answers for the given session state and inputs, checked
    /// in this order: lifecycle misuse, then pid validity, then OS consent.
    pub open spec fn start_outcome(self, pid: u32, permission_granted: bool) -> Result<
        (),
        Error,
    > {
        if !(self.phase is NotStarted) {
            Err(Error::AlreadyStarted)
        } else if pid == 0 {
            Err(Error::InvalidProcessId(pid))
        } else if !permission_granted {
            Err(Error::PermissionDenied)
        } else {
            Ok(())
        }
    }

    /// What `stop` answers: `Ok` exactly on a running session.
    pub open spec fn stop_outcome(self) -> Result<(), Error> {
        if self.phase is Running {
            Ok(())
        } else {
            Err(Error::AlreadyStopped)
        }
    }

    /// Creates a session that was not yet started.
    pub fn new() -> (r: Self)
        ensures
            r.phase is NotStarted,
            r.native_releases == 0,
            r.wf(),
    {
        WindowObserver { phase: SessionPhase::NotStarted, native_releases: 0 }
    }

    /// Starts the session for the process `pid`.
    ///
    /// `permission_granted` is the answer of the platform's consent query
    /// (always granted on platforms that require none).  The checks run
    /// synchronously, before any thread or native handle would be allocated:
    /// on `Err` the session is unchanged and still holds no native handle.
    pub fn start(&mut self, pid: u32, permission_granted: bool) -> (r: Result<(), Error>)
        requires
            old(self).wf(),
        ensures
            final(self).wf(),
            r == old(self).start_outcome(pid, permission_granted),
            r is Ok ==> *final(self) == (WindowObserver {
                phase: SessionPhase::Running,
                ..*old(self)
            }),
            r is Err ==> *final(self) == *old(self),
    {
        match self.phase {
            SessionPhase::NotStarted => {
                if pid == 0 {
                    Err(Error::InvalidProcessId(pid))
                } else if !permission_granted {
                    Err(Error::PermissionDenied)
                } else {
                    self.phase = SessionPhase::Running;
                    Ok(())
                }
            },
            _ => Err(Error::AlreadyStarted),
        }
    }

    /// Stops the session.
    ///
    /// The first call on a running session answers `Ok` and releases the
    /// native handle; any later call answers `AlreadyStopped` and releases
    /// nothing.
    pub fn stop(&mut self) -> (r: Result<(), Error>)
        requires
            old(self).wf(),
        ensures
            final(self).wf(),
            r == old(self).stop_outcome(),
            r is Ok ==> final(self).phase is Stopped
                && final(self).native_releases == old(self).native_releases + 1,
            r is Err ==> *final(self) == *old(self),
    {
        match self.phase {
            SessionPhase::Running => {
                self.phase = SessionPhase::Stopped;
                self.native_releases = self.native_releases + 1;
                Ok(())
            },
            _ => Err(Error::AlreadyStopped),
        }
    }

    /// The destructor path: tears a still-running session down, and does
    /// nothing on any other session, so the native handle can never be
    /// released twice no matter how `stop` and destruction interleave.
    pub fn teardown(&mut self)
        requires
            old(self).wf(),
        ensures
            final(self).wf(),
            old(self).phase is Running ==> final(self).phase is Stopped
                && final(self).native_releases == old(self).native_releases + 1,
            !(old(self).phase is Running) ==> *final(self) == *old(self),
    {
        if let SessionPhase::Running = self.phase {
            self.phase = SessionPhase::Stopped;
            self.native_releases = self.native_releases + 1;
        }
    }

    /// Where the session stands in its lifecycle.
    pub fn current_phase(&self) -> (r: SessionPhase)
        ensures
            r == self.phase,
    {
        self.phase
    }
}

/// Stopping twice answers `Ok` the first time and `AlreadyStopped` the
/// second, and the native handle of a running session is released exactly
/// once.  Stated over the lifecycle's outcome functions: after a successful
/// stop the session is `Stopped`, and `stop_outcome` of any stopped session
/// is `AlreadyStopped`.
pub proof fn lemma_stop_idempotent(s: WindowObserver)
    requires
        s.wf(),
        s.phase is Running,
    ensures
        s.stop_outcome() == Ok::<(), Error>(()),
        (WindowObserver { phase: SessionPhase::Stopped, native_releases: 1 }).stop_outcome()
            == Err::<(), Error>(Error::AlreadyStopped),
        (WindowObserver { phase: SessionPhase::Stopped, native_releases: 1 }).wf(),
{
}

/// Starting on pid 0 is answered with `InvalidProcessId` whenever the
/// session is not already running, regardless of consent: no thread is
/// spawned and no native handle is created, since the caller allocates only
/// on `Ok`.
pub proof fn lemma_start_rejects_zero_pid(s: WindowObserver, permission_granted: bool)
    requires
        s.wf(),
        s.phase is NotStarted,
    ensures
        s.start_outcome(0, permission_granted) == Err::<(), Error>(Error::InvalidProcessId(0)),
{
}

} // verus!
