//! The heartbeat task: it tells the coordinator at a fixed interval that
//! the contributor is alive, until it is stopped from outside.

use crate::rest::FailureKind;
use vstd::prelude::*;

verus! {

/// The state of the heartbeat task.
#[derive(Clone, Copy, Debug, PartialEq, Eq, Structural)]
pub enum Heartbeat {
    /// The task announces liveness at every interval.
    Running,
    /// The task was stopped from outside.
    Cancelled,
    /// A heartbeat failed, which ended the task.
    Failed(FailureKind),
}

/// What the heartbeat task does next.
#[derive(Clone, Copy, Debug, PartialEq, Eq, Structural)]
pub enum Beat {
    /// Wait for the interval, then announce liveness again.
    Again,
    /// Announce nothing more.
    Stop,
}

impl Heartbeat {
    /// The state after a cancellation: a running task is cancelled, any
    /// other stays as it is.
    pub open spec fn cancelled(self) -> Heartbeat {
        if self == Heartbeat::Running {
            Heartbeat::Cancelled
        } else {
            self
        }
    }

    /// The state after a heartbeat was answered: a failure ends a running
    /// task, and nothing changes a task that is not running.
    pub open spec fn answered(self, outcome: Result<(), FailureKind>) -> Heartbeat {
        match (self, outcome) {
            (Heartbeat::Running, Err(kind)) => Heartbeat::Failed(kind),
            _ => self,
        }
    }

    /// The task as it is spawned.
    pub fn new() -> (task: Heartbeat)
        ensures
            task == Heartbeat::Running,
    {
        Heartbeat::Running
    }

    /// Whether the task announces liveness.
    pub fn is_running(&self) -> (running: bool)
        ensures
            running == (*self == Heartbeat::Running),
    {
        match self {
            Heartbeat::Running => true,
            _ => false,
        }
    }

    /// Stops the task. Says whether this call stopped it: cancelling a task
    /// that is not running changes nothing and is no error.
    pub fn cancel(&mut self) -> (stopped: bool)
        ensures
            *final(self) == old(self).cancelled(),
            stopped == (*old(self) == Heartbeat::Running),
    {
        match self {
            Heartbeat::Running => {
                *self = Heartbeat::Cancelled;
                true
            },
            _ => false,
        }
    }

    /// Takes the answer to a heartbeat and says what the task does next: it
    /// goes on while it runs and the heartbeat got through.
    pub fn beat(&mut self, outcome: Result<(), FailureKind>) -> (next: Beat)
        ensures
            *final(self) == old(self).answered(outcome),
            next == if *final(self) == Heartbeat::Running {
                Beat::Again
            } else {
                Beat::Stop
            },
    {
        match self {
            Heartbeat::Running => match outcome {
                Ok(_) => Beat::Again,
                Err(kind) => {
                    *self = Heartbeat::Failed(kind);
                    Beat::Stop
                },
            },
            _ => Beat::Stop,
        }
    }
}

/// Cancelling twice is cancelling once: the second call finds a task that
/// is not running and leaves it as it is.
pub proof fn lemma_cancel_is_idempotent(task: Heartbeat)
    ensures
        task.cancelled().cancelled() == task.cancelled(),
        task.cancelled() != Heartbeat::Running,
{
}

/// A cancelled task stays cancelled whatever is answered to a heartbeat
/// that was still under way.
pub proof fn lemma_cancelled_stays(task: Heartbeat, outcome: Result<(), FailureKind>)
    requires
        task == Heartbeat::Cancelled,
    ensures
        task.answered(outcome) == Heartbeat::Cancelled,
{
}

} // verus!
