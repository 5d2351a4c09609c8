//! Failures after which the process must not go on.

use vstd::prelude::*;
use vstd::string::*;

verus! {

/// An integrity failure. None of them can be recovered from: the process logs
/// a warning and exits with [`FatalError::exit_status`].
#[derive(Clone, Copy, Debug, PartialEq, Eq, Structural)]
pub enum FatalError {
    /// The control endpoint vanished although its owner never asked for that.
    SocketRemoved,
    /// The notification stream of the watcher could not be read.
    NotifyReadFailed,
    /// The owner could not unlink an endpoint that is still present.
    UnlinkFailed,
    /// The owner could not join its watcher.
    JoinFailed,
    /// The descriptor of an enclave slot could not be closed.
    ReleaseFailed,
}

impl FatalError {
    /// The process exit status that stands for this failure.
    pub open spec fn status(self) -> i32 {
        match self {
            FatalError::SocketRemoved => 1i32,
            FatalError::NotifyReadFailed => 2i32,
            FatalError::UnlinkFailed => 3i32,
            FatalError::JoinFailed => 4i32,
            FatalError::ReleaseFailed => 5i32,
        }
    }

    /// The warning that is logged before the process exits.
    pub open spec fn text(self) -> Seq<char> {
        match self {
            FatalError::SocketRemoved => "The enclave process socket has been deleted!"@,
            FatalError::NotifyReadFailed => "Failed to read inotify events."@,
            FatalError::UnlinkFailed => "Failed to remove socket."@,
            FatalError::JoinFailed => "Failed to join socket notification thread."@,
            FatalError::ReleaseFailed => "Could not close enclave descriptor."@,
        }
    }

    /// Says in words what happened, for the log.
    pub fn message(self) -> (text: String)
        ensures
            text@ == self.text(),
    {
        match self {
            FatalError::SocketRemoved => String::from_str(
                "The enclave process socket has been deleted!",
            ),
            FatalError::NotifyReadFailed => String::from_str("Failed to read inotify events."),
            FatalError::UnlinkFailed => String::from_str("Failed to remove socket."),
            FatalError::JoinFailed => String::from_str(
                "Failed to join socket notification thread.",
            ),
            FatalError::ReleaseFailed => String::from_str("Could not close enclave descriptor."),
        }
    }

    /// Returns the process exit status that stands for this failure.
    pub fn exit_status(self) -> (code: i32)
        ensures
            code == self.status(),
    {
        match self {
            FatalError::SocketRemoved => 1,
            FatalError::NotifyReadFailed => 2,
            FatalError::UnlinkFailed => 3,
            FatalError::JoinFailed => 4,
            FatalError::ReleaseFailed => 5,
        }
    }
}

/// Every failure has a status of its own, and none of them is the status of
/// a normal exit: a supervisor can tell from the status alone what happened.
pub proof fn exit_status_is_distinguished(a: FatalError, b: FatalError)
    ensures
        a.status() != 0,
        a.status() == b.status() ==> a == b,
{
}

} // verus!
