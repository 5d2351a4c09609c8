//! The watcher of one control endpoint, as a state machine.
//!
//! The watcher blocks on the notification stream of the endpoint path. Each
//! event it reads is handed over as an [`Observation`], together with what
//! the watcher saw at that moment on the file system and in the flag it
//! shares with the owner of the endpoint. The state that comes back tells the
//! watcher whether to read on, to return, or to end the process.

use crate::fatal::FatalError;
use crate::notify::is_removal_kind;
use crate::notify::removal_kind;
use vstd::prelude::*;

verus! {

/// Where the watcher stands. It starts in `Watching`, and leaves it once.
#[derive(Clone, Copy, Debug, PartialEq, Eq, Structural)]
pub enum MonitorState {
    /// The endpoint is believed to be in place; the watcher reads on.
    Watching,
    /// The owner removed the endpoint; the watcher returns and can be joined.
    Done,
    /// The control channel is lost; the process exits with the status of the
    /// failure.
    Terminated(FatalError),
}

/// One notification, and what the watcher saw when it arrived.
#[derive(Clone, Copy, Debug, PartialEq, Eq, Structural)]
pub struct Observation {
    /// The event mask as the kernel delivered it.
    pub mask: u32,
    /// Whether the endpoint path still names an object on the file system.
    pub endpoint_present: bool,
    /// The value of the flag shared with the owner: whether the owner has
    /// asked for the removal of the endpoint.
    pub remove_requested: bool,
}

impl Observation {
    /// Whether this observation shows that the endpoint is gone: the event
    /// is of a removal kind and the path is absent. An attribute change that
    /// leaves the endpoint in place shows nothing.
    pub open spec fn shows_removal(self) -> bool {
        removal_kind(self.mask) && !self.endpoint_present
    }
}

impl MonitorState {
    /// The state after one observation.
    pub open spec fn after(self, seen: Observation) -> MonitorState {
        if self != MonitorState::Watching || !seen.shows_removal() {
            self
        } else if seen.remove_requested {
            MonitorState::Done
        } else {
            MonitorState::Terminated(FatalError::SocketRemoved)
        }
    }

    /// The state after a batch of observations, taken in order.
    pub open spec fn after_all(self, batch: Seq<Observation>) -> MonitorState
        decreases batch.len(),
    {
        if batch.len() == 0 {
            self
        } else {
            self.after_all(batch.drop_last()).after(batch.last())
        }
    }

    /// The state after a failed read of the notification stream.
    pub open spec fn after_read_failure(self) -> MonitorState {
        if self == MonitorState::Watching {
            MonitorState::Terminated(FatalError::NotifyReadFailed)
        } else {
            self
        }
    }

    /// Whether the watcher has to read on.
    pub open spec fn is_watching(self) -> bool {
        self == MonitorState::Watching
    }

    /// The state in which every watcher starts.
    pub fn start() -> (state: MonitorState)
        ensures
            state == MonitorState::Watching,
    {
        MonitorState::Watching
    }

    /// Tells whether the watcher has to read on.
    pub fn watching(self) -> (yes: bool)
        ensures
            yes == self.is_watching(),
    {
        match self {
            MonitorState::Watching => true,
            _ => false,
        }
    }

    /// Takes one notification into account.
    ///
    /// Only an event of a removal kind that finds the endpoint absent moves
    /// the watcher: to `Done` where the owner asked for the removal, and to
    /// `Terminated` where nobody did. A watcher that has left `Watching`
    /// stays where it is.
    pub fn on_event(self, seen: &Observation) -> (next: MonitorState)
        ensures
            next == self.after(*seen),
    {
        match self {
            MonitorState::Watching => {
                if is_removal_kind(seen.mask) && !seen.endpoint_present {
                    if seen.remove_requested {
                        MonitorState::Done
                    } else {
                        MonitorState::Terminated(FatalError::SocketRemoved)
                    }
                } else {
                    MonitorState::Watching
                }
            },
            _ => self,
        }
    }

    /// Takes one batch of notifications into account, in the order in which
    /// they were read.
    pub fn on_batch(self, batch: &Vec<Observation>) -> (next: MonitorState)
        ensures
            next == self.after_all(batch@),
    {
        let mut state = self;
        let mut i: usize = 0;
        while i < batch.len()
            invariant
                i <= batch.len(),
                state == self.after_all(batch@.take(i as int)),
            decreases batch.len() - i,
        {
            proof {
                assert(batch@.take(i + 1).drop_last() =~= batch@.take(i as int));
            }
            state = state.on_event(&batch[i]);
            i += 1;
        }
        proof {
            assert(batch@.take(i as int) =~= batch@);
        }
        state
    }

    /// Takes a failed read of the notification stream into account: a
    /// watcher that cannot read cannot watch, so it gives up at once.
    pub fn on_read_failure(self) -> (next: MonitorState)
        ensures
            next == self.after_read_failure(),
    {
        match self {
            MonitorState::Watching => MonitorState::Terminated(FatalError::NotifyReadFailed),
            _ => self,
        }
    }
}

/// An event that leaves the endpoint on the file system moves nothing,
/// whatever its kind and whatever the flag says. Neither does an event of
/// another kind.
pub proof fn no_false_positive(state: MonitorState, seen: Observation)
    requires
        seen.endpoint_present || !removal_kind(seen.mask),
    ensures
        state.after(seen) == state,
{
}

/// A batch in which no observation shows a removal leaves the watcher where
/// it was.
pub proof fn quiet_batch_keeps_state(state: MonitorState, batch: Seq<Observation>)
    requires
        forall|i: int| 0 <= i < batch.len() ==> !(#[trigger] batch[i]).shows_removal(),
    ensures
        state.after_all(batch) == state,
    decreases batch.len(),
{
    if batch.len() > 0 {
        quiet_batch_keeps_state(state, batch.drop_last());
    }
}

/// A removal that the owner did not ask for ends the process, with a status
/// that no other failure produces.
pub proof fn external_removal_is_fatal(seen: Observation, other: FatalError)
    requires
        seen.shows_removal(),
        !seen.remove_requested,
    ensures
        MonitorState::Watching.after(seen) == MonitorState::Terminated(FatalError::SocketRemoved),
        FatalError::SocketRemoved.status() != 0,
        other != FatalError::SocketRemoved ==> other.status()
            != FatalError::SocketRemoved.status(),
{
}

/// A removal that the owner asked for lets the watcher return.
pub proof fn requested_removal_is_graceful(seen: Observation)
    requires
        seen.shows_removal(),
        seen.remove_requested,
    ensures
        MonitorState::Watching.after(seen) == MonitorState::Done,
{
}

/// Once the watcher has left `Watching`, nothing it observes moves it again.
pub proof fn final_states_absorb(state: MonitorState, batch: Seq<Observation>)
    requires
        !state.is_watching(),
    ensures
        state.after_all(batch) == state,
        state.after_read_failure() == state,
    decreases batch.len(),
{
    if batch.len() > 0 {
        final_states_absorb(state, batch.drop_last());
    }
}

/// The first observation of a batch that shows a removal decides where the
/// watcher goes: what follows it in the batch changes nothing.
pub proof fn first_removal_decides(batch: Seq<Observation>, first: int)
    requires
        0 <= first < batch.len(),
        batch[first].shows_removal(),
        forall|i: int| 0 <= i < first ==> !(#[trigger] batch[i]).shows_removal(),
    ensures
        MonitorState::Watching.after_all(batch) == MonitorState::Watching.after(batch[first]),
    decreases batch.len(),
{
    let watching = MonitorState::Watching;
    if first == batch.len() - 1 {
        quiet_batch_keeps_state(watching, batch.drop_last());
    } else {
        first_removal_decides(batch.drop_last(), first);
    }
}

} // verus!
