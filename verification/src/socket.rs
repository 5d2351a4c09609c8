//! The owner's side of a control endpoint.
//!
//! An [`EnclaveProcSock`] records where the endpoint of one enclave lives,
//! whether a watcher runs for it, and whether the owner has asked for its
//! removal. It decides what has to happen and in which order; its caller
//! registers the watch, raises the shared flag, unlinks the path and joins
//! the watcher, and reports back what came of it.
//!
//! The watcher gets a [`SocketObserver`]: the path, and nothing that it
//! could close or that could go stale. The flag is one cell that the owner
//! writes and the watcher reads; what the watcher read comes in with each
//! [`crate::monitor::Observation`].

use crate::fatal::FatalError;
use crate::monitor::MonitorState;
use crate::monitor::Observation;
use crate::path::get_socket_path;
use crate::path::socket_path_of;
use crate::path::well_formed_id;
use vstd::prelude::*;
use vstd::string::*;

verus! {

/// Why an operation on the endpoint was refused. The endpoint is as it was.
#[derive(Clone, Copy, Debug, PartialEq, Eq, Structural)]
pub enum SocketError {
    /// The enclave identifier names no endpoint.
    MalformedId,
    /// The watch on the endpoint could not be set up; the operating system
    /// gave this error number. The endpoint has to be bound first.
    WatchFailed(i32),
    /// A watcher runs already, and an endpoint has one watcher at most.
    AlreadyMonitoring,
    /// The owner has closed the endpoint: under the raised flag a watcher
    /// would take every removal for one that the owner asked for.
    Closed,
}

/// One step of closing the endpoint.
#[derive(Clone, Copy, Debug, PartialEq, Eq, Structural)]
pub enum CloseAction {
    /// Store `true` in the flag that the watcher reads, so that every later
    /// read of the watcher sees it.
    RaiseFlag,
    /// Unlink the endpoint path.
    Unlink,
    /// Wait until the watcher has returned.
    Join,
}

impl CloseAction {
    /// What it means that this step failed. Raising the flag cannot fail.
    pub open spec fn failure_of(self) -> Option<FatalError> {
        match self {
            CloseAction::RaiseFlag => None,
            CloseAction::Unlink => Some(FatalError::UnlinkFailed),
            CloseAction::Join => Some(FatalError::JoinFailed),
        }
    }

    /// Names the failure to exit with where this step could not be carried
    /// out: an endpoint that cannot be closed is never passed over.
    pub fn failure(self) -> (fatal: Option<FatalError>)
        ensures
            fatal == self.failure_of(),
    {
        match self {
            CloseAction::RaiseFlag => None,
            CloseAction::Unlink => Some(FatalError::UnlinkFailed),
            CloseAction::Join => Some(FatalError::JoinFailed),
        }
    }
}

/// What an [`EnclaveProcSock`] stands for.
pub ghost struct SockView {
    /// The endpoint path.
    pub path: Seq<char>,
    /// Whether a watcher runs for the endpoint.
    pub monitoring: bool,
    /// Whether the owner has asked for the removal of the endpoint.
    pub remove_requested: bool,
}

impl SockView {
    /// A fresh endpoint record: no watcher, no removal asked for.
    pub open spec fn created(path: Seq<char>) -> SockView {
        SockView { path, monitoring: false, remove_requested: false }
    }

    /// What holds of every record: while a watcher runs, no removal has
    /// been asked for.
    pub open spec fn wf(self) -> bool {
        self.monitoring ==> !self.remove_requested
    }

    /// The answer to a request to start the watcher, given what came of
    /// registering the watch.
    pub open spec fn start_outcome(self, watch: Result<(), i32>) -> Result<(), SocketError> {
        if self.remove_requested {
            Err(SocketError::Closed)
        } else if self.monitoring {
            Err(SocketError::AlreadyMonitoring)
        } else {
            match watch {
                Ok(_) => Ok(()),
                Err(errno) => Err(SocketError::WatchFailed(errno)),
            }
        }
    }

    /// The record after a request to start the watcher.
    pub open spec fn started(self, watch: Result<(), i32>) -> SockView {
        if self.start_outcome(watch) is Ok {
            SockView { monitoring: true, ..self }
        } else {
            self
        }
    }

    /// The steps that close the endpoint, in the order in which they are
    /// due: the flag first, then the unlink if the endpoint is present, then
    /// the join if a watcher runs.
    pub open spec fn close_plan(self, endpoint_present: bool) -> Seq<CloseAction> {
        seq![CloseAction::RaiseFlag] + (if endpoint_present {
            seq![CloseAction::Unlink]
        } else {
            Seq::<CloseAction>::empty()
        }) + (if self.monitoring {
            seq![CloseAction::Join]
        } else {
            Seq::<CloseAction>::empty()
        })
    }

    /// The record after the owner has closed the endpoint.
    pub open spec fn closed(self) -> SockView {
        SockView { monitoring: false, remove_requested: true, ..self }
    }
}

/// What a watcher holds of a control endpoint: where it lives.
///
/// An observer owns no watcher and cannot close the endpoint, and it keeps
/// no flag: whether the owner has asked for the removal is read from the
/// shared cell each time an event arrives.
#[derive(Debug)]
pub struct SocketObserver {
    socket_path: String,
}

impl View for SocketObserver {
    type V = Seq<char>;

    closed spec fn view(&self) -> Seq<char> {
        self.socket_path@
    }
}

impl SocketObserver {
    /// Returns the endpoint path.
    pub fn get_path(&self) -> (path: &str)
        ensures
            path@ == self@,
    {
        self.socket_path.as_str()
    }
}

/// The control endpoint of one enclave process, as its owner sees it.
#[derive(Debug)]
pub struct EnclaveProcSock {
    socket_path: String,
    monitoring: bool,
    requested_remove: bool,
}

impl View for EnclaveProcSock {
    type V = SockView;

    closed spec fn view(&self) -> SockView {
        SockView {
            path: self.socket_path@,
            monitoring: self.monitoring,
            remove_requested: self.requested_remove,
        }
    }
}

impl EnclaveProcSock {
    #[verifier::type_invariant]
    closed spec fn watcher_sees_flag_down(&self) -> bool {
        self@.wf()
    }

    /// Makes the record of the endpoint of `enclave_id`. Nothing is created
    /// on the file system: binding the endpoint is left to the listener.
    pub fn new(enclave_id: &str) -> (made: Result<Self, SocketError>)
        ensures
            made is Ok <==> well_formed_id(enclave_id@),
            made is Ok ==> made->Ok_0@ == SockView::created(socket_path_of(enclave_id@)),
            made is Err ==> made->Err_0 == SocketError::MalformedId,
    {
        match get_socket_path(enclave_id) {
            Some(socket_path) => Ok(
                EnclaveProcSock { socket_path, monitoring: false, requested_remove: false },
            ),
            None => Err(SocketError::MalformedId),
        }
    }

    /// Returns the endpoint path.
    pub fn get_path(&self) -> (path: &str)
        ensures
            path@ == self@.path,
    {
        self.socket_path.as_str()
    }

    /// Moves the record to another path. Watcher and flag stay as they are.
    pub fn set_path(&mut self, socket_path: String)
        ensures
            final(self)@ == (SockView { path: socket_path@, ..old(self)@ }),
            final(self)@.wf(),
    {
        proof {
            use_type_invariant(&*self);
        }
        self.socket_path = socket_path;
    }

    /// Tells whether a watcher runs for the endpoint.
    pub fn is_monitoring(&self) -> (yes: bool)
        ensures
            yes == self@.monitoring,
            self@.wf(),
    {
        proof {
            use_type_invariant(self);
        }
        self.monitoring
    }

    /// Tells whether the owner has asked for the removal of the endpoint.
    pub fn remove_requested(&self) -> (yes: bool)
        ensures
            yes == self@.remove_requested,
            self@.wf(),
    {
        proof {
            use_type_invariant(self);
        }
        self.requested_remove
    }

    /// Makes what a watcher of this endpoint holds: the path. The watcher
    /// itself and the flag stay with the owner, which is unchanged.
    pub fn observer(&self) -> (watcher: SocketObserver)
        ensures
            watcher@ == self@.path,
    {
        SocketObserver { socket_path: self.socket_path.clone() }
    }

    /// Records that the watcher runs, given what came of registering the
    /// watch on the endpoint path under [`crate::notify::watch_mask`].
    ///
    /// Refused where the endpoint is closed or a watcher runs already,
    /// whatever `watch` says, and where the watch could not be registered.
    /// On `Ok` the caller starts the watcher; on `Err` it must not.
    pub fn start_monitoring(&mut self, watch: Result<(), i32>) -> (started: Result<
        (),
        SocketError,
    >)
        ensures
            started == old(self)@.start_outcome(watch),
            final(self)@ == old(self)@.started(watch),
            final(self)@.wf(),
    {
        proof {
            use_type_invariant(&*self);
        }
        if self.requested_remove {
            return Err(SocketError::Closed);
        }
        if self.monitoring {
            return Err(SocketError::AlreadyMonitoring);
        }
        match watch {
            Ok(_) => {
                self.monitoring = true;
                Ok(())
            },
            Err(errno) => Err(SocketError::WatchFailed(errno)),
        }
    }

    /// Closes the endpoint: records that its removal was asked for and that
    /// no watcher is left, and returns the steps that the caller has to
    /// carry out, in this order. `endpoint_present` says whether the path
    /// still names an object on the file system.
    ///
    /// A step that fails ends the process: see [`CloseAction::failure`].
    pub fn close_mut(&mut self, endpoint_present: bool) -> (plan: Vec<CloseAction>)
        ensures
            plan@ == old(self)@.close_plan(endpoint_present),
            final(self)@ == old(self)@.closed(),
            final(self)@.wf(),
    {
        let watched = self.monitoring;
        self.monitoring = false;
        self.requested_remove = true;
        let mut plan: Vec<CloseAction> = Vec::new();
        plan.push(CloseAction::RaiseFlag);
        if endpoint_present {
            plan.push(CloseAction::Unlink);
        }
        if watched {
            plan.push(CloseAction::Join);
        }
        proof {
            assert(plan@ =~= old(self)@.close_plan(endpoint_present));
        }
        plan
    }

    /// Closes the endpoint and gives the record up. The steps are those of
    /// [`EnclaveProcSock::close_mut`].
    pub fn close(self, endpoint_present: bool) -> (plan: Vec<CloseAction>)
        ensures
            plan@ == self@.close_plan(endpoint_present),
    {
        let mut sock = self;
        sock.close_mut(endpoint_present)
    }
}

impl Default for EnclaveProcSock {
    /// A record with an empty path, no watcher and no removal asked for.
    fn default() -> (made: Self)
        ensures
            made@ == SockView::created(Seq::<char>::empty()),
    {
        EnclaveProcSock { socket_path: String::new(), monitoring: false, requested_remove: false }
    }
}

/// In every plan the flag is raised before the path is unlinked, and the
/// watcher is joined last: a watcher that sees the path vanish because of
/// this plan finds the flag raised.
pub proof fn flag_is_raised_before_unlink(sock: SockView, endpoint_present: bool)
    ensures
        ({
            let plan = sock.close_plan(endpoint_present);
            &&& plan.len() >= 1
            &&& plan[0] == CloseAction::RaiseFlag
            &&& forall|i: int| 1 <= i < plan.len() ==> plan[i] != CloseAction::RaiseFlag
            &&& forall|i: int, j: int|
                0 <= i < plan.len() && 0 <= j < plan.len() && plan[i] == CloseAction::Unlink
                    && plan[j] == CloseAction::Join ==> i < j
            &&& plan.contains(CloseAction::Unlink) <==> endpoint_present
            &&& plan.contains(CloseAction::Join) <==> sock.monitoring
        }),
{
    let plan = sock.close_plan(endpoint_present);
    if endpoint_present {
        assert(plan[1] == CloseAction::Unlink);
    }
    if sock.monitoring {
        assert(plan.last() == CloseAction::Join);
    }
}

/// Create, start the watcher, close: the flag is raised, no watcher is left,
/// the plan unlinks the endpoint if it is there and joins the watcher, and
/// the watcher, when it sees the endpoint vanish under the raised flag,
/// returns instead of ending the process.
pub proof fn close_after_start_is_graceful(
    path: Seq<char>,
    endpoint_present: bool,
    seen: Observation,
)
    requires
        seen.shows_removal(),
        seen.remove_requested == SockView::created(path).started(Ok(())).closed().remove_requested,
    ensures
        ({
            let created = SockView::created(path);
            let watched = created.started(Ok(()));
            let plan = watched.close_plan(endpoint_present);
            let closed = watched.closed();
            &&& created.start_outcome(Ok(())) is Ok
            &&& watched.monitoring && !watched.remove_requested
            &&& closed.remove_requested
            &&& closed.monitoring == created.monitoring
            &&& closed.path == path
            &&& plan.first() == CloseAction::RaiseFlag
            &&& plan.last() == CloseAction::Join
            &&& plan.contains(CloseAction::Unlink) <==> endpoint_present
            &&& MonitorState::Watching.after(seen) == MonitorState::Done
        }),
{
    let watched = SockView::created(path).started(Ok(()));
    flag_is_raised_before_unlink(watched, endpoint_present);
}

/// While a watcher runs the flag is down. So whenever the endpoint vanishes
/// under a running watcher, by anything but a close of its owner, the
/// watcher finds the flag down and ends the process, with a status that no
/// other failure has.
pub proof fn removal_while_monitoring_is_external(
    sock: SockView,
    seen: Observation,
    other: FatalError,
)
    requires
        sock.wf(),
        sock.monitoring,
        seen.shows_removal(),
        seen.remove_requested == sock.remove_requested,
    ensures
        !sock.remove_requested,
        MonitorState::Watching.after(seen) == MonitorState::Terminated(FatalError::SocketRemoved),
        FatalError::SocketRemoved.status() != 0,
        other != FatalError::SocketRemoved ==> other.status()
            != FatalError::SocketRemoved.status(),
{
}

/// Nothing that is done with a record lets a watcher run under a raised
/// flag.
pub proof fn record_stays_well_formed(
    sock: SockView,
    path: Seq<char>,
    watch: Result<(), i32>,
)
    requires
        sock.wf(),
    ensures
        SockView::created(path).wf(),
        sock.started(watch).wf(),
        sock.closed().wf(),
        (SockView { path, ..sock }).wf(),
{
}

} // verus!
