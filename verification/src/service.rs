//! How the service starts, what it does with whatever wakes it, and how it ends.

use crate::client::ClientHandle;
use crate::laws::runs::ends;
use crate::manager::free_handle;
use crate::message::{Effect, FrontendEvent, FrontendRequest};
use crate::model::ServerView;
use crate::server::Server;
use hickory_resolver::error::ResolveError;
use std::io;
use vstd::prelude::*;
use vstd::std_specs::convert::FromSpecImpl;

verus! {

/// An error of the name resolver, `hickory_resolver::error::ResolveError`. Nothing is
/// claimed of it.
#[verifier::external_type_specification]
#[verifier::external_body]
pub struct ExResolveError(hickory_resolver::error::ResolveError);

/// An error of the operating system, `std::io::Error`. Nothing is claimed of it.
#[verifier::external_type_specification]
#[verifier::external_body]
pub struct ExIoError(std::io::Error);

/// Why no frontend can connect.
#[derive(Debug)]
pub enum ListenerCreationError {
    /// Another instance of the service is listening already.
    AlreadyRunning,
    /// The listener could not be set up, with the reason.
    Failed(String),
}

/// Why the service cannot run.
#[derive(Debug)]
pub enum ServiceError {
    /// The resolver could not be set up.
    Dns(ResolveError),
    /// The listener for the frontends could not be set up.
    Listen(ListenerCreationError),
    /// The network could not be set up.
    Io(io::Error),
}

impl From<ResolveError> for ServiceError {
    fn from(error: ResolveError) -> (service_error: ServiceError) {
        ServiceError::Dns(error)
    }
}

impl FromSpecImpl<ResolveError> for ServiceError {
    open spec fn obeys_from_spec() -> bool {
        true
    }

    open spec fn from_spec(error: ResolveError) -> ServiceError {
        ServiceError::Dns(error)
    }
}

impl From<ListenerCreationError> for ServiceError {
    fn from(error: ListenerCreationError) -> (service_error: ServiceError) {
        ServiceError::Listen(error)
    }
}

impl FromSpecImpl<ListenerCreationError> for ServiceError {
    open spec fn obeys_from_spec() -> bool {
        true
    }

    open spec fn from_spec(error: ListenerCreationError) -> ServiceError {
        ServiceError::Listen(error)
    }
}

impl From<io::Error> for ServiceError {
    fn from(error: io::Error) -> (service_error: ServiceError) {
        ServiceError::Io(error)
    }
}

impl FromSpecImpl<io::Error> for ServiceError {
    open spec fn obeys_from_spec() -> bool {
        true
    }

    open spec fn from_spec(error: io::Error) -> ServiceError {
        ServiceError::Io(error)
    }
}

/// How the service goes on once the listener for the frontends was set up, or was not.
pub open spec fn after_listening<L>(result: Result<L, ListenerCreationError>) -> Result<
    Option<L>,
    ServiceError,
> {
    match result {
        Ok(listener) => Ok(Some(listener)),
        Err(ListenerCreationError::AlreadyRunning) => Ok(None),
        Err(error) => Err(ServiceError::Listen(error)),
    }
}

/// Decides how to go on once the listener for the frontends was set up, or was not:
/// with the listener, without an error but not at all if another instance is running,
/// or with an error.
pub fn listener_created<L>(result: Result<L, ListenerCreationError>) -> (next: Result<
    Option<L>,
    ServiceError,
>)
    ensures
        next == after_listening(result),
        match result {
            Ok(listener) => next == Ok::<Option<L>, ServiceError>(Some(listener)),
            Err(ListenerCreationError::AlreadyRunning) => next == Ok::<Option<L>, ServiceError>(None),
            Err(error) => next == Err::<Option<L>, ServiceError>(ServiceError::Listen(error)),
        },
{
    match result {
        Ok(listener) => Ok(Some(listener)),
        Err(ListenerCreationError::AlreadyRunning) => Ok(None),
        Err(error) => Err(ServiceError::from(error)),
    }
}

/// What wakes the service.
#[derive(Debug)]
pub enum Wakeup {
    /// A frontend sent a request.
    Request(FrontendRequest),
    /// A frontend sent something that is no request.
    RequestFailed,
    /// No frontend can send requests any more.
    FrontendClosed,
    /// There is something to tell the frontends.
    FrontendEventPending,
    /// The frontends were told what was to be told last.
    Told,
    /// The service was told to end.
    Cancelled,
    /// The user interrupted the service.
    Interrupted,
}

/// What the service does next.
#[derive(Debug)]
pub enum Next {
    /// Wait to be woken.
    Wait,
    /// Tell this to the frontends, and go on with [`Wakeup::Told`].
    Tell(FrontendEvent),
    /// Wait for the other tasks to end, and end.
    End,
}

/// The service after it went on from a wakeup.
pub open spec fn after_wakeup(s: ServerView, wakeup: Wakeup) -> ServerView {
    match wakeup {
        Wakeup::Request(request) => s.handle_request(request@),
        Wakeup::RequestFailed => s,
        Wakeup::FrontendEventPending | Wakeup::Told => s.tell(),
        Wakeup::FrontendClosed | Wakeup::Cancelled | Wakeup::Interrupted => s.cancel(),
    }
}

impl Server {
    /// Has the names of all active clients looked up.
    pub fn resolve_active(&mut self)
        ensures
            final(self)@ == old(self)@.resolve_active(),
    {
        let handles = self.active_clients();
        let ghost f = |h: ClientHandle| Effect::ResolveDns(h);
        for i in 0..handles.len()
            invariant
                f == (|h: ClientHandle| Effect::ResolveDns(h)),
                self@ == (ServerView {
                    effects: old(self)@.effects + handles@.take(i as int).map_values(f),
                    ..old(self)@
                }),
        {
            self.request_lookup(handles[i]);
            assert(handles@.take(i + 1).map_values(f) =~= handles@.take(i as int).map_values(
                f,
            ).push(f(handles@[i as int])));
        }
        assert(handles@.take(handles@.len() as int) =~= handles@);
    }

    /// Goes on after a wakeup. Everything there is to tell is told, oldest first,
    /// before the service waits again. When it ends, it tells the other tasks to end.
    pub fn step(&mut self, wakeup: Wakeup) -> (next: Next)
        ensures
            final(self)@ == after_wakeup(old(self)@, wakeup),
            match wakeup {
                Wakeup::Request(request) => {
                    &&& next is Wait
                    &&& request@ is Create ==> free_handle(old(self)@.clients) is Some
                },
                Wakeup::RequestFailed => next is Wait,
                Wakeup::FrontendEventPending | Wakeup::Told => match next {
                    Next::Wait => old(self)@.pending.len() == 0,
                    Next::Tell(event) => {
                        old(self)@.pending.len() > 0 && event@ == old(self)@.pending[0]
                    },
                    Next::End => false,
                },
                Wakeup::FrontendClosed | Wakeup::Cancelled | Wakeup::Interrupted => next is End,
            },
            next is End <==> ends(wakeup),
            next is End ==> final(self)@.cancelled,
            next is Tell ==> Some(next->0@) == old(self)@.next_event(),
            wakeup is FrontendEventPending || wakeup is Told ==> (next is Wait
                <==> old(self)@.next_event() is None),
    {
        match wakeup {
            Wakeup::Request(request) => {
                self.handle_request(request);
                Next::Wait
            },
            Wakeup::RequestFailed => Next::Wait,
            Wakeup::FrontendEventPending | Wakeup::Told => match self.next_frontend_event() {
                Some(event) => Next::Tell(event),
                None => Next::Wait,
            },
            Wakeup::FrontendClosed | Wakeup::Cancelled | Wakeup::Interrupted => {
                self.cancel();
                Next::End
            },
        }
    }
}

} // verus!
