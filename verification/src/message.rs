//! What the service exchanges with its frontends and with its other tasks.

use crate::client::{
    CapturePosition, ClientConfig, ClientConfigView, ClientHandle, ClientState, ClientStateView,
    Position,
};
use crate::net::IpAddr;
use vstd::prelude::*;

verus! {

/// Whether input capture or input emulation is up.
#[derive(Clone, Copy, Debug, PartialEq, Eq, Structural)]
pub enum Status {
    Disabled,
    Enabled,
}

impl Default for Status {
    fn default() -> (status: Status)
        ensures
            status == Status::Disabled,
    {
        Status::Disabled
    }
}

/// What a frontend is told.
#[derive(Debug)]
pub enum FrontendEvent {
    /// A client changed; its new state has to be asked for.
    Changed(ClientHandle),
    /// A client was created.
    Created(ClientHandle, ClientConfig, ClientState),
    /// There is no client with this handle.
    NoSuchClient(ClientHandle),
    /// The state of a client.
    State(ClientHandle, ClientConfig, ClientState),
    /// A client was deleted.
    Deleted(ClientHandle),
    /// The port that is listened on, and why it could not be changed if it could not.
    PortChanged(u16, Option<String>),
    /// All clients.
    Enumerate(Vec<(ClientHandle, ClientConfig, ClientState)>),
    /// Whether input capture is up.
    CaptureStatus(Status),
    /// Whether input emulation is up.
    EmulationStatus(Status),
}

/// The value of a [`FrontendEvent`].
#[verifier::ext_equal]
pub enum FrontendEventView {
    Changed(ClientHandle),
    Created(ClientHandle, ClientConfigView, ClientStateView),
    NoSuchClient(ClientHandle),
    State(ClientHandle, ClientConfigView, ClientStateView),
    Deleted(ClientHandle),
    PortChanged(u16, Option<Seq<char>>),
    Enumerate(Seq<(ClientHandle, ClientConfigView, ClientStateView)>),
    CaptureStatus(Status),
    EmulationStatus(Status),
}

/// The entry of an enumeration as a value.
pub open spec fn listed(e: (ClientHandle, ClientConfig, ClientState)) -> (
    ClientHandle,
    ClientConfigView,
    ClientStateView,
) {
    (e.0, e.1@, e.2@)
}

impl View for FrontendEvent {
    type V = FrontendEventView;

    open spec fn view(&self) -> FrontendEventView {
        match *self {
            FrontendEvent::Changed(h) => FrontendEventView::Changed(h),
            FrontendEvent::Created(h, c, s) => FrontendEventView::Created(h, c@, s@),
            FrontendEvent::NoSuchClient(h) => FrontendEventView::NoSuchClient(h),
            FrontendEvent::State(h, c, s) => FrontendEventView::State(h, c@, s@),
            FrontendEvent::Deleted(h) => FrontendEventView::Deleted(h),
            FrontendEvent::PortChanged(port, msg) => FrontendEventView::PortChanged(
                port,
                crate::text::chars(msg),
            ),
            FrontendEvent::Enumerate(clients) => FrontendEventView::Enumerate(
                clients@.map_values(|e: (ClientHandle, ClientConfig, ClientState)| listed(e)),
            ),
            FrontendEvent::CaptureStatus(status) => FrontendEventView::CaptureStatus(status),
            FrontendEvent::EmulationStatus(status) => FrontendEventView::EmulationStatus(status),
        }
    }
}

/// What a frontend asks for.
#[derive(Debug)]
pub enum FrontendRequest {
    /// Bring input capture up again.
    EnableCapture,
    /// Bring input emulation up again.
    EnableEmulation,
    /// Add a client.
    Create,
    /// Activate or deactivate a client.
    Activate(ClientHandle, bool),
    /// Listen on another port.
    ChangePort(u16),
    /// Remove a client.
    Delete(ClientHandle),
    /// List all clients.
    Enumerate(),
    /// Tell the state of a client.
    GetState(ClientHandle),
    /// Replace the addresses that the user has given for a client.
    UpdateFixIps(ClientHandle, Vec<IpAddr>),
    /// Replace the host name of a client.
    UpdateHostname(ClientHandle, Option<String>),
    /// Replace the port of a client.
    UpdatePort(ClientHandle, u16),
    /// Put a client on another side of the screen.
    UpdatePosition(ClientHandle, Position),
    /// Look up the addresses of a client.
    ResolveDns(ClientHandle),
    /// Tell everything there is to know.
    Sync,
}

/// The value of a [`FrontendRequest`].
#[verifier::ext_equal]
pub enum FrontendRequestView {
    EnableCapture,
    EnableEmulation,
    Create,
    Activate(ClientHandle, bool),
    ChangePort(u16),
    Delete(ClientHandle),
    Enumerate(),
    GetState(ClientHandle),
    UpdateFixIps(ClientHandle, Seq<IpAddr>),
    UpdateHostname(ClientHandle, Option<Seq<char>>),
    UpdatePort(ClientHandle, u16),
    UpdatePosition(ClientHandle, Position),
    ResolveDns(ClientHandle),
    Sync,
}

impl View for FrontendRequest {
    type V = FrontendRequestView;

    open spec fn view(&self) -> FrontendRequestView {
        match *self {
            FrontendRequest::EnableCapture => FrontendRequestView::EnableCapture,
            FrontendRequest::EnableEmulation => FrontendRequestView::EnableEmulation,
            FrontendRequest::Create => FrontendRequestView::Create,
            FrontendRequest::Activate(h, active) => FrontendRequestView::Activate(h, active),
            FrontendRequest::ChangePort(port) => FrontendRequestView::ChangePort(port),
            FrontendRequest::Delete(h) => FrontendRequestView::Delete(h),
            FrontendRequest::Enumerate() => FrontendRequestView::Enumerate(),
            FrontendRequest::GetState(h) => FrontendRequestView::GetState(h),
            FrontendRequest::UpdateFixIps(h, ips) => FrontendRequestView::UpdateFixIps(h, ips@),
            FrontendRequest::UpdateHostname(h, host) => FrontendRequestView::UpdateHostname(
                h,
                crate::text::chars(host),
            ),
            FrontendRequest::UpdatePort(h, port) => FrontendRequestView::UpdatePort(h, port),
            FrontendRequest::UpdatePosition(h, pos) => FrontendRequestView::UpdatePosition(h, pos),
            FrontendRequest::ResolveDns(h) => FrontendRequestView::ResolveDns(h),
            FrontendRequest::Sync => FrontendRequestView::Sync,
        }
    }
}

/// What the capture task is asked for.
#[derive(Clone, Copy, Debug, PartialEq, Eq, Structural)]
pub enum CaptureRequest {
    /// Capture input for a client at an edge of the screen.
    Create(ClientHandle, CapturePosition),
    /// Stop capturing input for a client.
    Destroy(ClientHandle),
}

/// What the emulation task is asked for.
#[derive(Clone, Copy, Debug, PartialEq, Eq, Structural)]
pub enum EmulationRequest {
    /// Emulate the input that a client sends.
    Create(ClientHandle),
    /// Stop emulating the input of a client.
    Destroy(ClientHandle),
}

/// What a task can wait for.
#[derive(Clone, Copy, Debug, PartialEq, Eq, Structural)]
pub enum Occasion {
    /// Input capture is to be brought up.
    Capture,
    /// Input emulation is to be brought up.
    Emulation,
    /// The ping timer is to be started over.
    Ping,
    /// The port to listen on was changed.
    PortChanged,
    /// There is something to tell the frontends.
    FrontendEventPending,
}

/// How waiting tasks are woken.
#[derive(Clone, Copy, Debug, PartialEq, Eq, Structural)]
pub enum Signal {
    /// One task is woken: one that waits now, or else the next one that will.
    NotifyOne(Occasion),
    /// All tasks that wait now are woken.
    NotifyWaiters(Occasion),
    /// All tasks are told to end, those that will wait later too.
    Cancel,
}

/// Something that the service does to its other tasks.
#[derive(Clone, Copy, Debug, PartialEq, Eq, Structural)]
pub enum Effect {
    /// A message to the capture task.
    Capture(CaptureRequest),
    /// A message to the emulation task.
    Emulation(EmulationRequest),
    /// A message to the resolver: look up the addresses of a client.
    ResolveDns(ClientHandle),
    /// Tasks are woken.
    Notify(Signal),
}

} // verus!
