//! What holds of the service as a whole.

pub mod addresses;
pub mod answers;
pub mod delivery;
pub mod operations;
pub mod runs;
pub mod sides;
pub mod tasks;
pub mod values;

use crate::client::ClientHandle;
use crate::message::{Effect, FrontendEventView, FrontendRequestView, Occasion, Signal, Status};
use crate::model::{ServerView, State};
use crate::net::{IpAddr, SocketAddr};
use vstd::prelude::*;

verus! {

/// What the service can be asked to do, by a frontend or by one of its tasks. Handing out
/// what is to be told or done is not among it.
pub enum Operation {
    /// A frontend sends a request.
    Request(FrontendRequestView),
    /// A client is added.
    AddClient,
    /// A client is activated.
    Activate(ClientHandle),
    /// A client is deactivated.
    Deactivate(ClientHandle),
    /// A client is removed.
    Remove(ClientHandle),
    /// Keys are pressed or released on a client.
    PressedKeys(ClientHandle, bool),
    /// A task notes in a client at which address it answers, and whether it does.
    Note(ClientHandle, Option<SocketAddr>, bool),
    /// All addresses of a client are collected.
    UpdateIps(ClientHandle),
    /// The name of a client was resolved.
    DnsIps(ClientHandle, Seq<IpAddr>),
    /// The lookup of a name begins or ends.
    Resolving(ClientHandle, bool),
    /// The names of all active clients are looked up.
    ResolveActive,
    /// Input capture goes up or down.
    CaptureStatus(Status),
    /// Input emulation goes up or down.
    EmulationStatus(Status),
    /// The port was changed, or could not be.
    PortChanged(u16, Option<Seq<char>>),
    /// The frontends are to be told something.
    NotifyFrontend(FrontendEventView),
    /// The ping timer is started over.
    RestartPing,
    /// The pointer changes hands.
    SetState(State),
    /// Another client gets the pointer.
    SetActive(Option<ClientHandle>),
    /// The service is told to end.
    Cancel,
}

/// The service after an operation.
pub open spec fn after(s: ServerView, op: Operation) -> ServerView {
    match op {
        Operation::Request(request) => s.handle_request(request),
        Operation::AddClient => s.add_client(),
        Operation::Activate(h) => s.activate(h),
        Operation::Deactivate(h) => s.deactivate(h),
        Operation::Remove(h) => s.remove_client(h),
        Operation::PressedKeys(h, pressed) => s.update_pressed_keys(h, pressed),
        Operation::Note(h, active_addr, alive) => s.note(h, active_addr, alive),
        Operation::UpdateIps(h) => s.update_ips(h),
        Operation::DnsIps(h, ips) => s.update_dns_ips(h, ips),
        Operation::Resolving(h, resolving) => s.set_resolving(h, resolving),
        Operation::ResolveActive => s.resolve_active(),
        Operation::CaptureStatus(status) => s.set_capture_status(status),
        Operation::EmulationStatus(status) => s.set_emulation_status(status),
        Operation::PortChanged(port, msg) => s.notify_port_changed(port, msg),
        Operation::NotifyFrontend(event) => s.notify_frontend(event),
        Operation::RestartPing => s.emit(Effect::Notify(Signal::NotifyWaiters(Occasion::Ping))),
        Operation::SetState(state) => ServerView { state, ..s },
        Operation::SetActive(handle) => ServerView { active_client: handle, ..s },
        Operation::Cancel => s.cancel(),
    }
}

} // verus!
