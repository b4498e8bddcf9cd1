//! What is told, asked for and held of a client means what its fields say.

use crate::client::{Client, ClientConfig, ClientHandle, ClientState, Position};
use crate::manager::entry;
use crate::message::{
    listed, FrontendEvent, FrontendEventView, FrontendRequest, FrontendRequestView, Status,
};
use crate::net::IpAddr;
use crate::text::chars;
use vstd::prelude::*;

verus! {

/// Two optional texts are the same value exactly if both are absent, or both are there
/// with the same characters.
pub proof fn law_texts(a: Option<String>, b: Option<String>)
    ensures
        chars(a) is Some == a is Some,
        chars(a) == chars(b) <==> (a is Some == b is Some) && (a is Some ==> a->0@ == b->0@),
        a is Some ==> chars(a)->0 == a->0@,
{
}

/// What is configured for a client is the value of each of its fields.
pub proof fn law_client_config(c: ClientConfig)
    ensures
        c@.hostname is Some == c.hostname is Some,
        c.hostname is Some ==> c@.hostname->0 == c.hostname->0@,
        c@.fix_ips == c.fix_ips@,
        c@.port == c.port,
        c@.pos == c.pos,
        c@.cmd is Some == c.cmd is Some,
        c.cmd is Some ==> c@.cmd->0 == c.cmd->0@,
{
}

/// What is known of a client is the value of each of its fields.
pub proof fn law_client_state(s: ClientState)
    ensures
        s@.active == s.active,
        s@.active_addr == s.active_addr,
        s@.alive == s.alive,
        s@.dns_ips == s.dns_ips@,
        s@.ips == s.ips@,
        s@.has_pressed_keys == s.has_pressed_keys,
        s@.resolving == s.resolving,
{
}

/// An entry of a list of clients is a handle with what is configured for the client and
/// what is known of it.
pub proof fn law_entries(h: ClientHandle, c: ClientConfig, s: ClientState, client: &Client)
    ensures
        listed((h, c, s)).0 == h,
        listed((h, c, s)).1 == c@,
        listed((h, c, s)).2 == s@,
        entry((h, client)).0 == h,
        entry((h, client)).1 == client.0@,
        entry((h, client)).2 == client.1@,
{
}

/// An event about a client says which one it is about, and what is held of it.
pub proof fn law_client_events(h: ClientHandle, c: ClientConfig, s: ClientState)
    ensures
        FrontendEvent::Changed(h)@ == FrontendEventView::Changed(h),
        FrontendEvent::Created(h, c, s)@ == FrontendEventView::Created(h, c@, s@),
        FrontendEvent::NoSuchClient(h)@ == FrontendEventView::NoSuchClient(h),
        FrontendEvent::State(h, c, s)@ == FrontendEventView::State(h, c@, s@),
        FrontendEvent::Deleted(h)@ == FrontendEventView::Deleted(h),
{
}

/// An event about the service says what it was made of: the port with the reason, whether
/// capture or emulation is up, and all clients in order.
pub proof fn law_service_events(
    port: u16,
    msg: Option<String>,
    status: Status,
    clients: Vec<(ClientHandle, ClientConfig, ClientState)>,
)
    ensures
        FrontendEvent::PortChanged(port, msg)@ matches FrontendEventView::PortChanged(p, m) && p
            == port && m is Some == msg is Some && (msg is Some ==> m->0 == msg->0@),
        FrontendEvent::CaptureStatus(status)@ == FrontendEventView::CaptureStatus(status),
        FrontendEvent::EmulationStatus(status)@ == FrontendEventView::EmulationStatus(status),
        FrontendEvent::Enumerate(clients)@ matches FrontendEventView::Enumerate(list)
            && list.len() == clients@.len() && forall|i: int|
            0 <= i < clients@.len() ==> {
                &&& (#[trigger] list[i]).0 == clients@[i].0
                &&& list[i].1 == clients@[i].1@
                &&& list[i].2 == clients@[i].2@
            },
{
}

/// A request asks for what it was made of.
pub proof fn law_requests(
    h: ClientHandle,
    on: bool,
    port: u16,
    pos: Position,
    ips: Vec<IpAddr>,
    host: Option<String>,
)
    ensures
        FrontendRequest::EnableCapture@ == FrontendRequestView::EnableCapture,
        FrontendRequest::EnableEmulation@ == FrontendRequestView::EnableEmulation,
        FrontendRequest::Create@ == FrontendRequestView::Create,
        FrontendRequest::Activate(h, on)@ == FrontendRequestView::Activate(h, on),
        FrontendRequest::ChangePort(port)@ == FrontendRequestView::ChangePort(port),
        FrontendRequest::Delete(h)@ == FrontendRequestView::Delete(h),
        FrontendRequest::Enumerate()@ == FrontendRequestView::Enumerate(),
        FrontendRequest::GetState(h)@ == FrontendRequestView::GetState(h),
        FrontendRequest::UpdateFixIps(h, ips)@ == FrontendRequestView::UpdateFixIps(h, ips@),
        FrontendRequest::UpdateHostname(h, host)@ matches FrontendRequestView::UpdateHostname(k, m)
            && k == h && m is Some == host is Some && (host is Some ==> m->0 == host->0@),
        FrontendRequest::UpdatePort(h, port)@ == FrontendRequestView::UpdatePort(h, port),
        FrontendRequest::UpdatePosition(h, pos)@ == FrontendRequestView::UpdatePosition(h, pos),
        FrontendRequest::ResolveDns(h)@ == FrontendRequestView::ResolveDns(h),
        FrontendRequest::Sync@ == FrontendRequestView::Sync,
{
}

} // verus!
