//! What requests are answered, what they leave alone and what undoes them.

use crate::client::{capture_pos, ClientConfigView, ClientHandle, ClientStateView, Position};
use crate::handles::{
    handles_where, lemma_handles_ascending, lemma_handles_member, lemma_lowest, lowest_where,
};
use crate::laws::addresses::lemma_activate_keeps_the_rest;
use crate::laws::{after, Operation};
use crate::manager::{
    active, active_handles, is_active_at, is_client, is_free, listing, occupant, ClientMap,
};
use crate::message::{
    CaptureRequest, Effect, EmulationRequest, FrontendEventView, FrontendRequestView, Occasion,
    Signal,
};
use crate::model::ServerView;
use vstd::prelude::*;

verus! {

/// The client that a request is about.
pub open spec fn subject(request: FrontendRequestView) -> Option<ClientHandle> {
    match request {
        FrontendRequestView::Activate(h, _) => Some(h),
        FrontendRequestView::Delete(h) => Some(h),
        FrontendRequestView::GetState(h) => Some(h),
        FrontendRequestView::UpdateFixIps(h, _) => Some(h),
        FrontendRequestView::UpdateHostname(h, _) => Some(h),
        FrontendRequestView::UpdatePort(h, _) => Some(h),
        FrontendRequestView::UpdatePosition(h, _) => Some(h),
        FrontendRequestView::ResolveDns(h) => Some(h),
        _ => None,
    }
}

/// What a request about a client that does not exist is answered.
pub open spec fn answer_to_unknown(request: FrontendRequestView) -> Option<FrontendEventView> {
    match request {
        FrontendRequestView::Delete(h) => Some(FrontendEventView::Deleted(h)),
        FrontendRequestView::GetState(h) => Some(FrontendEventView::NoSuchClient(h)),
        FrontendRequestView::UpdateFixIps(h, _) => Some(FrontendEventView::Changed(h)),
        _ => None,
    }
}

/// A request about a client that does not exist changes nothing. A question about it is
/// answered that there is none, a deletion that it is gone, new addresses that it
/// changed; a lookup is handed to the resolver; anything else is passed over.
pub proof fn law_unknown_client(s: ServerView, request: FrontendRequestView)
    requires
        subject(request) is Some,
        !s.clients.contains_key(subject(request)->0),
    ensures
        s.handle_request(request) == match answer_to_unknown(request) {
            Some(event) => s.notify_frontend(event),
            None => if request is ResolveDns {
                s.emit(Effect::ResolveDns(subject(request)->0))
            } else {
                s
            },
        },
{
    let h = subject(request)->0;
    assert(s.clients.remove(h) =~= s.clients);
}

/// A request never touches a client that it is not about, save that the client may lose
/// its side: then it was active there, and the client that the request is about is
/// active on that side now.
pub proof fn law_other_clients_keep_their_state(
    s: ServerView,
    request: FrontendRequestView,
    k: ClientHandle,
)
    requires
        subject(request) is Some,
        k != subject(request)->0,
    ensures
        ({
            let t = s.handle_request(request).clients;
            let h = subject(request)->0;
            &&& t.contains_key(k) == s.clients.contains_key(k)
            &&& s.clients.contains_key(k) ==> {
                ||| t[k] == s.clients[k]
                ||| {
                    &&& active(s.clients, k)
                    &&& t[k] == (
                        s.clients[k].0,
                        ClientStateView { active: false, ..s.clients[k].1 },
                    )
                    &&& active(t, h)
                    &&& t[h].0.pos == s.clients[k].0.pos
                }
            }
        }),
{
    let h = subject(request)->0;
    match request {
        FrontendRequestView::Activate(h, true) => lemma_activate_others(s, h, k),
        FrontendRequestView::UpdatePosition(h, pos) => {
            if s.clients.contains_key(h) && s.clients[h].0.pos != pos && s.clients[h].1.active {
                let (c, st) = s.clients[h];
                let moved = s.with_client(h, (ClientConfigView { pos, ..c }, st));
                lemma_activate_others(moved.deactivate(h), h, k);
            }
        },
        _ => {},
    }
}

/// An activation takes at most its side from another client.
proof fn lemma_activate_others(s: ServerView, h: ClientHandle, k: ClientHandle)
    requires
        k != h,
    ensures
        ({
            let t = s.activate(h).clients;
            &&& t.contains_key(k) == s.clients.contains_key(k)
            &&& s.clients.contains_key(k) ==> {
                ||| t[k] == s.clients[k]
                ||| {
                    &&& active(s.clients, k)
                    &&& t[k] == (
                        s.clients[k].0,
                        ClientStateView { active: false, ..s.clients[k].1 },
                    )
                    &&& active(t, h)
                    &&& t[h].0.pos == s.clients[k].0.pos
                }
            }
        }),
{
    if s.clients.contains_key(h) && !active(s.clients, h) {
        lemma_lowest(is_active_at(s.clients, s.clients[h].0.pos));
    }
}

/// Who has the pointer, whether capture and emulation are up, the keys, the configuration
/// and whether the service is to end are the same.
pub open spec fn same_rest(s: ServerView, t: ServerView) -> bool {
    &&& t.active_client == s.active_client
    &&& t.state == s.state
    &&& t.release_bind == s.release_bind
    &&& t.config == s.config
    &&& t.capture_status == s.capture_status
    &&& t.emulation_status == s.emulation_status
    &&& t.cancelled == s.cancelled
}

/// An activation leaves everything but the clients and what is to be told and done.
proof fn lemma_activate_same_rest(s: ServerView, h: ClientHandle)
    ensures
        same_rest(s, s.activate(h)),
        s.activate(h).port == s.port,
{
    let cleared = s.vacate(s.clients[h].0.pos);
    assert(same_rest(s, cleared) && cleared.port == s.port);
}

/// Requests leave alone who has the pointer, whether capture and emulation are up, the
/// configuration, and whether the service is to end; only a request for another port
/// changes the port.
pub proof fn law_requests_keep_the_rest(s: ServerView, request: FrontendRequestView)
    ensures
        same_rest(s, s.handle_request(request)),
        s.handle_request(request).port == match request {
            FrontendRequestView::ChangePort(port) => port,
            _ => s.port,
        },
{
    match request {
        FrontendRequestView::Activate(h, true) => lemma_activate_same_rest(s, h),
        FrontendRequestView::UpdatePosition(h, pos) => {
            let (c, st) = s.clients[h];
            let moved = s.with_client(h, (ClientConfigView { pos, ..c }, st));
            lemma_activate_same_rest(moved.deactivate(h), h);
        },
        _ => {},
    }
}

/// Questions change no client.
pub proof fn law_questions_change_no_client(s: ServerView, request: FrontendRequestView)
    requires
        match request {
            FrontendRequestView::EnableCapture => true,
            FrontendRequestView::EnableEmulation => true,
            FrontendRequestView::ChangePort(_) => true,
            FrontendRequestView::Enumerate() => true,
            FrontendRequestView::GetState(_) => true,
            FrontendRequestView::ResolveDns(_) => true,
            FrontendRequestView::Sync => true,
            _ => false,
        },
    ensures
        s.handle_request(request).clients == s.clients,
{
}

/// Holds of the wakeup that comes with something to tell the frontends.
pub open spec fn is_frontend_wakeup() -> spec_fn(Effect) -> bool {
    |e: Effect| e == Effect::Notify(Signal::NotifyOne(Occasion::FrontendEventPending))
}

/// How many wakeups there are for the frontends.
pub open spec fn frontend_wakeups(effects: Seq<Effect>) -> nat {
    effects.filter(is_frontend_wakeup()).len()
}

/// Nothing that was to be told or done is lost or passed by, and each new thing to be
/// told comes with one wakeup.
pub open spec fn only_adds(s: ServerView, t: ServerView) -> bool {
    &&& s.pending.is_prefix_of(t.pending)
    &&& s.effects.is_prefix_of(t.effects)
    &&& t.pending.len() - s.pending.len() == frontend_wakeups(t.effects) - frontend_wakeups(
        s.effects,
    )
}

/// An effect is only added.
proof fn lemma_emit_adds(s: ServerView, e: Effect)
    requires
        !is_frontend_wakeup()(e),
    ensures
        only_adds(s, s.emit(e)),
{
    s.effects.lemma_filter_push(e, is_frontend_wakeup());
}

/// Something to be told is only added.
proof fn lemma_notify_adds(s: ServerView, event: FrontendEventView)
    ensures
        only_adds(s, s.notify_frontend(event)),
{
    s.effects.lemma_filter_push(
        Effect::Notify(Signal::NotifyOne(Occasion::FrontendEventPending)),
        is_frontend_wakeup(),
    );
}

/// Ending capture and emulation of a client only adds.
proof fn lemma_destroy_adds(s: ServerView, h: ClientHandle)
    ensures
        only_adds(s, s.destroy(h)),
{
    let e1 = Effect::Capture(CaptureRequest::Destroy(h));
    lemma_emit_adds(s, e1);
    lemma_emit_adds(s.emit(e1), Effect::Emulation(EmulationRequest::Destroy(h)));
}

/// A deactivation only adds.
proof fn lemma_deactivate_adds(s: ServerView, h: ClientHandle)
    ensures
        only_adds(s, s.deactivate(h)),
{
    let down = s.with_active(h, false);
    lemma_destroy_adds(down, h);
    lemma_notify_adds(down.destroy(h), FrontendEventView::Changed(h));
}

/// An activation only adds.
proof fn lemma_activate_adds(s: ServerView, h: ClientHandle)
    ensures
        only_adds(s, s.activate(h)),
{
    if s.clients.contains_key(h) && !active(s.clients, h) {
        let pos = s.clients[h].0.pos;
        if occupant(s.clients, pos) is Some {
            lemma_deactivate_adds(s, occupant(s.clients, pos)->0);
        }
        let up = s.vacate(pos).with_active(h, true);
        let e1 = Effect::Capture(CaptureRequest::Create(h, capture_pos(pos)));
        let e2 = Effect::Emulation(EmulationRequest::Create(h));
        lemma_emit_adds(up, e1);
        lemma_emit_adds(up.emit(e1), e2);
        lemma_notify_adds(up.emit(e1).emit(e2), FrontendEventView::Changed(h));
    }
}

/// Requests only add.
proof fn lemma_request_adds(s: ServerView, request: FrontendRequestView)
    ensures
        only_adds(s, s.handle_request(request)),
{
    match request {
        FrontendRequestView::EnableCapture => lemma_emit_adds(
            s,
            Effect::Notify(Signal::NotifyWaiters(Occasion::Capture)),
        ),
        FrontendRequestView::EnableEmulation => lemma_emit_adds(
            s,
            Effect::Notify(Signal::NotifyWaiters(Occasion::Emulation)),
        ),
        FrontendRequestView::Create => {
            let (c, st) = (ClientConfigView::unconfigured(), ClientStateView::fresh());
            let h = s.next_handle();
            lemma_notify_adds(s.with_client(h, (c, st)), FrontendEventView::Created(h, c, st));
        },
        FrontendRequestView::Activate(h, true) => lemma_activate_adds(s, h),
        FrontendRequestView::Activate(h, false) => lemma_deactivate_adds(s, h),
        FrontendRequestView::ChangePort(port) => lemma_emit_adds(
            ServerView { port, ..s },
            Effect::Notify(Signal::NotifyOne(Occasion::PortChanged)),
        ),
        FrontendRequestView::Delete(h) => {
            lemma_destroy_adds(ServerView { clients: s.clients.remove(h), ..s }, h);
            lemma_notify_adds(s.remove_client(h), FrontendEventView::Deleted(h));
        },
        FrontendRequestView::Enumerate() => lemma_notify_adds(
            s,
            FrontendEventView::Enumerate(listing(s.clients)),
        ),
        FrontendRequestView::GetState(h) => {
            lemma_notify_adds(s, FrontendEventView::NoSuchClient(h));
            lemma_notify_adds(
                s,
                FrontendEventView::State(h, s.clients[h].0, s.clients[h].1),
            );
        },
        FrontendRequestView::UpdateFixIps(h, fix_ips) => lemma_changed_adds(s, h),
        FrontendRequestView::UpdateHostname(h, host) => {
            lemma_changed_adds(s, h);
            lemma_emit_adds(s, Effect::ResolveDns(h));
            lemma_changed_adds(s.emit(Effect::ResolveDns(h)), h);
        },
        FrontendRequestView::UpdatePort(h, port) => {},
        FrontendRequestView::UpdatePosition(h, pos) => {
            let (c, st) = s.clients[h];
            let moved = s.with_client(h, (ClientConfigView { pos, ..c }, st));
            lemma_deactivate_adds(moved, h);
            lemma_activate_adds(moved.deactivate(h), h);
        },
        FrontendRequestView::ResolveDns(h) => lemma_emit_adds(s, Effect::ResolveDns(h)),
        FrontendRequestView::Sync => {
            let s1 = s.enumerate();
            let s2 = s1.notify_frontend(FrontendEventView::EmulationStatus(s.emulation_status));
            let s3 = s2.notify_frontend(FrontendEventView::CaptureStatus(s.capture_status));
            lemma_notify_adds(s, FrontendEventView::Enumerate(listing(s.clients)));
            lemma_notify_adds(s1, FrontendEventView::EmulationStatus(s.emulation_status));
            lemma_notify_adds(s2, FrontendEventView::CaptureStatus(s.capture_status));
            lemma_notify_adds(s3, FrontendEventView::PortChanged(s.port, None));
        },
    }
}

/// Saying that a client changed only adds, whatever about the clients changes with it.
proof fn lemma_changed_adds(s: ServerView, h: ClientHandle)
    ensures
        forall|clients: ClientMap|
            only_adds(s, #[trigger] ServerView { clients, ..s }.client_updated(h)),
{
    lemma_notify_adds(s, FrontendEventView::Changed(h));
}

/// Lookups are no wakeups for the frontends.
proof fn lemma_lookups_add(s: ServerView)
    ensures
        only_adds(s, s.resolve_active()),
{
    let lookups = active_handles(s.clients).map_values(|h: ClientHandle| Effect::ResolveDns(h));
    Seq::filter_distributes_over_add(s.effects, lookups, is_frontend_wakeup());
    lookups.lemma_all_neg_filter_empty(is_frontend_wakeup());
}

/// Whatever happens, nothing that was to be told or done before is lost or passed by: new
/// things come after it. And each new thing to be told comes with one wakeup for it.
pub proof fn law_nothing_is_lost(s: ServerView, op: Operation)
    ensures
        only_adds(s, after(s, op)),
{
    match op {
        Operation::Request(request) => lemma_request_adds(s, request),
        Operation::AddClient => lemma_request_adds(s, FrontendRequestView::Create),
        Operation::Activate(h) => lemma_activate_adds(s, h),
        Operation::Deactivate(h) => lemma_deactivate_adds(s, h),
        Operation::Remove(h) => lemma_destroy_adds(
            ServerView { clients: s.clients.remove(h), ..s },
            h,
        ),
        Operation::DnsIps(h, _) => lemma_changed_adds(s, h),
        Operation::Resolving(h, _) => lemma_changed_adds(s, h),
        Operation::ResolveActive => lemma_lookups_add(s),
        Operation::CaptureStatus(status) => lemma_notify_adds(
            ServerView { capture_status: status, ..s },
            FrontendEventView::CaptureStatus(status),
        ),
        Operation::EmulationStatus(status) => lemma_notify_adds(
            ServerView { emulation_status: status, ..s },
            FrontendEventView::EmulationStatus(status),
        ),
        Operation::PortChanged(port, msg) => lemma_notify_adds(
            ServerView { port, ..s },
            FrontendEventView::PortChanged(port, msg),
        ),
        Operation::NotifyFrontend(event) => lemma_notify_adds(s, event),
        Operation::RestartPing => lemma_emit_adds(
            s,
            Effect::Notify(Signal::NotifyWaiters(Occasion::Ping)),
        ),
        Operation::Cancel => lemma_emit_adds(
            ServerView { cancelled: true, ..s },
            Effect::Notify(Signal::Cancel),
        ),
        _ => {},
    }
}

/// A client that was created gets a handle that named no client, and deleting it leaves
/// the clients as they were.
pub proof fn law_delete_undoes_create(s: ServerView)
    requires
        lowest_where(is_free(s.clients)) is Some,
    ensures
        ({
            let h = s.next_handle();
            let t = s.handle_request(FrontendRequestView::Create);
            &&& !s.clients.contains_key(h)
            &&& t.clients.contains_key(h)
            &&& !active(t.clients, h)
            &&& t.handle_request(FrontendRequestView::Delete(h)).clients == s.clients
        }),
{
    lemma_lowest(is_free(s.clients));
    let h = s.next_handle();
    assert(is_free(s.clients)(h));
    let t = s.handle_request(FrontendRequestView::Create);
    assert(t.handle_request(FrontendRequestView::Delete(h)).clients =~= s.clients);
}

/// Deactivating a client that was activated on a free side leaves the clients as they
/// were.
pub proof fn law_deactivate_undoes_activate(s: ServerView, h: ClientHandle)
    requires
        s.clients.contains_key(h),
        !active(s.clients, h),
        forall|k: ClientHandle| #[trigger]
            active(s.clients, k) ==> s.clients[k].0.pos != s.clients[h].0.pos,
    ensures
        s.activate(h).deactivate(h).clients == s.clients,
{
    let pos = s.clients[h].0.pos;
    let p = is_active_at(s.clients, pos);
    lemma_lowest(p);
    if occupant(s.clients, pos) is Some {
        assert(p(occupant(s.clients, pos)->0));
    }
    assert(s.activate(h).deactivate(h).clients =~= s.clients);
}

/// Activating a client again, or deactivating it again, does nothing.
pub proof fn law_asking_twice_does_nothing(s: ServerView, h: ClientHandle)
    ensures
        s.activate(h).activate(h) == s.activate(h),
        s.deactivate(h).deactivate(h) == s.deactivate(h),
{
    lemma_activate_keeps_the_rest(s, h, h);
}

/// A client has the host name that it was given last. The name is looked up, once,
/// exactly if it is another one than before; then no address is in use any more and
/// those that the old name led to are gone.
pub proof fn law_hostname(s: ServerView, h: ClientHandle, hostname: Option<Seq<char>>)
    requires
        s.clients.contains_key(h),
    ensures
        ({
            let t = s.handle_request(FrontendRequestView::UpdateHostname(h, hostname));
            let changed = s.clients[h].0.hostname != hostname;
            &&& t.clients[h].0 == ClientConfigView { hostname, ..s.clients[h].0 }
            &&& t.effects == s.effects + (if changed {
                seq![Effect::ResolveDns(h)]
            } else {
                seq![]
            }) + seq![Effect::Notify(Signal::NotifyOne(Occasion::FrontendEventPending))]
            &&& changed ==> t.clients[h].1.active_addr is None && t.clients[h].1.dns_ips.len() == 0
            &&& !changed ==> t.clients == s.clients
        }),
{
}

/// A client has the port that it was given last. If it is another one than before, the
/// address in use keeps its IP and gets the port.
pub proof fn law_client_port(s: ServerView, h: ClientHandle, port: u16)
    requires
        s.clients.contains_key(h),
    ensures
        ({
            let t = s.handle_request(FrontendRequestView::UpdatePort(h, port));
            let before = s.clients[h].1.active_addr;
            let now = t.clients[h].1.active_addr;
            &&& t.clients[h].0 == ClientConfigView { port, ..s.clients[h].0 }
            &&& now is Some == before is Some
            &&& s.clients[h].0.port != port && now is Some ==> {
                &&& now->0.spec_port() == port
                &&& now->0.spec_ip() == before->0.spec_ip()
            }
            &&& s.clients[h].0.port == port ==> t == s
        }),
{
}

/// The port that was asked for last is the one that the frontends are told when they ask
/// for everything.
pub proof fn law_requested_port_is_told(s: ServerView, port: u16)
    ensures
        s.handle_request(FrontendRequestView::ChangePort(port)).handle_request(
            FrontendRequestView::Sync,
        ).pending == s.pending + seq![
            FrontendEventView::Enumerate(listing(s.clients)),
            FrontendEventView::EmulationStatus(s.emulation_status),
            FrontendEventView::CaptureStatus(s.capture_status),
            FrontendEventView::PortChanged(port, None),
        ],
{
}

/// The service after the frontends were told the `n` oldest things.
pub open spec fn after_telling(s: ServerView, n: nat) -> ServerView
    decreases n,
{
    if n == 0 {
        s
    } else {
        after_telling(s, (n - 1) as nat).tell()
    }
}

/// The frontends are told everything that is to be told, each thing once, in the order in
/// which it came up; nothing else changes by that.
pub proof fn law_told_in_order(s: ServerView, n: nat)
    requires
        n <= s.pending.len(),
    ensures
        ({
            let t = after_telling(s, n);
            &&& t == ServerView { pending: s.pending.skip(n as int), ..s }
            &&& n < s.pending.len() ==> t.pending[0] == s.pending[n as int]
            &&& n == s.pending.len() ==> t.pending.len() == 0
        }),
    decreases n,
{
    if n > 0 {
        law_told_in_order(s, (n - 1) as nat);
    }
    assert(after_telling(s, n) =~= (ServerView { pending: s.pending.skip(n as int), ..s }));
}

/// An enumeration holds every client once, with what is held of it, in ascending order of
/// the handles.
pub proof fn law_listing(clients: ClientMap)
    ensures
        ({
            let s = listing(clients);
            &&& forall|i: int|
                0 <= i < s.len() ==> clients.contains_key((#[trigger] s[i]).0) && clients[s[i].0]
                    == (s[i].1, s[i].2)
            &&& forall|i: int, j: int| 0 <= i < j < s.len() ==> (#[trigger] s[i]).0 < (
                #[trigger] s[j]).0
            &&& forall|h: ClientHandle| #[trigger]
                clients.contains_key(h) ==> s.contains((h, clients[h].0, clients[h].1))
        }),
{
    let p = is_client(clients);
    let hs = handles_where(p);
    let s = listing(clients);
    lemma_handles_member(p);
    lemma_handles_ascending(p);
    assert forall|i: int| 0 <= i < s.len() implies clients.contains_key((#[trigger] s[i]).0)
        && clients[s[i].0] == (s[i].1, s[i].2) by {
        assert(s[i].0 == hs[i]);
        assert(hs.contains(hs[i]));
        assert(p(hs[i]));
    }
    assert forall|i: int, j: int| 0 <= i < j < s.len() implies (#[trigger] s[i]).0 < (
        #[trigger] s[j]).0 by {
        assert(hs[i] < hs[j]);
    }
    assert forall|h: ClientHandle| #[trigger] clients.contains_key(h) implies s.contains(
        (h, clients[h].0, clients[h].1),
    ) by {
        assert(p(h));
        assert(hs.contains(h));
        let i = choose|i: int| 0 <= i < hs.len() && hs[i] == h;
        assert(s[i] == (h, clients[h].0, clients[h].1));
    }
}

/// Different sides have different edges.
pub proof fn law_edges_tell_sides_apart(a: Position, b: Position)
    ensures
        capture_pos(a) == capture_pos(b) ==> a == b,
{
}

} // verus!
