//! What each operation is for: what is held, told and caused after it, field by field.

use crate::client::{
    capture_pos, CapturePosition, ClientConfigView, ClientHandle, ClientStateView, Position,
};
use crate::config::Config;
use crate::handles::{
    lemma_handles_ascending, lemma_handles_member, lemma_is_lowest, lemma_lowest,
};
use crate::laws::answers::{law_listing, same_rest};
use crate::manager::{
    active_handles, free_handle, is_active, is_active_at, is_free, occupant, ClientMap,
};
use crate::message::{
    CaptureRequest, Effect, EmulationRequest, FrontendEventView, FrontendRequest, Occasion, Signal,
    Status,
};
use crate::model::{ServerView, State};
use crate::net::{IpAddr, SocketAddr};
use crate::service::{
    after_listening, after_wakeup, ListenerCreationError, ServiceError, Wakeup,
};
use crate::text::chars;
use vstd::prelude::*;

verus! {

/// Nothing but the clients, what is to be told and what was caused may differ.
pub open spec fn same_service(s: ServerView, t: ServerView) -> bool {
    same_rest(s, t) && t.port == s.port
}

/// What is held of the clients other than `h` is the same.
pub open spec fn others_kept(s: ServerView, t: ServerView, h: ClientHandle) -> bool {
    forall|k: ClientHandle|
        k != h ==> #[trigger] t.clients.contains_key(k) == s.clients.contains_key(k) && (
        s.clients.contains_key(k) ==> t.clients[k] == s.clients[k])
}

/// The given things come last of what is to be told and of what was caused.
pub open spec fn adds(
    s: ServerView,
    t: ServerView,
    told: Seq<FrontendEventView>,
    caused: Seq<Effect>,
) -> bool {
    t.pending =~= s.pending + told && t.effects =~= s.effects + caused
}

/// The wakeup that goes with something to tell.
pub open spec fn wake() -> Effect {
    Effect::Notify(Signal::NotifyOne(Occasion::FrontendEventPending))
}

/// The service starts with each configured client under the number of its entry, as it is
/// configured and with nothing else known of it; with no other client; on the configured
/// port, with the configured keys; and with nothing going on.
pub proof fn law_start(config: Config, h: ClientHandle)
    ensures
        ({
            let s = ServerView::init(config@);
            &&& s.clients.contains_key(h) == (h < config.clients@.len())
            &&& h < config.clients@.len() ==> {
                let entry = config.clients@[h as int];
                let (c, st) = s.clients[h];
                &&& c.hostname is Some == entry.hostname is Some
                &&& c.hostname is Some ==> c.hostname->0 == entry.hostname->0@
                &&& c.fix_ips == entry.ips@
                &&& c.port == entry.port
                &&& c.pos == entry.pos
                &&& c.cmd is Some == entry.enter_hook is Some
                &&& c.cmd is Some ==> c.cmd->0 == entry.enter_hook->0@
                &&& st.active == entry.active
                &&& forall|ip: IpAddr| #[trigger] st.ips.contains(ip) == entry.ips@.contains(ip)
                &&& st.dns_ips.len() == 0
                &&& st.active_addr is None
                &&& !st.alive
                &&& !st.has_pressed_keys
                &&& !st.resolving
            }
            &&& s.port == config.port
            &&& s.release_bind == config.release_bind@
            &&& s.config == config@
            &&& s.active_client is None
            &&& s.state == State::Receiving
            &&& s.capture_status == Status::Disabled
            &&& s.emulation_status == Status::Disabled
            &&& !s.cancelled
            &&& s.pending.len() == 0
            &&& s.effects.len() == 0
        }),
{
    let s = ServerView::init(config@);
    if h < config.clients@.len() {
        assert(config@.clients[h as int] == config.clients@[h as int]@);
        assert forall|ip: IpAddr| #[trigger]
            s.clients[h].1.ips.contains(ip) == config.clients@[h as int].ips@.contains(ip) by {
        }
    }
}

/// Once the name of a client was resolved, the addresses that it led to are those that
/// were found, and no others: what an earlier lookup found is gone. All addresses of the
/// client are these and the ones that the user has given. Nothing else about any client
/// changes, and the frontends are told that the client changed, even if there is none.
pub proof fn law_dns_ips(s: ServerView, h: ClientHandle, dns_ips: Seq<IpAddr>)
    ensures
        ({
            let t = s.update_dns_ips(h, dns_ips);
            &&& t.clients.contains_key(h) == s.clients.contains_key(h)
            &&& s.clients.contains_key(h) ==> {
                let (before, now) = (s.clients[h], t.clients[h]);
                &&& now.1.dns_ips == dns_ips
                &&& forall|ip: IpAddr| #[trigger]
                    now.1.ips.contains(ip) == (before.0.fix_ips.contains(ip) || dns_ips.contains(
                        ip,
                    ))
                &&& now.0 == before.0
                &&& now.1 == ClientStateView { dns_ips, ips: now.1.ips, ..before.1 }
            }
            &&& others_kept(s, t, h)
            &&& same_service(s, t)
            &&& adds(s, t, seq![FrontendEventView::Changed(h)], seq![wake()])
        }),
{
}

/// Of two lookups only the second counts.
pub proof fn law_last_lookup_counts(
    s: ServerView,
    h: ClientHandle,
    first: Seq<IpAddr>,
    second: Seq<IpAddr>,
)
    ensures
        s.update_dns_ips(h, first).update_dns_ips(h, second).clients == s.update_dns_ips(
            h,
            second,
        ).clients,
{
    let a = s.update_dns_ips(h, first).update_dns_ips(h, second).clients;
    let b = s.update_dns_ips(h, second).clients;
    assert(a =~= b);
}

/// Once the user has given addresses for a client, they are the ones that count as given.
/// All addresses of the client are these and the ones that its name resolved to. Nothing
/// else about any client changes, and the frontends are told that the client changed, even
/// if there is none.
pub proof fn law_fix_ips(s: ServerView, h: ClientHandle, fix_ips: Vec<IpAddr>)
    ensures
        ({
            let t = s.handle_request(FrontendRequest::UpdateFixIps(h, fix_ips)@);
            &&& t == s.update_fix_ips(h, fix_ips@)
            &&& t.clients.contains_key(h) == s.clients.contains_key(h)
            &&& s.clients.contains_key(h) ==> {
                let (before, now) = (s.clients[h], t.clients[h]);
                &&& now.0 == ClientConfigView { fix_ips: fix_ips@, ..before.0 }
                &&& forall|ip: IpAddr| #[trigger]
                    now.1.ips.contains(ip) == (fix_ips@.contains(ip) || before.1.dns_ips.contains(
                        ip,
                    ))
                &&& now.1 == ClientStateView { ips: now.1.ips, ..before.1 }
            }
            &&& others_kept(s, t, h)
            &&& same_service(s, t)
            &&& adds(s, t, seq![FrontendEventView::Changed(h)], seq![wake()])
        }),
{
}

/// Collecting the addresses of a client makes them those that the user has given and
/// those that its name resolved to, and changes nothing else. Nobody is told.
pub proof fn law_collected_ips(s: ServerView, h: ClientHandle)
    ensures
        ({
            let t = s.update_ips(h);
            &&& t.clients.contains_key(h) == s.clients.contains_key(h)
            &&& s.clients.contains_key(h) ==> {
                let (before, now) = (s.clients[h], t.clients[h]);
                &&& forall|ip: IpAddr| #[trigger]
                    now.1.ips.contains(ip) == (before.0.fix_ips.contains(ip)
                        || before.1.dns_ips.contains(ip))
                &&& now.0 == before.0
                &&& now.1 == ClientStateView { ips: now.1.ips, ..before.1 }
            }
            &&& others_kept(s, t, h)
            &&& same_service(s, t)
            &&& adds(s, t, seq![], seq![])
        }),
{
}

/// A request for a lookup hands the client to the resolver, once, whether there is such a
/// client or not, and does nothing else.
pub proof fn law_lookup_request(s: ServerView, h: ClientHandle)
    ensures
        ({
            let t = s.handle_request(FrontendRequest::ResolveDns(h)@);
            &&& t.clients == s.clients
            &&& same_service(s, t)
            &&& adds(s, t, seq![], seq![Effect::ResolveDns(h)])
        }),
{
}

/// Something that is caused comes last of all that was caused, and changes nothing else.
pub proof fn law_caused(s: ServerView, effect: Effect)
    ensures
        ({
            let t = s.emit(effect);
            &&& t.clients == s.clients
            &&& same_service(s, t)
            &&& adds(s, t, seq![], seq![effect])
        }),
{
}

/// The names of exactly the active clients are looked up, each once, in ascending order
/// of their handles. Nothing else happens.
pub proof fn law_active_clients_are_looked_up(s: ServerView)
    ensures
        ({
            let t = s.resolve_active();
            let n = s.effects.len() as int;
            &&& s.effects == t.effects.take(n)
            &&& forall|i: int|
                n <= i < t.effects.len() ==> (#[trigger] t.effects[i] matches Effect::ResolveDns(
                    h,
                ) && s.clients.contains_key(h) && s.clients[h].1.active)
            &&& forall|i: int, j: int|
                n <= i < j < t.effects.len() ==> (#[trigger] t.effects[i])->ResolveDns_0 < (
                #[trigger] t.effects[j])->ResolveDns_0
            &&& forall|h: ClientHandle|
                s.clients.contains_key(h) && (#[trigger] s.clients[h]).1.active
                    ==> t.effects.skip(n).contains(Effect::ResolveDns(h))
            &&& t.clients == s.clients
            &&& same_service(s, t)
            &&& t.pending == s.pending
        }),
{
    let p = is_active(s.clients);
    let hs = active_handles(s.clients);
    let t = s.resolve_active();
    let n = s.effects.len() as int;
    lemma_handles_member(p);
    lemma_handles_ascending(p);
    assert(s.effects =~= t.effects.take(n));
    assert forall|i: int| n <= i < t.effects.len() implies (
    #[trigger] t.effects[i] matches Effect::ResolveDns(h) && s.clients.contains_key(h)
        && s.clients[h].1.active) by {
        assert(t.effects[i] == Effect::ResolveDns(hs[i - n]));
        assert(hs.contains(hs[i - n]));
        assert(p(hs[i - n]));
    }
    assert forall|i: int, j: int| n <= i < j < t.effects.len() implies (
    #[trigger] t.effects[i])->ResolveDns_0 < (#[trigger] t.effects[j])->ResolveDns_0 by {
        assert(hs[i - n] < hs[j - n]);
    }
    assert forall|h: ClientHandle|
        s.clients.contains_key(h) && (
        #[trigger] s.clients[h]).1.active implies t.effects.skip(n).contains(
        Effect::ResolveDns(h),
    ) by {
        assert(p(h));
        assert(hs.contains(h));
        let i = choose|i: int| 0 <= i < hs.len() && hs[i] == h;
        assert(t.effects.skip(n)[i] == Effect::ResolveDns(h));
    }
}

/// A list of the active clients names each of them once, in ascending order, and no other
/// client.
pub proof fn law_active_clients(clients: ClientMap)
    ensures
        forall|h: ClientHandle| #[trigger]
            active_handles(clients).contains(h) == (clients.contains_key(h)
                && clients[h].1.active),
        forall|i: int, j: int|
            0 <= i < j < active_handles(clients).len() ==> active_handles(clients)[i]
                < active_handles(clients)[j],
{
    let p = is_active(clients);
    lemma_handles_member(p);
    lemma_handles_ascending(p);
    assert forall|h: ClientHandle| #[trigger]
        active_handles(clients).contains(h) == (clients.contains_key(h) && clients[h].1.active) by {
        assert(p(h) == (clients.contains_key(h) && clients[h].1.active));
    }
}

/// Once the network task has reported the port that it listens on, that is the port of the
/// service, whatever was asked for before. The frontends are told it, with the reason, and
/// are told it again when they ask for everything.
pub proof fn law_reported_port(s: ServerView, port: u16, msg: Option<Seq<char>>)
    ensures
        ({
            let t = s.notify_port_changed(port, msg);
            let u = t.handle_request(FrontendRequest::Sync@);
            &&& t.port == port
            &&& t.clients == s.clients
            &&& same_rest(s, t)
            &&& adds(s, t, seq![FrontendEventView::PortChanged(port, msg)], seq![wake()])
            &&& u.port == port
            &&& u.pending.last() == FrontendEventView::PortChanged(port, None)
        }),
{
}

/// A frontend that asks for another port has it noted as the port of the service, and the
/// task that listens is woken. The frontends are told only once that task has reported.
pub proof fn law_requested_port(s: ServerView, port: u16)
    ensures
        ({
            let t = s.handle_request(FrontendRequest::ChangePort(port)@);
            &&& t == s.request_port_change(port)
            &&& t.port == port
            &&& t.clients == s.clients
            &&& same_rest(s, t)
            &&& adds(
                s,
                t,
                seq![],
                seq![Effect::Notify(Signal::NotifyOne(Occasion::PortChanged))],
            )
        }),
{
}

/// Whether keys are held down on a client is what was noted last. Nothing else that is
/// held of any client changes, and nobody is told.
pub proof fn law_pressed_keys(s: ServerView, h: ClientHandle, pressed: bool)
    ensures
        ({
            let t = s.update_pressed_keys(h, pressed);
            &&& t.clients.contains_key(h) == s.clients.contains_key(h)
            &&& s.clients.contains_key(h) ==> {
                &&& t.clients[h].1.has_pressed_keys == pressed
                &&& t.clients[h].0 == s.clients[h].0
                &&& t.clients[h].1 == ClientStateView {
                    has_pressed_keys: pressed,
                    ..s.clients[h].1
                }
            }
            &&& others_kept(s, t, h)
            &&& same_service(s, t)
            &&& adds(s, t, seq![], seq![])
        }),
{
}

/// Whether the name of a client is being looked up is what was noted last. Nothing else
/// that is held of any client changes, and the frontends are told that the client changed,
/// even if there is none.
pub proof fn law_resolving(s: ServerView, h: ClientHandle, resolving: bool)
    ensures
        ({
            let t = s.set_resolving(h, resolving);
            &&& t.clients.contains_key(h) == s.clients.contains_key(h)
            &&& s.clients.contains_key(h) ==> {
                &&& t.clients[h].1.resolving == resolving
                &&& t.clients[h].0 == s.clients[h].0
                &&& t.clients[h].1 == ClientStateView { resolving, ..s.clients[h].1 }
            }
            &&& others_kept(s, t, h)
            &&& same_service(s, t)
            &&& adds(s, t, seq![FrontendEventView::Changed(h)], seq![wake()])
        }),
{
}

/// Where a client answers, and whether it does, is what was noted last. Nothing else that
/// is held of any client changes, and nobody is told.
pub proof fn law_noted(s: ServerView, h: ClientHandle, addr: Option<SocketAddr>, alive: bool)
    ensures
        ({
            let t = s.note(h, addr, alive);
            &&& t.clients.contains_key(h) == s.clients.contains_key(h)
            &&& s.clients.contains_key(h) ==> {
                &&& t.clients[h].0 == s.clients[h].0
                &&& t.clients[h].1 == ClientStateView {
                    active_addr: addr,
                    alive,
                    ..s.clients[h].1
                }
            }
            &&& others_kept(s, t, h)
            &&& same_service(s, t)
            &&& adds(s, t, seq![], seq![])
        }),
{
}

/// A client has the host name that it was given. If that is another one than before, the
/// address in use and the addresses that the old name led to are forgotten, so that the
/// client has just those that the user has given, and the new name is looked up. The
/// frontends are told that the client changed. Where there is no such client, nothing
/// happens.
pub proof fn law_new_hostname(s: ServerView, h: ClientHandle, hostname: Option<String>)
    ensures
        ({
            let t = s.handle_request(FrontendRequest::UpdateHostname(h, hostname)@);
            &&& t == s.update_hostname(h, chars(hostname))
            &&& !s.clients.contains_key(h) ==> t == s
            &&& s.clients.contains_key(h) ==> {
                let (before, now) = (s.clients[h], t.clients[h]);
                let name = now.0.hostname;
                &&& t.clients.contains_key(h)
                &&& name is Some == hostname is Some
                &&& name is Some ==> name->0 == hostname->0@
                &&& now.0 == ClientConfigView { hostname: name, ..before.0 }
                &&& if before.0.hostname == name {
                    &&& now.1 == before.1
                    &&& adds(s, t, seq![FrontendEventView::Changed(h)], seq![wake()])
                } else {
                    &&& now.1.active_addr is None
                    &&& now.1.dns_ips.len() == 0
                    &&& forall|ip: IpAddr| #[trigger]
                        now.1.ips.contains(ip) == before.0.fix_ips.contains(ip)
                    &&& now.1 == ClientStateView {
                        active_addr: None,
                        dns_ips: now.1.dns_ips,
                        ips: now.1.ips,
                        ..before.1
                    }
                    &&& adds(
                        s,
                        t,
                        seq![FrontendEventView::Changed(h)],
                        seq![Effect::ResolveDns(h), wake()],
                    )
                }
            }
            &&& others_kept(s, t, h)
            &&& same_service(s, t)
        }),
{
}

/// A client has the port that it was given. If that is another one than before, the
/// address in use is the old IP address at the new port, with neither a flow label nor a
/// scope. Nobody is told. Where there is no such client, nothing happens.
pub proof fn law_new_client_port(s: ServerView, h: ClientHandle, port: u16)
    ensures
        ({
            let t = s.handle_request(FrontendRequest::UpdatePort(h, port)@);
            &&& t == s.update_port(h, port)
            &&& t.clients.contains_key(h) == s.clients.contains_key(h)
            &&& s.clients.contains_key(h) ==> {
                let (before, now) = (s.clients[h], t.clients[h]);
                &&& now.0 == ClientConfigView { port, ..before.0 }
                &&& now.1 == ClientStateView { active_addr: now.1.active_addr, ..before.1 }
                &&& now.1.active_addr == if before.0.port == port {
                    before.1.active_addr
                } else {
                    match before.1.active_addr {
                        None => None,
                        Some(SocketAddr::V4 { ipv4, port: _ }) => Some(
                            SocketAddr::V4 { ipv4, port },
                        ),
                        Some(SocketAddr::V6 { ipv6, port: _, flowinfo: _, scope_id: _ }) => Some(
                            SocketAddr::V6 { ipv6, port, flowinfo: 0, scope_id: 0 },
                        ),
                    }
                }
            }
            &&& others_kept(s, t, h)
            &&& same_service(s, t)
            &&& adds(s, t, seq![], seq![])
        }),
{
}

/// An address that was put together has the parts that it was put together from, and an
/// IPv6 address that was put together has neither a flow label nor a scope. Addresses are
/// of the family of their IP part.
pub proof fn law_socket_addresses(ip: IpAddr, port: u16, addr: SocketAddr)
    ensures
        ({
            let made = SocketAddr::spec_new(ip, port);
            &&& made.spec_ip() == ip
            &&& made.spec_port() == port
            &&& made matches SocketAddr::V6 { ipv6: _, port: _, flowinfo, scope_id }
                ==> flowinfo == 0 && scope_id == 0
        }),
        addr matches SocketAddr::V4 { ipv4, port: p } ==> addr.spec_ip() == IpAddr::V4(ipv4)
            && addr.spec_port() == p,
        addr matches SocketAddr::V6 { ipv6, port: p, flowinfo: _, scope_id: _ } ==> addr.spec_ip()
            == IpAddr::V6(ipv6) && addr.spec_port() == p,
{
}

/// Each side of the screen has its own edge, the one of the same name.
pub proof fn law_edges(pos: Position)
    ensures
        pos is Left <==> capture_pos(pos) == CapturePosition::Left,
        pos is Right <==> capture_pos(pos) == CapturePosition::Right,
        pos is Top <==> capture_pos(pos) == CapturePosition::Top,
        pos is Bottom <==> capture_pos(pos) == CapturePosition::Bottom,
{
}

/// The client `o` is active on the side, and of those that are it has the lowest handle.
pub open spec fn first_on_side(s: ServerView, pos: Position, o: ClientHandle) -> bool {
    &&& s.clients.contains_key(o) && s.clients[o].1.active && s.clients[o].0.pos == pos
    &&& forall|k: ClientHandle|
        s.clients.contains_key(k) && (#[trigger] s.clients[k]).1.active && s.clients[k].0.pos == pos
            ==> o <= k
}

/// No client is active on the side.
pub open spec fn side_is_free(s: ServerView, pos: Position) -> bool {
    forall|k: ClientHandle|
        s.clients.contains_key(k) && (#[trigger] s.clients[k]).1.active ==> s.clients[k].0.pos
            != pos
}

/// What the tasks are asked for when a client becomes active.
pub open spec fn brought_up(h: ClientHandle, edge: CapturePosition) -> Seq<Effect> {
    seq![
        Effect::Capture(CaptureRequest::Create(h, edge)),
        Effect::Emulation(EmulationRequest::Create(h)),
        wake(),
    ]
}

/// What the tasks are asked for when a client is no longer active.
pub open spec fn taken_down(h: ClientHandle) -> Seq<Effect> {
    seq![
        Effect::Capture(CaptureRequest::Destroy(h)),
        Effect::Emulation(EmulationRequest::Destroy(h)),
        wake(),
    ]
}

/// The active client on a side is the one with the lowest handle.
proof fn lemma_first_on_side(s: ServerView, pos: Position)
    ensures
        match occupant(s.clients, pos) {
            Some(o) => first_on_side(s, pos, o),
            None => side_is_free(s, pos),
        },
        forall|o: ClientHandle| #[trigger]
            first_on_side(s, pos, o) ==> occupant(s.clients, pos) == Some(o),
        side_is_free(s, pos) ==> occupant(s.clients, pos) is None,
{
    let p = is_active_at(s.clients, pos);
    lemma_lowest(p);
    assert forall|k: ClientHandle|
        s.clients.contains_key(k) && (#[trigger] s.clients[k]).1.active && s.clients[k].0.pos
            == pos implies p(k) by {
    }
    assert forall|o: ClientHandle| #[trigger] first_on_side(s, pos, o) implies occupant(
        s.clients,
        pos,
    ) == Some(o) by {
        assert(p(o));
        let q = occupant(s.clients, pos)->0;
        assert(p(q));
        assert(s.clients[q].1.active);
    }
    if occupant(s.clients, pos) is Some {
        let q = occupant(s.clients, pos)->0;
        assert(p(q));
        assert(s.clients[q].1.active);
    }
}

/// A client is found on a side exactly if one is active there; it is the one with the
/// lowest handle.
pub proof fn law_found_client(s: ServerView, pos: Position, o: ClientHandle)
    ensures
        occupant(s.clients, pos) == Some(o) <==> first_on_side(s, pos, o),
        occupant(s.clients, pos) is None <==> side_is_free(s, pos),
{
    lemma_first_on_side(s, pos);
}

/// An activation does nothing where there is no such client, or where it is active
/// already. Else the client is active afterwards and nothing else is held of it than
/// before.
pub proof fn law_activation(s: ServerView, h: ClientHandle)
    ensures
        ({
            let t = s.handle_request(FrontendRequest::Activate(h, true)@);
            &&& t == s.activate(h)
            &&& !s.clients.contains_key(h) || s.clients[h].1.active ==> t == s
            &&& s.clients.contains_key(h) ==> {
                &&& t.clients.contains_key(h)
                &&& t.clients[h].0 == s.clients[h].0
                &&& t.clients[h].1 == ClientStateView { active: true, ..s.clients[h].1 }
            }
            &&& same_service(s, t)
        }),
{
    lemma_first_on_side(s, s.clients[h].0.pos);
}

/// An activation on a side where no client is active changes no other client. The tasks
/// are asked to work for the client, and the frontends are told that it changed.
pub proof fn law_activation_on_free_side(s: ServerView, h: ClientHandle)
    requires
        s.clients.contains_key(h),
        !s.clients[h].1.active,
        side_is_free(s, s.clients[h].0.pos),
    ensures
        ({
            let t = s.activate(h);
            let edge = capture_pos(s.clients[h].0.pos);
            &&& others_kept(s, t, h)
            &&& adds(s, t, seq![FrontendEventView::Changed(h)], brought_up(h, edge))
        }),
{
    lemma_first_on_side(s, s.clients[h].0.pos);
}

/// An activation takes the side from the client that is active there: that one is no
/// longer active, and nothing else is held of it than before. The tasks are asked to drop
/// it before they are asked to work for the new one, and the frontends are told of both.
pub proof fn law_activation_takes_side(s: ServerView, h: ClientHandle, o: ClientHandle)
    requires
        s.clients.contains_key(h),
        !s.clients[h].1.active,
        first_on_side(s, s.clients[h].0.pos, o),
    ensures
        ({
            let t = s.activate(h);
            let edge = capture_pos(s.clients[h].0.pos);
            &&& t.clients.contains_key(o)
            &&& t.clients[o].0 == s.clients[o].0
            &&& t.clients[o].1 == ClientStateView { active: false, ..s.clients[o].1 }
            &&& forall|k: ClientHandle|
                k != h && k != o ==> #[trigger] t.clients.contains_key(k)
                    == s.clients.contains_key(k) && (s.clients.contains_key(k) ==> t.clients[k]
                    == s.clients[k])
            &&& adds(
                s,
                t,
                seq![FrontendEventView::Changed(o), FrontendEventView::Changed(h)],
                taken_down(o) + brought_up(h, edge),
            )
        }),
{
    lemma_first_on_side(s, s.clients[h].0.pos);
}

/// A deactivation does nothing where there is no such client, or where it is not active.
/// Else the client is no longer active, and nothing else is held of it or of any other
/// client than before; the tasks are asked to drop it, and the frontends are told that it
/// changed.
pub proof fn law_deactivation(s: ServerView, h: ClientHandle)
    ensures
        ({
            let t = s.handle_request(FrontendRequest::Activate(h, false)@);
            &&& t == s.deactivate(h)
            &&& !s.clients.contains_key(h) || !s.clients[h].1.active ==> t == s
            &&& s.clients.contains_key(h) && s.clients[h].1.active ==> {
                &&& t.clients.contains_key(h)
                &&& t.clients[h].0 == s.clients[h].0
                &&& t.clients[h].1 == ClientStateView { active: false, ..s.clients[h].1 }
                &&& adds(s, t, seq![FrontendEventView::Changed(h)], taken_down(h))
            }
            &&& others_kept(s, t, h)
            &&& same_service(s, t)
        }),
{
}

/// A client sits on the side that it was put on, and nothing else is held of it than
/// before. Where there is no such client, or where it sits there already, nothing happens;
/// moving a client that is not active touches no other client, and nobody is told.
pub proof fn law_move(s: ServerView, h: ClientHandle, pos: Position)
    ensures
        ({
            let t = s.handle_request(FrontendRequest::UpdatePosition(h, pos)@);
            &&& t == s.update_pos(h, pos)
            &&& !s.clients.contains_key(h) || s.clients[h].0.pos == pos ==> t == s
            &&& s.clients.contains_key(h) ==> {
                &&& t.clients.contains_key(h)
                &&& t.clients[h].0 == ClientConfigView { pos, ..s.clients[h].0 }
                &&& t.clients[h].1 == s.clients[h].1
            }
            &&& s.clients.contains_key(h) && !s.clients[h].1.active ==> {
                &&& others_kept(s, t, h)
                &&& adds(s, t, seq![], seq![])
            }
            &&& same_service(s, t)
        }),
{
    lemma_move(s, h, pos);
}

/// An active client that is moved is taken down first, and is then activated on its new
/// side.
proof fn lemma_move(s: ServerView, h: ClientHandle, pos: Position)
    ensures
        s.clients.contains_key(h) && s.clients[h].0.pos != pos && s.clients[h].1.active ==> ({
            let (c, st) = s.clients[h];
            let down = s.with_client(h, (ClientConfigView { pos, ..c }, st)).deactivate(h);
            &&& s.update_pos(h, pos) == down.activate(h)
            &&& down.clients.contains_key(h)
            &&& down.clients[h].0 == ClientConfigView { pos, ..c }
            &&& down.clients[h].1 == ClientStateView { active: false, ..st }
            &&& others_kept(s, down, h)
            &&& adds(s, down, seq![FrontendEventView::Changed(h)], taken_down(h))
            &&& same_service(s, down)
            &&& side_is_free(s, pos) ==> side_is_free(down, pos)
            &&& forall|o: ClientHandle| #[trigger]
                first_on_side(s, pos, o) ==> first_on_side(down, pos, o)
            &&& down.activate(h).clients.contains_key(h)
            &&& down.activate(h).clients[h].0 == down.clients[h].0
            &&& down.activate(h).clients[h].1 == st
            &&& same_service(s, down.activate(h))
        }),
{
    if s.clients.contains_key(h) && s.clients[h].0.pos != pos && s.clients[h].1.active {
        let (c, st) = s.clients[h];
        let down = s.with_client(h, (ClientConfigView { pos, ..c }, st)).deactivate(h);
        assert(others_kept(s, down, h));
        assert forall|k: ClientHandle| k != h implies #[trigger] down.clients.contains_key(k)
            == s.clients.contains_key(k) by {
        }
        assert forall|o: ClientHandle| #[trigger] first_on_side(s, pos, o) implies first_on_side(
            down,
            pos,
            o,
        ) by {
            assert(down.clients.contains_key(o));
            assert forall|k: ClientHandle|
                down.clients.contains_key(k) && (#[trigger] down.clients[k]).1.active
                    && down.clients[k].0.pos == pos implies o <= k by {
                assert(s.clients[k].1.active);
            }
        }
        if side_is_free(s, pos) {
            assert forall|k: ClientHandle|
                down.clients.contains_key(k) && (
                #[trigger] down.clients[k]).1.active implies down.clients[k].0.pos != pos by {
                assert(s.clients[k].1.active);
            }
        }
        law_activation(down, h);
    }
}

/// An active client that is put on another side where no client is active changes no other
/// client. The tasks are asked to drop it, and then to work for it at the edge of its new
/// side; the frontends are told of both.
pub proof fn law_move_to_free_side(s: ServerView, h: ClientHandle, pos: Position)
    requires
        s.clients.contains_key(h),
        s.clients[h].1.active,
        s.clients[h].0.pos != pos,
        side_is_free(s, pos),
    ensures
        ({
            let t = s.update_pos(h, pos);
            &&& others_kept(s, t, h)
            &&& adds(
                s,
                t,
                seq![FrontendEventView::Changed(h), FrontendEventView::Changed(h)],
                taken_down(h) + brought_up(h, capture_pos(pos)),
            )
        }),
{
    let (c, st) = s.clients[h];
    let down = s.with_client(h, (ClientConfigView { pos, ..c }, st)).deactivate(h);
    let t = s.update_pos(h, pos);
    lemma_move(s, h, pos);
    law_activation_on_free_side(down, h);
    assert forall|k: ClientHandle| k != h implies #[trigger] t.clients.contains_key(k)
        == s.clients.contains_key(k) && (s.clients.contains_key(k) ==> t.clients[k]
        == s.clients[k]) by {
        assert(down.clients.contains_key(k) == s.clients.contains_key(k));
    }
}

/// An active client that is put on another side takes it from the client that is active
/// there, as an activation does.
pub proof fn law_move_takes_side(s: ServerView, h: ClientHandle, pos: Position, o: ClientHandle)
    requires
        s.clients.contains_key(h),
        s.clients[h].1.active,
        s.clients[h].0.pos != pos,
        first_on_side(s, pos, o),
    ensures
        ({
            let t = s.update_pos(h, pos);
            &&& t.clients.contains_key(o)
            &&& t.clients[o].0 == s.clients[o].0
            &&& t.clients[o].1 == ClientStateView { active: false, ..s.clients[o].1 }
            &&& forall|k: ClientHandle|
                k != h && k != o ==> #[trigger] t.clients.contains_key(k)
                    == s.clients.contains_key(k) && (s.clients.contains_key(k) ==> t.clients[k]
                    == s.clients[k])
            &&& adds(
                s,
                t,
                seq![
                    FrontendEventView::Changed(h),
                    FrontendEventView::Changed(o),
                    FrontendEventView::Changed(h),
                ],
                taken_down(h) + taken_down(o) + brought_up(h, capture_pos(pos)),
            )
        }),
{
    let (c, st) = s.clients[h];
    let down = s.with_client(h, (ClientConfigView { pos, ..c }, st)).deactivate(h);
    let t = s.update_pos(h, pos);
    lemma_move(s, h, pos);
    law_activation_takes_side(down, h, o);
    assert(down.clients.contains_key(o));
    assert forall|k: ClientHandle| k != h && k != o implies #[trigger] t.clients.contains_key(k)
        == s.clients.contains_key(k) && (s.clients.contains_key(k) ==> t.clients[k]
        == s.clients[k]) by {
        assert(down.clients.contains_key(k) == s.clients.contains_key(k));
    }
}

/// A client that is created gets the lowest handle that names none. It has no name, no
/// address and no command, the default port, sits on the left, and is not active; nothing
/// is known of it. The frontends are told what is held of it. No other client changes.
pub proof fn law_creation(s: ServerView, h: ClientHandle)
    requires
        !s.clients.contains_key(h),
        forall|k: ClientHandle| k < h ==> #[trigger] s.clients.contains_key(k),
    ensures
        ({
            let t = s.handle_request(FrontendRequest::Create@);
            let (c, st) = t.clients[h];
            &&& t == s.add_client()
            &&& free_handle(s.clients) == Some(h)
            &&& t.clients.contains_key(h)
            &&& c.hostname is None
            &&& c.fix_ips.len() == 0
            &&& c.port == 4242
            &&& c.pos == Position::Left
            &&& c.cmd is None
            &&& !st.active
            &&& st.active_addr is None
            &&& !st.alive
            &&& st.dns_ips.len() == 0
            &&& forall|ip: IpAddr| !#[trigger] st.ips.contains(ip)
            &&& !st.has_pressed_keys
            &&& !st.resolving
            &&& others_kept(s, t, h)
            &&& same_service(s, t)
            &&& adds(s, t, seq![FrontendEventView::Created(h, c, st)], seq![wake()])
        }),
{
    let p = is_free(s.clients);
    assert(p(h));
    assert forall|k: ClientHandle| #[trigger] p(k) implies h <= k by {
        if k < h {
            assert(s.clients.contains_key(k));
        }
    }
    lemma_is_lowest(p, h);
}

/// A client that is deleted is gone, and no other client changes. If it was active, the
/// tasks are asked to drop it. The frontends are told that it is gone, even if it never
/// was there.
pub proof fn law_deletion(s: ServerView, h: ClientHandle)
    ensures
        ({
            let t = s.handle_request(FrontendRequest::Delete(h)@);
            let active = s.clients.contains_key(h) && s.clients[h].1.active;
            &&& !t.clients.contains_key(h)
            &&& others_kept(s, t, h)
            &&& same_service(s, t)
            &&& adds(
                s,
                t,
                seq![FrontendEventView::Deleted(h)],
                if active {
                    taken_down(h)
                } else {
                    seq![wake()]
                },
            )
        }),
{
}

/// A client that is removed is gone, and no other client changes. If it was active, the
/// tasks are asked to drop it. Nobody is told.
pub proof fn law_removal(s: ServerView, h: ClientHandle)
    ensures
        ({
            let t = s.remove_client(h);
            let active = s.clients.contains_key(h) && s.clients[h].1.active;
            &&& !t.clients.contains_key(h)
            &&& others_kept(s, t, h)
            &&& same_service(s, t)
            &&& adds(
                s,
                t,
                seq![],
                if active {
                    taken_down(h).drop_last()
                } else {
                    seq![]
                },
            )
        }),
{
}

/// A list holds exactly the clients, with what is held of each, in ascending order of their
/// handles.
pub open spec fn lists(
    clients: ClientMap,
    list: Seq<(ClientHandle, ClientConfigView, ClientStateView)>,
) -> bool {
    &&& forall|i: int|
        0 <= i < list.len() ==> clients.contains_key((#[trigger] list[i]).0) && clients[list[i].0]
            == (list[i].1, list[i].2)
    &&& forall|i: int, j: int|
        0 <= i < j < list.len() ==> (#[trigger] list[i]).0 < (#[trigger] list[j]).0
    &&& forall|h: ClientHandle| #[trigger]
        clients.contains_key(h) ==> list.contains((h, clients[h].0, clients[h].1))
}

/// An enumeration tells the frontends one thing, the list of all clients, and changes
/// nothing.
pub proof fn law_enumeration(s: ServerView)
    ensures
        ({
            let t = s.handle_request(FrontendRequest::Enumerate()@);
            let event = t.pending.last();
            &&& t == s.enumerate()
            &&& event matches FrontendEventView::Enumerate(list) && lists(s.clients, list)
            &&& t.clients == s.clients
            &&& same_service(s, t)
            &&& adds(s, t, seq![event], seq![wake()])
        }),
{
    law_listing(s.clients);
}

/// A frontend that asks for everything is told, in this order, the list of all clients,
/// whether emulation and whether capture are up, and the port. Nothing changes by it.
pub proof fn law_sync(s: ServerView)
    ensures
        ({
            let t = s.handle_request(FrontendRequest::Sync@);
            let event = t.pending[s.pending.len() as int];
            &&& event matches FrontendEventView::Enumerate(list) && lists(s.clients, list)
            &&& t.clients == s.clients
            &&& same_service(s, t)
            &&& adds(
                s,
                t,
                seq![
                    event,
                    FrontendEventView::EmulationStatus(s.emulation_status),
                    FrontendEventView::CaptureStatus(s.capture_status),
                    FrontendEventView::PortChanged(s.port, None),
                ],
                seq![wake(), wake(), wake(), wake()],
            )
        }),
{
    law_listing(s.clients);
}

/// A frontend that asks for a client is told what is held of it, or that there is none.
/// Nothing changes by it.
pub proof fn law_state_of_client(s: ServerView, h: ClientHandle)
    ensures
        ({
            let t = s.handle_request(FrontendRequest::GetState(h)@);
            let event = if s.clients.contains_key(h) {
                FrontendEventView::State(h, s.clients[h].0, s.clients[h].1)
            } else {
                FrontendEventView::NoSuchClient(h)
            };
            &&& t == s.broadcast_client(h)
            &&& t.clients == s.clients
            &&& same_service(s, t)
            &&& adds(s, t, seq![event], seq![wake()])
        }),
{
}

/// A frontend that asks for capture or for emulation wakes all tasks that wait for it, and
/// nothing else happens.
pub proof fn law_enabling(s: ServerView)
    ensures
        ({
            let t = s.handle_request(FrontendRequest::EnableCapture@);
            &&& t.clients == s.clients
            &&& same_service(s, t)
            &&& adds(s, t, seq![], seq![Effect::Notify(Signal::NotifyWaiters(Occasion::Capture))])
        }),
        ({
            let t = s.handle_request(FrontendRequest::EnableEmulation@);
            &&& t.clients == s.clients
            &&& same_service(s, t)
            &&& adds(
                s,
                t,
                seq![],
                seq![Effect::Notify(Signal::NotifyWaiters(Occasion::Emulation))],
            )
        }),
{
}

/// Whether capture is up, and whether emulation is up, is what was reported last. The
/// frontends are told, and nothing else changes.
pub proof fn law_statuses(s: ServerView, status: Status)
    ensures
        ({
            let t = s.set_capture_status(status);
            &&& t == ServerView {
                capture_status: status,
                pending: s.pending + seq![FrontendEventView::CaptureStatus(status)],
                effects: s.effects + seq![wake()],
                ..s
            }
        }),
        ({
            let t = s.set_emulation_status(status);
            &&& t == ServerView {
                emulation_status: status,
                pending: s.pending + seq![FrontendEventView::EmulationStatus(status)],
                effects: s.effects + seq![wake()],
                ..s
            }
        }),
{
    assert(s.set_capture_status(status) =~= (ServerView {
        capture_status: status,
        pending: s.pending + seq![FrontendEventView::CaptureStatus(status)],
        effects: s.effects + seq![wake()],
        ..s
    }));
    assert(s.set_emulation_status(status) =~= (ServerView {
        emulation_status: status,
        pending: s.pending + seq![FrontendEventView::EmulationStatus(status)],
        effects: s.effects + seq![wake()],
        ..s
    }));
}

/// What the frontends are to be told comes last of all that they are to be told, with one
/// wakeup; that a client changed is one such thing. Nothing else changes.
pub proof fn law_notification(s: ServerView, event: FrontendEventView, h: ClientHandle)
    ensures
        s.notify_frontend(event).clients == s.clients,
        same_service(s, s.notify_frontend(event)),
        adds(s, s.notify_frontend(event), seq![event], seq![wake()]),
        s.client_updated(h).clients == s.clients,
        same_service(s, s.client_updated(h)),
        adds(s, s.client_updated(h), seq![FrontendEventView::Changed(h)], seq![wake()]),
{
}

/// A service that is told to end is to end, and tells its tasks. Nothing else changes.
pub proof fn law_cancellation(s: ServerView)
    ensures
        s.cancel() == (ServerView {
            cancelled: true,
            effects: s.effects + seq![Effect::Notify(Signal::Cancel)],
            ..s
        }),
{
    assert(s.cancel() =~= (ServerView {
        cancelled: true,
        effects: s.effects + seq![Effect::Notify(Signal::Cancel)],
        ..s
    }));
}

/// What is handed out to be told is the oldest thing, and what is handed out to be done is
/// everything; the rest stays, and nothing else changes.
pub proof fn law_handing_out(s: ServerView)
    ensures
        s.pending.len() > 0 ==> seq![s.pending[0]] + s.tell().pending == s.pending,
        s.pending.len() == 0 ==> s.tell().pending.len() == 0,
        s.tell().effects == s.effects,
        s.tell().clients == s.clients,
        same_service(s, s.tell()),
        s.hand_out().effects.len() == 0,
        s.hand_out().pending == s.pending,
        s.hand_out().clients == s.clients,
        same_service(s, s.hand_out()),
{
}

/// A wakeup with a request does what the request does. One with a broken request does
/// nothing. One that there is something to tell hands out the oldest such thing. One that
/// ends the event loop tells the service to end.
pub proof fn law_wakeups(s: ServerView, request: FrontendRequest)
    ensures
        after_wakeup(s, Wakeup::Request(request)) == s.handle_request(request@),
        after_wakeup(s, Wakeup::RequestFailed) == s,
        after_wakeup(s, Wakeup::FrontendEventPending) == s.tell(),
        after_wakeup(s, Wakeup::Told) == s.tell(),
        after_wakeup(s, Wakeup::FrontendClosed) == s.cancel(),
        after_wakeup(s, Wakeup::Cancelled) == s.cancel(),
        after_wakeup(s, Wakeup::Interrupted) == s.cancel(),
{
}

/// What the frontends are told next is the oldest thing that they have not been told yet:
/// while they are told nothing, what comes up later does not get in before it.
pub proof fn law_next_event(s: ServerView, event: FrontendEventView)
    ensures
        s.next_event() is Some <==> s.pending.len() > 0,
        s.pending.len() > 0 ==> seq![s.next_event()->0] + s.tell().pending == s.pending,
        s.next_event() is Some ==> s.notify_frontend(event).next_event() == s.next_event(),
        s.next_event() is None ==> s.notify_frontend(event).next_event() == Some(event),
{
}

/// The host name of a client is the one that it was given, and its address in use is the
/// one that was noted. A client that does not exist has neither.
pub proof fn law_names_and_addresses(
    s: ServerView,
    h: ClientHandle,
    hostname: Option<Seq<char>>,
    addr: Option<SocketAddr>,
    alive: bool,
)
    ensures
        s.clients.contains_key(h) ==> {
            &&& s.hostname_of(h) == s.clients[h].0.hostname
            &&& s.address_of(h) == s.clients[h].1.active_addr
            &&& s.update_hostname(h, hostname).hostname_of(h) == hostname
            &&& s.note(h, addr, alive).address_of(h) == addr
        },
        !s.clients.contains_key(h) ==> {
            &&& s.hostname_of(h) is None
            &&& s.address_of(h) is None
            &&& s.update_hostname(h, hostname).hostname_of(h) is None
            &&& s.note(h, addr, alive).address_of(h) is None
        },
{
}

/// Who has the pointer, and which client has it, is what was noted last; nothing else
/// changes, and nobody is told.
pub proof fn law_pointer(s: ServerView, state: State, handle: Option<ClientHandle>)
    ensures
        s.set_state(state).state == state,
        s.set_state(state) == (ServerView { state, ..s }),
        s.set_active(handle).active_client == handle,
        s.set_active(handle) == (ServerView { active_client: handle, ..s }),
{
}

/// Starting the ping timer over wakes all tasks that wait for it, and nothing else happens.
pub proof fn law_ping_timer(s: ServerView)
    ensures
        ({
            let t = s.restart_ping_timer();
            &&& t.clients == s.clients
            &&& same_service(s, t)
            &&& adds(s, t, seq![], seq![Effect::Notify(Signal::NotifyWaiters(Occasion::Ping))])
        }),
{
}

/// With a listener the service goes on with that listener. It ends without an error exactly
/// if another instance is running, and with an error, which holds the reason, if the
/// listener could not be set up.
pub proof fn law_listening<L>(result: Result<L, ListenerCreationError>)
    ensures
        result is Ok ==> after_listening(result) is Ok && after_listening(result)->Ok_0 == Some(
            result->Ok_0,
        ),
        after_listening(result) is Ok && after_listening(result)->Ok_0 is None <==> result is Err
            && result->Err_0 is AlreadyRunning,
        result is Err && result->Err_0 is Failed ==> after_listening(result) is Err
            && after_listening(result)->Err_0 == ServiceError::Listen(result->Err_0),
{
}

} // verus!
