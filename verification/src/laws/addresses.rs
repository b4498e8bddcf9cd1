//! The addresses of a client are always collected.

use crate::client::{ClientConfigView, ClientHandle, ClientStateView, Position};
use crate::config::ConfigView;
use crate::handles::lemma_lowest;
use crate::laws::{after, Operation};
use crate::manager::{is_active_at, ClientMap};
use crate::message::FrontendRequestView;
use crate::model::{all_ips, ServerView};
use vstd::prelude::*;

verus! {

/// The addresses of every client are those that the user has given and those that its
/// name resolved to.
pub open spec fn addresses_collected(clients: ClientMap) -> bool {
    forall|h: ClientHandle| #[trigger]
        clients.contains_key(h) ==> clients[h].1.ips == all_ips(
            clients[h].0.fix_ips,
            clients[h].1.dns_ips,
        )
}

/// The service starts with the addresses of every client collected.
pub proof fn law_start_addresses_collected(config: ConfigView)
    ensures
        addresses_collected(ServerView::init(config).clients),
{
    let clients = ServerView::init(config).clients;
    assert forall|h: ClientHandle| #[trigger] clients.contains_key(h) implies clients[h].1.ips
        == all_ips(clients[h].0.fix_ips, clients[h].1.dns_ips) by {
        assert(clients[h].1.ips =~= all_ips(clients[h].0.fix_ips, Seq::empty()));
    }
}

/// Whatever happens, the addresses of every client stay collected.
pub proof fn law_addresses_collected(s: ServerView, op: Operation)
    requires
        addresses_collected(s.clients),
    ensures
        addresses_collected(after(s, op).clients),
{
    let t = after(s, op).clients;
    assert forall|h: ClientHandle| #[trigger] t.contains_key(h) implies t[h].1.ips == all_ips(
        t[h].0.fix_ips,
        t[h].1.dns_ips,
    ) by {
        assert(all_ips(t[h].0.fix_ips, Seq::empty()) =~= t[h].0.fix_ips.to_set());
        assert(ClientStateView::fresh().ips =~= all_ips(Seq::empty(), Seq::empty()));
        match op {
            Operation::Request(FrontendRequestView::UpdatePosition(k, pos)) => {
                lemma_update_pos_keeps_the_rest(s, k, pos, h);
            },
            Operation::Request(FrontendRequestView::Activate(k, true)) => {
                lemma_activate_keeps_the_rest(s, k, h);
            },
            Operation::Activate(k) => {
                lemma_activate_keeps_the_rest(s, k, h);
            },
            _ => {},
        }
    }
}

/// Activating a client changes nothing about any client but who is active.
pub proof fn lemma_activate_keeps_the_rest(s: ServerView, k: ClientHandle, h: ClientHandle)
    ensures
        ({
            let t = s.activate(k).clients;
            &&& t.contains_key(h) == s.clients.contains_key(h)
            &&& t.contains_key(h) ==> {
                &&& t[h].0 == s.clients[h].0
                &&& t[h].1 == ClientStateView { active: t[h].1.active, ..s.clients[h].1 }
            }
        }),
{
    if s.clients.contains_key(k) {
        lemma_lowest(is_active_at(s.clients, s.clients[k].0.pos));
    }
}

/// Moving a client changes nothing about any client but who is active and where the
/// client sits.
pub proof fn lemma_update_pos_keeps_the_rest(
    s: ServerView,
    k: ClientHandle,
    pos: Position,
    h: ClientHandle,
)
    ensures
        ({
            let t = s.update_pos(k, pos).clients;
            &&& t.contains_key(h) == s.clients.contains_key(h)
            &&& t.contains_key(h) ==> {
                &&& t[h].0 == ClientConfigView { pos: t[h].0.pos, ..s.clients[h].0 }
                &&& h != k ==> t[h].0 == s.clients[h].0
                &&& t[h].1 == ClientStateView { active: t[h].1.active, ..s.clients[h].1 }
            }
        }),
{
    if s.clients.contains_key(k) && s.clients[k].0.pos != pos && s.clients[k].1.active {
        let (c, st) = s.clients[k];
        let moved = s.with_client(k, (ClientConfigView { pos, ..c }, st));
        lemma_activate_keeps_the_rest(moved.deactivate(k), k, h);
    }
}

} // verus!
