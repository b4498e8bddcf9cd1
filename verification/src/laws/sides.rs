//! At most one client is active on each side of the screen.

use crate::client::{ClientConfigView, ClientHandle, Position};
use crate::config::ConfigView;
use crate::handles::lemma_lowest;
use crate::laws::{after, Operation};
use crate::manager::{active, is_active_at, occupant, ClientMap};
use crate::message::FrontendRequestView;
use crate::model::ServerView;
use vstd::prelude::*;

verus! {

/// On each side of the screen at most one client is active.
pub open spec fn one_active_per_side(clients: ClientMap) -> bool {
    forall|a: ClientHandle, b: ClientHandle|
        #[trigger] active(clients, a) && #[trigger] active(clients, b) && clients[a].0.pos
            == clients[b].0.pos ==> a == b
}

/// Clearing a side leaves no active client there, if there was at most one.
proof fn lemma_vacate(s: ServerView, pos: Position)
    requires
        one_active_per_side(s.clients),
    ensures
        ({
            let t = s.vacate(pos);
            &&& one_active_per_side(t.clients)
            &&& forall|k: ClientHandle| #[trigger]
                active(t.clients, k) ==> t.clients[k].0.pos != pos
            &&& t.clients.dom() == s.clients.dom()
            &&& forall|k: ClientHandle| #[trigger]
                t.clients.contains_key(k) ==> t.clients[k].0 == s.clients[k].0
            &&& forall|k: ClientHandle| #[trigger]
                active(t.clients, k) ==> active(s.clients, k)
        }),
{
    let p = is_active_at(s.clients, pos);
    lemma_lowest(p);
    let t = s.vacate(pos);
    assert(t.clients.dom() =~= s.clients.dom()) by {
        if occupant(s.clients, pos) is Some {
            assert(p(occupant(s.clients, pos)->0));
        }
    }
    assert forall|k: ClientHandle| #[trigger] active(t.clients, k) implies active(s.clients, k)
        && t.clients[k].0.pos != pos by {
        if active(s.clients, k) && s.clients[k].0.pos == pos {
            assert(p(k));
            let other = occupant(s.clients, pos)->0;
            assert(p(other));
            assert(active(s.clients, other));
        }
    }
}

/// Activating a client keeps at most one active client on each side.
proof fn lemma_activate_one_per_side(s: ServerView, h: ClientHandle)
    requires
        one_active_per_side(s.clients),
    ensures
        one_active_per_side(s.activate(h).clients),
{
    if s.clients.contains_key(h) && !active(s.clients, h) {
        let pos = s.clients[h].0.pos;
        lemma_vacate(s, pos);
        let t = s.vacate(pos);
        assert(t.clients.contains_key(h));
        let u = s.activate(h);
        assert forall|a: ClientHandle, b: ClientHandle| #[trigger]
            active(u.clients, a) && #[trigger] active(u.clients, b) && u.clients[a].0.pos
                == u.clients[b].0.pos implies a == b by {
            assert(a == h || active(t.clients, a));
            assert(b == h || active(t.clients, b));
        }
    }
}

/// Moving a client keeps at most one active client on each side.
proof fn lemma_update_pos_one_per_side(s: ServerView, h: ClientHandle, pos: Position)
    requires
        one_active_per_side(s.clients),
    ensures
        one_active_per_side(s.update_pos(h, pos).clients),
{
    if s.clients.contains_key(h) && s.clients[h].0.pos != pos {
        let (c, st) = s.clients[h];
        let moved = s.with_client(h, (ClientConfigView { pos, ..c }, st));
        let down = moved.deactivate(h);
        let base = if st.active { down } else { moved };
        assert(one_active_per_side(base.clients)) by {
            assert forall|a: ClientHandle, b: ClientHandle| #[trigger]
                active(base.clients, a) && #[trigger] active(base.clients, b)
                    && base.clients[a].0.pos == base.clients[b].0.pos implies a == b by {
                assert(active(s.clients, a) && a != h);
                assert(active(s.clients, b) && b != h);
            }
        }
        if st.active {
            lemma_activate_one_per_side(down, h);
        }
    }
}

/// What neither activates nor moves a client lets no other client be active, or be on
/// another side.
#[verifier::rlimit(40)]
proof fn lemma_other_operations_keep_sides(s: ServerView, op: Operation, k: ClientHandle)
    requires
        active(after(s, op).clients, k),
        match op {
            Operation::Activate(_) => false,
            Operation::Request(FrontendRequestView::Activate(_, on)) => !on,
            Operation::Request(FrontendRequestView::UpdatePosition(_, _)) => false,
            _ => true,
        },
    ensures
        active(s.clients, k),
        after(s, op).clients[k].0.pos == s.clients[k].0.pos,
{
}

/// Whatever happens, at most one client is active on each side of the screen, if that
/// was so before.
pub proof fn law_one_active_per_side(s: ServerView, op: Operation)
    requires
        one_active_per_side(s.clients),
    ensures
        one_active_per_side(after(s, op).clients),
{
    match op {
        Operation::Activate(h) => lemma_activate_one_per_side(s, h),
        Operation::Request(FrontendRequestView::Activate(h, true)) => lemma_activate_one_per_side(
            s,
            h,
        ),
        Operation::Request(FrontendRequestView::UpdatePosition(h, pos)) =>
            lemma_update_pos_one_per_side(s, h, pos),
        _ => {
            let t = after(s, op).clients;
            assert forall|a: ClientHandle, b: ClientHandle| #[trigger]
                active(t, a) && #[trigger] active(t, b) && t[a].0.pos
                    == t[b].0.pos implies a == b by {
                lemma_other_operations_keep_sides(s, op, a);
                lemma_other_operations_keep_sides(s, op, b);
            }
        },
    }
}

/// The active clients of a configuration sit on different sides.
pub open spec fn sides_differ(config: ConfigView) -> bool {
    forall|i: int, j: int|
        0 <= i < j < config.clients.len() && #[trigger] config.clients[i].active
            && #[trigger] config.clients[j].active ==> config.clients[i].pos
            != config.clients[j].pos
}

/// A configuration whose active clients sit on different sides starts the service with
/// at most one active client on each side.
pub proof fn law_start_one_active_per_side(config: ConfigView)
    requires
        sides_differ(config),
    ensures
        one_active_per_side(ServerView::init(config).clients),
{
    let clients = ServerView::init(config).clients;
    assert forall|a: ClientHandle, b: ClientHandle| #[trigger]
        active(clients, a) && #[trigger] active(clients, b) && clients[a].0.pos
            == clients[b].0.pos implies a == b by {
        assert(config.clients[a as int].active);
        assert(config.clients[b as int].active);
    }
}

/// Where at most one client is active on each side, activating a client makes it the
/// only active one on its side.
pub proof fn law_activated_client_is_alone(s: ServerView, h: ClientHandle, k: ClientHandle)
    requires
        one_active_per_side(s.clients),
        s.clients.contains_key(h),
    ensures
        ({
            let t = s.activate(h).clients;
            &&& active(t, h)
            &&& t[h].0 == s.clients[h].0
            &&& active(t, k) && t[k].0.pos == t[h].0.pos ==> k == h
        }),
{
    lemma_activate_one_per_side(s, h);
    if !active(s.clients, h) {
        lemma_vacate(s, s.clients[h].0.pos);
        assert(s.vacate(s.clients[h].0.pos).clients.contains_key(h));
    }
    let t = s.activate(h).clients;
    assert(active(t, h));
    assert(active(t, k) && t[k].0.pos == t[h].0.pos ==> k == h);
}

/// A client that is put on a side of the screen sits there afterwards, and it is active
/// exactly if it was active before.
pub proof fn law_moved_client_keeps_activity(s: ServerView, h: ClientHandle, pos: Position)
    requires
        s.clients.contains_key(h),
    ensures
        ({
            let t = s.update_pos(h, pos).clients;
            &&& t.contains_key(h)
            &&& t[h].0.pos == pos
            &&& active(t, h) == active(s.clients, h)
        }),
{
    if s.clients[h].0.pos != pos && s.clients[h].1.active {
        let (c, st) = s.clients[h];
        let moved = s.with_client(h, (ClientConfigView { pos, ..c }, st));
        let down = moved.deactivate(h);
        lemma_lowest(is_active_at(down.clients, pos));
    }
}

} // verus!
