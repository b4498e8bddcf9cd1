//! Capture and emulation follow what is active.

use crate::client::{capture_pos, CapturePosition, ClientConfigView, ClientHandle, Position};
use crate::config::ConfigView;
use crate::handles::{lemma_lowest, lowest_where};
use crate::laws::{after, Operation};
use crate::manager::{active, is_active_at, is_free, occupant, ClientMap};
use crate::message::{
    CaptureRequest, Effect, EmulationRequest, FrontendEventView, FrontendRequestView, Occasion,
    Signal,
};
use crate::model::ServerView;
use vstd::prelude::*;

verus! {

/// Where an operation adds a client, there is a handle left for it.
pub open spec fn free_for(s: ServerView, op: Operation) -> bool {
    op is AddClient || op == Operation::Request(FrontendRequestView::Create)
        ==> lowest_where(is_free(s.clients)) is Some
}

/// The edges at which input has to be captured: those of the active clients.
pub open spec fn edges(clients: ClientMap) -> Map<ClientHandle, CapturePosition> {
    Map::new(
        |h: ClientHandle| active(clients, h),
        |h: ClientHandle| capture_pos(clients[h].0.pos),
    )
}

/// The edges at which a task captures input that starts with those in `start` and does
/// what it is asked for.
pub open spec fn captured(
    start: Map<ClientHandle, CapturePosition>,
    effects: Seq<Effect>,
) -> Map<ClientHandle, CapturePosition>
    decreases effects.len(),
{
    if effects.len() == 0 {
        start
    } else {
        let earlier = captured(start, effects.drop_last());
        match effects.last() {
            Effect::Capture(CaptureRequest::Create(h, edge)) => earlier.insert(h, edge),
            Effect::Capture(CaptureRequest::Destroy(h)) => earlier.remove(h),
            _ => earlier,
        }
    }
}

/// The clients whose input a task emulates that starts with those in `start` and does
/// what it is asked for.
pub open spec fn emulated(start: Set<ClientHandle>, effects: Seq<Effect>) -> Set<ClientHandle>
    decreases effects.len(),
{
    if effects.len() == 0 {
        start
    } else {
        let earlier = emulated(start, effects.drop_last());
        match effects.last() {
            Effect::Emulation(EmulationRequest::Create(h)) => earlier.insert(h),
            Effect::Emulation(EmulationRequest::Destroy(h)) => earlier.remove(h),
            _ => earlier,
        }
    }
}

/// The other tasks, which started with the given edges, capture and emulate input for
/// exactly the active clients once they have done what they are asked for.
pub open spec fn tasks_follow(start: Map<ClientHandle, CapturePosition>, s: ServerView) -> bool {
    &&& captured(start, s.effects) == edges(s.clients)
    &&& emulated(start.dom(), s.effects) == edges(s.clients).dom()
}

/// Tasks that start with the active clients of a configuration follow the service from
/// its start.
pub proof fn law_start_tasks_follow(config: ConfigView)
    ensures
        tasks_follow(edges(ServerView::init(config).clients), ServerView::init(config)),
{
}

/// One more effect is one more thing that the tasks do.
proof fn lemma_emit(start: Map<ClientHandle, CapturePosition>, s: ServerView, e: Effect)
    ensures
        captured(start, s.emit(e).effects) == match e {
            Effect::Capture(CaptureRequest::Create(h, edge)) => captured(start, s.effects).insert(
                h,
                edge,
            ),
            Effect::Capture(CaptureRequest::Destroy(h)) => captured(start, s.effects).remove(h),
            _ => captured(start, s.effects),
        },
        emulated(start.dom(), s.emit(e).effects) == match e {
            Effect::Emulation(EmulationRequest::Create(h)) => emulated(
                start.dom(),
                s.effects,
            ).insert(h),
            Effect::Emulation(EmulationRequest::Destroy(h)) => emulated(
                start.dom(),
                s.effects,
            ).remove(h),
            _ => emulated(start.dom(), s.effects),
        },
        s.emit(e).clients == s.clients,
{
    assert(s.emit(e).effects.drop_last() == s.effects);
}

/// Telling the frontends something asks nothing of the other tasks.
proof fn lemma_notify(
    start: Map<ClientHandle, CapturePosition>,
    s: ServerView,
    event: FrontendEventView,
)
    ensures
        captured(start, s.notify_frontend(event).effects) == captured(start, s.effects),
        emulated(start.dom(), s.notify_frontend(event).effects) == emulated(
            start.dom(),
            s.effects,
        ),
        s.notify_frontend(event).clients == s.clients,
{
    let t = ServerView { pending: s.pending.push(event), ..s };
    lemma_emit(start, t, Effect::Notify(Signal::NotifyOne(Occasion::FrontendEventPending)));
}

/// Taking a client down asks the tasks to drop it.
proof fn lemma_destroy(start: Map<ClientHandle, CapturePosition>, s: ServerView, h: ClientHandle)
    ensures
        captured(start, s.destroy(h).effects) == captured(start, s.effects).remove(h),
        emulated(start.dom(), s.destroy(h).effects) == emulated(start.dom(), s.effects).remove(h),
        s.destroy(h).clients == s.clients,
{
    let e = Effect::Capture(CaptureRequest::Destroy(h));
    lemma_emit(start, s, e);
    lemma_emit(start, s.emit(e), Effect::Emulation(EmulationRequest::Destroy(h)));
}

/// The tasks follow a deactivation.
proof fn lemma_deactivate_follows(
    start: Map<ClientHandle, CapturePosition>,
    s: ServerView,
    h: ClientHandle,
)
    requires
        tasks_follow(start, s),
    ensures
        tasks_follow(start, s.deactivate(h)),
{
    if active(s.clients, h) {
        let down = s.with_active(h, false);
        lemma_destroy(start, down, h);
        lemma_notify(start, down.destroy(h), FrontendEventView::Changed(h));
        assert(edges(down.clients) =~= edges(s.clients).remove(h));
        assert(edges(down.clients).dom() =~= edges(s.clients).dom().remove(h));
    }
}

/// The tasks follow an activation.
proof fn lemma_activate_follows(
    start: Map<ClientHandle, CapturePosition>,
    s: ServerView,
    h: ClientHandle,
)
    requires
        tasks_follow(start, s),
    ensures
        tasks_follow(start, s.activate(h)),
{
    if s.clients.contains_key(h) && !active(s.clients, h) {
        let pos = s.clients[h].0.pos;
        lemma_lowest(is_active_at(s.clients, pos));
        let cleared = s.vacate(pos);
        if occupant(s.clients, pos) is Some {
            lemma_deactivate_follows(start, s, occupant(s.clients, pos)->0);
        }
        let up = cleared.with_active(h, true);
        let e1 = Effect::Capture(CaptureRequest::Create(h, capture_pos(pos)));
        let e2 = Effect::Emulation(EmulationRequest::Create(h));
        lemma_emit(start, up, e1);
        lemma_emit(start, up.emit(e1), e2);
        lemma_notify(start, up.emit(e1).emit(e2), FrontendEventView::Changed(h));
        assert(edges(up.clients) =~= edges(cleared.clients).insert(h, capture_pos(pos)));
        assert(edges(up.clients).dom() =~= edges(cleared.clients).dom().insert(h));
    }
}

/// The tasks follow a move.
proof fn lemma_update_pos_follows(
    start: Map<ClientHandle, CapturePosition>,
    s: ServerView,
    h: ClientHandle,
    pos: Position,
)
    requires
        tasks_follow(start, s),
    ensures
        tasks_follow(start, s.update_pos(h, pos)),
{
    if s.clients.contains_key(h) && s.clients[h].0.pos != pos {
        let (c, st) = s.clients[h];
        let moved = s.with_client(h, (ClientConfigView { pos, ..c }, st));
        if st.active {
            let down = moved.with_active(h, false);
            lemma_destroy(start, down, h);
            lemma_notify(start, down.destroy(h), FrontendEventView::Changed(h));
            assert(edges(down.clients) =~= edges(s.clients).remove(h));
            assert(edges(down.clients).dom() =~= edges(s.clients).dom().remove(h));
            lemma_activate_follows(start, moved.deactivate(h), h);
        } else {
            assert(edges(moved.clients) =~= edges(s.clients));
        }
    }
}

/// The tasks follow a removal.
proof fn lemma_remove_follows(
    start: Map<ClientHandle, CapturePosition>,
    s: ServerView,
    h: ClientHandle,
)
    requires
        tasks_follow(start, s),
    ensures
        tasks_follow(start, s.remove_client(h)),
{
    let rest = ServerView { clients: s.clients.remove(h), ..s };
    lemma_destroy(start, rest, h);
    assert(edges(rest.clients) =~= edges(s.clients).remove(h));
    assert(edges(rest.clients).dom() =~= edges(s.clients).dom().remove(h));
    if !active(s.clients, h) {
        assert(edges(rest.clients) =~= edges(s.clients));
    }
}

/// Effects that are no messages to the capture or the emulation task ask nothing of
/// them.
proof fn lemma_no_request(
    start: Map<ClientHandle, CapturePosition>,
    effects: Seq<Effect>,
    more: Seq<Effect>,
)
    requires
        forall|i: int|
            0 <= i < more.len() ==> #[trigger] more[i] is ResolveDns || more[i] is Notify,
    ensures
        captured(start, effects + more) == captured(start, effects),
        emulated(start.dom(), effects + more) == emulated(start.dom(), effects),
    decreases more.len(),
{
    if more.len() == 0 {
        assert(effects + more == effects);
    } else {
        assert((effects + more).drop_last() == effects + more.drop_last());
        assert((effects + more).last() == more.last());
        lemma_no_request(start, effects, more.drop_last());
    }
}

/// What neither activates, moves nor takes away a client asks nothing of the tasks.
#[verifier::rlimit(40)]
proof fn lemma_other_operations_follow(
    start: Map<ClientHandle, CapturePosition>,
    s: ServerView,
    op: Operation,
)
    requires
        tasks_follow(start, s),
        free_for(s, op),
        match op {
            Operation::Activate(_) | Operation::Deactivate(_) | Operation::Remove(_) => false,
            Operation::Request(request) => match request {
                FrontendRequestView::Activate(_, _) => false,
                FrontendRequestView::UpdatePosition(_, _) => false,
                FrontendRequestView::Delete(_) => false,
                _ => true,
            },
            _ => true,
        },
    ensures
        tasks_follow(start, after(s, op)),
{
    let t = after(s, op);
    if op is AddClient || op == Operation::Request(FrontendRequestView::Create) {
        lemma_lowest(is_free(s.clients));
    }
    assert(edges(t.clients) =~= edges(s.clients));
    let more = t.effects.skip(s.effects.len() as int);
    assert(t.effects =~= s.effects + more);
    lemma_no_request(start, s.effects, more);
}

/// Whatever happens, the capture task and the emulation task are asked for just what
/// makes them work for exactly the active clients, each at the edge of its side, if that
/// was so before.
pub proof fn law_tasks_follow(
    start: Map<ClientHandle, CapturePosition>,
    s: ServerView,
    op: Operation,
)
    requires
        tasks_follow(start, s),
        free_for(s, op),
    ensures
        tasks_follow(start, after(s, op)),
{
    match op {
        Operation::Activate(h) => lemma_activate_follows(start, s, h),
        Operation::Deactivate(h) => lemma_deactivate_follows(start, s, h),
        Operation::Remove(h) => lemma_remove_follows(start, s, h),
        Operation::Request(FrontendRequestView::Activate(h, true)) => lemma_activate_follows(
            start,
            s,
            h,
        ),
        Operation::Request(FrontendRequestView::Activate(h, false)) => lemma_deactivate_follows(
            start,
            s,
            h,
        ),
        Operation::Request(FrontendRequestView::UpdatePosition(h, pos)) => lemma_update_pos_follows(
            start,
            s,
            h,
            pos,
        ),
        Operation::Request(FrontendRequestView::Delete(h)) => {
            lemma_remove_follows(start, s, h);
            lemma_notify(start, s.remove_client(h), FrontendEventView::Deleted(h));
        },
        _ => {
            lemma_other_operations_follow(start, s, op);
        },
    }
}

} // verus!
