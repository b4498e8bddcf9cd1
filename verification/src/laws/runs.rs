//! What holds throughout a run of the service.

use crate::client::{CapturePosition, ClientHandle};
use crate::config::ConfigView;
use crate::handles::{all_handles, lemma_lowest, lowest_where};
use crate::laws::addresses::{
    addresses_collected, law_addresses_collected, law_start_addresses_collected,
    lemma_activate_keeps_the_rest, lemma_update_pos_keeps_the_rest,
};
use crate::laws::answers::{
    frontend_wakeups, is_frontend_wakeup, law_nothing_is_lost, law_requests_keep_the_rest,
    only_adds,
};
use crate::laws::sides::{
    law_one_active_per_side, law_start_one_active_per_side, one_active_per_side, sides_differ,
};
use crate::laws::tasks::{
    captured, edges, emulated, law_start_tasks_follow, law_tasks_follow, tasks_follow,
};
use crate::laws::{after, Operation};
use crate::manager::{is_free, ClientMap};
use crate::message::{Effect, FrontendEventView, FrontendRequestView};
use crate::model::ServerView;
use crate::service::{after_wakeup, Wakeup};
use vstd::prelude::*;

verus! {

/// One thing that happens to the service. All tasks share one service, so what any of them
/// asks for is part of the same run.
pub enum Happening {
    /// Someone asks for something.
    Asked(Operation),
    /// The event loop goes on from a wakeup.
    Woken(Wakeup),
    /// What was caused is handed out.
    HandOut,
}

/// What the service is asked for by a happening. An event loop that ends tells everyone
/// else to end.
pub open spec fn asked(happening: Happening) -> Option<Operation> {
    match happening {
        Happening::Asked(op) => Some(op),
        Happening::Woken(Wakeup::Request(request)) => Some(Operation::Request(request@)),
        Happening::Woken(wakeup) => if ends(wakeup) {
            Some(Operation::Cancel)
        } else {
            None
        },
        Happening::HandOut => None,
    }
}

/// Whether the service is told to end by a happening.
pub open spec fn cancels(happening: Happening) -> bool {
    match asked(happening) {
        Some(op) => op is Cancel,
        None => false,
    }
}

/// Whether the event loop ends with a wakeup.
pub open spec fn ends(wakeup: Wakeup) -> bool {
    wakeup is FrontendClosed || wakeup is Cancelled || wakeup is Interrupted
}

/// Whether the event loop ends with a happening.
pub open spec fn ends_loop(happening: Happening) -> bool {
    match happening {
        Happening::Woken(wakeup) => ends(wakeup),
        _ => false,
    }
}

/// The service at one moment, with what came before.
#[verifier::ext_equal]
pub struct Run {
    /// The service.
    pub server: ServerView,
    /// Everything that was handed out to be done, oldest first.
    pub handed_out: Seq<Effect>,
    /// Everything that ever came up to be told to the frontends, oldest first.
    pub queued: Seq<FrontendEventView>,
    /// Everything that was handed out to be told to the frontends, oldest first.
    pub told: Seq<FrontendEventView>,
    /// Whether the event loop has ended.
    pub ended: bool,
}

/// What came up to be told to the frontends between two states.
pub open spec fn news(s: ServerView, t: ServerView) -> Seq<FrontendEventView> {
    t.pending.skip(s.pending.len() as int)
}

impl Run {
    /// The service has just been set up.
    pub open spec fn start(config: ConfigView) -> Run {
        Run {
            server: ServerView::init(config),
            handed_out: Seq::empty(),
            queued: Seq::empty(),
            told: Seq::empty(),
            ended: false,
        }
    }

    /// The run after one more happening.
    pub open spec fn next(self, happening: Happening) -> Run {
        let s = self.server;
        match happening {
            Happening::Asked(op) => Run {
                server: after(s, op),
                queued: self.queued + news(s, after(s, op)),
                ..self
            },
            Happening::Woken(wakeup) => {
                let t = after_wakeup(s, wakeup);
                match wakeup {
                    Wakeup::FrontendEventPending | Wakeup::Told => Run {
                        server: t,
                        told: if s.pending.len() > 0 {
                            self.told.push(s.pending[0])
                        } else {
                            self.told
                        },
                        ..self
                    },
                    _ => Run {
                        server: t,
                        queued: self.queued + news(s, t),
                        ended: self.ended || ends(wakeup),
                        ..self
                    },
                }
            },
            Happening::HandOut => Run {
                server: s.hand_out(),
                handed_out: self.handed_out + s.effects,
                ..self
            },
        }
    }

    /// The run of a service from its start.
    pub open spec fn of(config: ConfigView, history: Seq<Happening>) -> Run
        decreases history.len(),
    {
        if history.len() == 0 {
            Run::start(config)
        } else {
            Run::of(config, history.drop_last()).next(history.last())
        }
    }

    /// Everything that was caused, oldest first, whether it was handed out or not.
    pub open spec fn caused(self) -> Seq<Effect> {
        self.handed_out + self.server.effects
    }
}

/// As long as fewer clients exist than there are handles, a handle is free.
proof fn lemma_free_handle(clients: ClientMap)
    requires
        clients.dom().finite(),
        clients.dom().len() < 0x1_0000_0000_0000_0000nat,
    ensures
        lowest_where(is_free(clients)) is Some,
{
    let p = is_free(clients);
    lemma_lowest(p);
    if lowest_where(p) is None {
        let all = all_handles();
        all.unique_seq_to_set();
        assert(all.to_set().subset_of(clients.dom())) by {
            assert forall|h: ClientHandle| all.to_set().contains(h) implies #[trigger]
                clients.dom().contains(h) by {
                assert(!p(h));
            }
        }
        vstd::set_lib::lemma_len_subset(all.to_set(), clients.dom());
    }
}

/// An operation adds at most one client.
proof fn lemma_at_most_one_more(s: ServerView, op: Operation)
    requires
        s.clients.dom().finite(),
    ensures
        after(s, op).clients.dom().finite(),
        after(s, op).clients.dom().len() <= s.clients.dom().len() + 1,
{
    let t = after(s, op).clients;
    let bound = s.clients.dom().insert(s.next_handle());
    assert forall|h: ClientHandle| #[trigger] t.dom().contains(h) implies bound.contains(h) by {
        match op {
            Operation::Request(FrontendRequestView::UpdatePosition(k, pos)) =>
                lemma_update_pos_keeps_the_rest(s, k, pos, h),
            Operation::Request(FrontendRequestView::Activate(k, true)) =>
                lemma_activate_keeps_the_rest(s, k, h),
            Operation::Activate(k) => lemma_activate_keeps_the_rest(s, k, h),
            _ => {},
        }
    }
    assert(t.dom().subset_of(bound));
    vstd::set_lib::lemma_len_subset(t.dom(), bound);
}

/// The service starts with no more clients than are configured.
proof fn lemma_clients_at_start(config: ConfigView)
    requires
        config.clients.len() < 0x1_0000_0000_0000_0000nat,
    ensures
        ServerView::init(config).clients.dom().finite(),
        ServerView::init(config).clients.dom().len() <= config.clients.len(),
{
    let clients = ServerView::init(config).clients;
    let low = all_handles().take(config.clients.len() as int);
    low.unique_seq_to_set();
    assert(clients.dom().subset_of(low.to_set())) by {
        assert forall|h: ClientHandle| #[trigger] clients.dom().contains(h) implies low.to_set().contains(
            h,
        ) by {
            assert(low[h as int] == h);
        }
    }
    vstd::set_lib::lemma_len_subset(clients.dom(), low.to_set());
}

/// The service is to end exactly if it was or if it is told to; nothing takes that back.
pub proof fn law_only_cancel_cancels(s: ServerView, op: Operation)
    ensures
        after(s, op).cancelled == (s.cancelled || op is Cancel),
{
    match op {
        Operation::Activate(h) => law_requests_keep_the_rest(
            s,
            FrontendRequestView::Activate(h, true),
        ),
        Operation::Request(request) => law_requests_keep_the_rest(s, request),
        _ => {},
    }
}

/// A task that does some things and then others does them all.
proof fn lemma_captured_in_parts(
    start: Map<ClientHandle, CapturePosition>,
    first: Seq<Effect>,
    second: Seq<Effect>,
)
    ensures
        captured(start, first + second) == captured(captured(start, first), second),
        emulated(start.dom(), first + second) == emulated(emulated(start.dom(), first), second),
    decreases second.len(),
{
    if second.len() == 0 {
        assert(first + second == first);
    } else {
        assert((first + second).drop_last() == first + second.drop_last());
        lemma_captured_in_parts(start, first, second.drop_last());
    }
}

/// What holds at every moment of a run.
///
/// - The addresses of every client are collected.
/// - Tasks that started with the active clients of the configuration, and do all that was
///   caused, capture and emulate input for exactly the active clients. What has been handed
///   out asks both of them for the same clients.
/// - If the active clients of the configuration sit on different sides, at most one client
///   is active on each side.
/// - Whatever came up to be told was told or is still to be told, in the order in which it
///   came up, and each thing comes with one wakeup.
pub open spec fn in_order(config: ConfigView, run: Run) -> bool {
    let start = edges(ServerView::init(config).clients);
    let clients = run.server.clients;
    &&& addresses_collected(clients)
    &&& captured(start, run.caused()) == edges(clients)
    &&& emulated(start.dom(), run.caused()) == edges(clients).dom()
    &&& captured(start, run.handed_out).dom() == emulated(start.dom(), run.handed_out)
    &&& sides_differ(config) ==> one_active_per_side(clients)
    &&& run.queued == run.told + run.server.pending
    &&& run.queued.len() == frontend_wakeups(run.caused())
}

/// A run is in order at its start.
proof fn lemma_start_in_order(config: ConfigView)
    ensures
        in_order(config, Run::start(config)),
{
    law_start_addresses_collected(config);
    law_start_tasks_follow(config);
    if sides_differ(config) {
        law_start_one_active_per_side(config);
    }
    let run = Run::start(config);
    assert(run.caused() == Seq::<Effect>::empty());
    reveal(Seq::filter);
}

/// The edges at which a task captures input once it has done what was handed out.
spec fn reached(config: ConfigView, run: Run) -> Map<ClientHandle, CapturePosition> {
    captured(edges(ServerView::init(config).clients), run.handed_out)
}

/// What has not been handed out yet makes up for what has been.
proof fn lemma_rest_follows(config: ConfigView, run: Run)
    requires
        in_order(config, run),
    ensures
        tasks_follow(reached(config, run), run.server),
{
    let start = edges(ServerView::init(config).clients);
    lemma_captured_in_parts(start, run.handed_out, run.server.effects);
}

/// A run that is in order stays so when the service gets into a state where everything of
/// the kind holds and to which things were only added.
proof fn lemma_state_in_order(config: ConfigView, run: Run, t: ServerView)
    requires
        in_order(config, run),
        addresses_collected(t.clients),
        tasks_follow(reached(config, run), t),
        sides_differ(config) ==> one_active_per_side(t.clients),
        only_adds(run.server, t),
    ensures
        in_order(config, Run { server: t, queued: run.queued + news(run.server, t), ..run }),
{
    let s = run.server;
    let next = Run { server: t, queued: run.queued + news(s, t), ..run };
    let start = edges(ServerView::init(config).clients);
    lemma_captured_in_parts(start, run.handed_out, t.effects);
    assert(next.queued =~= run.told + t.pending);
    Seq::filter_distributes_over_add(run.handed_out, s.effects, is_frontend_wakeup());
    Seq::filter_distributes_over_add(run.handed_out, t.effects, is_frontend_wakeup());
}

/// A run that is in order stays so when the service is asked for something.
proof fn lemma_asked_in_order(config: ConfigView, run: Run, op: Operation)
    requires
        in_order(config, run),
        lowest_where(is_free(run.server.clients)) is Some,
    ensures
        in_order(config, run.next(Happening::Asked(op))),
{
    let s = run.server;
    lemma_rest_follows(config, run);
    law_addresses_collected(s, op);
    law_tasks_follow(reached(config, run), s, op);
    if sides_differ(config) {
        law_one_active_per_side(s, op);
    }
    law_nothing_is_lost(s, op);
    lemma_state_in_order(config, run, after(s, op));
}

/// A run that is in order stays so when what was caused is handed out.
proof fn lemma_hand_out_in_order(config: ConfigView, run: Run)
    requires
        in_order(config, run),
    ensures
        in_order(config, run.next(Happening::HandOut)),
{
    let next = run.next(Happening::HandOut);
    assert(next.caused() =~= run.caused());
}

/// A run that is in order stays so when the event loop is woken.
proof fn lemma_woken_in_order(config: ConfigView, run: Run, wakeup: Wakeup)
    requires
        in_order(config, run),
        lowest_where(is_free(run.server.clients)) is Some,
    ensures
        in_order(config, run.next(Happening::Woken(wakeup))),
{
    let next = run.next(Happening::Woken(wakeup));
    match wakeup {
        Wakeup::Request(request) => {
            lemma_asked_in_order(config, run, Operation::Request(request@));
        },
        Wakeup::RequestFailed => {
            assert(next.queued =~= run.queued);
        },
        Wakeup::FrontendEventPending | Wakeup::Told => {
            assert(next.caused() == run.caused());
            assert(next.told + next.server.pending =~= run.told + run.server.pending);
        },
        _ => {
            lemma_asked_in_order(config, run, Operation::Cancel);
        },
    }
}

/// A happening adds at most one client.
proof fn lemma_next_at_most_one_more(run: Run, happening: Happening)
    requires
        run.server.clients.dom().finite(),
    ensures
        run.next(happening).server.clients.dom().finite(),
        run.next(happening).server.clients.dom().len() <= run.server.clients.dom().len() + 1,
{
    match asked(happening) {
        Some(op) => {
            lemma_at_most_one_more(run.server, op);
        },
        None => {},
    }
}

/// At every moment of every run, the run is in order.
pub proof fn law_every_moment(config: ConfigView, history: Seq<Happening>)
    requires
        config.clients.len() + history.len() < 0x1_0000_0000_0000_0000nat,
    ensures
        in_order(config, Run::of(config, history)),
        Run::of(config, history).server.clients.dom().finite(),
        Run::of(config, history).server.clients.dom().len() <= config.clients.len()
            + history.len(),
    decreases history.len(),
{
    if history.len() == 0 {
        lemma_start_in_order(config);
        lemma_clients_at_start(config);
    } else {
        let run = Run::of(config, history.drop_last());
        law_every_moment(config, history.drop_last());
        lemma_free_handle(run.server.clients);
        lemma_next_at_most_one_more(run, history.last());
        match history.last() {
            Happening::Asked(op) => lemma_asked_in_order(config, run, op),
            Happening::Woken(wakeup) => lemma_woken_in_order(config, run, wakeup),
            Happening::HandOut => lemma_hand_out_in_order(config, run),
        }
    }
}

/// Something that any task has told to the frontends comes last of all that came up.
pub proof fn law_notified_comes_last(run: Run, event: FrontendEventView)
    ensures
        ({
            let next = run.next(Happening::Asked(Operation::NotifyFrontend(event)));
            &&& next.queued == run.queued.push(event)
            &&& next.server.pending == run.server.pending.push(event)
            &&& next.told == run.told
        }),
{
    let next = run.next(Happening::Asked(Operation::NotifyFrontend(event)));
    assert(news(run.server, next.server) =~= seq![event]);
}

/// The event loop tells the frontends `n` things in a row.
pub open spec fn telling(n: nat) -> Seq<Happening> {
    Seq::new(n, |i: int| Happening::Woken(Wakeup::Told))
}

/// Each wakeup tells the oldest thing that is left.
proof fn lemma_telling(config: ConfigView, history: Seq<Happening>, n: nat)
    requires
        n <= Run::of(config, history).server.pending.len(),
    ensures
        ({
            let run = Run::of(config, history);
            let pending = run.server.pending;
            Run::of(config, history + telling(n)) == Run {
                server: ServerView { pending: pending.skip(n as int), ..run.server },
                told: run.told + pending.take(n as int),
                ..run
            }
        }),
    decreases n,
{
    let run = Run::of(config, history);
    let pending = run.server.pending;
    if n == 0 {
        assert(history + telling(n) =~= history);
        assert(pending.skip(0) =~= pending);
        assert(run.told + pending.take(0) =~= run.told);
    } else {
        let m = (n - 1) as nat;
        assert((history + telling(n)).drop_last() =~= history + telling(m));
        assert((history + telling(n)).last() == Happening::Woken(Wakeup::Told));
        lemma_telling(config, history, m);
        assert(pending.skip(m as int).drop_first() =~= pending.skip(n as int));
        assert((run.told + pending.take(m as int)).push(pending[m as int]) =~= run.told
            + pending.take(n as int));
    }
}

/// Once the event loop has gone on for as long as there was something to tell, the
/// frontends have been told everything that ever came up, in the order in which it came
/// up, and nothing else.
pub proof fn law_all_is_told(config: ConfigView, history: Seq<Happening>)
    requires
        config.clients.len() + history.len() < 0x1_0000_0000_0000_0000nat,
    ensures
        ({
            let run = Run::of(config, history);
            let later = Run::of(config, history + telling(run.server.pending.len()));
            &&& later.told == run.queued
            &&& later.queued == run.queued
            &&& later.server == ServerView { pending: Seq::empty(), ..run.server }
        }),
{
    let run = Run::of(config, history);
    let n = run.server.pending.len();
    law_every_moment(config, history);
    lemma_telling(config, history, n);
    assert(run.server.pending.take(n as int) =~= run.server.pending);
    assert(run.server.pending.skip(n as int) =~= Seq::empty());
}

/// What one more happening does to whether the service is to end, and whether the event
/// loop has ended.
proof fn lemma_next_cancelled(run: Run, happening: Happening)
    ensures
        run.next(happening).server.cancelled == (run.server.cancelled || cancels(happening)),
        run.next(happening).ended == (run.ended || ends_loop(happening)),
{
    match asked(happening) {
        Some(op) => {
            law_only_cancel_cancels(run.server, op);
        },
        None => {},
    }
}

/// The service is to end exactly if it was told to, by whomever, and stays so. The event
/// loop has ended exactly if it met with something that ends it, and the service is to end
/// by then.
pub proof fn law_end(config: ConfigView, history: Seq<Happening>)
    ensures
        Run::of(config, history).server.cancelled == exists|i: int|
            0 <= i < history.len() && cancels(#[trigger] history[i]),
        Run::of(config, history).ended == exists|i: int|
            0 <= i < history.len() && ends_loop(#[trigger] history[i]),
        Run::of(config, history).ended ==> Run::of(config, history).server.cancelled,
    decreases history.len(),
{
    if history.len() > 0 {
        let earlier = history.drop_last();
        let last = history.last();
        law_end(config, earlier);
        lemma_next_cancelled(Run::of(config, earlier), last);
        assert(last == history[history.len() - 1]);
        assert(forall|i: int| 0 <= i < earlier.len() ==> #[trigger] history[i] == earlier[i]);
        assert(forall|i: int| 0 <= i < earlier.len() ==> #[trigger] earlier[i] == history[i]);
        assert(ends_loop(last) ==> cancels(last));
    }
}

/// Whatever happens after the service was told to end, it is still to end.
pub proof fn law_end_is_final(run: Run, happening: Happening)
    requires
        run.server.cancelled,
    ensures
        run.next(happening).server.cancelled,
{
    lemma_next_cancelled(run, happening);
}

} // verus!
