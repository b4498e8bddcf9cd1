//! The queues get every message, in order.

use crate::channels::{
    accepted_captures, accepted_emulations, accepted_lookups, as_capture, as_emulation, as_lookup,
    as_signal, captures_offered, captures_sent, delivered, emulations_offered, emulations_sent,
    lookups_offered, lookups_sent, Channels, Delivery,
};
use crate::client::{CapturePosition, ClientHandle};
use crate::config::ConfigView;
use crate::laws::runs::{law_every_moment, Happening, Run};
use crate::laws::tasks::{captured, edges, emulated, tasks_follow};
use crate::message::{CaptureRequest, Effect, EmulationRequest, Signal};
use crate::model::ServerView;
use vstd::prelude::*;

verus! {

/// The edges at which a task captures input that starts with those in `start` and does
/// what its queue says.
pub open spec fn captured_by(
    start: Map<ClientHandle, CapturePosition>,
    requests: Seq<CaptureRequest>,
) -> Map<ClientHandle, CapturePosition>
    decreases requests.len(),
{
    if requests.len() == 0 {
        start
    } else {
        let earlier = captured_by(start, requests.drop_last());
        match requests.last() {
            CaptureRequest::Create(h, edge) => earlier.insert(h, edge),
            CaptureRequest::Destroy(h) => earlier.remove(h),
        }
    }
}

/// The clients whose input a task emulates that starts with those in `start` and does
/// what its queue says.
pub open spec fn emulated_by(
    start: Set<ClientHandle>,
    requests: Seq<EmulationRequest>,
) -> Set<ClientHandle>
    decreases requests.len(),
{
    if requests.len() == 0 {
        start
    } else {
        let earlier = emulated_by(start, requests.drop_last());
        match requests.last() {
            EmulationRequest::Create(h) => earlier.insert(h),
            EmulationRequest::Destroy(h) => earlier.remove(h),
        }
    }
}

/// Where every queue takes what it is given, tasks that do what their queues say capture
/// and emulate input for exactly the active clients, each at the edge of its side.
pub proof fn law_queues_carry_activity(
    start: Map<ClientHandle, CapturePosition>,
    s: ServerView,
    accepted: Seq<bool>,
)
    requires
        tasks_follow(start, s),
        accepted.len() == s.effects.len(),
        forall|i: int| 0 <= i < accepted.len() ==> #[trigger] accepted[i],
    ensures
        captured_by(start, accepted_captures(s.effects, accepted)) == edges(s.clients),
        emulated_by(start.dom(), accepted_emulations(s.effects, accepted)) == edges(
            s.clients,
        ).dom(),
{
    law_every_message_arrives(s.effects, accepted);
    lemma_queues_say_it_all(start, s.effects);
}

/// At every moment of a run, tasks that started with the active clients of the
/// configuration, and do what is put on their queues by all that was caused, capture and
/// emulate input for exactly the active clients, each at the edge of its side.
pub proof fn law_queues_carry_runs(config: ConfigView, history: Seq<Happening>)
    requires
        config.clients.len() + history.len() < 0x1_0000_0000_0000_0000nat,
    ensures
        ({
            let start = edges(ServerView::init(config).clients);
            let run = Run::of(config, history);
            let caused = run.caused();
            let wanted = edges(run.server.clients);
            &&& captured_by(start, caused.filter_map(as_capture())) == wanted
            &&& emulated_by(start.dom(), caused.filter_map(as_emulation())) == wanted.dom()
        }),
{
    law_every_moment(config, history);
    lemma_queues_say_it_all(
        edges(ServerView::init(config).clients),
        Run::of(config, history).caused(),
    );
}

/// Every message among some effects, and no other, was handed to its queue between two
/// moments, in order.
pub open spec fn offered_since(start: Channels, now: Channels, effects: Seq<Effect>) -> bool {
    &&& captures_offered(now.capture) == captures_offered(start.capture) + effects.filter_map(
        as_capture(),
    )
    &&& emulations_offered(now.emulation) == emulations_offered(start.emulation)
        + effects.filter_map(as_emulation())
    &&& lookups_offered(now.dns) == lookups_offered(start.dns) + effects.filter_map(as_lookup())
}

/// The messages among some effects and then others are those of both.
proof fn lemma_messages_in_parts<T>(
    first: Seq<Effect>,
    second: Seq<Effect>,
    f: spec_fn(Effect) -> Option<T>,
)
    ensures
        (first + second).filter_map(f) == first.filter_map(f) + second.filter_map(f),
    decreases second.len(),
{
    reveal(Seq::filter_map);
    if second.len() == 0 {
        assert(first + second =~= first);
        assert(first.filter_map(f) + second.filter_map(f) =~= first.filter_map(f));
    } else {
        assert((first + second).drop_last() =~= first + second.drop_last());
        lemma_messages_in_parts(first, second.drop_last(), f);
        assert((first + second).filter_map(f) =~= first.filter_map(f) + second.filter_map(f));
    }
}

/// As long as the resolver takes lookups, everything that a service hands out, hand-out by
/// hand-out, is handed to the queues.
pub proof fn law_hand_outs_reach_queues(
    run: Run,
    start: Channels,
    before: Channels,
    now: Channels,
    delivery: Delivery,
)
    requires
        offered_since(start, before, run.handed_out),
        delivered(before, now, run.server.effects, delivery),
        !delivery.resolver_gone,
    ensures
        offered_since(start, now, run.next(Happening::HandOut).handed_out),
{
    let effects = run.server.effects;
    assert(effects.take(effects.len() as int) =~= effects);
    lemma_messages_in_parts(run.handed_out, effects, as_capture());
    lemma_messages_in_parts(run.handed_out, effects, as_emulation());
    lemma_messages_in_parts(run.handed_out, effects, as_lookup());
    let next = run.handed_out + effects;
    assert(captures_offered(now.capture) =~= captures_offered(start.capture) + next.filter_map(
        as_capture(),
    ));
    assert(emulations_offered(now.emulation) =~= emulations_offered(start.emulation)
        + next.filter_map(as_emulation()));
    assert(lookups_offered(now.dns) =~= lookups_offered(start.dns) + next.filter_map(as_lookup()));
}

/// The queues hold all that matters to the tasks.
proof fn lemma_queues_say_it_all(
    start: Map<ClientHandle, CapturePosition>,
    effects: Seq<Effect>,
)
    ensures
        captured_by(start, effects.filter_map(as_capture())) == captured(start, effects),
        emulated_by(start.dom(), effects.filter_map(as_emulation())) == emulated(
            start.dom(),
            effects,
        ),
    decreases effects.len(),
{
    reveal(Seq::filter_map);
    if effects.len() > 0 {
        let earlier = effects.drop_last();
        lemma_queues_say_it_all(start, earlier);
        match effects.last() {
            Effect::Capture(request) => {
                assert(effects.filter_map(as_capture()) == earlier.filter_map(as_capture()).push(
                    request,
                ));
                assert(effects.filter_map(as_capture()).drop_last() == earlier.filter_map(
                    as_capture(),
                ));
                assert(effects.filter_map(as_emulation()) == earlier.filter_map(as_emulation()));
            },
            Effect::Emulation(request) => {
                assert(effects.filter_map(as_emulation()) == earlier.filter_map(
                    as_emulation(),
                ).push(request));
                assert(effects.filter_map(as_emulation()).drop_last() == earlier.filter_map(
                    as_emulation(),
                ));
                assert(effects.filter_map(as_capture()) == earlier.filter_map(as_capture()));
            },
            _ => {
                assert(effects.filter_map(as_capture()) == earlier.filter_map(as_capture()));
                assert(effects.filter_map(as_emulation()) == earlier.filter_map(as_emulation()));
            },
        }
    }
}

/// Where every queue takes what it is given, each task gets all of its messages and
/// nothing else, in the order in which they were caused.
pub proof fn law_every_message_arrives(effects: Seq<Effect>, accepted: Seq<bool>)
    requires
        accepted.len() == effects.len(),
        forall|i: int| 0 <= i < accepted.len() ==> #[trigger] accepted[i],
    ensures
        accepted_captures(effects, accepted) == effects.filter_map(as_capture()),
        accepted_emulations(effects, accepted) == effects.filter_map(as_emulation()),
        accepted_lookups(effects, accepted) == effects.filter_map(as_lookup()),
    decreases effects.len(),
{
    reveal(Seq::filter_map);
    if effects.len() > 0 {
        law_every_message_arrives(effects.drop_last(), accepted.drop_last());
        lemma_later_effects(effects, accepted.drop_last(), effects.len() - 1);
    }
}

/// Only the effects that were tried matter.
proof fn lemma_later_effects(effects: Seq<Effect>, accepted: Seq<bool>, n: int)
    requires
        accepted.len() <= n <= effects.len(),
    ensures
        accepted_captures(effects, accepted) == accepted_captures(effects.take(n), accepted),
        accepted_emulations(effects, accepted) == accepted_emulations(effects.take(n), accepted),
        accepted_lookups(effects, accepted) == accepted_lookups(effects.take(n), accepted),
    decreases accepted.len(),
{
    if accepted.len() > 0 {
        lemma_later_effects(effects, accepted.drop_last(), n);
    }
}

/// Each effect goes to one place: to the queue of the capture task, to that of the
/// emulation task, to that of the resolver, or to the tasks that wait, with what it says.
pub proof fn law_effects_have_one_place(
    capture: CaptureRequest,
    emulation: EmulationRequest,
    h: ClientHandle,
    signal: Signal,
    e: Effect,
)
    ensures
        as_capture()(Effect::Capture(capture)) == Some(capture),
        as_emulation()(Effect::Emulation(emulation)) == Some(emulation),
        as_lookup()(Effect::ResolveDns(h)) == Some(h),
        as_signal()(Effect::Notify(signal)) == Some(signal),
        as_capture()(e) is Some <==> e is Capture,
        as_emulation()(e) is Some <==> e is Emulation,
        as_lookup()(e) is Some <==> e is ResolveDns,
        as_signal()(e) is Some <==> e is Notify,
{
}

/// One more effect that was tried is one more message in its queue if the queue took it,
/// and nothing more if it did not.
pub proof fn law_taken_messages(effects: Seq<Effect>, accepted: Seq<bool>, taken: bool)
    requires
        accepted.len() < effects.len(),
    ensures
        ({
            let e = effects[accepted.len() as int];
            let more = accepted.push(taken);
            &&& accepted_captures(effects, more) == accepted_captures(effects, accepted) + match e {
                Effect::Capture(request) if taken => seq![request],
                _ => seq![],
            }
            &&& accepted_emulations(effects, more) == accepted_emulations(effects, accepted)
                + match e {
                Effect::Emulation(request) if taken => seq![request],
                _ => seq![],
            }
            &&& accepted_lookups(effects, more) == accepted_lookups(effects, accepted) + match e {
                Effect::ResolveDns(h) if taken => seq![h],
                _ => seq![],
            }
        }),
        accepted_captures(effects, Seq::empty()).len() == 0,
        accepted_emulations(effects, Seq::empty()).len() == 0,
        accepted_lookups(effects, Seq::empty()).len() == 0,
{
    let more = accepted.push(taken);
    assert(more.drop_last() =~= accepted);
    let e = effects[accepted.len() as int];
    assert(accepted_captures(effects, more) =~= accepted_captures(effects, accepted) + match e {
        Effect::Capture(request) if taken => seq![request],
        _ => seq![],
    });
    assert(accepted_emulations(effects, more) =~= accepted_emulations(effects, accepted) + match e {
        Effect::Emulation(request) if taken => seq![request],
        _ => seq![],
    });
    assert(accepted_lookups(effects, more) =~= accepted_lookups(effects, accepted) + match e {
        Effect::ResolveDns(h) if taken => seq![h],
        _ => seq![],
    });
}

/// A delivery tries all effects in order, up to and with the first lookup that the resolver
/// refuses, and says so. Every message that was tried was handed to its queue, and those
/// that a queue took are in it, after what it held before. A wakeup is never refused.
pub proof fn law_delivery(
    before: Channels,
    now: Channels,
    effects: Seq<Effect>,
    delivery: Delivery,
)
    requires
        delivered(before, now, effects, delivery),
    ensures
        ({
            let accepted = delivery.accepted@;
            let n = accepted.len() as int;
            &&& n <= effects.len()
            &&& n < effects.len() ==> delivery.resolver_gone
            &&& delivery.resolver_gone <==> n > 0 && effects[n - 1] is ResolveDns
                && !accepted[n - 1]
            &&& forall|i: int|
                0 <= i < n - 1 && effects[i] is ResolveDns ==> #[trigger] accepted[i]
            &&& forall|i: int| 0 <= i < n && effects[i] is Notify ==> #[trigger] accepted[i]
            &&& offered_since(before, now, effects.take(n))
            &&& captures_sent(now.capture) == captures_sent(before.capture) + accepted_captures(
                effects,
                accepted,
            )
            &&& emulations_sent(now.emulation) == emulations_sent(before.emulation)
                + accepted_emulations(effects, accepted)
            &&& lookups_sent(now.dns) == lookups_sent(before.dns) + accepted_lookups(
                effects,
                accepted,
            )
        }),
{
}

} // verus!
