//! The queues to the other tasks of the service.

use crate::client::ClientHandle;
use crate::message::{CaptureRequest, Effect, EmulationRequest, Signal};
use crate::server::Server;
use local_channel::mpsc::Sender;
use vstd::prelude::*;

verus! {

/// The sending end of a queue, `local_channel::mpsc::Sender`. Nothing is claimed of
/// the type itself.
#[verifier::external_type_specification]
#[verifier::external_body]
#[verifier::reject_recursive_types(T)]
pub struct ExSender<T>(local_channel::mpsc::Sender<T>);

/// What has been put into the queue of the capture task through this sender, oldest
/// first. What has been taken out at the other end is still in it.
pub uninterp spec fn captures_sent(tx: Sender<CaptureRequest>) -> Seq<CaptureRequest>;

/// What has been handed to the queue of the capture task through this sender, oldest
/// first, whether the queue took it or not.
pub uninterp spec fn captures_offered(tx: Sender<CaptureRequest>) -> Seq<CaptureRequest>;

/// What has been put into the queue of the emulation task through this sender, oldest
/// first. What has been taken out at the other end is still in it.
pub uninterp spec fn emulations_sent(tx: Sender<EmulationRequest>) -> Seq<EmulationRequest>;

/// What has been handed to the queue of the emulation task through this sender, oldest
/// first, whether the queue took it or not.
pub uninterp spec fn emulations_offered(tx: Sender<EmulationRequest>) -> Seq<EmulationRequest>;

/// What has been put into the queue of the resolver through this sender, oldest first.
/// What has been taken out at the other end is still in it.
pub uninterp spec fn lookups_sent(tx: Sender<ClientHandle>) -> Seq<ClientHandle>;

/// What has been handed to the queue of the resolver through this sender, oldest first,
/// whether the queue took it or not.
pub uninterp spec fn lookups_offered(tx: Sender<ClientHandle>) -> Seq<ClientHandle>;

/// `local_channel::mpsc::Sender::send` on the queue of the capture task. It is claimed
/// that the request is the newest that was handed to the queue, that an accepted one
/// becomes the newest in the queue, and that a refused one leaves the queue as it was.
/// When a request is accepted is not said: it is refused once the receiver is gone or the
/// channel was closed, which no value here shows. The call wakes the receiver while it
/// holds the queue, so a waker must not send itself.
#[verifier::external_body]
fn send_capture(tx: &mut Sender<CaptureRequest>, request: CaptureRequest) -> (accepted: bool)
    ensures
        captures_offered(*final(tx)) == captures_offered(*old(tx)).push(request),
        captures_sent(*final(tx)) == if accepted {
            captures_sent(*old(tx)).push(request)
        } else {
            captures_sent(*old(tx))
        },
{
    tx.send(request).is_ok()
}

/// `local_channel::mpsc::Sender::send` on the queue of the emulation task, with the
/// claim of [`send_capture`].
#[verifier::external_body]
fn send_emulation(tx: &mut Sender<EmulationRequest>, request: EmulationRequest) -> (accepted: bool)
    ensures
        emulations_offered(*final(tx)) == emulations_offered(*old(tx)).push(request),
        emulations_sent(*final(tx)) == if accepted {
            emulations_sent(*old(tx)).push(request)
        } else {
            emulations_sent(*old(tx))
        },
{
    tx.send(request).is_ok()
}

/// `local_channel::mpsc::Sender::send` on the queue of the resolver, with the claim of
/// [`send_capture`].
#[verifier::external_body]
fn send_lookup(tx: &mut Sender<ClientHandle>, handle: ClientHandle) -> (accepted: bool)
    ensures
        lookups_offered(*final(tx)) == lookups_offered(*old(tx)).push(handle),
        lookups_sent(*final(tx)) == if accepted {
            lookups_sent(*old(tx)).push(handle)
        } else {
            lookups_sent(*old(tx))
        },
{
    tx.send(handle).is_ok()
}

/// The requests to the capture task among the effects that were accepted.
pub open spec fn accepted_captures(effects: Seq<Effect>, accepted: Seq<bool>) -> Seq<CaptureRequest>
    decreases accepted.len(),
{
    if accepted.len() == 0 {
        Seq::empty()
    } else {
        let earlier = accepted_captures(effects, accepted.drop_last());
        match effects[accepted.len() - 1] {
            Effect::Capture(request) if accepted.last() => earlier.push(request),
            _ => earlier,
        }
    }
}

/// The requests to the emulation task among the effects that were accepted.
pub open spec fn accepted_emulations(effects: Seq<Effect>, accepted: Seq<bool>) -> Seq<
    EmulationRequest,
>
    decreases accepted.len(),
{
    if accepted.len() == 0 {
        Seq::empty()
    } else {
        let earlier = accepted_emulations(effects, accepted.drop_last());
        match effects[accepted.len() - 1] {
            Effect::Emulation(request) if accepted.last() => earlier.push(request),
            _ => earlier,
        }
    }
}

/// The requests to the resolver among the effects that were accepted.
pub open spec fn accepted_lookups(effects: Seq<Effect>, accepted: Seq<bool>) -> Seq<ClientHandle>
    decreases accepted.len(),
{
    if accepted.len() == 0 {
        Seq::empty()
    } else {
        let earlier = accepted_lookups(effects, accepted.drop_last());
        match effects[accepted.len() - 1] {
            Effect::ResolveDns(handle) if accepted.last() => earlier.push(handle),
            _ => earlier,
        }
    }
}

/// The request to the capture task that an effect is.
pub open spec fn as_capture() -> spec_fn(Effect) -> Option<CaptureRequest> {
    |e: Effect|
        match e {
            Effect::Capture(request) => Some(request),
            _ => None,
        }
}

/// The request to the emulation task that an effect is.
pub open spec fn as_emulation() -> spec_fn(Effect) -> Option<EmulationRequest> {
    |e: Effect|
        match e {
            Effect::Emulation(request) => Some(request),
            _ => None,
        }
}

/// The request to the resolver that an effect is.
pub open spec fn as_lookup() -> spec_fn(Effect) -> Option<ClientHandle> {
    |e: Effect|
        match e {
            Effect::ResolveDns(handle) => Some(handle),
            _ => None,
        }
}

/// The wakeup that an effect is.
pub open spec fn as_signal() -> spec_fn(Effect) -> Option<Signal> {
    |e: Effect|
        match e {
            Effect::Notify(signal) => Some(signal),
            _ => None,
        }
}

/// The wakeups among the effects, in order.
pub fn signals(effects: &Vec<Effect>) -> (signals: Vec<Signal>)
    ensures
        signals@ == effects@.filter_map(as_signal()),
{
    let mut signals: Vec<Signal> = Vec::new();
    proof {
        reveal(Seq::filter_map);
    }
    for i in 0..effects.len()
        invariant
            signals@ == effects@.take(i as int).filter_map(as_signal()),
    {
        if let Effect::Notify(signal) = effects[i] {
            signals.push(signal);
        }
        proof {
            reveal(Seq::filter_map);
            assert(effects@.take(i + 1).drop_last() == effects@.take(i as int));
        }
    }
    assert(effects@.take(effects@.len() as int) == effects@);
    signals
}

/// What became of a list of effects.
#[derive(Debug)]
pub struct Delivery {
    /// For each effect that was tried, in order, whether its queue took it. A wakeup
    /// needs no queue and counts as taken.
    pub accepted: Vec<bool>,
    /// Whether the resolver's queue refused a request. No effect after that one was
    /// tried.
    pub resolver_gone: bool,
}

/// What the service caused, and what became of it.
#[derive(Debug)]
pub struct HandOut {
    /// What was caused, oldest first, as far as it was tried.
    pub tried: Vec<Effect>,
    /// What the queues made of it.
    pub delivery: Delivery,
    /// The wakeups in it, in order. They are still to be raised.
    pub wakeups: Vec<Signal>,
}

/// The queues to the other tasks.
pub struct Channels {
    /// The queue of the capture task.
    pub capture: Sender<CaptureRequest>,
    /// The queue of the emulation task.
    pub emulation: Sender<EmulationRequest>,
    /// The queue of the resolver.
    pub dns: Sender<ClientHandle>,
}

/// Holds if `delivery` is what became of the effects, and the queues went from `before` to
/// `after` by it: every message among the effects that were tried was handed to its queue,
/// in order, and each queue holds those that it took besides what it held. A wakeup counts
/// as taken. All effects were tried, up to the first lookup that the resolver refused.
pub open spec fn delivered(
    before: Channels,
    after: Channels,
    effects: Seq<Effect>,
    delivery: Delivery,
) -> bool {
    let accepted = delivery.accepted@;
    let tried = effects.take(accepted.len() as int);
    &&& accepted.len() <= effects.len()
    &&& captures_offered(after.capture) == captures_offered(before.capture) + tried.filter_map(
        as_capture(),
    )
    &&& emulations_offered(after.emulation) == emulations_offered(before.emulation)
        + tried.filter_map(as_emulation())
    &&& lookups_offered(after.dns) == lookups_offered(before.dns) + tried.filter_map(as_lookup())
    &&& captures_sent(after.capture) == captures_sent(before.capture) + accepted_captures(
        effects,
        accepted,
    )
    &&& emulations_sent(after.emulation) == emulations_sent(before.emulation)
        + accepted_emulations(effects, accepted)
    &&& lookups_sent(after.dns) == lookups_sent(before.dns) + accepted_lookups(effects, accepted)
    &&& forall|i: int|
        0 <= i < accepted.len() && effects[i] is Notify ==> #[trigger] accepted[i]
    &&& forall|i: int|
        0 <= i < accepted.len() && effects[i] is ResolveDns && !#[trigger] accepted[i]
            ==> delivery.resolver_gone && i == accepted.len() - 1
    &&& if delivery.resolver_gone {
        accepted.len() > 0 && effects[accepted.len() - 1] is ResolveDns && !accepted.last()
    } else {
        accepted.len() == effects.len()
    }
}

impl Channels {
    /// Puts the messages among the effects on their queues, in order. A message that
    /// the capture or the emulation task does not take is dropped; one that the
    /// resolver does not take ends the delivery.
    pub fn deliver(&mut self, effects: &Vec<Effect>) -> (delivery: Delivery)
        ensures
            delivered(*old(self), *final(self), effects@, delivery),
    {
        let mut accepted: Vec<bool> = Vec::new();
        proof {
            reveal(Seq::filter_map);
        }
        for i in 0..effects.len()
            invariant
                accepted@.len() == i,
                captures_offered(self.capture) == captures_offered(old(self).capture)
                    + effects@.take(i as int).filter_map(as_capture()),
                emulations_offered(self.emulation) == emulations_offered(old(self).emulation)
                    + effects@.take(i as int).filter_map(as_emulation()),
                lookups_offered(self.dns) == lookups_offered(old(self).dns) + effects@.take(
                    i as int,
                ).filter_map(as_lookup()),
                captures_sent(self.capture) == captures_sent(old(self).capture)
                    + accepted_captures(effects@, accepted@),
                emulations_sent(self.emulation) == emulations_sent(old(self).emulation)
                    + accepted_emulations(effects@, accepted@),
                lookups_sent(self.dns) == lookups_sent(old(self).dns) + accepted_lookups(
                    effects@,
                    accepted@,
                ),
                forall|j: int|
                    0 <= j < i && effects@[j] is Notify ==> #[trigger] accepted@[j],
                forall|j: int|
                    0 <= j < i && effects@[j] is ResolveDns ==> #[trigger] accepted@[j],
        {
            let ghost before = accepted@;
            let taken = match effects[i] {
                Effect::Capture(request) => send_capture(&mut self.capture, request),
                Effect::Emulation(request) => send_emulation(&mut self.emulation, request),
                Effect::ResolveDns(handle) => send_lookup(&mut self.dns, handle),
                Effect::Notify(_) => true,
            };
            accepted.push(taken);
            proof {
                reveal(Seq::filter_map);
                assert(accepted@.drop_last() == before);
                assert(effects@.take(i + 1).drop_last() == effects@.take(i as int));
            }
            if let Effect::ResolveDns(_) = effects[i] {
                if !taken {
                    assert(lookups_offered(self.dns) == lookups_offered(old(self).dns)
                        + effects@.take(i + 1).filter_map(as_lookup()));
                    return Delivery { accepted, resolver_gone: true };
                }
            }
        }
        assert(effects@.take(effects@.len() as int) == effects@);
        Delivery { accepted, resolver_gone: false }
    }

    /// Takes over what the service caused since the last time, puts the messages in it on
    /// their queues, and hands out the wakeups. Nothing that comes after a lookup which the
    /// resolver refused is done any more: it gets no queue, and no wakeup is handed out for
    /// it.
    pub fn carry_out(&mut self, server: &mut Server) -> (done: HandOut)
        ensures
            final(server)@ == old(server)@.hand_out(),
            delivered(*old(self), *final(self), old(server)@.effects, done.delivery),
            done.tried@ == old(server)@.effects.take(done.delivery.accepted@.len() as int),
            done.wakeups@ == done.tried@.filter_map(as_signal()),
    {
        let mut tried = server.take_effects();
        let delivery = self.deliver(&tried);
        tried.truncate(delivery.accepted.len());
        let wakeups = signals(&tried);
        HandOut { tried, delivery, wakeups }
    }
}

} // verus!
