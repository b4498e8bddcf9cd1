use futures::FutureExt;
use lan_mouse_server::channels::{signals, Channels};
use lan_mouse_server::client::{CapturePosition, Position};
use lan_mouse_server::config::{Config, ConfigClient};
use lan_mouse_server::message::{CaptureRequest, Effect, EmulationRequest, Occasion, Signal};
use lan_mouse_server::server::Server;
use local_channel::mpsc::{channel, Receiver};

fn effects() -> Vec<Effect> {
    vec![
        Effect::Capture(CaptureRequest::Destroy(1)),
        Effect::Emulation(EmulationRequest::Destroy(1)),
        Effect::Notify(Signal::NotifyOne(Occasion::FrontendEventPending)),
        Effect::Capture(CaptureRequest::Create(2, CapturePosition::Top)),
        Effect::ResolveDns(2),
        Effect::Emulation(EmulationRequest::Create(2)),
        Effect::Notify(Signal::Cancel),
    ]
}

fn received<T>(rx: &mut Receiver<T>) -> Vec<T> {
    let mut items = vec![];
    while let Some(Some(item)) = rx.recv().now_or_never() {
        items.push(item);
    }
    items
}

#[test]
fn every_task_gets_its_messages_in_order() {
    let (capture, mut capture_rx) = channel();
    let (emulation, mut emulation_rx) = channel();
    let (dns, mut dns_rx) = channel();
    let mut channels = Channels { capture, emulation, dns };
    let delivery = channels.deliver(&effects());
    assert_eq!(delivery.accepted, vec![true; 7]);
    assert!(!delivery.resolver_gone);
    assert_eq!(
        received(&mut capture_rx),
        vec![CaptureRequest::Destroy(1), CaptureRequest::Create(2, CapturePosition::Top)]
    );
    assert_eq!(
        received(&mut emulation_rx),
        vec![EmulationRequest::Destroy(1), EmulationRequest::Create(2)]
    );
    assert_eq!(received(&mut dns_rx), vec![2]);
}

#[test]
fn messages_to_a_task_that_is_gone_are_dropped() {
    let (capture, capture_rx) = channel();
    let (emulation, mut emulation_rx) = channel();
    let (dns, mut dns_rx) = channel();
    drop(capture_rx);
    let mut channels = Channels { capture, emulation, dns };
    let delivery = channels.deliver(&effects());
    assert_eq!(delivery.accepted, vec![false, true, true, false, true, true, true]);
    assert!(!delivery.resolver_gone);
    assert_eq!(received(&mut emulation_rx).len(), 2);
    assert_eq!(received(&mut dns_rx), vec![2]);
}

#[test]
fn a_resolver_that_is_gone_ends_the_delivery() {
    let (capture, mut capture_rx) = channel();
    let (emulation, mut emulation_rx) = channel();
    let (dns, dns_rx) = channel();
    drop(dns_rx);
    let mut channels = Channels { capture, emulation, dns };
    let delivery = channels.deliver(&effects());
    assert_eq!(delivery.accepted, vec![true, true, true, true, false]);
    assert!(delivery.resolver_gone);
    assert_eq!(received(&mut capture_rx).len(), 2);
    assert_eq!(received(&mut emulation_rx), vec![EmulationRequest::Destroy(1)]);
}

#[test]
fn wakeups_keep_their_order() {
    assert_eq!(
        signals(&effects()),
        vec![Signal::NotifyOne(Occasion::FrontendEventPending), Signal::Cancel]
    );
    assert_eq!(signals(&vec![Effect::ResolveDns(1)]), vec![]);
}

fn server() -> Server {
    let client = ConfigClient {
        ips: vec![],
        hostname: None,
        port: 4242,
        pos: Position::Top,
        active: false,
        enter_hook: None,
    };
    Server::new(Config { port: 1, clients: vec![client], release_bind: vec![] })
}

#[test]
fn what_was_caused_is_carried_out_once() {
    let (capture, mut capture_rx) = channel();
    let (emulation, mut emulation_rx) = channel();
    let (dns, mut dns_rx) = channel();
    let mut channels = Channels { capture, emulation, dns };
    let mut s = server();
    s.activate_client(0);
    s.request_lookup(0);
    s.cancel();
    let done = channels.carry_out(&mut s);
    assert_eq!(
        done.tried,
        vec![
            Effect::Capture(CaptureRequest::Create(0, CapturePosition::Top)),
            Effect::Emulation(EmulationRequest::Create(0)),
            Effect::Notify(Signal::NotifyOne(Occasion::FrontendEventPending)),
            Effect::ResolveDns(0),
            Effect::Notify(Signal::Cancel),
        ]
    );
    assert_eq!(done.delivery.accepted, vec![true; 5]);
    assert!(!done.delivery.resolver_gone);
    assert_eq!(
        done.wakeups,
        vec![Signal::NotifyOne(Occasion::FrontendEventPending), Signal::Cancel]
    );
    assert_eq!(
        received(&mut capture_rx),
        vec![CaptureRequest::Create(0, CapturePosition::Top)]
    );
    assert_eq!(received(&mut emulation_rx), vec![EmulationRequest::Create(0)]);
    assert_eq!(received(&mut dns_rx), vec![0]);
    assert!(s.take_effects().is_empty());

    s.deactivate_client(0);
    let done = channels.carry_out(&mut s);
    assert_eq!(done.delivery.accepted, vec![true; 3]);
    assert_eq!(received(&mut capture_rx), vec![CaptureRequest::Destroy(0)]);
    assert_eq!(received(&mut emulation_rx), vec![EmulationRequest::Destroy(0)]);
    let done = channels.carry_out(&mut s);
    assert!(done.tried.is_empty() && done.wakeups.is_empty());
}

#[test]
fn nothing_follows_a_refused_lookup() {
    let (capture, mut capture_rx) = channel();
    let (emulation, _emulation_rx) = channel();
    let (dns, dns_rx) = channel();
    drop(dns_rx);
    let mut channels = Channels { capture, emulation, dns };
    let mut s = server();
    s.notify_capture();
    s.request_lookup(0);
    s.activate_client(0);
    s.cancel();
    let done = channels.carry_out(&mut s);
    assert!(done.delivery.resolver_gone);
    assert_eq!(done.delivery.accepted, vec![true, false]);
    assert_eq!(
        done.tried,
        vec![
            Effect::Notify(Signal::NotifyWaiters(Occasion::Capture)),
            Effect::ResolveDns(0),
        ]
    );
    assert_eq!(done.wakeups, vec![Signal::NotifyWaiters(Occasion::Capture)]);
    assert!(received(&mut capture_rx).is_empty());
    assert!(s.take_effects().is_empty());
    assert!(s.is_cancelled());
}
