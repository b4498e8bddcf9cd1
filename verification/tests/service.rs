use hickory_resolver::error::ResolveError;
use lan_mouse_server::client::Position;
use lan_mouse_server::config::{Config, ConfigClient};
use lan_mouse_server::message::{Effect, FrontendEvent, FrontendRequest, Signal};
use lan_mouse_server::server::Server;
use lan_mouse_server::service::{
    listener_created, ListenerCreationError, Next, ServiceError, Wakeup,
};

fn client(active: bool) -> ConfigClient {
    ConfigClient {
        ips: vec![],
        hostname: None,
        port: 1,
        pos: Position::Left,
        active,
        enter_hook: None,
    }
}

fn server(clients: Vec<ConfigClient>) -> Server {
    Server::new(Config { port: 1, clients, release_bind: vec![] })
}

#[test]
fn listener_decides_how_to_start() {
    assert!(matches!(listener_created(Ok(5u8)), Ok(Some(5))));
    let running: Result<u8, ListenerCreationError> = Err(ListenerCreationError::AlreadyRunning);
    assert!(matches!(listener_created(running), Ok(None)));
    let failed: Result<u8, ListenerCreationError> =
        Err(ListenerCreationError::Failed("denied".to_string()));
    match listener_created(failed) {
        Err(ServiceError::Listen(ListenerCreationError::Failed(why))) => assert_eq!(why, "denied"),
        other => panic!("unexpected {other:?}"),
    }
}

#[test]
fn errors_of_all_kinds_convert() {
    let io = ServiceError::from(std::io::Error::new(std::io::ErrorKind::AddrInUse, "taken"));
    match io {
        ServiceError::Io(e) => assert_eq!(e.kind(), std::io::ErrorKind::AddrInUse),
        other => panic!("unexpected {other:?}"),
    }
    let dns = ServiceError::from(ResolveError::from("no resolver"));
    match dns {
        ServiceError::Dns(e) => assert_eq!(e.to_string(), "no resolver"),
        other => panic!("unexpected {other:?}"),
    }
    let listen = ServiceError::from(ListenerCreationError::AlreadyRunning);
    assert!(matches!(listen, ServiceError::Listen(ListenerCreationError::AlreadyRunning)));
}

#[test]
fn active_clients_are_looked_up() {
    let mut s = server(vec![client(true), client(false), client(true)]);
    s.resolve_active();
    assert_eq!(s.take_effects(), vec![Effect::ResolveDns(0), Effect::ResolveDns(2)]);
}

#[test]
fn everything_pending_is_told_in_order() {
    let mut s = server(vec![]);
    assert!(matches!(s.step(Wakeup::Request(FrontendRequest::Create)), Next::Wait));
    assert!(matches!(s.step(Wakeup::Request(FrontendRequest::Delete(0))), Next::Wait));
    let first = s.step(Wakeup::FrontendEventPending);
    assert!(matches!(first, Next::Tell(FrontendEvent::Created(0, _, _))));
    // what comes up while the first is being told comes last
    s.client_updated(9);
    assert!(matches!(s.step(Wakeup::Told), Next::Tell(FrontendEvent::Deleted(0))));
    assert!(matches!(s.step(Wakeup::Told), Next::Tell(FrontendEvent::Changed(9))));
    assert!(matches!(s.step(Wakeup::Told), Next::Wait));
    assert!(matches!(s.step(Wakeup::FrontendEventPending), Next::Wait));
}

#[test]
fn a_broken_request_is_passed_over() {
    let mut s = server(vec![client(true)]);
    assert!(matches!(s.step(Wakeup::RequestFailed), Next::Wait));
    assert_eq!(s.take_effects(), vec![]);
    assert!(!s.is_cancelled());
}

#[test]
fn the_end_is_passed_on() {
    for wakeup in [Wakeup::FrontendClosed, Wakeup::Cancelled, Wakeup::Interrupted] {
        let mut s = server(vec![]);
        assert!(matches!(s.step(wakeup), Next::End));
        assert!(s.is_cancelled());
        assert_eq!(s.take_effects(), vec![Effect::Notify(Signal::Cancel)]);
    }
}
