use lan_mouse_server::client::{CapturePosition, ClientHandle, Position};
use lan_mouse_server::config::{Config, ConfigClient};
use lan_mouse_server::message::{
    CaptureRequest, Effect, EmulationRequest, FrontendEvent, FrontendRequest, Occasion, Signal,
    Status,
};
use lan_mouse_server::model::State;
use lan_mouse_server::net::{IpAddr, SocketAddr};
use lan_mouse_server::server::Server;

const A: IpAddr = IpAddr::V4(0x0a00_0001);
const B: IpAddr = IpAddr::V4(0x0a00_0002);
const TOLD: Effect = Effect::Notify(Signal::NotifyOne(Occasion::FrontendEventPending));

fn config_client(pos: Position, active: bool) -> ConfigClient {
    ConfigClient {
        ips: vec![A],
        hostname: Some("host".to_string()),
        port: 4242,
        pos,
        active,
        enter_hook: Some("hook".to_string()),
    }
}

fn server(clients: Vec<ConfigClient>) -> Server {
    Server::new(Config { port: 1000, clients, release_bind: vec![29, 42] })
}

fn create(h: ClientHandle, edge: CapturePosition) -> Vec<Effect> {
    vec![
        Effect::Capture(CaptureRequest::Create(h, edge)),
        Effect::Emulation(EmulationRequest::Create(h)),
        TOLD,
    ]
}

fn destroy(h: ClientHandle) -> Vec<Effect> {
    vec![
        Effect::Capture(CaptureRequest::Destroy(h)),
        Effect::Emulation(EmulationRequest::Destroy(h)),
        TOLD,
    ]
}

fn told(server: &mut Server) -> Vec<FrontendEvent> {
    let mut events = vec![];
    while let Some(event) = server.next_frontend_event() {
        events.push(event);
    }
    events
}

fn changed(server: &mut Server) -> Vec<ClientHandle> {
    let mut handles = vec![];
    for event in told(server) {
        match event {
            FrontendEvent::Changed(h) => handles.push(h),
            other => panic!("unexpected {other:?}"),
        }
    }
    handles
}

fn state_of(server: &mut Server, h: ClientHandle) -> (Position, bool, u16, usize, bool) {
    server.handle_request(FrontendRequest::GetState(h));
    server.take_effects();
    match told(server).pop() {
        Some(FrontendEvent::State(k, c, s)) => {
            assert_eq!(k, h);
            (c.pos, s.active, c.port, s.ips.to_vec().len(), s.resolving)
        }
        other => panic!("unexpected {other:?}"),
    }
}

#[test]
fn service_starts_with_configured_clients() {
    let mut s = server(vec![config_client(Position::Left, false), config_client(Position::Top, true)]);
    assert_eq!(s.port(), 1000);
    assert_eq!(s.release_bind(), &vec![29, 42]);
    assert_eq!(s.config().clients.len(), 2);
    assert_eq!(s.get_state(), State::Receiving);
    assert_eq!(s.active_client(), None);
    assert!(!s.is_cancelled());
    assert_eq!(s.active_clients(), vec![1]);
    assert_eq!(s.take_effects(), vec![]);
    assert_eq!(told(&mut s).len(), 0);
    s.handle_request(FrontendRequest::Enumerate());
    match told(&mut s).pop() {
        Some(FrontendEvent::Enumerate(clients)) => {
            assert_eq!(clients.len(), 2);
            let (h, c, st) = &clients[1];
            assert_eq!(*h, 1);
            assert_eq!(c.hostname, Some("host".to_string()));
            assert_eq!(c.fix_ips, vec![A]);
            assert_eq!(c.port, 4242);
            assert_eq!(c.pos, Position::Top);
            assert_eq!(c.cmd, Some("hook".to_string()));
            assert!(st.active);
            assert!(st.ips.contains(A));
            assert_eq!(st.ips.to_vec().len(), 1);
            assert_eq!(st.active_addr, None);
            assert_eq!(st.dns_ips, vec![]);
        }
        other => panic!("unexpected {other:?}"),
    }
}

#[test]
fn activation_takes_the_side_of_another_client() {
    let mut s = server(vec![
        config_client(Position::Left, true),
        config_client(Position::Left, false),
        config_client(Position::Right, true),
    ]);
    assert!(!s.handle_request(FrontendRequest::Activate(1, true)));
    let mut expected = destroy(0);
    expected.extend(create(1, CapturePosition::Left));
    assert_eq!(s.take_effects(), expected);
    assert_eq!(changed(&mut s), vec![0, 1]);
    assert_eq!(s.active_clients(), vec![1, 2]);
    // again: nothing
    s.handle_request(FrontendRequest::Activate(1, true));
    assert_eq!(s.take_effects(), vec![]);
    assert_eq!(s.active_clients(), vec![1, 2]);
}

#[test]
fn deactivation_undoes_activation() {
    let mut s = server(vec![config_client(Position::Bottom, false)]);
    s.handle_request(FrontendRequest::Activate(0, true));
    assert_eq!(s.take_effects(), create(0, CapturePosition::Bottom));
    s.handle_request(FrontendRequest::Activate(0, false));
    assert_eq!(s.take_effects(), destroy(0));
    assert_eq!(s.active_clients(), vec![]);
    s.handle_request(FrontendRequest::Activate(0, false));
    assert_eq!(s.take_effects(), vec![]);
    assert_eq!(changed(&mut s), vec![0, 0]);
}

#[test]
fn only_the_first_of_two_active_clients_on_a_side_gives_way() {
    let mut s = server(vec![
        config_client(Position::Left, true),
        config_client(Position::Left, true),
        config_client(Position::Left, false),
    ]);
    s.activate_client(2);
    assert_eq!(s.active_clients(), vec![1, 2]);
}

#[test]
fn moving_an_active_client() {
    let mut s = server(vec![config_client(Position::Left, true), config_client(Position::Top, true)]);
    s.handle_request(FrontendRequest::UpdatePosition(0, Position::Top));
    let mut expected = destroy(0);
    expected.extend(destroy(1));
    expected.extend(create(0, CapturePosition::Top));
    assert_eq!(s.take_effects(), expected);
    assert_eq!(changed(&mut s), vec![0, 1, 0]);
    assert_eq!(s.active_clients(), vec![0]);
    assert_eq!(state_of(&mut s, 0).0, Position::Top);
    // to where it is
    s.handle_request(FrontendRequest::UpdatePosition(0, Position::Top));
    assert_eq!(s.take_effects(), vec![]);
}

#[test]
fn moving_an_inactive_client_is_silent() {
    let mut s = server(vec![config_client(Position::Left, false), config_client(Position::Top, true)]);
    s.handle_request(FrontendRequest::UpdatePosition(0, Position::Top));
    assert_eq!(s.take_effects(), vec![]);
    assert_eq!(s.active_clients(), vec![1]);
    assert_eq!(state_of(&mut s, 0).0, Position::Top);
}

#[test]
fn create_and_delete() {
    let mut s = server(vec![config_client(Position::Left, true)]);
    s.handle_request(FrontendRequest::Create);
    assert_eq!(s.take_effects(), vec![TOLD]);
    match told(&mut s).pop() {
        Some(FrontendEvent::Created(1, c, st)) => {
            assert_eq!(c.port, 4242);
            assert!(!st.active);
        }
        other => panic!("unexpected {other:?}"),
    }
    s.handle_request(FrontendRequest::Delete(1));
    assert_eq!(s.take_effects(), vec![TOLD]);
    assert!(matches!(told(&mut s).pop(), Some(FrontendEvent::Deleted(1))));
    s.handle_request(FrontendRequest::Delete(0));
    assert_eq!(s.take_effects(), destroy(0));
    assert!(matches!(told(&mut s).pop(), Some(FrontendEvent::Deleted(0))));
    assert_eq!(s.active_clients(), vec![]);
    assert_eq!(s.add_client(), 0);
}

#[test]
fn requests_about_an_unknown_client() {
    let mut s = server(vec![config_client(Position::Left, true)]);
    s.handle_request(FrontendRequest::Activate(7, true));
    s.handle_request(FrontendRequest::Activate(7, false));
    s.handle_request(FrontendRequest::UpdateHostname(7, None));
    s.handle_request(FrontendRequest::UpdatePort(7, 1));
    s.handle_request(FrontendRequest::UpdatePosition(7, Position::Top));
    assert_eq!(s.take_effects(), vec![]);
    assert_eq!(told(&mut s).len(), 0);
    s.handle_request(FrontendRequest::Delete(7));
    s.handle_request(FrontendRequest::GetState(7));
    s.handle_request(FrontendRequest::UpdateFixIps(7, vec![A]));
    s.handle_request(FrontendRequest::ResolveDns(7));
    assert_eq!(s.take_effects(), vec![TOLD, TOLD, TOLD, Effect::ResolveDns(7)]);
    let events = told(&mut s);
    assert!(matches!(events[0], FrontendEvent::Deleted(7)));
    assert!(matches!(events[1], FrontendEvent::NoSuchClient(7)));
    assert!(matches!(events[2], FrontendEvent::Changed(7)));
    assert_eq!(events.len(), 3);
    assert_eq!(s.active_clients(), vec![0]);
    assert_eq!(s.get_hostname(7), None);
    assert_eq!(s.active_addr(7), None);
}

#[test]
fn addresses_are_collected() {
    let mut s = server(vec![config_client(Position::Left, false)]);
    assert_eq!(state_of(&mut s, 0).3, 1);
    s.update_dns_ips(0, vec![A, B]);
    assert_eq!(state_of(&mut s, 0).3, 2);
    s.handle_request(FrontendRequest::UpdateFixIps(0, vec![]));
    assert_eq!(s.take_effects(), vec![TOLD]);
    assert_eq!(changed(&mut s), vec![0]);
    assert_eq!(state_of(&mut s, 0).3, 2);
    s.handle_request(FrontendRequest::UpdateHostname(0, None));
    assert_eq!(state_of(&mut s, 0).3, 0);
    s.update_ips(0);
    assert_eq!(state_of(&mut s, 0).3, 0);
}

#[test]
fn another_hostname_is_looked_up() {
    let mut s = server(vec![config_client(Position::Left, false)]);
    s.handle_request(FrontendRequest::UpdateHostname(0, Some("host".to_string())));
    assert_eq!(s.take_effects(), vec![TOLD]);
    s.handle_request(FrontendRequest::UpdateHostname(0, Some("other".to_string())));
    assert_eq!(s.take_effects(), vec![Effect::ResolveDns(0), TOLD]);
    assert_eq!(s.get_hostname(0), Some("other".to_string()));
    assert_eq!(s.active_addr(0), None);
    assert_eq!(changed(&mut s), vec![0, 0]);
}

#[test]
fn client_port_is_replaced_silently() {
    let mut s = server(vec![config_client(Position::Left, false)]);
    s.handle_request(FrontendRequest::UpdatePort(0, 99));
    assert_eq!(s.take_effects(), vec![]);
    assert_eq!(told(&mut s).len(), 0);
    assert_eq!(state_of(&mut s, 0).2, 99);
    assert_eq!(s.active_addr(0), None);
}

#[test]
fn address_in_use_follows_the_client_port() {
    let mut s = server(vec![config_client(Position::Left, false)]);
    let addr = SocketAddr::V6 { ipv6: 9, port: 4000, flowinfo: 3, scope_id: 2 };
    s.client_manager_mut().get_mut(0).unwrap().1.active_addr = Some(addr);
    // the port that the client has already
    s.handle_request(FrontendRequest::UpdatePort(0, 4242));
    assert_eq!(s.active_addr(0), Some(addr));
    s.handle_request(FrontendRequest::UpdatePort(0, 50));
    assert_eq!(
        s.active_addr(0),
        Some(SocketAddr::V6 { ipv6: 9, port: 50, flowinfo: 0, scope_id: 0 })
    );
    assert_eq!(s.client_manager().get(0).unwrap().0.port, 50);
    let addr = SocketAddr::V4 { ipv4: 9, port: 50 };
    s.client_manager_mut().get_mut(0).unwrap().1.active_addr = Some(addr);
    s.update_port(0, 51);
    assert_eq!(s.active_addr(0), Some(SocketAddr::V4 { ipv4: 9, port: 51 }));
    s.update_hostname(0, Some("other".to_string()));
    assert_eq!(s.active_addr(0), None);
}

#[test]
fn requested_port_is_told() {
    let mut s = server(vec![]);
    s.set_capture_status(Status::Enabled);
    told(&mut s);
    s.take_effects();
    s.handle_request(FrontendRequest::ChangePort(77));
    assert_eq!(s.take_effects(), vec![Effect::Notify(Signal::NotifyOne(Occasion::PortChanged))]);
    assert_eq!(s.port(), 77);
    s.handle_request(FrontendRequest::Sync);
    assert_eq!(s.take_effects(), vec![TOLD, TOLD, TOLD, TOLD]);
    let events = told(&mut s);
    assert_eq!(events.len(), 4);
    assert!(matches!(&events[0], FrontendEvent::Enumerate(clients) if clients.is_empty()));
    assert!(matches!(events[1], FrontendEvent::EmulationStatus(Status::Disabled)));
    assert!(matches!(events[2], FrontendEvent::CaptureStatus(Status::Enabled)));
    assert!(matches!(events[3], FrontendEvent::PortChanged(77, None)));
}

#[test]
fn reports_of_other_tasks() {
    let mut s = server(vec![config_client(Position::Left, false)]);
    s.notify_port_changed(5, Some("in use".to_string()));
    s.set_emulation_status(Status::Enabled);
    s.set_resolving(0, true);
    s.update_pressed_keys(0, true);
    s.update_pressed_keys(9, true);
    s.client_updated(3);
    assert_eq!(s.take_effects(), vec![TOLD, TOLD, TOLD, TOLD]);
    let events = told(&mut s);
    match &events[0] {
        FrontendEvent::PortChanged(5, Some(msg)) => assert_eq!(msg, "in use"),
        other => panic!("unexpected {other:?}"),
    }
    assert!(matches!(events[1], FrontendEvent::EmulationStatus(Status::Enabled)));
    assert!(matches!(events[2], FrontendEvent::Changed(0)));
    assert!(matches!(events[3], FrontendEvent::Changed(3)));
    assert!(state_of(&mut s, 0).4);
    s.handle_request(FrontendRequest::GetState(0));
    match told(&mut s).pop() {
        Some(FrontendEvent::State(0, _, st)) => assert!(st.has_pressed_keys),
        other => panic!("unexpected {other:?}"),
    }
}

#[test]
fn tasks_are_woken() {
    let mut s = server(vec![]);
    s.handle_request(FrontendRequest::EnableCapture);
    s.handle_request(FrontendRequest::EnableEmulation);
    s.restart_ping_timer();
    s.cancel();
    assert_eq!(
        s.take_effects(),
        vec![
            Effect::Notify(Signal::NotifyWaiters(Occasion::Capture)),
            Effect::Notify(Signal::NotifyWaiters(Occasion::Emulation)),
            Effect::Notify(Signal::NotifyWaiters(Occasion::Ping)),
            Effect::Notify(Signal::Cancel),
        ]
    );
    assert!(s.is_cancelled());
    assert_eq!(s.take_effects(), vec![]);
}

#[test]
fn pointer_is_noted() {
    let mut s = server(vec![]);
    s.set_state(State::AwaitAck);
    assert_eq!(s.get_state(), State::AwaitAck);
    s.set_state(State::Sending);
    assert_eq!(s.get_state(), State::Sending);
    s.set_active(Some(4));
    assert_eq!(s.active_client(), Some(4));
    assert_eq!(s.take_effects(), vec![]);
}
