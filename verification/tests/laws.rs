use lan_mouse_server::client::{to_capture_pos, CapturePosition, ClientHandle, Position};
use lan_mouse_server::config::{Config, ConfigClient};
use lan_mouse_server::message::{
    CaptureRequest, Effect, EmulationRequest, FrontendEvent, FrontendRequest, Occasion, Signal,
};
use lan_mouse_server::model::State;
use lan_mouse_server::net::IpAddr;
use lan_mouse_server::server::Server;
use lan_mouse_server::service::{Next, Wakeup};
use std::collections::{BTreeMap, BTreeSet};

const SIDES: [Position; 4] = [Position::Left, Position::Right, Position::Top, Position::Bottom];

fn server() -> Server {
    let clients = (0..4)
        .map(|i| ConfigClient {
            ips: vec![IpAddr::V4(i)],
            hostname: None,
            port: 4242,
            pos: SIDES[i as usize],
            active: i % 2 == 0,
            enter_hook: None,
        })
        .collect();
    Server::new(Config { port: 1, clients, release_bind: vec![] })
}

/// A fixed sequence of requests that touches every kind of change.
fn requests() -> Vec<FrontendRequest> {
    let mut requests = vec![];
    for i in 0..40u64 {
        let h = (i * 7) % 6;
        let side = SIDES[((i * 5 + i / 4) % 4) as usize];
        requests.push(FrontendRequest::UpdatePosition(h, side));
        requests.push(FrontendRequest::Activate((i * 3) % 6, i % 5 != 0));
        if i % 6 == 1 {
            requests.push(FrontendRequest::Create);
        }
        if i % 7 == 3 {
            requests.push(FrontendRequest::Delete(h));
        }
        requests.push(FrontendRequest::UpdateFixIps(h, vec![IpAddr::V6(i as u128)]));
        requests.push(FrontendRequest::UpdateHostname(h, Some(format!("host{i}"))));
    }
    requests
}

fn edges(s: &Server) -> BTreeMap<ClientHandle, CapturePosition> {
    s.active_clients()
        .iter()
        .map(|h| (*h, to_capture_pos(s.client_manager().get(*h).unwrap().0.pos)))
        .collect()
}

#[test]
fn tasks_follow_the_active_clients() {
    let mut s = server();
    let mut captured = edges(&s);
    let mut emulated: BTreeSet<ClientHandle> = captured.keys().copied().collect();
    for request in requests() {
        s.handle_request(request);
        for effect in s.take_effects() {
            match effect {
                Effect::Capture(CaptureRequest::Create(h, edge)) => {
                    assert_eq!(captured.insert(h, edge), None);
                }
                Effect::Capture(CaptureRequest::Destroy(h)) => {
                    assert!(captured.remove(&h).is_some());
                }
                Effect::Emulation(EmulationRequest::Create(h)) => assert!(emulated.insert(h)),
                Effect::Emulation(EmulationRequest::Destroy(h)) => assert!(emulated.remove(&h)),
                _ => {}
            }
        }
        assert_eq!(captured, edges(&s));
        assert_eq!(emulated, captured.keys().copied().collect());
    }
}

#[test]
fn one_client_is_active_on_each_side() {
    let mut s = server();
    for request in requests() {
        s.handle_request(request);
        for side in SIDES {
            let there: Vec<ClientHandle> = s
                .active_clients()
                .into_iter()
                .filter(|h| s.client_manager().get(*h).unwrap().0.pos == side)
                .collect();
            assert!(there.len() <= 1);
            assert_eq!(s.client_manager().find_client(side), there.first().copied());
        }
    }
}

#[test]
fn addresses_stay_collected() {
    let mut s = server();
    for (i, request) in requests().into_iter().enumerate() {
        s.handle_request(request);
        s.update_dns_ips((i % 5) as u64, vec![IpAddr::V4(1000 + i as u32), IpAddr::V4(1)]);
        for (_, (c, st)) in s.client_manager().get_client_states() {
            let all: Vec<IpAddr> = c.fix_ips.iter().chain(st.dns_ips.iter()).copied().collect();
            assert!(all.iter().all(|ip| st.ips.contains(*ip)));
            let mut distinct: Vec<IpAddr> = vec![];
            for ip in all {
                if !distinct.contains(&ip) {
                    distinct.push(ip);
                }
            }
            assert_eq!(st.ips.to_vec().len(), distinct.len());
        }
    }
}

#[test]
fn nothing_is_lost() {
    let mut s = server();
    for request in requests() {
        s.handle_request(request);
    }
    let wakeups = s
        .take_effects()
        .iter()
        .filter(|e| **e == Effect::Notify(Signal::NotifyOne(Occasion::FrontendEventPending)))
        .count();
    let mut events = 0;
    while s.next_frontend_event().is_some() {
        events += 1;
    }
    assert!(events > 0);
    assert_eq!(events, wakeups);
}

#[test]
fn requests_leave_the_rest_alone() {
    let mut s = server();
    s.set_state(State::AwaitAck);
    s.set_active(Some(2));
    for request in requests() {
        s.handle_request(request);
    }
    assert_eq!(s.get_state(), State::AwaitAck);
    assert_eq!(s.active_client(), Some(2));
    assert_eq!(s.port(), 1);
    assert!(!s.is_cancelled());
}

#[test]
fn other_clients_keep_their_state() {
    let mut s = server();
    s.handle_request(FrontendRequest::UpdatePosition(0, Position::Top));
    let (c, st) = s.client_manager().get(2).unwrap();
    assert_eq!(c.pos, Position::Top);
    assert!(!st.active);
    assert!(st.ips.contains(IpAddr::V4(2)));
    let (c, st) = s.client_manager().get(3).unwrap();
    assert_eq!(c.pos, Position::Bottom);
    assert!(!st.active);
}

#[test]
fn enumeration_is_ascending_and_complete() {
    let mut s = server();
    s.handle_request(FrontendRequest::Delete(1));
    while s.next_frontend_event().is_some() {}
    s.enumerate();
    match s.next_frontend_event() {
        Some(FrontendEvent::Enumerate(clients)) => {
            let handles: Vec<ClientHandle> = clients.iter().map(|(h, _, _)| *h).collect();
            assert_eq!(handles, vec![0, 2, 3]);
        }
        other => panic!("unexpected {other:?}"),
    }
}

#[test]
fn telling_and_handing_out_alternate_with_requests() {
    let mut s = server();
    let mut captured = edges(&s);
    let mut queued: Vec<ClientHandle> = vec![];
    let mut told: Vec<ClientHandle> = vec![];
    let mut wakeups = 0;
    let handle = |event: FrontendEvent| match event {
        FrontendEvent::Changed(h) => h,
        other => panic!("unexpected {other:?}"),
    };
    for i in 0..60u64 {
        // every side has one client, so that none gives way to another
        let h = (i * 3) % 4;
        let active = s.client_manager().get(h).unwrap().1.active;
        s.handle_request(FrontendRequest::Activate(h, !active));
        queued.push(h);
        if i % 2 == 0 {
            told.push(handle(s.next_frontend_event().unwrap()));
        }
        if i % 5 == 0 {
            for effect in s.take_effects() {
                match effect {
                    Effect::Capture(CaptureRequest::Create(h, edge)) => {
                        assert_eq!(captured.insert(h, edge), None);
                    }
                    Effect::Capture(CaptureRequest::Destroy(h)) => {
                        assert!(captured.remove(&h).is_some());
                    }
                    Effect::Emulation(_) => {}
                    Effect::Notify(Signal::NotifyOne(Occasion::FrontendEventPending)) => {
                        wakeups += 1
                    }
                    other => panic!("unexpected {other:?}"),
                }
            }
            assert_eq!(wakeups, queued.len());
            assert_eq!(captured, edges(&s));
        }
    }
    assert_eq!(told.len(), 30);
    while let Some(event) = s.next_frontend_event() {
        told.push(handle(event));
    }
    assert_eq!(told, queued);
}

#[test]
fn only_the_end_ends_the_service() {
    let mut s = server();
    for request in requests() {
        s.handle_request(request);
        assert!(!s.is_cancelled());
    }
    s.step(Wakeup::RequestFailed);
    s.step(Wakeup::Told);
    s.take_effects();
    s.set_state(State::Sending);
    assert!(!s.is_cancelled());
    s.cancel();
    for request in requests() {
        s.handle_request(request);
        s.take_effects();
        s.next_frontend_event();
        assert!(s.is_cancelled());
    }
    for wakeup in [Wakeup::FrontendClosed, Wakeup::Interrupted, Wakeup::Cancelled] {
        let mut s = server();
        assert!(matches!(s.step(wakeup), Next::End));
        assert!(s.is_cancelled());
    }
}

#[test]
fn created_client_gets_the_lowest_free_handle() {
    let mut s = server();
    s.handle_request(FrontendRequest::Delete(1));
    s.step(Wakeup::Request(FrontendRequest::Create));
    s.handle_request(FrontendRequest::Create);
    let handles: Vec<ClientHandle> = (0..10).filter(|h| s.client_manager().get(*h).is_some()).collect();
    assert_eq!(handles, vec![0, 1, 2, 3, 4]);
}
