use lan_mouse_server::client::{
    to_capture_pos, CapturePosition, ClientConfig, ClientState, Position, DEFAULT_PORT,
};
use lan_mouse_server::manager::ClientManager;

#[test]
fn lowest_free_handle_is_used() {
    let mut manager = ClientManager::default();
    assert_eq!(manager.add_client(), 0);
    assert_eq!(manager.add_client(), 1);
    assert_eq!(manager.add_client(), 2);
    assert!(manager.remove_client(0).is_some());
    assert!(manager.remove_client(1).is_some());
    assert!(manager.remove_client(1).is_none());
    assert!(manager.get(1).is_none());
    assert_eq!(manager.add_client(), 0);
    assert_eq!(manager.add_client(), 1);
    assert_eq!(manager.add_client(), 3);
}

#[test]
fn unknown_handles_name_no_client() {
    let mut manager = ClientManager::default();
    assert!(manager.get(0).is_none());
    assert!(manager.get_mut(u64::MAX).is_none());
    assert!(manager.remove_client(u64::MAX).is_none());
    assert!(manager.find_client(Position::Left).is_none());
    assert_eq!(manager.active_clients(), vec![]);
    assert_eq!(manager.snapshot().len(), 0);
}

#[test]
fn active_client_is_found_by_its_side() {
    let mut manager = ClientManager::default();
    for _ in 0..4 {
        manager.add_client();
    }
    manager.get_mut(0).unwrap().0.pos = Position::Top;
    for h in [2, 3] {
        let (config, state) = manager.get_mut(h).unwrap();
        config.pos = Position::Top;
        state.active = true;
    }
    manager.get_mut(1).unwrap().1.active = true;
    assert_eq!(manager.find_client(Position::Top), Some(2));
    assert_eq!(manager.find_client(Position::Left), Some(1));
    assert_eq!(manager.find_client(Position::Right), None);
    assert_eq!(manager.active_clients(), vec![1, 2, 3]);
    manager.remove_client(2);
    assert_eq!(manager.find_client(Position::Top), Some(3));
    let handles: Vec<u64> = manager.get_client_states().iter().map(|(h, _)| *h).collect();
    assert_eq!(handles, vec![0, 1, 3]);
    let copies: Vec<(u64, Position, bool)> =
        manager.snapshot().iter().map(|(h, c, s)| (*h, c.pos, s.active)).collect();
    assert_eq!(
        copies,
        vec![
            (0, Position::Top, false),
            (1, Position::Left, true),
            (3, Position::Top, true)
        ]
    );
}

#[test]
fn new_client_is_unconfigured() {
    let mut manager = ClientManager::default();
    manager.add_client();
    let (config, state) = manager.get(0).unwrap();
    assert_eq!(config.hostname, None);
    assert_eq!(config.fix_ips, vec![]);
    assert_eq!(config.port, DEFAULT_PORT);
    assert_eq!(config.port, 4242);
    assert_eq!(config.pos, Position::Left);
    assert_eq!(config.cmd, None);
    assert!(!state.active);
    assert_eq!(state.active_addr, None);
    assert!(!state.alive);
    assert_eq!(state.dns_ips, vec![]);
    assert_eq!(state.ips.to_vec().len(), 0);
    assert!(!state.has_pressed_keys);
    assert!(!state.resolving);
}

#[test]
fn copies_of_clients_are_equal() {
    let config = ClientConfig {
        hostname: Some("host".to_string()),
        fix_ips: vec![],
        port: 7,
        pos: Position::Bottom,
        cmd: Some("echo".to_string()),
    };
    let copy = config.clone();
    assert_eq!(copy.hostname, config.hostname);
    assert_eq!(copy.port, 7);
    assert_eq!(copy.pos, Position::Bottom);
    assert_eq!(copy.cmd, config.cmd);
    let state = ClientState { active: true, resolving: true, ..Default::default() };
    let copy = state.clone();
    assert!(copy.active && copy.resolving && !copy.alive);
}

#[test]
fn each_side_has_its_edge() {
    assert_eq!(to_capture_pos(Position::Left), CapturePosition::Left);
    assert_eq!(to_capture_pos(Position::Right), CapturePosition::Right);
    assert_eq!(to_capture_pos(Position::Top), CapturePosition::Top);
    assert_eq!(to_capture_pos(Position::Bottom), CapturePosition::Bottom);
}
