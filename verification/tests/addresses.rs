use lan_mouse_server::net::{copy_addrs, IpAddr, IpSet, SocketAddr};
use lan_mouse_server::text::{copy_text, same_text};

const A: IpAddr = IpAddr::V4(0xc0a8_0001);
const B: IpAddr = IpAddr::V4(0xc0a8_0002);
const C: IpAddr = IpAddr::V6(1);

#[test]
fn address_keeps_ip_and_port() {
    let v4 = SocketAddr::new(A, 4242);
    assert_eq!(v4, SocketAddr::V4 { ipv4: 0xc0a8_0001, port: 4242 });
    assert_eq!(v4.ip(), A);
    assert_eq!(v4.port(), 4242);
    let v6 = SocketAddr::new(C, 1);
    assert_eq!(v6, SocketAddr::V6 { ipv6: 1, port: 1, flowinfo: 0, scope_id: 0 });
    assert_eq!(v6.ip(), C);
    assert_eq!(v6.port(), 1);
}

#[test]
fn same_number_is_not_the_same_address() {
    let set = IpSet::from_lists(&vec![IpAddr::V4(1)], &vec![IpAddr::V6(1)]);
    assert_eq!(set.to_vec().len(), 2);
}

#[test]
fn set_holds_each_address_once() {
    let set = IpSet::from_lists(&vec![A, B, A], &vec![B, C]);
    assert_eq!(set.to_vec().len(), 3);
    assert!(set.contains(A));
    assert!(set.contains(B));
    assert!(set.contains(C));
    assert!(!set.contains(IpAddr::V6(2)));
    let mut copy = set.clone();
    copy.insert(IpAddr::V6(2));
    copy.insert(A);
    assert_eq!(copy.to_vec().len(), 4);
    assert_eq!(set.to_vec().len(), 3);
    assert_eq!(IpSet::new().to_vec().len(), 0);
}

#[test]
fn copies_keep_order() {
    assert_eq!(copy_addrs(&vec![C, A, A]), vec![C, A, A]);
}

#[test]
fn texts_are_compared_by_their_characters() {
    let a = Some("host".to_string());
    assert!(same_text(&a, &copy_text(&a)));
    assert!(same_text(&None, &None));
    assert!(!same_text(&a, &None));
    assert!(!same_text(&None, &a));
    assert!(!same_text(&a, &Some("Host".to_string())));
    assert_eq!(copy_text(&None), None);
}
