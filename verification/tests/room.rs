use messenger::client::Client;
use messenger::request::Request;
use messenger::room::{Delivery, Room};

fn req(method: &str, from: &str, to: &str, text: &str) -> Request {
    Request::new(method.to_string(), from.to_string(), to.to_string(), text.to_string())
}

fn member(name: &str, addr: u16) -> (String, Client<u16>) {
    (name.to_string(), Client::new(name.to_string(), addr))
}

fn sent(d: &[Delivery<u16>]) -> Vec<(u16, String)> {
    d.iter().map(|x| (x.addr, x.text.clone())).collect()
}

#[test]
fn request_getters_return_fields() {
    let r = req("2", "ann", "bob", "hi");
    assert_eq!(r.get_method(), "2");
    assert_eq!(r.get_from(), "ann");
    assert_eq!(r.get_to(), "bob");
    assert_eq!(r.get_text(), "hi");
}

#[test]
fn client_getters_return_fields() {
    let c = Client::new("ann".to_string(), 7u16);
    assert_eq!(c.get_name(), "ann");
    assert_eq!(c.get_udp_socket_addr(), 7);
}

#[test]
fn joined_member_is_found() {
    let mut room: Room<u16> = Room::new(Vec::new());
    room.join("ann".to_string(), Client::new("ann".to_string(), 1));
    let c = room.get_client_by_name("ann".to_string()).unwrap();
    assert_eq!(c.get_udp_socket_addr(), 1);
    assert!(room.get_client_by_name("bob".to_string()).is_none());
}

#[test]
fn joining_again_replaces_the_member() {
    let mut room = Room::new(vec![member("ann", 1), member("bob", 2)]);
    room.join("ann".to_string(), Client::new("ann".to_string(), 9));
    assert_eq!(room.get_client_by_name("ann".to_string()).unwrap().get_udp_socket_addr(), 9);
    assert_eq!(room.get_client_by_name("bob".to_string()).unwrap().get_udp_socket_addr(), 2);
    let out = room.broadcast(req("2", "zed", "", "x"));
    assert_eq!(sent(&out), vec![(9, "x".to_string()), (2, "x".to_string())]);
}

#[test]
fn broadcast_skips_the_sender() {
    let room = Room::new(vec![member("ann", 1), member("bob", 2), member("cat", 3)]);
    let out = room.broadcast(req("2", "bob", "", "hello"));
    assert_eq!(sent(&out), vec![(1, "hello".to_string()), (3, "hello".to_string())]);
}

#[test]
fn broadcast_compares_the_members_own_name() {
    // joined under "alias", but the member calls itself "bob"
    let room = Room::new(vec![("alias".to_string(), Client::new("bob".to_string(), 5u16)), member("ann", 1)]);
    let out = room.broadcast(req("2", "bob", "", "m"));
    assert_eq!(sent(&out), vec![(1, "m".to_string())]);
    let out = room.broadcast(req("2", "alias", "", "m"));
    assert_eq!(sent(&out), vec![(5, "m".to_string()), (1, "m".to_string())]);
}

#[test]
fn broadcast_in_an_empty_room_sends_nothing() {
    let room: Room<u16> = Room::new(Vec::new());
    assert!(room.broadcast(req("2", "ann", "", "m")).is_empty());
}

#[test]
fn private_message_reaches_its_addressee_only() {
    let room = Room::new(vec![member("ann", 1), member("bob", 2)]);
    let d = room.private_msg(req("3", "ann", "bob", "psst")).unwrap();
    assert_eq!((d.addr, d.text), (2, "psst".to_string()));
    assert!(room.private_msg(req("3", "ann", "cat", "psst")).is_none());
}

#[test]
fn dispatch_join_adds_the_sender_under_its_name() {
    let mut room: Room<u16> = Room::new(Vec::new());
    let out = room.dispatch(req("1", "ann", "", ""), Client::new("ann".to_string(), 4));
    assert!(out.is_empty());
    assert_eq!(room.get_client_by_name("ann".to_string()).unwrap().get_udp_socket_addr(), 4);
}

#[test]
fn dispatch_send_broadcasts() {
    let mut room = Room::new(vec![member("ann", 1), member("bob", 2)]);
    let out = room.dispatch(req("2", "ann", "", "hey"), Client::new("ann".to_string(), 1));
    assert_eq!(sent(&out), vec![(2, "hey".to_string())]);
}

#[test]
fn dispatch_private_message() {
    let mut room = Room::new(vec![member("ann", 1), member("bob", 2)]);
    let out = room.dispatch(req("3", "bob", "ann", "hey"), Client::new("bob".to_string(), 2));
    assert_eq!(sent(&out), vec![(1, "hey".to_string())]);
    let out = room.dispatch(req("3", "bob", "nobody", "hey"), Client::new("bob".to_string(), 2));
    assert!(out.is_empty());
}

#[test]
fn dispatch_unknown_method_does_nothing() {
    let mut room = Room::new(vec![member("ann", 1)]);
    let out = room.dispatch(req("9", "bob", "", "hey"), Client::new("bob".to_string(), 2));
    assert!(out.is_empty());
    assert!(room.get_client_by_name("bob".to_string()).is_none());
}

#[test]
fn join_then_private_message_reaches_the_joiner() {
    let mut room: Room<u16> = Room::new(Vec::new());
    room.dispatch(req("1", "dan", "", ""), Client::new("dan".to_string(), 8));
    let out = room.dispatch(req("3", "eve", "dan", "yo"), Client::new("eve".to_string(), 3));
    assert_eq!(sent(&out), vec![(8, "yo".to_string())]);
}
