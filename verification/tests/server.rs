use messenger::request::Request;
use messenger::tcp::TcpServer;
use messenger::udp::{UdpServer, MSG_SIZE, UDP_SERVER_ADDRESS};
use messenger::ClientRequest;

#[test]
fn datagram_text_is_decoded() {
    let text = UdpServer::request_text("{\"method\":\"1\"}".as_bytes()).unwrap();
    assert_eq!(text, "{\"method\":\"1\"}");
    assert_eq!(UdpServer::request_text("héllo".as_bytes()).unwrap(), "héllo");
}

#[test]
fn empty_datagram_is_refused() {
    assert_eq!(UdpServer::request_text(&[]), Err("failed to parse error".to_string()));
}

#[test]
fn invalid_utf8_datagram_is_refused() {
    assert_eq!(UdpServer::request_text(&[0xff, 0xfe]), Err("failed to parse error".to_string()));
    assert_eq!(UdpServer::request_text(&[b'a', 0xc3]), Err("failed to parse error".to_string()));
}

#[test]
fn sender_becomes_a_client() {
    let r = Request::new("1".to_string(), "ann".to_string(), "".to_string(), "".to_string());
    let (r, c) = UdpServer::with_sender(r, 42u32);
    assert_eq!(r.get_from(), "ann");
    assert_eq!(c.get_name(), "ann");
    assert_eq!(c.get_udp_socket_addr(), 42);
}

#[test]
fn server_constants() {
    assert_eq!(UDP_SERVER_ADDRESS, "127.0.0.1:8080");
    assert_eq!(MSG_SIZE, 4096);
}

#[test]
fn received_bytes_are_decoded_lossily() {
    assert_eq!(TcpServer::receive_text(Some(b"get".to_vec())), Some("get".to_string()));
    assert_eq!(
        TcpServer::receive_text(Some(vec![b'a', 0xff, b'b'])),
        Some("a\u{fffd}b".to_string())
    );
    assert_eq!(TcpServer::receive_text(None), None);
}

#[test]
fn served_requests_are_reported() {
    assert_eq!(TcpServer::serve(Some(ClientRequest::Get)), Some("Get".to_string()));
    assert_eq!(
        TcpServer::serve(Some(ClientRequest::Join { group_name: "rust".to_string() })),
        Some("Join rust".to_string())
    );
    assert_eq!(
        TcpServer::serve(Some(ClientRequest::Send { message: "hi there".to_string() })),
        Some("Send hi there".to_string())
    );
    assert_eq!(TcpServer::serve(None), None);
}
