use simlink::node::{
    connect_permitted, exchange_ready, format_request, listen_permitted, server_response,
    TcpState, SOCKET_BUFFER_SIZE,
};

#[test]
fn listen_is_permitted_only_for_an_inactive_non_listening_socket() {
    assert!(listen_permitted(false, false));
    assert!(!listen_permitted(true, false));
    assert!(!listen_permitted(false, true));
    assert!(!listen_permitted(true, true));
}

#[test]
fn connect_is_permitted_only_when_the_socket_is_not_open() {
    assert!(connect_permitted(false));
    assert!(!connect_permitted(true));
}

#[test]
fn exchange_waits_for_both_sides_to_be_established() {
    assert!(exchange_ready(TcpState::Established, TcpState::Established));
    assert!(!exchange_ready(TcpState::SynSent, TcpState::Established));
    assert!(!exchange_ready(TcpState::Established, TcpState::Listen));
    assert!(!exchange_ready(TcpState::Closed, TcpState::Closed));
}

#[test]
fn request_line_is_method_space_path() {
    assert_eq!(format_request("GET", "/elvis.html"), "GET /elvis.html");
    assert_eq!(format_request("POST", "/"), "POST /");
}

#[test]
fn server_reply_is_the_fixed_response() {
    assert_eq!(server_response(), "HTTP Response!");
}

#[test]
fn socket_buffers_are_fixed_size() {
    assert_eq!(SOCKET_BUFFER_SIZE, 1500);
}
