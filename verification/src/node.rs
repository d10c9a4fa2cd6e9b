use vstd::prelude::*;
use vstd::string::StringExecFns;

verus! {

/// The connection states a stack-owned socket can report. The state machine
/// itself belongs to the external protocol stack; the node only observes the
/// state and drives transitions through the stack's own operations.
#[derive(Clone, Copy, PartialEq, Eq, Structural, Debug)]
pub enum TcpState {
    Closed,
    Listen,
    SynSent,
    SynReceived,
    Established,
    FinWait1,
    FinWait2,
    CloseWait,
    Closing,
    LastAck,
    TimeWait,
}

/// The byte size of the send and receive buffers every node socket is
/// created with.
pub const SOCKET_BUFFER_SIZE: usize = 1500;

/// Whether a listen request may proceed: only an inactive, non-listening
/// socket may be put into listening state; otherwise the request is skipped
/// with a diagnostic and no error is raised.
pub fn listen_permitted(is_active: bool, is_listening: bool) -> (r: bool)
    ensures
        r == (!is_active && !is_listening),
{
    !is_active && !is_listening
}

/// Whether a connect request may proceed: only a socket that is not already
/// open may initiate an outbound connection; otherwise the request is
/// skipped with a diagnostic and no error is raised.
pub fn connect_permitted(is_open: bool) -> (r: bool)
    ensures
        r == !is_open,
{
    !is_open
}

/// Whether the demo request/response exchange may start: both ends of the
/// pair must report an established connection.
pub fn exchange_ready(client: TcpState, server: TcpState) -> (r: bool)
    ensures
        r == (client is Established && server is Established),
{
    client == TcpState::Established && server == TcpState::Established
}

/// Formats the request line `"{method} {path}"` that the demo client sends.
pub fn format_request(method: &str, path: &str) -> (r: String)
    ensures
        r@ == method@ + " "@ + path@,
{
    let mut s = String::from_str(method);
    s.append(" ");
    s.append(path);
    s
}

/// The fixed response the demo server sends back for every request it
/// receives.
pub fn server_response() -> (r: &'static str)
    ensures
        r@ == "HTTP Response!"@,
{
    "HTTP Response!"
}

} // verus!
