use simlink::connection::Connection;
use simlink::machine::{Medium, MyCoolMachine, LINK_MTU};
use simlink::token::zero_buffer;

const ADDR: [u8; 6] = [0x02, 0x00, 0x00, 0x00, 0x00, 0x01];

#[test]
fn receive_yields_nothing_on_an_empty_channel() {
    let link = Connection::new();
    let machine = MyCoolMachine::new(ADDR, 0);
    assert!(machine.receive(&link, 0).is_none());
}

#[test]
fn receive_yields_exactly_one_token_pair_when_a_packet_is_pending() {
    let mut link = Connection::new();
    link.write(1, vec![9, 9]);
    let machine = MyCoolMachine::new(ADDR, 0);
    let pair = machine.receive(&link, 0);
    assert!(pair.is_some());
    // The pending packet is untouched until the receive token is consumed.
    assert!(!link.is_empty(0));
    let (rx, _tx) = pair.unwrap();
    let got = rx.consume(&mut link);
    assert_eq!(got, vec![9, 9]);
    assert!(link.is_empty(0));
    // After the read the adapter is back to reporting no packet.
    assert!(machine.receive(&link, 1).is_none());
}

#[test]
fn transmit_token_is_always_granted_and_delivers_to_the_buddy() {
    let mut link = Connection::new();
    let machine = MyCoolMachine::new(ADDR, 0);
    let tx = machine.transmit(0);
    assert!(tx.is_some());
    tx.unwrap().consume(&mut link, vec![5, 6, 7]);
    assert!(link.is_empty(0));
    assert_eq!(link.read(1), vec![5, 6, 7]);
}

#[test]
fn an_unconsumed_receive_token_has_no_effect() {
    let mut link = Connection::new();
    link.write(1, vec![4]);
    let machine = MyCoolMachine::new(ADDR, 0);
    let pair = machine.receive(&link, 0);
    drop(pair);
    assert_eq!(link.read(0), vec![4]);
}

#[test]
fn capabilities_report_ethernet_with_fixed_mtu() {
    let machine = MyCoolMachine::new(ADDR, 1);
    let caps = machine.capabilities();
    assert_eq!(caps.medium, Medium::Ethernet);
    assert_eq!(caps.max_transmission_unit, 65535);
    assert_eq!(LINK_MTU, 65535);
    assert_eq!(machine.side(), 1);
    assert_eq!(machine.addr(), ADDR);
}

#[test]
fn zero_buffer_is_zero_filled_with_the_requested_length() {
    let buf = zero_buffer(9);
    assert_eq!(buf, vec![0u8; 9]);
    assert_eq!(zero_buffer(0), Vec::<u8>::new());
}
