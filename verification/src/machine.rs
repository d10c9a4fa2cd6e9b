use vstd::prelude::*;

use crate::connection::Connection;
use crate::token::{MyRxToken, MyTxToken};

verus! {

/// The transmission medium a device reports during capability negotiation.
#[derive(Clone, Copy, PartialEq, Eq, Structural, Debug)]
pub enum Medium {
    Ethernet,
    Ip,
    Ieee802154,
}

/// The maximum transmission unit the simulated link reports.
pub const LINK_MTU: usize = 65535;

/// Fixed link capabilities: a medium and a maximum transmission unit,
/// queried once per interface construction.
pub struct Capabilities {
    pub medium: Medium,
    pub max_transmission_unit: usize,
}

/// The device adapter: exposes one endpoint of a link pair through a
/// non-blocking receive/transmit contract. It records the endpoint's
/// hardware address and side index; the link pair itself stays with the
/// caller that owns it and is passed in per operation.
pub struct MyCoolMachine {
    addr: [u8; 6],
    side: usize,
}

impl MyCoolMachine {
    /// The hardware address this adapter was built with.
    pub closed spec fn addr_spec(self) -> [u8; 6] {
        self.addr
    }

    /// Which endpoint of the link pair this adapter serves.
    pub closed spec fn side_spec(self) -> usize {
        self.side
    }

    /// A well-formed adapter is bound to one of the two endpoints.
    pub open spec fn wf(self) -> bool {
        self.side_spec() < 2
    }

    /// Builds an adapter for endpoint `side` of a link pair, with hardware
    /// address `addr`.
    pub fn new(addr: [u8; 6], side: usize) -> (m: MyCoolMachine)
        requires
            side < 2,
        ensures
            m.wf(),
            m.addr_spec() == addr,
            m.side_spec() == side,
    {
        MyCoolMachine { addr, side }
    }

    /// The endpoint index this adapter serves.
    pub fn side(&self) -> (r: usize)
        ensures
            r == self.side_spec(),
    {
        self.side
    }

    /// The hardware address this adapter was built with.
    pub fn addr(&self) -> (r: [u8; 6])
        ensures
            r == self.addr_spec(),
    {
        self.addr
    }

    /// Non-blocking receive: yields exactly one receive/transmit token pair,
    /// both bound to this adapter's endpoint, when a packet is pending
    /// there, and nothing when the slot is empty — readiness is derived
    /// purely from buffer occupancy. The timestamp is part of the device
    /// contract but the simulated link ignores time.
    pub fn receive(&self, link: &Connection, _timestamp: i64) -> (r: Option<(
        MyRxToken,
        MyTxToken,
    )>)
        requires
            self.wf(),
        ensures
            r is Some <==> link@[self.side_spec() as int].len() > 0,
            r matches Some(pair) ==> {
                &&& pair.0.wf()
                &&& pair.0.side_spec() == self.side_spec()
                &&& pair.1.wf()
                &&& pair.1.side_spec() == self.side_spec()
            },
    {
        if link.is_empty(self.side) {
            None
        } else {
            Some((MyRxToken::bind(self.side), MyTxToken::bind(self.side)))
        }
    }

    /// Non-blocking transmit: the simulated link can always accept a packet,
    /// so a transmit token bound to this endpoint is always granted. The
    /// timestamp is part of the device contract but the simulated link
    /// ignores time.
    pub fn transmit(&self, _timestamp: i64) -> (r: Option<MyTxToken>)
        requires
            self.wf(),
        ensures
            r matches Some(t) && t.wf() && t.side_spec() == self.side_spec(),
    {
        Some(MyTxToken::bind(self.side))
    }

    /// Capability negotiation: a fixed Ethernet medium with a 65535-byte
    /// maximum transmission unit.
    pub fn capabilities(&self) -> (c: Capabilities)
        ensures
            c.medium == Medium::Ethernet,
            c.max_transmission_unit == LINK_MTU,
    {
        Capabilities { medium: Medium::Ethernet, max_transmission_unit: LINK_MTU }
    }
}

} // verus!
