use vstd::prelude::*;

use crate::connection::{spec_read, spec_write, Connection};

verus! {

/// A single-use receive capability bound to one endpoint of a link pair.
///
/// `consume` takes the token by value, so a consumed token is gone and can
/// never be consumed again: the exactly-once discipline is enforced by
/// ownership, not by convention. A token that is never consumed has no
/// effect on the link — the read happens inside `consume`, not at creation.
pub struct MyRxToken {
    side: usize,
}

impl MyRxToken {
    /// Which endpoint of the link pair this token is bound to.
    pub closed spec fn side_spec(self) -> usize {
        self.side
    }

    /// A well-formed token is bound to one of the two endpoints.
    pub open spec fn wf(self) -> bool {
        self.side_spec() < 2
    }

    /// Binds a fresh receive token to endpoint `side`; only the device
    /// adapter hands tokens out.
    pub(crate) fn bind(side: usize) -> (t: MyRxToken)
        requires
            side < 2,
        ensures
            t.wf(),
            t.side_spec() == side,
    {
        MyRxToken { side }
    }

    /// Consumes the token: drains the pending slot at the bound endpoint and
    /// returns its bytes for the caller to process.
    pub fn consume(self, link: &mut Connection) -> (r: Vec<u8>)
        requires
            self.wf(),
            old(link).wf(),
        ensures
            final(link).wf(),
            r@ == old(link)@[self.side_spec() as int],
            final(link)@ == spec_read(old(link)@, self.side_spec() as int).0,
    {
        link.read(self.side)
    }
}

/// A single-use transmit capability bound to one endpoint of a link pair.
///
/// As with [`MyRxToken`], `consume` destroys the capability, so each granted
/// transmit slot is used at most once.
pub struct MyTxToken {
    side: usize,
}

impl MyTxToken {
    /// Which endpoint of the link pair this token is bound to.
    pub closed spec fn side_spec(self) -> usize {
        self.side
    }

    /// A well-formed token is bound to one of the two endpoints.
    pub open spec fn wf(self) -> bool {
        self.side_spec() < 2
    }

    /// Binds a fresh transmit token to endpoint `side`; only the device
    /// adapter hands tokens out.
    pub(crate) fn bind(side: usize) -> (t: MyTxToken)
        requires
            side < 2,
        ensures
            t.wf(),
            t.side_spec() == side,
    {
        MyTxToken { side }
    }

    /// Consumes the token: sends the filled `packet` from the bound
    /// endpoint, delivering it into the buddy's pending slot and replacing
    /// any unread contents there.
    pub fn consume(self, link: &mut Connection, packet: Vec<u8>)
        requires
            self.wf(),
            old(link).wf(),
        ensures
            final(link).wf(),
            final(link)@ == spec_write(old(link)@, self.side_spec() as int, packet@),
    {
        link.write(self.side, packet);
    }
}

/// The zero-filled staging buffer a transmit token offers the packet writer:
/// `len` bytes, all zero, to be filled in place before the token is
/// consumed.
pub fn zero_buffer(len: usize) -> (v: Vec<u8>)
    ensures
        v@.len() == len,
        forall|i: int| 0 <= i < len ==> v@[i] == 0u8,
{
    let mut v: Vec<u8> = Vec::new();
    let mut i: usize = 0;
    while i < len
        invariant
            i <= len,
            v@.len() == i,
            forall|j: int| 0 <= j < i ==> v@[j] == 0u8,
        decreases len - i,
    {
        v.push(0);
        i = i + 1;
    }
    v
}

} // verus!
