use vstd::prelude::*;

use crate::channel::Channel;

verus! {

/// The index of the opposite endpoint of a pair.
pub open spec fn peer(side: int) -> int {
    1 - side
}

/// The slots of a pair after endpoint `from` writes `packet`: the packet
/// lands in the buddy's slot, replacing whatever was pending there.
pub open spec fn spec_write(slots: Seq<Seq<u8>>, from: int, packet: Seq<u8>) -> Seq<Seq<u8>> {
    slots.update(peer(from), packet)
}

/// The slots of a pair after endpoint `at` reads, paired with what the read
/// returned: the reader's own slot is drained.
pub open spec fn spec_read(slots: Seq<Seq<u8>>, at: int) -> (Seq<Seq<u8>>, Seq<u8>) {
    (slots.update(at, Seq::<u8>::empty()), slots[at])
}

/// A point-to-point connection: the single shared owner of two channels that
/// are generated together and cross-linked as mutual buddies. Endpoints are
/// addressed by side index `0` or `1`; holding the pair in one owner keeps
/// the buddy invariant without an ownership cycle between the channels.
pub struct Connection {
    a: Channel,
    b: Channel,
}

impl View for Connection {
    type V = Seq<Seq<u8>>;

    /// The pending slots of the two endpoints, indexed by side.
    closed spec fn view(&self) -> Seq<Seq<u8>> {
        seq![self.a@, self.b@]
    }
}

impl Connection {
    /// The buddy index recorded at endpoint `side`.
    pub closed spec fn buddy_of(self, side: int) -> Option<usize> {
        if side == 0 {
            self.a.buddy_id()
        } else {
            self.b.buddy_id()
        }
    }

    /// Well-formed pairing: each endpoint names the other as its buddy.
    pub open spec fn wf(self) -> bool {
        &&& self.buddy_of(0) == Some(1usize)
        &&& self.buddy_of(1) == Some(0usize)
    }

    /// Builds a connection between two channels: both slots start empty and
    /// each channel points at the other as its buddy.
    pub fn new() -> (c: Connection)
        ensures
            c.wf(),
            c@ =~= seq![Seq::<u8>::empty(), Seq::<u8>::empty()],
    {
        let mut left = Channel::new();
        let mut right = Channel::new();
        left.add_buddy(1);
        right.add_buddy(0);
        Connection { a: left, b: right }
    }

    /// Writes `packet` from endpoint `from`: it is delivered into the buddy's
    /// pending slot, unconditionally replacing any unread contents there —
    /// the documented loss hazard of a single-slot link.
    pub fn write(&mut self, from: usize, packet: Vec<u8>)
        requires
            old(self).wf(),
            from < 2,
        ensures
            final(self).wf(),
            final(self)@ == spec_write(old(self)@, from as int, packet@),
    {
        if from == 0 {
            self.a.write(&mut self.b, packet);
        } else {
            self.b.write(&mut self.a, packet);
        }
        proof {
            assert(self@ =~= spec_write(old(self)@, from as int, packet@));
        }
    }

    /// Reads at endpoint `at`: returns the pending slot contents (empty if
    /// nothing was pending — not an error) and drains the slot.
    pub fn read(&mut self, at: usize) -> (r: Vec<u8>)
        requires
            old(self).wf(),
            at < 2,
        ensures
            final(self).wf(),
            r@ == old(self)@[at as int],
            final(self)@ == spec_read(old(self)@, at as int).0,
    {
        let r = if at == 0 {
            self.a.read()
        } else {
            self.b.read()
        };
        proof {
            assert(self@ =~= spec_read(old(self)@, at as int).0);
        }
        r
    }

    /// The buddy index recorded at endpoint `side`.
    pub fn buddy_index(&self, side: usize) -> (r: Option<usize>)
        requires
            side < 2,
        ensures
            r == self.buddy_of(side as int),
    {
        if side == 0 {
            self.a.buddy_index()
        } else {
            self.b.buddy_index()
        }
    }

    /// Checks whether endpoint `at` has a packet pending, with no side
    /// effect.
    pub fn is_empty(&self, at: usize) -> (r: bool)
        requires
            at < 2,
        ensures
            r == (self@[at as int].len() == 0),
    {
        if at == 0 {
            self.a.is_empty()
        } else {
            self.b.is_empty()
        }
    }
}

/// Symmetry law: in a well-formed connection, following the buddy link twice
/// leads back to the endpoint one started from — the peer of an endpoint's
/// peer is the endpoint itself.
pub proof fn lemma_peer_symmetry(c: Connection, side: int)
    requires
        c.wf(),
        0 <= side < 2,
    ensures
        c.buddy_of(side) is Some,
        c.buddy_of(c.buddy_of(side)->Some_0 as int) == Some(side as usize),
{
}

/// Round-trip law: starting from a state where the writer's own slot is
/// empty, writing `p` toward the buddy and then reading at the buddy returns
/// exactly `p`, and the writer's own read afterwards returns the empty
/// packet.
pub proof fn lemma_round_trip(slots: Seq<Seq<u8>>, from: int, p: Seq<u8>)
    requires
        slots.len() == 2,
        0 <= from < 2,
        slots[from].len() == 0,
    ensures
        spec_read(spec_write(slots, from, p), peer(from)).1 == p,
        spec_read(spec_read(spec_write(slots, from, p), peer(from)).0, from).1.len() == 0,
{
}

/// Overwrite hazard: writing `p1` and then `p2` from the same endpoint
/// without an intervening read leaves the pair exactly as if only `p2` had
/// been written, so the buddy's read yields `p2` and `p1` is lost.
pub proof fn lemma_overwrite_hazard(slots: Seq<Seq<u8>>, from: int, p1: Seq<u8>, p2: Seq<u8>)
    requires
        slots.len() == 2,
        0 <= from < 2,
    ensures
        spec_write(spec_write(slots, from, p1), from, p2) == spec_write(slots, from, p2),
        spec_read(spec_write(spec_write(slots, from, p1), from, p2), peer(from)).1 == p2,
{
    assert(spec_write(spec_write(slots, from, p1), from, p2) =~= spec_write(slots, from, p2));
}

/// Readiness law: a read leaves the reader's slot empty, and a write of a
/// non-empty packet leaves the buddy's slot non-empty until it is read. (A
/// write of an empty packet leaves the buddy's slot empty: a single-slot link
/// cannot tell an empty packet from no packet.)
pub proof fn lemma_readiness(slots: Seq<Seq<u8>>, side: int, p: Seq<u8>)
    requires
        slots.len() == 2,
        0 <= side < 2,
    ensures
        spec_read(slots, side).0[side].len() == 0,
        p.len() > 0 ==> spec_write(slots, side, p)[peer(side)].len() > 0,
{
}

} // verus!
