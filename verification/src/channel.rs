use vstd::prelude::*;

verus! {

/// One endpoint of a duplex in-memory link: a single pending-packet slot plus
/// the identity of the paired endpoint ("buddy") that this channel's writes
/// target.
///
/// The slot holds at most one unread packet; a write into it replaces any
/// unread contents. Verified code has no shared mutable aliasing, so a channel
/// records its buddy as an index into the owning pair rather than as a shared
/// reference, and `write` takes the buddy channel itself as an argument.
pub struct Channel {
    buffer: Vec<u8>,
    buddy: Option<usize>,
}

impl View for Channel {
    type V = Seq<u8>;

    /// The bytes currently pending in this channel's slot.
    closed spec fn view(&self) -> Seq<u8> {
        self.buffer@
    }
}

impl Channel {
    /// The index of the paired endpoint, if one has been linked.
    pub closed spec fn buddy_id(self) -> Option<usize> {
        self.buddy
    }

    /// Constructs a new channel with an empty slot and no buddy yet.
    pub fn new() -> (c: Channel)
        ensures
            c@ == Seq::<u8>::empty(),
            c.buddy_id() is None,
    {
        Channel { buffer: Vec::new(), buddy: None }
    }

    /// Links this channel to the opposite side of the connection. The pairing
    /// is set exactly once: relinking an already paired channel is excluded.
    pub fn add_buddy(&mut self, buddy: usize)
        requires
            old(self).buddy_id() is None,
        ensures
            final(self).buddy_id() == Some(buddy),
            final(self)@ == old(self)@,
    {
        self.buddy = Some(buddy);
    }

    /// Writes to the other side of the connection: overwrites the buddy's
    /// pending slot with `packet`, replacing any unread contents there. The
    /// caller supplies the buddy channel itself, since the two endpoints live
    /// side by side in their owning pair; an unpaired channel cannot write.
    pub fn write(&self, buddy: &mut Channel, packet: Vec<u8>)
        requires
            self.buddy_id() is Some,
        ensures
            final(buddy)@ == packet@,
            final(buddy).buddy_id() == old(buddy).buddy_id(),
    {
        buddy.buffer = packet;
    }

    /// Reads this side of the connection: returns the pending slot contents
    /// (empty if nothing was pending — not an error) and clears the slot.
    pub fn read(&mut self) -> (r: Vec<u8>)
        ensures
            r@ == old(self)@,
            final(self)@ == Seq::<u8>::empty(),
            final(self).buddy_id() == old(self).buddy_id(),
    {
        let mut result: Vec<u8> = Vec::new();
        core::mem::swap(&mut self.buffer, &mut result);
        result
    }

    /// Checks whether the slot is empty: the readiness predicate, with no side
    /// effect.
    pub fn is_empty(&self) -> (r: bool)
        ensures
            r == (self@.len() == 0),
    {
        self.buffer.len() == 0
    }

    /// The index of the paired endpoint, if one has been linked.
    pub fn buddy_index(&self) -> (r: Option<usize>)
        ensures
            r == self.buddy_id(),
    {
        self.buddy
    }

    /// The contents of the slot, without consuming them.
    pub fn contents(&self) -> (r: &Vec<u8>)
        ensures
            r@ == self@,
    {
        &self.buffer
    }
}

} // verus!
