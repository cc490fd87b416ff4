//! A bounded FIFO queue of datagrams waiting for a not-yet-writable
//! socket. When the queue is full the newest datagram is refused (the
//! caller drops it), never an older one: per-flow order is preserved.

use vstd::prelude::*;

verus! {

/// Bounded FIFO of outbound datagrams.
pub struct DatagramBuffer {
    datagrams: Vec<Vec<u8>>,
    capacity: usize,
}

impl View for DatagramBuffer {
    type V = Seq<Seq<u8>>;

    closed spec fn view(&self) -> Seq<Seq<u8>> {
        self.datagrams@.map(|i: int, d: Vec<u8>| d@)
    }
}

impl DatagramBuffer {
    /// The bound this buffer was created with.
    pub closed spec fn capacity_spec(&self) -> int {
        self.capacity as int
    }

    /// Create an empty buffer that holds at most `capacity` datagrams.
    pub fn new(capacity: usize) -> (r: Self)
        ensures
            r@ == Seq::<Seq<u8>>::empty(),
            r.capacity_spec() == capacity,
    {
        let r = DatagramBuffer { datagrams: Vec::new(), capacity };
        proof {
            assert(r@ =~= Seq::<Seq<u8>>::empty());
        }
        r
    }

    /// Accept one datagram from the tunnel side. Refuses it, leaving the
    /// buffer unchanged, exactly when the buffer is full.
    pub fn read_from(&mut self, datagram: &[u8]) -> (accepted: bool)
        ensures
            accepted == (old(self)@.len() < old(self).capacity_spec()),
            accepted ==> final(self)@ == old(self)@.push(datagram@),
            !accepted ==> final(self)@ == old(self)@,
            final(self).capacity_spec() == old(self).capacity_spec(),
    {
        if self.datagrams.len() < self.capacity {
            let mut d: Vec<u8> = Vec::new();
            d.extend_from_slice(datagram);
            assert(d@ =~= datagram@);
            self.datagrams.push(d);
            proof {
                assert(self@ =~= old(self)@.push(datagram@));
            }
            true
        } else {
            false
        }
    }

    /// The datagram that the next successful socket write must carry:
    /// the oldest one.
    pub fn next_datagram(&self) -> (r: Option<&Vec<u8>>)
        ensures
            self@.len() == 0 ==> r is None,
            self@.len() > 0 ==> (r matches Some(d) && d@ == self@[0]),
    {
        if self.datagrams.len() == 0 {
            None
        } else {
            Some(&self.datagrams[0])
        }
    }

    /// Drop the oldest datagram after the socket accepted it.
    pub fn pop(&mut self) -> (r: Vec<u8>)
        requires
            old(self)@.len() > 0,
        ensures
            r@ == old(self)@[0],
            final(self)@ == old(self)@.skip(1),
            final(self).capacity_spec() == old(self).capacity_spec(),
    {
        let r = self.datagrams.remove(0);
        proof {
            assert(self@ =~= old(self)@.skip(1));
        }
        r
    }

    /// Whether nothing waits to be written.
    pub fn is_empty(&self) -> (r: bool)
        ensures
            r == (self@.len() == 0),
    {
        self.datagrams.len() == 0
    }

    /// How many datagrams wait to be written.
    pub fn len(&self) -> (r: usize)
        ensures
            r == self@.len(),
    {
        self.datagrams.len()
    }
}

} // verus!
