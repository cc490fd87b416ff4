//! The per-flow state machine: one logical flow, its outbound buffer, its
//! reconstruction templates, its registration with the selector, and its
//! binary lifecycle Open -> Closed. The real socket lives outside the
//! library; each readiness tick hands in the outcome of the socket
//! operations, and the state machine decides everything else.

use crate::datagram_buffer::DatagramBuffer;
use crate::icmp_header::IcmpHeaderData;
use crate::ipv4_header::Ipv4HeaderData;
use crate::packetizer::{packetized, Packetizer};
use crate::selector::{Ready, Selector};
use vstd::prelude::*;

verus! {

/// Seconds without activity after which an ICMP flow is expired: short,
/// because echo exchanges are brief request/response pairs.
pub const IDLE_TIMEOUT_SECONDS: u64 = 2;

/// How many datagrams one flow's outbound buffer holds before it drops
/// the newest.
pub const OUTBOUND_BUFFER_DATAGRAMS: usize = 4;

/// The identity of one logical flow: protocol plus endpoint pair. The
/// destination is the rewritten one, the address the real socket is
/// opened to.
#[derive(Clone, Copy, Debug, PartialEq, Eq, Hash, Structural)]
pub struct ConnectionId {
    pub protocol: u8,
    pub source: u32,
    pub source_port: u16,
    pub destination: u32,
    pub destination_port: u16,
}

impl ConnectionId {
    /// The address and port the real socket is opened to.
    pub fn rewritten_destination(&self) -> (r: (u32, u16))
        ensures
            r == (self.destination, self.destination_port),
    {
        (self.destination, self.destination_port)
    }
}

/// What the attempt to write the oldest buffered datagram to the real
/// socket came to. Ignored when the event carried no write readiness.
#[derive(Clone, Copy, Debug, PartialEq, Eq, Structural)]
pub enum WriteOutcome {
    /// The socket accepted the datagram.
    Written,
    /// The socket was not actually writable; retry on the next event.
    WouldBlock,
    /// A socket error other than would-block: fatal for this flow.
    Failed,
}

/// What the attempt to read one transport-layer message from the real
/// socket came to. Ignored when the event carried no read readiness.
#[derive(Debug)]
pub enum ReadOutcome {
    /// One ICMP message, as received.
    Data(Vec<u8>),
    /// The socket was not actually readable; retry on the next event.
    WouldBlock,
    /// A socket error other than would-block: fatal for this flow.
    Failed,
}

/// A received message the packetizer can wrap: it has its ICMP header,
/// and the rebuilt packet's declared length fits in 16 bits.
pub open spec fn valid_reply(payload: Seq<u8>) -> bool {
    4 <= payload.len() && 20 + payload.len() <= 0xffff
}

/// Whether the read phase of a tick is reached: the event carries read
/// readiness and the write phase neither blocked nor failed.
pub open spec fn read_reached(event: Ready, write_outcome: WriteOutcome) -> bool {
    event.readable && (!event.writable || write_outcome is Written)
}

/// Whether this tick ends with the connection closed: an event with
/// neither readiness bit (error/hangup), a fatal write, or a fatal read.
pub open spec fn closes_in_tick(
    event: Ready,
    write_outcome: WriteOutcome,
    read_outcome: ReadOutcome,
) -> bool {
    ||| !event.readable && !event.writable
    ||| event.writable && write_outcome is Failed
    ||| read_reached(event, write_outcome) && read_outcome is Failed
}

/// Whether this tick is cut short by a spurious readiness bit: the state
/// is left as the phases before the block left it, and the interest set
/// is not recomputed.
pub open spec fn early_exit_in_tick(
    event: Ready,
    write_outcome: WriteOutcome,
    read_outcome: ReadOutcome,
) -> bool {
    ||| event.writable && write_outcome is WouldBlock
    ||| read_reached(event, write_outcome) && read_outcome is WouldBlock
}

/// The outbound buffer a tick leaves behind: one datagram consumed by a
/// successful write, otherwise untouched.
pub open spec fn buffer_after_tick(
    pre: Seq<Seq<u8>>,
    event: Ready,
    write_outcome: WriteOutcome,
) -> Seq<Seq<u8>> {
    if event.writable && write_outcome is Written && pre.len() > 0 {
        pre.skip(1)
    } else {
        pre
    }
}

/// Closing a connection twice is safe and idempotent: given the states
/// that the `close` contract yields for a first and a second call, the
/// second call changes neither the connection nor the selector ledger.
pub proof fn lemma_close_idempotent(
    c0: IcmpConnection,
    c1: IcmpConnection,
    c2: IcmpConnection,
    s0: Selector,
    s1: Selector,
    s2: Selector,
)
    requires
        c1 == (IcmpConnection { closed: true, ..c0 }),
        s1@.len() == s0@.len(),
        !s1.is_registered(c0.token as int),
        forall|t: int| 0 <= t < s0@.len() && t != c0.token ==> s1@[t] == s0@[t],
        c2 == (IcmpConnection { closed: true, ..c1 }),
        s2@.len() == s1@.len(),
        !s2.is_registered(c1.token as int),
        forall|t: int| 0 <= t < s1@.len() && t != c1.token ==> s2@[t] == s1@[t],
    ensures
        c2 == c1,
        s2@ == s1@,
{
    assert forall|t: int| 0 <= t < s1@.len() implies s2@[t] == s1@[t] by {
        if t == c1.token {
            assert(s1@[t] is None);
            assert(s2@[t] is None);
        }
    }
    assert(s2@ =~= s1@);
}

/// One live flow.
pub struct IcmpConnection {
    pub id: ConnectionId,
    pub interests: Ready,
    pub token: usize,
    pub client_to_network: DatagramBuffer,
    pub network_to_client: Packetizer,
    pub closed: bool,
    pub idle_since: u64,
}

impl IcmpConnection {
    /// Well-formed against the selector's ledger: an open connection's
    /// token is registered, with exactly the interests recorded here, and
    /// its templates can rebuild packets.
    pub open spec fn wf(&self, selector: Selector) -> bool {
        &&& self.network_to_client.wf()
        &&& !self.closed ==> {
            &&& selector.is_registered(self.token as int)
            &&& selector.interests_of(self.token as int) == self.interests
        }
    }

    /// What never changes over a connection's life: identity, token,
    /// templates, and the buffer's bound.
    pub open spec fn same_flow(&self, other: &IcmpConnection) -> bool {
        &&& self.id == other.id
        &&& self.token == other.token
        &&& self.network_to_client == other.network_to_client
        &&& self.client_to_network.capacity_spec() == other.client_to_network.capacity_spec()
    }

    /// Open a new flow: record the reconstruction templates, register with
    /// the selector for read interest, start with an empty outbound buffer
    /// and a fresh activity timestamp. The real socket is opened by the
    /// caller's environment before any packet is forwarded.
    pub fn create(
        selector: &mut Selector,
        id: ConnectionId,
        ipv4_header: &Ipv4HeaderData,
        transport_header: &IcmpHeaderData,
        now: u64,
    ) -> (r: Self)
        requires
            ipv4_header.wf(),
        ensures
            r.id == id,
            r.closed == false,
            r.idle_since == now,
            r.interests == (Ready { readable: true, writable: false }),
            r.client_to_network@ == Seq::<Seq<u8>>::empty(),
            r.client_to_network.capacity_spec() == OUTBOUND_BUFFER_DATAGRAMS as int,
            r.network_to_client.ipv4_data_spec() == (Ipv4HeaderData {
                source: ipv4_header.destination,
                destination: ipv4_header.source,
                ..*ipv4_header
            }),
            r.network_to_client.icmp_data_spec() == *transport_header,
            r.token == old(selector)@.len(),
            final(selector)@ == old(selector)@.push(Some(r.interests)),
            r.wf(*final(selector)),
    {
        let interests = Ready::readable_only();
        let packetizer = Packetizer::new(ipv4_header, transport_header);
        let token = selector.register(interests);
        IcmpConnection {
            id,
            interests,
            token,
            client_to_network: DatagramBuffer::new(OUTBOUND_BUFFER_DATAGRAMS),
            network_to_client: packetizer,
            closed: false,
            idle_since: now,
        }
    }

    /// The flow's identity.
    pub fn id(&self) -> (r: &ConnectionId)
        ensures
            *r == self.id,
    {
        &self.id
    }

    /// Refresh the activity timestamp.
    pub fn touch(&mut self, now: u64)
        ensures
            *final(self) == (IcmpConnection { idle_since: now, ..*old(self) }),
    {
        self.idle_since = now;
    }

    /// Close the flow: set the terminal flag and deregister the token.
    /// Idempotent: a second call finds the flag set and the token already
    /// gone, and changes nothing further.
    pub fn close(&mut self, selector: &mut Selector)
        ensures
            *final(self) == (IcmpConnection { closed: true, ..*old(self) }),
            final(selector)@.len() == old(selector)@.len(),
            !final(selector).is_registered(old(self).token as int),
            forall|t: int|
                0 <= t < old(selector)@.len() && t != old(self).token ==> final(selector)@[t]
                    == old(selector)@[t],
            old(self).network_to_client.wf() ==> final(self).wf(*final(selector)),
    {
        self.closed = true;
        let _ = selector.deregister(self.token);
    }

    /// Whether the flow sat idle longer than its threshold.
    pub open spec fn is_expired_spec(&self, now: u64) -> bool {
        now > self.idle_since + IDLE_TIMEOUT_SECONDS
    }

    /// Whether the flow sat idle longer than its threshold.
    pub fn is_expired(&self, now: u64) -> (r: bool)
        ensures
            r == self.is_expired_spec(now),
    {
        now > self.idle_since && now - self.idle_since > IDLE_TIMEOUT_SECONDS
    }

    /// Whether the flow is closed.
    pub fn is_closed(&self) -> (r: bool)
        ensures
            r == self.closed,
    {
        self.closed
    }

    /// The datagram the next socket write must carry, oldest first.
    pub fn next_datagram(&self) -> (r: Option<&Vec<u8>>)
        ensures
            self.client_to_network@.len() == 0 ==> r is None,
            self.client_to_network@.len() > 0 ==> (r matches Some(d) && d@
                == self.client_to_network@[0]),
    {
        self.client_to_network.next_datagram()
    }

    /// Recompute the interest set: always read, write exactly while the
    /// outbound buffer is non-empty; re-register only on a change, to
    /// avoid needless wakeups.
    pub fn update_interests(&mut self, selector: &mut Selector)
        requires
            !old(self).closed,
            old(self).wf(*old(selector)),
        ensures
            *final(self) == (IcmpConnection {
                interests: Ready {
                    readable: true,
                    writable: old(self).client_to_network@.len() > 0,
                },
                ..*old(self)
            }),
            final(selector)@.len() == old(selector)@.len(),
            forall|t: int|
                0 <= t < old(selector)@.len() && t != old(self).token ==> final(selector)@[t]
                    == old(selector)@[t],
            final(self).wf(*final(selector)),
    {
        let ready = if self.client_to_network.is_empty() {
            Ready::readable_only()
        } else {
            Ready::readable_writable()
        };
        if self.interests != ready {
            self.interests = ready;
            selector.reregister(self.token, ready);
        }
    }

    /// A successful socket write consumed the oldest buffered datagram;
    /// drop it from the buffer.
    pub fn write(&mut self)
        ensures
            final(self).same_flow(old(self)),
            final(self).interests == old(self).interests,
            final(self).closed == old(self).closed,
            final(self).idle_since == old(self).idle_since,
            old(self).client_to_network@.len() > 0 ==> final(self).client_to_network@ == old(
                self,
            ).client_to_network@.skip(1),
            old(self).client_to_network@.len() == 0 ==> final(self).client_to_network@ == old(
                self,
            ).client_to_network@,
    {
        if !self.client_to_network.is_empty() {
            let _ = self.client_to_network.pop();
        }
    }

    /// The write half of a tick: a successful write consumes the oldest
    /// datagram, would-block cuts the tick short, any other error closes
    /// the flow.
    pub fn process_send(&mut self, selector: &mut Selector, outcome: WriteOutcome) -> (early_exit:
        bool)
        requires
            !old(self).closed,
            old(self).wf(*old(selector)),
        ensures
            early_exit == (outcome is WouldBlock),
            final(self).same_flow(old(self)),
            final(self).interests == old(self).interests,
            final(self).idle_since == old(self).idle_since,
            final(self).closed == (outcome is Failed),
            final(self).client_to_network@ == (if outcome is Written && old(
                self,
            ).client_to_network@.len() > 0 {
                old(self).client_to_network@.skip(1)
            } else {
                old(self).client_to_network@
            }),
            final(selector)@.len() == old(selector)@.len(),
            forall|t: int|
                0 <= t < old(selector)@.len() && t != old(self).token ==> final(selector)@[t]
                    == old(selector)@[t],
            outcome is Failed ==> !final(selector).is_registered(old(self).token as int),
            !(outcome is Failed) ==> *final(selector) == *old(selector),
            final(self).wf(*final(selector)),
    {
        match outcome {
            WriteOutcome::Written => {
                self.write();
                false
            },
            WriteOutcome::WouldBlock => true,
            WriteOutcome::Failed => {
                self.close(selector);
                false
            },
        }
    }

    /// Wrap one message read from the real socket as a complete IPv4
    /// packet for the tunnel. A message the packetizer cannot wrap is
    /// dropped: a malformed unit never tears the flow down.
    pub fn read(&self, payload: &[u8]) -> (r: Option<Vec<u8>>)
        requires
            self.network_to_client.wf(),
        ensures
            valid_reply(payload@) ==> (r matches Some(p) && p@ == packetized(
                self.network_to_client.ipv4_data_spec(),
                payload@,
            )),
            !valid_reply(payload@) ==> r is None,
    {
        if payload.len() >= 4 && payload.len() <= 0xffff - 20 {
            Some(self.network_to_client.packetize(payload))
        } else {
            None
        }
    }

    /// The read half of a tick: data is wrapped for the tunnel,
    /// would-block cuts the tick short, any other error closes the flow.
    pub fn process_receive(&mut self, selector: &mut Selector, outcome: &ReadOutcome) -> (r: (
        bool,
        Option<Vec<u8>>,
    ))
        requires
            !old(self).closed,
            old(self).wf(*old(selector)),
        ensures
            r.0 == (outcome is WouldBlock),
            final(self).same_flow(old(self)),
            final(self).interests == old(self).interests,
            final(self).idle_since == old(self).idle_since,
            final(self).client_to_network@ == old(self).client_to_network@,
            final(self).closed == (outcome is Failed),
            outcome is Failed ==> !final(selector).is_registered(old(self).token as int),
            !(outcome is Failed) ==> *final(selector) == *old(selector),
            final(selector)@.len() == old(selector)@.len(),
            forall|t: int|
                0 <= t < old(selector)@.len() && t != old(self).token ==> final(selector)@[t]
                    == old(selector)@[t],
            (match outcome {
                ReadOutcome::Data(p) => if valid_reply(p@) {
                    r.1 matches Some(pkt) && pkt@ == packetized(
                        old(self).network_to_client.ipv4_data_spec(),
                        p@,
                    )
                } else {
                    r.1 is None
                },
                ReadOutcome::WouldBlock => r.1 is None,
                ReadOutcome::Failed => r.1 is None,
            }),
            final(self).wf(*final(selector)),
    {
        match outcome {
            ReadOutcome::Data(payload) => {
                let pkt = self.read(payload.as_slice());
                (false, pkt)
            },
            ReadOutcome::WouldBlock => (true, None),
            ReadOutcome::Failed => {
                self.close(selector);
                (false, None)
            },
        }
    }

    /// One readiness tick, write phase first, then read, then the interest
    /// recomputation; an event with neither bit closes the flow; an event
    /// for an already-closed flow is a silent no-op. Returns the rebuilt
    /// packet to hand toward the tunnel, if the tick produced one.
    pub fn process(
        &mut self,
        selector: &mut Selector,
        event: Ready,
        write_outcome: WriteOutcome,
        read_outcome: &ReadOutcome,
        now: u64,
    ) -> (r: Option<Vec<u8>>)
        requires
            old(self).wf(*old(selector)),
        ensures
            final(self).same_flow(old(self)),
            final(self).wf(*final(selector)),
            final(selector)@.len() == old(selector)@.len(),
            forall|t: int|
                0 <= t < old(selector)@.len() && t != old(self).token ==> final(selector)@[t]
                    == old(selector)@[t],
            // a stale event on a closed flow is a silent no-op
            old(self).closed ==> *final(self) == *old(self) && *final(selector) == *old(selector)
                && r is None,
            // activity is refreshed by any event on an open flow
            !old(self).closed ==> final(self).idle_since == now,
            // the terminal flag after the tick
            !old(self).closed ==> final(self).closed == closes_in_tick(
                event,
                write_outcome,
                *read_outcome,
            ),
            // a closed flow's token is deregistered in the same call
            !old(self).closed && final(self).closed ==> !final(selector).is_registered(
                old(self).token as int,
            ),
            // the outbound buffer: consumed by a successful write, else kept
            !old(self).closed ==> final(self).client_to_network@ == buffer_after_tick(
                old(self).client_to_network@,
                event,
                write_outcome,
            ),
            // the packet handed toward the tunnel
            (!old(self).closed && read_reached(event, write_outcome)) ==> (match read_outcome {
                ReadOutcome::Data(p) => if valid_reply(p@) {
                    r matches Some(pkt) && pkt@ == packetized(
                        old(self).network_to_client.ipv4_data_spec(),
                        p@,
                    )
                } else {
                    r is None
                },
                ReadOutcome::WouldBlock => r is None,
                ReadOutcome::Failed => r is None,
            }),
            (old(self).closed || !read_reached(event, write_outcome)) ==> r is None,
            // interests after a completed tick: read always, write while buffered
            (!old(self).closed && !closes_in_tick(event, write_outcome, *read_outcome)
                && !early_exit_in_tick(event, write_outcome, *read_outcome) && (event.readable
                || event.writable)) ==> final(self).interests == (Ready {
                readable: true,
                writable: buffer_after_tick(
                    old(self).client_to_network@,
                    event,
                    write_outcome,
                ).len() > 0,
            }),
            // a cut-short or closing tick leaves the interest set alone
            (old(self).closed || closes_in_tick(event, write_outcome, *read_outcome)
                || early_exit_in_tick(event, write_outcome, *read_outcome))
                ==> final(self).interests == old(self).interests,
    {
        let mut packet: Option<Vec<u8>> = None;
        if !self.closed {
            self.touch(now);
            if event.readable || event.writable {
                let mut early = false;
                if event.writable {
                    early = self.process_send(selector, write_outcome);
                }
                if !early && !self.closed && event.readable {
                    let (e2, p) = self.process_receive(selector, read_outcome);
                    early = e2;
                    packet = p;
                }
                if !early && !self.closed {
                    self.update_interests(selector);
                }
            } else {
                self.close(selector);
            }
        }
        packet
    }

    /// The inbound-from-tunnel path: refresh activity, queue the payload
    /// for the real socket, and raise write interest when the buffer turns
    /// non-empty. Refuses (and the caller drops) the newest datagram when
    /// the buffer is full; the flow stays open either way.
    pub fn send_to_network(&mut self, selector: &mut Selector, payload: &[u8], now: u64) -> (
        accepted: bool)
        requires
            !old(self).closed,
            old(self).wf(*old(selector)),
        ensures
            accepted == (old(self).client_to_network@.len() < old(
                self,
            ).client_to_network.capacity_spec()),
            accepted ==> final(self).client_to_network@ == old(self).client_to_network@.push(
                payload@,
            ),
            !accepted ==> final(self).client_to_network@ == old(self).client_to_network@,
            final(self).same_flow(old(self)),
            final(self).closed == false,
            final(self).idle_since == now,
            accepted ==> final(self).interests == (Ready { readable: true, writable: true }),
            !accepted ==> final(self).interests == old(self).interests,
            final(selector)@.len() == old(selector)@.len(),
            forall|t: int|
                0 <= t < old(selector)@.len() && t != old(self).token ==> final(selector)@[t]
                    == old(selector)@[t],
            final(self).wf(*final(selector)),
    {
        self.touch(now);
        let accepted = self.client_to_network.read_from(payload);
        if accepted {
            self.update_interests(selector);
        }
        accepted
    }
}

} // verus!
