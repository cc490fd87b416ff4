//! The flow registry: sole owner of every live connection, keyed by flow
//! identity. It demultiplexes inbound tunnel packets onto an existing or
//! freshly created connection, routes readiness events by token, and
//! reaps idle flows. At most one live connection exists per flow identity,
//! and a connection closed by any path leaves the registry in the same
//! synchronous call.

use crate::connection::{
    buffer_after_tick, closes_in_tick, read_reached, valid_reply, ConnectionId, IcmpConnection,
    ReadOutcome, WriteOutcome,
};
use crate::icmp_header::IcmpHeaderData;
use crate::ipv4_header::{ipv4_data_of, Ipv4HeaderData, PROTOCOL_ICMP};
use crate::packetizer::{packetized, well_formed_ipv4_icmp};
use crate::selector::{Ready, Selector};
use vstd::prelude::*;

verus! {

/// The flow identity a well-formed inbound packet maps to. ICMP flows
/// carry no ports; the rewritten destination equals the observed one, as
/// address rewriting policy lives outside this core.
pub open spec fn flow_id_of(b: Seq<u8>) -> ConnectionId {
    let d = ipv4_data_of(b);
    ConnectionId {
        protocol: d.protocol,
        source: d.source,
        source_port: 0,
        destination: d.destination,
        destination_port: 0,
    }
}

/// Parse the flow identity of an inbound packet; refuses exactly the
/// packets that are not well-formed IPv4+ICMP.
pub fn parse_flow_id(packet: &[u8]) -> (r: Option<ConnectionId>)
    ensures
        well_formed_ipv4_icmp(packet@) ==> r == Some(flow_id_of(packet@)),
        !well_formed_ipv4_icmp(packet@) ==> r is None,
{
    if packet.len() >= 24 && packet.len() <= 0xffff {
        let d = Ipv4HeaderData::parse(packet);
        if d.header_length() == 20 && d.total_length() as usize == packet.len() && d.protocol()
            == PROTOCOL_ICMP {
            assert(packet@[0] & 0xf == 5);
            Some(
                ConnectionId {
                    protocol: d.protocol(),
                    source: d.source(),
                    source_port: 0,
                    destination: d.destination(),
                    destination_port: 0,
                },
            )
        } else {
            None
        }
    } else {
        None
    }
}

/// What one inbound packet came to.
#[derive(Clone, Copy, Debug, PartialEq, Eq, Structural)]
pub enum DispatchResult {
    /// An existing flow accepted the payload.
    Forwarded,
    /// An existing flow's buffer was full: the newest datagram is dropped,
    /// the flow stays.
    Dropped,
    /// A new flow was created and accepted the payload.
    Created,
    /// No flow existed and no socket could be opened: the packet is
    /// dropped, no flow entry is created.
    CreationFailed,
    /// Not a well-formed IPv4+ICMP packet.
    Malformed,
}

/// Mutable access to one registered connection.
fn flow_at_mut(connections: &mut Vec<IcmpConnection>, i: usize) -> (element: &mut IcmpConnection)
    requires
        i < old(connections).len(),
    ensures
        *element == old(connections)@[i as int],
        final(connections)@ == old(connections)@.update(i as int, *final(element)),
{
    &mut connections[i]
}

/// The registry of live flows.
pub struct Router {
    connections: Vec<IcmpConnection>,
}

impl Router {
    /// The live connections, in creation order.
    pub closed spec fn flows(&self) -> Seq<IcmpConnection> {
        self.connections@
    }

    /// Whether a live connection with this identity exists.
    pub open spec fn has_flow(&self, id: ConnectionId) -> bool {
        exists|i: int| 0 <= i < self.flows().len() && (#[trigger] self.flows()[i]).id == id
    }

    /// Whether a live connection with this token exists.
    pub open spec fn has_token(&self, token: usize) -> bool {
        exists|i: int| 0 <= i < self.flows().len() && (#[trigger] self.flows()[i]).token == token
    }

    /// The registry invariant: every held connection is open and
    /// well-formed against the selector ledger, and no two share a flow
    /// identity or a token.
    pub open spec fn wf(&self, selector: Selector) -> bool {
        &&& forall|i: int|
            0 <= i < self.flows().len() ==> (#[trigger] self.flows()[i]).wf(selector)
        &&& forall|i: int| 0 <= i < self.flows().len() ==> !(#[trigger] self.flows()[i]).closed
        &&& forall|i: int, j: int|
            #![trigger self.flows()[i], self.flows()[j]]
            0 <= i < j < self.flows().len() ==> self.flows()[i].id != self.flows()[j].id
        &&& forall|i: int, j: int|
            #![trigger self.flows()[i], self.flows()[j]]
            0 <= i < j < self.flows().len() ==> self.flows()[i].token != self.flows()[j].token
    }

    /// At most one live connection exists per flow identity: two entries
    /// with the same identity are the same entry.
    pub proof fn lemma_flow_identity_unique(&self, selector: Selector, i: int, j: int)
        requires
            self.wf(selector),
            0 <= i < self.flows().len(),
            0 <= j < self.flows().len(),
            self.flows()[i].id == self.flows()[j].id,
        ensures
            i == j,
    {
    }

    /// An empty registry.
    pub fn new() -> (r: Self)
        ensures
            r.flows() == Seq::<IcmpConnection>::empty(),
            forall|selector: Selector| r.wf(selector),
    {
        let r = Router { connections: Vec::new() };
        proof {
            assert(r.flows() =~= Seq::<IcmpConnection>::empty());
        }
        r
    }

    /// How many live flows the registry holds.
    pub fn len(&self) -> (r: usize)
        ensures
            r == self.flows().len(),
    {
        self.connections.len()
    }

    /// Whether a live connection with this identity exists.
    pub fn contains(&self, id: &ConnectionId) -> (r: bool)
        ensures
            r == self.has_flow(*id),
    {
        self.find_index(id).is_some()
    }

    /// The selector token of the live connection with this identity; the
    /// environment mirrors it when registering the flow's real socket.
    pub fn token_of(&self, id: &ConnectionId) -> (r: Option<usize>)
        ensures
            r matches Some(t) ==> exists|i: int|
                0 <= i < self.flows().len() && (#[trigger] self.flows()[i]).id == *id
                    && self.flows()[i].token == t,
            r is None ==> !self.has_flow(*id),
    {
        match self.find_index(id) {
            Some(i) => Some(self.connections[i].token),
            None => None,
        }
    }

    /// The datagram the next socket write for this token must carry, if
    /// the flow exists and has one waiting.
    pub fn next_datagram(&self, token: usize) -> (r: Option<&Vec<u8>>)
        ensures
            r matches Some(d) ==> exists|i: int|
                0 <= i < self.flows().len() && (#[trigger] self.flows()[i]).token == token
                    && self.flows()[i].client_to_network@.len() > 0 && d@
                    == self.flows()[i].client_to_network@[0],
            r is None ==> !self.has_token(token) || exists|i: int|
                0 <= i < self.flows().len() && (#[trigger] self.flows()[i]).token == token
                    && self.flows()[i].client_to_network@.len() == 0,
    {
        match self.find_token(token) {
            Some(i) => self.connections[i].next_datagram(),
            None => None,
        }
    }

    /// The position of the connection with this identity.
    fn find_index(&self, id: &ConnectionId) -> (r: Option<usize>)
        ensures
            r matches Some(i) ==> i < self.flows().len() && self.flows()[i as int].id == *id,
            r is None ==> !self.has_flow(*id),
    {
        let n = self.connections.len();
        let mut k: usize = 0;
        while k < n
            invariant
                k <= n,
                n == self.flows().len(),
                forall|j: int| 0 <= j < k ==> (#[trigger] self.flows()[j]).id != *id,
            decreases n - k,
        {
            if self.connections[k].id == *id {
                return Some(k);
            }
            k = k + 1;
        }
        None
    }

    /// The position of the connection with this token.
    fn find_token(&self, token: usize) -> (r: Option<usize>)
        ensures
            r matches Some(i) ==> i < self.flows().len() && self.flows()[i as int].token == token,
            r is None ==> !self.has_token(token),
    {
        let n = self.connections.len();
        let mut k: usize = 0;
        while k < n
            invariant
                k <= n,
                n == self.flows().len(),
                forall|j: int| 0 <= j < k ==> (#[trigger] self.flows()[j]).token != token,
            decreases n - k,
        {
            if self.connections[k].token == token {
                return Some(k);
            }
            k = k + 1;
        }
        None
    }

    /// Erase the connection with this identity from the registry; the
    /// flow count decreases by exactly one when it was present. This only
    /// erases the entry: closing and deregistering is its caller's part.
    pub fn remove(&mut self, id: &ConnectionId) -> (removed: bool)
        ensures
            removed == old(self).has_flow(*id),
            removed ==> exists|i: int|
                0 <= i < old(self).flows().len() && (#[trigger] old(self).flows()[i]).id == *id
                    && final(self).flows() == old(self).flows().remove(i),
            removed ==> final(self).flows().len() == old(self).flows().len() - 1,
            !removed ==> final(self).flows() == old(self).flows(),
    {
        match self.find_index(id) {
            Some(i) => {
                let _ = self.connections.remove(i);
                true
            },
            None => false,
        }
    }

    /// Route one inbound tunnel packet: forward its payload to the live
    /// flow with its identity, in arrival order, or create that flow
    /// first. `socket_ready` says whether the environment could open the
    /// new flow's real socket; when it could not, the packet is dropped
    /// and no entry is created.
    pub fn dispatch(
        &mut self,
        selector: &mut Selector,
        packet: &[u8],
        socket_ready: bool,
        now: u64,
    ) -> (r: DispatchResult)
        requires
            old(self).wf(*old(selector)),
        ensures
            final(self).wf(*final(selector)),
            // a malformed packet changes nothing
            !well_formed_ipv4_icmp(packet@) ==> r == DispatchResult::Malformed
                && final(self).flows() == old(self).flows() && *final(selector) == *old(selector),
            // an existing flow receives the payload in arrival order; no
            // flow is created, and no other flow is touched
            well_formed_ipv4_icmp(packet@) && old(self).has_flow(flow_id_of(packet@)) ==> {
                &&& final(self).flows().len() == old(self).flows().len()
                &&& final(selector)@.len() == old(selector)@.len()
                &&& (r == DispatchResult::Forwarded || r == DispatchResult::Dropped)
                &&& forall|j: int|
                    0 <= j < old(self).flows().len() && (#[trigger] old(self).flows()[j]).id
                        != flow_id_of(packet@) ==> final(self).flows()[j] == old(self).flows()[j]
                &&& forall|j: int|
                    0 <= j < old(self).flows().len() && (#[trigger] old(self).flows()[j]).id
                        == flow_id_of(packet@) ==> {
                        let pre = old(self).flows()[j];
                        let post = final(self).flows()[j];
                        &&& post.same_flow(&pre)
                        &&& !post.closed
                        &&& post.idle_since == now
                        &&& (r == DispatchResult::Forwarded <==> pre.client_to_network@.len()
                            < pre.client_to_network.capacity_spec())
                        &&& (pre.client_to_network@.len() < pre.client_to_network.capacity_spec()
                            ==> post.client_to_network@ == pre.client_to_network@.push(
                            packet@.skip(20),
                        ))
                        &&& (pre.client_to_network@.len() >= pre.client_to_network.capacity_spec()
                            ==> post.client_to_network@ == pre.client_to_network@)
                    }
            },
            // an unseen identity gets exactly one new flow holding exactly
            // this payload, when a socket could be opened
            well_formed_ipv4_icmp(packet@) && !old(self).has_flow(flow_id_of(packet@))
                && socket_ready ==> {
                &&& r == DispatchResult::Created
                &&& final(self).flows().len() == old(self).flows().len() + 1
                &&& forall|j: int|
                    0 <= j < old(self).flows().len() ==> final(self).flows()[j] == old(self).flows()[j]
                &&& ({
                    let c = final(self).flows().last();
                    &&& c.id == flow_id_of(packet@)
                    &&& !c.closed
                    &&& c.idle_since == now
                    &&& c.client_to_network@ == seq![packet@.skip(20)]
                    &&& c.network_to_client.ipv4_data_spec() == (Ipv4HeaderData {
                        source: ipv4_data_of(packet@).destination,
                        destination: ipv4_data_of(packet@).source,
                        ..ipv4_data_of(packet@)
                    })
                    &&& c.network_to_client.icmp_data_spec() == crate::icmp_header::icmp_data_of(
                        packet@.skip(20),
                    )
                })
            },
            // an unseen identity without a socket leaves no trace
            well_formed_ipv4_icmp(packet@) && !old(self).has_flow(flow_id_of(packet@))
                && !socket_ready ==> r == DispatchResult::CreationFailed && final(self).flows()
                == old(self).flows() && *final(selector) == *old(selector),
    {
        match parse_flow_id(packet) {
            None => DispatchResult::Malformed,
            Some(id) => {
                let len = packet.len();
                let payload = vstd::slice::slice_subrange(packet, 20, len);
                proof {
                    assert(payload@ =~= packet@.skip(20));
                }
                match self.find_index(&id) {
                    Some(i) => {
                        let ghost pre_flows = self.flows();
                        let ghost pre_sel = *selector;
                        let conn = flow_at_mut(&mut self.connections, i);
                        let accepted = conn.send_to_network(selector, payload, now);
                        proof {
                            let post_flows = self.flows();
                            assert(post_flows == pre_flows.update(i as int, post_flows[i as int]));
                            assert forall|k: int|
                                0 <= k < post_flows.len() implies (#[trigger] post_flows[k]).wf(
                                *final(selector),
                            ) && !post_flows[k].closed by {
                                if k != i {
                                    assert(pre_flows[k].token != pre_flows[i as int].token);
                                    assert(post_flows[k] == pre_flows[k]);
                                }
                            }
                            assert forall|j: int|
                                0 <= j < pre_flows.len() && (#[trigger] pre_flows[j]).id == id
                                    implies j == i by {
                                if j != i {
                                    assert(pre_flows[j].id != pre_flows[i as int].id);
                                }
                            }
                        }
                        if accepted {
                            DispatchResult::Forwarded
                        } else {
                            DispatchResult::Dropped
                        }
                    },
                    None => {
                        if socket_ready {
                            let ipv4 = Ipv4HeaderData::parse(packet);
                            let icmp = IcmpHeaderData::parse(payload);
                            let ghost pre_flows = self.flows();
                            let ghost pre_sel = *selector;
                            let mut conn = IcmpConnection::create(selector, id, &ipv4, &icmp, now);
                            let _ = conn.send_to_network(selector, payload, now);
                            proof {
                                assert(conn.client_to_network@ =~= seq![packet@.skip(20)]);
                            }
                            self.connections.push(conn);
                            proof {
                                let post_flows = self.flows();
                                assert(post_flows == pre_flows.push(conn));
                                assert(post_flows.last() == conn);
                                assert forall|k: int|
                                    0 <= k < pre_flows.len() implies (#[trigger] pre_flows[k]).wf(
                                    *final(selector),
                                ) && pre_flows[k].token != conn.token && pre_flows[k].id != conn.id by {
                                    assert(pre_flows[k].wf(pre_sel));
                                    assert(pre_sel.is_registered(pre_flows[k].token as int));
                                }
                            }
                            DispatchResult::Created
                        } else {
                            DispatchResult::CreationFailed
                        }
                    },
                }
            },
        }
    }

    /// Route one readiness event by token: the unique connection holding
    /// the token runs one tick; if the tick closes it, its entry leaves
    /// the registry in the same synchronous call, so the flow count
    /// decreases by exactly one. An event for a token no connection holds
    /// — one lingering in the OS after a close — is a silent no-op.
    pub fn on_event(
        &mut self,
        selector: &mut Selector,
        token: usize,
        event: Ready,
        write_outcome: WriteOutcome,
        read_outcome: &ReadOutcome,
        now: u64,
    ) -> (r: Option<Vec<u8>>)
        requires
            old(self).wf(*old(selector)),
        ensures
            final(self).wf(*final(selector)),
            final(selector)@.len() == old(selector)@.len(),
            !old(self).has_token(token) ==> final(self).flows() == old(self).flows()
                && *final(selector) == *old(selector) && r is None,
            old(self).has_token(token) ==> exists|i: int|
                {
                    &&& 0 <= i < old(self).flows().len()
                    &&& (#[trigger] old(self).flows()[i]).token == token
                    &&& (closes_in_tick(event, write_outcome, *read_outcome) ==> {
                        &&& final(self).flows() == old(self).flows().remove(i)
                        &&& final(self).flows().len() == old(self).flows().len() - 1
                        &&& !final(selector).is_registered(token as int)
                    })
                    &&& (!closes_in_tick(event, write_outcome, *read_outcome) ==> {
                        &&& final(self).flows() == old(self).flows().update(
                            i,
                            final(self).flows()[i],
                        )
                        &&& final(self).flows()[i].same_flow(&old(self).flows()[i])
                        &&& final(self).flows()[i].idle_since == now
                        &&& final(self).flows()[i].client_to_network@ == buffer_after_tick(
                            old(self).flows()[i].client_to_network@,
                            event,
                            write_outcome,
                        )
                    })
                    &&& (match read_outcome {
                        ReadOutcome::Data(p) => if read_reached(event, write_outcome)
                            && valid_reply(p@) {
                            r matches Some(pkt) && pkt@ == packetized(
                                old(self).flows()[i].network_to_client.ipv4_data_spec(),
                                p@,
                            )
                        } else {
                            r is None
                        },
                        ReadOutcome::WouldBlock => r is None,
                        ReadOutcome::Failed => r is None,
                    })
                },
    {
        match self.find_token(token) {
            None => None,
            Some(i) => {
                let ghost pre_flows = self.flows();
                let ghost pre_sel = *selector;
                let conn = flow_at_mut(&mut self.connections, i);
                let packet = conn.process(selector, event, write_outcome, read_outcome, now);
                proof {
                    let post_flows = self.flows();
                    assert(post_flows == pre_flows.update(i as int, post_flows[i as int]));
                    assert forall|k: int|
                        0 <= k < post_flows.len() && k != i implies (#[trigger] post_flows[k]).wf(
                        *selector,
                    ) && !post_flows[k].closed by {
                        assert(pre_flows[k].token != pre_flows[i as int].token);
                        assert(post_flows[k] == pre_flows[k]);
                    }
                }
                if self.connections[i].is_closed() {
                    let ghost mid_flows = self.flows();
                    let _ = self.connections.remove(i);
                    proof {
                        assert(self.flows() =~= pre_flows.remove(i as int));
                        assert forall|k: int|
                            0 <= k < self.flows().len() implies (#[trigger] self.flows()[k]).wf(
                            *selector,
                        ) && !self.flows()[k].closed by {
                            if k < i {
                                assert(self.flows()[k] == pre_flows[k]);
                            } else {
                                assert(self.flows()[k] == pre_flows[k + 1]);
                            }
                        }
                        assert forall|k1: int, k2: int|
                            #![trigger self.flows()[k1], self.flows()[k2]]
                            0 <= k1 < k2 < self.flows().len() implies self.flows()[k1].id
                            != self.flows()[k2].id && self.flows()[k1].token
                            != self.flows()[k2].token by {
                            let j1: int = if k1 < i { k1 } else { k1 + 1 };
                            let j2: int = if k2 < i { k2 } else { k2 + 1 };
                            assert(self.flows()[k1] == pre_flows[j1]);
                            assert(self.flows()[k2] == pre_flows[j2]);
                        }
                    }
                }
                packet
            },
        }
    }

    /// Close and erase every flow whose idle time passed its threshold.
    /// Afterward every expired flow is absent and its token deregistered;
    /// every other flow survives untouched, and nothing new appears.
    pub fn sweep(&mut self, selector: &mut Selector, now: u64)
        requires
            old(self).wf(*old(selector)),
        ensures
            final(self).wf(*final(selector)),
            final(selector)@.len() == old(selector)@.len(),
            // every expired flow is gone, its token deregistered
            forall|j: int|
                0 <= j < old(self).flows().len() && (#[trigger] old(
                    self,
                ).flows()[j]).is_expired_spec(now) ==> !final(self).has_flow(
                    old(self).flows()[j].id,
                ) && !final(selector).is_registered(old(self).flows()[j].token as int),
            // every other flow survives untouched
            forall|j: int|
                0 <= j < old(self).flows().len() && !(#[trigger] old(
                    self,
                ).flows()[j]).is_expired_spec(now) ==> final(self).flows().contains(
                    old(self).flows()[j],
                ),
            // nothing new appears
            forall|k: int|
                0 <= k < final(self).flows().len() ==> old(self).flows().contains(
                    #[trigger] final(self).flows()[k],
                ) && !final(self).flows()[k].is_expired_spec(now),
    {
        let ghost pre_flows = self.flows();
        let ghost pre_sel = *selector;
        let n = self.connections.len();
        let mut kept: Vec<IcmpConnection> = Vec::new();
        let ghost mut origins: Seq<int> = Seq::empty();
        let mut i: usize = 0;
        while self.connections.len() > 0
            invariant
                i + self.flows().len() == n,
                n == pre_flows.len(),
                self.flows() == pre_flows.skip(i as int),
                selector@.len() == pre_sel@.len(),
                origins.len() == kept@.len(),
                forall|k: int|
                    0 <= k < kept@.len() ==> 0 <= (#[trigger] origins[k]) < i && kept@[k]
                        == pre_flows[origins[k]] && !pre_flows[origins[k]].is_expired_spec(now),
                forall|k1: int, k2: int| 0 <= k1 < k2 < kept@.len() ==> #[trigger] origins[k1]
                    < #[trigger] origins[k2],
                forall|j: int|
                    0 <= j < i && !(#[trigger] pre_flows[j]).is_expired_spec(now)
                        ==> kept@.contains(pre_flows[j]),
                forall|j: int|
                    0 <= j < i && (#[trigger] pre_flows[j]).is_expired_spec(now)
                        ==> !selector.is_registered(pre_flows[j].token as int),
                forall|k: int|
                    0 <= k < kept@.len() ==> (#[trigger] kept@[k]).wf(*selector)
                        && !kept@[k].closed,
                forall|j: int|
                    i <= j < n ==> (#[trigger] pre_flows[j]).wf(*selector)
                        && !pre_flows[j].closed,
                forall|j1: int, j2: int|
                    #![trigger pre_flows[j1], pre_flows[j2]]
                    0 <= j1 < j2 < n ==> pre_flows[j1].id != pre_flows[j2].id
                        && pre_flows[j1].token != pre_flows[j2].token,
            decreases self.flows().len(),
        {
            let mut c = self.connections.remove(0);
            proof {
                assert(c == pre_flows[i as int]);
                assert(self.flows() =~= pre_flows.skip(i as int + 1));
            }
            if c.is_expired(now) {
                c.close(selector);
                proof {
                    assert forall|k: int|
                        0 <= k < kept@.len() implies (#[trigger] kept@[k]).wf(*selector) by {
                        assert(0 <= origins[k] < i);
                        assert(pre_flows[origins[k]].token != pre_flows[i as int].token);
                    }
                    assert forall|j: int|
                        i + 1 <= j < n implies (#[trigger] pre_flows[j]).wf(*selector) by {
                        assert(pre_flows[j].token != pre_flows[i as int].token);
                    }
                }
            } else {
                let ghost kept_before = kept@;
                kept.push(c);
                proof {
                    origins = origins.push(i as int);
                    assert(kept@ == kept_before.push(c));
                    assert(kept@[kept@.len() - 1] == pre_flows[i as int]);
                    assert forall|j: int|
                        0 <= j < i + 1 && !(#[trigger] pre_flows[j]).is_expired_spec(now)
                            implies kept@.contains(pre_flows[j]) by {
                        if j == i {
                            assert(kept@[kept@.len() - 1] == pre_flows[j]);
                        } else {
                            let k = choose|k: int|
                                0 <= k < kept_before.len() && kept_before[k] == pre_flows[j];
                            assert(kept@[k] == pre_flows[j]);
                        }
                    }
                }
            }
            i = i + 1;
        }
        self.connections = kept;
        proof {
            let post_flows = self.flows();
            assert forall|k1: int, k2: int|
                #![trigger post_flows[k1], post_flows[k2]]
                0 <= k1 < k2 < post_flows.len() implies post_flows[k1].id != post_flows[k2].id
                && post_flows[k1].token != post_flows[k2].token by {
                assert(origins[k1] < origins[k2]);
                assert(post_flows[k1] == pre_flows[origins[k1]]);
                assert(post_flows[k2] == pre_flows[origins[k2]]);
            }
            assert forall|j: int|
                0 <= j < pre_flows.len() && (#[trigger] pre_flows[j]).is_expired_spec(now)
                implies !self.has_flow(pre_flows[j].id) by {
                if self.has_flow(pre_flows[j].id) {
                    let k = choose|k: int|
                        0 <= k < post_flows.len() && (#[trigger] post_flows[k]).id
                            == pre_flows[j].id;
                    assert(post_flows[k] == pre_flows[origins[k]]);
                    assert(origins[k] != j);
                    assert(pre_flows[origins[k]].id != pre_flows[j].id);
                }
            }
            assert forall|k: int|
                0 <= k < post_flows.len() implies pre_flows.contains(#[trigger] post_flows[k])
                && !post_flows[k].is_expired_spec(now) by {
                assert(post_flows[k] == pre_flows[origins[k]]);
            }
        }
    }
}

} // verus!
