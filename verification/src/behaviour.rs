//! The network behaviour of the node, as far as it decides whom to dial.
//!
//! The behaviour dials nobody itself. It queues what the swarm is to do,
//! and the swarm takes the requests from the queue, oldest first.
//! Addresses and peer identities are held as text.

use std::collections::VecDeque;
use vstd::prelude::*;

verus! {

/// When a peer is to be dialed.
#[derive(Clone, Copy, Debug, PartialEq, Eq, Structural)]
pub enum DialPeerCondition {
    /// Only while the node is not connected to the peer.
    Disconnected,
    /// Only while the node is not dialing the peer already.
    NotDialing,
    /// In any case.
    Always,
}

/// What the behaviour asks of the swarm.
#[derive(Debug, PartialEq, Eq)]
pub enum SwarmEventType {
    /// Dial the address.
    DialAddress { address: String },
    /// Dial the peer, under the condition.
    DialPeer { peer_id: String, condition: DialPeerCondition },
}

/// The requests to dial each of the addresses, in their order.
pub open spec fn dials(addresses: Seq<String>) -> Seq<SwarmEventType> {
    addresses.map_values(|address: String| SwarmEventType::DialAddress { address })
}

/// Coordinates the protocols of the node: holds the nodes to bootstrap
/// from and the requests that the swarm has not taken yet.
#[derive(Debug, PartialEq, Eq)]
pub struct P2PBehaviour {
    bootstrap_nodes: Vec<String>,
    events: VecDeque<SwarmEventType>,
}

impl P2PBehaviour {
    /// The addresses of the nodes to bootstrap from.
    pub closed spec fn bootstrap_nodes(&self) -> Seq<String> {
        self.bootstrap_nodes@
    }

    /// The requests that the swarm has not taken yet, oldest first.
    pub closed spec fn events(&self) -> Seq<SwarmEventType> {
        self.events@
    }

    /// The behaviour that bootstraps from the given nodes. It has asked
    /// for nothing yet.
    pub fn new(bootstrap_nodes: Vec<String>) -> (r: P2PBehaviour)
        ensures
            r.bootstrap_nodes() == bootstrap_nodes@,
            r.events() == Seq::<SwarmEventType>::empty(),
    {
        P2PBehaviour { bootstrap_nodes, events: VecDeque::new() }
    }

    /// Bootstraps the node: asks the swarm to dial each of the bootstrap
    /// nodes, in their order, after all that was asked before.
    pub fn bootstrap(&mut self)
        ensures
            final(self).bootstrap_nodes() == old(self).bootstrap_nodes(),
            final(self).events() == old(self).events() + dials(old(self).bootstrap_nodes()),
    {
        let mut i: usize = 0;
        while i < self.bootstrap_nodes.len()
            invariant
                i <= self.bootstrap_nodes.len(),
                self.bootstrap_nodes@ == old(self).bootstrap_nodes@,
                self.events@ == old(self).events@ + dials(self.bootstrap_nodes@.take(i as int)),
            decreases self.bootstrap_nodes.len() - i,
        {
            let maddr = self.bootstrap_nodes[i].clone();
            self.dial(maddr);
            i += 1;
        }
    }

    /// Asks the swarm to dial the address.
    pub fn dial(&mut self, maddr: String)
        ensures
            final(self).bootstrap_nodes() == old(self).bootstrap_nodes(),
            final(self).events() == old(self).events().push(
                SwarmEventType::DialAddress { address: maddr },
            ),
    {
        self.events.push_back(SwarmEventType::DialAddress { address: maddr });
    }

    /// Asks the swarm to dial the peer, unless the node is connected to it.
    pub fn dial_peer(&mut self, peer_id: String)
        ensures
            final(self).bootstrap_nodes() == old(self).bootstrap_nodes(),
            final(self).events() == old(self).events().push(
                SwarmEventType::DialPeer { peer_id, condition: DialPeerCondition::Disconnected },
            ),
    {
        self.events.push_back(
            SwarmEventType::DialPeer { peer_id, condition: DialPeerCondition::Disconnected },
        );
    }

    /// The number of requests that the swarm has not taken yet.
    pub fn pending(&self) -> (r: usize)
        ensures
            r == self.events().len(),
    {
        self.events.len()
    }

    /// Hands the oldest request to the swarm; `None` where none waits.
    pub fn custom_poll(&mut self) -> (r: Option<SwarmEventType>)
        ensures
            final(self).bootstrap_nodes() == old(self).bootstrap_nodes(),
            match r {
                Some(event) => old(self).events().len() > 0 && event == old(self).events()[0]
                    && final(self).events() == old(self).events().drop_first(),
                None => old(self).events().len() == 0 && final(self).events() == old(self).events(),
            },
    {
        self.events.pop_front()
    }
}

} // verus!
