//! The upgrade coordinator itself.
//!
//! A [`Behaviour`] consumes connection-substrate notifications
//! ([`SwarmEvent`]) and protocol-engine events ([`HandlerEvent`]), mutates its
//! tables, and enqueues actions the host drains through [`Behaviour::poll`].
//! Every handler is specified against the transition functions of
//! [`State`]: the `ensures` clause of each exec method states that the new
//! view equals the corresponding transition of the old view.

use std::collections::{HashMap, HashSet, VecDeque};

use vstd::prelude::*;

use crate::action::{build_model, Action, ActionBuilder, Command};
use crate::addr::{Addr, ConnectedPoint, Endpoint};
use crate::events::{
    Attempt, Error, Event, HandlerBinding, HandlerEvent, Role, SwarmEvent,
    MAX_NUMBER_OF_UPGRADE_ATTEMPTS,
};
use crate::state::State;

verus! {

broadcast use vstd::std_specs::hash::group_hash_axioms;

/// The peer-level coordinator that upgrades relayed connections to direct
/// ones: it tracks in-flight upgrade dial attempts and live direct
/// connections, and queues the dial requests, engine commands and upward
/// events that its event handlers decide on.
pub struct Behaviour {
    /// Queue of actions to return when polled.
    queued_actions: VecDeque<ActionBuilder>,
    /// For each in-flight upgrade dial attempt, keyed by the dial's
    /// connection id: the relayed connection that spawned it, and the role.
    direct_outgoing_connection_attempts: HashMap<u64, Attempt>,
    /// All currently live direct (non-relayed) connections, per peer.
    direct_connections: HashMap<u64, HashSet<u64>>,
    /// The cached externally observed addresses, in the order first reported.
    external_addresses: Vec<Addr>,
    /// The local peer id appended to observed addresses handed to engines.
    local_peer_id: u64,
}

impl View for Behaviour {
    type V = State;

    closed spec fn view(&self) -> State {
        State {
            queued_actions: self.queued_actions@.map_values(|b: ActionBuilder| b@),
            direct_outgoing_connection_attempts: self.direct_outgoing_connection_attempts@,
            direct_connections: self.direct_connections@.map_values(|s: HashSet<u64>| s@),
            external_addresses: self.external_addresses@,
            local_peer_id: self.local_peer_id,
        }
    }
}

impl Behaviour {
    /// The coordinator's state is well-formed (see [`State::wf`]).
    pub open spec fn wf(&self) -> bool {
        self@.wf()
    }

    /// Create a coordinator for the node with the given local peer id. It
    /// starts with no tracked connections, no pending attempts, and an empty
    /// action queue.
    pub fn new(local_peer_id: u64) -> (behaviour: Behaviour)
        ensures
            behaviour@ == State::initial(local_peer_id),
            behaviour.wf(),
    {
        let behaviour = Behaviour {
            queued_actions: VecDeque::new(),
            direct_outgoing_connection_attempts: HashMap::new(),
            direct_connections: HashMap::new(),
            external_addresses: Vec::new(),
            local_peer_id,
        };
        proof {
            assert(behaviour@ =~~= State::initial(local_peer_id));
        }
        behaviour
    }

    /// Handle a connection-established notification.
    ///
    /// A fresh inbound relayed connection to a peer we have no direct
    /// connection to starts an upgrade: a `Connect` command with attempt 1
    /// and an `InitiatedDirectConnectionUpgrade` event are enqueued. A new
    /// direct connection is recorded in the direct-connection table.
    pub fn on_connection_established(
        &mut self,
        peer_id: u64,
        connection_id: u64,
        endpoint: ConnectedPoint,
    )
        requires
            old(self).wf(),
        ensures
            final(self)@ == old(self)@.on_connection_established(peer_id, connection_id, endpoint),
            final(self).wf(),
    {
        if endpoint.is_relayed() {
            if let ConnectedPoint::Listener { local_addr, send_back_addr: _ } = endpoint {
                if !self.direct_connections.contains_key(&peer_id) {
                    self.queued_actions.push_back(
                        ActionBuilder::Connect { attempt: 1, connection_id, peer_id },
                    );
                    self.queued_actions.push_back(
                        ActionBuilder::Done(
                            Action::GenerateEvent(
                                Event::InitiatedDirectConnectionUpgrade {
                                    remote_peer_id: peer_id,
                                    local_relayed_addr: local_addr,
                                },
                            ),
                        ),
                    );
                }
            }
        } else {
            let mut connections = match self.direct_connections.remove(&peer_id) {
                Some(connections) => connections,
                None => HashSet::new(),
            };
            connections.insert(connection_id);
            self.direct_connections.insert(peer_id, connections);
        }
        proof {
            assert(self@ =~~= old(self)@.on_connection_established(
                peer_id,
                connection_id,
                endpoint,
            ));
        }
    }

    /// Handle a connection-closed notification: a closed direct connection
    /// leaves the direct-connection table, and the peer's entry is dropped
    /// when its last direct connection closes.
    pub fn on_connection_closed(
        &mut self,
        peer_id: u64,
        connection_id: u64,
        endpoint: ConnectedPoint,
    )
        requires
            old(self).wf(),
            old(self)@.connection_closed_admissible(peer_id, connection_id, endpoint),
        ensures
            final(self)@ == old(self)@.on_connection_closed(peer_id, connection_id, endpoint),
            final(self).wf(),
    {
        if !endpoint.is_relayed() {
            if let Some(mut connections) = self.direct_connections.remove(&peer_id) {
                connections.remove(&connection_id);
                if !connections.is_empty() {
                    self.direct_connections.insert(peer_id, connections);
                }
            }
        }
        proof {
            assert(self@ =~~= old(self)@.on_connection_closed(peer_id, connection_id, endpoint));
        }
    }

    /// Handle a dial-failure notification. A failure unrelated to an upgrade
    /// attempt, or for a listener-role attempt, changes nothing beyond
    /// untracking the attempt; an initiator-role attempt below
    /// [`MAX_NUMBER_OF_UPGRADE_ATTEMPTS`] enqueues the next `Connect`, and one
    /// at the cap reports the upgrade as failed with [`Error::Dial`].
    pub fn on_dial_failure(&mut self, peer_id: Option<u64>, connection_id: u64)
        requires
            old(self).wf(),
            old(self)@.dial_failure_admissible(peer_id, connection_id),
        ensures
            final(self)@ == old(self)@.on_dial_failure(peer_id, connection_id),
            final(self).wf(),
    {
        if let Some(attempt_record) = self.direct_outgoing_connection_attempts.remove(
            &connection_id,
        ) {
            match attempt_record.role {
                Role::Listener => {},
                Role::Initiator { attempt } => {
                    let peer = peer_id.unwrap();
                    if attempt < MAX_NUMBER_OF_UPGRADE_ATTEMPTS {
                        self.queued_actions.push_back(
                            ActionBuilder::Connect {
                                attempt: attempt + 1,
                                connection_id: attempt_record.relayed_connection_id,
                                peer_id: peer,
                            },
                        );
                    } else {
                        self.queued_actions.push_back(
                            ActionBuilder::Done(
                                Action::NotifyHandler {
                                    peer_id: peer,
                                    connection_id: attempt_record.relayed_connection_id,
                                    command: Command::UpgradeFinishedDontKeepAlive,
                                },
                            ),
                        );
                        self.queued_actions.push_back(
                            ActionBuilder::Done(
                                Action::GenerateEvent(
                                    Event::DirectConnectionUpgradeFailed {
                                        remote_peer_id: peer,
                                        error: Error::Dial,
                                    },
                                ),
                            ),
                        );
                    }
                },
            }
        }
        proof {
            assert(self@ =~~= old(self)@.on_dial_failure(peer_id, connection_id));
        }
    }

    /// Bind an engine to a freshly established inbound connection. A
    /// connection that came out of one of our upgrade dial attempts is
    /// untracked and bound to a direct-mode engine keyed by the relayed
    /// connection that spawned it; otherwise a relayed connection gets a
    /// relayed-mode engine and anything else a no-op engine.
    pub fn handle_established_inbound_connection(
        &mut self,
        _peer_id: u64,
        connection_id: u64,
        local_addr: Addr,
        remote_addr: Addr,
    ) -> (binding: HandlerBinding)
        requires
            old(self).wf(),
            old(self)@.connection_bound_admissible(
                connection_id,
                ConnectedPoint::Listener { local_addr, send_back_addr: remote_addr },
            ),
        ensures
            final(self)@ == old(self)@.on_connection_bound(connection_id),
            binding == old(self)@.binding_for(
                connection_id,
                ConnectedPoint::Listener { local_addr, send_back_addr: remote_addr },
            ),
            final(self).wf(),
    {
        let binding = match self.direct_outgoing_connection_attempts.remove(&connection_id) {
            None => {
                if local_addr.relayed {
                    HandlerBinding::Relayed {
                        endpoint: ConnectedPoint::Listener {
                            local_addr,
                            send_back_addr: remote_addr,
                        },
                    }
                } else {
                    HandlerBinding::Dummy
                }
            },
            Some(attempt_record) => HandlerBinding::Direct {
                relayed_connection_id: attempt_record.relayed_connection_id,
            },
        };
        proof {
            assert(self@ =~~= old(self)@.on_connection_bound(connection_id));
        }
        binding
    }

    /// Bind an engine to a freshly established outbound connection; see
    /// [`Behaviour::handle_established_inbound_connection`].
    pub fn handle_established_outbound_connection(
        &mut self,
        _peer_id: u64,
        addr: Addr,
        role_override: Endpoint,
        connection_id: u64,
    ) -> (binding: HandlerBinding)
        requires
            old(self).wf(),
            old(self)@.connection_bound_admissible(
                connection_id,
                ConnectedPoint::Dialer { address: addr, role_override },
            ),
        ensures
            final(self)@ == old(self)@.on_connection_bound(connection_id),
            binding == old(self)@.binding_for(
                connection_id,
                ConnectedPoint::Dialer { address: addr, role_override },
            ),
            final(self).wf(),
    {
        let binding = match self.direct_outgoing_connection_attempts.remove(&connection_id) {
            None => {
                if addr.relayed {
                    HandlerBinding::Relayed {
                        endpoint: ConnectedPoint::Dialer { address: addr, role_override },
                    }
                } else {
                    HandlerBinding::Dummy
                }
            },
            Some(attempt_record) => HandlerBinding::Direct {
                relayed_connection_id: attempt_record.relayed_connection_id,
            },
        };
        proof {
            assert(self@ =~~= old(self)@.on_connection_bound(connection_id));
        }
        binding
    }

    /// Handle an event emitted by the protocol engine of the relayed
    /// connection `relayed_connection_id` towards the peer `event_source`.
    ///
    /// `dial_connection_id` is the connection id the substrate assigns to the
    /// dial that a `*ConnectNegotiated` event makes the coordinator issue
    /// (the substrate hands the id out when the dial request is created); the
    /// other events ignore it.
    pub fn on_connection_handler_event(
        &mut self,
        event_source: u64,
        relayed_connection_id: u64,
        handler_event: HandlerEvent,
        dial_connection_id: u64,
    )
        requires
            old(self).wf(),
        ensures
            final(self)@ == old(self)@.on_handler_event(
                event_source,
                relayed_connection_id,
                handler_event@,
                dial_connection_id,
            ),
            final(self).wf(),
    {
        match handler_event {
            HandlerEvent::InboundConnectRequest { inbound_connect, remote_addr } => {
                self.queued_actions.push_back(
                    ActionBuilder::AcceptInboundConnect {
                        inbound_connect,
                        connection_id: relayed_connection_id,
                        peer_id: event_source,
                    },
                );
                self.queued_actions.push_back(
                    ActionBuilder::Done(
                        Action::GenerateEvent(
                            Event::RemoteInitiatedDirectConnectionUpgrade {
                                remote_peer_id: event_source,
                                remote_relayed_addr: remote_addr,
                            },
                        ),
                    ),
                );
            },
            HandlerEvent::InboundNegotiationFailed { error } => {
                self.queued_actions.push_back(
                    ActionBuilder::Done(
                        Action::GenerateEvent(
                            Event::DirectConnectionUpgradeFailed {
                                remote_peer_id: event_source,
                                error: Error::Handler(error),
                            },
                        ),
                    ),
                );
            },
            HandlerEvent::InboundConnectNegotiated { remote_addrs } => {
                self.queued_actions.push_back(
                    ActionBuilder::Done(
                        Action::Dial {
                            peer_id: event_source,
                            addresses: remote_addrs,
                            role_override: false,
                            connection_id: dial_connection_id,
                        },
                    ),
                );
                self.direct_outgoing_connection_attempts.insert(
                    dial_connection_id,
                    Attempt { relayed_connection_id, role: Role::Listener },
                );
            },
            HandlerEvent::OutboundNegotiationFailed { error } => {
                self.queued_actions.push_back(
                    ActionBuilder::Done(
                        Action::GenerateEvent(
                            Event::DirectConnectionUpgradeFailed {
                                remote_peer_id: event_source,
                                error: Error::Handler(error),
                            },
                        ),
                    ),
                );
            },
            HandlerEvent::OutboundConnectNegotiated { remote_addrs, attempt } => {
                self.queued_actions.push_back(
                    ActionBuilder::Done(
                        Action::Dial {
                            peer_id: event_source,
                            addresses: remote_addrs,
                            role_override: true,
                            connection_id: dial_connection_id,
                        },
                    ),
                );
                self.direct_outgoing_connection_attempts.insert(
                    dial_connection_id,
                    Attempt { relayed_connection_id, role: Role::Initiator { attempt } },
                );
            },
            HandlerEvent::DirectConnectionUpgradeSucceeded {
                relayed_connection_id: spawning_relayed_connection_id,
            } => {
                self.queued_actions.push_back(
                    ActionBuilder::Done(
                        Action::NotifyHandler {
                            peer_id: event_source,
                            connection_id: spawning_relayed_connection_id,
                            command: Command::UpgradeFinishedDontKeepAlive,
                        },
                    ),
                );
                self.queued_actions.push_back(
                    ActionBuilder::Done(
                        Action::GenerateEvent(
                            Event::DirectConnectionUpgradeSucceeded {
                                remote_peer_id: event_source,
                            },
                        ),
                    ),
                );
            },
        }
        proof {
            assert(self@ =~~= old(self)@.on_handler_event(
                event_source,
                relayed_connection_id,
                handler_event@,
                dial_connection_id,
            ));
        }
    }

    /// Drain the next pending action, if any, materializing it against the
    /// current external-address set (see [`crate::action::build_model`]).
    pub fn poll(&mut self) -> (action: Option<Action>)
        requires
            old(self).wf(),
        ensures
            final(self).wf(),
            old(self)@.queued_actions.len() == 0 ==> action is None && final(self)@ == old(
                self,
            )@,
            old(self)@.queued_actions.len() > 0 ==> {
                &&& action is Some
                &&& action.unwrap()@ == build_model(
                    old(self)@.queued_actions[0],
                    old(self)@.local_peer_id,
                    old(self)@.external_addresses,
                )
                &&& final(self)@ == State {
                    queued_actions: old(self)@.queued_actions.drop_first(),
                    ..old(self)@
                }
            },
    {
        match self.queued_actions.pop_front() {
            Some(builder) => {
                let action = builder.build(self.local_peer_id, &self.external_addresses);
                proof {
                    assert(self@ =~~= State {
                        queued_actions: old(self)@.queued_actions.drop_first(),
                        ..old(self)@
                    });
                }
                Some(action)
            },
            None => None,
        }
    }

    /// Handle a swarm notification: external-address changes refresh the
    /// cached address set, and connection lifecycle notifications are
    /// dispatched to the matching handler.
    pub fn on_swarm_event(&mut self, event: SwarmEvent)
        requires
            old(self).wf(),
            old(self)@.swarm_event_admissible(event),
        ensures
            final(self)@ == old(self)@.on_swarm_event(event),
            final(self).wf(),
    {
        match event {
            SwarmEvent::ConnectionEstablished { peer_id, connection_id, endpoint } => {
                self.on_connection_established(peer_id, connection_id, endpoint);
            },
            SwarmEvent::ConnectionClosed { peer_id, connection_id, endpoint } => {
                self.on_connection_closed(peer_id, connection_id, endpoint);
            },
            SwarmEvent::DialFailure { peer_id, connection_id } => {
                self.on_dial_failure(peer_id, connection_id);
            },
            SwarmEvent::NewExternalAddr(addr) => {
                self.add_external_address(addr);
            },
            SwarmEvent::ExpiredExternalAddr(addr) => {
                self.remove_external_address(addr);
            },
            _ => {},
        }
    }

    /// Record a newly reported external address, ignoring one already cached.
    fn add_external_address(&mut self, addr: Addr)
        requires
            old(self).wf(),
        ensures
            final(self)@ == old(self)@.on_new_external_addr(addr),
            final(self).wf(),
    {
        match find_addr_index(&self.external_addresses, addr) {
            Some(_) => {},
            None => {
                self.external_addresses.push(addr);
            },
        }
        proof {
            assert(self@ =~~= old(self)@.on_new_external_addr(addr));
        }
    }

    /// Drop an expired external address from the cache.
    fn remove_external_address(&mut self, addr: Addr)
        requires
            old(self).wf(),
        ensures
            final(self)@ == old(self)@.on_expired_external_addr(addr),
            final(self).wf(),
    {
        match find_addr_index(&self.external_addresses, addr) {
            Some(i) => {
                // The cache holds no duplicates, so the first occurrence the
                // scan found is the occurrence the model removes.
                proof {
                    let ext = self.external_addresses@;
                    assert(ext.contains(addr));
                    let j = ext.index_of(addr);
                    assert(0 <= j < ext.len() && ext[j] == addr);
                    if (i as int) < j {
                        assert(old(self)@.external_addresses == ext);
                        assert(forall|a: int, b: int|
                            #![trigger ext[a], ext[b]]
                            0 <= a < b < ext.len() ==> ext[a] != ext[b]);
                    }
                    assert(j == i as int);
                }
                self.external_addresses.remove(i);
            },
            None => {},
        }
        proof {
            assert(self@ =~~= old(self)@.on_expired_external_addr(addr));
        }
    }
    /// The local peer id this coordinator was created with.
    pub fn local_peer_id(&self) -> (r: u64)
        ensures
            r == self@.local_peer_id,
    {
        self.local_peer_id
    }

    /// How many actions are pending in the queue.
    pub fn queued_action_count(&self) -> (r: usize)
        ensures
            r == self@.queued_actions.len(),
    {
        self.queued_actions.len()
    }

    /// What is recorded for the in-flight upgrade dial attempt with this
    /// connection id, if it is tracked.
    pub fn tracked_attempt(&self, connection_id: u64) -> (r: Option<Attempt>)
        ensures
            r == if self@.direct_outgoing_connection_attempts.contains_key(connection_id) {
                Some(self@.direct_outgoing_connection_attempts[connection_id])
            } else {
                None::<Attempt>
            },
    {
        match self.direct_outgoing_connection_attempts.get(&connection_id) {
            Some(attempt_record) => Some(*attempt_record),
            None => None,
        }
    }

    /// Whether the given direct connection to the peer is currently tracked.
    pub fn tracks_direct_connection(&self, peer_id: u64, connection_id: u64) -> (r: bool)
        ensures
            r == (self@.direct_connections.contains_key(peer_id)
                && self@.direct_connections[peer_id].contains(connection_id)),
    {
        match self.direct_connections.get(&peer_id) {
            Some(connections) => connections.contains(&connection_id),
            None => false,
        }
    }

    /// The cached externally observed addresses, in the order first reported.
    pub fn external_addresses(&self) -> (r: &Vec<Addr>)
        ensures
            r@ == self@.external_addresses,
    {
        &self.external_addresses
    }
}

/// The index of the first occurrence of `addr` in `addrs`, if any.
fn find_addr_index(addrs: &Vec<Addr>, addr: Addr) -> (r: Option<usize>)
    ensures
        match r {
            Some(i) => i < addrs@.len() && addrs@[i as int] == addr && forall|k: int|
                0 <= k < i ==> addrs@[k] != addr,
            None => !addrs@.contains(addr),
        },
{
    let n = addrs.len();
    for i in 0..n
        invariant
            n == addrs@.len(),
            forall|k: int| 0 <= k < i ==> addrs@[k] != addr,
    {
        if addrs[i] == addr {
            return Some(i);
        }
    }
    proof {
        assert(!addrs@.contains(addr));
    }
    None
}

} // verus!
