//! The mathematical model of the coordinator.
//!
//! A [`State`] is the value of a [`crate::behaviour::Behaviour`] as seen in
//! contracts: the queue of pending actions, the table of in-flight upgrade
//! dial attempts, the live direct connections per peer, the cached external
//! addresses, and the local peer id. Each event handler of the behaviour is
//! specified by one transition function here, and the behaviour's `ensures`
//! clauses state that the implementation steps its state by exactly that
//! transition.

use vstd::prelude::*;

use crate::action::{ActionBuilderModel, ActionModel, CommandModel};
use crate::addr::{Addr, ConnectedPoint};
use crate::events::{
    Attempt, Error, Event, HandlerBinding, HandlerEventModel, Role, SwarmEvent,
    MAX_NUMBER_OF_UPGRADE_ATTEMPTS,
};

verus! {

/// The coordinator's state: what the behaviour's view (`@`) returns.
#[verifier::ext_equal]
pub struct State {
    /// Pending actions, drained front first.
    pub queued_actions: Seq<ActionBuilderModel>,
    /// For each in-flight upgrade dial attempt, keyed by the dial's connection
    /// id: the relayed connection that spawned it, and the role played.
    pub direct_outgoing_connection_attempts: Map<u64, Attempt>,
    /// All currently live direct (non-relayed) connections, per peer.
    pub direct_connections: Map<u64, Set<u64>>,
    /// The cached externally observed addresses, in the order first reported.
    pub external_addresses: Seq<Addr>,
    /// The local peer id appended to observed addresses handed to engines.
    pub local_peer_id: u64,
}

impl State {
    /// The state a freshly created coordinator is in: empty tables and queue.
    pub open spec fn initial(local_peer_id: u64) -> State {
        State {
            queued_actions: Seq::empty(),
            direct_outgoing_connection_attempts: Map::empty(),
            direct_connections: Map::empty(),
            external_addresses: Seq::empty(),
            local_peer_id,
        }
    }

    /// Well-formedness: a peer key exists in the direct-connection table iff
    /// its set is non-empty (and each set is finite), and the cached external
    /// addresses are pairwise distinct.
    pub open spec fn wf(self) -> bool {
        &&& forall|p: u64|
            self.direct_connections.contains_key(p) ==> {
                &&& (#[trigger] self.direct_connections[p]).finite()
                &&& self.direct_connections[p].len() > 0
            }
        &&& forall|i: int, j: int|
            0 <= i < j < self.external_addresses.len() ==> self.external_addresses[i]
                != self.external_addresses[j]
    }

    /// Transition for a connection-established notification.
    ///
    /// A fresh inbound relayed connection to a peer without a tracked direct
    /// connection starts an upgrade: a `Connect` command with attempt 1 and an
    /// `InitiatedDirectConnectionUpgrade` event are enqueued, in that order. A
    /// direct connection is recorded in the direct-connection table. Anything
    /// else changes nothing.
    pub open spec fn on_connection_established(
        self,
        peer_id: u64,
        connection_id: u64,
        endpoint: ConnectedPoint,
    ) -> State {
        if endpoint.is_relayed() {
            match endpoint {
                ConnectedPoint::Listener { local_addr, send_back_addr: _ } => {
                    if !self.direct_connections.contains_key(peer_id) {
                        State {
                            queued_actions: self.queued_actions
                                + seq![
                                ActionBuilderModel::Connect { attempt: 1, connection_id, peer_id },
                                ActionBuilderModel::Done(
                                    ActionModel::GenerateEvent(
                                        Event::InitiatedDirectConnectionUpgrade {
                                            remote_peer_id: peer_id,
                                            local_relayed_addr: local_addr,
                                        },
                                    ),
                                ),
                            ],
                            ..self
                        }
                    } else {
                        self
                    }
                },
                ConnectedPoint::Dialer { .. } => self,
            }
        } else {
            let prior = if self.direct_connections.contains_key(peer_id) {
                self.direct_connections[peer_id]
            } else {
                Set::empty()
            };
            State {
                direct_connections: self.direct_connections.insert(
                    peer_id,
                    prior.insert(connection_id),
                ),
                ..self
            }
        }
    }

    /// Transition for a connection-closed notification.
    ///
    /// A closed direct connection leaves the direct-connection table; the peer
    /// key is dropped when its set becomes empty. A relayed close changes
    /// nothing. Only meaningful when the closed direct connection was tracked
    /// (see [`State::connection_closed_admissible`]).
    pub open spec fn on_connection_closed(
        self,
        peer_id: u64,
        connection_id: u64,
        endpoint: ConnectedPoint,
    ) -> State {
        if endpoint.is_relayed() {
            self
        } else {
            let remaining = self.direct_connections[peer_id].remove(connection_id);
            if remaining.is_empty() {
                State { direct_connections: self.direct_connections.remove(peer_id), ..self }
            } else {
                State {
                    direct_connections: self.direct_connections.insert(peer_id, remaining),
                    ..self
                }
            }
        }
    }

    /// A connection-closed notification is only ever delivered for a
    /// connection that was established; for a direct connection that means the
    /// coordinator tracks it.
    pub open spec fn connection_closed_admissible(
        self,
        peer_id: u64,
        connection_id: u64,
        endpoint: ConnectedPoint,
    ) -> bool {
        !endpoint.is_relayed() ==> {
            &&& self.direct_connections.contains_key(peer_id)
            &&& self.direct_connections[peer_id].contains(connection_id)
        }
    }

    /// Transition for a dial-failure notification.
    ///
    /// A failure unrelated to an upgrade attempt is ignored. Otherwise the
    /// attempt leaves the table; a listener-role attempt ends there, an
    /// initiator-role attempt below the cap enqueues the next `Connect`, and
    /// one at the cap tells the relayed connection's engine to stop keeping
    /// the relay alive and reports the upgrade as failed with
    /// [`Error::Dial`].
    pub open spec fn on_dial_failure(self, peer_id: Option<u64>, connection_id: u64) -> State {
        if !self.direct_outgoing_connection_attempts.contains_key(connection_id) {
            self
        } else {
            let attempt_record = self.direct_outgoing_connection_attempts[connection_id];
            let removed = State {
                direct_outgoing_connection_attempts:
                    self.direct_outgoing_connection_attempts.remove(connection_id),
                ..self
            };
            match attempt_record.role {
                Role::Listener => removed,
                Role::Initiator { attempt } => {
                    let peer = peer_id.unwrap();
                    if attempt < MAX_NUMBER_OF_UPGRADE_ATTEMPTS {
                        State {
                            queued_actions: removed.queued_actions.push(
                                ActionBuilderModel::Connect {
                                    attempt: (attempt + 1) as u8,
                                    connection_id: attempt_record.relayed_connection_id,
                                    peer_id: peer,
                                },
                            ),
                            ..removed
                        }
                    } else {
                        State {
                            queued_actions: removed.queued_actions
                                + seq![
                                ActionBuilderModel::Done(
                                    ActionModel::NotifyHandler {
                                        peer_id: peer,
                                        connection_id: attempt_record.relayed_connection_id,
                                        command: CommandModel::UpgradeFinishedDontKeepAlive,
                                    },
                                ),
                                ActionBuilderModel::Done(
                                    ActionModel::GenerateEvent(
                                        Event::DirectConnectionUpgradeFailed {
                                            remote_peer_id: peer,
                                            error: Error::Dial,
                                        },
                                    ),
                                ),
                            ],
                            ..removed
                        }
                    }
                },
            }
        }
    }

    /// The peer of a dial attempt the coordinator started is always known, so
    /// a dial-failure for a tracked initiator-role attempt carries it.
    pub open spec fn dial_failure_admissible(self, peer_id: Option<u64>, connection_id: u64) -> bool {
        (self.direct_outgoing_connection_attempts.contains_key(connection_id)
            && self.direct_outgoing_connection_attempts[connection_id].role matches
            Role::Initiator { .. }) ==> peer_id is Some
    }

    /// Transition for binding an engine to a freshly established connection:
    /// a connection that came out of one of our dial attempts leaves the
    /// attempts table. Nothing else changes; the binding itself is given by
    /// [`State::binding_for`].
    pub open spec fn on_connection_bound(self, connection_id: u64) -> State {
        State {
            direct_outgoing_connection_attempts: self.direct_outgoing_connection_attempts.remove(
                connection_id,
            ),
            ..self
        }
    }

    /// The engine bound to a freshly established connection: a direct-mode
    /// engine keyed by the spawning relayed connection if the connection came
    /// out of one of our dial attempts, a relayed-mode engine if the
    /// connection runs through a relay, and a no-op engine otherwise.
    pub open spec fn binding_for(self, connection_id: u64, endpoint: ConnectedPoint) -> HandlerBinding {
        if self.direct_outgoing_connection_attempts.contains_key(connection_id) {
            HandlerBinding::Direct {
                relayed_connection_id:
                    self.direct_outgoing_connection_attempts[connection_id].relayed_connection_id,
            }
        } else if endpoint.is_relayed() {
            HandlerBinding::Relayed { endpoint }
        } else {
            HandlerBinding::Dummy
        }
    }

    /// A connection that came out of one of our own dial attempts is never
    /// relayed.
    pub open spec fn connection_bound_admissible(
        self,
        connection_id: u64,
        endpoint: ConnectedPoint,
    ) -> bool {
        self.direct_outgoing_connection_attempts.contains_key(connection_id)
            ==> !endpoint.is_relayed()
    }

    /// Transition for an event emitted by the protocol engine of the relayed
    /// connection `relayed_connection_id` towards the peer `event_source`.
    ///
    /// `dial_connection_id` is the connection id the substrate assigns to the
    /// dial issued by a `*ConnectNegotiated` event; the other events ignore
    /// it.
    pub open spec fn on_handler_event(
        self,
        event_source: u64,
        relayed_connection_id: u64,
        event: HandlerEventModel,
        dial_connection_id: u64,
    ) -> State {
        match event {
            HandlerEventModel::InboundConnectRequest { inbound_connect, remote_addr } => {
                State {
                    queued_actions: self.queued_actions
                        + seq![
                        ActionBuilderModel::AcceptInboundConnect {
                            inbound_connect,
                            connection_id: relayed_connection_id,
                            peer_id: event_source,
                        },
                        ActionBuilderModel::Done(
                            ActionModel::GenerateEvent(
                                Event::RemoteInitiatedDirectConnectionUpgrade {
                                    remote_peer_id: event_source,
                                    remote_relayed_addr: remote_addr,
                                },
                            ),
                        ),
                    ],
                    ..self
                }
            },
            HandlerEventModel::InboundNegotiationFailed { error } => {
                State {
                    queued_actions: self.queued_actions.push(
                        ActionBuilderModel::Done(
                            ActionModel::GenerateEvent(
                                Event::DirectConnectionUpgradeFailed {
                                    remote_peer_id: event_source,
                                    error: Error::Handler(error),
                                },
                            ),
                        ),
                    ),
                    ..self
                }
            },
            HandlerEventModel::InboundConnectNegotiated { remote_addrs } => {
                State {
                    queued_actions: self.queued_actions.push(
                        ActionBuilderModel::Done(
                            ActionModel::Dial {
                                peer_id: event_source,
                                addresses: remote_addrs,
                                role_override: false,
                                connection_id: dial_connection_id,
                            },
                        ),
                    ),
                    direct_outgoing_connection_attempts:
                        self.direct_outgoing_connection_attempts.insert(
                        dial_connection_id,
                        Attempt { relayed_connection_id, role: Role::Listener },
                    ),
                    ..self
                }
            },
            HandlerEventModel::OutboundNegotiationFailed { error } => {
                State {
                    queued_actions: self.queued_actions.push(
                        ActionBuilderModel::Done(
                            ActionModel::GenerateEvent(
                                Event::DirectConnectionUpgradeFailed {
                                    remote_peer_id: event_source,
                                    error: Error::Handler(error),
                                },
                            ),
                        ),
                    ),
                    ..self
                }
            },
            HandlerEventModel::OutboundConnectNegotiated { remote_addrs, attempt } => {
                State {
                    queued_actions: self.queued_actions.push(
                        ActionBuilderModel::Done(
                            ActionModel::Dial {
                                peer_id: event_source,
                                addresses: remote_addrs,
                                role_override: true,
                                connection_id: dial_connection_id,
                            },
                        ),
                    ),
                    direct_outgoing_connection_attempts:
                        self.direct_outgoing_connection_attempts.insert(
                        dial_connection_id,
                        Attempt { relayed_connection_id, role: Role::Initiator { attempt } },
                    ),
                    ..self
                }
            },
            HandlerEventModel::DirectConnectionUpgradeSucceeded {
                relayed_connection_id: spawning_relayed_connection_id,
            } => {
                State {
                    queued_actions: self.queued_actions
                        + seq![
                        ActionBuilderModel::Done(
                            ActionModel::NotifyHandler {
                                peer_id: event_source,
                                connection_id: spawning_relayed_connection_id,
                                command: CommandModel::UpgradeFinishedDontKeepAlive,
                            },
                        ),
                        ActionBuilderModel::Done(
                            ActionModel::GenerateEvent(
                                Event::DirectConnectionUpgradeSucceeded {
                                    remote_peer_id: event_source,
                                },
                            ),
                        ),
                    ],
                    ..self
                }
            },
        }
    }

    /// Transition for recording a newly reported external address: appended
    /// if not cached yet, ignored otherwise.
    pub open spec fn on_new_external_addr(self, addr: Addr) -> State {
        if self.external_addresses.contains(addr) {
            self
        } else {
            State { external_addresses: self.external_addresses.push(addr), ..self }
        }
    }

    /// Transition for an expired external address: its cached occurrence is
    /// dropped, keeping the order of the rest.
    pub open spec fn on_expired_external_addr(self, addr: Addr) -> State {
        if self.external_addresses.contains(addr) {
            State {
                external_addresses: self.external_addresses.remove(
                    self.external_addresses.index_of(addr),
                ),
                ..self
            }
        } else {
            self
        }
    }

    /// Transition for a swarm notification: dispatches to the transition of
    /// the matching handler; listener lifecycle notifications change nothing.
    pub open spec fn on_swarm_event(self, event: SwarmEvent) -> State {
        match event {
            SwarmEvent::ConnectionEstablished { peer_id, connection_id, endpoint } => {
                self.on_connection_established(peer_id, connection_id, endpoint)
            },
            SwarmEvent::ConnectionClosed { peer_id, connection_id, endpoint } => {
                self.on_connection_closed(peer_id, connection_id, endpoint)
            },
            SwarmEvent::DialFailure { peer_id, connection_id } => {
                self.on_dial_failure(peer_id, connection_id)
            },
            SwarmEvent::NewExternalAddr(addr) => self.on_new_external_addr(addr),
            SwarmEvent::ExpiredExternalAddr(addr) => self.on_expired_external_addr(addr),
            _ => self,
        }
    }

    /// The preconditions of [`State::on_swarm_event`], per event kind.
    pub open spec fn swarm_event_admissible(self, event: SwarmEvent) -> bool {
        match event {
            SwarmEvent::ConnectionClosed { peer_id, connection_id, endpoint } => {
                self.connection_closed_admissible(peer_id, connection_id, endpoint)
            },
            SwarmEvent::DialFailure { peer_id, connection_id } => {
                self.dial_failure_admissible(peer_id, connection_id)
            },
            _ => true,
        }
    }
}

} // verus!
