//! The actions the coordinator hands to the host, and the two-phase builder
//! they are queued as.
//!
//! A `Connect` or `AcceptInboundConnect` command carries the node's current
//! externally observed addresses. Those may change between the moment an
//! action is decided on and the moment the host drains it, so such actions are
//! queued as an unresolved [`ActionBuilder`] and only materialized into an
//! [`Action`] — substituting the live address set, filtered to non-relayed
//! addresses and annotated with the local peer id — when dequeued.

use vstd::prelude::*;

use crate::addr::{Addr, ObservedAddr};
use crate::events::Event;

verus! {

/// A command addressed to the protocol engine of one connection.
#[derive(Clone, Debug, PartialEq, Eq)]
pub enum Command {
    /// Start (or retry) the outbound side of an upgrade negotiation.
    Connect {
        /// 1-based attempt counter of the upgrade dial chain.
        attempt: u8,
        /// The node's externally observed addresses, annotated with the local
        /// peer id, for the remote to dial back.
        obs_addrs: Vec<ObservedAddr>,
    },
    /// Accept a pending inbound upgrade negotiation.
    AcceptInboundConnect {
        /// Opaque handle to the engine's pending inbound connect exchange.
        inbound_connect: u64,
        /// The node's externally observed addresses, annotated with the local
        /// peer id, for the remote to dial back.
        obs_addrs: Vec<ObservedAddr>,
    },
    /// The upgrade finished; the engine no longer needs to keep the relayed
    /// connection alive.
    UpgradeFinishedDontKeepAlive,
}

/// The mathematical value of a [`Command`]: address lists become sequences.
pub enum CommandModel {
    /// Model of [`Command::Connect`].
    Connect { attempt: u8, obs_addrs: Seq<ObservedAddr> },
    /// Model of [`Command::AcceptInboundConnect`].
    AcceptInboundConnect { inbound_connect: u64, obs_addrs: Seq<ObservedAddr> },
    /// Model of [`Command::UpgradeFinishedDontKeepAlive`].
    UpgradeFinishedDontKeepAlive,
}

impl View for Command {
    type V = CommandModel;

    open spec fn view(&self) -> CommandModel {
        match self {
            Command::Connect { attempt, obs_addrs } => CommandModel::Connect {
                attempt: *attempt,
                obs_addrs: obs_addrs@,
            },
            Command::AcceptInboundConnect { inbound_connect, obs_addrs } => {
                CommandModel::AcceptInboundConnect {
                    inbound_connect: *inbound_connect,
                    obs_addrs: obs_addrs@,
                }
            },
            Command::UpgradeFinishedDontKeepAlive => CommandModel::UpgradeFinishedDontKeepAlive,
        }
    }
}

/// An action the host drains from the coordinator.
#[derive(Clone, Debug, PartialEq, Eq)]
pub enum Action {
    /// Surface an upward event to the host.
    GenerateEvent(Event),
    /// Deliver a command to the protocol engine of one connection.
    NotifyHandler {
        /// The peer the addressed connection goes to.
        peer_id: u64,
        /// The connection whose engine the command is addressed to.
        connection_id: u64,
        /// The command to deliver.
        command: Command,
    },
    /// Ask the substrate to dial a peer for an upgrade attempt.
    Dial {
        /// The peer to dial.
        peer_id: u64,
        /// The addresses to dial the peer at.
        addresses: Vec<Addr>,
        /// Whether this side commits to the simultaneous-open initiator role
        /// for transport-level tie-breaking.
        role_override: bool,
        /// The connection id the substrate assigned to this dial attempt.
        connection_id: u64,
    },
}

/// The mathematical value of an [`Action`]: address lists become sequences.
pub enum ActionModel {
    /// Model of [`Action::GenerateEvent`].
    GenerateEvent(Event),
    /// Model of [`Action::NotifyHandler`].
    NotifyHandler { peer_id: u64, connection_id: u64, command: CommandModel },
    /// Model of [`Action::Dial`].
    Dial { peer_id: u64, addresses: Seq<Addr>, role_override: bool, connection_id: u64 },
}

impl View for Action {
    type V = ActionModel;

    open spec fn view(&self) -> ActionModel {
        match self {
            Action::GenerateEvent(event) => ActionModel::GenerateEvent(*event),
            Action::NotifyHandler { peer_id, connection_id, command } => {
                ActionModel::NotifyHandler {
                    peer_id: *peer_id,
                    connection_id: *connection_id,
                    command: command@,
                }
            },
            Action::Dial { peer_id, addresses, role_override, connection_id } => {
                ActionModel::Dial {
                    peer_id: *peer_id,
                    addresses: addresses@,
                    role_override: *role_override,
                    connection_id: *connection_id,
                }
            },
        }
    }
}

/// A queued action: either complete, or still requiring the current
/// external-address set before it can be handed to the host.
#[derive(Clone, Debug, PartialEq, Eq)]
pub enum ActionBuilder {
    /// An action that needs no further data.
    Done(Action),
    /// A `Connect` command whose observed addresses are resolved at drain
    /// time.
    Connect {
        /// 1-based attempt counter of the upgrade dial chain.
        attempt: u8,
        /// The relayed connection whose engine the command is addressed to.
        connection_id: u64,
        /// The peer the relayed connection goes to.
        peer_id: u64,
    },
    /// An `AcceptInboundConnect` command whose observed addresses are
    /// resolved at drain time.
    AcceptInboundConnect {
        /// Opaque handle to the engine's pending inbound connect exchange.
        inbound_connect: u64,
        /// The relayed connection whose engine the command is addressed to.
        connection_id: u64,
        /// The peer the relayed connection goes to.
        peer_id: u64,
    },
}

/// The mathematical value of an [`ActionBuilder`].
pub enum ActionBuilderModel {
    /// Model of [`ActionBuilder::Done`].
    Done(ActionModel),
    /// Model of [`ActionBuilder::Connect`].
    Connect { attempt: u8, connection_id: u64, peer_id: u64 },
    /// Model of [`ActionBuilder::AcceptInboundConnect`].
    AcceptInboundConnect { inbound_connect: u64, connection_id: u64, peer_id: u64 },
}

impl View for ActionBuilder {
    type V = ActionBuilderModel;

    open spec fn view(&self) -> ActionBuilderModel {
        match self {
            ActionBuilder::Done(action) => ActionBuilderModel::Done(action@),
            ActionBuilder::Connect { attempt, connection_id, peer_id } => {
                ActionBuilderModel::Connect {
                    attempt: *attempt,
                    connection_id: *connection_id,
                    peer_id: *peer_id,
                }
            },
            ActionBuilder::AcceptInboundConnect { inbound_connect, connection_id, peer_id } => {
                ActionBuilderModel::AcceptInboundConnect {
                    inbound_connect: *inbound_connect,
                    connection_id: *connection_id,
                    peer_id: *peer_id,
                }
            },
        }
    }
}

impl ActionBuilder {
    /// Queue a complete action.
    pub fn from(action: Action) -> (b: ActionBuilder)
        ensures
            b@ == ActionBuilderModel::Done(action@),
    {
        ActionBuilder::Done(action)
    }
}

/// The observed-address set handed to a protocol engine, resolved from the
/// external addresses `ext` at drain time: the non-relayed addresses, in
/// order, each annotated with the local peer id.
pub open spec fn observed_addrs_of(ext: Seq<Addr>, local_peer_id: u64) -> Seq<ObservedAddr>
    decreases ext.len(),
{
    if ext.len() == 0 {
        Seq::empty()
    } else {
        let rest = observed_addrs_of(ext.drop_last(), local_peer_id);
        if ext.last().relayed {
            rest
        } else {
            rest.push(ObservedAddr { addr: ext.last(), local_peer_id })
        }
    }
}

/// Resolve the observed-address set from the current external addresses:
/// keep the non-relayed ones, in order, and annotate each with the local
/// peer id.
pub fn resolve_observed_addrs(external_addresses: &Vec<Addr>, local_peer_id: u64) -> (r: Vec<
    ObservedAddr,
>)
    ensures
        r@ == observed_addrs_of(external_addresses@, local_peer_id),
{
    let mut r: Vec<ObservedAddr> = Vec::new();
    let n = external_addresses.len();
    for i in 0..n
        invariant
            n == external_addresses.len(),
            r@ == observed_addrs_of(external_addresses@.take(i as int), local_peer_id),
    {
        let a = external_addresses[i];
        proof {
            assert(external_addresses@.take(i + 1).drop_last() =~= external_addresses@.take(
                i as int,
            ));
            assert(external_addresses@.take(i + 1).last() == a);
        }
        if !a.relayed {
            r.push(ObservedAddr { addr: a, local_peer_id });
        }
    }
    proof {
        assert(external_addresses@.take(n as int) =~= external_addresses@);
    }
    r
}

/// What [`ActionBuilder::build`] returns: a `Done` action unchanged, and a
/// `Connect` or `AcceptInboundConnect` command with the observed addresses
/// resolved from `ext`.
pub open spec fn build_model(b: ActionBuilderModel, local_peer_id: u64, ext: Seq<Addr>) -> ActionModel {
    match b {
        ActionBuilderModel::Done(action) => action,
        ActionBuilderModel::Connect { attempt, connection_id, peer_id } => {
            ActionModel::NotifyHandler {
                peer_id,
                connection_id,
                command: CommandModel::Connect {
                    attempt,
                    obs_addrs: observed_addrs_of(ext, local_peer_id),
                },
            }
        },
        ActionBuilderModel::AcceptInboundConnect { inbound_connect, connection_id, peer_id } => {
            ActionModel::NotifyHandler {
                peer_id,
                connection_id,
                command: CommandModel::AcceptInboundConnect {
                    inbound_connect,
                    obs_addrs: observed_addrs_of(ext, local_peer_id),
                },
            }
        },
    }
}

impl ActionBuilder {
    /// Materialize the queued action, substituting the current external
    /// addresses into commands that carry the observed-address set.
    pub fn build(self, local_peer_id: u64, external_addresses: &Vec<Addr>) -> (action: Action)
        ensures
            action@ == build_model(self@, local_peer_id, external_addresses@),
    {
        match self {
            ActionBuilder::Done(action) => action,
            ActionBuilder::Connect { attempt, connection_id, peer_id } => {
                Action::NotifyHandler {
                    peer_id,
                    connection_id,
                    command: Command::Connect {
                        attempt,
                        obs_addrs: resolve_observed_addrs(external_addresses, local_peer_id),
                    },
                }
            },
            ActionBuilder::AcceptInboundConnect { inbound_connect, connection_id, peer_id } => {
                Action::NotifyHandler {
                    peer_id,
                    connection_id,
                    command: Command::AcceptInboundConnect {
                        inbound_connect,
                        obs_addrs: resolve_observed_addrs(external_addresses, local_peer_id),
                    },
                }
            },
        }
    }
}

} // verus!
