//! The values the coordinator exchanges with its collaborators: the role of an
//! upgrade attempt, the events pushed in by the connection substrate and by the
//! per-connection protocol engines, the upward events surfaced to the host, and
//! the handler bindings handed back when a new connection is established.

use vstd::prelude::*;

use crate::addr::{Addr, ConnectedPoint};

verus! {

/// How many times an initiator-side upgrade dial is attempted before the
/// upgrade is reported as failed.
pub const MAX_NUMBER_OF_UPGRADE_ATTEMPTS: u8 = 3;

/// The part this node plays in one upgrade dial attempt.
#[derive(Clone, Copy, Debug, PartialEq, Eq, Structural)]
pub enum Role {
    /// We are reacting to a peer-initiated upgrade; a failed dial is not
    /// retried.
    Listener,
    /// We initiated the upgrade; a failed dial is retried with an incremented
    /// attempt counter until [`MAX_NUMBER_OF_UPGRADE_ATTEMPTS`] is reached.
    Initiator {
        /// 1-based attempt counter of the dial this role belongs to.
        attempt: u8,
    },
}

/// What a pending dial attempt was started for: the relayed connection whose
/// engine drives the upgrade, and the role this side plays in it.
#[derive(Clone, Copy, Debug, PartialEq, Eq, Structural)]
pub struct Attempt {
    /// The relayed connection the upgrade attempt belongs to.
    pub relayed_connection_id: u64,
    /// The role this side plays in the attempt.
    pub role: Role,
}

/// Why an upgrade ended unsuccessfully.
#[derive(Clone, Copy, Debug, PartialEq, Eq, Structural)]
pub enum Error {
    /// Every dial attempt failed.
    Dial,
    /// The protocol engine reported a negotiation error; the engine's own
    /// error value is carried opaquely.
    Handler(u64),
}

/// The upward events produced by the [`crate::behaviour::Behaviour`].
#[derive(Clone, Copy, Debug, PartialEq, Eq, Structural)]
pub enum Event {
    /// We detected a fresh inbound relayed connection and began an upgrade.
    InitiatedDirectConnectionUpgrade {
        /// The peer on the other side of the relayed connection.
        remote_peer_id: u64,
        /// The local listen address the relayed connection arrived on.
        local_relayed_addr: Addr,
    },
    /// The remote peer began an upgrade towards us.
    RemoteInitiatedDirectConnectionUpgrade {
        /// The peer on the other side of the relayed connection.
        remote_peer_id: u64,
        /// The remote address of the relayed connection.
        remote_relayed_addr: Addr,
    },
    /// A direct connection to the peer now exists.
    DirectConnectionUpgradeSucceeded {
        /// The peer a direct connection was established to.
        remote_peer_id: u64,
    },
    /// The upgrade ended without a direct connection.
    DirectConnectionUpgradeFailed {
        /// The peer the upgrade was attempted with.
        remote_peer_id: u64,
        /// Why the upgrade failed.
        error: Error,
    },
}

/// An event emitted by the protocol engine bound to one connection.
///
/// The two `*ConnectNegotiated` variants make the coordinator issue a dial;
/// the connection id the substrate assigns to that dial is passed alongside
/// the event (see
/// [`crate::behaviour::Behaviour::on_connection_handler_event`]).
#[derive(Clone, Debug, PartialEq, Eq)]
pub enum HandlerEvent {
    /// The remote asked us, over the relayed connection, to take part in an
    /// upgrade it initiated. Carries an opaque handle to the pending connect
    /// exchange.
    InboundConnectRequest {
        /// Opaque handle to the engine's pending inbound connect exchange.
        inbound_connect: u64,
        /// The remote address of the relayed connection.
        remote_addr: Addr,
    },
    /// The inbound negotiation failed; the engine's error value is carried
    /// opaquely.
    InboundNegotiationFailed {
        /// The engine's own error value.
        error: u64,
    },
    /// The inbound negotiation finished; the remote can be dialed at these
    /// addresses.
    InboundConnectNegotiated {
        /// The addresses the remote advertised for the direct dial.
        remote_addrs: Vec<Addr>,
    },
    /// The outbound negotiation failed; the engine's error value is carried
    /// opaquely.
    OutboundNegotiationFailed {
        /// The engine's own error value.
        error: u64,
    },
    /// The outbound negotiation finished; the remote can be dialed at these
    /// addresses, with this side acting as the simultaneous-open initiator.
    OutboundConnectNegotiated {
        /// The addresses the remote advertised for the direct dial.
        remote_addrs: Vec<Addr>,
        /// 1-based attempt counter of the upgrade this dial belongs to.
        attempt: u8,
    },
    /// An engine bound to a direct connection reports that the upgrade
    /// spawned from the given relayed connection succeeded.
    DirectConnectionUpgradeSucceeded {
        /// The relayed connection the upgrade was spawned from.
        relayed_connection_id: u64,
    },
}

/// The mathematical value of a [`HandlerEvent`]: address lists become
/// sequences.
pub enum HandlerEventModel {
    /// Model of [`HandlerEvent::InboundConnectRequest`].
    InboundConnectRequest { inbound_connect: u64, remote_addr: Addr },
    /// Model of [`HandlerEvent::InboundNegotiationFailed`].
    InboundNegotiationFailed { error: u64 },
    /// Model of [`HandlerEvent::InboundConnectNegotiated`].
    InboundConnectNegotiated { remote_addrs: Seq<Addr> },
    /// Model of [`HandlerEvent::OutboundNegotiationFailed`].
    OutboundNegotiationFailed { error: u64 },
    /// Model of [`HandlerEvent::OutboundConnectNegotiated`].
    OutboundConnectNegotiated { remote_addrs: Seq<Addr>, attempt: u8 },
    /// Model of [`HandlerEvent::DirectConnectionUpgradeSucceeded`].
    DirectConnectionUpgradeSucceeded { relayed_connection_id: u64 },
}

impl View for HandlerEvent {
    type V = HandlerEventModel;

    open spec fn view(&self) -> HandlerEventModel {
        match self {
            HandlerEvent::InboundConnectRequest { inbound_connect, remote_addr } => {
                HandlerEventModel::InboundConnectRequest {
                    inbound_connect: *inbound_connect,
                    remote_addr: *remote_addr,
                }
            },
            HandlerEvent::InboundNegotiationFailed { error } => {
                HandlerEventModel::InboundNegotiationFailed { error: *error }
            },
            HandlerEvent::InboundConnectNegotiated { remote_addrs } => {
                HandlerEventModel::InboundConnectNegotiated { remote_addrs: remote_addrs@ }
            },
            HandlerEvent::OutboundNegotiationFailed { error } => {
                HandlerEventModel::OutboundNegotiationFailed { error: *error }
            },
            HandlerEvent::OutboundConnectNegotiated { remote_addrs, attempt } => {
                HandlerEventModel::OutboundConnectNegotiated {
                    remote_addrs: remote_addrs@,
                    attempt: *attempt,
                }
            },
            HandlerEvent::DirectConnectionUpgradeSucceeded { relayed_connection_id } => {
                HandlerEventModel::DirectConnectionUpgradeSucceeded {
                    relayed_connection_id: *relayed_connection_id,
                }
            },
        }
    }
}

/// A notification pushed in by the connection substrate, together with the
/// external-address changes the swarm reports.
#[derive(Clone, Copy, Debug, PartialEq, Eq)]
pub enum SwarmEvent {
    /// A connection to a peer was established.
    ConnectionEstablished {
        /// The peer the connection goes to.
        peer_id: u64,
        /// The substrate's id for the connection.
        connection_id: u64,
        /// How the connection came about.
        endpoint: ConnectedPoint,
    },
    /// A connection to a peer was closed.
    ConnectionClosed {
        /// The peer the connection went to.
        peer_id: u64,
        /// The substrate's id for the connection.
        connection_id: u64,
        /// How the connection had come about.
        endpoint: ConnectedPoint,
    },
    /// A dial attempt failed.
    DialFailure {
        /// The peer the dial was addressed to, where known.
        peer_id: Option<u64>,
        /// The substrate's id for the failed dial attempt.
        connection_id: u64,
    },
    /// A new externally observed address of this node was reported.
    NewExternalAddr(Addr),
    /// An externally observed address of this node expired.
    ExpiredExternalAddr(Addr),
    /// The address of an existing connection changed. Ignored.
    AddressChange,
    /// An inbound connection failed before being established. Ignored.
    ListenFailure,
    /// A new listener was started. Ignored.
    NewListener,
    /// A listener began listening on an address. Ignored.
    NewListenAddr,
    /// A listener stopped listening on an address. Ignored.
    ExpiredListenAddr,
    /// A listener reported a non-fatal error. Ignored.
    ListenerError,
    /// A listener closed. Ignored.
    ListenerClosed,
}

/// The engine instance the coordinator binds to a freshly established
/// connection.
#[derive(Clone, Copy, Debug, PartialEq, Eq)]
pub enum HandlerBinding {
    /// A relayed-mode engine driving the upgrade protocol over a relayed
    /// connection.
    Relayed {
        /// How the relayed connection came about.
        endpoint: ConnectedPoint,
    },
    /// A direct-mode engine for a connection that came out of one of our own
    /// upgrade dial attempts, keyed by the relayed connection that spawned it.
    Direct {
        /// The relayed connection the dial attempt was spawned from.
        relayed_connection_id: u64,
    },
    /// A no-op engine for a direct connection this coordinator did not
    /// initiate.
    Dummy,
}

} // verus!
