//! Plain-value stand-ins for the transport-level identifiers the coordinator
//! reads: addresses, endpoints, and connected points.
//!
//! The coordinator never inspects the byte-level shape of an address; it only
//! asks whether an address runs through a relay circuit, and it annotates
//! outgoing observed addresses with the local peer id. An [`Addr`] therefore
//! carries an opaque identity together with its relay marker, and the host is
//! responsible for mapping real transport addresses onto these values.

use vstd::prelude::*;

verus! {

/// A transport address, reduced to what the coordinator reads of it: an opaque
/// identity chosen by the host, and whether the address contains a
/// relay-circuit marker.
#[derive(Clone, Copy, Debug, PartialEq, Eq, Structural)]
pub struct Addr {
    /// Opaque identity of the underlying transport address.
    pub id: u64,
    /// Whether the address routes through a relay circuit.
    pub relayed: bool,
}

/// An externally observed address annotated with the local peer id, as handed
/// to a protocol engine inside a `Connect` or `AcceptInboundConnect` command.
#[derive(Clone, Copy, Debug, PartialEq, Eq, Structural)]
pub struct ObservedAddr {
    /// The underlying non-relayed external address.
    pub addr: Addr,
    /// The local peer id appended to the address.
    pub local_peer_id: u64,
}

/// The side a connection's transport handshake was performed from.
#[derive(Clone, Copy, Debug, PartialEq, Eq, Structural)]
pub enum Endpoint {
    /// The local node opened the connection.
    Dialer,
    /// The remote node opened the connection.
    Listener,
}

/// How a connection came about: either we dialed the remote address, or the
/// remote dialed one of our listen addresses.
#[derive(Clone, Copy, Debug, PartialEq, Eq, Structural)]
pub enum ConnectedPoint {
    /// We opened the connection.
    Dialer {
        /// The remote address that was dialed.
        address: Addr,
        /// The role this side takes for simultaneous-open tie-breaking.
        role_override: Endpoint,
    },
    /// The remote opened the connection.
    Listener {
        /// The local listen address the connection arrived on.
        local_addr: Addr,
        /// The address the remote can be reached back on.
        send_back_addr: Addr,
    },
}

impl ConnectedPoint {
    /// Whether the connection behind this connected point runs through a relay.
    pub open spec fn spec_is_relayed(&self) -> bool {
        match self {
            ConnectedPoint::Dialer { address, .. } => address.relayed,
            ConnectedPoint::Listener { local_addr, .. } => local_addr.relayed,
        }
    }

    /// Whether the connection behind this connected point runs through a relay.
    #[verifier::when_used_as_spec(spec_is_relayed)]
    pub fn is_relayed(&self) -> (r: bool)
        ensures
            r == self.spec_is_relayed(),
    {
        match self {
            ConnectedPoint::Dialer { address, .. } => address.relayed,
            ConnectedPoint::Listener { local_addr, .. } => local_addr.relayed,
        }
    }

    /// Whether the remote opened this connection.
    pub open spec fn spec_is_listener(&self) -> bool {
        self matches ConnectedPoint::Listener { .. }
    }

    /// Whether the remote opened this connection.
    #[verifier::when_used_as_spec(spec_is_listener)]
    pub fn is_listener(&self) -> (r: bool)
        ensures
            r == self.spec_is_listener(),
    {
        match self {
            ConnectedPoint::Dialer { .. } => false,
            ConnectedPoint::Listener { .. } => true,
        }
    }
}

} // verus!
