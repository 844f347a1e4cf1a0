//! Coordinator for upgrading relayed peer-to-peer connections to direct ones.
//!
//! Given a connection that already runs through a relay, the [`Behaviour`]
//! decides when to attempt a hole-punch upgrade to a direct connection, how
//! often to retry a failed dial, and which lifecycle events to surface to the
//! host. It owns no I/O: the connection substrate and the per-connection
//! protocol engines push events in, and the host drains a queue of pending
//! actions out.

pub mod addr;
pub mod action;
pub mod events;
pub mod state;
pub mod behaviour;
pub mod laws;

pub use addr::{Addr, ConnectedPoint, Endpoint, ObservedAddr};
pub use action::{Action, ActionBuilder, Command};
pub use behaviour::Behaviour;
pub use events::{Attempt, Error, Event, HandlerBinding, HandlerEvent, Role, SwarmEvent, MAX_NUMBER_OF_UPGRADE_ATTEMPTS};
