//! The behavioural laws of the coordinator, stated and proved over the
//! transition functions of [`State`].
//!
//! Each lemma here is a property the coordinator guarantees across its event
//! handlers: how upgrades are started and suppressed, how dial failures are
//! retried and reported, how the connection tables evolve, and that every
//! in-flight upgrade dial attempt is resolved exactly once.

use vstd::prelude::*;

use crate::action::{observed_addrs_of, ActionBuilderModel, ActionModel, CommandModel};
use crate::addr::{Addr, ConnectedPoint, ObservedAddr};
use crate::events::{
    Error, Event, HandlerEventModel, Role, SwarmEvent, MAX_NUMBER_OF_UPGRADE_ATTEMPTS,
};
use crate::state::State;

verus! {

/// Whether a queued action would surface a `DirectConnectionUpgradeFailed`
/// event when drained.
pub open spec fn is_failure_event(b: ActionBuilderModel) -> bool {
    b matches ActionBuilderModel::Done(
        ActionModel::GenerateEvent(Event::DirectConnectionUpgradeFailed { .. }),
    )
}

/// Whether a queued action would deliver a `Connect` command when drained.
pub open spec fn is_connect_command(b: ActionBuilderModel) -> bool {
    b matches ActionBuilderModel::Connect { .. }
}

/// A newly established inbound relayed connection to a peer with no existing
/// direct connection starts exactly one upgrade: exactly one `Connect` with
/// attempt 1 and exactly one `InitiatedDirectConnectionUpgrade` event are
/// enqueued, in that order, and the connection tables are untouched.
pub proof fn lemma_inbound_relayed_connection_starts_single_upgrade(
    s: State,
    peer_id: u64,
    connection_id: u64,
    local_addr: Addr,
    send_back_addr: Addr,
)
    requires
        local_addr.relayed,
        !s.direct_connections.contains_key(peer_id),
    ensures
        ({
            let s2 = s.on_connection_established(
                peer_id,
                connection_id,
                ConnectedPoint::Listener { local_addr, send_back_addr },
            );
            &&& s2.queued_actions == s.queued_actions
                + seq![
                ActionBuilderModel::Connect { attempt: 1, connection_id, peer_id },
                ActionBuilderModel::Done(
                    ActionModel::GenerateEvent(
                        Event::InitiatedDirectConnectionUpgrade {
                            remote_peer_id: peer_id,
                            local_relayed_addr: local_addr,
                        },
                    ),
                ),
            ]
            &&& s2.direct_outgoing_connection_attempts == s.direct_outgoing_connection_attempts
            &&& s2.direct_connections == s.direct_connections
            &&& s2.external_addresses == s.external_addresses
            &&& s2.local_peer_id == s.local_peer_id
        }),
{
}

/// If a direct connection to the peer already exists when a relayed
/// connection to it is established, no upgrade is started: nothing is
/// enqueued and nothing changes.
pub proof fn lemma_existing_direct_connection_suppresses_upgrade(
    s: State,
    peer_id: u64,
    connection_id: u64,
    endpoint: ConnectedPoint,
)
    requires
        endpoint.is_relayed(),
        s.direct_connections.contains_key(peer_id),
    ensures
        s.on_connection_established(peer_id, connection_id, endpoint) == s,
{
}

/// A failing initiator-role dial attempt below the retry cap enqueues
/// exactly one `Connect` with the attempt counter incremented, addressed to
/// the relayed connection that spawned the attempt, and surfaces no failure
/// event; the attempt leaves the table.
pub proof fn lemma_dial_failure_below_cap_retries(
    s: State,
    peer_id: u64,
    connection_id: u64,
    attempt: u8,
)
    requires
        s.direct_outgoing_connection_attempts.contains_key(connection_id),
        s.direct_outgoing_connection_attempts[connection_id].role == (Role::Initiator { attempt }),
        attempt < MAX_NUMBER_OF_UPGRADE_ATTEMPTS,
    ensures
        ({
            let s2 = s.on_dial_failure(Some(peer_id), connection_id);
            &&& s2.queued_actions == s.queued_actions.push(
                ActionBuilderModel::Connect {
                    attempt: (attempt + 1) as u8,
                    connection_id:
                        s.direct_outgoing_connection_attempts[connection_id].relayed_connection_id,
                    peer_id,
                },
            )
            &&& forall|k: int|
                s.queued_actions.len() <= k < s2.queued_actions.len() ==> !is_failure_event(
                    #[trigger] s2.queued_actions[k],
                )
            &&& s2.direct_outgoing_connection_attempts
                == s.direct_outgoing_connection_attempts.remove(connection_id)
            &&& s2.direct_connections == s.direct_connections
            &&& s2.external_addresses == s.external_addresses
        }),
{
}

/// A failing initiator-role dial attempt at the retry cap surfaces exactly
/// one `DirectConnectionUpgradeFailed` with [`Error::Dial`], preceded by the
/// command that lets the relayed connection's engine stop keeping the relay
/// alive; no retry is enqueued, the attempt leaves the table, and a repeated
/// failure of the same dial changes nothing further.
pub proof fn lemma_dial_failure_at_cap_fails_once(s: State, peer_id: u64, connection_id: u64)
    requires
        s.direct_outgoing_connection_attempts.contains_key(connection_id),
        s.direct_outgoing_connection_attempts[connection_id].role == (Role::Initiator {
            attempt: MAX_NUMBER_OF_UPGRADE_ATTEMPTS,
        }),
    ensures
        ({
            let s2 = s.on_dial_failure(Some(peer_id), connection_id);
            &&& s2.queued_actions == s.queued_actions
                + seq![
                ActionBuilderModel::Done(
                    ActionModel::NotifyHandler {
                        peer_id,
                        connection_id:
                            s.direct_outgoing_connection_attempts[connection_id].relayed_connection_id,
                        command: CommandModel::UpgradeFinishedDontKeepAlive,
                    },
                ),
                ActionBuilderModel::Done(
                    ActionModel::GenerateEvent(
                        Event::DirectConnectionUpgradeFailed {
                            remote_peer_id: peer_id,
                            error: Error::Dial,
                        },
                    ),
                ),
            ]
            &&& forall|k: int|
                s.queued_actions.len() <= k < s2.queued_actions.len() ==> !is_connect_command(
                    #[trigger] s2.queued_actions[k],
                )
            &&& s2.direct_outgoing_connection_attempts
                == s.direct_outgoing_connection_attempts.remove(connection_id)
            &&& !s2.direct_outgoing_connection_attempts.contains_key(connection_id)
            &&& s2.on_dial_failure(Some(peer_id), connection_id) == s2
        }),
{
}

/// A failing listener-role dial attempt is a no-op beyond untracking the
/// attempt: no event is surfaced and no retry is issued.
pub proof fn lemma_dial_failure_listener_role_is_noop(
    s: State,
    peer_id: Option<u64>,
    connection_id: u64,
)
    requires
        s.direct_outgoing_connection_attempts.contains_key(connection_id),
        s.direct_outgoing_connection_attempts[connection_id].role == Role::Listener,
    ensures
        s.on_dial_failure(peer_id, connection_id) == (State {
            direct_outgoing_connection_attempts: s.direct_outgoing_connection_attempts.remove(
                connection_id,
            ),
            ..s
        }),
        s.on_dial_failure(peer_id, connection_id).queued_actions == s.queued_actions,
{
}

/// A dial failure whose connection id matches no tracked upgrade attempt
/// changes nothing at all.
pub proof fn lemma_dial_failure_untracked_is_ignored(
    s: State,
    peer_id: Option<u64>,
    connection_id: u64,
)
    requires
        !s.direct_outgoing_connection_attempts.contains_key(connection_id),
    ensures
        s.on_dial_failure(peer_id, connection_id) == s,
{
}

/// After a direct connection's close has been processed, its id is no longer
/// tracked for the peer, and well-formedness is preserved — in particular the
/// peer's key is gone whenever its set of direct connections would be empty.
pub proof fn lemma_connection_closed_untracks_connection(
    s: State,
    peer_id: u64,
    connection_id: u64,
    endpoint: ConnectedPoint,
)
    requires
        s.wf(),
        !endpoint.is_relayed(),
        s.connection_closed_admissible(peer_id, connection_id, endpoint),
    ensures
        ({
            let s2 = s.on_connection_closed(peer_id, connection_id, endpoint);
            &&& !(s2.direct_connections.contains_key(peer_id)
                && s2.direct_connections[peer_id].contains(connection_id))
            &&& s2.wf()
        }),
{
}

/// Every `upgrade-succeeded` engine event yields exactly one
/// `DirectConnectionUpgradeSucceeded` upward event and exactly one
/// `UpgradeFinishedDontKeepAlive` command to the relayed connection the
/// upgrade was spawned from, in that order; the tables are untouched.
pub proof fn lemma_upgrade_succeeded_reports_once(
    s: State,
    event_source: u64,
    relayed_connection_id: u64,
    spawning_relayed_connection_id: u64,
    dial_connection_id: u64,
)
    ensures
        ({
            let s2 = s.on_handler_event(
                event_source,
                relayed_connection_id,
                HandlerEventModel::DirectConnectionUpgradeSucceeded {
                    relayed_connection_id: spawning_relayed_connection_id,
                },
                dial_connection_id,
            );
            &&& s2.queued_actions == s.queued_actions
                + seq![
                ActionBuilderModel::Done(
                    ActionModel::NotifyHandler {
                        peer_id: event_source,
                        connection_id: spawning_relayed_connection_id,
                        command: CommandModel::UpgradeFinishedDontKeepAlive,
                    },
                ),
                ActionBuilderModel::Done(
                    ActionModel::GenerateEvent(
                        Event::DirectConnectionUpgradeSucceeded { remote_peer_id: event_source },
                    ),
                ),
            ]
            &&& s2.direct_outgoing_connection_attempts == s.direct_outgoing_connection_attempts
            &&& s2.direct_connections == s.direct_connections
            &&& s2.external_addresses == s.external_addresses
        }),
{
}

/// A tracked upgrade dial attempt is resolved exactly once: both a dial
/// failure and the handshake that binds the established connection remove it
/// from the table, and once either has done so, the other no longer changes
/// the table — a later dial failure for the same id is a complete no-op, and
/// a later handshake binds without consulting the table entry.
pub proof fn lemma_attempt_resolved_exactly_once(
    s: State,
    peer_id: Option<u64>,
    connection_id: u64,
)
    requires
        s.direct_outgoing_connection_attempts.contains_key(connection_id),
    ensures
        !s.on_dial_failure(
            peer_id,
            connection_id,
        ).direct_outgoing_connection_attempts.contains_key(connection_id),
        s.on_connection_bound(connection_id).direct_outgoing_connection_attempts
            == s.direct_outgoing_connection_attempts.remove(connection_id),
        !s.on_connection_bound(connection_id).direct_outgoing_connection_attempts.contains_key(
            connection_id,
        ),
        s.on_connection_bound(connection_id).on_dial_failure(peer_id, connection_id)
            == s.on_connection_bound(connection_id),
        s.on_dial_failure(peer_id, connection_id).on_connection_bound(connection_id)
            == s.on_dial_failure(peer_id, connection_id),
{
    let failed = s.on_dial_failure(peer_id, connection_id);
    assert(failed.on_connection_bound(connection_id) =~~= failed);
}

/// No event other than a dial failure or the handshake of the attempt's own
/// connection id resolves a tracked upgrade dial attempt: connection
/// lifecycle events and external-address changes leave the attempts table
/// untouched, and an engine event only ever adds the entry of the dial it
/// itself issues.
pub proof fn lemma_attempt_preserved_by_unrelated_events(
    s: State,
    connection_id: u64,
    peer_id: u64,
    other_connection_id: u64,
    endpoint: ConnectedPoint,
    addr: Addr,
    event_source: u64,
    relayed_connection_id: u64,
    engine_event: HandlerEventModel,
    dial_connection_id: u64,
)
    requires
        s.direct_outgoing_connection_attempts.contains_key(connection_id),
        dial_connection_id != connection_id,
    ensures
        s.on_connection_established(
            peer_id,
            other_connection_id,
            endpoint,
        ).direct_outgoing_connection_attempts == s.direct_outgoing_connection_attempts,
        s.on_connection_closed(
            peer_id,
            other_connection_id,
            endpoint,
        ).direct_outgoing_connection_attempts == s.direct_outgoing_connection_attempts,
        s.on_new_external_addr(addr).direct_outgoing_connection_attempts
            == s.direct_outgoing_connection_attempts,
        s.on_expired_external_addr(addr).direct_outgoing_connection_attempts
            == s.direct_outgoing_connection_attempts,
        ({
            let after = s.on_handler_event(
                event_source,
                relayed_connection_id,
                engine_event,
                dial_connection_id,
            ).direct_outgoing_connection_attempts;
            &&& after.contains_key(connection_id)
            &&& after[connection_id] == s.direct_outgoing_connection_attempts[connection_id]
        }),
{
}

/// Swarm notifications that carry no connection or address payload — listener
/// lifecycle notifications — change nothing.
pub proof fn lemma_listener_notifications_are_ignored(s: State, event: SwarmEvent)
    requires
        match event {
            SwarmEvent::ConnectionEstablished { .. } => false,
            SwarmEvent::ConnectionClosed { .. } => false,
            SwarmEvent::DialFailure { .. } => false,
            SwarmEvent::NewExternalAddr(_) => false,
            SwarmEvent::ExpiredExternalAddr(_) => false,
            _ => true,
        },
    ensures
        s.on_swarm_event(event) == s,
{
}

/// The observed-address set a drained command carries is the external-address
/// cache with every relay-circuit address left out: each entry is a
/// non-relayed cached address annotated with the local peer id, and every
/// non-relayed cached address appears in it.
pub proof fn lemma_observed_addrs_resolution(ext: Seq<Addr>, local_peer_id: u64)
    ensures
        ({
            let obs = observed_addrs_of(ext, local_peer_id);
            &&& forall|k: int|
                0 <= k < obs.len() ==> {
                    &&& !(#[trigger] obs[k]).addr.relayed
                    &&& obs[k].local_peer_id == local_peer_id
                    &&& ext.contains(obs[k].addr)
                }
            &&& forall|k: int|
                0 <= k < ext.len() && !(#[trigger] ext[k]).relayed ==> obs.contains(
                    ObservedAddr { addr: ext[k], local_peer_id },
                )
        }),
    decreases ext.len(),
{
    if ext.len() > 0 {
        let prefix = ext.drop_last();
        lemma_observed_addrs_resolution(prefix, local_peer_id);
        let obs_prefix = observed_addrs_of(prefix, local_peer_id);
        let obs = observed_addrs_of(ext, local_peer_id);
        assert forall|k: int| 0 <= k < obs.len() implies {
            &&& !(#[trigger] obs[k]).addr.relayed
            &&& obs[k].local_peer_id == local_peer_id
            &&& ext.contains(obs[k].addr)
        } by {
            if k < obs_prefix.len() {
                assert(obs[k] == obs_prefix[k]);
                let i = choose|i: int| 0 <= i < prefix.len() && prefix[i] == obs_prefix[k].addr;
                assert(ext[i] == obs[k].addr);
            } else {
                assert(obs[k] == (ObservedAddr { addr: ext.last(), local_peer_id }));
                assert(ext[ext.len() - 1] == obs[k].addr);
            }
        }
        assert forall|k: int| 0 <= k < ext.len() && !(#[trigger] ext[k]).relayed implies obs
            .contains(ObservedAddr { addr: ext[k], local_peer_id }) by {
            let target = ObservedAddr { addr: ext[k], local_peer_id };
            if k < ext.len() - 1 {
                assert(prefix[k] == ext[k]);
                assert(obs_prefix.contains(target));
                let i = choose|i: int| 0 <= i < obs_prefix.len() && obs_prefix[i] == target;
                assert(obs[i] == target);
            } else {
                assert(obs[obs.len() - 1] == target);
            }
        }
    }
}

} // verus!

