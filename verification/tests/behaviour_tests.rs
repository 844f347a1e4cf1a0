use dcutr::{
    Action, Addr, Attempt, Behaviour, Command, ConnectedPoint, Endpoint, Error, Event,
    HandlerBinding, HandlerEvent, ObservedAddr, Role, SwarmEvent,
};

fn direct_addr(id: u64) -> Addr {
    Addr { id, relayed: false }
}

fn relayed_addr(id: u64) -> Addr {
    Addr { id, relayed: true }
}

fn inbound_relayed(local: u64, remote: u64) -> ConnectedPoint {
    ConnectedPoint::Listener {
        local_addr: relayed_addr(local),
        send_back_addr: relayed_addr(remote),
    }
}

fn inbound_direct(local: u64, remote: u64) -> ConnectedPoint {
    ConnectedPoint::Listener {
        local_addr: direct_addr(local),
        send_back_addr: direct_addr(remote),
    }
}

#[test]
fn fresh_inbound_relayed_connection_starts_one_upgrade() {
    let mut behaviour = Behaviour::new(99);
    behaviour.on_connection_established(7, 1, inbound_relayed(10, 11));
    assert_eq!(behaviour.queued_action_count(), 2);
    assert_eq!(
        behaviour.poll(),
        Some(Action::NotifyHandler {
            peer_id: 7,
            connection_id: 1,
            command: Command::Connect {
                attempt: 1,
                obs_addrs: vec![],
            },
        })
    );
    assert_eq!(
        behaviour.poll(),
        Some(Action::GenerateEvent(
            Event::InitiatedDirectConnectionUpgrade {
                remote_peer_id: 7,
                local_relayed_addr: relayed_addr(10),
            }
        ))
    );
    assert_eq!(behaviour.poll(), None);
}

#[test]
fn outbound_relayed_connection_starts_no_upgrade() {
    let mut behaviour = Behaviour::new(99);
    behaviour.on_connection_established(
        7,
        1,
        ConnectedPoint::Dialer {
            address: relayed_addr(10),
            role_override: Endpoint::Dialer,
        },
    );
    assert_eq!(behaviour.queued_action_count(), 0);
    assert_eq!(behaviour.poll(), None);
}

#[test]
fn existing_direct_connection_suppresses_upgrade() {
    let mut behaviour = Behaviour::new(99);
    behaviour.on_connection_established(7, 1, inbound_direct(20, 21));
    assert!(behaviour.tracks_direct_connection(7, 1));
    behaviour.on_connection_established(7, 2, inbound_relayed(10, 11));
    assert_eq!(behaviour.queued_action_count(), 0);
    assert_eq!(behaviour.poll(), None);
}

#[test]
fn direct_connection_to_other_peer_does_not_suppress_upgrade() {
    let mut behaviour = Behaviour::new(99);
    behaviour.on_connection_established(8, 1, inbound_direct(20, 21));
    behaviour.on_connection_established(7, 2, inbound_relayed(10, 11));
    assert_eq!(behaviour.queued_action_count(), 2);
}

#[test]
fn outbound_negotiation_records_initiator_attempt_and_dials() {
    let mut behaviour = Behaviour::new(99);
    behaviour.on_connection_established(5, 1, inbound_relayed(10, 11));
    behaviour.poll();
    behaviour.poll();
    behaviour.on_connection_handler_event(
        5,
        1,
        HandlerEvent::OutboundConnectNegotiated {
            remote_addrs: vec![direct_addr(30), direct_addr(31)],
            attempt: 1,
        },
        100,
    );
    assert_eq!(
        behaviour.poll(),
        Some(Action::Dial {
            peer_id: 5,
            addresses: vec![direct_addr(30), direct_addr(31)],
            role_override: true,
            connection_id: 100,
        })
    );
    assert_eq!(
        behaviour.tracked_attempt(100),
        Some(Attempt {
            relayed_connection_id: 1,
            role: Role::Initiator { attempt: 1 },
        })
    );
}

#[test]
fn inbound_negotiation_records_listener_attempt_and_dials() {
    let mut behaviour = Behaviour::new(99);
    behaviour.on_connection_handler_event(
        5,
        1,
        HandlerEvent::InboundConnectNegotiated {
            remote_addrs: vec![direct_addr(30)],
        },
        100,
    );
    assert_eq!(
        behaviour.poll(),
        Some(Action::Dial {
            peer_id: 5,
            addresses: vec![direct_addr(30)],
            role_override: false,
            connection_id: 100,
        })
    );
    assert_eq!(
        behaviour.tracked_attempt(100),
        Some(Attempt {
            relayed_connection_id: 1,
            role: Role::Listener,
        })
    );
}

#[test]
fn initiator_dial_failure_below_cap_retries_without_failure_event() {
    let mut behaviour = Behaviour::new(99);
    behaviour.on_connection_handler_event(
        5,
        1,
        HandlerEvent::OutboundConnectNegotiated {
            remote_addrs: vec![direct_addr(30)],
            attempt: 1,
        },
        100,
    );
    behaviour.poll();
    behaviour.on_dial_failure(Some(5), 100);
    assert_eq!(behaviour.tracked_attempt(100), None);
    assert_eq!(
        behaviour.poll(),
        Some(Action::NotifyHandler {
            peer_id: 5,
            connection_id: 1,
            command: Command::Connect {
                attempt: 2,
                obs_addrs: vec![],
            },
        })
    );
    assert_eq!(behaviour.poll(), None);
}

#[test]
fn listener_dial_failure_is_ignored() {
    let mut behaviour = Behaviour::new(99);
    behaviour.on_connection_handler_event(
        5,
        1,
        HandlerEvent::InboundConnectNegotiated {
            remote_addrs: vec![direct_addr(30)],
        },
        100,
    );
    behaviour.poll();
    behaviour.on_dial_failure(None, 100);
    assert_eq!(behaviour.tracked_attempt(100), None);
    assert_eq!(behaviour.queued_action_count(), 0);
    assert_eq!(behaviour.poll(), None);
}

#[test]
fn unrelated_dial_failure_is_ignored() {
    let mut behaviour = Behaviour::new(99);
    behaviour.on_dial_failure(Some(5), 123);
    assert_eq!(behaviour.queued_action_count(), 0);
    behaviour.on_dial_failure(None, 456);
    assert_eq!(behaviour.queued_action_count(), 0);
}

#[test]
fn three_failed_dials_surface_single_dial_failure() {
    let mut behaviour = Behaviour::new(99);
    behaviour.on_connection_established(5, 1, inbound_relayed(10, 11));
    assert_eq!(
        behaviour.poll(),
        Some(Action::NotifyHandler {
            peer_id: 5,
            connection_id: 1,
            command: Command::Connect {
                attempt: 1,
                obs_addrs: vec![],
            },
        })
    );
    behaviour.poll();
    for (attempt, dial_id) in [(1u8, 100u64), (2, 101), (3, 102)] {
        behaviour.on_connection_handler_event(
            5,
            1,
            HandlerEvent::OutboundConnectNegotiated {
                remote_addrs: vec![direct_addr(30)],
                attempt,
            },
            dial_id,
        );
        assert!(matches!(behaviour.poll(), Some(Action::Dial { .. })));
        behaviour.on_swarm_event(SwarmEvent::DialFailure {
            peer_id: Some(5),
            connection_id: dial_id,
        });
        if attempt < 3 {
            assert_eq!(
                behaviour.poll(),
                Some(Action::NotifyHandler {
                    peer_id: 5,
                    connection_id: 1,
                    command: Command::Connect {
                        attempt: attempt + 1,
                        obs_addrs: vec![],
                    },
                })
            );
        }
    }
    assert_eq!(behaviour.tracked_attempt(102), None);
    assert_eq!(
        behaviour.poll(),
        Some(Action::NotifyHandler {
            peer_id: 5,
            connection_id: 1,
            command: Command::UpgradeFinishedDontKeepAlive,
        })
    );
    assert_eq!(
        behaviour.poll(),
        Some(Action::GenerateEvent(Event::DirectConnectionUpgradeFailed {
            remote_peer_id: 5,
            error: Error::Dial,
        }))
    );
    assert_eq!(behaviour.poll(), None);
}

#[test]
fn closed_direct_connection_is_untracked() {
    let mut behaviour = Behaviour::new(99);
    behaviour.on_connection_established(7, 1, inbound_direct(20, 21));
    behaviour.on_connection_established(7, 2, inbound_direct(20, 22));
    assert!(behaviour.tracks_direct_connection(7, 1));
    assert!(behaviour.tracks_direct_connection(7, 2));
    behaviour.on_connection_closed(7, 1, inbound_direct(20, 21));
    assert!(!behaviour.tracks_direct_connection(7, 1));
    assert!(behaviour.tracks_direct_connection(7, 2));
    behaviour.on_connection_closed(7, 2, inbound_direct(20, 22));
    assert!(!behaviour.tracks_direct_connection(7, 2));
    behaviour.on_connection_established(7, 3, inbound_relayed(10, 11));
    assert_eq!(behaviour.queued_action_count(), 2);
}

#[test]
fn closed_relayed_connection_changes_nothing() {
    let mut behaviour = Behaviour::new(99);
    behaviour.on_connection_established(7, 1, inbound_direct(20, 21));
    behaviour.on_connection_closed(7, 2, inbound_relayed(10, 11));
    assert!(behaviour.tracks_direct_connection(7, 1));
    assert_eq!(behaviour.queued_action_count(), 0);
}

#[test]
fn upgrade_succeeded_reports_event_and_releases_relay() {
    let mut behaviour = Behaviour::new(99);
    behaviour.on_connection_handler_event(
        5,
        40,
        HandlerEvent::DirectConnectionUpgradeSucceeded {
            relayed_connection_id: 1,
        },
        0,
    );
    assert_eq!(
        behaviour.poll(),
        Some(Action::NotifyHandler {
            peer_id: 5,
            connection_id: 1,
            command: Command::UpgradeFinishedDontKeepAlive,
        })
    );
    assert_eq!(
        behaviour.poll(),
        Some(Action::GenerateEvent(
            Event::DirectConnectionUpgradeSucceeded { remote_peer_id: 5 }
        ))
    );
    assert_eq!(behaviour.poll(), None);
}

#[test]
fn inbound_connect_request_accepts_then_reports() {
    let mut behaviour = Behaviour::new(99);
    behaviour.on_swarm_event(SwarmEvent::NewExternalAddr(direct_addr(50)));
    behaviour.on_swarm_event(SwarmEvent::NewExternalAddr(relayed_addr(51)));
    behaviour.on_connection_handler_event(
        6,
        2,
        HandlerEvent::InboundConnectRequest {
            inbound_connect: 77,
            remote_addr: relayed_addr(12),
        },
        0,
    );
    assert_eq!(
        behaviour.poll(),
        Some(Action::NotifyHandler {
            peer_id: 6,
            connection_id: 2,
            command: Command::AcceptInboundConnect {
                inbound_connect: 77,
                obs_addrs: vec![ObservedAddr {
                    addr: direct_addr(50),
                    local_peer_id: 99,
                }],
            },
        })
    );
    assert_eq!(
        behaviour.poll(),
        Some(Action::GenerateEvent(
            Event::RemoteInitiatedDirectConnectionUpgrade {
                remote_peer_id: 6,
                remote_relayed_addr: relayed_addr(12),
            }
        ))
    );
}

#[test]
fn negotiation_failures_surface_handler_error() {
    let mut behaviour = Behaviour::new(99);
    behaviour.on_connection_handler_event(
        5,
        1,
        HandlerEvent::InboundNegotiationFailed { error: 42 },
        0,
    );
    assert_eq!(
        behaviour.poll(),
        Some(Action::GenerateEvent(Event::DirectConnectionUpgradeFailed {
            remote_peer_id: 5,
            error: Error::Handler(42),
        }))
    );
    behaviour.on_connection_handler_event(
        5,
        1,
        HandlerEvent::OutboundNegotiationFailed { error: 43 },
        0,
    );
    assert_eq!(
        behaviour.poll(),
        Some(Action::GenerateEvent(Event::DirectConnectionUpgradeFailed {
            remote_peer_id: 5,
            error: Error::Handler(43),
        }))
    );
}

#[test]
fn established_attempt_binds_direct_engine_exactly_once() {
    let mut behaviour = Behaviour::new(99);
    behaviour.on_connection_handler_event(
        5,
        1,
        HandlerEvent::OutboundConnectNegotiated {
            remote_addrs: vec![direct_addr(30)],
            attempt: 1,
        },
        100,
    );
    behaviour.poll();
    let binding = behaviour.handle_established_outbound_connection(
        5,
        direct_addr(30),
        Endpoint::Dialer,
        100,
    );
    assert_eq!(
        binding,
        HandlerBinding::Direct {
            relayed_connection_id: 1
        }
    );
    assert_eq!(behaviour.tracked_attempt(100), None);
    behaviour.on_dial_failure(Some(5), 100);
    assert_eq!(behaviour.queued_action_count(), 0);
}

#[test]
fn inbound_handshake_binds_engines_by_connection_kind() {
    let mut behaviour = Behaviour::new(99);
    let relayed_binding = behaviour.handle_established_inbound_connection(
        5,
        200,
        relayed_addr(10),
        relayed_addr(11),
    );
    assert_eq!(
        relayed_binding,
        HandlerBinding::Relayed {
            endpoint: inbound_relayed(10, 11),
        }
    );
    let dummy_binding = behaviour.handle_established_inbound_connection(
        5,
        201,
        direct_addr(20),
        direct_addr(21),
    );
    assert_eq!(dummy_binding, HandlerBinding::Dummy);
}

#[test]
fn pending_attempt_popped_by_inbound_handshake() {
    let mut behaviour = Behaviour::new(99);
    behaviour.on_connection_handler_event(
        5,
        1,
        HandlerEvent::InboundConnectNegotiated {
            remote_addrs: vec![direct_addr(30)],
        },
        100,
    );
    behaviour.poll();
    let binding =
        behaviour.handle_established_inbound_connection(5, 100, direct_addr(20), direct_addr(30));
    assert_eq!(
        binding,
        HandlerBinding::Direct {
            relayed_connection_id: 1
        }
    );
    assert_eq!(behaviour.tracked_attempt(100), None);
}
