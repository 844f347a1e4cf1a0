use dcutr::{
    Action, ActionBuilder, Addr, Behaviour, Command, ConnectedPoint, Event, ObservedAddr,
    SwarmEvent,
};

fn direct_addr(id: u64) -> Addr {
    Addr { id, relayed: false }
}

fn relayed_addr(id: u64) -> Addr {
    Addr { id, relayed: true }
}

#[test]
fn done_builder_passes_action_through() {
    let action = Action::GenerateEvent(Event::DirectConnectionUpgradeSucceeded {
        remote_peer_id: 5,
    });
    let builder = ActionBuilder::from(action.clone());
    let external_addresses = vec![direct_addr(1)];
    assert_eq!(builder.build(9, &external_addresses), action);
}

#[test]
fn connect_builder_resolves_filtered_annotated_addresses() {
    let builder = ActionBuilder::Connect {
        attempt: 2,
        connection_id: 4,
        peer_id: 6,
    };
    let external_addresses = vec![
        direct_addr(1),
        relayed_addr(2),
        direct_addr(3),
        relayed_addr(4),
    ];
    assert_eq!(
        builder.build(9, &external_addresses),
        Action::NotifyHandler {
            peer_id: 6,
            connection_id: 4,
            command: Command::Connect {
                attempt: 2,
                obs_addrs: vec![
                    ObservedAddr {
                        addr: direct_addr(1),
                        local_peer_id: 9,
                    },
                    ObservedAddr {
                        addr: direct_addr(3),
                        local_peer_id: 9,
                    },
                ],
            },
        }
    );
}

#[test]
fn accept_builder_resolves_addresses_at_drain_time() {
    let builder = ActionBuilder::AcceptInboundConnect {
        inbound_connect: 8,
        connection_id: 4,
        peer_id: 6,
    };
    let external_addresses = vec![relayed_addr(2)];
    assert_eq!(
        builder.build(9, &external_addresses),
        Action::NotifyHandler {
            peer_id: 6,
            connection_id: 4,
            command: Command::AcceptInboundConnect {
                inbound_connect: 8,
                obs_addrs: vec![],
            },
        }
    );
}

#[test]
fn queued_connect_sees_addresses_reported_after_enqueue() {
    let mut behaviour = Behaviour::new(9);
    behaviour.on_connection_established(
        7,
        1,
        ConnectedPoint::Listener {
            local_addr: relayed_addr(10),
            send_back_addr: relayed_addr(11),
        },
    );
    behaviour.on_swarm_event(SwarmEvent::NewExternalAddr(direct_addr(50)));
    assert_eq!(
        behaviour.poll(),
        Some(Action::NotifyHandler {
            peer_id: 7,
            connection_id: 1,
            command: Command::Connect {
                attempt: 1,
                obs_addrs: vec![ObservedAddr {
                    addr: direct_addr(50),
                    local_peer_id: 9,
                }],
            },
        })
    );
}

#[test]
fn external_address_cache_deduplicates_and_expires() {
    let mut behaviour = Behaviour::new(9);
    behaviour.on_swarm_event(SwarmEvent::NewExternalAddr(direct_addr(50)));
    behaviour.on_swarm_event(SwarmEvent::NewExternalAddr(direct_addr(51)));
    behaviour.on_swarm_event(SwarmEvent::NewExternalAddr(direct_addr(50)));
    assert_eq!(
        behaviour.external_addresses(),
        &vec![direct_addr(50), direct_addr(51)]
    );
    behaviour.on_swarm_event(SwarmEvent::ExpiredExternalAddr(direct_addr(50)));
    assert_eq!(behaviour.external_addresses(), &vec![direct_addr(51)]);
    behaviour.on_swarm_event(SwarmEvent::ExpiredExternalAddr(direct_addr(52)));
    assert_eq!(behaviour.external_addresses(), &vec![direct_addr(51)]);
}

#[test]
fn listener_lifecycle_notifications_are_ignored() {
    let mut behaviour = Behaviour::new(9);
    behaviour.on_swarm_event(SwarmEvent::AddressChange);
    behaviour.on_swarm_event(SwarmEvent::ListenFailure);
    behaviour.on_swarm_event(SwarmEvent::NewListener);
    behaviour.on_swarm_event(SwarmEvent::NewListenAddr);
    behaviour.on_swarm_event(SwarmEvent::ExpiredListenAddr);
    behaviour.on_swarm_event(SwarmEvent::ListenerError);
    behaviour.on_swarm_event(SwarmEvent::ListenerClosed);
    assert_eq!(behaviour.queued_action_count(), 0);
    assert_eq!(behaviour.external_addresses(), &Vec::new());
}

#[test]
fn new_behaviour_is_empty() {
    let mut behaviour = Behaviour::new(9);
    assert_eq!(behaviour.local_peer_id(), 9);
    assert_eq!(behaviour.queued_action_count(), 0);
    assert_eq!(behaviour.poll(), None);
    assert_eq!(behaviour.tracked_attempt(0), None);
    assert!(!behaviour.tracks_direct_connection(0, 0));
}
