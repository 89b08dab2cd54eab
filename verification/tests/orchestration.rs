use muxcore::addr::{Multiaddr, PeerId};
use muxcore::behaviour::{ConnectedPoint, NetworkBehaviourAction, PeriodicIdentifyBehaviour,
    PeriodicIdentifyBehaviourEvent};
use muxcore::identify::{IdentifyInfo, PeriodicIdentification, PeriodicIdentificationEvent,
    ProtocolsHandlerEvent, RemoteInfo};
use muxcore::muxing::Async;

fn sample_info() -> IdentifyInfo {
    IdentifyInfo {
        public_key: vec![1, 2, 3],
        protocol_version: "ipfs/1.0.0".to_string(),
        agent_version: "test/0.1".to_string(),
        listen_addrs: vec![Multiaddr::new(vec![4, 10, 0, 0, 1])],
        protocols: vec!["/ipfs/id/1.0.0".to_string()],
    }
}

fn peer_a() -> PeerId {
    PeerId::new(vec![0xaa, 0x01])
}

#[test]
fn identified_event_surfaces_once() {
    let mut behaviour = PeriodicIdentifyBehaviour::new();
    let observed = Multiaddr::new(vec![4, 192, 0, 2, 1]);
    behaviour.inject_connected(
        peer_a(),
        ConnectedPoint::Dialer { address: Multiaddr::new(vec![4, 10, 1, 1, 1]) },
    );
    behaviour.inject_node_event(
        peer_a(),
        PeriodicIdentificationEvent::Identified(RemoteInfo {
            info: sample_info(),
            observed_addr: observed.clone(),
        }),
    );
    // The first poll surfaces the event for that peer with exactly the
    // reported information and observed address.
    let polled = behaviour.poll();
    assert_eq!(
        polled,
        Async::Ready(NetworkBehaviourAction::GenerateEvent(
            PeriodicIdentifyBehaviourEvent::Identified {
                peer_id: peer_a(),
                info: sample_info(),
                observed_addr: observed,
            }
        ))
    );
    // The queue is drained: a second immediate poll has nothing.
    assert_eq!(behaviour.poll(), Async::NotReady);
}

#[test]
fn unmatched_handler_events_are_ignored() {
    let mut behaviour = PeriodicIdentifyBehaviour::new();
    behaviour.inject_node_event(peer_a(), PeriodicIdentificationEvent::IdentificationError(7));
    assert_eq!(behaviour.poll(), Async::NotReady);
}

#[test]
fn behaviour_queue_is_first_in_first_out() {
    let mut behaviour = PeriodicIdentifyBehaviour::new();
    let first = Multiaddr::new(vec![1]);
    let second = Multiaddr::new(vec![2]);
    behaviour.inject_node_event(
        peer_a(),
        PeriodicIdentificationEvent::Identified(RemoteInfo {
            info: sample_info(),
            observed_addr: first.clone(),
        }),
    );
    behaviour.inject_node_event(
        peer_a(),
        PeriodicIdentificationEvent::Identified(RemoteInfo {
            info: sample_info(),
            observed_addr: second.clone(),
        }),
    );
    let order: Vec<Multiaddr> = (0..2)
        .map(|_| match behaviour.poll() {
            Async::Ready(NetworkBehaviourAction::GenerateEvent(
                PeriodicIdentifyBehaviourEvent::Identified { observed_addr, .. },
            )) => observed_addr,
            other => panic!("expected an identified event, got {:?}", other),
        })
        .collect();
    assert_eq!(order, vec![first, second]);
    assert_eq!(behaviour.poll(), Async::NotReady);
}

#[test]
fn lifecycle_notifications_change_nothing() {
    let mut behaviour = PeriodicIdentifyBehaviour::new();
    let endpoint = ConnectedPoint::Listener { listen_addr: Multiaddr::new(vec![4, 0, 0, 0, 0]) };
    behaviour.inject_connected(peer_a(), endpoint.clone());
    behaviour.inject_disconnected(&peer_a(), endpoint);
    assert_eq!(behaviour.poll(), Async::NotReady);
}

#[test]
fn fresh_handler_has_nothing_to_report() {
    let mut behaviour = PeriodicIdentifyBehaviour::new();
    let mut handler: PeriodicIdentification = behaviour.new_handler();
    assert_eq!(handler.poll(), Async::NotReady);
}

#[test]
fn handler_requests_outbound_once_per_tick() {
    let mut handler = PeriodicIdentification::new();
    handler.tick();
    // A round that is due twice is still one round.
    handler.tick();
    assert_eq!(handler.poll(), Async::Ready(ProtocolsHandlerEvent::OutboundSubstreamRequest));
    assert_eq!(handler.poll(), Async::NotReady);
}

#[test]
fn handler_emits_events_before_requests() {
    let mut handler = PeriodicIdentification::new();
    handler.tick();
    let remote = RemoteInfo {
        info: sample_info(),
        observed_addr: Multiaddr::new(vec![4, 203, 0, 113, 9]),
    };
    handler.on_identified(remote.clone());
    handler.on_identification_error(11);
    // Queued protocol events drain first, oldest first; the due round asks
    // for its substream only after that.
    assert_eq!(
        handler.poll(),
        Async::Ready(ProtocolsHandlerEvent::Custom(PeriodicIdentificationEvent::Identified(
            remote
        )))
    );
    assert_eq!(
        handler.poll(),
        Async::Ready(ProtocolsHandlerEvent::Custom(
            PeriodicIdentificationEvent::IdentificationError(11)
        ))
    );
    assert_eq!(handler.poll(), Async::Ready(ProtocolsHandlerEvent::OutboundSubstreamRequest));
    assert_eq!(handler.poll(), Async::NotReady);
}
