use mesh_node::access::{AccessMessage, AccessPayload, OutboundPublishMessage};
use mesh_node::beacon::{unprovisioned_beacon, MESH_BEACON};
use mesh_node::config::{
    Address, AppKeyDetails, Configuration, ModelIdentifier, NetworkDetails, NetworkKeyHandle,
    Publication, UnicastAddress, Uuid,
};
use mesh_node::node::{
    Action, ControlAction, DeviceError, LinkEvent, MeshNodeMessage, Node, Recovery, State,
    Transition, Transmitter, Wait,
};

const UUID: [u8; 16] = [
    0x00, 0x11, 0x22, 0x33, 0x44, 0x55, 0x66, 0x77, 0x88, 0x99, 0xAA, 0xBB, 0xCC, 0xDD, 0xEE, 0xFF,
];

struct Radio {
    sent: Vec<Vec<u8>>,
    fail: bool,
}

impl Transmitter for Radio {
    fn transmit_bytes(&mut self, bytes: &[u8]) -> Result<(), DeviceError> {
        if self.fail {
            Err(DeviceError::Io)
        } else {
            self.sent.push(bytes.to_vec());
            Ok(())
        }
    }
}

fn received(bytes: &[u8]) -> heapless::Vec<u8, 384> {
    heapless::Vec::from_slice(bytes).unwrap()
}

fn network() -> NetworkDetails {
    NetworkDetails {
        key: NetworkKeyHandle(3),
        nid: 0x5a,
        publications: vec![
            Publication {
                element_address: UnicastAddress(0x0002),
                model_identifier: ModelIdentifier::SIG(0x1000),
                publish_address: Address(0xc001),
                app_key_index: 1,
                publish_ttl: Some(5),
            },
            Publication {
                element_address: UnicastAddress(0x0002),
                model_identifier: ModelIdentifier::Vendor(0x0059, 0x0001),
                publish_address: Address(0xc002),
                app_key_index: 7,
                publish_ttl: None,
            },
            Publication {
                element_address: UnicastAddress(0x0002),
                model_identifier: ModelIdentifier::SIG(0x1000),
                publish_address: Address(0xc003),
                app_key_index: 2,
                publish_ttl: Some(9),
            },
            Publication {
                element_address: UnicastAddress(0x0003),
                model_identifier: ModelIdentifier::SIG(0x1000),
                publish_address: Address(0xc004),
                app_key_index: 2,
                publish_ttl: Some(1),
            },
        ],
        app_keys: vec![
            AppKeyDetails { index: 0, aid: 0x10 },
            AppKeyDetails { index: 1, aid: 0x11 },
            AppKeyDetails { index: 2, aid: 0x12 },
            AppKeyDetails { index: 1, aid: 0x13 },
        ],
    }
}

fn config() -> Configuration {
    Configuration { network: Some(network()) }
}

fn publish(element: u16, model: ModelIdentifier, payload: &[u8]) -> OutboundPublishMessage {
    OutboundPublishMessage {
        element_address: UnicastAddress(element),
        model_identifier: model,
        payload: AccessPayload(payload.to_vec()),
    }
}

fn access(tag: u8) -> AccessMessage {
    AccessMessage {
        ttl: Some(tag),
        network_key: NetworkKeyHandle(0),
        ivi: 0,
        nid: 1,
        akf: false,
        aid: 2,
        src: UnicastAddress(0x0001),
        dst: Address(0xc000),
        payload: AccessPayload(vec![tag]),
    }
}

fn provisioned_node() -> Node {
    let mut node = Node::new();
    let start = node.run(true);
    assert_eq!(start, Transition { connect: true, notify: Some(State::Provisioned) });
    node
}

#[test]
fn beacon_has_the_fixed_layout() {
    let beacon = unprovisioned_beacon(&Uuid(UUID));
    let expected: [u8; 21] = [
        20, 0x2B, 0x00, 0x00, 0x11, 0x22, 0x33, 0x44, 0x55, 0x66, 0x77, 0x88, 0x99, 0xAA, 0xBB,
        0xCC, 0xDD, 0xEE, 0xFF, 0xA0, 0x40,
    ];
    assert_eq!(beacon.as_slice(), &expected[..]);
    assert_eq!(beacon.capacity(), 31);
}

#[test]
fn beacon_carries_the_uuid_at_offset_three() {
    let beacon = unprovisioned_beacon(&Uuid(UUID));
    assert_eq!(beacon.len(), 21);
    assert_eq!(beacon[0], 20);
    assert_eq!(beacon[1], MESH_BEACON);
    assert_eq!(beacon[2], 0);
    assert_eq!(&beacon[3..19], &UUID[..]);
    assert_eq!(&beacon[19..], &[0xA0, 0x40][..]);
}

#[test]
fn beacon_of_another_device_differs_only_in_the_uuid() {
    let beacon = unprovisioned_beacon(&Uuid([0xFF; 16]));
    assert_eq!(&beacon[..3], &[20, 0x2B, 0x00][..]);
    assert_eq!(&beacon[3..19], &[0xFF; 16][..]);
    assert_eq!(&beacon[19..], &[0xA0, 0x40][..]);
}

#[test]
fn new_node_is_unprovisioned() {
    let node = Node::new();
    assert_eq!(node.state(), State::Unprovisioned);
    assert!(!node.is_connected());
}

#[test]
fn each_state_races_its_own_sources() {
    let mut node = Node::new();
    assert_eq!(node.wait(), Wait { beacon: true, tick_millis: 3000, mailboxes: false });
    assert_eq!(
        node.transition(Ok(Some(State::Provisioning))),
        Ok(Transition { connect: false, notify: Some(State::Provisioning) })
    );
    assert_eq!(node.wait(), Wait { beacon: false, tick_millis: 1000, mailboxes: false });
    assert_eq!(
        node.transition(Ok(Some(State::Provisioned))),
        Ok(Transition { connect: true, notify: Some(State::Provisioned) })
    );
    assert_eq!(node.wait(), Wait { beacon: false, tick_millis: 250, mailboxes: true });
}

#[test]
fn unprovisioned_tick_repeats_the_beacon() {
    let mut node = Node::new();
    assert_eq!(node.loop_unprovisioned(Some(LinkEvent::Tick)), Action::TransmitBeacon);
    assert_eq!(node.do_loop(&config(), Some(LinkEvent::Tick)), Action::TransmitBeacon);
    assert_eq!(node.transition(Ok(None)), Ok(Transition { connect: false, notify: None }));
    assert_eq!(node.state(), State::Unprovisioned);
    let mut radio = Radio { sent: Vec::new(), fail: false };
    assert_eq!(node.transmit_unprovisioned_beacon(&mut radio, &Uuid(UUID)), Ok(()));
    assert_eq!(radio.sent.len(), 1);
    assert_eq!(
        radio.sent[0],
        vec![
            20, 0x2B, 0x00, 0x00, 0x11, 0x22, 0x33, 0x44, 0x55, 0x66, 0x77, 0x88, 0x99, 0xAA,
            0xBB, 0xCC, 0xDD, 0xEE, 0xFF, 0xA0, 0x40
        ]
    );
}

#[test]
fn failed_beacon_transmission_is_handed_on() {
    let node = Node::new();
    let mut radio = Radio { sent: Vec::new(), fail: true };
    assert_eq!(
        node.transmit_unprovisioned_beacon(&mut radio, &Uuid(UUID)),
        Err(DeviceError::Io)
    );
    assert!(radio.sent.is_empty());
}

#[test]
fn unprovisioned_inbound_goes_to_the_pipeline() {
    let node = Node::new();
    assert_eq!(
        node.loop_unprovisioned(Some(LinkEvent::Received(received(&[1, 2, 3])))),
        Action::ProcessInbound(received(&[1, 2, 3]))
    );
    assert_eq!(
        node.loop_unprovisioned(Some(LinkEvent::ReceiveFailed(DeviceError::Io))),
        Action::Nothing
    );
    assert_eq!(node.loop_unprovisioned(None), Action::Nothing);
}

#[test]
fn provisioning_tick_retransmits() {
    let node = Node::new();
    assert_eq!(node.loop_provisioning(Some(LinkEvent::Tick)), Action::TryRetransmit);
    assert_eq!(
        node.loop_provisioning(Some(LinkEvent::Received(received(&[9])))),
        Action::ProcessInbound(received(&[9]))
    );
    assert_eq!(
        node.loop_provisioning(Some(LinkEvent::ReceiveFailed(DeviceError::Io))),
        Action::Nothing
    );
    assert_eq!(node.loop_provisioning(None), Action::Nothing);
}

#[test]
fn provisioned_tick_retransmits_every_time() {
    let mut node = provisioned_node();
    let config = config();
    assert_eq!(node.do_loop(&config, Some(LinkEvent::Tick)), Action::TryRetransmit);
    assert_eq!(node.transition(Ok(None)), Ok(Transition { connect: false, notify: None }));
    assert_eq!(node.do_loop(&config, Some(LinkEvent::Tick)), Action::TryRetransmit);
    assert_eq!(node.transition(Ok(None)), Ok(Transition { connect: false, notify: None }));
    assert_eq!(node.do_loop(&config, Some(LinkEvent::Tick)), Action::TryRetransmit);
    assert_eq!(node.state(), State::Provisioned);
    assert_eq!(node.do_loop(&config, None), Action::Nothing);
}

#[test]
fn provisioned_once_connects_once() {
    let mut node = Node::new();
    let config = config();
    assert_eq!(
        node.do_loop(&config, Some(LinkEvent::Received(received(&[0xAA])))),
        Action::ProcessInbound(received(&[0xAA]))
    );
    assert_eq!(
        node.transition(Ok(Some(State::Provisioned))),
        Ok(Transition { connect: true, notify: Some(State::Provisioned) })
    );
    assert_eq!(node.state(), State::Provisioned);
    assert!(node.is_connected());
    assert_eq!(
        node.do_loop(&config, Some(LinkEvent::Received(received(&[0xBB])))),
        Action::ProcessInbound(received(&[0xBB]))
    );
    assert_eq!(
        node.transition(Ok(Some(State::Provisioned))),
        Ok(Transition { connect: false, notify: None })
    );
    assert_eq!(node.state(), State::Provisioned);
    assert!(node.is_connected());
}

#[test]
fn reentering_provisioned_does_not_connect_again() {
    let mut node = provisioned_node();
    assert_eq!(
        node.transition(Ok(Some(State::Unprovisioned))),
        Ok(Transition { connect: false, notify: Some(State::Unprovisioned) })
    );
    assert_eq!(node.state(), State::Unprovisioned);
    assert_eq!(
        node.transition(Ok(Some(State::Provisioned))),
        Ok(Transition { connect: false, notify: Some(State::Provisioned) })
    );
    assert_eq!(node.state(), State::Provisioned);
}

#[test]
fn error_outcome_changes_nothing() {
    let mut node = Node::new();
    assert_eq!(node.transition(Err(DeviceError::Protocol)), Err(DeviceError::Protocol));
    assert_eq!(node.state(), State::Unprovisioned);
    assert!(!node.is_connected());
    assert_eq!(node.transition(Err(DeviceError::Io)), Err(DeviceError::Io));
    assert_eq!(
        node.transition(Err(DeviceError::Configuration)),
        Err(DeviceError::Configuration)
    );
}

#[test]
fn startup_of_an_unprovisioned_device() {
    let mut node = Node::new();
    assert_eq!(
        node.run(false),
        Transition { connect: false, notify: Some(State::Unprovisioned) }
    );
    assert_eq!(node.state(), State::Unprovisioned);
    assert!(!node.is_connected());
}

#[test]
fn startup_of_a_provisioned_device_connects_at_once() {
    let mut node = Node::new();
    assert_eq!(node.run(true), Transition { connect: true, notify: Some(State::Provisioned) });
    assert_eq!(node.state(), State::Provisioned);
    assert!(node.is_connected());
    assert!(!node.connect_elements());
}

#[test]
fn connect_elements_asks_only_the_first_time() {
    let mut node = Node::new();
    assert!(node.connect_elements());
    assert!(!node.connect_elements());
    assert!(node.is_connected());
}

#[test]
fn load_failure_is_recovered_once() {
    assert_eq!(Node::recover(0), Recovery::ResetAndRetry);
    assert_eq!(Node::recover(1), Recovery::Fatal);
    assert_eq!(Node::recover(2), Recovery::Fatal);
}

#[test]
fn control_messages() {
    let node = Node::new();
    assert_eq!(node.control(MeshNodeMessage::ForceReset), ControlAction::NodeReset);
    assert_eq!(node.control(MeshNodeMessage::Shutdown), ControlAction::Nothing);
}

#[test]
fn publish_without_a_publication_is_dropped() {
    let node = provisioned_node();
    let config = config();
    assert_eq!(node.publish(&config, publish(0x0009, ModelIdentifier::SIG(0x1000), &[1])), None);
    assert_eq!(node.publish(&config, publish(0x0002, ModelIdentifier::SIG(0x1001), &[1])), None);
    assert_eq!(
        node.publish(&config, publish(0x0002, ModelIdentifier::Vendor(0x0059, 0x0002), &[1])),
        None
    );
}

#[test]
fn publish_without_a_network_is_dropped() {
    let node = Node::new();
    let config = Configuration { network: None };
    assert_eq!(node.publish(&config, publish(0x0002, ModelIdentifier::SIG(0x1000), &[1])), None);
}

#[test]
fn publish_without_the_app_key_is_dropped() {
    let node = provisioned_node();
    assert_eq!(
        node.publish(&config(), publish(0x0002, ModelIdentifier::Vendor(0x0059, 0x0001), &[1])),
        None
    );
}

#[test]
fn publish_resolves_through_the_publication() {
    let node = provisioned_node();
    let message = node
        .publish(&config(), publish(0x0002, ModelIdentifier::SIG(0x1000), &[0xde, 0xad]))
        .unwrap();
    assert_eq!(
        message,
        AccessMessage {
            ttl: Some(5),
            network_key: NetworkKeyHandle(3),
            ivi: 0,
            nid: 0x5a,
            akf: true,
            aid: 0x11,
            src: UnicastAddress(0x0002),
            dst: Address(0xc001),
            payload: AccessPayload(vec![0xde, 0xad]),
        }
    );
}

#[test]
fn publish_of_another_element_uses_its_own_publication() {
    let node = provisioned_node();
    let message =
        node.publish(&config(), publish(0x0003, ModelIdentifier::SIG(0x1000), &[7])).unwrap();
    assert_eq!(message.ttl, Some(1));
    assert_eq!(message.dst, Address(0xc004));
    assert_eq!(message.aid, 0x12);
    assert_eq!(message.src, UnicastAddress(0x0003));
}

#[test]
fn find_publication_takes_the_first_match() {
    let network = network();
    assert_eq!(
        network.find_publication(&UnicastAddress(0x0002), &ModelIdentifier::SIG(0x1000)),
        Some(network.publications[0])
    );
    assert_eq!(
        network.find_publication(&UnicastAddress(0x0003), &ModelIdentifier::SIG(0x1000)),
        Some(network.publications[3])
    );
    assert_eq!(
        network.find_publication(&UnicastAddress(0x0004), &ModelIdentifier::SIG(0x1000)),
        None
    );
}

#[test]
fn find_app_key_takes_the_first_match() {
    let network = network();
    assert_eq!(network.find_app_key_by_index(&1), Some(AppKeyDetails { index: 1, aid: 0x11 }));
    assert_eq!(network.find_app_key_by_index(&2), Some(AppKeyDetails { index: 2, aid: 0x12 }));
    assert_eq!(network.find_app_key_by_index(&7), None);
}

#[test]
fn provisioned_node_sends_outbound_in_order() {
    let mut node = provisioned_node();
    let config = config();
    assert_eq!(node.send(access(1)), Ok(()));
    assert_eq!(node.send(access(2)), Ok(()));
    assert_eq!(node.do_loop(&config, None), Action::ProcessOutbound(access(1)));
    assert_eq!(node.do_loop(&config, Some(LinkEvent::Tick)), Action::TryRetransmit);
    assert_eq!(node.do_loop(&config, None), Action::ProcessOutbound(access(2)));
    assert_eq!(node.do_loop(&config, None), Action::Nothing);
}

#[test]
fn provisioned_node_resolves_publish_messages() {
    let mut node = provisioned_node();
    let config = config();
    assert_eq!(node.send_publish(publish(0x0002, ModelIdentifier::SIG(0x1000), &[1])), Ok(()));
    assert_eq!(node.send_publish(publish(0x0009, ModelIdentifier::SIG(0x1000), &[2])), Ok(()));
    assert_eq!(node.send_publish(publish(0x0003, ModelIdentifier::SIG(0x1000), &[3])), Ok(()));
    assert_eq!(
        node.send_publish(publish(0x0003, ModelIdentifier::SIG(0x1000), &[4])),
        Err(publish(0x0003, ModelIdentifier::SIG(0x1000), &[4]))
    );
    match node.loop_provisioned(&config, None) {
        Action::ProcessOutbound(message) => {
            assert_eq!(message.dst, Address(0xc001));
            assert_eq!(message.payload, AccessPayload(vec![1]));
        }
        other => panic!("unexpected action {:?}", other),
    }
    assert_eq!(node.loop_provisioned(&config, None), Action::Nothing);
    match node.loop_provisioned(&config, None) {
        Action::ProcessOutbound(message) => {
            assert_eq!(message.dst, Address(0xc004));
            assert_eq!(message.payload, AccessPayload(vec![3]));
        }
        other => panic!("unexpected action {:?}", other),
    }
    assert_eq!(node.loop_provisioned(&config, None), Action::Nothing);
}

#[test]
fn outbound_goes_before_publish() {
    let mut node = provisioned_node();
    let config = config();
    assert_eq!(node.send_publish(publish(0x0002, ModelIdentifier::SIG(0x1000), &[1])), Ok(()));
    assert_eq!(node.send(access(8)), Ok(()));
    assert_eq!(node.loop_provisioned(&config, None), Action::ProcessOutbound(access(8)));
    match node.loop_provisioned(&config, None) {
        Action::ProcessOutbound(message) => assert_eq!(message.aid, 0x11),
        other => panic!("unexpected action {:?}", other),
    }
}

#[test]
fn mailboxes_wait_while_the_node_is_not_provisioned() {
    let mut node = Node::new();
    let config = config();
    assert_eq!(node.send(access(1)), Ok(()));
    assert_eq!(node.do_loop(&config, None), Action::Nothing);
    assert_eq!(node.transition(Ok(Some(State::Provisioning))).unwrap().notify, Some(State::Provisioning));
    assert_eq!(node.do_loop(&config, None), Action::Nothing);
    assert_eq!(node.transition(Ok(Some(State::Provisioned))).unwrap().connect, true);
    assert_eq!(node.do_loop(&config, None), Action::ProcessOutbound(access(1)));
}

#[test]
fn full_node_mailbox_hands_the_message_back() {
    let mut node = Node::new();
    assert_eq!(node.send(access(1)), Ok(()));
    assert_eq!(node.send(access(2)), Ok(()));
    assert_eq!(node.send(access(3)), Ok(()));
    assert_eq!(node.send(access(4)), Err(access(4)));
}
