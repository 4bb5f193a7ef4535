//! The node: its provisioning state, its two mailboxes, and the decisions of
//! its event loop.
//!
//! The node never waits and never talks to the radio or the pipeline itself.
//! A driver races the sources that [`Node::wait`] names, hands the winner to
//! [`Node::do_loop`], performs the [`Action`] that comes back, and reports the
//! outcome to [`Node::transition`].

use crate::access::{AccessMessage, OutboundPublishMessage};
use crate::beacon::{advertisement_bytes, beacon_layout, unprovisioned_beacon};
use crate::config::{
    lemma_first_app_key, lemma_first_publication, Configuration, NetworkDetails, Uuid,
};
use crate::mailbox::{
    has_room, rest_of, send_result, send_to, OutboundChannel, OutboundPublishChannel,
};
use core::task::{Context, Poll};
use vstd::prelude::*;

verus! {

/// The period of the beacon of an unprovisioned node, in milliseconds.
pub const BEACON_PERIOD_MILLIS: u64 = 3000;

/// The period of retransmission while provisioning, in milliseconds.
pub const PROVISIONING_RETRANSMIT_MILLIS: u64 = 1000;

/// The time a provisioned node waits for an acknowledgement before it
/// retransmits, in milliseconds.
pub const ACK_TIMEOUT_MILLIS: u64 = 250;

/// The provisioning phase of the node.
#[derive(Clone, Copy, Debug, PartialEq, Eq, Structural)]
pub enum State {
    Unprovisioned,
    Provisioning,
    Provisioned,
}

/// An out-of-band command to the node.
#[derive(Clone, Copy, Debug, PartialEq, Eq, Structural)]
pub enum MeshNodeMessage {
    ForceReset,
    Shutdown,
}

/// Why an operation of the device failed.
#[derive(Clone, Copy, Debug, PartialEq, Eq, Structural)]
pub enum DeviceError {
    /// The radio could not send or receive.
    Io,
    /// The stored configuration could not be loaded.
    Configuration,
    /// The pipeline refused a message or could not retransmit.
    Protocol,
}

/// Sends raw bytes over the radio.
pub trait Transmitter {
    /// What a transmitter says of one call of
    /// [`Transmitter::transmit_bytes`] that was handed `bytes`, returned
    /// `result` and left the transmitter as `after`. Each transmitter defines
    /// this for itself; one that does not says nothing. Callers use it to
    /// state which bytes they hand over.
    open spec fn transmitted(
        &self,
        after: &Self,
        bytes: Seq<u8>,
        result: Result<(), DeviceError>,
    ) -> bool {
        true
    }

    fn transmit_bytes(&mut self, bytes: &[u8]) -> (r: Result<(), DeviceError>)
        ensures
            old(self).transmitted(final(self), bytes@, r),
    ;
}

/// Receives one message from the radio.
pub trait Receiver {
    fn receive_bytes(&mut self) -> Result<heapless::Vec<u8, 384>, DeviceError>;
}

/// What the radio or the timer brought.
#[derive(Debug, PartialEq, Eq)]
pub enum LinkEvent {
    /// The receiver delivered a message.
    Received(heapless::Vec<u8, 384>),
    /// The receiver failed.
    ReceiveFailed(DeviceError),
    /// The periodic timer fired first.
    Tick,
}

/// What the driver has to do for the node.
#[derive(Debug, PartialEq, Eq)]
pub enum Action {
    /// Nothing; the iteration is over.
    Nothing,
    /// Broadcast the unprovisioned beacon.
    TransmitBeacon,
    /// Hand the received bytes to the pipeline.
    ProcessInbound(heapless::Vec<u8, 384>),
    /// Ask the pipeline to send its last unacknowledged message again.
    TryRetransmit,
    /// Hand the message to the pipeline for sending.
    ProcessOutbound(AccessMessage),
}

/// What the driver races in one iteration.
#[derive(Clone, Copy, Debug, PartialEq, Eq, Structural)]
pub struct Wait {
    /// Whether the beacon is broadcast before the wait begins.
    pub beacon: bool,
    /// The period of the timer, in milliseconds.
    pub tick_millis: u64,
    /// Whether the two mailboxes take part in the race.
    pub mailboxes: bool,
}

/// What follows from the outcome of an iteration.
#[derive(Clone, Copy, Debug, PartialEq, Eq, Structural)]
pub struct Transition {
    /// Whether the elements of the application are to be connected now.
    pub connect: bool,
    /// The state that the pipeline is to be told of, if it changed.
    pub notify: Option<State>,
}

/// What the driver does on a control message.
#[derive(Clone, Copy, Debug, PartialEq, Eq, Structural)]
pub enum ControlAction {
    /// Reset the stored configuration of the node.
    NodeReset,
    /// Nothing.
    Nothing,
}

/// What the driver does when the stored configuration cannot be loaded.
#[derive(Clone, Copy, Debug, PartialEq, Eq, Structural)]
pub enum Recovery {
    /// Reset the configuration and load it once more.
    ResetAndRetry,
    /// Give up with the error.
    Fatal,
}

/// What a node in state `state` races.
pub open spec fn wait_of(state: State) -> Wait {
    match state {
        State::Unprovisioned => Wait {
            beacon: true,
            tick_millis: BEACON_PERIOD_MILLIS,
            mailboxes: false,
        },
        State::Provisioning => Wait {
            beacon: false,
            tick_millis: PROVISIONING_RETRANSMIT_MILLIS,
            mailboxes: false,
        },
        State::Provisioned => Wait {
            beacon: false,
            tick_millis: ACK_TIMEOUT_MILLIS,
            mailboxes: true,
        },
    }
}

/// What an unprovisioned node does on an event: received bytes go to the
/// pipeline, a tick repeats the beacon, a failed receive is passed over.
pub open spec fn unprovisioned_action(event: Option<LinkEvent>) -> Action {
    match event {
        Some(LinkEvent::Received(bytes)) => Action::ProcessInbound(bytes),
        Some(LinkEvent::Tick) => Action::TransmitBeacon,
        _ => Action::Nothing,
    }
}

/// What a node does on an event of the radio or the timer while it is being
/// provisioned, or once it is: received bytes go to the pipeline, a tick asks
/// for a retransmission, a failed receive is passed over.
pub open spec fn link_action(event: LinkEvent) -> Action {
    match event {
        LinkEvent::Received(bytes) => Action::ProcessInbound(bytes),
        LinkEvent::Tick => Action::TryRetransmit,
        LinkEvent::ReceiveFailed(_) => Action::Nothing,
    }
}

/// What a node that is being provisioned does on an event.
pub open spec fn provisioning_action(event: Option<LinkEvent>) -> Action {
    match event {
        Some(e) => link_action(e),
        None => Action::Nothing,
    }
}

/// The access message that a publish message resolves to in `network`: the
/// first publication of its model on its element says where it goes and how
/// far, and the application key that the publication names says how it is
/// keyed. Without such a publication, or without its key, there is none.
pub open spec fn resolved_in(network: NetworkDetails, publish: OutboundPublishMessage) -> Option<
    AccessMessage,
> {
    match network.publication_for(publish.element_address, publish.model_identifier) {
        Some(publication) => match network.app_key(publication.app_key_index) {
            Some(app_key) => Some(
                AccessMessage {
                    ttl: publication.publish_ttl,
                    network_key: network.key,
                    ivi: 0,
                    nid: network.nid,
                    akf: true,
                    aid: app_key.aid,
                    src: publish.element_address,
                    dst: publication.publish_address,
                    payload: publish.payload,
                },
            ),
            None => None,
        },
        None => None,
    }
}

/// The access message that a publish message resolves to under `config`.
pub open spec fn resolved(config: Configuration, publish: OutboundPublishMessage) -> Option<
    AccessMessage,
> {
    match config.network {
        Some(network) => resolved_in(network, publish),
        None => None,
    }
}

/// What the driver does with a publish message: send what it resolves to, or
/// nothing if it resolves to nothing.
pub open spec fn publish_action(config: Configuration, publish: OutboundPublishMessage) -> Action {
    match resolved(config, publish) {
        Some(message) => Action::ProcessOutbound(message),
        None => Action::Nothing,
    }
}

/// What a provisioned node does: an event of the radio or the timer is
/// handled as such; without one, the oldest outbound message is sent, or else
/// the oldest publish message is resolved and sent.
pub open spec fn provisioned_action(
    config: Configuration,
    event: Option<LinkEvent>,
    outbound: Seq<AccessMessage>,
    publish_outbound: Seq<OutboundPublishMessage>,
) -> Action {
    match event {
        Some(e) => link_action(e),
        None => if outbound.len() > 0 {
            Action::ProcessOutbound(outbound.first())
        } else if publish_outbound.len() > 0 {
            publish_action(config, publish_outbound.first())
        } else {
            Action::Nothing
        },
    }
}

/// The outbound mailbox after an iteration of a provisioned node.
pub open spec fn outbound_after(event: Option<LinkEvent>, outbound: Seq<AccessMessage>) -> Seq<
    AccessMessage,
> {
    if event is None {
        rest_of(outbound)
    } else {
        outbound
    }
}

/// The publish mailbox after an iteration of a provisioned node: its oldest
/// message leaves only when no event came and no outbound message waited.
pub open spec fn publish_after(
    event: Option<LinkEvent>,
    outbound: Seq<AccessMessage>,
    publish_outbound: Seq<OutboundPublishMessage>,
) -> Seq<OutboundPublishMessage> {
    if event is None && outbound.len() == 0 {
        rest_of(publish_outbound)
    } else {
        publish_outbound
    }
}

/// The state after an iteration whose outcome is `outcome`.
pub open spec fn state_after(state: State, outcome: Option<State>) -> State {
    match outcome {
        Some(next) => next,
        None => state,
    }
}

/// Whether the elements are connected on this outcome: on the first
/// transition into `Provisioned`, and never again.
pub open spec fn connects(state: State, connected: bool, outcome: Option<State>) -> bool {
    outcome == Some(State::Provisioned) && state != State::Provisioned && !connected
}

/// What follows from an outcome: the elements are connected on the first
/// transition into `Provisioned`, and the pipeline is told of the new state
/// if it differs from the old one.
pub open spec fn transition_of(state: State, connected: bool, outcome: Option<State>) -> Transition {
    Transition {
        connect: connects(state, connected, outcome),
        notify: if state_after(state, outcome) != state {
            outcome
        } else {
            None
        },
    }
}

/// What the driver does on a control message: a forced reset resets the
/// stored configuration, a shutdown asks nothing of it.
pub open spec fn control_action(message: MeshNodeMessage) -> ControlAction {
    match message {
        MeshNodeMessage::ForceReset => ControlAction::NodeReset,
        MeshNodeMessage::Shutdown => ControlAction::Nothing,
    }
}

pub struct Node {
    state: State,
    connected: bool,
    outbound: OutboundChannel,
    publish_outbound: OutboundPublishChannel,
}

impl Node {
    /// The provisioning phase of the node.
    pub closed spec fn phase(&self) -> State {
        self.state
    }

    /// Whether the elements of the application have been connected.
    pub closed spec fn connected(&self) -> bool {
        self.connected
    }

    /// The access messages that wait to be sent, oldest first.
    pub closed spec fn outbound_queue(&self) -> Seq<AccessMessage> {
        self.outbound@
    }

    /// The publish messages that wait to be resolved, oldest first.
    pub closed spec fn publish_queue(&self) -> Seq<OutboundPublishMessage> {
        self.publish_outbound@
    }

    /// A node that is unprovisioned, with empty mailboxes and no elements
    /// connected.
    pub fn new() -> (node: Self)
        ensures
            node.phase() == State::Unprovisioned,
            !node.connected(),
            node.outbound_queue() == Seq::<AccessMessage>::empty(),
            node.publish_queue() == Seq::<OutboundPublishMessage>::empty(),
    {
        Node {
            state: State::Unprovisioned,
            connected: false,
            outbound: OutboundChannel::new(),
            publish_outbound: OutboundPublishChannel::new(),
        }
    }

    pub fn state(&self) -> (state: State)
        ensures
            state == self.phase(),
    {
        self.state
    }

    pub fn is_connected(&self) -> (connected: bool)
        ensures
            connected == self.connected(),
    {
        self.connected
    }

    /// Queues an access message for sending. A full mailbox takes nothing
    /// and hands the message back: the producer has to wait and try again.
    pub fn send(&mut self, message: AccessMessage) -> (r: Result<(), AccessMessage>)
        ensures
            final(self).outbound_queue() == send_to(old(self).outbound_queue(), message),
            r == send_result(old(self).outbound_queue(), message),
            final(self).publish_queue() == old(self).publish_queue(),
            final(self).phase() == old(self).phase(),
            final(self).connected() == old(self).connected(),
    {
        self.outbound.send(message)
    }

    /// Queues a message of a model for publication. A full mailbox takes
    /// nothing and hands the message back.
    pub fn send_publish(&mut self, message: OutboundPublishMessage) -> (r: Result<
        (),
        OutboundPublishMessage,
    >)
        ensures
            final(self).publish_queue() == send_to(old(self).publish_queue(), message),
            r == send_result(old(self).publish_queue(), message),
            final(self).outbound_queue() == old(self).outbound_queue(),
            final(self).phase() == old(self).phase(),
            final(self).connected() == old(self).connected(),
    {
        self.publish_outbound.send(message)
    }

    /// Asks, without blocking, whether [`Node::send`] would be taken. If not,
    /// the task that polls with `cx` is woken once the node has taken an
    /// access message out.
    pub fn poll_ready_to_send(&mut self, cx: &mut Context<'_>) -> (r: Poll<()>)
        ensures
            r is Ready == has_room(old(self).outbound_queue().len()),
            final(self).outbound_queue() == old(self).outbound_queue(),
            final(self).publish_queue() == old(self).publish_queue(),
            final(self).phase() == old(self).phase(),
            final(self).connected() == old(self).connected(),
    {
        self.outbound.poll_ready_to_send(cx)
    }

    /// Asks, without blocking, whether [`Node::send_publish`] would be taken.
    /// If not, the task that polls with `cx` is woken once the node has taken
    /// a publish message out.
    pub fn poll_ready_to_publish(&mut self, cx: &mut Context<'_>) -> (r: Poll<()>)
        ensures
            r is Ready == has_room(old(self).publish_queue().len()),
            final(self).outbound_queue() == old(self).outbound_queue(),
            final(self).publish_queue() == old(self).publish_queue(),
            final(self).phase() == old(self).phase(),
            final(self).connected() == old(self).connected(),
    {
        self.publish_outbound.poll_ready_to_send(cx)
    }

    /// Asks, without blocking, whether a message waits in one of the two
    /// mailboxes. If not, the task that polls with `cx` is woken once one is
    /// sent to either.
    pub fn poll_mailboxes(&mut self, cx: &mut Context<'_>) -> (r: Poll<()>)
        ensures
            r is Ready == (old(self).outbound_queue().len() != 0 || old(
                self).publish_queue().len() != 0),
            final(self).outbound_queue() == old(self).outbound_queue(),
            final(self).publish_queue() == old(self).publish_queue(),
            final(self).phase() == old(self).phase(),
            final(self).connected() == old(self).connected(),
    {
        let outbound = self.outbound.poll_ready_to_receive(cx);
        let publish = self.publish_outbound.poll_ready_to_receive(cx);
        match (outbound, publish) {
            (Poll::Pending, Poll::Pending) => Poll::Pending,
            _ => Poll::Ready(()),
        }
    }

    /// What the driver races in the next iteration.
    pub fn wait(&self) -> (wait: Wait)
        ensures
            wait == wait_of(self.phase()),
    {
        match self.state {
            State::Unprovisioned => Wait {
                beacon: true,
                tick_millis: BEACON_PERIOD_MILLIS,
                mailboxes: false,
            },
            State::Provisioning => Wait {
                beacon: false,
                tick_millis: PROVISIONING_RETRANSMIT_MILLIS,
                mailboxes: false,
            },
            State::Provisioned => Wait {
                beacon: false,
                tick_millis: ACK_TIMEOUT_MILLIS,
                mailboxes: true,
            },
        }
    }

    /// Resolves a publish message into an access message under the current
    /// configuration. A message without a matching publication, or whose
    /// publication names a key that is not there, is dropped: that is no
    /// error.
    pub fn publish(&self, config: &Configuration, publish: OutboundPublishMessage) -> (message:
        Option<AccessMessage>)
        ensures
            message == resolved(*config, publish),
    {
        if let Some(network) = &config.network {
            if let Some(publication) = network.find_publication(
                &publish.element_address,
                &publish.model_identifier,
            ) {
                if let Some(app_key_details) = network.find_app_key_by_index(
                    &publication.app_key_index,
                ) {
                    let message = AccessMessage {
                        ttl: publication.publish_ttl,
                        network_key: network.key,
                        ivi: 0,
                        nid: network.nid,
                        akf: true,
                        aid: app_key_details.aid,
                        src: publish.element_address,
                        dst: publication.publish_address,
                        payload: publish.payload,
                    };
                    return Some(message);
                }
            }
        }
        None
    }

    /// The decision of an unprovisioned node on what won the race.
    pub fn loop_unprovisioned(&self, event: Option<LinkEvent>) -> (action: Action)
        ensures
            action == unprovisioned_action(event),
    {
        match event {
            Some(LinkEvent::Received(msg)) => Action::ProcessInbound(msg),
            Some(LinkEvent::Tick) => Action::TransmitBeacon,
            _ => Action::Nothing,
        }
    }

    /// Builds the unprovisioned beacon of the device and hands it to the
    /// transmitter, once. The result is the transmitter's.
    pub fn transmit_unprovisioned_beacon<TX: Transmitter>(
        &self,
        transmitter: &mut TX,
        uuid: &Uuid,
    ) -> (r: Result<(), DeviceError>)
        ensures
            old(transmitter).transmitted(final(transmitter), beacon_layout(*uuid), r),
    {
        let adv_data = unprovisioned_beacon(uuid);
        transmitter.transmit_bytes(advertisement_bytes(&adv_data))
    }

    /// The decision of a node that is being provisioned on what won the race.
    pub fn loop_provisioning(&self, event: Option<LinkEvent>) -> (action: Action)
        ensures
            action == provisioning_action(event),
    {
        match event {
            Some(LinkEvent::Received(inbound)) => Action::ProcessInbound(inbound),
            Some(LinkEvent::Tick) => Action::TryRetransmit,
            _ => Action::Nothing,
        }
    }

    /// The decision of a provisioned node. An event of the radio or the timer
    /// leaves the mailboxes untouched. Without one, the node takes the oldest
    /// outbound message, or, if none waits, the oldest publish message, which
    /// it resolves under `config`.
    pub fn loop_provisioned(&mut self, config: &Configuration, event: Option<LinkEvent>) -> (action:
        Action)
        ensures
            action == provisioned_action(
                *config,
                event,
                old(self).outbound_queue(),
                old(self).publish_queue(),
            ),
            final(self).outbound_queue() == outbound_after(event, old(self).outbound_queue()),
            final(self).publish_queue() == publish_after(
                event,
                old(self).outbound_queue(),
                old(self).publish_queue(),
            ),
            final(self).phase() == old(self).phase(),
            final(self).connected() == old(self).connected(),
    {
        match event {
            Some(LinkEvent::Received(inbound)) => Action::ProcessInbound(inbound),
            Some(LinkEvent::Tick) => Action::TryRetransmit,
            Some(LinkEvent::ReceiveFailed(_)) => Action::Nothing,
            None => {
                if let Some(outbound) = self.outbound.next() {
                    Action::ProcessOutbound(outbound)
                } else if let Some(publish) = self.publish_outbound.next() {
                    match self.publish(config, publish) {
                        Some(message) => Action::ProcessOutbound(message),
                        None => Action::Nothing,
                    }
                } else {
                    Action::Nothing
                }
            },
        }
    }

    /// One iteration's decision: that of the loop of the current state.
    pub fn do_loop(&mut self, config: &Configuration, event: Option<LinkEvent>) -> (action: Action)
        ensures
            final(self).phase() == old(self).phase(),
            final(self).connected() == old(self).connected(),
            old(self).phase() == State::Unprovisioned ==> action == unprovisioned_action(event),
            old(self).phase() == State::Provisioning ==> action == provisioning_action(event),
            old(self).phase() == State::Provisioned ==> action == provisioned_action(
                *config,
                event,
                old(self).outbound_queue(),
                old(self).publish_queue(),
            ),
            final(self).outbound_queue() == if old(self).phase() == State::Provisioned {
                outbound_after(event, old(self).outbound_queue())
            } else {
                old(self).outbound_queue()
            },
            final(self).publish_queue() == if old(self).phase() == State::Provisioned {
                publish_after(event, old(self).outbound_queue(), old(self).publish_queue())
            } else {
                old(self).publish_queue()
            },
    {
        match self.state {
            State::Unprovisioned => self.loop_unprovisioned(event),
            State::Provisioning => self.loop_provisioning(event),
            State::Provisioned => self.loop_provisioned(config, event),
        }
    }

    /// Marks the elements connected. Says whether the driver has to connect
    /// them now, which is the case only the first time.
    pub fn connect_elements(&mut self) -> (connect: bool)
        ensures
            connect == !old(self).connected(),
            final(self).connected(),
            final(self).phase() == old(self).phase(),
            final(self).outbound_queue() == old(self).outbound_queue(),
            final(self).publish_queue() == old(self).publish_queue(),
    {
        let connect = !self.connected;
        self.connected = true;
        connect
    }

    /// Takes in the outcome of an iteration: the state that the pipeline
    /// asks for, if any, or the error that ended the iteration. An error
    /// changes nothing and is handed on.
    pub fn transition(&mut self, outcome: Result<Option<State>, DeviceError>) -> (r: Result<
        Transition,
        DeviceError,
    >)
        ensures
            final(self).outbound_queue() == old(self).outbound_queue(),
            final(self).publish_queue() == old(self).publish_queue(),
            match outcome {
                Ok(next) => r == Ok::<Transition, DeviceError>(
                    transition_of(old(self).phase(), old(self).connected(), next),
                ) && final(self).phase() == state_after(old(self).phase(), next)
                    && final(self).connected() == (old(self).connected() || connects(
                    old(self).phase(),
                    old(self).connected(),
                    next,
                )),
                Err(e) => r == Err::<Transition, DeviceError>(e)
                    && final(self).phase() == old(self).phase()
                    && final(self).connected() == old(self).connected(),
            },
    {
        let current_state = self.state;
        match outcome {
            Err(e) => Err(e),
            Ok(None) => Ok(Transition { connect: false, notify: None }),
            Ok(Some(next_state)) => {
                let mut connect = false;
                if next_state == State::Provisioned && current_state != State::Provisioned {
                    connect = self.connect_elements();
                }
                let mut notify = None;
                if next_state != current_state {
                    self.state = next_state;
                    notify = Some(next_state);
                }
                Ok(Transition { connect, notify })
            },
        }
    }

    /// The decisions at startup, once the configuration is loaded: a device
    /// that is provisioned already starts out `Provisioned` with its elements
    /// connected. The pipeline is told of the initial state in either case.
    pub fn run(&mut self, provisioned: bool) -> (start: Transition)
        ensures
            final(self).phase() == if provisioned {
                State::Provisioned
            } else {
                old(self).phase()
            },
            final(self).connected() == (old(self).connected() || provisioned),
            start.connect == (provisioned && !old(self).connected()),
            start.notify == Some(final(self).phase()),
            final(self).outbound_queue() == old(self).outbound_queue(),
            final(self).publish_queue() == old(self).publish_queue(),
    {
        let mut connect = false;
        if provisioned {
            self.state = State::Provisioned;
            connect = self.connect_elements();
        }
        Transition { connect, notify: Some(self.state) }
    }

    /// What the driver does on a control message.
    pub fn control(&self, message: MeshNodeMessage) -> (action: ControlAction)
        ensures
            action == control_action(message),
    {
        match message {
            MeshNodeMessage::ForceReset => ControlAction::NodeReset,
            MeshNodeMessage::Shutdown => ControlAction::Nothing,
        }
    }

    /// What the driver does when loading the configuration fails: the first
    /// failure is answered with a reset and one more attempt, the second is
    /// fatal.
    pub fn recover(failures_before: u32) -> (recovery: Recovery)
        ensures
            recovery == if failures_before == 0 {
                Recovery::ResetAndRetry
            } else {
                Recovery::Fatal
            },
    {
        if failures_before == 0 {
            Recovery::ResetAndRetry
        } else {
            Recovery::Fatal
        }
    }
}

/// How often the elements are connected while the outcomes of `outcomes`
/// come in, one after the other.
pub open spec fn connects_in(state: State, connected: bool, outcomes: Seq<Option<State>>) -> nat
    decreases outcomes.len(),
{
    if outcomes.len() == 0 {
        0
    } else {
        let now: nat = if connects(state, connected, outcomes[0]) {
            1
        } else {
            0
        };
        now + connects_in(
            state_after(state, outcomes[0]),
            connected || connects(state, connected, outcomes[0]),
            outcomes.drop_first(),
        )
    }
}

/// The first outcome `Provisioned` of a node that is not provisioned and has
/// not connected its elements changes its state, connects the elements and
/// tells the pipeline; a second such outcome changes nothing, connects
/// nothing and tells nobody.
pub proof fn lemma_provisioned_twice(state: State)
    requires
        state != State::Provisioned,
    ensures
        transition_of(state, false, Some(State::Provisioned)) == (Transition {
            connect: true,
            notify: Some(State::Provisioned),
        }),
        state_after(state, Some(State::Provisioned)) == State::Provisioned,
        transition_of(State::Provisioned, true, Some(State::Provisioned)) == (Transition {
            connect: false,
            notify: None,
        }),
        state_after(State::Provisioned, Some(State::Provisioned)) == State::Provisioned,
{
}

/// Once the elements are connected, no outcome connects them again.
pub proof fn lemma_connected_stays(state: State, outcomes: Seq<Option<State>>)
    ensures
        connects_in(state, true, outcomes) == 0,
    decreases outcomes.len(),
{
    if outcomes.len() > 0 {
        lemma_connected_stays(state_after(state, outcomes[0]), outcomes.drop_first());
    }
}

/// Whatever outcomes come in, the elements are connected at most once.
pub proof fn lemma_connect_at_most_once(
    state: State,
    connected: bool,
    outcomes: Seq<Option<State>>,
)
    ensures
        connects_in(state, connected, outcomes) <= 1,
    decreases outcomes.len(),
{
    if outcomes.len() > 0 {
        if connected || connects(state, connected, outcomes[0]) {
            lemma_connected_stays(state_after(state, outcomes[0]), outcomes.drop_first());
        } else {
            lemma_connect_at_most_once(
                state_after(state, outcomes[0]),
                connected,
                outcomes.drop_first(),
            );
        }
    }
}

/// A node that is not provisioned and has not connected its elements
/// connects them exactly once if one of the outcomes is `Provisioned`.
pub proof fn lemma_connect_exactly_once(state: State, outcomes: Seq<Option<State>>, at: int)
    requires
        state != State::Provisioned,
        0 <= at < outcomes.len(),
        outcomes[at] == Some(State::Provisioned),
    ensures
        connects_in(state, false, outcomes) == 1,
    decreases outcomes.len(),
{
    if outcomes[0] == Some(State::Provisioned) {
        lemma_connected_stays(State::Provisioned, outcomes.drop_first());
    } else {
        lemma_connect_exactly_once(
            state_after(state, outcomes[0]),
            outcomes.drop_first(),
            at - 1,
        );
    }
}

/// A provisioned node has its elements connected: if that holds before an
/// outcome comes in, it holds after.
pub proof fn lemma_provisioned_is_connected(state: State, connected: bool, outcome: Option<State>)
    requires
        state == State::Provisioned ==> connected,
    ensures
        state_after(state, outcome) == State::Provisioned ==> connected || connects(
            state,
            connected,
            outcome,
        ),
{
}

/// The pipeline is told of a state exactly when the state changes, and then
/// of the new state.
pub proof fn lemma_notify_on_change(state: State, connected: bool, outcome: Option<State>)
    ensures
        transition_of(state, connected, outcome).notify is Some <==> state_after(state, outcome)
            != state,
        transition_of(state, connected, outcome).notify is Some ==> transition_of(
            state,
            connected,
            outcome,
        ).notify == Some(state_after(state, outcome)),
{
}

/// A publish message that resolves is sent where its publication says, as
/// far as it says, from the element that published it, under the identifier
/// of the application key that the publication names, and with the payload
/// untouched.
pub proof fn lemma_resolved_fields(network: NetworkDetails, publish: OutboundPublishMessage)
    requires
        resolved_in(network, publish) is Some,
    ensures
        network.publication_for(publish.element_address, publish.model_identifier) is Some,
        ({
            let publication = network.publication_for(
                publish.element_address,
                publish.model_identifier,
            )->Some_0;
            let message = resolved_in(network, publish)->Some_0;
            &&& publication.is_for(publish.element_address, publish.model_identifier)
            &&& network.app_key(publication.app_key_index) is Some
            &&& network.app_key(publication.app_key_index)->Some_0.index
                == publication.app_key_index
            &&& message.ttl == publication.publish_ttl
            &&& message.dst == publication.publish_address
            &&& message.aid == network.app_key(publication.app_key_index)->Some_0.aid
            &&& message.src == publish.element_address
            &&& message.nid == network.nid
            &&& message.network_key == network.key
            &&& message.akf
            &&& message.payload == publish.payload
        }),
{
    lemma_first_publication(
        network.publications@,
        0,
        publish.element_address,
        publish.model_identifier,
    );
    let publication = network.publication_for(
        publish.element_address,
        publish.model_identifier,
    )->Some_0;
    lemma_first_app_key(network.app_keys@, 0, publication.app_key_index);
}

/// A publish message for which the network has no publication resolves to
/// nothing, and the driver then has nothing to do.
pub proof fn lemma_unmatched_is_dropped(config: Configuration, publish: OutboundPublishMessage)
    requires
        config.network is Some ==> forall|i: int|
            0 <= i < config.network->Some_0.publications@.len() ==> !(
            #[trigger] config.network->Some_0.publications@[i]).is_for(
                publish.element_address,
                publish.model_identifier,
            ),
    ensures
        resolved(config, publish) is None,
        publish_action(config, publish) == Action::Nothing,
{
    if config.network is Some {
        lemma_first_publication(
            config.network->Some_0.publications@,
            0,
            publish.element_address,
            publish.model_identifier,
        );
    }
}

} // verus!
