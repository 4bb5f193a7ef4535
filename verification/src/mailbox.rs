//! Bounded first-in first-out mailboxes that hand traffic to the node.
//!
//! A mailbox never drops a message. A send to a full mailbox hands the message
//! back, and a receive from an empty mailbox reports that nothing is there.
//! A task that finds the mailbox full or empty asks to be woken once that has
//! changed, and tries again then.

use crate::access::{AccessMessage, OutboundPublishMessage};
use embassy_sync::blocking_mutex::raw::NoopRawMutex;
use embassy_sync::channel::{Channel, TryReceiveError, TrySendError};
use core::task::{Context, Poll};
use vstd::prelude::*;

verus! {

/// The number of messages a mailbox holds.
pub const MAX_MESSAGE: usize = 3;

/// An `embassy_sync::channel::Channel` with room for three messages. What it
/// holds is known to the proofs only through [`queued_access`] and
/// [`queued_publish`].
#[verifier::external_body]
#[verifier::reject_recursive_types(T)]
pub struct Slots<T> {
    channel: Channel<NoopRawMutex, T, 3>,
}

/// The access messages that a channel holds, oldest first.
pub uninterp spec fn queued_access(slots: Slots<AccessMessage>) -> Seq<AccessMessage>;

/// The publish messages that a channel holds, oldest first.
pub uninterp spec fn queued_publish(slots: Slots<OutboundPublishMessage>) -> Seq<
    OutboundPublishMessage,
>;

/// Whether a mailbox that holds `len` messages takes one more.
pub open spec fn has_room(len: nat) -> bool {
    len < MAX_MESSAGE
}

/// `Channel::new`: a channel that holds nothing.
#[verifier::external_body]
fn access_slots() -> (slots: Slots<AccessMessage>)
    ensures
        queued_access(slots) == Seq::<AccessMessage>::empty(),
{
    Slots { channel: Channel::new() }
}

/// `Channel::try_send`: appends the message behind those that wait, unless
/// the channel is full; then the channel stays as it is and the message comes
/// back.
#[verifier::external_body]
fn access_try_send(slots: &mut Slots<AccessMessage>, message: AccessMessage) -> (r: Result<
    (),
    AccessMessage,
>)
    ensures
        r is Ok == has_room(queued_access(*old(slots)).len()),
        r is Ok ==> queued_access(*final(slots)) == queued_access(*old(slots)).push(message),
        r is Err ==> r->Err_0 == message && queued_access(*final(slots)) == queued_access(
            *old(slots),
        ),
{
    match slots.channel.try_send(message) {
        Ok(()) => Ok(()),
        Err(TrySendError::Full(message)) => Err(message),
    }
}

/// `Channel::try_receive`: takes out the oldest message, unless the channel
/// is empty; then the channel stays as it is.
#[verifier::external_body]
fn access_try_receive(slots: &mut Slots<AccessMessage>) -> (r: Option<AccessMessage>)
    ensures
        r is Some == (queued_access(*old(slots)).len() != 0),
        r is Some ==> r->Some_0 == queued_access(*old(slots)).first() && queued_access(
            *final(slots),
        ) == queued_access(*old(slots)).drop_first(),
        r is None ==> queued_access(*final(slots)) == queued_access(*old(slots)),
{
    match slots.channel.try_receive() {
        Ok(message) => Some(message),
        Err(TryReceiveError::Empty) => None,
    }
}

/// `Channel::poll_ready_to_send`: ready exactly if the channel has room;
/// if not, the task that polls with `cx` is woken once a message is taken
/// out. The channel holds what it held.
#[verifier::external_body]
fn access_poll_ready_to_send(
    slots: &mut Slots<AccessMessage>,
    cx: &mut Context<'_>,
) -> (r: Poll<()>)
    ensures
        r is Ready == has_room(queued_access(*old(slots)).len()),
        queued_access(*final(slots)) == queued_access(*old(slots)),
{
    slots.channel.poll_ready_to_send(cx)
}

/// `Channel::poll_ready_to_receive`: ready exactly if the channel holds a
/// message; if not, the task that polls with `cx` is woken once one is sent.
/// The channel holds what it held.
#[verifier::external_body]
fn access_poll_ready_to_receive(
    slots: &mut Slots<AccessMessage>,
    cx: &mut Context<'_>,
) -> (r: Poll<()>)
    ensures
        r is Ready == (queued_access(*old(slots)).len() != 0),
        queued_access(*final(slots)) == queued_access(*old(slots)),
{
    slots.channel.poll_ready_to_receive(cx)
}

/// The mailbox of access messages that are ready for the pipeline.
pub struct OutboundChannel {
    slots: Slots<AccessMessage>,
}

impl OutboundChannel {
    /// The messages that wait, oldest first.
    pub closed spec fn view(&self) -> Seq<AccessMessage> {
        queued_access(self.slots)
    }

    pub fn new() -> (mailbox: Self)
        ensures
            mailbox@ == Seq::<AccessMessage>::empty(),
    {
        OutboundChannel { slots: access_slots() }
    }

    /// Queues `message` behind those that wait. A full mailbox takes nothing
    /// and hands the message back.
    pub fn send(&mut self, message: AccessMessage) -> (r: Result<(), AccessMessage>)
        ensures
            final(self)@ == send_to(old(self)@, message),
            r == send_result(old(self)@, message),
    {
        match access_try_send(&mut self.slots, message) {
            Ok(()) => Ok(()),
            Err(message) => Err(message),
        }
    }

    /// Takes out the oldest message, if there is one.
    pub fn next(&mut self) -> (r: Option<AccessMessage>)
        ensures
            final(self)@ == rest_of(old(self)@),
            r == oldest_of(old(self)@),
    {
        access_try_receive(&mut self.slots)
    }

    /// Asks, without blocking, whether a send would be taken. If not, the
    /// producer is suspended: the task that polls with `cx` is woken once the
    /// consumer has taken a message out.
    pub fn poll_ready_to_send(&mut self, cx: &mut Context<'_>) -> (r: Poll<()>)
        ensures
            r is Ready == has_room(old(self)@.len()),
            final(self)@ == old(self)@,
    {
        access_poll_ready_to_send(&mut self.slots, cx)
    }

    /// Asks, without blocking, whether a message waits. If not, the consumer
    /// is suspended: the task that polls with `cx` is woken once a message is
    /// sent.
    pub fn poll_ready_to_receive(&mut self, cx: &mut Context<'_>) -> (r: Poll<()>)
        ensures
            r is Ready == (old(self)@.len() != 0),
            final(self)@ == old(self)@,
    {
        access_poll_ready_to_receive(&mut self.slots, cx)
    }
}

/// `Channel::new`: a channel that holds nothing.
#[verifier::external_body]
fn publish_slots() -> (slots: Slots<OutboundPublishMessage>)
    ensures
        queued_publish(slots) == Seq::<OutboundPublishMessage>::empty(),
{
    Slots { channel: Channel::new() }
}

/// `Channel::try_send`: appends the message behind those that wait, unless
/// the channel is full; then the channel stays as it is and the message comes
/// back.
#[verifier::external_body]
fn publish_try_send(
    slots: &mut Slots<OutboundPublishMessage>,
    message: OutboundPublishMessage,
) -> (r: Result<(), OutboundPublishMessage>)
    ensures
        r is Ok == has_room(queued_publish(*old(slots)).len()),
        r is Ok ==> queued_publish(*final(slots)) == queued_publish(*old(slots)).push(message),
        r is Err ==> r->Err_0 == message && queued_publish(*final(slots)) == queued_publish(
            *old(slots),
        ),
{
    match slots.channel.try_send(message) {
        Ok(()) => Ok(()),
        Err(TrySendError::Full(message)) => Err(message),
    }
}

/// `Channel::try_receive`: takes out the oldest message, unless the channel
/// is empty; then the channel stays as it is.
#[verifier::external_body]
fn publish_try_receive(slots: &mut Slots<OutboundPublishMessage>) -> (r: Option<
    OutboundPublishMessage,
>)
    ensures
        r is Some == (queued_publish(*old(slots)).len() != 0),
        r is Some ==> r->Some_0 == queued_publish(*old(slots)).first() && queued_publish(
            *final(slots),
        ) == queued_publish(*old(slots)).drop_first(),
        r is None ==> queued_publish(*final(slots)) == queued_publish(*old(slots)),
{
    match slots.channel.try_receive() {
        Ok(message) => Some(message),
        Err(TryReceiveError::Empty) => None,
    }
}

/// `Channel::poll_ready_to_send`: ready exactly if the channel has room;
/// if not, the task that polls with `cx` is woken once a message is taken
/// out. The channel holds what it held.
#[verifier::external_body]
fn publish_poll_ready_to_send(
    slots: &mut Slots<OutboundPublishMessage>,
    cx: &mut Context<'_>,
) -> (r: Poll<()>)
    ensures
        r is Ready == has_room(queued_publish(*old(slots)).len()),
        queued_publish(*final(slots)) == queued_publish(*old(slots)),
{
    slots.channel.poll_ready_to_send(cx)
}

/// `Channel::poll_ready_to_receive`: ready exactly if the channel holds a
/// message; if not, the task that polls with `cx` is woken once one is sent.
/// The channel holds what it held.
#[verifier::external_body]
fn publish_poll_ready_to_receive(
    slots: &mut Slots<OutboundPublishMessage>,
    cx: &mut Context<'_>,
) -> (r: Poll<()>)
    ensures
        r is Ready == (queued_publish(*old(slots)).len() != 0),
        queued_publish(*final(slots)) == queued_publish(*old(slots)),
{
    slots.channel.poll_ready_to_receive(cx)
}

/// The mailbox of messages that the models of the application want published.
pub struct OutboundPublishChannel {
    slots: Slots<OutboundPublishMessage>,
}

impl OutboundPublishChannel {
    /// The messages that wait, oldest first.
    pub closed spec fn view(&self) -> Seq<OutboundPublishMessage> {
        queued_publish(self.slots)
    }

    pub fn new() -> (mailbox: Self)
        ensures
            mailbox@ == Seq::<OutboundPublishMessage>::empty(),
    {
        OutboundPublishChannel { slots: publish_slots() }
    }

    /// Queues `message` behind those that wait. A full mailbox takes nothing
    /// and hands the message back.
    pub fn send(&mut self, message: OutboundPublishMessage) -> (r: Result<
        (),
        OutboundPublishMessage,
    >)
        ensures
            final(self)@ == send_to(old(self)@, message),
            r == send_result(old(self)@, message),
    {
        match publish_try_send(&mut self.slots, message) {
            Ok(()) => Ok(()),
            Err(message) => Err(message),
        }
    }

    /// Takes out the oldest message, if there is one.
    pub fn next(&mut self) -> (r: Option<OutboundPublishMessage>)
        ensures
            final(self)@ == rest_of(old(self)@),
            r == oldest_of(old(self)@),
    {
        publish_try_receive(&mut self.slots)
    }

    /// Asks, without blocking, whether a send would be taken. If not, the
    /// producer is suspended: the task that polls with `cx` is woken once the
    /// consumer has taken a message out.
    pub fn poll_ready_to_send(&mut self, cx: &mut Context<'_>) -> (r: Poll<()>)
        ensures
            r is Ready == has_room(old(self)@.len()),
            final(self)@ == old(self)@,
    {
        publish_poll_ready_to_send(&mut self.slots, cx)
    }

    /// Asks, without blocking, whether a message waits. If not, the consumer
    /// is suspended: the task that polls with `cx` is woken once a message is
    /// sent.
    pub fn poll_ready_to_receive(&mut self, cx: &mut Context<'_>) -> (r: Poll<()>)
        ensures
            r is Ready == (old(self)@.len() != 0),
            final(self)@ == old(self)@,
    {
        publish_poll_ready_to_receive(&mut self.slots, cx)
    }
}

/// What a mailbox holds after a send: the message is last, unless the mailbox
/// was full.
pub open spec fn send_to<T>(queue: Seq<T>, message: T) -> Seq<T> {
    if has_room(queue.len()) {
        queue.push(message)
    } else {
        queue
    }
}

/// What a send returns: the message itself if the mailbox was full.
pub open spec fn send_result<T>(queue: Seq<T>, message: T) -> Result<(), T> {
    if has_room(queue.len()) {
        Ok(())
    } else {
        Err(message)
    }
}

/// What a receive returns: the oldest message.
pub open spec fn oldest_of<T>(queue: Seq<T>) -> Option<T> {
    if queue.len() == 0 {
        None
    } else {
        Some(queue.first())
    }
}

/// What a mailbox holds after a receive.
pub open spec fn rest_of<T>(queue: Seq<T>) -> Seq<T> {
    if queue.len() == 0 {
        queue
    } else {
        queue.drop_first()
    }
}

/// What a mailbox holds after the messages of `messages` were sent to it, in
/// order.
pub open spec fn send_all<T>(queue: Seq<T>, messages: Seq<T>) -> Seq<T>
    decreases messages.len(),
{
    if messages.len() == 0 {
        queue
    } else {
        send_to(send_all(queue, messages.drop_last()), messages.last())
    }
}

/// What `count` receives in a row return, in order. A receive that finds
/// nothing adds nothing.
pub open spec fn receive_all<T>(queue: Seq<T>, count: nat) -> Seq<T>
    decreases count,
{
    if count == 0 {
        Seq::empty()
    } else {
        match oldest_of(queue) {
            Some(message) => seq![message] + receive_all(rest_of(queue), (count - 1) as nat),
            None => receive_all(rest_of(queue), (count - 1) as nat),
        }
    }
}

/// What a mailbox holds after `count` receives in a row.
pub open spec fn rest_after<T>(queue: Seq<T>, count: nat) -> Seq<T>
    decreases count,
{
    if count == 0 {
        queue
    } else {
        rest_after(rest_of(queue), (count - 1) as nat)
    }
}

/// Sends that fit are all taken, in order.
pub proof fn lemma_send_all_fits<T>(queue: Seq<T>, messages: Seq<T>)
    requires
        queue.len() + messages.len() <= MAX_MESSAGE,
    ensures
        send_all(queue, messages) == queue + messages,
    decreases messages.len(),
{
    if messages.len() == 0 {
        assert(queue + messages =~= queue);
    } else {
        lemma_send_all_fits(queue, messages.drop_last());
        assert((queue + messages.drop_last()).push(messages.last()) =~= queue + messages);
    }
}

/// As many receives as a mailbox holds messages return them all, oldest
/// first, and leave the mailbox empty.
pub proof fn lemma_receive_all_drains<T>(queue: Seq<T>)
    ensures
        receive_all(queue, queue.len()) == queue,
        rest_after(queue, queue.len()) == Seq::<T>::empty(),
    decreases queue.len(),
{
    if queue.len() == 0 {
        assert(queue =~= Seq::<T>::empty());
    } else {
        lemma_receive_all_drains(queue.drop_first());
        assert(seq![queue.first()] + queue.drop_first() =~= queue);
    }
}

/// First in, first out: when an empty mailbox is sent no more messages than
/// it has room for, and then as many are received, the receives return the
/// messages exactly in the order in which they were sent, and the mailbox is
/// empty again.
pub proof fn lemma_fifo<T>(messages: Seq<T>)
    requires
        messages.len() <= MAX_MESSAGE,
    ensures
        send_all(Seq::<T>::empty(), messages) == messages,
        receive_all(send_all(Seq::<T>::empty(), messages), messages.len()) == messages,
        rest_after(send_all(Seq::<T>::empty(), messages), messages.len()) == Seq::<T>::empty(),
{
    lemma_send_all_fits(Seq::<T>::empty(), messages);
    assert(Seq::<T>::empty() + messages =~= messages);
    lemma_receive_all_drains(messages);
}

/// A producer is suspended exactly when the mailbox is full, and a consumer
/// exactly when it is empty; so after a send that was taken the consumer is
/// not suspended, and after a receive that returned a message the producer
/// is not.
pub proof fn lemma_suspension<T>(queue: Seq<T>, message: T)
    requires
        queue.len() <= MAX_MESSAGE,
    ensures
        has_room(queue.len()) <==> send_result(queue, message) is Ok,
        queue.len() != 0 <==> oldest_of(queue) is Some,
        send_result(queue, message) is Ok ==> send_to(queue, message).len() != 0,
        oldest_of(queue) is Some ==> has_room(rest_of(queue).len()),
{
}

/// Backpressure: a full mailbox refuses a message, hands that very message
/// back and stays as it is; once the consumer has taken one message out, the
/// same message is accepted and waits last.
pub proof fn lemma_full_then_retry<T>(queue: Seq<T>, message: T)
    requires
        queue.len() == MAX_MESSAGE,
    ensures
        send_result(queue, message) == Err::<(), T>(message),
        send_to(queue, message) == queue,
        oldest_of(queue) == Some(queue.first()),
        send_result(rest_of(queue), message) == Ok::<(), T>(()),
        send_to(rest_of(queue), message) == queue.drop_first().push(message),
{
}

/// A mailbox stays within its capacity under sends and receives.
pub proof fn lemma_capacity_kept<T>(queue: Seq<T>, message: T)
    requires
        queue.len() <= MAX_MESSAGE,
    ensures
        send_to(queue, message).len() <= MAX_MESSAGE,
        rest_of(queue).len() <= MAX_MESSAGE,
{
}

} // verus!
