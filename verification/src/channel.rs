//! The broadcast channels of tokio through which messages reach clients.
use vstd::prelude::*;

use crate::data::messaging::data_pipe_message::DataPipeMessage;
use tokio::sync::broadcast::{Receiver, Sender};

verus! {

#[verifier::external_type_specification]
#[verifier::external_body]
#[verifier::reject_recursive_types(T)]
pub struct ExBroadcastSender<T>(tokio::sync::broadcast::Sender<T>);

#[verifier::external_type_specification]
#[verifier::external_body]
#[verifier::reject_recursive_types(T)]
pub struct ExBroadcastReceiver<T>(tokio::sync::broadcast::Receiver<T>);

/// The number of messages that the channel behind `sender` holds for its
/// receivers: fixed when the channel is made.
pub uninterp spec fn channel_slots(sender: Sender<DataPipeMessage>) -> nat;

/// The smallest power of two that is at least `n`, from `p` (a power of two)
/// on.
pub open spec fn power_of_two_from(n: nat, p: nat) -> nat
    decreases (if p < n { n - p } else { 0 }),
{
    if p == 0 || p >= n {
        p
    } else {
        power_of_two_from(n, 2 * p)
    }
}

/// The smallest power of two that is at least `n`.
pub open spec fn next_power_of_two(n: nat) -> nat {
    power_of_two_from(n, 1)
}

/// Calls `tokio::sync::broadcast::channel(capacity)` and keeps its sending
/// half; the receiving half is dropped. Requires what tokio asserts (a
/// capacity above zero and at most `usize::MAX / 2`); claims that the
/// channel holds `capacity` rounded up to a power of two messages, as tokio
/// makes its buffer.
#[verifier::external_body]
pub(crate) fn new_message_channel(capacity: usize) -> (sender: Sender<DataPipeMessage>)
    requires
        0 < capacity <= usize::MAX / 2,
    ensures
        channel_slots(sender) == next_power_of_two(capacity as nat),
{
    tokio::sync::broadcast::channel::<DataPipeMessage>(capacity).0
}

/// Whether `receiver` is a receiver of the channel that `sender` sends on.
/// A handle keeps pointing to the channel it was made for.
pub uninterp spec fn receives_from(receiver: Receiver<DataPipeMessage>, sender: Sender<DataPipeMessage>) -> bool;

/// Calls `Sender::subscribe`: a new receiver of the channel of `sender`,
/// which gets the messages sent after this call; claims that relation.
/// Tokio panics when the channel already counts `usize::MAX >> 2` receivers,
/// a count that depends on the running program and that no clause here can
/// state.
#[verifier::external_body]
fn subscribe(sender: &Sender<DataPipeMessage>) -> (receiver: Receiver<DataPipeMessage>)
    ensures
        receives_from(receiver, *sender),
{
    sender.subscribe()
}

/// The sending handle of a channel together with two records kept beside
/// it: every message handed to the channel through this handle, each with
/// whether the channel accepted it, and every count of receivers read
/// through it. Only the two calls below into tokio write them.
pub struct MessageSender {
    pub channel: Sender<DataPipeMessage>,
    sent: Ghost<Seq<(DataPipeMessage, bool)>>,
    counts: Ghost<Seq<usize>>,
}

/// Calls `Sender::send` on the channel of `sender` with `message` itself,
/// and claims that the record of `sender` gains exactly that message, with
/// `true` where tokio accepted it (`Some(n)`: accepted for `n` receivers,
/// which tokio only does for at least one) and `false` where it gave it back
/// because no receiver was alive; the channel and the counts stay. Which of
/// the two happens depends on the receivers alive at that moment and is left
/// unsaid.
#[verifier::external_body]
fn send_message(sender: &mut MessageSender, message: DataPipeMessage) -> (r: Option<usize>)
    ensures
        final(sender).handle() == old(sender).handle(),
        final(sender).sent_log() == old(sender).sent_log().push((message, r is Some)),
        final(sender).count_log() == old(sender).count_log(),
        r matches Some(n) ==> n > 0,
{
    match sender.channel.send(message) {
        Ok(n) => Some(n),
        Err(_) => None,
    }
}

/// Calls `Sender::receiver_count` on the channel of `sender`: the number of
/// receivers alive at this moment, which other tasks change, so nothing is
/// claimed of its value; claims that the record of counts gains exactly the
/// number returned, and that the channel and the messages stay.
#[verifier::external_body]
fn receiver_count(sender: &mut MessageSender) -> (n: usize)
    ensures
        final(sender).handle() == old(sender).handle(),
        final(sender).sent_log() == old(sender).sent_log(),
        final(sender).count_log() == old(sender).count_log().push(n),
{
    sender.channel.receiver_count()
}

impl MessageSender {
    /// The channel this handle sends on.
    pub closed spec fn handle(&self) -> Sender<DataPipeMessage> {
        self.channel
    }

    /// What was handed to the channel through this handle, in order, each
    /// message with whether the channel accepted it.
    pub closed spec fn sent_log(&self) -> Seq<(DataPipeMessage, bool)> {
        self.sent@
    }

    /// The counts of receivers read through this handle, in order.
    pub closed spec fn count_log(&self) -> Seq<usize> {
        self.counts@
    }

    /// A handle on `channel` with nothing sent or read yet.
    pub fn new(channel: Sender<DataPipeMessage>) -> (s: MessageSender)
        ensures
            s.handle() == channel,
            s.sent_log() == Seq::<(DataPipeMessage, bool)>::empty(),
            s.count_log() == Seq::<usize>::empty(),
    {
        MessageSender { channel, sent: Ghost(Seq::empty()), counts: Ghost(Seq::empty()) }
    }

    /// Hands `message`, as it is, to the channel; `true` where the channel
    /// accepted it, which it does while at least one receiver is alive.
    pub fn send(&mut self, message: DataPipeMessage) -> (accepted: bool)
        ensures
            final(self).handle() == old(self).handle(),
            final(self).sent_log() == old(self).sent_log().push((message, accepted)),
            final(self).count_log() == old(self).count_log(),
    {
        send_message(self, message).is_some()
    }

    /// A new receiver of this channel, which gets what is sent after it.
    pub fn subscribe(&self) -> (receiver: Receiver<DataPipeMessage>)
        ensures
            receives_from(receiver, self.handle()),
    {
        subscribe(&self.channel)
    }

    /// The number of receivers alive at this moment, noted in the record of
    /// counts.
    pub fn receiver_count(&mut self) -> (n: usize)
        ensures
            final(self).handle() == old(self).handle(),
            final(self).sent_log() == old(self).sent_log(),
            final(self).count_log() == old(self).count_log().push(n),
    {
        receiver_count(self)
    }
}

} // verus!
