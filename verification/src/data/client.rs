use vstd::prelude::*;

use crate::channel::{channel_slots, new_message_channel, next_power_of_two, MessageSender};
use crate::data::client_subscription_info::{subscriptions_view, ClientSubscriptionInfo};
use crate::data::messaging::data_pipe_message::DataPipeMessage;
use tokio::sync::broadcast::Sender;

verus! {

/// What the routing of messages reads of a client: its identifier, its
/// subscriptions as (group, topic) pairs, the channel its messages go
/// through, and what was handed to that channel so far.
pub struct ClientView {
    pub identifier: Seq<char>,
    pub subscriptions: Seq<(Seq<char>, Seq<char>)>,
    pub channel: Sender<DataPipeMessage>,
    pub sent: Seq<(DataPipeMessage, bool)>,
}

/// A connected client: messages for it go through `sender`.
pub struct Client {
    pub identifier: String,
    pub sender: MessageSender,
    pub subscription_infos: Vec<ClientSubscriptionInfo>,
}

impl View for Client {
    type V = ClientView;

    open spec fn view(&self) -> ClientView {
        ClientView {
            identifier: self.identifier@,
            subscriptions: subscriptions_view(self.subscription_infos@),
            channel: self.sender.handle(),
            sent: self.sender.sent_log(),
        }
    }
}

impl Client {
    /// A client without subscriptions whose channel holds `capacity`
    /// messages, rounded up to a power of two.
    pub fn new(identifier: String, capacity: usize) -> (c: Client)
        requires
            0 < capacity <= usize::MAX / 2,
        ensures
            c.identifier == identifier,
            c.subscription_infos@ == Seq::<ClientSubscriptionInfo>::empty(),
            channel_slots(c@.channel) == next_power_of_two(capacity as nat),
            c@.sent == Seq::<(DataPipeMessage, bool)>::empty(),
    {
        let sender = MessageSender::new(new_message_channel(capacity));
        Client { identifier, sender, subscription_infos: Vec::new() }
    }
}

} // verus!
