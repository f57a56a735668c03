use vstd::prelude::*;

verus! {

/// One subscription of a client: a consumer group reading a topic.
pub struct ClientSubscriptionInfo {
    pub group: String,
    pub topic: String,
}

impl View for ClientSubscriptionInfo {
    /// Group, then topic: the order of the fields.
    type V = (Seq<char>, Seq<char>);

    open spec fn view(&self) -> (Seq<char>, Seq<char>) {
        (self.group@, self.topic@)
    }
}

/// The views of a sequence of subscriptions.
pub open spec fn subscriptions_view(s: Seq<ClientSubscriptionInfo>) -> Seq<(Seq<char>, Seq<char>)> {
    s.map_values(|i: ClientSubscriptionInfo| i@)
}

impl ClientSubscriptionInfo {
    pub fn new(group: String, topic: String) -> (info: ClientSubscriptionInfo)
        ensures
            info.group == group,
            info.topic == topic,
    {
        ClientSubscriptionInfo { group, topic }
    }
}

impl Default for ClientSubscriptionInfo {
    fn default() -> (info: ClientSubscriptionInfo)
        ensures
            info@ == (Seq::<char>::empty(), Seq::<char>::empty()),
    {
        ClientSubscriptionInfo { group: String::new(), topic: String::new() }
    }
}

} // verus!
