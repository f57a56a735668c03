use vstd::prelude::*;

use crate::data::client::{Client, ClientView};
use crate::data::client_subscription_info::{subscriptions_view, ClientSubscriptionInfo};
use crate::data::error::{DataPipeError, DataPipeResult};
use crate::data::messaging::data_pipe_message::DataPipeMessage;
use std::collections::HashMap;
use vstd::std_specs::iter::IteratorSpec;
use vstd::string::StrSliceExecFns;
use vstd::utf8::encode_utf8;

verus! {

broadcast use vstd::std_specs::hash::group_hash_axioms;

/// The 32-bit xxHash that `xxhash_rust::xxh32::xxh32` computes of `input`
/// with `seed`.
pub uninterp spec fn xxh32_digest(input: Seq<u8>, seed: u32) -> u32;

/// Calls `xxhash_rust::xxh32::xxh32`; claims that the result is the named
/// digest of its two arguments.
#[verifier::external_body]
fn xxh32(input: &[u8], seed: u32) -> (h: u32)
    ensures
        h == xxh32_digest(input@, seed),
{
    xxhash_rust::xxh32::xxh32(input, seed)
}

/// The key under which a (topic, group) subscription is recorded: the xxHash,
/// seed 0, of the UTF-8 bytes of the topic followed by those of the group.
/// Distinct pairs may share a key; such pairs count as one subscription.
pub open spec fn subscription_key(topic: Seq<char>, group: Seq<char>) -> u32 {
    xxh32_digest(encode_utf8(topic) + encode_utf8(group), 0)
}

/// What an unsubscription from (topic, group) leaves of a client's
/// subscriptions (group, topic pairs): those whose topic differs and whose
/// group differs too, in their order.
pub open spec fn retain_unrelated(
    subs: Seq<(Seq<char>, Seq<char>)>,
    topic: Seq<char>,
    group: Seq<char>,
) -> Seq<(Seq<char>, Seq<char>)> {
    subs.filter(unrelated_to(topic, group))
}

/// Whether a (group, topic) subscription shares neither the topic nor the
/// group.
pub open spec fn unrelated_to(topic: Seq<char>, group: Seq<char>) -> spec_fn((Seq<char>, Seq<char>)) -> bool {
    |s: (Seq<char>, Seq<char>)| s.1 != topic && s.0 != group
}

/// The registry as the routing sees it: the clients in the order they were
/// added, each under the identifier it was added with, and the recorded
/// subscriptions, from subscription key to the identifier of the subscriber.
pub struct ClientsManagerView {
    pub clients: Seq<(Seq<char>, ClientView)>,
    pub lookup: Map<u32, Seq<char>>,
}

impl ClientsManagerView {
    pub open spec fn contains(self, id: Seq<char>) -> bool {
        exists|i: int| 0 <= i < self.clients.len() && #[trigger] self.clients[i].0 == id
    }

    /// Where the client registered under `id` stands.
    pub open spec fn index_of(self, id: Seq<char>) -> int {
        choose|i: int| 0 <= i < self.clients.len() && #[trigger] self.clients[i].0 == id
    }

    /// The client registered under `id`.
    pub open spec fn client(self, id: Seq<char>) -> ClientView {
        self.clients[self.index_of(id)].1
    }

    /// No identifier is registered twice, and every subscription belongs to a
    /// registered client.
    pub open spec fn wf(self) -> bool {
        &&& forall|i: int, j: int|
            0 <= i < self.clients.len() && 0 <= j < self.clients.len() && i != j
                ==> #[trigger] self.clients[i].0 != #[trigger] self.clients[j].0
        &&& forall|h: u32| #[trigger] self.lookup.contains_key(h) ==> self.contains(self.lookup[h])
    }

    pub open spec fn has_subscription(self, topic: Seq<char>, group: Seq<char>) -> bool {
        self.lookup.contains_key(subscription_key(topic, group))
    }

    /// The registry after `add(id, c)`: unchanged where `id` is registered.
    pub open spec fn after_add(self, id: Seq<char>, c: ClientView) -> ClientsManagerView {
        if self.contains(id) {
            self
        } else {
            ClientsManagerView { clients: self.clients.push((id, c)), lookup: self.lookup }
        }
    }

    /// The registry with the client under `id` replaced by `c`.
    pub open spec fn with_client(self, id: Seq<char>, c: ClientView) -> ClientsManagerView {
        ClientsManagerView {
            clients: self.clients.update(self.index_of(id), (id, c)),
            lookup: self.lookup,
        }
    }

    /// The registry after client `id` subscribes with `sub` (group, topic):
    /// unchanged where the subscription's key is already recorded.
    pub open spec fn after_add_subscription(
        self,
        id: Seq<char>,
        sub: (Seq<char>, Seq<char>),
    ) -> ClientsManagerView {
        let key = subscription_key(sub.1, sub.0);
        if self.lookup.contains_key(key) {
            self
        } else {
            let c = self.client(id);
            ClientsManagerView {
                clients: self.with_client(
                    id,
                    ClientView { subscriptions: c.subscriptions.push(sub), ..c },
                ).clients,
                lookup: self.lookup.insert(key, id),
            }
        }
    }

    /// The registry after client `id` unsubscribes from (topic, group):
    /// unchanged where that subscription's key is not recorded.
    pub open spec fn after_remove_subscription(
        self,
        id: Seq<char>,
        topic: Seq<char>,
        group: Seq<char>,
    ) -> ClientsManagerView {
        let key = subscription_key(topic, group);
        if !self.lookup.contains_key(key) {
            self
        } else {
            let c = self.client(id);
            ClientsManagerView {
                clients: self.with_client(
                    id,
                    ClientView {
                        subscriptions: retain_unrelated(c.subscriptions, topic, group),
                        ..c
                    },
                ).clients,
                lookup: self.lookup.remove(key),
            }
        }
    }

    /// The registry after the message `m` was handed to the channel of the
    /// client at position `i`, accepted or not.
    pub open spec fn after_send_at(self, i: int, m: DataPipeMessage, accepted: bool) -> ClientsManagerView {
        let c = self.clients[i].1;
        ClientsManagerView {
            clients: self.clients.update(i, (self.clients[i].0, ClientView { sent: c.sent.push((m, accepted)), ..c })),
            lookup: self.lookup,
        }
    }

    /// The registry after `remove(id)`: the client is gone, and so is every
    /// subscription recorded for it.
    pub open spec fn after_remove(self, id: Seq<char>) -> ClientsManagerView {
        ClientsManagerView {
            clients: if self.contains(id) {
                self.clients.remove(self.index_of(id))
            } else {
                self.clients
            },
            lookup: self.lookup.restrict(Set::new(|h: u32| self.lookup[h] != id)),
        }
    }
}

/// The registry of connected clients and of their subscriptions.
pub struct ClientsManager {
    /// Each client with the identifier it was registered under.
    clients: Vec<(String, Client)>,
    /// Key of each recorded subscription to the identifier of its subscriber.
    lookup: HashMap<u32, String>,
}

impl View for ClientsManager {
    type V = ClientsManagerView;

    closed spec fn view(&self) -> ClientsManagerView {
        ClientsManagerView {
            clients: self.clients@.map_values(|e: (String, Client)| (e.0@, e.1@)),
            lookup: self.lookup@.map_values(|s: String| s@),
        }
    }
}

/// The subscription key of (topic, group).
fn compute_hash(topic: &str, group: &str) -> (h: u32)
    ensures
        h == subscription_key(topic@, group@),
{
    let mut bytes = topic.as_bytes_vec();
    let mut tail = group.as_bytes_vec();
    bytes.append(&mut tail);
    xxh32(bytes.as_slice(), 0)
}

/// The subscriptions of `subs` that `retain_unrelated` keeps.
fn retain_unrelated_exec(
    subs: &Vec<ClientSubscriptionInfo>,
    topic: &String,
    group: &String,
) -> (kept: Vec<ClientSubscriptionInfo>)
    ensures
        subscriptions_view(kept@) == retain_unrelated(subscriptions_view(subs@), topic@, group@),
{
    let mut kept: Vec<ClientSubscriptionInfo> = Vec::new();
    let n = subs.len();
    for i in 0..n
        invariant
            n == subs@.len(),
            subscriptions_view(kept@) == retain_unrelated(
                subscriptions_view(subs@.take(i as int)),
                topic@,
                group@,
            ),
    {
        let sub = &subs[i];
        let ghost prefix = subscriptions_view(subs@.take(i as int));
        let ghost next = subscriptions_view(subs@.take(i + 1));
        assert(next.drop_last() =~= prefix);
        assert(next.last() == sub@);
        proof {
            reveal_with_fuel(Seq::<(Seq<char>, Seq<char>)>::filter, 1);
        }
        if !(sub.topic == *topic) && !(sub.group == *group) {
            let ghost before = kept@;
            kept.push(ClientSubscriptionInfo { group: sub.group.clone(), topic: sub.topic.clone() });
            assert(subscriptions_view(kept@) =~= subscriptions_view(before).push(sub@));
        }
    }
    assert(subs@.take(n as int) =~= subs@);
    kept
}

impl ClientsManager {
    pub fn new() -> (m: ClientsManager)
        ensures
            m@.wf(),
            m@.clients == Seq::<(Seq<char>, ClientView)>::empty(),
            m@.lookup == Map::<u32, Seq<char>>::empty(),
    {
        let m = ClientsManager { clients: Vec::new(), lookup: HashMap::new() };
        assert(m@.clients =~= Seq::<(Seq<char>, ClientView)>::empty());
        assert(m@.lookup =~= Map::<u32, Seq<char>>::empty());
        m
    }

    /// Where the client registered under `id` stands.
    fn find(&self, id: &String) -> (r: Option<usize>)
        requires
            self@.wf(),
        ensures
            match r {
                Some(i) => self@.contains(id@) && i == self@.index_of(id@) && i < self@.clients.len(),
                None => !self@.contains(id@),
            },
    {
        let n = self.clients.len();
        for i in 0..n
            invariant
                n == self@.clients.len(),
                self@.wf(),
                forall|j: int| 0 <= j < i ==> #[trigger] self@.clients[j].0 != id@,
        {
            if self.clients[i].0 == *id {
                assert(self@.clients[i as int].0 == id@);
                return Some(i);
            }
        }
        None
    }

    /// Registers `client` under `identifier`; refused where that identifier
    /// is registered already.
    pub fn add(&mut self, identifier: &str, client: Client) -> (r: DataPipeResult<()>)
        requires
            old(self)@.wf(),
        ensures
            final(self)@.wf(),
            final(self)@ == old(self)@.after_add(identifier@, client@),
            r is Err == old(self)@.contains(identifier@),
            r matches Err(e) ==> e is ClientAlreadyExist,
    {
        let key = identifier.to_owned();
        if self.find(&key).is_some() {
            return Err(DataPipeError::ClientAlreadyExist);
        }
        let ghost before = self@;
        self.clients.push((key, client));
        assert(self@.clients =~= before.clients.push((identifier@, client@)));
        assert forall|h: u32| #[trigger] self@.lookup.contains_key(h) implies self@.contains(self@.lookup[h]) by {
            let j = choose|j: int| 0 <= j < before.clients.len() && #[trigger] before.clients[j].0 == before.lookup[h];
            assert(self@.clients[j].0 == before.clients[j].0);
        }
        Ok(())
    }

    /// Records that client `identifier` subscribes to the topic and group of
    /// `client_subscription`; refused where that subscription's key is
    /// recorded already. The client must be registered unless the refusal
    /// comes first.
    pub fn add_subscription(
        &mut self,
        identifier: &str,
        client_subscription: ClientSubscriptionInfo,
    ) -> (r: DataPipeResult<()>)
        requires
            old(self)@.wf(),
            old(self)@.contains(identifier@) || old(self)@.has_subscription(
                client_subscription.topic@,
                client_subscription.group@,
            ),
        ensures
            final(self)@.wf(),
            final(self)@ == old(self)@.after_add_subscription(identifier@, client_subscription@),
            r is Err == old(self)@.has_subscription(
                client_subscription.topic@,
                client_subscription.group@,
            ),
            r matches Err(e) ==> (e matches DataPipeError::SubscriptionAlreadyExist(topic, group)
                && topic@ == client_subscription.topic@ && group@ == client_subscription.group@),
    {
        let key = compute_hash(client_subscription.topic.as_str(), client_subscription.group.as_str());
        if self.lookup.contains_key(&key) {
            return Err(
                DataPipeError::SubscriptionAlreadyExist(
                    client_subscription.topic,
                    client_subscription.group,
                ),
            );
        }
        let id = identifier.to_owned();
        let i = match self.find(&id) {
            Some(i) => i,
            None => {
                return Ok(());
            },
        };
        let ghost before = self@;
        let ghost sub = client_subscription@;
        self.lookup.insert(key, id.clone());
        let mut entry = self.clients.remove(i);
        entry.1.subscription_infos.push(client_subscription);
        self.clients.insert(i, entry);
        assert(subscriptions_view(entry.1.subscription_infos@) =~= before.clients[i as int].1.subscriptions.push(sub));
        assert(self@.clients =~= before.after_add_subscription(id@, sub).clients);
        assert(self@.lookup =~= before.lookup.insert(key, id@));
        assert forall|h: u32| #[trigger] self@.lookup.contains_key(h) implies self@.contains(self@.lookup[h]) by {
            if h == key {
                assert(self@.clients[i as int].0 == id@);
            } else {
                let j = choose|j: int| 0 <= j < before.clients.len() && #[trigger] before.clients[j].0 == before.lookup[h];
                assert(self@.clients[j].0 == before.clients[j].0);
            }
        }
        Ok(())
    }

    /// Withdraws the subscription to (topic, group): forgets its key and drops
    /// from client `identifier` every subscription whose topic or group
    /// matches. Nothing happens where the key is not recorded; otherwise the
    /// client must be registered.
    pub fn remove_subscription(&mut self, identifier: &str, topic: &str, group: &str) -> (r: DataPipeResult<()>)
        requires
            old(self)@.wf(),
            old(self)@.contains(identifier@) || !old(self)@.has_subscription(topic@, group@),
        ensures
            final(self)@.wf(),
            final(self)@ == old(self)@.after_remove_subscription(identifier@, topic@, group@),
            r is Ok,
    {
        let key = compute_hash(topic, group);
        if !self.lookup.contains_key(&key) {
            return Ok(());
        }
        let ghost before = self@;
        self.lookup.remove(&key);
        assert(self@.lookup =~= before.lookup.remove(key));
        assert(self@.clients == before.clients);
        assert forall|h: u32| #[trigger] self@.lookup.contains_key(h) implies self@.contains(self@.lookup[h]) by {
            assert(before.lookup.contains_key(h));
        }
        let id = identifier.to_owned();
        let i = match self.find(&id) {
            Some(i) => i,
            None => {
                return Ok(());
            },
        };
        let topic_owned = topic.to_owned();
        let group_owned = group.to_owned();
        let mut entry = self.clients.remove(i);
        let kept = retain_unrelated_exec(&entry.1.subscription_infos, &topic_owned, &group_owned);
        entry.1.subscription_infos = kept;
        self.clients.insert(i, entry);
        assert(self@.clients =~= before.after_remove_subscription(id@, topic@, group@).clients);
        assert forall|h: u32| #[trigger] self@.lookup.contains_key(h) implies self@.contains(self@.lookup[h]) by {
            let j = choose|j: int| 0 <= j < before.clients.len() && #[trigger] before.clients[j].0 == before.lookup[h];
            assert(self@.clients[j].0 == before.clients[j].0);
        }
        Ok(())
    }

    /// `add_subscription` where it may proceed: `None`, with the registry
    /// unchanged, where the client is not registered and the subscription's
    /// key is not recorded.
    pub fn try_add_subscription(
        &mut self,
        identifier: &str,
        client_subscription: ClientSubscriptionInfo,
    ) -> (r: Option<DataPipeResult<()>>)
        requires
            old(self)@.wf(),
        ensures
            final(self)@.wf(),
            r is None == (!old(self)@.contains(identifier@) && !old(self)@.has_subscription(
                client_subscription.topic@,
                client_subscription.group@,
            )),
            r is None ==> final(self)@ == old(self)@,
            r matches Some(res) ==> {
                &&& final(self)@ == old(self)@.after_add_subscription(identifier@, client_subscription@)
                &&& res is Err == old(self)@.has_subscription(
                    client_subscription.topic@,
                    client_subscription.group@,
                )
            },
    {
        if !self.contains(identifier) && !self.contains_subscription(
            client_subscription.topic.as_str(),
            client_subscription.group.as_str(),
        ) {
            return None;
        }
        Some(self.add_subscription(identifier, client_subscription))
    }

    /// `remove_subscription` where it may proceed: `None`, with the registry
    /// unchanged, where the client is not registered and the subscription's
    /// key is recorded.
    pub fn try_remove_subscription(&mut self, identifier: &str, topic: &str, group: &str) -> (r: Option<DataPipeResult<()>>)
        requires
            old(self)@.wf(),
        ensures
            final(self)@.wf(),
            r is None == (!old(self)@.contains(identifier@) && old(self)@.has_subscription(topic@, group@)),
            r is None ==> final(self)@ == old(self)@,
            r matches Some(res) ==> res is Ok
                && final(self)@ == old(self)@.after_remove_subscription(identifier@, topic@, group@),
    {
        if !self.contains(identifier) && self.contains_subscription(topic, group) {
            return None;
        }
        Some(self.remove_subscription(identifier, topic, group))
    }

    pub fn contains_subscription(&self, topic: &str, group: &str) -> (b: bool)
        ensures
            b == self@.has_subscription(topic@, group@),
    {
        let key = compute_hash(topic, group);
        self.lookup.contains_key(&key)
    }

    pub fn contains(&self, identifier: &str) -> (b: bool)
        requires
            self@.wf(),
        ensures
            b == self@.contains(identifier@),
    {
        self.find(&identifier.to_owned()).is_some()
    }

    pub fn get(&self, identifier: &str) -> (r: Option<&Client>)
        requires
            self@.wf(),
        ensures
            match r {
                Some(c) => self@.contains(identifier@) && c@ == self@.client(identifier@),
                None => !self@.contains(identifier@),
            },
    {
        match self.find(&identifier.to_owned()) {
            Some(i) => Some(&self.clients[i].1),
            None => None,
        }
    }

    /// Unregisters the client under `identifier` and forgets every
    /// subscription recorded for it; gives back the client where there was
    /// one.
    pub fn remove(&mut self, identifier: &str) -> (r: Option<Client>)
        requires
            old(self)@.wf(),
        ensures
            final(self)@.wf(),
            final(self)@ == old(self)@.after_remove(identifier@),
            r is Some == old(self)@.contains(identifier@),
            r matches Some(c) ==> c@ == old(self)@.client(identifier@),
    {
        let id = identifier.to_owned();
        let ghost before = self@;
        let mut kept: HashMap<u32, String> = HashMap::new();
        let ghost mut seen: Set<u32> = Set::empty();
        let ghost mut count: int = 0;
        let ghost all_keys = vstd::std_specs::hash::spec_keys_iter(&self.lookup).remaining();
        assert(kept@ =~= Map::<u32, String>::empty());
        for k in it: self.lookup.keys()
            invariant
                before == self@,
                it.seq() == all_keys,
                count == it.index(),
                forall|j: int| 0 <= j < count ==> seen.contains(*#[trigger] all_keys[j]),
                forall|h: u32|
                    #[trigger] kept@.contains_key(h) == (seen.contains(h) && before.lookup.contains_key(h)
                        && before.lookup[h] != id@),
                forall|h: u32| #[trigger] kept@.contains_key(h) ==> kept@[h]@ == before.lookup[h],
        {
            proof {
                seen = seen.insert(*k);
                count = count + 1;
            }
            match self.lookup.get(k) {
                Some(v) => {
                    if !(*v == id) {
                        kept.insert(*k, v.clone());
                    }
                },
                None => {},
            }
        }
        proof {
            assert(count == all_keys.len());
            assert(all_keys.unref().to_set() == self.lookup@.dom());
            assert forall|h: u32| #[trigger] before.lookup.contains_key(h) implies seen.contains(h) by {
                assert(self.lookup@.dom().contains(h));
                assert(all_keys.unref().to_set().contains(h));
                let j = choose|j: int| 0 <= j < all_keys.unref().len() && all_keys.unref()[j] == h;
                assert(*all_keys[j] == h);
            }
        }
        self.lookup = kept;
        let ghost restricted = before.lookup.restrict(Set::new(|h: u32| before.lookup[h] != id@));
        assert(self@.lookup =~= restricted);
        assert(self@.clients == before.clients);
        assert forall|h: u32| #[trigger] self@.lookup.contains_key(h) implies self@.contains(self@.lookup[h]) by {
            assert(before.lookup.contains_key(h));
        }
        match self.find(&id) {
            Some(i) => {
                let entry = self.clients.remove(i);
                assert(self@.clients =~= before.clients.remove(i as int));
                assert forall|h: u32| #[trigger] self@.lookup.contains_key(h) implies self@.contains(self@.lookup[h]) by {
                    let v = before.lookup[h];
                    assert(before.contains(v));
                    let j = choose|j: int| 0 <= j < before.clients.len() && #[trigger] before.clients[j].0 == v;
                    assert(j != i);
                    if j < i {
                        assert(self@.clients[j].0 == v);
                    } else {
                        assert(self@.clients[j - 1].0 == v);
                    }
                }
                assert forall|a: int, b: int|
                    0 <= a < self@.clients.len() && 0 <= b < self@.clients.len() && a != b
                    implies #[trigger] self@.clients[a].0 != #[trigger] self@.clients[b].0 by {
                    let a0 = if a < i { a } else { a + 1 };
                    let b0 = if b < i { b } else { b + 1 };
                    assert(self@.clients[a] == before.clients[a0]);
                    assert(self@.clients[b] == before.clients[b0]);
                }
                Some(entry.1)
            },
            None => None,
        }
    }

    /// Hands `message` to the channel of the client at position `index`;
    /// `Some(accepted)` there, `None` with nothing sent past the end.
    pub fn send_to_client_at(&mut self, index: usize, message: DataPipeMessage) -> (r: Option<bool>)
        requires
            old(self)@.wf(),
        ensures
            final(self)@.wf(),
            index >= old(self)@.clients.len() ==> r is None && final(self)@ == old(self)@,
            index < old(self)@.clients.len() ==> (r matches Some(accepted) && final(self)@
                == old(self)@.after_send_at(index as int, message, accepted)),
            index < old(self)@.clients.len() ==> final(self)@.clients[index as int].1.sent
                == old(self)@.clients[index as int].1.sent.push((message, r->0)),
            index < old(self)@.clients.len() ==> final(self)@.clients[index as int].1.channel
                == old(self)@.clients[index as int].1.channel,
            forall|j: int| 0 <= j < old(self)@.clients.len() && j != index
                ==> #[trigger] final(self)@.clients[j] == old(self)@.clients[j],
    {
        if index >= self.clients.len() {
            return None;
        }
        let ghost before = self@;
        let ghost handed = message;
        let mut entry = self.clients.remove(index);
        let accepted = entry.1.sender.send(message);
        self.clients.insert(index, entry);
        assert(self@.clients =~= before.after_send_at(index as int, handed, accepted).clients);
        assert(self@.lookup == before.lookup);
        assert forall|h: u32| #[trigger] self@.lookup.contains_key(h) implies self@.contains(self@.lookup[h]) by {
            let j = choose|j: int| 0 <= j < before.clients.len() && #[trigger] before.clients[j].0 == before.lookup[h];
            assert(self@.clients[j].0 == before.clients[j].0);
        }
        Some(accepted)
    }

    pub fn len(&self) -> (n: usize)
        ensures
            n == self@.clients.len(),
    {
        self.clients.len()
    }

    pub fn is_empty(&self) -> (b: bool)
        ensures
            b == (self@.clients.len() == 0),
    {
        self.clients.len() == 0
    }

    /// The client at position `index` of the registry.
    pub fn get_by_index(&self, index: usize) -> (r: Option<&Client>)
        ensures
            index < self@.clients.len() ==> (r matches Some(c) && c@ == self@.clients[index as int].1),
            index >= self@.clients.len() ==> r is None,
    {
        if index < self.clients.len() {
            Some(&self.clients[index].1)
        } else {
            None
        }
    }
}


/// A client that `add` registers is found under its identifier, as it was
/// given; the registry stays well formed.
pub proof fn law_added_client_is_found(m: ClientsManagerView, id: Seq<char>, c: ClientView)
    requires
        m.wf(),
        !m.contains(id),
    ensures
        m.after_add(id, c).wf(),
        m.after_add(id, c).contains(id),
        m.after_add(id, c).client(id) == c,
{
    let m2 = m.after_add(id, c);
    let n = m.clients.len() as int;
    assert(m2.clients[n].0 == id);
    assert forall|h: u32| #[trigger] m2.lookup.contains_key(h) implies m2.contains(m2.lookup[h]) by {
        let j = choose|j: int| 0 <= j < m.clients.len() && #[trigger] m.clients[j].0 == m.lookup[h];
        assert(m2.clients[j].0 == m.clients[j].0);
    }
}

/// Registering an identifier that is registered already changes nothing.
pub proof fn law_duplicate_client_changes_nothing(m: ClientsManagerView, id: Seq<char>, c: ClientView)
    requires
        m.contains(id),
    ensures
        m.after_add(id, c) == m,
{
}

/// After a subscription, its (topic, group) counts as subscribed, a second
/// subscription to the same pair is refused, and the subscriber's list ends
/// with it where the pair was new.
pub proof fn law_added_subscription_is_found(
    m: ClientsManagerView,
    id: Seq<char>,
    sub: (Seq<char>, Seq<char>),
)
    requires
        m.wf(),
        m.contains(id),
    ensures
        m.after_add_subscription(id, sub).has_subscription(sub.1, sub.0),
        m.after_add_subscription(id, sub).after_add_subscription(id, sub) == m.after_add_subscription(id, sub),
        !m.has_subscription(sub.1, sub.0) ==> m.after_add_subscription(id, sub).client(id).subscriptions
            == m.client(id).subscriptions.push(sub),
{
    let m2 = m.after_add_subscription(id, sub);
    if !m.has_subscription(sub.1, sub.0) {
        let i = m.index_of(id);
        assert(m.clients[i].0 == id);
        assert(m2.clients[i].0 == id);
        assert forall|k: int| 0 <= k < m2.clients.len() && #[trigger] m2.clients[k].0 == id implies k == i by {
            if k != i {
                assert(m2.clients[k] == m.clients[k]);
            }
        }
    }
}

/// After an unsubscription from (topic, group) the client keeps no
/// subscription with that topic or that group.
pub proof fn law_unsubscribed_client_keeps_no_related_subscription(
    m: ClientsManagerView,
    id: Seq<char>,
    topic: Seq<char>,
    group: Seq<char>,
)
    requires
        m.wf(),
        m.contains(id),
        m.has_subscription(topic, group),
    ensures
        forall|k: int|
            0 <= k < m.after_remove_subscription(id, topic, group).client(id).subscriptions.len()
                ==> #[trigger] m.after_remove_subscription(id, topic, group).client(id).subscriptions[k].1
                != topic && m.after_remove_subscription(id, topic, group).client(id).subscriptions[k].0
                != group,
{
    let m2 = m.after_remove_subscription(id, topic, group);
    let i = m.index_of(id);
    assert(m.clients[i].0 == id);
    assert(m2.clients[i].0 == id);
    assert forall|k: int| 0 <= k < m2.clients.len() && #[trigger] m2.clients[k].0 == id implies k == i by {
        if k != i {
            assert(m2.clients[k] == m.clients[k]);
        }
    }
    let pred = unrelated_to(topic, group);
    let kept = m.client(id).subscriptions.filter(pred);
    assert(m2.client(id).subscriptions == kept);
    assert forall|k: int| 0 <= k < kept.len() implies #[trigger] kept[k].1 != topic && kept[k].0 != group by {
        m.client(id).subscriptions.lemma_filter_pred(pred, k);
    }
}

/// After an unsubscription from (topic, group), that pair no longer counts
/// as subscribed.
pub proof fn law_removed_subscription_is_gone(
    m: ClientsManagerView,
    id: Seq<char>,
    topic: Seq<char>,
    group: Seq<char>,
)
    requires
        m.wf(),
        m.contains(id) || !m.has_subscription(topic, group),
    ensures
        !m.after_remove_subscription(id, topic, group).has_subscription(topic, group),
{
}

/// Subscribing to a pair that was not subscribed and unsubscribing from it
/// again leaves the recorded subscriptions as they were.
pub proof fn law_unsubscribe_undoes_subscribe(
    m: ClientsManagerView,
    id: Seq<char>,
    sub: (Seq<char>, Seq<char>),
)
    requires
        m.wf(),
        m.contains(id),
        !m.has_subscription(sub.1, sub.0),
    ensures
        m.after_add_subscription(id, sub).after_remove_subscription(id, sub.1, sub.0).lookup == m.lookup,
{
    let key = subscription_key(sub.1, sub.0);
    assert(m.after_add_subscription(id, sub).lookup.remove(key) =~= m.lookup);
}

/// After `remove(id)` the identifier is unknown and no subscription is
/// recorded for it; every other client is still registered, unchanged.
pub proof fn law_removed_client_is_gone(m: ClientsManagerView, id: Seq<char>, other: Seq<char>)
    requires
        m.wf(),
        m.contains(other),
        other != id,
    ensures
        !m.after_remove(id).contains(id),
        forall|h: u32| #[trigger] m.after_remove(id).lookup.contains_key(h) ==> m.after_remove(id).lookup[h] != id,
        m.after_remove(id).contains(other),
        m.after_remove(id).client(other) == m.client(other),
{
    let m2 = m.after_remove(id);
    let j = m.index_of(other);
    assert(m.clients[j].0 == other);
    if m.contains(id) {
        let i = m.index_of(id);
        assert(m.clients[i].0 == id);
        assert(i != j);
        let j2 = if j < i { j } else { j - 1 };
        assert(m2.clients[j2] == m.clients[j]);
        assert forall|k: int| 0 <= k < m2.clients.len() implies #[trigger] m2.clients[k].0 != id by {
            let k0 = if k < i { k } else { k + 1 };
            assert(m2.clients[k] == m.clients[k0]);
        }
        assert forall|k: int| 0 <= k < m2.clients.len() && #[trigger] m2.clients[k].0 == other implies k == j2 by {
            let k0 = if k < i { k } else { k + 1 };
            assert(m2.clients[k] == m.clients[k0]);
        }
    } else {
        assert(m2.clients[j].0 == other);
    }
}

/// Positions `0..len` enumerate the registered clients one to one: the
/// client at a position is the one registered under its identifier, and
/// every registered identifier stands at exactly one position.
pub proof fn law_positions_enumerate_clients(m: ClientsManagerView)
    requires
        m.wf(),
    ensures
        forall|i: int| 0 <= i < m.clients.len() ==> #[trigger] m.index_of(m.clients[i].0) == i,
        forall|id: Seq<char>|
            #[trigger] m.contains(id) ==> 0 <= m.index_of(id) < m.clients.len() && m.clients[m.index_of(
                id,
            )].0 == id,
{
    assert forall|i: int| 0 <= i < m.clients.len() implies #[trigger] m.index_of(m.clients[i].0) == i by {
        assert(m.contains(m.clients[i].0));
    }
}

/// Adding a client under a new identifier and removing it again gives back
/// the registry as it was.
pub proof fn law_remove_undoes_add(m: ClientsManagerView, id: Seq<char>, c: ClientView)
    requires
        m.wf(),
        !m.contains(id),
    ensures
        m.after_add(id, c).after_remove(id) == m,
        m.after_add(id, c).client(id) == c,
{
    law_added_client_is_found(m, id, c);
    let m2 = m.after_add(id, c);
    let n = m.clients.len() as int;
    assert(m2.clients[n].0 == id);
    assert(m2.index_of(id) == n);
    assert(m2.after_remove(id).clients =~= m.clients);
    assert forall|h: u32| #[trigger] m.lookup.contains_key(h) implies m.lookup[h] != id by {
        assert(m.contains(m.lookup[h]));
    }
    assert(m2.after_remove(id).lookup =~= m.lookup);
}

/// A message handed to the client at position `i` reaches that client alone:
/// afterwards the same identifiers are registered; that client keeps its
/// identifier, subscriptions and channel, and its record of what its channel
/// was handed gains exactly that message; every other registered client is
/// found as it was, its channel and record included; the registry stays well
/// formed.
pub proof fn law_send_reaches_only_that_client(
    m: ClientsManagerView,
    i: int,
    message: DataPipeMessage,
    accepted: bool,
)
    requires
        m.wf(),
        0 <= i < m.clients.len(),
    ensures
        ({
            let m2 = m.after_send_at(i, message, accepted);
            let id = m.clients[i].0;
            &&& m2.wf()
            &&& forall|other: Seq<char>| #[trigger] m2.contains(other) == m.contains(other)
            &&& m2.client(id).identifier == m.client(id).identifier
            &&& m2.client(id).subscriptions == m.client(id).subscriptions
            &&& m2.client(id).channel == m.client(id).channel
            &&& m2.client(id).sent == m.client(id).sent.push((message, accepted))
            &&& forall|other: Seq<char>|
                m.contains(other) && other != id ==> #[trigger] m2.client(other) == m.client(other)
        }),
{
    let m2 = m.after_send_at(i, message, accepted);
    let id = m.clients[i].0;
    assert forall|k: int| 0 <= k < m.clients.len() implies #[trigger] m2.clients[k].0 == m.clients[k].0 by {}
    assert forall|other: Seq<char>| #[trigger] m2.contains(other) == m.contains(other) by {
        if m.contains(other) {
            let k = choose|k: int| 0 <= k < m.clients.len() && #[trigger] m.clients[k].0 == other;
            assert(m2.clients[k].0 == other);
        }
        if m2.contains(other) {
            let k = choose|k: int| 0 <= k < m2.clients.len() && #[trigger] m2.clients[k].0 == other;
            assert(m.clients[k].0 == other);
        }
    }
    assert forall|h: u32| #[trigger] m2.lookup.contains_key(h) implies m2.contains(m2.lookup[h]) by {
        assert(m.contains(m.lookup[h]));
        assert(m2.contains(m.lookup[h]));
    }
    assert(m2.wf());
    assert(m.contains(id));
    assert(m2.contains(id));
    assert(m.index_of(id) == i);
    assert(m2.index_of(id) == i);
    assert forall|other: Seq<char>|
        m.contains(other) && other != id implies #[trigger] m2.client(other) == m.client(other) by {
        assert(m2.contains(other));
        let k = m.index_of(other);
        let k2 = m2.index_of(other);
        assert(m2.clients[k2].0 == other);
        assert(m.clients[k2].0 == other);
        assert(k == k2);
        assert(k != i);
    }
}

} // verus!
