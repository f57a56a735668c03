use vstd::prelude::*;

use crate::data::client_subscription_info::{subscriptions_view, ClientSubscriptionInfo};
use crate::data::error::{DataPipeError, DataPipeResult};
use crate::data::messaging::data_pipe_message_header::DataPipeMessageHeader;
use crate::data::messaging::data_pipe_message_type::{message_type_name, DataPipeMessageType};
use vstd::utf8::encode_utf8;

verus! {

#[verifier::external_type_specification]
#[verifier::external_body]
pub struct ExMsgpackEncodeError(rmp_serde::encode::Error);

#[verifier::external_type_specification]
#[verifier::external_body]
pub struct ExMsgpackDecodeError(rmp_serde::decode::Error);

/// `n` as two big-endian bytes.
pub open spec fn be_u16(n: nat) -> Seq<u8> {
    seq![((n / 0x100) % 0x100) as u8, (n % 0x100) as u8]
}

/// `n` as four big-endian bytes.
pub open spec fn be_u32(n: nat) -> Seq<u8> {
    seq![
        ((n / 0x100_0000) % 0x100) as u8,
        ((n / 0x1_0000) % 0x100) as u8,
        ((n / 0x100) % 0x100) as u8,
        (n % 0x100) as u8,
    ]
}

/// A MessagePack string header for a length, which is written as a `u32`
/// and so taken modulo 2^32: fixstr, str8, str16 or str32, the shortest.
pub open spec fn msgpack_str_header(len: nat) -> Seq<u8> {
    let l = len % 0x1_0000_0000;
    if l < 32 {
        seq![(0xa0 + l) as u8]
    } else if l < 0x100 {
        seq![0xd9u8, l as u8]
    } else if l < 0x1_0000 {
        seq![0xdau8] + be_u16(l)
    } else {
        seq![0xdbu8] + be_u32(l)
    }
}

/// A MessagePack array header for a length, which is written as a `u32` and
/// so taken modulo 2^32: fixarray, array16 or array32, the shortest.
pub open spec fn msgpack_array_header(len: nat) -> Seq<u8> {
    let l = len % 0x1_0000_0000;
    if l < 16 {
        seq![(0x90 + l) as u8]
    } else if l < 0x1_0000 {
        seq![0xdcu8] + be_u16(l)
    } else {
        seq![0xddu8] + be_u32(l)
    }
}

/// A string in MessagePack: its header, then its UTF-8 bytes.
pub open spec fn msgpack_str(s: Seq<char>) -> Seq<u8> {
    msgpack_str_header(encode_utf8(s).len()) + encode_utf8(s)
}

/// The elements of a list of string pairs, each a two-element array.
pub open spec fn msgpack_pairs_elements(pairs: Seq<(Seq<char>, Seq<char>)>) -> Seq<u8>
    decreases pairs.len(),
{
    if pairs.len() == 0 {
        Seq::empty()
    } else {
        msgpack_pairs_elements(pairs.drop_last()) + seq![0x92u8] + msgpack_str(pairs.last().0)
            + msgpack_str(pairs.last().1)
    }
}

/// The bytes that rmp_serde writes, in its compact form, for a list of
/// string pairs: an array header, then each pair as a two-element array of
/// strings.
pub open spec fn msgpack_pairs_encoding(pairs: Seq<(Seq<char>, Seq<char>)>) -> Seq<u8> {
    msgpack_array_header(pairs.len()) + msgpack_pairs_elements(pairs)
}

/// Whether every length that the encoding writes fits in a `u32`.
pub open spec fn msgpack_lengths_fit(pairs: Seq<(Seq<char>, Seq<char>)>) -> bool {
    &&& pairs.len() < 0x1_0000_0000
    &&& forall|i: int|
        0 <= i < pairs.len() ==> encode_utf8(#[trigger] pairs[i].0).len() < 0x1_0000_0000
            && encode_utf8(pairs[i].1).len() < 0x1_0000_0000
}

/// What `rmp_serde::from_slice` reads from `bytes` as a list of string
/// pairs; `None` where it reports an error.
pub uninterp spec fn msgpack_pairs_decoding(bytes: Seq<u8>) -> Option<Seq<(Seq<char>, Seq<char>)>>;

/// Serialises the pairs with `rmp_serde::encode::write` into a `Vec<u8>`
/// (compact form: tuples and lists as arrays). Claims that it succeeds, since
/// writing into a `Vec<u8>` never reports an error and strings, pairs and a
/// list of known length are never refused; that the bytes are the encoding
/// above; and that, where every length fits in a `u32`, `rmp_serde::from_slice`
/// reads them back as the same pairs (longer lengths are cut to 32 bits).
#[verifier::external_body]
fn encode_pairs(pairs: &Vec<(String, String)>) -> (r: Result<Vec<u8>, rmp_serde::encode::Error>)
    ensures
        r is Ok,
        r matches Ok(bytes) ==> bytes@ == msgpack_pairs_encoding(pairs.deep_view()),
        r matches Ok(bytes) ==> (msgpack_lengths_fit(pairs.deep_view()) ==> msgpack_pairs_decoding(bytes@)
            == Some(pairs.deep_view())),
{
    let mut buffer: Vec<u8> = Vec::new();
    match rmp_serde::encode::write(&mut buffer, pairs) {
        Ok(()) => Ok(buffer),
        Err(e) => Err(e),
    }
}

/// Calls `rmp_serde::from_slice` to read a list of string pairs. Claims that
/// it succeeds exactly where the decoding is defined, with that result.
#[verifier::external_body]
fn decode_pairs(bytes: &[u8]) -> (r: Result<Vec<(String, String)>, rmp_serde::decode::Error>)
    ensures
        (r is Ok) == (msgpack_pairs_decoding(bytes@) is Some),
        r matches Ok(pairs) ==> msgpack_pairs_decoding(bytes@) == Some(pairs.deep_view()),
{
    rmp_serde::from_slice(bytes)
}

/// The wire form of subscriptions: each one as its (group, topic) pair.
fn subscriptions_to_pairs(infos: &[ClientSubscriptionInfo]) -> (pairs: Vec<(String, String)>)
    ensures
        pairs.deep_view() == subscriptions_view(infos@),
{
    let mut pairs: Vec<(String, String)> = Vec::new();
    let n = infos.len();
    for i in 0..n
        invariant
            n == infos@.len(),
            pairs.deep_view() =~= subscriptions_view(infos@.take(i as int)),
    {
        let info = &infos[i];
        let ghost before = pairs.deep_view();
        pairs.push((info.group.clone(), info.topic.clone()));
        assert(pairs.deep_view() =~= before.push(infos@[i as int]@));
        assert(infos@.take(i + 1) =~= infos@.take(i as int).push(infos@[i as int]));
    }
    assert(infos@.take(n as int) =~= infos@);
    pairs
}

/// Subscriptions read back from their wire form.
fn pairs_to_subscriptions(pairs: Vec<(String, String)>) -> (infos: Vec<ClientSubscriptionInfo>)
    ensures
        subscriptions_view(infos@) == pairs.deep_view(),
{
    let mut infos: Vec<ClientSubscriptionInfo> = Vec::new();
    let n = pairs.len();
    for i in 0..n
        invariant
            n == pairs@.len(),
            infos@.len() == i,
            subscriptions_view(infos@) =~= pairs.deep_view().take(i as int),
    {
        let pair = &pairs[i];
        let ghost before = infos@;
        infos.push(ClientSubscriptionInfo { group: pair.0.clone(), topic: pair.1.clone() });
        assert(subscriptions_view(infos@) =~= subscriptions_view(before).push(pairs.deep_view()[i as int]));
        assert(pairs.deep_view().take(i + 1) =~= pairs.deep_view().take(i as int).push(pairs.deep_view()[i as int]));
    }
    assert(pairs.deep_view().take(n as int) =~= pairs.deep_view());
    infos
}

/// A message carried by the pipe.
pub struct DataPipeMessage {
    pub client_identifier: String,
    pub message_identifier: String,
    pub headers: Vec<DataPipeMessageHeader>,
    pub message_type: DataPipeMessageType,
    pub data: Vec<u8>,
    pub topic: Option<String>,
}

/// The text shown for a message:
/// `Message from <client>, type <type>, topic <topic or ->`.
pub open spec fn message_display(m: DataPipeMessage) -> Seq<char> {
    "Message from "@ + m.client_identifier@ + ", type "@ + message_type_name(m.message_type)
        + ", topic "@ + match m.topic {
        Some(t) => t@,
        None => "-"@,
    }
}

impl DataPipeMessage {
    pub fn new(
        client_identifier: String,
        message_identifier: String,
        message_type: DataPipeMessageType,
        data: Vec<u8>,
        topic: Option<String>,
        headers: Vec<DataPipeMessageHeader>,
    ) -> (m: Self)
        ensures
            m.client_identifier == client_identifier,
            m.message_identifier == message_identifier,
            m.message_type == message_type,
            m.data == data,
            m.topic == topic,
            m.headers == headers,
    {
        DataPipeMessage { client_identifier, message_identifier, message_type, data, topic, headers }
    }

    pub fn is_subscribe(&self) -> (b: bool)
        ensures
            b == (self.message_type == DataPipeMessageType::Subscribe),
    {
        self.message_type == DataPipeMessageType::Subscribe
    }

    pub fn is_unsubscribe(&self) -> (b: bool)
        ensures
            b == (self.message_type == DataPipeMessageType::Unsubscribe),
    {
        self.message_type == DataPipeMessageType::Unsubscribe
    }

    /// A message of type `kind` whose data is the MessagePack form of the
    /// subscriptions.
    fn with_subscription_kind(
        client_identifier: String,
        message_identifier: String,
        subscription_infos: &[ClientSubscriptionInfo],
        topic: Option<String>,
        headers: Vec<DataPipeMessageHeader>,
        kind: DataPipeMessageType,
    ) -> (r: DataPipeResult<Self>)
        requires
            kind != DataPipeMessageType::Default,
        ensures
            r matches Ok(m) && m.carries_subscriptions(
                client_identifier,
                message_identifier,
                subscription_infos@,
                topic,
                headers,
                kind,
            ),
    {
        let pairs = subscriptions_to_pairs(subscription_infos);
        match encode_pairs(&pairs) {
            Ok(buffer) => {
                proof {
                    assert(msgpack_array_header(pairs@.len() as nat).len() >= 1);
                }
                Ok(DataPipeMessage {
                client_identifier,
                message_identifier,
                message_type: kind,
                data: buffer,
                topic,
                headers,
            })
            },
            Err(_) => Err(DataPipeError::SerializationError),
        }
    }

    /// A subscription request carrying the subscriptions in its data.
    pub fn with_subscription(
        client_identifier: String,
        message_identifier: String,
        subscription_infos: &[ClientSubscriptionInfo],
        topic: Option<String>,
        headers: Vec<DataPipeMessageHeader>,
    ) -> (r: DataPipeResult<Self>)
        ensures
            r matches Ok(m) && m.carries_subscriptions(
                client_identifier,
                message_identifier,
                subscription_infos@,
                topic,
                headers,
                DataPipeMessageType::Subscribe,
            ),
    {
        Self::with_subscription_kind(
            client_identifier,
            message_identifier,
            subscription_infos,
            topic,
            headers,
            DataPipeMessageType::Subscribe,
        )
    }

    /// An unsubscription request carrying the subscriptions in its data.
    pub fn with_unsubscribe(
        client_identifier: String,
        message_identifier: String,
        subscription_infos: &[ClientSubscriptionInfo],
        topic: Option<String>,
        headers: Vec<DataPipeMessageHeader>,
    ) -> (r: DataPipeResult<Self>)
        ensures
            r matches Ok(m) && m.carries_subscriptions(
                client_identifier,
                message_identifier,
                subscription_infos@,
                topic,
                headers,
                DataPipeMessageType::Unsubscribe,
            ),
    {
        Self::with_subscription_kind(
            client_identifier,
            message_identifier,
            subscription_infos,
            topic,
            headers,
            DataPipeMessageType::Unsubscribe,
        )
    }

    /// This message is a request of type `kind` with the given fields whose
    /// data is the MessagePack form of the subscriptions (never empty), read
    /// back as the same subscriptions wherever every length fits in 32 bits.
    pub open spec fn carries_subscriptions(
        self,
        client_identifier: String,
        message_identifier: String,
        infos: Seq<ClientSubscriptionInfo>,
        topic: Option<String>,
        headers: Vec<DataPipeMessageHeader>,
        kind: DataPipeMessageType,
    ) -> bool {
        &&& self.client_identifier == client_identifier
        &&& self.message_identifier == message_identifier
        &&& self.message_type == kind
        &&& self.topic == topic
        &&& self.headers == headers
        &&& self.data@ == msgpack_pairs_encoding(subscriptions_view(infos))
        &&& self.data@.len() > 0
        &&& msgpack_lengths_fit(subscriptions_view(infos)) ==> self.subscription_data() == Some(
            subscriptions_view(infos),
        )
    }

    /// The subscriptions that the data of a (un)subscription request holds, as
    /// (group, topic) pairs: `None` for another type of message or for data
    /// that does not read as a list of subscriptions.
    pub open spec fn subscription_data(self) -> Option<Seq<(Seq<char>, Seq<char>)>> {
        if self.message_type == DataPipeMessageType::Default {
            None
        } else {
            msgpack_pairs_decoding(self.data@)
        }
    }

    /// The subscriptions carried by a subscription or unsubscription request.
    /// The data is read as a MessagePack list of two-string arrays (group,
    /// then topic), the form that `with_subscription` writes; an entry
    /// written as a map is refused.
    pub fn deserialize_subscription_data(&self) -> (r: DataPipeResult<Vec<ClientSubscriptionInfo>>)
        ensures
            self.message_type == DataPipeMessageType::Default ==> (r matches Err(
                DataPipeError::NotSuitableCall(s),
            ) && s@ == "Not allowed to get sub/unsub info"@),
            self.message_type != DataPipeMessageType::Default ==> match msgpack_pairs_decoding(
                self.data@,
            ) {
                Some(pairs) => r matches Ok(infos) && subscriptions_view(infos@) == pairs,
                None => r matches Err(e) && e is SerializationError,
            },
            r matches Ok(infos) ==> self.subscription_data() == Some(subscriptions_view(infos@)),
    {
        if !self.is_unsubscribe() && !self.is_subscribe() {
            return Err(DataPipeError::NotSuitableCall(String::from_str("Not allowed to get sub/unsub info")));
        }
        match decode_pairs(self.data.as_slice()) {
            Ok(pairs) => Ok(pairs_to_subscriptions(pairs)),
            Err(_) => Err(DataPipeError::SerializationError),
        }
    }

    /// `Message from <client>, type <type>, topic <topic or ->`.
    pub fn to_display_string(&self) -> (text: String)
        ensures
            text@ == message_display(*self),
    {
        let mut text = String::from_str("Message from ");
        text.append(self.client_identifier.as_str());
        text.append(", type ");
        let kind_name = self.message_type.to_display_string();
        text.append(kind_name.as_str());
        text.append(", topic ");
        match &self.topic {
            Some(t) => text.append(t.as_str()),
            None => text.append("-"),
        }
        text
    }
}

/// Two headers with the same key and value.
pub open spec fn same_header(a: DataPipeMessageHeader, b: DataPipeMessageHeader) -> bool {
    a.key == b.key && a.value == b.value
}

/// A copy of the headers.
fn clone_headers(headers: &Vec<DataPipeMessageHeader>) -> (copy: Vec<DataPipeMessageHeader>)
    ensures
        copy@.len() == headers@.len(),
        forall|i: int| 0 <= i < headers@.len() ==> same_header(#[trigger] copy@[i], headers@[i]),
{
    let mut copy: Vec<DataPipeMessageHeader> = Vec::new();
    let n = headers.len();
    for i in 0..n
        invariant
            n == headers@.len(),
            copy@.len() == i,
            forall|j: int| 0 <= j < i ==> same_header(#[trigger] copy@[j], headers@[j]),
    {
        let h = headers[i].clone();
        assert(h.key == headers@[i as int].key && h.value == headers@[i as int].value);
        let ghost before = copy@;
        copy.push(h);
        assert forall|j: int| 0 <= j < i + 1 implies same_header(#[trigger] copy@[j], headers@[j]) by {
            if j < i {
                assert(copy@[j] == before[j]);
            }
        }
    }
    copy
}

impl Clone for DataPipeMessage {
    fn clone(&self) -> (m: Self)
        ensures
            m.client_identifier == self.client_identifier,
            m.message_identifier == self.message_identifier,
            m.message_type == self.message_type,
            m.data@ == self.data@,
            m.topic == self.topic,
            m.headers@.len() == self.headers@.len(),
            forall|i: int| 0 <= i < self.headers@.len() ==> same_header(#[trigger] m.headers@[i], self.headers@[i]),
    {
        let data = self.data.clone();
        assert(data@ =~= self.data@);
        let topic = match &self.topic {
            Some(t) => Some(t.clone()),
            None => None,
        };
        DataPipeMessage {
            client_identifier: self.client_identifier.clone(),
            message_identifier: self.message_identifier.clone(),
            headers: clone_headers(&self.headers),
            message_type: self.message_type,
            data,
            topic,
        }
    }
}

impl Default for DataPipeMessage {
    fn default() -> (m: DataPipeMessage)
        ensures
            m.client_identifier@ == Seq::<char>::empty(),
            m.message_identifier@ == Seq::<char>::empty(),
            m.headers@ == Seq::<DataPipeMessageHeader>::empty(),
            m.message_type == DataPipeMessageType::Default,
            m.data@ == Seq::<u8>::empty(),
            m.topic is None,
    {
        DataPipeMessage {
            client_identifier: String::new(),
            message_identifier: String::new(),
            headers: Vec::new(),
            message_type: DataPipeMessageType::Default,
            data: Vec::new(),
            topic: None,
        }
    }
}

} // verus!
