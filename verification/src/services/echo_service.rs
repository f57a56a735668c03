use vstd::prelude::*;

use crate::common::utils::{create_random_message, is_uuid_v4_text};
use crate::data::messaging::data_pipe_message::DataPipeMessage;
use crate::data::messaging::data_pipe_message_type::DataPipeMessageType;
use crate::data::clients_manager::{law_send_reaches_only_that_client, ClientsManager};

verus! {

/// Calls `rand::random_range(0..high)`, a number drawn below `high`; rand
/// panics on an empty range, which `requires` leaves out. Claims only the
/// bound.
#[verifier::external_body]
fn random_index_below(high: usize) -> (i: usize)
    requires
        high > 0,
    ensures
        i < high,
{
    rand::random_range(0..high)
}

/// Whether `m` is a random message for the client `identifier`: its
/// identifier, the ordinary type, 500 bytes of data, a fresh version 4 UUID,
/// no topic and no headers.
pub open spec fn is_random_message_for(m: DataPipeMessage, identifier: Seq<char>) -> bool {
    &&& m.client_identifier@ == identifier
    &&& m.message_type == DataPipeMessageType::Default
    &&& m.data@.len() == 500
    &&& is_uuid_v4_text(m.message_identifier@)
    &&& m.topic is None
    &&& m.headers@.len() == 0
}

/// Hands a random message to the channel of a client drawn at random and
/// gives its position; `None`, with nothing sent, when no client is
/// registered. With several clients the draw is among all positions but the
/// last one. A refused send changes nothing else.
pub fn write_random_message_to_client(clients: &mut ClientsManager) -> (r: Option<usize>)
    requires
        old(clients)@.wf(),
    ensures
        final(clients)@.wf(),
        r is None == (old(clients)@.clients.len() == 0),
        r is None ==> final(clients)@ == old(clients)@,
        r matches Some(i) ==> {
            let last = final(clients)@.clients[i as int].1.sent.last();
            &&& i < old(clients)@.clients.len()
            &&& old(clients)@.clients.len() > 1 ==> i < old(clients)@.clients.len() - 1
            &&& final(clients)@ == old(clients)@.after_send_at(i as int, last.0, last.1)
            &&& is_random_message_for(last.0, old(clients)@.clients[i as int].1.identifier)
            &&& final(clients)@.clients[i as int].1.channel == old(clients)@.clients[i as int].1.channel
            &&& final(clients)@.clients[i as int].1.sent == old(clients)@.clients[i as int].1.sent.push(last)
            &&& forall|j: int| 0 <= j < old(clients)@.clients.len() && j != i
                ==> #[trigger] final(clients)@.clients[j] == old(clients)@.clients[j]
            &&& forall|other: Seq<char>| old(clients)@.contains(other) && other != old(clients)@.clients[i as int].0
                ==> #[trigger] final(clients)@.client(other) == old(clients)@.client(other)
        },
{
    if clients.is_empty() {
        return None;
    }
    let len = clients.len();
    let random_index = if len > 1 {
        random_index_below(len - 1)
    } else {
        0
    };
    let identifier = match clients.get_by_index(random_index) {
        Some(client) => client.identifier.clone(),
        None => {
            return None;
        },
    };
    let message = create_random_message(identifier);
    let ghost handed = message;
    let ghost before = clients@;
    let accepted = clients.send_to_client_at(random_index, message);
    proof {
        law_send_reaches_only_that_client(before, random_index as int, handed, accepted->0);
    }
    assert(clients@.clients[random_index as int].1.sent.last().0 == handed);
    Some(random_index)
}

} // verus!
