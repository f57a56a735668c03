use vstd::prelude::*;

use crate::channel::{channel_slots, next_power_of_two, receives_from, MessageSender};
use crate::data::client::Client;
use crate::data::clients_manager::ClientsManager;
use crate::data::error::{DataPipeError, DataPipeResult};
use crate::data::messaging::data_pipe_message::DataPipeMessage;
use tokio::sync::broadcast::Receiver;
use vstd::utf8::{encode_utf8, valid_utf8};

verus! {

/// A frame read from a client's web socket, told apart as the reader needs.
pub enum IncomingFrame {
    Text(Vec<u8>),
    Binary,
    Ping,
    Pong,
    Close,
}

/// What the reader of a web socket does with a frame.
pub enum ReaderAction {
    /// Hand the text to the consumers.
    Deliver(String),
    /// Skip a text frame that is not UTF-8.
    SkipInvalidText,
    /// Only note the frame.
    Note,
    /// The client closed: unregister it.
    RemoveClient,
}

/// Calls `String::from_utf8`, which std documents to succeed exactly on
/// valid UTF-8 and to keep the bytes; claims that.
#[verifier::external_body]
fn string_from_utf8(bytes: Vec<u8>) -> (r: Option<String>)
    ensures
        r is Some == valid_utf8(bytes@),
        r matches Some(s) ==> encode_utf8(s@) == bytes@,
{
    String::from_utf8(bytes).ok()
}

/// The reader's decision for one frame.
pub fn reader_action(frame: IncomingFrame) -> (a: ReaderAction)
    ensures
        match frame {
            IncomingFrame::Text(bytes) => if valid_utf8(bytes@) {
                a matches ReaderAction::Deliver(s) && encode_utf8(s@) == bytes@
            } else {
                a is SkipInvalidText
            },
            IncomingFrame::Close => a is RemoveClient,
            _ => a is Note,
        },
{
    match frame {
        IncomingFrame::Text(bytes) => match string_from_utf8(bytes) {
            Some(s) => ReaderAction::Deliver(s),
            None => ReaderAction::SkipInvalidText,
        },
        IncomingFrame::Close => ReaderAction::RemoveClient,
        _ => ReaderAction::Note,
    }
}

/// Unregisters a client whose socket closed, with its subscriptions.
pub fn remove_closed_client(clients: &mut ClientsManager, client_id: &str)
    requires
        old(clients)@.wf(),
    ensures
        final(clients)@.wf(),
        final(clients)@ == old(clients)@.after_remove(client_id@),
{
    if clients.contains(client_id) {
        let _ = clients.remove(client_id);
    } else {
        proof {
            assert(old(clients)@.after_remove(client_id@).lookup =~= old(clients)@.lookup);
        }
    }
}

/// Registers a client that connected with `client_id`, with a channel of
/// `capacity` messages (rounded up to a power of two); refused where that
/// identifier is registered.
pub fn register_client(clients: &mut ClientsManager, client_id: &str, capacity: usize) -> (r: DataPipeResult<()>)
    requires
        old(clients)@.wf(),
        0 < capacity <= usize::MAX / 2,
    ensures
        final(clients)@.wf(),
        r is Err == old(clients)@.contains(client_id@),
        r matches Err(e) ==> e is ClientAlreadyExist,
        old(clients)@.contains(client_id@) ==> final(clients)@ == old(clients)@,
        !old(clients)@.contains(client_id@) ==> {
            let c = final(clients)@.clients.last().1;
            &&& final(clients)@ == old(clients)@.after_add(client_id@, c)
            &&& c.identifier == client_id@
            &&& c.subscriptions == Seq::<(Seq<char>, Seq<char>)>::empty()
            &&& c.sent == Seq::<(DataPipeMessage, bool)>::empty()
            &&& channel_slots(c.channel) == next_power_of_two(capacity as nat)
        },
{
    if clients.contains(client_id) {
        return Err(DataPipeError::ClientAlreadyExist);
    }
    let client = Client::new(client_id.to_owned(), capacity);
    assert(client@.subscriptions =~= Seq::<(Seq<char>, Seq<char>)>::empty());
    let _ = clients.add(client_id, client);
    Ok(())
}

/// A receiver of the messages routed to client `identifier`.
pub fn get_receiver_by_client_identifier(clients: &ClientsManager, identifier: &str) -> (r: DataPipeResult<Receiver<DataPipeMessage>>)
    requires
        clients@.wf(),
    ensures
        r is Err == !clients@.contains(identifier@),
        r matches Err(e) ==> e is Unknown,
        r matches Ok(receiver) ==> receives_from(receiver, clients@.client(identifier@).channel),
{
    if !clients.contains(identifier) {
        return Err(DataPipeError::Unknown);
    }
    match clients.get(identifier) {
        Some(client) => Ok(client.sender.subscribe()),
        None => Err(DataPipeError::Unknown),
    }
}

/// What becomes of a text received from a web socket, with `parsed`, what it
/// reads as (`None` where it is no message), when `receivers` consumers
/// listen: refused where no one listens, refused with the text where it is
/// no message, and otherwise the message to hand to the consumers.
pub fn receive_decision(
    receivers: usize,
    message: String,
    parsed: Option<DataPipeMessage>,
) -> (r: Result<DataPipeMessage, DataPipeError>)
    ensures
        receivers == 0 ==> (r matches Err(e) && e is ReceiveMessageFailed),
        receivers > 0 && parsed is None ==> (r matches Err(DataPipeError::CantParseMessage(m))
            && m == message),
        receivers > 0 && parsed is Some ==> r == Ok::<DataPipeMessage, DataPipeError>(
            parsed->0,
        ),
{
    if receivers > 0 {
        match parsed {
            None => Err(DataPipeError::CantParseMessage(message)),
            Some(m) => Ok(m),
        }
    } else {
        Err(DataPipeError::ReceiveMessageFailed)
    }
}

/// Hands a text received from a web socket, and `parsed`, what it reads as,
/// to the consumers listening on `sender`. It reads the number of receivers
/// once, which the record of counts of `sender` gains. Where that number is
/// zero, nothing is sent and the result is `ReceiveMessageFailed`; where some
/// receiver listens and the text is no message, nothing is sent and the text
/// comes back in `CantParseMessage`; where some receiver listens and the text
/// is a message, exactly that message is handed to the channel, and the
/// result is `Ok` where the channel accepted it and `SendMessageFailed` where
/// it did not.
pub fn try_receive_message(
    sender: &mut MessageSender,
    message: String,
    parsed: Option<DataPipeMessage>,
) -> (r: DataPipeResult<()>)
    ensures
        final(sender).handle() == old(sender).handle(),
        final(sender).count_log().len() == old(sender).count_log().len() + 1,
        final(sender).count_log() == old(sender).count_log().push(final(sender).count_log().last()),
        final(sender).count_log().last() == 0 ==> final(sender).sent_log() == old(sender).sent_log()
            && (r matches Err(e) && e is ReceiveMessageFailed),
        final(sender).count_log().last() > 0 && parsed is None ==> final(sender).sent_log()
            == old(sender).sent_log() && (r matches Err(DataPipeError::CantParseMessage(m))
            && m == message),
        final(sender).count_log().last() > 0 && parsed is Some ==> final(sender).sent_log()
            == old(sender).sent_log().push((parsed->0, r is Ok)) && (r matches Err(e)
            ==> e is SendMessageFailed),
        r matches Err(e) && e is ReceiveMessageFailed ==> final(sender).count_log().last() == 0,
        parsed is None ==> final(sender).sent_log() == old(sender).sent_log() && (r matches Err(e)
            && (e is ReceiveMessageFailed || (e matches DataPipeError::CantParseMessage(m) && m
            == message))),
        parsed matches Some(p) ==> {
            ||| final(sender).sent_log() == old(sender).sent_log() && (r matches Err(e)
                && e is ReceiveMessageFailed)
            ||| final(sender).sent_log() == old(sender).sent_log().push((p, r is Ok)) && (r matches Err(e)
                ==> e is SendMessageFailed)
        },
{
    let receivers = sender.receiver_count();
    match receive_decision(receivers, message, parsed) {
        Ok(m) => {
            if sender.send(m) {
                Ok(())
            } else {
                Err(DataPipeError::SendMessageFailed)
            }
        },
        Err(e) => Err(e),
    }
}

} // verus!
