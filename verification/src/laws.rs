//! What holds of the handle across calls, and of the router for every event.

use vstd::prelude::*;
use crate::client::{direct_publication, encrypts, received, WsClient};
use crate::codec::{is_public_key, public_key_of, published_by, relay_message_of, InboundView};
use crate::error::Error;
use crate::event::{Event, EventBuilder, EventView, PublicKey, ENCRYPTED_DIRECT_MESSAGE};
use crate::message::{Polled, RecvMsg, Sent};
use crate::router::{decrypted, delivery_view, opened, routed};

verus! {

/// After `stop`, or after the handle's destructor, a look into the inbound
/// queue is refused with `NotConnected`, whatever the queue holds, and
/// changes nothing.
pub proof fn stopped_handle_receives_nothing(
    before: WsClient,
    stopped: WsClient,
    after: WsClient,
    polled: Polled<RecvMsg>,
    delivery: Result<Option<Event>, Error>,
)
    requires
        stopped.stopped_from(before),
        after.received_from(stopped, polled, delivery),
    ensures
        delivery == Err::<Option<Event>, Error>(Error::NotConnected),
        after.unchanged_from(stopped),
{
}

/// After `stop`, publishing an event and both subscriptions are refused with
/// `NotConnected`, and nothing is handed to the outbound queue.
pub proof fn stopped_handle_sends_nothing(
    before: WsClient,
    stopped: WsClient,
    after: WsClient,
    event: EventBuilder,
    kind: u16,
    back: u64,
    status: Result<(), Error>,
)
    requires
        stopped.stopped_from(before),
        after.published_from(stopped, event, status) || after.subscribed_dm_from(stopped, status)
            || after.subscribed_since_from(stopped, kind, back, status),
    ensures
        status == Err::<(), Error>(Error::NotConnected),
        after.unchanged_from(stopped),
{
}

/// After `stop`, a direct message to a receiver whose key is a public key
/// is refused with `NotConnected`, and nothing is handed to the outbound
/// queue.
pub proof fn stopped_handle_sends_no_direct_message(
    before: WsClient,
    stopped: WsClient,
    after: WsClient,
    content: Seq<char>,
    receiver: PublicKey,
    status: Result<(), Error>,
)
    requires
        stopped.stopped_from(before),
        after.dm_sent_from(stopped, content, receiver, status),
        is_public_key(receiver.bytes@),
    ensures
        status == Err::<(), Error>(Error::NotConnected),
        after.unchanged_from(stopped),
{
}

/// A connected handle that finds its inbound queue empty reports no event
/// and no error, and stays connected.
pub proof fn empty_queue_is_no_event(
    before: WsClient,
    after: WsClient,
    delivery: Result<Option<Event>, Error>,
)
    requires
        before.connected(),
        after.received_from(before, Polled::Empty, delivery),
    ensures
        delivery == Ok::<Option<Event>, Error>(None),
        after.unchanged_from(before),
{
}

/// The close message is reported once: the look that finds it answers
/// `ConnectionClosed` and disconnects the handle, and the next look answers
/// `NotConnected`, whatever the queue holds by then.
pub proof fn close_is_reported_once(
    before: WsClient,
    closed: WsClient,
    after: WsClient,
    first: Result<Option<Event>, Error>,
    polled: Polled<RecvMsg>,
    second: Result<Option<Event>, Error>,
)
    requires
        before.connected(),
        closed.received_from(before, Polled::Item(RecvMsg::Close), first),
        after.received_from(closed, polled, second),
    ensures
        first == Err::<Option<Event>, Error>(Error::ConnectionClosed),
        !closed.connected(),
        second == Err::<Option<Event>, Error>(Error::NotConnected),
        !after.connected(),
{
}

/// Nothing but the close message and `stop` disconnects a handle: after any
/// other look into the inbound queue a connected handle is still connected.
pub proof fn only_close_disconnects(
    before: WsClient,
    after: WsClient,
    polled: Polled<RecvMsg>,
    delivery: Result<Option<Event>, Error>,
)
    requires
        before.connected(),
        after.received_from(before, polled, delivery),
        polled != Polled::Item(RecvMsg::Close),
    ensures
        after.connected(),
        !(delivery matches Err(Error::ConnectionClosed)),
        !(delivery matches Err(Error::NotConnected)),
{
    match polled {
        Polled::Item(RecvMsg::Msg(text)) => {
            let decoded = relay_message_of(text@);
            assert(delivery_view(delivery) == routed(before.keys().secret_view(), decoded));
        },
        _ => {},
    }
}

/// The second of two calls of `stop` hands nothing to the outbound queue,
/// and so does the destructor of a handle that was stopped: over both, one
/// stop request is handed over if the handle was connected, and none else.
pub proof fn second_stop_sends_nothing(before: WsClient, once: WsClient, twice: WsClient)
    requires
        once.stopped_from(before),
        twice.stopped_from(once),
    ensures
        twice.unchanged_from(once),
        twice.offered() == if before.connected() {
            before.offered().push(Sent::Stop)
        } else {
            before.offered()
        },
        twice.outbox() == before.outbox() || twice.outbox() == before.outbox().push(Sent::Stop),
{
}

/// A payload that is no message is reported as a decoding error and leaves
/// the handle as it was: still connected, and answering the next look as
/// the handle before would have.
pub proof fn malformed_payload_keeps_connection(
    before: WsClient,
    after: WsClient,
    text: String,
    delivery: Result<Option<Event>, Error>,
    next: Polled<RecvMsg>,
)
    requires
        before.connected(),
        relay_message_of(text@) is Err,
        after.received_from(before, Polled::Item(RecvMsg::Msg(text)), delivery),
    ensures
        delivery == Err::<Option<Event>, Error>(Error::RawRelayMessage) || delivery == Err::<
            Option<Event>,
            Error,
        >(Error::RelayMessage),
        after.unchanged_from(before),
        received(after.connected(), after.keys().secret_view(), next) == received(
            before.connected(),
            before.keys().secret_view(),
            next,
        ),
{
}

/// What was handed to the outbound queue stays, in its order, and each call
/// adds one message at most; what the queue took is among what it was
/// handed. No call changes the keys, and none connects a handle again.
pub proof fn outbox_only_grows(
    before: WsClient,
    after: WsClient,
    event: EventBuilder,
    content: Seq<char>,
    receiver: PublicKey,
    kind: u16,
    back: u64,
    status: Result<(), Error>,
)
    requires
        after.stopped_from(before) || after.published_from(before, event, status)
            || after.dm_sent_from(before, content, receiver, status) || after.subscribed_dm_from(
            before,
            status,
        ) || after.subscribed_since_from(before, kind, back, status),
    ensures
        before.offered().is_prefix_of(after.offered()),
        after.offered().len() <= before.offered().len() + 1,
        before.outbox().is_prefix_of(after.outbox()),
        after.outbox() == before.outbox() || (after.offered().len() == before.offered().len() + 1
            && after.outbox() == before.outbox().push(after.offered().last())),
        after.keys() == before.keys(),
        after.connected() ==> before.connected(),
{
}

/// A direct message that was sent can be read by its receiver: the text
/// that the outbound queue took publishes, under the sender's key, a direct
/// message whose content the owner of the receiver's key decrypts to what
/// was sent.
pub proof fn sent_direct_message_is_readable(
    before: WsClient,
    after: WsClient,
    content: Seq<char>,
    receiver: PublicKey,
    reader: Seq<u8>,
)
    requires
        after.dm_sent_from(before, content, receiver, Ok(())),
        public_key_of(reader) == Some(receiver.bytes@),
    ensures
        exists|text: Seq<char>, cipher: Seq<char>|
            {
                &&& after.outbox() == before.outbox().push(Sent::Text(text))
                &&& #[trigger] published_by(text) == Some(
                    #[trigger] direct_publication(before.author(), cipher, receiver.bytes@),
                )
                &&& decrypted(reader, before.author(), cipher) == Some(content)
            },
{
    let (text, cipher) = choose|text: Seq<char>, cipher: Seq<char>|
        {
            &&& encrypts(cipher, content, before.author(), receiver.bytes@)
            &&& #[trigger] published_by(text) == Some(
                #[trigger] direct_publication(before.author(), cipher, receiver.bytes@),
            )
            &&& after.queued_from(before, text, Ok(()))
        };
    assert(decrypted(reader, before.author(), cipher) == Some(content));
}

/// The round trip of a direct message: an event of the direct-message kind
/// from `author` whose content is a cipher text of `content` for the
/// receiver's key comes out of the receiver's router with `content` in
/// place of the cipher text, and all else as it came.
pub proof fn receiver_reads_what_was_encrypted(
    reader: Seq<u8>,
    receiver: Seq<u8>,
    content: Seq<char>,
    event: EventView,
)
    requires
        public_key_of(reader) == Some(receiver),
        event.kind == ENCRYPTED_DIRECT_MESSAGE,
        encrypts(event.content, content, event.pubkey, receiver),
    ensures
        routed(reader, Ok(InboundView::Event(event))) == Ok::<Option<EventView>, Error>(
            Some(EventView { content, ..event }),
        ),
{
}

/// The router decrypts a direct message once: what it delivers is the event
/// with the plain text of the content as it came, or the decryption error.
/// An event of another kind is delivered as it came, and asking to decrypt
/// it is refused with `NotNip04`.
pub proof fn router_decrypts_direct_messages_once(secret: Seq<u8>, event: EventView)
    ensures
        event.kind == ENCRYPTED_DIRECT_MESSAGE ==> routed(secret, Ok(InboundView::Event(event)))
            == match decrypted(secret, event.pubkey, event.content) {
            Some(plain) => Ok::<Option<EventView>, Error>(
                Some(EventView { content: plain, ..event }),
            ),
            None => Err::<Option<EventView>, Error>(Error::Nip04Decrypt),
        },
        event.kind != ENCRYPTED_DIRECT_MESSAGE ==> routed(secret, Ok(InboundView::Event(event)))
            == Ok::<Option<EventView>, Error>(Some(event)),
        event.kind != ENCRYPTED_DIRECT_MESSAGE ==> opened(secret, event) == Err::<
            EventView,
            Error,
        >(Error::NotNip04),
{
}

} // verus!
