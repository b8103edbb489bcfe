//! The caller's handle on a connection.

use vstd::prelude::*;
use std::sync::mpsc::{Receiver, Sender};
use crate::codec::{
    decode_relay_message, fresh_subscription_id, has_empty_tag, has_sized_iv, is_public_key,
    nip04_encrypt, nip04_plaintext, public_key_of, public_key_tag, public_key_tag_of, publication,
    published_by, relay_message_of, signed_event_message, since_request, since_request_of,
    tagged_request, tagged_request_of, unix_now, Published,
};
use crate::error::Error;
use crate::event::{Event, EventBuilder, EventView, PublicKey, ENCRYPTED_DIRECT_MESSAGE};
use crate::keys::Keys;
use crate::message::{Polled, RecvMsg, SendMsg, Sent};
use crate::queue::{poll, Outbound};
use crate::router::{decrypted, delivery_view, opened, routed};

verus! {

/// The kind of the events that `subscribe_pool` asks for.
pub const POOL_KIND: u16 = 2022;

/// What a connected or disconnected handle answers to a look into the
/// inbound queue.
pub open spec fn received(connected: bool, secret: Seq<u8>, polled: Polled<RecvMsg>) -> Result<
    Option<EventView>,
    Error,
> {
    if !connected {
        Err(Error::NotConnected)
    } else {
        match polled {
            Polled::Item(RecvMsg::Close) => Err(Error::ConnectionClosed),
            Polled::Item(RecvMsg::Msg(text)) => routed(secret, relay_message_of(text@)),
            Polled::Empty => Ok(None),
            Polled::Disconnected => Err(Error::Receive),
        }
    }
}

/// Whether a handle is connected after a look into the inbound queue: it
/// stays as it was unless it was connected and found the close message.
pub open spec fn connected_after(connected: bool, polled: Polled<RecvMsg>) -> bool {
    connected && polled != Polled::Item(RecvMsg::Close)
}

/// The lower time bound of a subscription that reaches `back` seconds into
/// the past from `now`.
pub open spec fn since_bound(now: u64, back: u64) -> u64 {
    if now >= back {
        (now - back) as u64
    } else {
        0
    }
}

/// What the publication of a direct message says: written by `author`, of
/// the direct-message kind, holding the cipher text, with one tag, which
/// names the receiver.
pub open spec fn direct_publication(author: Seq<u8>, cipher: Seq<char>, receiver: Seq<u8>) -> Published {
    Published {
        author,
        kind: ENCRYPTED_DIRECT_MESSAGE,
        content: cipher,
        tags: seq![public_key_tag_of(receiver)],
    }
}

/// Whether `cipher` is a cipher text of `content` from `author` for
/// `receiver`: it ends in a vector of the cipher's size, and every reader
/// whose secret key belongs to the receiver's public key decrypts it to
/// `content`.
pub open spec fn encrypts(
    cipher: Seq<char>,
    content: Seq<char>,
    author: Seq<u8>,
    receiver: Seq<u8>,
) -> bool {
    &&& has_sized_iv(cipher)
    &&& forall|reader: Seq<u8>|
        public_key_of(reader) == Some(receiver) ==> #[trigger] nip04_plaintext(
            reader,
            author,
            cipher,
        ) == Some(content)
}

/// The event that carries a direct message: of the direct-message kind, with
/// the cipher text as content and one tag, which names the receiver.
pub fn direct_message(cipher: String, receiver: &PublicKey) -> (event: EventBuilder)
    ensures
        event.kind == ENCRYPTED_DIRECT_MESSAGE,
        event.content == cipher,
        event.tags.deep_view() == seq![public_key_tag_of(receiver.bytes@)],
{
    let mut tags: Vec<Vec<String>> = Vec::new();
    tags.push(public_key_tag(receiver));
    assert(tags.deep_view() =~= seq![public_key_tag_of(receiver.bytes@)]);
    EventBuilder::new(ENCRYPTED_DIRECT_MESSAGE, cipher, tags)
}

/// The caller's handle on a connection: the keys, the two queue ends and the
/// flag that says whether the connection is still in use.
pub struct WsClient {
    outbound: Outbound,
    receiver: Receiver<RecvMsg>,
    connected: bool,
    relays: Vec<String>,
    keys: Keys,
}

impl WsClient {
    /// A builder with nothing chosen yet.
    pub fn new() -> (builder: WsClientBuilder)
        ensures
            builder.chosen_relay() is None,
            builder.chosen_keys() is None,
    {
        WsClientBuilder { relay: None, keys: None }
    }

    /// Whether protocol operations are permitted.
    pub closed spec fn connected(self) -> bool {
        self.connected
    }

    /// The key pair, which never changes.
    pub closed spec fn keys(self) -> Keys {
        self.keys
    }

    /// The relay addresses.
    pub closed spec fn relays(self) -> Seq<Seq<char>> {
        self.relays.deep_view()
    }

    /// Everything that the outbound queue has taken from this handle, oldest
    /// first.
    pub closed spec fn outbox(self) -> Seq<Sent> {
        self.outbound.taken()
    }

    /// Everything that this handle has handed to the outbound queue, oldest
    /// first, whether the queue took it or not.
    pub closed spec fn offered(self) -> Seq<Sent> {
        self.outbound.offered()
    }

    /// The public key of the key pair, as bytes.
    pub open spec fn author(self) -> Seq<u8> {
        self.keys().public_view().bytes@
    }

    /// The handle of a session that runs at the other ends of the two
    /// queues. It starts connected.
    pub fn attach(
        relay: String,
        keys: Keys,
        sender: Sender<SendMsg>,
        receiver: Receiver<RecvMsg>,
    ) -> (handle: WsClient)
        ensures
            handle.connected(),
            handle.keys() == keys,
            handle.relays() == seq![relay@],
            handle.outbox() == Seq::<Sent>::empty(),
            handle.offered() == Seq::<Sent>::empty(),
    {
        let handle = WsClient {
            outbound: Outbound::new(sender),
            receiver,
            connected: true,
            relays: vec![relay],
            keys,
        };
        assert(handle.relays.deep_view() =~= seq![relay@]);
        handle
    }

    /// Succeeds while the handle is connected.
    pub fn is_connected(&self) -> (status: Result<(), Error>)
        ensures
            status == if self.connected() {
                Ok::<(), Error>(())
            } else {
                Err::<(), Error>(Error::NotConnected)
            },
    {
        if self.connected {
            Ok(())
        } else {
            Err(Error::NotConnected)
        }
    }

    /// Ends the use of the connection. The first call on a connected handle
    /// asks the session to stop, whether or not the session is still there
    /// to hear it; every later call does nothing.
    pub fn stop(&mut self)
        ensures
            final(self).stopped_from(*old(self)),
        opens_invariants none
        no_unwind
    {
        if self.connected {
            self.connected = false;
            let _ = self.outbound.offer(SendMsg::Stop);
        }
    }

    /// Keys and relay addresses are those of `before`.
    pub open spec fn same_owner(self, before: WsClient) -> bool {
        &&& self.keys() == before.keys()
        &&& self.relays() == before.relays()
    }

    /// Nothing was handed to the outbound queue since `before`.
    pub open spec fn silent_since(self, before: WsClient) -> bool {
        &&& self.offered() == before.offered()
        &&& self.outbox() == before.outbox()
    }

    /// All of this handle is as in `before`, as far as contracts speak of
    /// it.
    pub open spec fn unchanged_from(self, before: WsClient) -> bool {
        &&& self.same_owner(before)
        &&& self.silent_since(before)
        &&& self.connected() == before.connected()
    }

    /// Since `before`, `message` and nothing else was handed to the
    /// outbound queue, which took it or not.
    pub open spec fn offered_since(self, before: WsClient, message: Sent) -> bool {
        &&& self.offered() == before.offered().push(message)
        &&& self.outbox() == before.outbox() || self.outbox() == before.outbox().push(message)
    }

    /// This handle is `before` after a call of `stop`: it is disconnected,
    /// and if `before` was connected the stop request was handed to the
    /// outbound queue; else nothing was.
    pub open spec fn stopped_from(self, before: WsClient) -> bool {
        &&& !self.connected()
        &&& self.same_owner(before)
        &&& if before.connected() {
            self.offered_since(before, Sent::Stop)
        } else {
            self.silent_since(before)
        }
    }

    /// This handle is `before` after a look into the inbound queue that
    /// found `polled` and was answered with `delivery`.
    pub open spec fn received_from(
        self,
        before: WsClient,
        polled: Polled<RecvMsg>,
        delivery: Result<Option<Event>, Error>,
    ) -> bool {
        &&& delivery_view(delivery) == received(
            before.connected(),
            before.keys().secret_view(),
            polled,
        )
        &&& self.connected() == connected_after(before.connected(), polled)
        &&& self.same_owner(before)
        &&& self.silent_since(before)
    }

    /// This handle is `before` after a connected handle handed `text` to
    /// the outbound queue, answered with `status`: success where the queue
    /// took it, `Send` where it did not.
    pub open spec fn queued_from(
        self,
        before: WsClient,
        text: Seq<char>,
        status: Result<(), Error>,
    ) -> bool {
        &&& self.offered() == before.offered().push(Sent::Text(text))
        &&& match status {
            Ok(_) => self.outbox() == before.outbox().push(Sent::Text(text)),
            Err(error) => error == Error::Send && self.outbox() == before.outbox(),
        }
    }

    /// This handle is `before` after a request to send `text`, answered
    /// with `status`: a disconnected handle refuses and hands nothing over;
    /// a connected one hands the text to the outbound queue.
    pub open spec fn sent_from(
        self,
        before: WsClient,
        text: Seq<char>,
        status: Result<(), Error>,
    ) -> bool {
        &&& self.same_owner(before)
        &&& self.connected() == before.connected()
        &&& if before.connected() {
            self.queued_from(before, text, status)
        } else {
            status == Err::<(), Error>(Error::NotConnected) && self.silent_since(before)
        }
    }

    /// This handle is `before` after a request to publish `event`,
    /// answered with `status`. A disconnected handle refuses. An event with
    /// an empty tag cannot be signed. Every other event is signed, and the
    /// text that publishes it under the handle's key is handed to the
    /// outbound queue.
    pub open spec fn published_from(
        self,
        before: WsClient,
        event: EventBuilder,
        status: Result<(), Error>,
    ) -> bool {
        &&& self.same_owner(before)
        &&& self.connected() == before.connected()
        &&& if !before.connected() {
            status == Err::<(), Error>(Error::NotConnected) && self.silent_since(before)
        } else if has_empty_tag(event.tags.deep_view()) {
            status == Err::<(), Error>(Error::SignEvent) && self.silent_since(before)
        } else {
            exists|text: Seq<char>|
                {
                    &&& #[trigger] published_by(text) == Some(publication(before.author(), event))
                    &&& self.queued_from(before, text, status)
                }
        }
    }

    /// This handle is `before` after a request to send `content` to
    /// `receiver` as a direct message, answered with `status`. Encryption
    /// comes first: where `receiver` is no public key the answer is
    /// `Nip04Encrypt`, connected or not. Then a disconnected handle refuses.
    /// Else the text handed to the outbound queue publishes, under the
    /// handle's key, a direct message for the receiver that holds a cipher
    /// text of the content.
    pub open spec fn dm_sent_from(
        self,
        before: WsClient,
        content: Seq<char>,
        receiver: PublicKey,
        status: Result<(), Error>,
    ) -> bool {
        &&& self.same_owner(before)
        &&& self.connected() == before.connected()
        &&& if !is_public_key(receiver.bytes@) {
            status == Err::<(), Error>(Error::Nip04Encrypt) && self.silent_since(before)
        } else if !before.connected() {
            status == Err::<(), Error>(Error::NotConnected) && self.silent_since(before)
        } else {
            exists|text: Seq<char>, cipher: Seq<char>|
                {
                    &&& encrypts(cipher, content, before.author(), receiver.bytes@)
                    &&& #[trigger] published_by(text) == Some(
                        #[trigger] direct_publication(before.author(), cipher, receiver.bytes@),
                    )
                    &&& self.queued_from(before, text, status)
                }
        }
    }

    /// This handle is `before` after a request to subscribe to the direct
    /// messages for this client, answered with `status`.
    pub open spec fn subscribed_dm_from(self, before: WsClient, status: Result<(), Error>) -> bool {
        exists|id: Seq<char>|
            self.sent_from(
                before,
                #[trigger] tagged_request_of(id, ENCRYPTED_DIRECT_MESSAGE, before.author()),
                status,
            )
    }

    /// This handle is `before` after a request to subscribe to the events
    /// of `kind` of the last `back` seconds, answered with `status`.
    pub open spec fn subscribed_since_from(
        self,
        before: WsClient,
        kind: u16,
        back: u64,
        status: Result<(), Error>,
    ) -> bool {
        exists|id: Seq<char>, now: u64|
            self.sent_from(
                before,
                #[trigger] since_request_of(id, kind, since_bound(now, back)),
                status,
            )
    }

    /// Encrypts a direct message for `receiver`. It fails only where
    /// `receiver` is no public key.
    pub fn encrypt(&mut self, receiver: &PublicKey, content: &str) -> (cipher: Result<
        String,
        Error,
    >)
        ensures
            match cipher {
                Ok(text) => is_public_key(receiver.bytes@) && encrypts(
                    text@,
                    content@,
                    old(self).author(),
                    receiver.bytes@,
                ),
                Err(error) => error == Error::Nip04Encrypt && !is_public_key(receiver.bytes@),
            },
            *final(self) == *old(self),
    {
        // Reading the public key recalls that it belongs to the secret key.
        let _ = self.keys.public_key();
        match nip04_encrypt(self.keys.secret_bytes(), receiver, content) {
            Some(text) => Ok(text),
            None => Err(Error::Nip04Encrypt),
        }
    }

    /// Decrypts the content of a direct message that `event_pubkey` wrote
    /// for this client.
    pub fn decrypt(&mut self, event_pubkey: &PublicKey, content: String) -> (plain: Result<
        String,
        Error,
    >)
        ensures
            match plain {
                Ok(text) => decrypted(
                    old(self).keys().secret_view(),
                    event_pubkey.bytes@,
                    content@,
                ) == Some(text@),
                Err(error) => error == Error::Nip04Decrypt && decrypted(
                    old(self).keys().secret_view(),
                    event_pubkey.bytes@,
                    content@,
                ) is None,
            },
            *final(self) == *old(self),
    {
        crate::router::decrypt(&self.keys, event_pubkey, content.as_str())
    }

    /// Replaces the content of a direct message by its plain text. An event
    /// of another kind is refused with `NotNip04`.
    pub fn decrypt_dm(&mut self, event: Event) -> (plain: Result<Event, Error>)
        ensures
            match plain {
                Ok(message) => opened(old(self).keys().secret_view(), event@) == Ok::<
                    EventView,
                    Error,
                >(message@),
                Err(error) => opened(old(self).keys().secret_view(), event@) == Err::<
                    EventView,
                    Error,
                >(error),
            },
            *final(self) == *old(self),
    {
        crate::router::decrypt_dm(&self.keys, event)
    }

    /// Answers one look into the inbound queue, given what the look found.
    /// The close message disconnects the handle and is reported once; a text
    /// is decoded and routed; an empty queue is no event and no error.
    pub fn receive_polled(&mut self, polled: Polled<RecvMsg>) -> (delivery: Result<
        Option<Event>,
        Error,
    >)
        ensures
            final(self).received_from(*old(self), polled, delivery),
    {
        if !self.connected {
            return Err(Error::NotConnected);
        }
        match polled {
            Polled::Item(RecvMsg::Close) => {
                self.connected = false;
                Err(Error::ConnectionClosed)
            },
            Polled::Item(RecvMsg::Msg(text)) => crate::router::route(
                &self.keys,
                decode_relay_message(text.as_str()),
            ),
            Polled::Empty => Ok(None),
            Polled::Disconnected => Err(Error::Receive),
        }
    }

    /// Looks into the inbound queue without waiting and answers as
    /// `receive_polled` does for what it found. A disconnected handle does
    /// not look.
    pub fn try_receive(&mut self) -> (delivery: Result<Option<Event>, Error>)
        ensures
            exists|polled: Polled<RecvMsg>| #[trigger]
                final(self).received_from(*old(self), polled, delivery),
    {
        if !self.connected {
            assert(self.received_from(*old(self), Polled::Empty, Err(Error::NotConnected)));
            return Err(Error::NotConnected);
        }
        let polled = poll(&self.receiver);
        let ghost seen = polled;
        let delivery = self.receive_polled(polled);
        assert(self.received_from(*old(self), seen, delivery));
        delivery
    }

    /// Hands a text to the outbound queue.
    fn send_raw(&mut self, msg: String) -> (status: Result<(), Error>)
        ensures
            final(self).sent_from(*old(self), msg@, status),
    {
        if !self.connected {
            return Err(Error::NotConnected);
        }
        if self.outbound.offer(SendMsg::Msg(msg)) {
            Ok(())
        } else {
            Err(Error::Send)
        }
    }

    /// Signs an event with the client's keys and hands the message that
    /// publishes it to the outbound queue.
    pub fn post_event(&mut self, event: EventBuilder) -> (status: Result<(), Error>)
        ensures
            final(self).published_from(*old(self), event, status),
    {
        if !self.connected {
            return Err(Error::NotConnected);
        }
        let _ = self.keys.public_key();
        match signed_event_message(self.keys.secret_bytes(), event) {
            Some(text) => {
                let ghost sent = text@;
                let status = self.send_raw(text);
                assert(published_by(sent) == Some(publication(old(self).author(), event)));
                assert(self.queued_from(*old(self), sent, status));
                status
            },
            None => Err(Error::SignEvent),
        }
    }

    /// Encrypts `content` for `receiver` and publishes it as a direct
    /// message that is tagged with the receiver's key.
    pub fn send_dm(&mut self, content: &str, receiver: &PublicKey) -> (status: Result<(), Error>)
        ensures
            final(self).dm_sent_from(*old(self), content@, *receiver, status),
    {
        let cipher = match self.encrypt(receiver, content) {
            Ok(text) => text,
            Err(error) => {
                return Err(error);
            },
        };
        let ghost sealed = cipher@;
        let event = direct_message(cipher, receiver);
        let ghost tags = event.tags.deep_view();
        assert(!has_empty_tag(tags)) by {
            assert(tags.len() == 1);
            assert(tags[0] == public_key_tag_of(receiver.bytes@));
            assert(tags[0].len() == 2);
        }
        assert(publication(old(self).author(), event) == direct_publication(
            old(self).author(),
            sealed,
            receiver.bytes@,
        ));
        let status = self.post_event(event);
        status
    }

    /// Asks the relay for the direct messages that are addressed to this
    /// client, under a subscription identifier drawn at random.
    pub fn subscribe_dm(&mut self) -> (status: Result<(), Error>)
        ensures
            final(self).subscribed_dm_from(*old(self), status),
    {
        let id = fresh_subscription_id();
        let key = self.keys.public_key();
        if !self.connected {
            assert(self.sent_from(
                *old(self),
                tagged_request_of(id@, ENCRYPTED_DIRECT_MESSAGE, old(self).author()),
                Err(Error::NotConnected),
            ));
            return Err(Error::NotConnected);
        }
        let text = tagged_request(id.as_str(), ENCRYPTED_DIRECT_MESSAGE, &key);
        let status = self.send_raw(text);
        assert(self.sent_from(
            *old(self),
            tagged_request_of(id@, ENCRYPTED_DIRECT_MESSAGE, old(self).author()),
            status,
        ));
        status
    }

    /// Asks the relay, under the subscription `id`, for the events of `kind`
    /// that were created in the `back` seconds before `now`, a time in
    /// seconds since the Unix epoch.
    pub fn subscribe_since(&mut self, kind: u16, back: u64, now: u64, id: &str) -> (status: Result<
        (),
        Error,
    >)
        ensures
            final(self).sent_from(
                *old(self),
                since_request_of(id@, kind, since_bound(now, back)),
                status,
            ),
    {
        if !self.connected {
            return Err(Error::NotConnected);
        }
        let since: u64 = if now >= back {
            now - back
        } else {
            0
        };
        self.send_raw(since_request(id, kind, since))
    }

    /// Asks the relay for the events of `kind` that were created in the
    /// last `back` seconds, under a subscription identifier drawn at random.
    pub fn subscribe_custom(&mut self, kind: u16, back: u64) -> (status: Result<(), Error>)
        ensures
            final(self).subscribed_since_from(*old(self), kind, back, status),
    {
        if !self.connected {
            assert(self.sent_from(
                *old(self),
                since_request_of(Seq::empty(), kind, since_bound(0, back)),
                Err(Error::NotConnected),
            ));
            return Err(Error::NotConnected);
        }
        let now: u64 = unix_now();
        let id = fresh_subscription_id();
        let status = self.subscribe_since(kind, back, now, id.as_str());
        assert(self.sent_from(
            *old(self),
            since_request_of(id@, kind, since_bound(now, back)),
            status,
        ));
        status
    }

    /// Asks the relay for the pool's events of the last `back` seconds.
    pub fn subscribe_pool(&mut self, back: u64) -> (status: Result<(), Error>)
        ensures
            final(self).subscribed_since_from(*old(self), POOL_KIND, back, status),
    {
        self.subscribe_custom(POOL_KIND, back)
    }

    /// The relay addresses.
    pub fn get_relays(&self) -> (relays: &Vec<String>)
        ensures
            relays.deep_view() == self.relays(),
    {
        &self.relays
    }

    /// The key pair.
    pub fn get_keys(&self) -> (keys: &Keys)
        ensures
            *keys == self.keys(),
    {
        &self.keys
    }

    /// The public key of the key pair.
    pub fn pubkey(&self) -> (key: PublicKey)
        ensures
            key == self.keys().public_view(),
    {
        self.keys.public_key()
    }
}

/// What a connection needs before it is made: the relay's address and the
/// client's keys.
#[derive(Debug, Clone)]
pub struct WsClientBuilder {
    relay: Option<String>,
    keys: Option<Keys>,
}

impl Default for WsClientBuilder {
    fn default() -> (builder: WsClientBuilder)
        ensures
            builder.chosen_relay() is None,
            builder.chosen_keys() is None,
    {
        WsClientBuilder { relay: None, keys: None }
    }
}

impl WsClientBuilder {
    /// The relay's address, if one was chosen.
    pub closed spec fn chosen_relay(self) -> Option<Seq<char>> {
        match self.relay {
            Some(relay) => Some(relay@),
            None => None,
        }
    }

    /// The keys, if any were chosen.
    pub closed spec fn chosen_keys(self) -> Option<Keys> {
        self.keys
    }

    /// Chooses the relay's address.
    pub fn relay(self, relay: String) -> (builder: WsClientBuilder)
        ensures
            builder.chosen_relay() == Some(relay@),
            builder.chosen_keys() == self.chosen_keys(),
    {
        WsClientBuilder { relay: Some(relay), keys: self.keys }
    }

    /// Chooses the keys.
    pub fn keys(self, keys: Keys) -> (builder: WsClientBuilder)
        ensures
            builder.chosen_relay() == self.chosen_relay(),
            builder.chosen_keys() == Some(keys),
    {
        WsClientBuilder { relay: self.relay, keys: Some(keys) }
    }

    /// The relay's address and the keys, where both were chosen; else the
    /// error `ArgMissing`. This is the first step of connecting.
    pub fn into_parts(self) -> (parts: Result<(String, Keys), Error>)
        ensures
            match parts {
                Ok((relay, keys)) => self.chosen_relay() == Some(relay@) && self.chosen_keys()
                    == Some(keys),
                Err(error) => error == Error::ArgMissing && (self.chosen_relay() is None
                    || self.chosen_keys() is None),
            },
    {
        match (self.relay, self.keys) {
            (Some(relay), Some(keys)) => Ok((relay, keys)),
            _ => Err(Error::ArgMissing),
        }
    }

    /// The last step of connecting: once the session runs at the other ends
    /// of the two queues, the handle on it. It starts connected.
    pub fn attach(self, sender: Sender<SendMsg>, receiver: Receiver<RecvMsg>) -> (handle: Result<
        WsClient,
        Error,
    >)
        ensures
            match handle {
                Ok(client) => {
                    &&& client.connected()
                    &&& self.chosen_keys() == Some(client.keys())
                    &&& self.chosen_relay() matches Some(relay) && client.relays() == seq![relay]
                    &&& client.outbox() == Seq::<Sent>::empty()
                    &&& client.offered() == Seq::<Sent>::empty()
                },
                Err(error) => error == Error::ArgMissing && (self.chosen_relay() is None
                    || self.chosen_keys() is None),
            },
    {
        match self.into_parts() {
            Ok((relay, keys)) => Ok(WsClient::attach(relay, keys, sender, receiver)),
            Err(error) => Err(error),
        }
    }
}

/// Letting go of the handle ends the use of the connection as `stop` does.
impl Drop for WsClient {
    fn drop(&mut self)
        ensures
            final(self).stopped_from(*old(self)),
        opens_invariants none
        no_unwind
    {
        self.stop();
    }
}

} // verus!
