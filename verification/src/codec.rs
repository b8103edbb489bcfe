//! The relay protocol's wire format, signatures and direct-message cipher,
//! all of which this library takes from the `nostr` crate.
//!
//! Nothing here is proved: each function states what the crate's code is
//! relied on to do. The text of a message and the result of the cipher are
//! not spelled out; they are given names, so that the rest of the library
//! can say exactly what it does with them.

use vstd::prelude::*;
use nostr::JsonUtil;
use crate::event::{Event, EventBuilder, EventView, PublicKey};

verus! {

/// A message from the relay, as far as this client tells messages apart.
#[derive(Debug, Clone, PartialEq, Eq)]
pub enum Inbound {
    /// An event that matches one of the subscriptions.
    Event(Event),
    /// A challenge to authenticate, which this client does not answer.
    Auth,
    /// Any other message of the protocol.
    Other,
}

/// A message from the relay in its mathematical form.
pub enum InboundView {
    Event(EventView),
    Auth,
    Other,
}

impl View for Inbound {
    type V = InboundView;

    open spec fn view(&self) -> InboundView {
        match *self {
            Inbound::Event(event) => InboundView::Event(event@),
            Inbound::Auth => InboundView::Auth,
            Inbound::Other => InboundView::Other,
        }
    }
}

/// Why a payload is no message.
#[derive(Debug, Clone, Copy, PartialEq, Eq)]
pub enum DecodeFailure {
    /// It is empty or not JSON, or a part of it does not have its type.
    Json,
    /// It is JSON but not an array that begins with a known message name and
    /// holds that message's parts.
    Shape,
}

/// The message that a payload from the relay stands for.
pub uninterp spec fn relay_message_of(text: Seq<char>) -> Result<InboundView, DecodeFailure>;

/// What the direct-message cipher makes of `content`, with the reader's
/// secret key and the author's public key: the plain text, or nothing where
/// the key, the encoding or the padding is wrong.
pub uninterp spec fn nip04_plaintext(secret: Seq<u8>, author: Seq<u8>, content: Seq<char>) -> Option<
    Seq<char>,
>;

/// The public key that belongs to a secret key; none where the 32 bytes are
/// no secret key.
pub uninterp spec fn public_key_of(secret: Seq<u8>) -> Option<Seq<u8>>;

/// Whether 32 bytes are the x coordinate of a point of the curve, which is
/// what makes them a public key that a message can be encrypted for.
pub uninterp spec fn is_public_key(key: Seq<u8>) -> bool;

/// What a message that publishes an event says of it.
pub struct Published {
    /// The public key of the author.
    pub author: Seq<u8>,
    pub kind: u16,
    pub content: Seq<char>,
    pub tags: Seq<Seq<Seq<char>>>,
}

/// What a text publishes, as `nostr::ClientMessage::from_json` reads it:
/// the author, kind, content and tags of the event, where the text is a
/// message that publishes one.
pub uninterp spec fn published_by(text: Seq<char>) -> Option<Published>;

/// The publication of the event that `event` describes by `author`.
pub open spec fn publication(author: Seq<u8>, event: EventBuilder) -> Published {
    Published {
        author,
        kind: event.kind,
        content: event.content@,
        tags: event.tags.deep_view(),
    }
}

/// Whether one of the tags has no element, not even a name.
pub open spec fn has_empty_tag(tags: Seq<Seq<Seq<char>>>) -> bool {
    exists|i: int| 0 <= i < tags.len() && #[trigger] tags[i].len() == 0
}

/// The text of a request for the events of `kind` that are tagged with the
/// public key `key`, under the subscription `id`.
pub uninterp spec fn tagged_request_of(id: Seq<char>, kind: u16, key: Seq<u8>) -> Seq<char>;

/// The text of a request for the events of `kind` created at `since` or
/// later, under the subscription `id`.
pub uninterp spec fn since_request_of(id: Seq<char>, kind: u16, since: u64) -> Seq<char>;

/// The sixteen digits of lower-case hexadecimal.
pub open spec fn hex_digits() -> Seq<char> {
    seq!['0', '1', '2', '3', '4', '5', '6', '7', '8', '9', 'a', 'b', 'c', 'd', 'e', 'f']
}

/// Bytes in lower-case hexadecimal, two digits each, the high one first.
pub open spec fn hex_of(bytes: Seq<u8>) -> Seq<char> {
    Seq::new(
        2 * bytes.len(),
        |i: int|
            if i % 2 == 0 {
                hex_digits()[bytes[i / 2] as int / 16]
            } else {
                hex_digits()[bytes[i / 2] as int % 16]
            },
    )
}

/// The tag that names a public key: `p`, then the key in hexadecimal.
pub open spec fn public_key_tag_of(key: Seq<u8>) -> Seq<Seq<char>> {
    seq![seq!['p'], hex_of(key)]
}

/// Whether `content` ends as a direct message's cipher text must: with the
/// marker `?iv=` and after it 24 characters, the last two of them `=`. That
/// is the shape of a 16-byte initialisation vector in base64.
pub open spec fn has_sized_iv(content: Seq<char>) -> bool {
    let n = content.len() as int;
    &&& n >= 28
    &&& content[n - 28] == '?'
    &&& content[n - 27] == 'i'
    &&& content[n - 26] == 'v'
    &&& content[n - 25] == '='
    &&& content[n - 2] == '='
    &&& content[n - 1] == '='
}

/// Tests the shape that `has_sized_iv` describes.
pub fn iv_is_sized(content: &str) -> (sized: bool)
    ensures
        sized == has_sized_iv(content@),
{
    let n: usize = content.unicode_len();
    if n < 28 {
        return false;
    }
    content.get_char(n - 28) == '?' && content.get_char(n - 27) == 'i' && content.get_char(n - 26)
        == 'v' && content.get_char(n - 25) == '=' && content.get_char(n - 2) == '='
        && content.get_char(n - 1) == '='
}

/// `nostr::RelayMessage::from_json`: parses a payload from the relay. The
/// result is the message that the payload stands for. An event comes with
/// its fields as they were sent; of the other messages only the sort is
/// kept. A failure is `Shape` where the crate reports an invalid message
/// format, and `Json` otherwise.
#[verifier::external_body]
pub(crate) fn decode_relay_message(text: &str) -> (decoded: Result<Inbound, DecodeFailure>)
    ensures
        match decoded {
            Ok(message) => relay_message_of(text@) == Ok::<InboundView, DecodeFailure>(message@),
            Err(failure) => relay_message_of(text@) == Err::<InboundView, DecodeFailure>(failure),
        },
{
    match nostr::RelayMessage::from_json(text) {
        Ok(nostr::RelayMessage::Event { event, .. }) => Ok(Inbound::Event(Event {
            id: event.id.to_bytes(),
            pubkey: PublicKey { bytes: event.pubkey.to_bytes() },
            created_at: event.created_at.as_u64(),
            kind: event.kind.as_u16(),
            tags: event.tags.iter().cloned().map(nostr::Tag::to_vec).collect(),
            content: event.content.clone(),
            sig: event.sig.serialize(),
        })),
        Ok(nostr::RelayMessage::Auth { .. }) => Ok(Inbound::Auth),
        Ok(_) => Ok(Inbound::Other),
        Err(nostr::message::MessageHandleError::InvalidMessageFormat) => Err(DecodeFailure::Shape),
        Err(_) => Err(DecodeFailure::Json),
    }
}

/// `nostr::nips::nip04::decrypt`: decrypts the content of a direct message
/// with the reader's secret key and the author's public key. The result is
/// the cipher's plain text for these three values. The call is made only on
/// a content that ends in a 16-byte vector's base64 form: on a vector of
/// another length the crate's cipher does not return.
#[verifier::external_body]
pub(crate) fn nip04_decrypt(secret: &[u8; 32], author: &PublicKey, content: &str) -> (plain:
    Option<String>)
    requires
        has_sized_iv(content@),
    ensures
        match plain {
            Some(text) => nip04_plaintext(secret@, author.bytes@, content@) == Some(text@),
            None => nip04_plaintext(secret@, author.bytes@, content@) is None,
        },
{
    let key = nostr::SecretKey::from_slice(secret).ok()?;
    let author = nostr::PublicKey::from_byte_array(author.bytes);
    nostr::nips::nip04::decrypt(&key, &author, content).ok()
}

/// `nostr::nips::nip04::encrypt`: encrypts a direct message for a recipient
/// under a vector that the crate draws at random. It succeeds where the
/// bytes of the secret key are a secret key and the recipient's are a public
/// key. The cipher text differs from call to call; what holds of each is that
/// it ends with the marker and the 16-byte vector in base64, and that the
/// cipher, run by a reader whose secret key belongs to the recipient's
/// public key on a message from the sender's public key, gives the content
/// back: both sides derive the same key, and the text carries the vector.
#[verifier::external_body]
pub(crate) fn nip04_encrypt(secret: &[u8; 32], recipient: &PublicKey, content: &str) -> (cipher:
    Option<String>)
    ensures
        match cipher {
            Some(text) => {
                &&& public_key_of(secret@) is Some && is_public_key(recipient.bytes@)
                &&& has_sized_iv(text@)
                &&& forall|reader: Seq<u8>|
                    public_key_of(reader) == Some(recipient.bytes@) ==> #[trigger] nip04_plaintext(
                        reader,
                        public_key_of(secret@)->Some_0,
                        text@,
                    ) == Some(content@)
            },
            None => !(public_key_of(secret@) is Some && is_public_key(recipient.bytes@)),
        },
{
    let key = nostr::SecretKey::from_slice(secret).ok()?;
    let recipient = nostr::PublicKey::from_byte_array(recipient.bytes);
    nostr::nips::nip04::encrypt(&key, &recipient, content).ok()
}

/// `nostr::EventBuilder::sign_with_keys` and `nostr::ClientMessage::event`:
/// builds the event with the current time, signs it and gives the text of
/// the message that publishes it. There is no text where the bytes are no
/// secret key or a tag has no element, and only there. The time and the
/// signature differ from call to call; what holds of each text is that it
/// reads back as a publication by the key's owner of an event with the
/// builder's kind, content and tags.
#[verifier::external_body]
pub(crate) fn signed_event_message(secret: &[u8; 32], builder: EventBuilder) -> (message: Option<
    String,
>)
    ensures
        match message {
            Some(text) => {
                &&& public_key_of(secret@) is Some
                &&& !has_empty_tag(builder.tags.deep_view())
                &&& published_by(text@) == Some(
                    publication(public_key_of(secret@)->Some_0, builder),
                )
            },
            None => public_key_of(secret@) is None || has_empty_tag(builder.tags.deep_view()),
        },
{
    let keys = nostr::Keys::new(nostr::SecretKey::from_slice(secret).ok()?);
    let tags: Vec<nostr::Tag> = builder.tags.into_iter().map(nostr::Tag::parse).collect::<
        Result<_, _>,
    >().ok()?;
    let kind = nostr::Kind::from_u16(builder.kind);
    let unsigned = nostr::EventBuilder::new(kind, builder.content).tags(tags).allow_self_tagging();
    Some(nostr::ClientMessage::event(unsigned.sign_with_keys(&keys).ok()?).as_json())
}

/// `nostr::Tag::public_key`: the tag that names a public key, as its list
/// of strings.
#[verifier::external_body]
pub(crate) fn public_key_tag(key: &PublicKey) -> (tag: Vec<String>)
    ensures
        tag.deep_view() == public_key_tag_of(key.bytes@),
{
    nostr::Tag::public_key(nostr::PublicKey::from_byte_array(key.bytes)).to_vec()
}

/// `nostr::ClientMessage::req` on a filter with a kind and a tagged public
/// key: the text of the request.
#[verifier::external_body]
pub(crate) fn tagged_request(id: &str, kind: u16, key: &PublicKey) -> (text: String)
    ensures
        text@ == tagged_request_of(id@, kind, key.bytes@),
{
    let key = nostr::PublicKey::from_byte_array(key.bytes);
    let filter = nostr::Filter::new().kind(nostr::Kind::from_u16(kind)).pubkey(key);
    nostr::ClientMessage::req(nostr::SubscriptionId::new(id), filter).as_json()
}

/// `nostr::ClientMessage::req` on a filter with a kind and a lower time
/// bound: the text of the request.
#[verifier::external_body]
pub(crate) fn since_request(id: &str, kind: u16, since: u64) -> (text: String)
    ensures
        text@ == since_request_of(id@, kind, since),
{
    let since = nostr::Timestamp::from_secs(since);
    let filter = nostr::Filter::new().kind(nostr::Kind::from_u16(kind)).since(since);
    nostr::ClientMessage::req(nostr::SubscriptionId::new(id), filter).as_json()
}

/// `nostr::SubscriptionId::generate`: a subscription identifier drawn at
/// random.
#[verifier::external_body]
pub(crate) fn fresh_subscription_id() -> (id: String) {
    nostr::SubscriptionId::generate().to_string()
}

/// `nostr::Timestamp::now`: the current time in seconds since the Unix
/// epoch.
#[verifier::external_body]
pub(crate) fn unix_now() -> (secs: u64) {
    nostr::Timestamp::now().as_u64()
}

/// `nostr::Keys::new`: the public key that belongs to a secret key; nothing
/// where the 32 bytes are no secret key.
#[verifier::external_body]
pub(crate) fn derive_public_key(secret: &[u8; 32]) -> (public: Option<PublicKey>)
    ensures
        match public {
            Some(key) => public_key_of(secret@) == Some(key.bytes@),
            None => public_key_of(secret@) is None,
        },
{
    let key = nostr::SecretKey::from_slice(secret).ok()?;
    Some(PublicKey { bytes: nostr::Keys::new(key).public_key.to_bytes() })
}

} // verus!
