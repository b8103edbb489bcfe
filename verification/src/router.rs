//! The message router: what becomes of a decoded message from the relay.
//!
//! Events pass through to the caller, direct messages with their content
//! decrypted; every other message is dropped; a payload that is no message
//! is an error.

use vstd::prelude::*;
use crate::codec::{
    has_sized_iv, iv_is_sized, nip04_decrypt, nip04_plaintext, DecodeFailure, Inbound, InboundView,
};
use crate::error::Error;
use crate::event::{Event, EventView, PublicKey, ENCRYPTED_DIRECT_MESSAGE};
use crate::keys::Keys;

verus! {

/// The plain text of a direct message's content; none where the content does
/// not end in a vector of the cipher's size or the cipher rejects it.
pub open spec fn decrypted(secret: Seq<u8>, author: Seq<u8>, content: Seq<char>) -> Option<
    Seq<char>,
> {
    if has_sized_iv(content) {
        nip04_plaintext(secret, author, content)
    } else {
        None
    }
}

/// A direct message with its content decrypted. An event of another kind is
/// refused, and so is a content that cannot be decrypted.
pub open spec fn opened(secret: Seq<u8>, event: EventView) -> Result<EventView, Error> {
    if event.kind != ENCRYPTED_DIRECT_MESSAGE {
        Err(Error::NotNip04)
    } else {
        match decrypted(secret, event.pubkey, event.content) {
            Some(plain) => Ok(EventView { content: plain, ..event }),
            None => Err(Error::Nip04Decrypt),
        }
    }
}

/// What the caller gets for a decoded message.
pub open spec fn routed(secret: Seq<u8>, decoded: Result<InboundView, DecodeFailure>) -> Result<
    Option<EventView>,
    Error,
> {
    match decoded {
        Ok(InboundView::Event(event)) => if event.kind == ENCRYPTED_DIRECT_MESSAGE {
            match opened(secret, event) {
                Ok(plain) => Ok(Some(plain)),
                Err(error) => Err(error),
            }
        } else {
            Ok(Some(event))
        },
        Ok(InboundView::Auth) => Ok(None),
        Ok(InboundView::Other) => Ok(None),
        Err(DecodeFailure::Json) => Err(Error::RawRelayMessage),
        Err(DecodeFailure::Shape) => Err(Error::RelayMessage),
    }
}

/// A result with its event in mathematical form.
pub open spec fn delivery_view(delivery: Result<Option<Event>, Error>) -> Result<
    Option<EventView>,
    Error,
> {
    match delivery {
        Ok(Some(event)) => Ok(Some(event@)),
        Ok(None) => Ok(None),
        Err(error) => Err(error),
    }
}

/// Decrypts the content of a direct message that `author` wrote for the
/// owner of `keys`.
pub fn decrypt(keys: &Keys, author: &PublicKey, content: &str) -> (plain: Result<String, Error>)
    ensures
        match plain {
            Ok(text) => decrypted(keys.secret_view(), author.bytes@, content@) == Some(text@),
            Err(error) => error == Error::Nip04Decrypt && decrypted(
                keys.secret_view(),
                author.bytes@,
                content@,
            ) is None,
        },
{
    if !iv_is_sized(content) {
        return Err(Error::Nip04Decrypt);
    }
    match nip04_decrypt(keys.secret_bytes(), author, content) {
        Some(text) => Ok(text),
        None => Err(Error::Nip04Decrypt),
    }
}

/// Replaces the content of a direct message by its plain text. All other
/// fields stay.
pub fn decrypt_dm(keys: &Keys, event: Event) -> (plain: Result<Event, Error>)
    ensures
        match plain {
            Ok(message) => opened(keys.secret_view(), event@) == Ok::<EventView, Error>(message@),
            Err(error) => opened(keys.secret_view(), event@) == Err::<EventView, Error>(error),
        },
{
    if event.kind != ENCRYPTED_DIRECT_MESSAGE {
        return Err(Error::NotNip04);
    }
    let mut event = event;
    match decrypt(keys, &event.pubkey, event.content.as_str()) {
        Ok(text) => {
            event.content = text;
            Ok(event)
        },
        Err(error) => Err(error),
    }
}

/// Routes a decoded message: an event goes to the caller, decrypted first if
/// it is a direct message; an authentication challenge and every other
/// message are dropped; a payload that was no message is reported.
pub fn route(keys: &Keys, decoded: Result<Inbound, DecodeFailure>) -> (delivery: Result<
    Option<Event>,
    Error,
>)
    ensures
        delivery_view(delivery) == routed(
            keys.secret_view(),
            match decoded {
                Ok(message) => Ok(message@),
                Err(failure) => Err(failure),
            },
        ),
{
    match decoded {
        Ok(Inbound::Event(event)) => {
            if event.kind == ENCRYPTED_DIRECT_MESSAGE {
                match decrypt_dm(keys, event) {
                    Ok(plain) => Ok(Some(plain)),
                    Err(error) => Err(error),
                }
            } else {
                Ok(Some(event))
            }
        },
        Ok(Inbound::Auth) => Ok(None),
        Ok(Inbound::Other) => Ok(None),
        Err(DecodeFailure::Json) => Err(Error::RawRelayMessage),
        Err(DecodeFailure::Shape) => Err(Error::RelayMessage),
    }
}

} // verus!
