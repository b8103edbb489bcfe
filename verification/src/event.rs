//! Events and public keys as plain values.

use vstd::prelude::*;

verus! {

/// The kind of an encrypted direct message.
pub const ENCRYPTED_DIRECT_MESSAGE: u16 = 4;

/// A public key: the 32 bytes of its x coordinate.
#[derive(Clone, Copy, Debug, PartialEq, Eq)]
pub struct PublicKey {
    pub bytes: [u8; 32],
}

/// A signed event as the relay delivers it.
#[derive(Clone, Debug, PartialEq, Eq)]
pub struct Event {
    pub id: [u8; 32],
    /// The author.
    pub pubkey: PublicKey,
    /// Seconds since the Unix epoch.
    pub created_at: u64,
    pub kind: u16,
    /// Each tag is its list of strings, the tag's name first.
    pub tags: Vec<Vec<String>>,
    pub content: String,
    pub sig: [u8; 64],
}

/// An event in its mathematical form.
pub struct EventView {
    pub id: Seq<u8>,
    pub pubkey: Seq<u8>,
    pub created_at: u64,
    pub kind: u16,
    pub tags: Seq<Seq<Seq<char>>>,
    pub content: Seq<char>,
    pub sig: Seq<u8>,
}

impl View for Event {
    type V = EventView;

    open spec fn view(&self) -> EventView {
        EventView {
            id: self.id@,
            pubkey: self.pubkey.bytes@,
            created_at: self.created_at,
            kind: self.kind,
            tags: self.tags.deep_view(),
            content: self.content@,
            sig: self.sig@,
        }
    }
}

impl Event {
    /// Whether this is an encrypted direct message.
    pub open spec fn is_direct_message(self) -> bool {
        self.kind == ENCRYPTED_DIRECT_MESSAGE
    }
}

/// The parts of an event that its author chooses, before it is signed.
#[derive(Clone, Debug, PartialEq, Eq)]
pub struct EventBuilder {
    pub kind: u16,
    pub content: String,
    /// Each tag is its list of strings, the tag's name first.
    pub tags: Vec<Vec<String>>,
}

impl EventBuilder {
    /// A builder for an event of this kind with this content and these tags.
    pub fn new(kind: u16, content: String, tags: Vec<Vec<String>>) -> (builder: EventBuilder)
        ensures
            builder == (EventBuilder { kind, content, tags }),
    {
        EventBuilder { kind, content, tags }
    }
}

} // verus!
