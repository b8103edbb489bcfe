//! The client's key pair.

use vstd::prelude::*;
use crate::codec::{derive_public_key, public_key_of};
use crate::event::PublicKey;

verus! {

/// A secret key with the public key that belongs to it.
#[derive(Clone, Copy, Debug, PartialEq, Eq)]
pub struct Keys {
    secret: [u8; 32],
    public: PublicKey,
}

impl Keys {
    /// The public key is the one that belongs to the secret key.
    #[verifier::type_invariant]
    pub closed spec fn well_formed(self) -> bool {
        public_key_of(self.secret@) == Some(self.public.bytes@)
    }

    /// The 32 bytes of the secret key.
    pub closed spec fn secret_view(self) -> Seq<u8> {
        self.secret@
    }

    /// The public key.
    pub closed spec fn public_view(self) -> PublicKey {
        self.public
    }

    /// The key pair of a secret key; none where the bytes are no secret key.
    pub fn from_secret_bytes(secret: [u8; 32]) -> (keys: Option<Keys>)
        ensures
            match keys {
                Some(pair) => pair.secret_view() == secret@ && public_key_of(secret@) == Some(
                    pair.public_view().bytes@,
                ),
                None => public_key_of(secret@) is None,
            },
    {
        match derive_public_key(&secret) {
            Some(public) => Some(Keys { secret, public }),
            None => None,
        }
    }

    /// The public key.
    pub fn public_key(&self) -> (key: PublicKey)
        ensures
            key == self.public_view(),
            public_key_of(self.secret_view()) == Some(key.bytes@),
    {
        proof {
            use_type_invariant(self);
        }
        self.public
    }

    /// The secret key's bytes.
    pub fn secret_bytes(&self) -> (secret: &[u8; 32])
        ensures
            secret@ == self.secret_view(),
    {
        &self.secret
    }
}

} // verus!
