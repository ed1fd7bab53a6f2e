use vstd::prelude::*;
use crate::crypto::{
    derive_public, nsec_decoded, nsec_of, npub_decoded, npub_of, public_from_bech32, public_to_bech32,
    public_valid, random_secret,
    secret_accepted, secret_from_bech32, secret_to_bech32, valid_secret, xonly_public_of,
};
use crate::bytes::copy_bytes;
use crate::error::NosError;
use crate::hex::{all_hex, from_hex, hex_decoded, hex_text, hex_value, lemma_hex_round_trip};

verus! {

/// A secret key with the public key that belongs to it. It cannot be changed
/// once made.
pub struct Keypair {
    secret: Vec<u8>,
    public: Vec<u8>,
}

/// The secret key that a text names: an `nsec` bech32 text, or else 64 hex
/// digits of a valid key.
pub open spec fn secret_from_text(text: Seq<char>) -> Option<Seq<u8>> {
    match nsec_decoded(text) {
        Some(k) => Some(k),
        None => match hex_decoded(text) {
            Some(k) => if valid_secret(k) {
                Some(k)
            } else {
                None
            },
            None => None,
        },
    }
}

/// Whether a text could be read as bech32 with the `nsec` prefix: it starts
/// with `n` in either case. No hex text does.
pub open spec fn bech32_secret_prefix(text: Seq<char>) -> bool {
    text.len() > 0 && (text[0] == 'n' || text[0] == 'N')
}

/// Reads the `npub` bech32 text of a public key. `InvalidKey` when the text
/// does not decode to an x-only public key, in particular for the `nsec`
/// text of a secret key.
pub fn public_from_text(text: &str) -> (r: Result<Vec<u8>, NosError>)
    ensures
        match r {
            Ok(p) => npub_decoded(text@) == Some(p@) && public_valid(p@) && p@.len() == 32,
            Err(e) => npub_decoded(text@).is_none() && e == NosError::InvalidKey,
        },
        forall|k: Seq<u8>|
            valid_secret(k) && text@ == #[trigger] npub_of(xonly_public_of(k)) ==> (r matches Ok(p)
                && p@ == xonly_public_of(k)),
        forall|k: Seq<u8>| valid_secret(k) && text@ == #[trigger] nsec_of(k) ==> r.is_err(),
{
    match public_from_bech32(text) {
        Some(p) => Ok(p),
        None => Err(NosError::InvalidKey),
    }
}

impl View for Keypair {
    /// The secret key and the public key.
    type V = (Seq<u8>, Seq<u8>);

    closed spec fn view(&self) -> (Seq<u8>, Seq<u8>) {
        (self.secret@, self.public@)
    }
}

impl Keypair {
    /// The secret key is valid and the public key is the one derived from it.
    pub closed spec fn wf(&self) -> bool {
        valid_secret(self.secret@) && self.public@ == xonly_public_of(self.secret@)
            && self.public@.len() == 32 && public_valid(self.public@)
    }

    /// What a well-formed pair holds.
    pub proof fn lemma_wf(&self)
        requires
            self.wf(),
        ensures
            valid_secret(self@.0),
            self@.1 == xonly_public_of(self@.0),
            self@.1.len() == 32,
            public_valid(self@.1),
    {
    }

    /// A pair from the bytes of a secret key; `InvalidKey` unless they are a
    /// valid key.
    pub fn from_secret_bytes(b: &[u8]) -> (r: Result<Keypair, NosError>)
        ensures
            match r {
                Ok(kp) => valid_secret(b@) && kp.wf() && kp@.0 == b@,
                Err(e) => !valid_secret(b@) && e == NosError::InvalidKey,
            },
    {
        if !secret_accepted(b) {
            return Err(NosError::InvalidKey);
        }
        let public = derive_public(b);
        Ok(Keypair { secret: copy_bytes(b), public })
    }

    /// A pair from the text of a secret key, as `nsec` bech32 or as hex.
    /// The `nsec` text of a valid key, and its lowercase hex text, give that
    /// key back.
    pub fn from_secret(text: &str) -> (r: Result<Keypair, NosError>)
        ensures
            match r {
                Ok(kp) => secret_from_text(text@) == Some(kp@.0) && kp.wf(),
                Err(e) => secret_from_text(text@).is_none() && e == NosError::InvalidKey,
            },
            forall|k: Seq<u8>|
                valid_secret(k) && text@ == #[trigger] nsec_of(k) ==> (r matches Ok(kp) && kp@.0 == k),
            forall|k: Seq<u8>|
                valid_secret(k) && text@ == #[trigger] hex_text(k) ==> (r matches Ok(kp) && kp@.0 == k),
            !bech32_secret_prefix(text@) ==> match r {
                Ok(kp) => hex_decoded(text@) == Some(kp@.0),
                Err(_) => !(hex_decoded(text@) matches Some(k) && valid_secret(k)),
            },
    {
        let decoded = secret_from_bech32(text);
        assert forall|k: Seq<u8>| valid_secret(k) && text@ == #[trigger] hex_text(k) implies decoded.is_none()
            && hex_decoded(text@) == Some(k) by {
            lemma_hex_round_trip(k);
            assert(all_hex(text@));
            assert(hex_value(text@[0]).is_some());
        }
        match decoded {
            Some(k) => Self::from_secret_bytes(k.as_slice()),
            None => match from_hex(text) {
                Some(k) => Self::from_secret_bytes(k.as_slice()),
                None => Err(NosError::InvalidKey),
            },
        }
    }

    /// A fresh pair from the operating system's random source.
    pub fn generate() -> (r: Keypair)
        ensures
            r.wf(),
    {
        let secret = random_secret();
        let public = derive_public(secret.as_slice());
        Keypair { secret, public }
    }

    /// The `nsec` text of the secret key and the `npub` text of the public key.
    pub fn encode(&self) -> (r: (String, String))
        requires
            self.wf(),
        ensures
            r.0@ == nsec_of(self@.0),
            r.1@ == npub_of(self@.1),
            r.0@.len() > 5 && r.0@.take(5) == seq!['n', 's', 'e', 'c', '1'],
            r.1@.len() > 5 && r.1@.take(5) == seq!['n', 'p', 'u', 'b', '1'],
    {
        (secret_to_bech32(self.secret.as_slice()), public_to_bech32(self.secret.as_slice()))
    }

    /// The 32-byte x-only public key.
    pub fn public_key(&self) -> (r: Vec<u8>)
        ensures
            r@ == self@.1,
    {
        self.public.clone()
    }

    /// The 32 bytes of the secret key, for signing.
    pub(crate) fn secret_bytes(&self) -> (r: &[u8])
        ensures
            r@ == self@.0,
    {
        self.secret.as_slice()
    }
}

} // verus!
