use vstd::prelude::*;
use nostr_sdk::hashes::sha256;
use nostr_sdk::secp256k1::schnorr::Signature;
use nostr_sdk::secp256k1::{KeyPair, Message, SecretKey, XOnlyPublicKey};
use nostr_sdk::{FromBech32, Keys, ToBech32, SECP256K1};

verus! {

/// The number that a byte string spells in big-endian order.
pub open spec fn be_value(b: Seq<u8>) -> nat
    decreases b.len(),
{
    if b.len() == 0 {
        0
    } else {
        (be_value(b.drop_last()) * 256 + b.last()) as nat
    }
}

/// The order of the secp256k1 group.
pub open spec fn curve_order() -> nat {
    0xFFFFFFFFFFFFFFFFFFFFFFFFFFFFFFFEu128 as nat * 0x10000000000000000nat * 0x10000000000000000nat
        + 0xBAAEDCE6AF48A03BBFD25E8CD0364141u128 as nat
}

/// A secret key: 32 bytes whose big-endian value is a nonzero scalar below
/// the group order.
pub open spec fn valid_secret(b: Seq<u8>) -> bool {
    b.len() == 32 && 0 < be_value(b) && be_value(b) < curve_order()
}

/// The x-only public key of a secret key.
pub uninterp spec fn xonly_public_of(secret: Seq<u8>) -> Seq<u8>;

/// SHA-256 digest of a byte string.
pub uninterp spec fn sha256_of(data: Seq<u8>) -> Seq<u8>;

/// BIP-340 signature of a 32-byte message, made without auxiliary randomness.
pub uninterp spec fn schnorr_sig_of(secret: Seq<u8>, msg: Seq<u8>) -> Seq<u8>;

/// Whether a BIP-340 signature verifies for an x-only key and a message.
pub uninterp spec fn schnorr_accepts(public: Seq<u8>, msg: Seq<u8>, sig: Seq<u8>) -> bool;

/// The `nsec` bech32 text of a secret key.
pub uninterp spec fn nsec_of(secret: Seq<u8>) -> Seq<char>;

/// The `npub` bech32 text of an x-only public key.
pub uninterp spec fn npub_of(public: Seq<u8>) -> Seq<char>;

/// The secret key that an `nsec` bech32 text decodes to, if any.
pub uninterp spec fn nsec_decoded(text: Seq<char>) -> Option<Seq<u8>>;

/// The x-only public key that an `npub` bech32 text decodes to, if any.
pub uninterp spec fn npub_decoded(text: Seq<char>) -> Option<Seq<u8>>;

/// Whether 32 bytes are the x coordinate of a point on the curve.
pub uninterp spec fn public_valid(public: Seq<u8>) -> bool;

/// Relies on secp256k1's `XOnlyPublicKey::from_slice`: whether the bytes
/// are an x-only public key.
#[verifier::external_body]
pub(crate) fn public_accepted(b: &[u8]) -> (r: bool)
    ensures
        r == public_valid(b@),
{
    XOnlyPublicKey::from_slice(b).is_ok()
}

/// Relies on secp256k1's `SecretKey::from_slice`, which accepts exactly the
/// 32-byte strings that `secp256k1_ec_seckey_verify` accepts: nonzero and
/// below the group order.
#[verifier::external_body]
pub(crate) fn secret_accepted(b: &[u8]) -> (r: bool)
    ensures
        r == valid_secret(b@),
{
    SecretKey::from_slice(b).is_ok()
}

/// Relies on nostr's `Keys::new` and `Keys::public_key`: the 32-byte x-only
/// public key that belongs to a secret key.
#[verifier::external_body]
pub(crate) fn derive_public(secret: &[u8]) -> (r: Vec<u8>)
    requires
        valid_secret(secret@),
    ensures
        r@ == xonly_public_of(secret@),
        r@.len() == 32,
        public_valid(r@),
{
    let sk = SecretKey::from_slice(secret).unwrap();
    Keys::new(sk).public_key().serialize().to_vec()
}

/// Relies on nostr's `Keys::generate`: a fresh secret key drawn from the
/// operating system's random source. `generate` always stores the secret
/// key, so `secret_key` gives it back.
#[verifier::external_body]
pub(crate) fn random_secret() -> (r: Vec<u8>)
    ensures
        valid_secret(r@),
{
    Keys::generate().secret_key().unwrap().secret_bytes().to_vec()
}

/// Relies on bitcoin_hashes' `sha256::Hash::hash`: the 32-byte SHA-256 digest.
#[verifier::external_body]
pub(crate) fn sha256(data: &[u8]) -> (r: Vec<u8>)
    ensures
        r@ == sha256_of(data@),
        r@.len() == 32,
{
    let digest = <sha256::Hash as nostr_sdk::hashes::Hash>::hash(data);
    <sha256::Hash as nostr_sdk::hashes::Hash>::to_byte_array(digest).to_vec()
}

/// Relies on secp256k1's `Secp256k1::sign_schnorr_no_aux_rand`: a BIP-340
/// signature with a nonce derived from key and message alone, which verifies
/// under the key's x-only public key.
#[verifier::external_body]
pub(crate) fn schnorr_sign(secret: &[u8], msg: &[u8]) -> (r: Vec<u8>)
    requires
        valid_secret(secret@),
        msg@.len() == 32,
    ensures
        r@ == schnorr_sig_of(secret@, msg@),
        r@.len() == 64,
        schnorr_accepts(xonly_public_of(secret@), msg@, r@),
{
    let sk = SecretKey::from_slice(secret).unwrap();
    let pair = KeyPair::from_secret_key(&SECP256K1, &sk);
    let m = Message::from_slice(msg).unwrap();
    SECP256K1.sign_schnorr_no_aux_rand(&m, &pair).as_ref().to_vec()
}

/// Relies on secp256k1's `Secp256k1::verify_schnorr`, after reading the key,
/// message and signature with their `from_slice`; a value that cannot be read
/// does not verify.
#[verifier::external_body]
pub(crate) fn schnorr_verify(public: &[u8], msg: &[u8], sig: &[u8]) -> (r: bool)
    ensures
        r == schnorr_accepts(public@, msg@, sig@),
{
    match (XOnlyPublicKey::from_slice(public), Message::from_slice(msg), Signature::from_slice(sig)) {
        (Ok(p), Ok(m), Ok(s)) => SECP256K1.verify_schnorr(&s, &m, &p).is_ok(),
        _ => false,
    }
}

/// Relies on nostr's `ToBech32` for `SecretKey`: bech32 with the `nsec`
/// prefix, which cannot fail for that fixed, valid prefix.
#[verifier::external_body]
pub(crate) fn secret_to_bech32(secret: &[u8]) -> (r: String)
    requires
        valid_secret(secret@),
    ensures
        r@ == nsec_of(secret@),
        r@.len() > 5 && r@.take(5) == seq!['n', 's', 'e', 'c', '1'],
{
    SecretKey::from_slice(secret).unwrap().to_bech32().unwrap()
}

/// Relies on nostr's `ToBech32` for `XOnlyPublicKey`: bech32 with the `npub`
/// prefix of the public key that belongs to `secret`.
#[verifier::external_body]
pub(crate) fn public_to_bech32(secret: &[u8]) -> (r: String)
    requires
        valid_secret(secret@),
    ensures
        r@ == npub_of(xonly_public_of(secret@)),
        r@.len() > 5 && r@.take(5) == seq!['n', 'p', 'u', 'b', '1'],
{
    let sk = SecretKey::from_slice(secret).unwrap();
    Keys::new(sk).public_key().to_bech32().unwrap()
}

/// Relies on nostr's `FromBech32` for `SecretKey`: it decodes bech32 with
/// the `nsec` prefix and reads the data with `SecretKey::from_slice`, so what
/// it gives is a valid key, the text that `ToBech32` wrote for a key gives
/// that key back, and a text that decodes starts with the prefix `nsec`, in
/// either case.
#[verifier::external_body]
pub(crate) fn secret_from_bech32(text: &str) -> (r: Option<Vec<u8>>)
    ensures
        match r {
            Some(v) => nsec_decoded(text@) == Some(v@) && valid_secret(v@),
            None => nsec_decoded(text@).is_none(),
        },
        forall|k: Seq<u8>|
            valid_secret(k) && text@ == #[trigger] nsec_of(k) ==> r.is_some() && r.unwrap()@ == k,
        r.is_some() ==> text@.len() > 0 && (text@[0] == 'n' || text@[0] == 'N'),
{
    SecretKey::from_bech32(text).ok().map(|k| k.secret_bytes().to_vec())
}

/// Relies on nostr's `FromBech32` for `XOnlyPublicKey`: it decodes bech32
/// and refuses any prefix but `npub`, so the `nsec` text of a secret key is
/// refused; it reads the data with `XOnlyPublicKey::from_slice`; and the text
/// that `ToBech32` wrote for a key gives that key back.
#[verifier::external_body]
pub(crate) fn public_from_bech32(text: &str) -> (r: Option<Vec<u8>>)
    ensures
        match r {
            Some(v) => npub_decoded(text@) == Some(v@) && public_valid(v@) && v@.len() == 32,
            None => npub_decoded(text@).is_none(),
        },
        forall|k: Seq<u8>|
            valid_secret(k) && text@ == #[trigger] npub_of(xonly_public_of(k)) ==> r.is_some() && r.unwrap()@
                == xonly_public_of(k),
        forall|k: Seq<u8>| valid_secret(k) && text@ == #[trigger] nsec_of(k) ==> r.is_none(),
{
    XOnlyPublicKey::from_bech32(text).ok().map(|k| k.serialize().to_vec())
}

} // verus!
