use nos::error::NosError;
use nos::event::{Event, UnsignedEvent, TEXT_NOTE};
use nos::hex::{from_hex, to_hex};
use nos::keys::{public_from_text, Keypair};
use nostr_sdk::secp256k1::SecretKey;
use nostr_sdk::{EventId, Keys, Kind, Tag, Timestamp};

const ONES: &str = "0101010101010101010101010101010101010101010101010101010101010101";

fn ones_pair() -> Keypair {
    Keypair::from_secret(ONES).unwrap()
}

fn hello(keys: &Keypair) -> Event {
    UnsignedEvent::text_note("hello".to_string(), 1700000000).sign(keys)
}

#[test]
fn hex_encodes_lowercase() {
    assert_eq!(to_hex(&[0x00, 0x0f, 0xab, 0xff]), b"000fabff".to_vec());
    assert_eq!(to_hex(&[]), Vec::<u8>::new());
}

#[test]
fn hex_decodes_either_case() {
    assert_eq!(from_hex("00fFaB"), Some(vec![0x00, 0xff, 0xab]));
    assert_eq!(from_hex("abc"), None);
    assert_eq!(from_hex("zz"), None);
    assert_eq!(from_hex(""), Some(vec![]));
}

#[test]
fn public_key_matches_nostr() {
    let kp = ones_pair();
    let theirs = Keys::new(SecretKey::from_slice(&[1u8; 32]).unwrap());
    assert_eq!(kp.public_key(), theirs.public_key().serialize().to_vec());
}

#[test]
fn secret_text_round_trips() {
    let kp = ones_pair();
    let (nsec, npub) = kp.encode();
    assert!(nsec.starts_with("nsec1"));
    assert!(npub.starts_with("npub1"));
    let back = Keypair::from_secret(&nsec).unwrap();
    assert_eq!(back.public_key(), kp.public_key());
    assert_eq!(back.encode(), (nsec, npub));
}

#[test]
fn generated_keys_round_trip() {
    let a = Keypair::generate();
    let b = Keypair::generate();
    assert_ne!(a.public_key(), b.public_key());
    let (nsec, _) = a.encode();
    assert_eq!(Keypair::from_secret(&nsec).unwrap().public_key(), a.public_key());
}

#[test]
fn invalid_secrets_are_refused() {
    let zeros = "0".repeat(64);
    assert!(matches!(Keypair::from_secret(&zeros), Err(NosError::InvalidKey)));
    let order = "FFFFFFFFFFFFFFFFFFFFFFFFFFFFFFFEBAAEDCE6AF48A03BBFD25E8CD0364141";
    assert!(matches!(Keypair::from_secret(order), Err(NosError::InvalidKey)));
    assert!(matches!(Keypair::from_secret("0101"), Err(NosError::InvalidKey)));
    assert!(matches!(Keypair::from_secret("not a key"), Err(NosError::InvalidKey)));
    let (nsec, _) = ones_pair().encode();
    let mut bad = nsec.clone().into_bytes();
    let last = bad.len() - 1;
    bad[last] = if bad[last] == b'q' { b'p' } else { b'q' };
    let bad = String::from_utf8(bad).unwrap();
    assert!(matches!(Keypair::from_secret(&bad), Err(NosError::InvalidKey)));
    assert!(matches!(Keypair::from_secret_bytes(&[1u8; 31]), Err(NosError::InvalidKey)));
}

#[test]
fn canonical_text_is_exact() {
    let kp = ones_pair();
    let ev = UnsignedEvent::text_note("hello".to_string(), 1700000000);
    let pk = kp.public_key();
    let text = String::from_utf8(ev.canonical_bytes(&pk)).unwrap();
    let hex = String::from_utf8(to_hex(&pk)).unwrap();
    assert_eq!(text, format!("[0,\"{}\",1700000000,1,[],\"hello\"]", hex));
}

#[test]
fn content_is_escaped() {
    let ev = UnsignedEvent::new(7, "a\"b\\c\nd\te\u{1}f\u{7f}é".to_string(), vec![], 0);
    let text = String::from_utf8(ev.canonical_bytes(&[0xab])).unwrap();
    assert_eq!(text, "[0,\"ab\",0,7,[],\"a\\\"b\\\\c\\nd\\te\\u0001f\u{7f}é\"]");
}

#[test]
fn golden_vector_matches_nostr() {
    let kp = ones_pair();
    let ev = hello(&kp);
    let theirs = Keys::new(SecretKey::from_slice(&[1u8; 32]).unwrap()).public_key();
    let id = EventId::new(&theirs, Timestamp::from(1700000000), &Kind::TextNote, &[], "hello");
    assert_eq!(ev.id, id.as_bytes().to_vec());
    assert_eq!(ev.kind, TEXT_NOTE);
    assert_eq!(ev.sig.len(), 64);
    let again = hello(&kp);
    assert_eq!(again.id, ev.id);
    assert_eq!(again.sig, ev.sig);
    assert!(ev.verify());
    assert_eq!(ev.recompute_id(), ev.id);
}

#[test]
fn tags_match_nostr() {
    let kp = ones_pair();
    let tags = vec![
        vec!["t".to_string(), "nostr".to_string()],
        vec!["client".to_string(), "nos".to_string(), "x".to_string()],
    ];
    let ev = UnsignedEvent::new(1, "tagged".to_string(), tags, 42).sign(&kp);
    let theirs = Keys::new(SecretKey::from_slice(&[1u8; 32]).unwrap()).public_key();
    let their_tags = vec![
        Tag::parse(vec!["t", "nostr"]).unwrap(),
        Tag::parse(vec!["client", "nos", "x"]).unwrap(),
    ];
    let id = EventId::new(&theirs, Timestamp::from(42), &Kind::TextNote, &their_tags, "tagged");
    assert_eq!(ev.id, id.as_bytes().to_vec());
    assert!(ev.verify());
}

#[test]
fn wire_form_is_read_by_nostr() {
    let ev = hello(&ones_pair());
    let text = String::from_utf8(ev.serialize()).unwrap();
    let theirs = nostr_sdk::Event::from_json(text).unwrap();
    assert_eq!(theirs.id.as_bytes().to_vec(), ev.id);
    assert_eq!(theirs.content, "hello");
}

#[test]
fn wire_round_trip() {
    let ev = hello(&ones_pair());
    let back = Event::deserialize(&ev.serialize()).unwrap();
    assert_eq!(back.id, ev.id);
    assert_eq!(back.pubkey, ev.pubkey);
    assert_eq!(back.created_at, ev.created_at);
    assert_eq!(back.kind, ev.kind);
    assert_eq!(back.tags, ev.tags);
    assert_eq!(back.content, ev.content);
    assert_eq!(back.sig, ev.sig);
}

#[test]
fn tampered_id_is_malformed() {
    let mut ev = hello(&ones_pair());
    ev.id[0] ^= 1;
    assert!(!ev.verify());
    assert!(matches!(Event::deserialize(&ev.serialize()), Err(NosError::MalformedEvent)));
    let mut ev = hello(&ones_pair());
    ev.content = "goodbye".to_string();
    assert!(matches!(Event::deserialize(&ev.serialize()), Err(NosError::MalformedEvent)));
}

#[test]
fn tampered_signature_is_malformed() {
    let mut ev = hello(&ones_pair());
    ev.sig[5] ^= 0x40;
    assert!(!ev.verify());
    assert!(matches!(Event::deserialize(&ev.serialize()), Err(NosError::MalformedEvent)));
    let other = Keypair::from_secret_bytes(&[2u8; 32]).unwrap();
    let mut ev = hello(&ones_pair());
    ev.sig = hello(&other).sig;
    assert!(matches!(ev.checked(), Err(NosError::MalformedEvent)));
}

#[test]
fn garbage_is_malformed() {
    assert!(matches!(Event::deserialize(b"not json"), Err(NosError::MalformedEvent)));
    assert!(matches!(Event::deserialize(b"{\"id\":\"00\"}"), Err(NosError::MalformedEvent)));
    assert!(matches!(Event::deserialize(&[0xff, 0xfe]), Err(NosError::MalformedEvent)));
}

#[test]
fn hex_secret_round_trips() {
    let secret = [7u8; 32];
    let text = String::from_utf8(to_hex(&secret)).unwrap();
    let kp = Keypair::from_secret(&text).unwrap();
    let direct = Keypair::from_secret_bytes(&secret).unwrap();
    assert_eq!(kp.public_key(), direct.public_key());
    assert_eq!(kp.encode(), direct.encode());
    let upper = text.to_uppercase();
    assert_eq!(Keypair::from_secret(&upper).unwrap().public_key(), direct.public_key());
}

#[test]
fn sha256_of_canonical_text() {
    let kp = ones_pair();
    let ev = UnsignedEvent::text_note("hello".to_string(), 1700000000);
    let pk = kp.public_key();
    let text = ev.canonical_bytes(&pk);
    let digest = <nostr_sdk::hashes::sha256::Hash as nostr_sdk::hashes::Hash>::hash(&text);
    assert_eq!(ev.compute_id(&pk), AsRef::<[u8]>::as_ref(&digest).to_vec());
    assert_ne!(ev.compute_id(&pk), text);
}

#[test]
fn public_text_round_trips() {
    let kp = ones_pair();
    let (nsec, npub) = kp.encode();
    assert_eq!(public_from_text(&npub), Ok(kp.public_key()));
    assert!(matches!(public_from_text(&nsec), Err(NosError::InvalidKey)));
    let hex = String::from_utf8(to_hex(&kp.public_key())).unwrap();
    assert!(matches!(public_from_text(&hex), Err(NosError::InvalidKey)));
    assert!(matches!(public_from_text("npub1qqqq"), Err(NosError::InvalidKey)));
    let theirs = nostr_sdk::ToBech32::to_bech32(&Keys::new(SecretKey::from_slice(&[1u8; 32]).unwrap()).public_key()).unwrap();
    assert_eq!(theirs, npub);
}

#[test]
fn generated_key_reads_back() {
    let kp = Keypair::generate();
    let (nsec, npub) = kp.encode();
    assert_eq!(Keypair::from_secret(&nsec).unwrap().public_key(), kp.public_key());
    assert_eq!(public_from_text(&npub), Ok(kp.public_key()));
}
