use vstd::prelude::*;
use crate::bytes::copy_bytes;
use crate::crypto::{
    public_valid, schnorr_accepts, schnorr_sig_of, schnorr_sign, schnorr_verify, sha256, sha256_of,
};
use crate::error::NosError;
use crate::json::{
    decimal, hex_string, json_string, push_decimal, push_hex_string, push_json_string, push_tags,
    tags_json, tags_view,
};
use crate::keys::Keypair;

verus! {

/// The kind of a plain text note.
pub const TEXT_NOTE: u64 = 1;

/// What an event holds, field by field: identifier, author's public key,
/// creation time, kind, tags, content and signature.
pub type EventFields = (Seq<u8>, Seq<u8>, u64, u64, Seq<Seq<Seq<char>>>, Seq<char>, Seq<u8>);

/// The canonical text whose hash identifies an event:
/// `[0,"<pubkey hex>",<created_at>,<kind>,<tags>,"<content>"]`, with no
/// whitespace.
pub open spec fn canonical(
    pubkey: Seq<u8>,
    created_at: u64,
    kind: u64,
    tags: Seq<Seq<Seq<char>>>,
    content: Seq<char>,
) -> Seq<u8> {
    seq![91u8, 48, 44] + hex_string(pubkey) + seq![44u8] + decimal(created_at as nat) + seq![44u8]
        + decimal(kind as nat) + seq![44u8] + tags_json(tags) + seq![44u8] + json_string(content)
        + seq![93u8]
}

/// The identifier of an event: the SHA-256 digest of its canonical text.
pub open spec fn event_id(
    pubkey: Seq<u8>,
    created_at: u64,
    kind: u64,
    tags: Seq<Seq<Seq<char>>>,
    content: Seq<char>,
) -> Seq<u8> {
    sha256_of(canonical(pubkey, created_at, kind, tags, content))
}

/// The stored identifier is the one computed from the other fields.
pub open spec fn id_matches(f: EventFields) -> bool {
    f.0 == event_id(f.1, f.2, f.3, f.4, f.5)
}

/// The identifier matches and the signature verifies for the author's key.
pub open spec fn fields_valid(f: EventFields) -> bool {
    id_matches(f) && schnorr_accepts(f.1, f.0, f.6)
}

/// The wire form of an event: a JSON object with the fields `id`, `pubkey`,
/// `created_at`, `kind`, `tags`, `content` and `sig` in that order.
pub open spec fn wire(f: EventFields) -> Seq<u8> {
    seq![123u8] + json_string("id"@) + seq![58u8] + hex_string(f.0) + seq![44u8] + json_string(
        "pubkey"@,
    ) + seq![58u8] + hex_string(f.1) + seq![44u8] + json_string("created_at"@) + seq![58u8]
        + decimal(f.2 as nat) + seq![44u8] + json_string("kind"@) + seq![58u8] + decimal(
        f.3 as nat,
    ) + seq![44u8] + json_string("tags"@) + seq![58u8] + tags_json(f.4) + seq![44u8]
        + json_string("content"@) + seq![58u8] + json_string(f.5) + seq![44u8] + json_string(
        "sig"@,
    ) + seq![58u8] + hex_string(f.6) + seq![125u8]
}

/// An event whose wire form reads back unchanged: a 32-byte identifier, a
/// valid x-only author key, a 64-byte signature, a creation time within the
/// signed 64-bit range, and no tags. (Tags are read through nostr's typed
/// `Tag`, which may rewrite a tag it knows.)
pub open spec fn wire_exact(f: EventFields) -> bool {
    &&& f.0.len() == 32
    &&& f.1.len() == 32
    &&& public_valid(f.1)
    &&& f.6.len() == 64
    &&& f.2 <= 0x7fff_ffff_ffff_ffffu64
    &&& f.4.len() == 0
}

/// The fields that a JSON reader finds in wire bytes, if they hold an event.
pub uninterp spec fn wire_fields_of(wire: Seq<u8>) -> Option<EventFields>;

/// An event before it is signed.
pub struct UnsignedEvent {
    pub kind: u64,
    pub content: String,
    pub tags: Vec<Vec<String>>,
    pub created_at: u64,
}

/// A signed event.
pub struct Event {
    pub id: Vec<u8>,
    pub pubkey: Vec<u8>,
    pub created_at: u64,
    pub kind: u64,
    pub tags: Vec<Vec<String>>,
    pub content: String,
    pub sig: Vec<u8>,
}

impl View for Event {
    type V = EventFields;

    open spec fn view(&self) -> EventFields {
        (
            self.id@,
            self.pubkey@,
            self.created_at,
            self.kind,
            tags_view(self.tags@),
            self.content@,
            self.sig@,
        )
    }
}

fn copy_tags(tags: &Vec<Vec<String>>) -> (r: Vec<Vec<String>>)
    ensures
        tags_view(r@) == tags_view(tags@),
{
    let mut out: Vec<Vec<String>> = Vec::new();
    let mut i: usize = 0;
    while i < tags.len()
        invariant
            i <= tags@.len(),
            tags_view(out@) =~= tags_view(tags@.take(i as int)),
        decreases tags@.len() - i,
    {
        let tag = &tags[i];
        let mut t: Vec<String> = Vec::new();
        let mut j: usize = 0;
        while j < tag.len()
            invariant
                j <= tag@.len(),
                t@.map_values(|s: String| s@) =~= tag@.take(j as int).map_values(|s: String| s@),
            decreases tag@.len() - j,
        {
            let ghost before = t@;
            let c = tag[j].clone();
            t.push(c);
            proof {
                assert(t@ == before.push(c));
                assert(tag@.take(j + 1) =~= tag@.take(j as int).push(tag@[j as int]));
                assert(t@.map_values(|s: String| s@) =~= before.map_values(|s: String| s@).push(c@));
            }
            j = j + 1;
        }
        assert(tag@.take(tag@.len() as int) =~= tag@);
        let ghost before = out@;
        out.push(t);
        proof {
            assert(out@ == before.push(t));
            assert(tags@.take(i + 1) =~= tags@.take(i as int).push(tags@[i as int]));
            assert(tags_view(out@) =~= tags_view(before).push(t@.map_values(|s: String| s@)));
            assert(tags_view(tags@.take(i + 1)) =~= tags_view(tags@.take(i as int)).push(
                tags@[i as int]@.map_values(|s: String| s@),
            ));
        }
        i = i + 1;
    }
    assert(tags@.take(tags@.len() as int) =~= tags@);
    out
}

impl UnsignedEvent {
    /// An unsigned event from its kind, content, tags and creation time.
    pub fn new(kind: u64, content: String, tags: Vec<Vec<String>>, created_at: u64) -> (r: Self)
        ensures
            r.kind == kind,
            r.content@ == content@,
            tags_view(r.tags@) == tags_view(tags@),
            r.created_at == created_at,
    {
        UnsignedEvent { kind, content, tags, created_at }
    }

    /// A text note with no tags.
    pub fn text_note(content: String, created_at: u64) -> (r: Self)
        ensures
            r.kind == TEXT_NOTE,
            r.content@ == content@,
            r.tags@.len() == 0,
            r.created_at == created_at,
    {
        UnsignedEvent { kind: TEXT_NOTE, content, tags: Vec::new(), created_at }
    }

    /// The canonical text of this event by the author `pubkey`.
    pub fn canonical_bytes(&self, pubkey: &[u8]) -> (r: Vec<u8>)
        ensures
            r@ == canonical(pubkey@, self.created_at, self.kind, tags_view(self.tags@), self.content@),
    {
        let mut out: Vec<u8> = Vec::new();
        out.push(91);
        out.push(48);
        out.push(44);
        push_hex_string(&mut out, pubkey);
        out.push(44);
        push_decimal(&mut out, self.created_at);
        out.push(44);
        push_decimal(&mut out, self.kind);
        out.push(44);
        push_tags(&mut out, &self.tags);
        out.push(44);
        push_json_string(&mut out, self.content.as_str());
        out.push(93);
        assert(out@ =~= canonical(
            pubkey@,
            self.created_at,
            self.kind,
            tags_view(self.tags@),
            self.content@,
        ));
        out
    }

    /// The identifier of this event by the author `pubkey`.
    pub fn compute_id(&self, pubkey: &[u8]) -> (r: Vec<u8>)
        ensures
            r@ == event_id(pubkey@, self.created_at, self.kind, tags_view(self.tags@), self.content@),
            r@.len() == 32,
    {
        let text = self.canonical_bytes(pubkey);
        sha256(text.as_slice())
    }

    /// Signs this event with `keys`: the identifier is computed for the
    /// pair's public key and signed with its secret key.
    pub fn sign(self, keys: &Keypair) -> (r: Event)
        requires
            keys.wf(),
        ensures
            r.pubkey@ == keys@.1,
            r.created_at == self.created_at,
            r.kind == self.kind,
            tags_view(r.tags@) == tags_view(self.tags@),
            r.content@ == self.content@,
            r.id@ == event_id(keys@.1, self.created_at, self.kind, tags_view(self.tags@), self.content@),
            r.sig@ == schnorr_sig_of(keys@.0, r.id@),
            fields_valid(r@),
            r.id@.len() == 32 && r.sig@.len() == 64 && public_valid(r.pubkey@),
    {
        proof {
            keys.lemma_wf();
        }
        let pubkey = keys.public_key();
        let id = self.compute_id(pubkey.as_slice());
        let sig = schnorr_sign(keys.secret_bytes(), id.as_slice());
        Event {
            id,
            pubkey,
            created_at: self.created_at,
            kind: self.kind,
            tags: self.tags,
            content: self.content,
            sig,
        }
    }
}

impl Event {
    /// A copy of this event.
    pub fn copy(&self) -> (r: Event)
        ensures
            r@ == self@,
    {
        Event {
            id: copy_bytes(self.id.as_slice()),
            pubkey: copy_bytes(self.pubkey.as_slice()),
            created_at: self.created_at,
            kind: self.kind,
            tags: copy_tags(&self.tags),
            content: self.content.clone(),
            sig: copy_bytes(self.sig.as_slice()),
        }
    }

    /// The identifier computed afresh from the other fields.
    pub fn recompute_id(&self) -> (r: Vec<u8>)
        ensures
            r@ == event_id(self@.1, self@.2, self@.3, self@.4, self@.5),
    {
        let unsigned = UnsignedEvent {
            kind: self.kind,
            content: self.content.clone(),
            tags: copy_tags(&self.tags),
            created_at: self.created_at,
        };
        unsigned.compute_id(self.pubkey.as_slice())
    }

    /// Whether the identifier matches the fields and the signature verifies.
    pub fn verify(&self) -> (r: bool)
        ensures
            r == fields_valid(self@),
    {
        let id = self.recompute_id();
        if !crate::bytes::same_bytes(id.as_slice(), self.id.as_slice()) {
            return false;
        }
        schnorr_verify(self.pubkey.as_slice(), self.id.as_slice(), self.sig.as_slice())
    }

    /// The event itself if it is valid, `MalformedEvent` if not.
    pub fn checked(self) -> (r: Result<Event, NosError>)
        ensures
            match r {
                Ok(e) => e@ == self@ && fields_valid(self@),
                Err(e) => !fields_valid(self@) && e == NosError::MalformedEvent,
            },
    {
        if self.verify() {
            Ok(self)
        } else {
            Err(NosError::MalformedEvent)
        }
    }

    /// The wire form of this event.
    pub fn serialize(&self) -> (r: Vec<u8>)
        ensures
            r@ == wire(self@),
    {
        let mut out: Vec<u8> = Vec::new();
        out.push(123);
        push_json_string(&mut out, "id");
        out.push(58);
        push_hex_string(&mut out, self.id.as_slice());
        out.push(44);
        push_json_string(&mut out, "pubkey");
        out.push(58);
        push_hex_string(&mut out, self.pubkey.as_slice());
        out.push(44);
        push_json_string(&mut out, "created_at");
        out.push(58);
        push_decimal(&mut out, self.created_at);
        out.push(44);
        push_json_string(&mut out, "kind");
        out.push(58);
        push_decimal(&mut out, self.kind);
        out.push(44);
        push_json_string(&mut out, "tags");
        out.push(58);
        push_tags(&mut out, &self.tags);
        out.push(44);
        push_json_string(&mut out, "content");
        out.push(58);
        push_json_string(&mut out, self.content.as_str());
        out.push(44);
        push_json_string(&mut out, "sig");
        out.push(58);
        push_hex_string(&mut out, self.sig.as_slice());
        out.push(125);
        assert(out@ =~= wire(self@));
        out
    }

    /// Reads an event from its wire form and checks it: `MalformedEvent` when
    /// the bytes do not hold an event, when the identifier is not the one
    /// computed from the fields, or when the signature does not verify.
    pub fn deserialize(bytes: &[u8]) -> (r: Result<Event, NosError>)
        ensures
            match wire_fields_of(bytes@) {
                Some(f) => match r {
                    Ok(e) => e@ == f && fields_valid(f),
                    Err(e) => !fields_valid(f) && e == NosError::MalformedEvent,
                },
                None => r == Err::<Event, NosError>(NosError::MalformedEvent),
            },
            forall|f: EventFields|
                bytes@ == #[trigger] wire(f) && wire_exact(f) && fields_valid(f) ==> (r matches Ok(e)
                    && e@ == f),
    {
        match parse_wire(bytes) {
            Some(e) => e.checked(),
            None => Err(NosError::MalformedEvent),
        }
    }
}

/// Relies on serde_json's `from_str` for nostr's `Event`, which reads the
/// JSON object field by field without checking identifier or signature; the
/// fields are then taken out as bytes, numbers and texts. The object that
/// `Event::serialize` writes reads back to the same fields when the id and
/// signature have their lengths, the author key is a valid x-only key (which
/// `XOnlyPublicKey` requires), the time fits `Timestamp`'s `i64`, and there
/// are no tags (`Kind` maps every `u64` back to itself).
#[verifier::external_body]
fn parse_wire(bytes: &[u8]) -> (r: Option<Event>)
    ensures
        match r {
            Some(e) => wire_fields_of(bytes@) == Some(e@),
            None => wire_fields_of(bytes@).is_none(),
        },
        forall|f: EventFields|
            bytes@ == #[trigger] wire(f) && wire_exact(f) ==> r.is_some() && r.unwrap()@ == f,
{
    let text = std::str::from_utf8(bytes).ok()?;
    let e: nostr_sdk::Event = nostr_sdk::serde_json::from_str(text).ok()?;
    Some(Event {
        id: e.id.as_bytes().to_vec(),
        pubkey: e.pubkey.serialize().to_vec(),
        created_at: e.created_at.as_u64(),
        kind: e.kind.as_u64(),
        tags: e.tags.iter().map(|t| t.as_vec()).collect(),
        content: e.content,
        sig: e.sig.as_ref().to_vec(),
    })
}

} // verus!
