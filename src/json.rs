use vstd::prelude::*;
use vstd::utf8::encode_utf8;
use crate::hex::{hex_digit, hex_of, push_hex};

verus! {

/// JSON escape of one byte of UTF-8 text: quote and backslash, the short
/// forms of the five usual control characters, `\u00XX` for the others below
/// 0x20, and every other byte as it is.
pub open spec fn escape_byte(b: u8) -> Seq<u8> {
    if b == 34 {
        seq![92u8, 34]
    } else if b == 92 {
        seq![92u8, 92]
    } else if b == 8 {
        seq![92u8, 98]
    } else if b == 12 {
        seq![92u8, 102]
    } else if b == 10 {
        seq![92u8, 110]
    } else if b == 13 {
        seq![92u8, 114]
    } else if b == 9 {
        seq![92u8, 116]
    } else if b < 32 {
        seq![92u8, 117, 48, 48, hex_digit(b / 16), hex_digit(b % 16)]
    } else {
        seq![b]
    }
}

pub open spec fn escaped(s: Seq<u8>) -> Seq<u8>
    decreases s.len(),
{
    if s.len() == 0 {
        Seq::empty()
    } else {
        escaped(s.drop_last()) + escape_byte(s.last())
    }
}

/// A JSON string literal holding the UTF-8 text `s`.
pub open spec fn json_string(s: Seq<char>) -> Seq<u8> {
    seq![34u8] + escaped(encode_utf8(s)) + seq![34u8]
}

/// Decimal digits of `n`, without sign or leading zeros.
pub open spec fn decimal(n: nat) -> Seq<u8>
    decreases n,
{
    if n < 10 {
        seq![(48 + n) as u8]
    } else {
        decimal(n / 10) + seq![(48 + n % 10) as u8]
    }
}

/// The parts, already JSON, separated by commas.
pub open spec fn joined(parts: Seq<Seq<u8>>) -> Seq<u8>
    decreases parts.len(),
{
    if parts.len() == 0 {
        Seq::empty()
    } else if parts.len() == 1 {
        parts[0]
    } else {
        joined(parts.drop_last()) + seq![44u8] + parts.last()
    }
}

/// A JSON array of the parts, already JSON.
pub open spec fn json_array(parts: Seq<Seq<u8>>) -> Seq<u8> {
    seq![91u8] + joined(parts) + seq![93u8]
}

/// A JSON array of strings.
pub open spec fn string_array(items: Seq<Seq<char>>) -> Seq<u8> {
    json_array(items.map_values(|s: Seq<char>| json_string(s)))
}

/// A JSON array of arrays of strings: how tags are written.
pub open spec fn tags_json(tags: Seq<Seq<Seq<char>>>) -> Seq<u8> {
    json_array(tags.map_values(|t: Seq<Seq<char>>| string_array(t)))
}

/// A JSON string holding the lowercase hex text of `b`.
pub open spec fn hex_string(b: Seq<u8>) -> Seq<u8> {
    seq![34u8] + hex_of(b) + seq![34u8]
}

pub fn push_escaped(out: &mut Vec<u8>, s: &[u8])
    ensures
        final(out)@ == old(out)@ + escaped(s@),
{
    let ghost start = out@;
    let mut i: usize = 0;
    while i < s.len()
        invariant
            i <= s@.len(),
            out@ == start + escaped(s@.take(i as int)),
        decreases s@.len() - i,
    {
        let b = s[i];
        let ghost before = out@;
        if b == 34 {
            out.push(92);
            out.push(34);
        } else if b == 92 {
            out.push(92);
            out.push(92);
        } else if b == 8 {
            out.push(92);
            out.push(98);
        } else if b == 12 {
            out.push(92);
            out.push(102);
        } else if b == 10 {
            out.push(92);
            out.push(110);
        } else if b == 13 {
            out.push(92);
            out.push(114);
        } else if b == 9 {
            out.push(92);
            out.push(116);
        } else if b < 32 {
            out.push(92);
            out.push(117);
            out.push(48);
            out.push(48);
            let pair = [b];
            push_hex(out, &pair);
            proof {
                assert(pair@.drop_last() =~= Seq::<u8>::empty());
                reveal_with_fuel(hex_of, 2);
            }
        } else {
            out.push(b);
        }
        assert(out@ =~= before + escape_byte(b));
        proof {
            assert(s@.take(i + 1).drop_last() =~= s@.take(i as int));
        }
        i = i + 1;
    }
    assert(s@.take(s@.len() as int) =~= s@);
}

/// Appends the JSON string literal of `s`.
pub fn push_json_string(out: &mut Vec<u8>, s: &str)
    ensures
        final(out)@ == old(out)@ + json_string(s@),
{
    let ghost start = out@;
    out.push(34);
    push_escaped(out, s.as_bytes());
    out.push(34);
    assert(out@ =~= start + json_string(s@));
}

/// Appends the decimal digits of `n`.
pub fn push_decimal(out: &mut Vec<u8>, n: u64)
    ensures
        final(out)@ == old(out)@ + decimal(n as nat),
    decreases n,
{
    let ghost start = out@;
    if n >= 10 {
        push_decimal(out, n / 10);
    }
    out.push(48 + (n % 10) as u8);
    assert(out@ =~= start + decimal(n as nat));
}

/// Appends `[`, the JSON strings of `items` separated by commas, and `]`.
pub fn push_string_array(out: &mut Vec<u8>, items: &Vec<String>)
    ensures
        final(out)@ == old(out)@ + string_array(items@.map_values(|s: String| s@)),
{
    let ghost start = out@;
    let ghost chars = items@.map_values(|s: String| s@);
    let ghost parts = chars.map_values(|s: Seq<char>| json_string(s));
    out.push(91);
    let mut i: usize = 0;
    while i < items.len()
        invariant
            i <= items@.len(),
            chars == items@.map_values(|s: String| s@),
            parts == chars.map_values(|s: Seq<char>| json_string(s)),
            out@ == start + seq![91u8] + joined(parts.take(i as int)),
        decreases items@.len() - i,
    {
        let ghost before = out@;
        if i > 0 {
            out.push(44);
        }
        push_json_string(out, items[i].as_str());
        proof {
            let t = parts.take(i + 1);
            assert(t.drop_last() =~= parts.take(i as int));
            assert(t.last() == json_string(items@[i as int]@));
            if i == 0 {
                assert(out@ =~= start + seq![91u8] + joined(t));
            } else {
                assert(out@ =~= start + seq![91u8] + joined(t));
            }
        }
        i = i + 1;
    }
    out.push(93);
    assert(parts.take(items@.len() as int) =~= parts);
    assert(out@ =~= start + string_array(chars));
}

/// The view of a list of tags as sequences of texts.
pub open spec fn tags_view(tags: Seq<Vec<String>>) -> Seq<Seq<Seq<char>>> {
    tags.map_values(|t: Vec<String>| t@.map_values(|s: String| s@))
}

/// Appends the JSON array of arrays of strings that `tags` holds.
pub fn push_tags(out: &mut Vec<u8>, tags: &Vec<Vec<String>>)
    ensures
        final(out)@ == old(out)@ + tags_json(tags_view(tags@)),
{
    let ghost start = out@;
    let ghost view = tags_view(tags@);
    let ghost parts = view.map_values(|t: Seq<Seq<char>>| string_array(t));
    out.push(91);
    let mut i: usize = 0;
    while i < tags.len()
        invariant
            i <= tags@.len(),
            view == tags_view(tags@),
            parts == view.map_values(|t: Seq<Seq<char>>| string_array(t)),
            out@ == start + seq![91u8] + joined(parts.take(i as int)),
        decreases tags@.len() - i,
    {
        if i > 0 {
            out.push(44);
        }
        push_string_array(out, &tags[i]);
        proof {
            let t = parts.take(i + 1);
            assert(t.drop_last() =~= parts.take(i as int));
            assert(t.last() == string_array(tags@[i as int]@.map_values(|s: String| s@)));
            assert(out@ =~= start + seq![91u8] + joined(t));
        }
        i = i + 1;
    }
    out.push(93);
    assert(parts.take(tags@.len() as int) =~= parts);
    assert(out@ =~= start + tags_json(view));
}

/// Appends a JSON string holding the lowercase hex text of `b`.
pub fn push_hex_string(out: &mut Vec<u8>, b: &[u8])
    ensures
        final(out)@ == old(out)@ + hex_string(b@),
{
    let ghost start = out@;
    out.push(34);
    push_hex(out, b);
    out.push(34);
    assert(out@ =~= start + hex_string(b@));
}

} // verus!
