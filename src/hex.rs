use vstd::prelude::*;
use vstd::string::StrSliceExecFns;

verus! {

/// The lowercase ASCII hex digit of a value below 16.
pub open spec fn hex_digit(v: u8) -> u8 {
    if v < 10 {
        (48 + v) as u8
    } else {
        (87 + v) as u8
    }
}

/// Lowercase hex text of a byte string as ASCII bytes: two digits a byte,
/// the high nibble first.
pub open spec fn hex_of(b: Seq<u8>) -> Seq<u8>
    decreases b.len(),
{
    if b.len() == 0 {
        Seq::empty()
    } else {
        hex_of(b.drop_last()) + seq![hex_digit(b.last() / 16), hex_digit(b.last() % 16)]
    }
}

/// The value of one hex digit, in either case.
pub open spec fn hex_value(c: char) -> Option<u8> {
    if '0' <= c && c <= '9' {
        Some((c as u32 - 48) as u8)
    } else if 'a' <= c && c <= 'f' {
        Some((c as u32 - 87) as u8)
    } else if 'A' <= c && c <= 'F' {
        Some((c as u32 - 55) as u8)
    } else {
        None
    }
}

pub open spec fn all_hex(s: Seq<char>) -> bool {
    forall|i: int| 0 <= i < s.len() ==> (#[trigger] hex_value(s[i])).is_some()
}

/// The byte that the digits at `2 * j` and `2 * j + 1` stand for.
pub open spec fn hex_pair(s: Seq<char>, j: int) -> u8 {
    (hex_value(s[2 * j]).unwrap() * 16 + hex_value(s[2 * j + 1]).unwrap()) as u8
}

/// The bytes that a hex text stands for, or `None` when the text has an odd
/// length or a character that is not a hex digit.
pub open spec fn hex_decoded(s: Seq<char>) -> Option<Seq<u8>> {
    if s.len() % 2 == 0 && all_hex(s) {
        Some(Seq::new((s.len() / 2) as nat, |j: int| hex_pair(s, j)))
    } else {
        None
    }
}

fn digit(v: u8) -> (r: u8)
    requires
        v < 16,
    ensures
        r == hex_digit(v),
{
    if v < 10 {
        48 + v
    } else {
        87 + v
    }
}

/// Appends the lowercase hex text of `b` to `out`.
pub fn push_hex(out: &mut Vec<u8>, b: &[u8])
    ensures
        final(out)@ == old(out)@ + hex_of(b@),
{
    let ghost start = out@;
    let mut i: usize = 0;
    while i < b.len()
        invariant
            i <= b@.len(),
            out@ == start + hex_of(b@.take(i as int)),
        decreases b@.len() - i,
    {
        let x = b[i];
        out.push(digit(x / 16));
        out.push(digit(x % 16));
        proof {
            assert(b@.take(i + 1).drop_last() =~= b@.take(i as int));
        }
        i = i + 1;
    }
    assert(b@.take(b@.len() as int) =~= b@);
}

/// Lowercase hex text of `b`.
pub fn to_hex(b: &[u8]) -> (r: Vec<u8>)
    ensures
        r@ == hex_of(b@),
{
    let mut out: Vec<u8> = Vec::new();
    push_hex(&mut out, b);
    assert(out@ =~= Seq::<u8>::empty() + hex_of(b@));
    out
}

fn nibble(c: char) -> (r: Option<u8>)
    ensures
        r == hex_value(c),
{
    if '0' <= c && c <= '9' {
        Some((c as u32 - 48) as u8)
    } else if 'a' <= c && c <= 'f' {
        Some((c as u32 - 87) as u8)
    } else if 'A' <= c && c <= 'F' {
        Some((c as u32 - 55) as u8)
    } else {
        None
    }
}

/// Reads a hex text, in either case, into the bytes that it stands for.
pub fn from_hex(s: &str) -> (r: Option<Vec<u8>>)
    ensures
        match r {
            Some(v) => hex_decoded(s@) == Some(v@),
            None => hex_decoded(s@).is_none(),
        },
{
    let n = s.unicode_len();
    if n % 2 != 0 {
        return None;
    }
    let mut out: Vec<u8> = Vec::new();
    let mut i: usize = 0;
    while i < n
        invariant
            n == s@.len(),
            n % 2 == 0,
            i % 2 == 0,
            i <= n,
            forall|k: int| 0 <= k < i ==> (#[trigger] hex_value(s@[k])).is_some(),
            out@ =~= Seq::new((i / 2) as nat, |j: int| hex_pair(s@, j)),
        decreases n - i,
    {
        let hi = nibble(s.get_char(i));
        let lo = nibble(s.get_char(i + 1));
        match (hi, lo) {
            (Some(h), Some(l)) => {
                out.push(h * 16 + l);
                i = i + 2;
            },
            _ => {
                assert(!all_hex(s@)) by {
                    if hi.is_none() {
                        assert(hex_value(s@[i as int]).is_none());
                    } else {
                        assert(hex_value(s@[i + 1]).is_none());
                    }
                }
                return None;
            },
        }
    }
    assert(all_hex(s@));
    Some(out)
}

/// The lowercase hex text of `b` as characters.
pub open spec fn hex_text(b: Seq<u8>) -> Seq<char> {
    hex_of(b).map_values(|x: u8| x as char)
}

proof fn lemma_hex_digits(b: Seq<u8>)
    ensures
        hex_of(b).len() == 2 * b.len(),
        forall|j: int| 0 <= j < b.len() ==> {
            &&& #[trigger] hex_of(b)[2 * j] == hex_digit(b[j] / 16)
            &&& hex_of(b)[2 * j + 1] == hex_digit(b[j] % 16)
        },
    decreases b.len(),
{
    if b.len() > 0 {
        let p = b.drop_last();
        lemma_hex_digits(p);
        assert forall|j: int| 0 <= j < b.len() implies {
            &&& #[trigger] hex_of(b)[2 * j] == hex_digit(b[j] / 16)
            &&& hex_of(b)[2 * j + 1] == hex_digit(b[j] % 16)
        } by {
            if j < p.len() {
                assert(hex_of(p)[2 * j] == hex_digit(p[j] / 16));
            }
        }
    }
}

proof fn lemma_digit_value(v: u8)
    requires
        v < 16,
    ensures
        hex_value(hex_digit(v) as char) == Some(v),
{
}

/// Hex text read back gives the bytes that were written.
pub proof fn lemma_hex_round_trip(b: Seq<u8>)
    ensures
        hex_decoded(hex_text(b)) == Some(b),
{
    lemma_hex_digits(b);
    let t = hex_text(b);
    assert forall|i: int| 0 <= i < t.len() implies (#[trigger] hex_value(t[i])).is_some() by {
        let j = i / 2;
        assert(0 <= j < b.len());
        assert(t[i] == hex_of(b)[i] as char);
        assert(hex_of(b)[2 * j] == hex_digit(b[j] / 16));
        if i % 2 == 0 {
            assert(i == 2 * j);
            lemma_digit_value(b[j] / 16);
        } else {
            assert(i == 2 * j + 1);
            lemma_digit_value(b[j] % 16);
        }
    }
    let d = Seq::new((t.len() / 2) as nat, |j: int| hex_pair(t, j));
    assert forall|j: int| 0 <= j < b.len() implies d[j] == b[j] by {
        lemma_digit_value(b[j] / 16);
        lemma_digit_value(b[j] % 16);
        assert(hex_of(b)[2 * j] == hex_digit(b[j] / 16));
        assert(t[2 * j] == hex_digit(b[j] / 16) as char);
        assert(t[2 * j + 1] == hex_digit(b[j] % 16) as char);
    }
    assert(d =~= b);
}

} // verus!
