use vstd::prelude::*;
use crate::event::{wire, Event};
use crate::filter::{bytes_list, Filter};
use crate::json::{decimal, hex_string, joined, json_array, json_string, push_decimal, push_hex_string, push_json_string};

verus! {

/// The views of a list of byte vectors.
pub open spec fn views(v: Seq<Vec<u8>>) -> Seq<Seq<u8>> {
    v.map_values(|b: Vec<u8>| b@)
}

/// `"name":value`, a member of a JSON object.
pub open spec fn member(name: Seq<char>, value: Seq<u8>) -> Seq<u8> {
    json_string(name) + seq![58u8] + value
}

/// The members of a filter's JSON object, one for each constraint present,
/// in the order ids, authors, kinds, since, until.
pub open spec fn filter_members(f: Filter) -> Seq<Seq<u8>> {
    (if let Some(ids) = f.ids {
        seq![member("ids"@, json_array(bytes_list(ids@).map_values(|b: Seq<u8>| hex_string(b))))]
    } else {
        Seq::empty()
    }) + (if let Some(a) = f.authors {
        seq![member("authors"@, json_array(bytes_list(a@).map_values(|b: Seq<u8>| hex_string(b))))]
    } else {
        Seq::empty()
    }) + (if let Some(k) = f.kinds {
        seq![member("kinds"@, json_array(k@.map_values(|n: u64| decimal(n as nat))))]
    } else {
        Seq::empty()
    }) + (if let Some(t) = f.since {
        seq![member("since"@, decimal(t as nat))]
    } else {
        Seq::empty()
    }) + (if let Some(t) = f.until {
        seq![member("until"@, decimal(t as nat))]
    } else {
        Seq::empty()
    })
}

/// The JSON object of a filter.
pub open spec fn filter_json(f: Filter) -> Seq<u8> {
    seq![123u8] + joined(filter_members(f)) + seq![125u8]
}

/// `["EVENT",<event>]`: how a client hands an event to a relay.
pub open spec fn event_frame(e: Seq<u8>) -> Seq<u8> {
    seq![91u8] + json_string("EVENT"@) + seq![44u8] + e + seq![93u8]
}

/// `["REQ","<id>",<filter>]`: how a client subscribes.
pub open spec fn req_frame(id: Seq<char>, f: Filter) -> Seq<u8> {
    seq![91u8] + json_string("REQ"@) + seq![44u8] + json_string(id) + seq![44u8] + filter_json(f)
        + seq![93u8]
}

/// Appends the parts, already JSON, separated by commas.
fn push_joined(out: &mut Vec<u8>, parts: &Vec<Vec<u8>>)
    ensures
        final(out)@ == old(out)@ + joined(views(parts@)),
{
    let ghost start = out@;
    let mut i: usize = 0;
    while i < parts.len()
        invariant
            i <= parts@.len(),
            out@ == start + joined(views(parts@).take(i as int)),
        decreases parts@.len() - i,
    {
        if i > 0 {
            out.push(44);
        }
        let p = &parts[i];
        let mut j: usize = 0;
        let ghost mid = out@;
        while j < p.len()
            invariant
                j <= p@.len(),
                out@ == mid + p@.take(j as int),
            decreases p@.len() - j,
        {
            out.push(p[j]);
            assert(out@ =~= mid + p@.take(j + 1));
            j = j + 1;
        }
        proof {
            let t = views(parts@).take(i + 1);
            assert(p@.take(p@.len() as int) =~= p@);
            assert(t.drop_last() =~= views(parts@).take(i as int));
            assert(t.last() == p@);
            assert(out@ =~= start + joined(t));
        }
        i = i + 1;
    }
    assert(views(parts@).take(parts@.len() as int) =~= views(parts@));
}

fn hex_parts(list: &Vec<Vec<u8>>) -> (r: Vec<Vec<u8>>)
    ensures
        views(r@) == bytes_list(list@).map_values(|b: Seq<u8>| hex_string(b)),
{
    let mut out: Vec<Vec<u8>> = Vec::new();
    let mut i: usize = 0;
    while i < list.len()
        invariant
            i <= list@.len(),
            views(out@) =~= bytes_list(list@.take(i as int)).map_values(|b: Seq<u8>| hex_string(b)),
        decreases list@.len() - i,
    {
        let mut part: Vec<u8> = Vec::new();
        push_hex_string(&mut part, list[i].as_slice());
        assert(part@ =~= hex_string(list@[i as int]@));
        let ghost before = out@;
        out.push(part);
        proof {
            assert(out@ == before.push(part));
            assert(list@.take(i + 1) =~= list@.take(i as int).push(list@[i as int]));
            assert(views(out@) =~= views(before).push(part@));
            assert(bytes_list(list@.take(i + 1)) =~= bytes_list(list@.take(i as int)).push(list@[i as int]@));
        }
        i = i + 1;
    }
    assert(list@.take(list@.len() as int) =~= list@);
    out
}

fn decimal_parts(list: &Vec<u64>) -> (r: Vec<Vec<u8>>)
    ensures
        views(r@) == list@.map_values(|n: u64| decimal(n as nat)),
{
    let mut out: Vec<Vec<u8>> = Vec::new();
    let mut i: usize = 0;
    while i < list.len()
        invariant
            i <= list@.len(),
            views(out@) =~= list@.take(i as int).map_values(|n: u64| decimal(n as nat)),
        decreases list@.len() - i,
    {
        let mut part: Vec<u8> = Vec::new();
        push_decimal(&mut part, list[i]);
        assert(part@ =~= decimal(list@[i as int] as nat));
        let ghost before = out@;
        out.push(part);
        proof {
            assert(out@ == before.push(part));
            assert(list@.take(i + 1) =~= list@.take(i as int).push(list@[i as int]));
            assert(views(out@) =~= views(before).push(part@));
        }
        i = i + 1;
    }
    assert(list@.take(list@.len() as int) =~= list@);
    out
}

fn array_of(parts: &Vec<Vec<u8>>) -> (r: Vec<u8>)
    ensures
        r@ == json_array(views(parts@)),
{
    let mut out: Vec<u8> = Vec::new();
    out.push(91);
    push_joined(&mut out, parts);
    out.push(93);
    assert(out@ =~= json_array(views(parts@)));
    out
}

fn member_bytes(name: &str, value: &Vec<u8>) -> (r: Vec<u8>)
    ensures
        r@ == member(name@, value@),
{
    let mut out: Vec<u8> = Vec::new();
    push_json_string(&mut out, name);
    out.push(58);
    let mut j: usize = 0;
    let ghost mid = out@;
    while j < value.len()
        invariant
            j <= value@.len(),
            out@ == mid + value@.take(j as int),
        decreases value@.len() - j,
    {
        out.push(value[j]);
        assert(out@ =~= mid + value@.take(j + 1));
        j = j + 1;
    }
    assert(value@.take(value@.len() as int) =~= value@);
    assert(out@ =~= member(name@, value@));
    out
}

fn decimal_bytes(n: u64) -> (r: Vec<u8>)
    ensures
        r@ == decimal(n as nat),
{
    let mut out: Vec<u8> = Vec::new();
    push_decimal(&mut out, n);
    assert(out@ =~= decimal(n as nat));
    out
}

impl Filter {
    /// The JSON object of this filter, with a member for each constraint
    /// present.
    pub fn to_json(&self) -> (r: Vec<u8>)
        ensures
            r@ == filter_json(*self),
    {
        let mut members: Vec<Vec<u8>> = Vec::new();
        let ghost f = *self;
        if let Some(ids) = &self.ids {
            members.push(member_bytes("ids", &array_of(&hex_parts(ids))));
        }
        if let Some(authors) = &self.authors {
            members.push(member_bytes("authors", &array_of(&hex_parts(authors))));
        }
        if let Some(kinds) = &self.kinds {
            members.push(member_bytes("kinds", &array_of(&decimal_parts(kinds))));
        }
        if let Some(t) = self.since {
            members.push(member_bytes("since", &decimal_bytes(t)));
        }
        if let Some(t) = self.until {
            members.push(member_bytes("until", &decimal_bytes(t)));
        }
        assert(views(members@) =~= filter_members(f));
        let mut out: Vec<u8> = Vec::new();
        out.push(123);
        push_joined(&mut out, &members);
        out.push(125);
        assert(out@ =~= filter_json(f));
        out
    }
}

/// The frame that hands `e` to a relay.
pub fn event_message(e: &Event) -> (r: Vec<u8>)
    ensures
        r@ == event_frame(wire(e@)),
{
    let body = e.serialize();
    let mut out: Vec<u8> = Vec::new();
    out.push(91);
    push_json_string(&mut out, "EVENT");
    out.push(44);
    let mut j: usize = 0;
    let ghost mid = out@;
    while j < body.len()
        invariant
            j <= body@.len(),
            out@ == mid + body@.take(j as int),
        decreases body@.len() - j,
    {
        out.push(body[j]);
        assert(out@ =~= mid + body@.take(j + 1));
        j = j + 1;
    }
    out.push(93);
    assert(body@.take(body@.len() as int) =~= body@);
    assert(out@ =~= event_frame(wire(e@)));
    out
}

/// The frame that subscribes with `filter` under the subscription `id`.
pub fn req_message(id: &str, filter: &Filter) -> (r: Vec<u8>)
    ensures
        r@ == req_frame(id@, *filter),
{
    let body = filter.to_json();
    let mut out: Vec<u8> = Vec::new();
    out.push(91);
    push_json_string(&mut out, "REQ");
    out.push(44);
    push_json_string(&mut out, id);
    out.push(44);
    let mut j: usize = 0;
    let ghost mid = out@;
    while j < body.len()
        invariant
            j <= body@.len(),
            out@ == mid + body@.take(j as int),
        decreases body@.len() - j,
    {
        out.push(body[j]);
        assert(out@ =~= mid + body@.take(j + 1));
        j = j + 1;
    }
    out.push(93);
    assert(body@.take(body@.len() as int) =~= body@);
    assert(out@ =~= req_frame(id@, *filter));
    out
}

} // verus!
