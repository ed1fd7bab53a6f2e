use vstd::prelude::*;
use crate::bytes::{copy_bytes, same_bytes};
use crate::event::{fields_valid, wire_fields_of, Event, EventFields};
use crate::filter::{filter_matches, Filter};

verus! {

/// The identifiers of a sequence of events.
pub open spec fn ids_of(s: Seq<EventFields>) -> Seq<Seq<u8>> {
    s.map_values(|f: EventFields| f.0)
}

/// The events of a stream in arrival order, each identifier kept only the
/// first time it arrives.
pub open spec fn first_arrivals(s: Seq<EventFields>) -> Seq<EventFields>
    decreases s.len(),
{
    if s.len() == 0 {
        Seq::empty()
    } else {
        let d = first_arrivals(s.drop_last());
        if ids_of(d).contains(s.last().0) {
            d
        } else {
            d.push(s.last())
        }
    }
}

/// The identifiers already delivered to a subscriber.
pub struct SeenIds {
    ids: Vec<Vec<u8>>,
}

impl View for SeenIds {
    type V = Seq<Seq<u8>>;

    closed spec fn view(&self) -> Seq<Seq<u8>> {
        self.ids@.map_values(|v: Vec<u8>| v@)
    }
}

impl SeenIds {
    pub fn new() -> (r: SeenIds)
        ensures
            r@.len() == 0,
    {
        SeenIds { ids: Vec::new() }
    }

    /// Whether `id` was seen.
    pub fn contains(&self, id: &[u8]) -> (r: bool)
        ensures
            r == self@.contains(id@),
    {
        let mut i: usize = 0;
        while i < self.ids.len()
            invariant
                i <= self.ids@.len(),
                forall|k: int| 0 <= k < i ==> self@[k] != id@,
            decreases self.ids@.len() - i,
        {
            if same_bytes(self.ids[i].as_slice(), id) {
                assert(self@[i as int] == id@);
                return true;
            }
            i = i + 1;
        }
        false
    }

    /// Notes `id` and says whether it is new; a known one changes nothing.
    pub fn insert(&mut self, id: &[u8]) -> (r: bool)
        ensures
            r == !old(self)@.contains(id@),
            final(self)@ == if r {
                old(self)@.push(id@)
            } else {
                old(self)@
            },
    {
        if self.contains(id) {
            false
        } else {
            let ghost before = self.ids@;
            self.ids.push(copy_bytes(id));
            assert(self@ =~= before.map_values(|v: Vec<u8>| v@).push(id@));
            true
        }
    }
}

/// Merges the events that the relays forwarded, in arrival order, into one
/// stream in which each identifier comes once, at its first arrival.
pub fn merge_arrivals(arrivals: &Vec<Event>) -> (r: Vec<Event>)
    ensures
        r@.map_values(|e: Event| e@) == first_arrivals(arrivals@.map_values(|e: Event| e@)),
{
    let ghost input = arrivals@.map_values(|e: Event| e@);
    let mut seen = SeenIds::new();
    let mut out: Vec<Event> = Vec::new();
    let mut i: usize = 0;
    while i < arrivals.len()
        invariant
            i <= arrivals@.len(),
            input == arrivals@.map_values(|e: Event| e@),
            out@.map_values(|e: Event| e@) == first_arrivals(input.take(i as int)),
            seen@ == ids_of(first_arrivals(input.take(i as int))),
        decreases arrivals@.len() - i,
    {
        let e = &arrivals[i];
        let ghost prev = first_arrivals(input.take(i as int));
        assert(input.take(i + 1).drop_last() =~= input.take(i as int));
        assert(input.take(i + 1).last() == e@);
        if seen.insert(e.id.as_slice()) {
            let ghost before = out@;
            out.push(e.copy());
            assert(out@.map_values(|e: Event| e@) =~= before.map_values(|e: Event| e@).push(e@));
            assert(ids_of(prev.push(e@)) =~= ids_of(prev).push(e@.0));
        }
        i = i + 1;
    }
    assert(input.take(arrivals@.len() as int) =~= input);
    out
}

/// One subscription: the filter it asked with and the identifiers that it
/// has delivered.
pub struct Subscription {
    filter: Filter,
    seen: SeenIds,
}

impl Subscription {
    /// A subscription that has delivered nothing yet.
    pub fn new(filter: Filter) -> (r: Subscription)
        ensures
            r.query() == filter,
            r.seen().len() == 0,
    {
        Subscription { filter, seen: SeenIds::new() }
    }

    /// The filter this subscription asked with.
    pub closed spec fn query(&self) -> Filter {
        self.filter
    }

    /// The identifiers delivered so far, in order.
    pub closed spec fn seen(&self) -> Seq<Seq<u8>> {
        self.seen@
    }

    /// Handles an event that a relay forwarded: it is delivered when its
    /// identifier and signature check, it meets the filter, and no relay
    /// delivered its identifier before.
    pub fn on_event(&mut self, e: Event) -> (r: Option<Event>)
        ensures
            final(self).query() == old(self).query(),
            r.is_some() == (fields_valid(e@) && filter_matches(old(self).query(), e@)
                && !old(self).seen().contains(e@.0)),
            r matches Some(x) ==> x@ == e@,
            final(self).seen() == if r.is_some() {
                old(self).seen().push(e@.0)
            } else {
                old(self).seen()
            },
    {
        if !e.verify() || !self.filter.matches(&e) {
            return None;
        }
        if self.seen.insert(e.id.as_slice()) {
            Some(e)
        } else {
            None
        }
    }

    /// Handles an event in wire form; bytes that do not hold a valid event
    /// deliver nothing and change nothing.
    pub fn on_wire(&mut self, bytes: &[u8]) -> (r: Option<Event>)
        ensures
            final(self).query() == old(self).query(),
            r.is_some() == (wire_fields_of(bytes@) matches Some(f) && fields_valid(f) && filter_matches(
                old(self).query(),
                f,
            ) && !old(self).seen().contains(f.0)),
            r matches Some(x) ==> wire_fields_of(bytes@) == Some(x@) && final(self).seen() == old(
                self,
            ).seen().push(x@.0),
            r.is_none() ==> final(self).seen() == old(self).seen(),
    {
        match Event::deserialize(bytes) {
            Ok(e) => self.on_event(e),
            Err(_) => None,
        }
    }
}

/// A merged stream holds each identifier once, holds every identifier that
/// arrived, and holds only events that arrived.
pub proof fn lemma_first_arrivals(s: Seq<EventFields>)
    ensures
        forall|i: int, j: int|
            0 <= i < j < first_arrivals(s).len() ==> first_arrivals(s)[i].0 != first_arrivals(s)[j].0,
        forall|i: int| 0 <= i < s.len() ==> ids_of(first_arrivals(s)).contains(#[trigger] s[i].0),
        forall|j: int| 0 <= j < first_arrivals(s).len() ==> s.contains(#[trigger] first_arrivals(s)[j]),
    decreases s.len(),
{
    if s.len() > 0 {
        let p = s.drop_last();
        lemma_first_arrivals(p);
        let d = first_arrivals(p);
        let x = s.last();
        assert forall|i: int| 0 <= i < s.len() implies ids_of(first_arrivals(s)).contains(
            #[trigger] s[i].0,
        ) by {
            if i < p.len() {
                assert(p[i] == s[i]);
                let k = choose|k: int| 0 <= k < ids_of(d).len() && ids_of(d)[k] == p[i].0;
                if !ids_of(d).contains(x.0) {
                    assert(ids_of(d.push(x))[k] == p[i].0);
                }
            } else {
                if !ids_of(d).contains(x.0) {
                    assert(ids_of(d.push(x))[d.len() as int] == x.0);
                }
            }
        }
        assert forall|j: int| 0 <= j < first_arrivals(s).len() implies s.contains(
            #[trigger] first_arrivals(s)[j],
        ) by {
            if j < d.len() {
                let k = choose|k: int| 0 <= k < p.len() && p[k] == d[j];
                assert(s[k] == d[j]);
            } else {
                assert(s[s.len() - 1] == x);
            }
        }
        if !ids_of(d).contains(x.0) {
            assert forall|i: int, j: int|
                0 <= i < j < first_arrivals(s).len() implies first_arrivals(s)[i].0 != first_arrivals(
                s,
            )[j].0 by {
                if j == d.len() {
                    assert(ids_of(d)[i] == d[i].0);
                }
            }
        }
    }
}

} // verus!
