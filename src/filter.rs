use vstd::prelude::*;
use crate::bytes::same_bytes;
use crate::event::{Event, EventFields};

verus! {

/// Which events a subscriber asks for. Each constraint that is present must
/// hold; an absent one lets every event through.
pub struct Filter {
    pub ids: Option<Vec<Vec<u8>>>,
    pub authors: Option<Vec<Vec<u8>>>,
    pub kinds: Option<Vec<u64>>,
    pub since: Option<u64>,
    pub until: Option<u64>,
}

pub open spec fn bytes_list(v: Seq<Vec<u8>>) -> Seq<Seq<u8>> {
    v.map_values(|b: Vec<u8>| b@)
}

/// Whether an event meets a filter.
pub open spec fn filter_matches(f: Filter, e: EventFields) -> bool {
    &&& (f.ids matches Some(ids) ==> bytes_list(ids@).contains(e.0))
    &&& (f.authors matches Some(a) ==> bytes_list(a@).contains(e.1))
    &&& (f.kinds matches Some(k) ==> k@.contains(e.3))
    &&& (f.since matches Some(t) ==> t <= e.2)
    &&& (f.until matches Some(t) ==> e.2 <= t)
}

fn list_contains(list: &Vec<Vec<u8>>, b: &[u8]) -> (r: bool)
    ensures
        r == bytes_list(list@).contains(b@),
{
    let mut i: usize = 0;
    while i < list.len()
        invariant
            i <= list@.len(),
            forall|k: int| 0 <= k < i ==> bytes_list(list@)[k] != b@,
        decreases list@.len() - i,
    {
        if same_bytes(list[i].as_slice(), b) {
            assert(bytes_list(list@)[i as int] == b@);
            return true;
        }
        i = i + 1;
    }
    false
}

fn kinds_contain(list: &Vec<u64>, k: u64) -> (r: bool)
    ensures
        r == list@.contains(k),
{
    let mut i: usize = 0;
    while i < list.len()
        invariant
            i <= list@.len(),
            forall|j: int| 0 <= j < i ==> list@[j] != k,
        decreases list@.len() - i,
    {
        if list[i] == k {
            assert(list@[i as int] == k);
            return true;
        }
        i = i + 1;
    }
    false
}

impl Filter {
    /// A filter that lets every event through.
    pub fn any() -> (r: Filter)
        ensures
            forall|e: EventFields| filter_matches(r, e),
    {
        Filter { ids: None, authors: None, kinds: None, since: None, until: None }
    }

    /// Whether `e` meets this filter.
    pub fn matches(&self, e: &Event) -> (r: bool)
        ensures
            r == filter_matches(*self, e@),
    {
        if let Some(ids) = &self.ids {
            if !list_contains(ids, e.id.as_slice()) {
                return false;
            }
        }
        if let Some(authors) = &self.authors {
            if !list_contains(authors, e.pubkey.as_slice()) {
                return false;
            }
        }
        if let Some(kinds) = &self.kinds {
            if !kinds_contain(kinds, e.kind) {
                return false;
            }
        }
        if let Some(t) = self.since {
            if e.created_at < t {
                return false;
            }
        }
        if let Some(t) = self.until {
            if e.created_at > t {
                return false;
            }
        }
        true
    }
}

} // verus!
