use vstd::prelude::*;

verus! {

/// Where the connection to one relay stands.
#[derive(Debug, Clone, Copy, PartialEq, Eq, Structural)]
pub enum RelayStatus {
    Disconnected,
    Connecting,
    Connected,
    Failed,
}

/// What happens to the connection to one relay.
#[derive(Debug, Clone, Copy, PartialEq, Eq, Structural)]
pub enum LinkEvent {
    /// A connection attempt starts.
    Dial,
    /// The attempt succeeded.
    Opened,
    /// The attempt was refused or timed out.
    Refused,
    /// An open connection went down.
    Dropped,
}

/// The next status and failure count of a connection. A refused attempt
/// counts one failure; when `max_retries` failures have been counted, the
/// next refusal leaves the connection `Failed` for good. An opened
/// connection clears the count. Events that do not apply change nothing.
pub open spec fn next_link(status: RelayStatus, failures: u32, ev: LinkEvent, max_retries: u32) -> (
    RelayStatus,
    u32,
) {
    match (status, ev) {
        (RelayStatus::Disconnected, LinkEvent::Dial) => (RelayStatus::Connecting, failures),
        (RelayStatus::Connecting, LinkEvent::Opened) => (RelayStatus::Connected, 0),
        (RelayStatus::Connecting, LinkEvent::Refused) => if failures >= max_retries {
            (RelayStatus::Failed, failures)
        } else {
            (RelayStatus::Disconnected, (failures + 1) as u32)
        },
        (RelayStatus::Connected, LinkEvent::Dropped) => (RelayStatus::Disconnected, failures),
        _ => (status, failures),
    }
}

/// The connection to one relay.
pub struct Relay {
    pub url: String,
    pub status: RelayStatus,
    pub failures: u32,
}

impl Relay {
    pub open spec fn wf(&self, max_retries: u32) -> bool {
        self.failures <= max_retries
    }

    /// A relay not yet connected.
    pub fn new(url: String) -> (r: Relay)
        ensures
            r.url@ == url@,
            r.status == RelayStatus::Disconnected,
            r.failures == 0,
    {
        Relay { url, status: RelayStatus::Disconnected, failures: 0 }
    }

    /// Applies one event to the connection.
    pub fn step(&mut self, ev: LinkEvent, max_retries: u32)
        requires
            old(self).wf(max_retries),
        ensures
            (final(self).status, final(self).failures) == next_link(
                old(self).status,
                old(self).failures,
                ev,
                max_retries,
            ),
            final(self).url@ == old(self).url@,
            final(self).wf(max_retries),
    {
        match (self.status, ev) {
            (RelayStatus::Disconnected, LinkEvent::Dial) => {
                self.status = RelayStatus::Connecting;
            },
            (RelayStatus::Connecting, LinkEvent::Opened) => {
                self.status = RelayStatus::Connected;
                self.failures = 0;
            },
            (RelayStatus::Connecting, LinkEvent::Refused) => {
                if self.failures >= max_retries {
                    self.status = RelayStatus::Failed;
                } else {
                    self.status = RelayStatus::Disconnected;
                    self.failures = self.failures + 1;
                }
            },
            (RelayStatus::Connected, LinkEvent::Dropped) => {
                self.status = RelayStatus::Disconnected;
            },
            _ => {},
        }
    }
}

/// The relays of a client, each URL once.
pub struct RelayPool {
    relays: Vec<Relay>,
    max_retries: u32,
}

/// The URLs of a list of relays.
pub open spec fn urls_of(relays: Seq<Relay>) -> Seq<Seq<char>> {
    relays.map_values(|r: Relay| r.url@)
}

impl RelayPool {
    /// The relays in the order they were added.
    pub closed spec fn relays(&self) -> Seq<Relay> {
        self.relays@
    }

    pub closed spec fn max_retries(&self) -> u32 {
        self.max_retries
    }

    /// No URL twice, and no failure count above the bound.
    pub closed spec fn wf(&self) -> bool {
        &&& forall|i: int, j: int|
            0 <= i < j < self.relays@.len() ==> urls_of(self.relays@)[i] != urls_of(self.relays@)[j]
        &&& forall|i: int| 0 <= i < self.relays@.len() ==> #[trigger] self.relays@[i].wf(self.max_retries)
    }

    /// An empty pool whose connections fail for good after `max_retries`
    /// refused attempts in a row.
    pub fn new(max_retries: u32) -> (r: RelayPool)
        ensures
            r.wf(),
            r.relays().len() == 0,
            r.max_retries() == max_retries,
    {
        RelayPool { relays: Vec::new(), max_retries }
    }

    pub fn len(&self) -> (r: usize)
        ensures
            r == self.relays().len(),
    {
        self.relays.len()
    }

    /// The position of the relay with this URL, if there is one.
    pub fn position(&self, url: &String) -> (r: Option<usize>)
        ensures
            match r {
                Some(i) => i < self.relays().len() && urls_of(self.relays())[i as int] == url@,
                None => !urls_of(self.relays()).contains(url@),
            },
    {
        let mut i: usize = 0;
        while i < self.relays.len()
            invariant
                i <= self.relays@.len(),
                forall|k: int| 0 <= k < i ==> urls_of(self.relays@)[k] != url@,
            decreases self.relays@.len() - i,
        {
            if self.relays[i].url == *url {
                return Some(i);
            }
            i = i + 1;
        }
        None
    }

    /// Registers a relay; a URL that is already there is left as it is.
    /// Says whether the relay was added.
    pub fn add_relay(&mut self, url: String) -> (r: bool)
        requires
            old(self).wf(),
        ensures
            final(self).wf(),
            final(self).max_retries() == old(self).max_retries(),
            r == !urls_of(old(self).relays()).contains(url@),
            r ==> urls_of(final(self).relays()) == urls_of(old(self).relays()).push(url@)
                && final(self).relays().last().status == RelayStatus::Disconnected
                && final(self).relays().drop_last() == old(self).relays(),
            !r ==> final(self).relays() == old(self).relays(),
    {
        match self.position(&url) {
            Some(_) => false,
            None => {
                let ghost before = self.relays@;
                self.relays.push(Relay::new(url));
                assert(self.relays@.drop_last() == before);
                assert(urls_of(self.relays@) =~= urls_of(before).push(url@));
                assert forall|i: int, j: int|
                    0 <= i < j < self.relays@.len() implies urls_of(self.relays@)[i] != urls_of(
                        self.relays@,
                    )[j] by {
                    if j == before.len() {
                        assert(urls_of(before)[i] == urls_of(self.relays@)[i]);
                    }
                }
                assert forall|i: int| 0 <= i < self.relays@.len() implies #[trigger] self.relays@[i].wf(self.max_retries) by {
                    if i < before.len() {
                        assert(self.relays@[i] == before[i]);
                    }
                }
                true
            },
        }
    }

    /// Applies one event to the connection of the relay at `index`; the other
    /// relays are left as they are.
    pub fn apply(&mut self, index: usize, ev: LinkEvent)
        requires
            old(self).wf(),
            index < old(self).relays().len(),
        ensures
            final(self).wf(),
            final(self).max_retries() == old(self).max_retries(),
            final(self).relays().len() == old(self).relays().len(),
            urls_of(final(self).relays()) == urls_of(old(self).relays()),
            (final(self).relays()[index as int].status, final(self).relays()[index as int].failures)
                == next_link(
                old(self).relays()[index as int].status,
                old(self).relays()[index as int].failures,
                ev,
                old(self).max_retries(),
            ),
            forall|i: int|
                0 <= i < old(self).relays().len() && i != index ==> final(self).relays()[i] == old(
                    self,
                ).relays()[i],
    {
        let ghost before = self.relays@;
        assert(before[index as int].wf(self.max_retries));
        let mut relay = self.relays.remove(index);
        relay.step(ev, self.max_retries);
        self.relays.insert(index, relay);
        assert(urls_of(self.relays@) =~= urls_of(before));
        assert forall|i: int| 0 <= i < self.relays@.len() implies #[trigger] self.relays@[i].wf(self.max_retries) by {
            if i != index {
                assert(self.relays@[i] == before[i]);
            }
        }
    }

    /// The status of the relay at `index`.
    pub fn status(&self, index: usize) -> (r: RelayStatus)
        requires
            index < self.relays().len(),
        ensures
            r == self.relays()[index as int].status,
    {
        self.relays[index].status
    }
}

} // verus!
