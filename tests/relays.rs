use nos::error::NosError;
use nos::event::{Event, UnsignedEvent};
use nos::filter::Filter;
use nos::keys::Keypair;
use nos::merge::{merge_arrivals, SeenIds, Subscription};
use nos::pool::{LinkEvent, Relay, RelayPool, RelayStatus};
use nos::publish::{Ack, PublishRound};

fn note(text: &str, at: u64) -> Event {
    let kp = Keypair::from_secret_bytes(&[1u8; 32]).unwrap();
    UnsignedEvent::text_note(text.to_string(), at).sign(&kp)
}

#[test]
fn slow_relay_does_not_block_others() {
    let mut round = PublishRound::new(3);
    round.record(0, Ack::Accepted);
    round.record(2, Ack::Accepted);
    assert!(!round.is_settled());
    round.expire();
    assert!(round.is_settled());
    assert_eq!(round.ack(1), Ack::TimedOut);
    assert_eq!(round.accepted(), vec![0, 2]);
    assert_eq!(round.outcome(), Ok(()));
    round.record(1, Ack::Accepted);
    assert_eq!(round.ack(1), Ack::TimedOut);
}

#[test]
fn publish_outcomes() {
    let mut r = PublishRound::new(2);
    r.record(0, Ack::Rejected);
    r.record(1, Ack::TimedOut);
    assert_eq!(r.outcome(), Err(NosError::RejectedByRelays));
    let mut r = PublishRound::new(2);
    r.record(0, Ack::Unreachable);
    r.expire();
    assert_eq!(r.outcome(), Err(NosError::RelayTimeout));
    let mut r = PublishRound::new(2);
    r.record(0, Ack::Unreachable);
    r.record(1, Ack::Unreachable);
    assert_eq!(r.outcome(), Err(NosError::UnreachableRelay));
    assert_eq!(PublishRound::new(0).outcome(), Err(NosError::UnreachableRelay));
    let mut r = PublishRound::new(3);
    r.record(1, Ack::Accepted);
    r.record(0, Ack::Rejected);
    r.record(2, Ack::Unreachable);
    assert_eq!(r.outcome(), Ok(()));
    assert_eq!(r.accepted(), vec![1]);
}

#[test]
fn same_event_from_two_relays_once() {
    let a = note("hello", 1700000000);
    let b = note("other", 1700000001);
    let arrivals = vec![a.copy(), b.copy(), a.copy(), b.copy()];
    let merged = merge_arrivals(&arrivals);
    assert_eq!(merged.len(), 2);
    assert_eq!(merged[0].id, a.id);
    assert_eq!(merged[1].id, b.id);
    assert!(merge_arrivals(&vec![]).is_empty());
}

#[test]
fn seen_ids_note_each_once() {
    let mut seen = SeenIds::new();
    assert!(seen.insert(&[1, 2, 3]));
    assert!(!seen.insert(&[1, 2, 3]));
    assert!(seen.insert(&[1, 2]));
    assert!(seen.contains(&[1, 2]));
    assert!(!seen.contains(&[9]));
}

#[test]
fn add_relay_is_idempotent() {
    let mut pool = RelayPool::new(2);
    assert!(pool.add_relay("wss://a.example".to_string()));
    assert!(pool.add_relay("wss://b.example".to_string()));
    assert!(!pool.add_relay("wss://a.example".to_string()));
    assert_eq!(pool.len(), 2);
    assert_eq!(pool.position(&"wss://b.example".to_string()), Some(1));
    assert_eq!(pool.position(&"wss://c.example".to_string()), None);
}

#[test]
fn connection_fails_after_retries() {
    let mut pool = RelayPool::new(1);
    pool.add_relay("wss://a.example".to_string());
    pool.add_relay("wss://b.example".to_string());
    pool.apply(0, LinkEvent::Dial);
    assert_eq!(pool.status(0), RelayStatus::Connecting);
    pool.apply(0, LinkEvent::Refused);
    assert_eq!(pool.status(0), RelayStatus::Disconnected);
    pool.apply(0, LinkEvent::Dial);
    pool.apply(0, LinkEvent::Refused);
    assert_eq!(pool.status(0), RelayStatus::Failed);
    pool.apply(0, LinkEvent::Dial);
    assert_eq!(pool.status(0), RelayStatus::Failed);
    assert_eq!(pool.status(1), RelayStatus::Disconnected);
}

#[test]
fn connection_cycles_and_resets() {
    let mut r = Relay::new("wss://a.example".to_string());
    r.step(LinkEvent::Dial, 3);
    r.step(LinkEvent::Refused, 3);
    assert_eq!(r.failures, 1);
    r.step(LinkEvent::Dial, 3);
    r.step(LinkEvent::Opened, 3);
    assert_eq!(r.status, RelayStatus::Connected);
    assert_eq!(r.failures, 0);
    r.step(LinkEvent::Dropped, 3);
    assert_eq!(r.status, RelayStatus::Disconnected);
    r.step(LinkEvent::Opened, 3);
    assert_eq!(r.status, RelayStatus::Disconnected);
}

#[test]
fn filter_constraints() {
    let e = note("hello", 100);
    assert!(Filter::any().matches(&e));
    let f = Filter { ids: None, authors: Some(vec![e.pubkey.clone()]), kinds: Some(vec![1]), since: Some(100), until: Some(100) };
    assert!(f.matches(&e));
    let f = Filter { ids: None, authors: None, kinds: Some(vec![0, 3]), since: None, until: None };
    assert!(!f.matches(&e));
    let f = Filter { ids: Some(vec![vec![0u8; 32]]), authors: None, kinds: None, since: None, until: None };
    assert!(!f.matches(&e));
    let f = Filter { ids: Some(vec![e.id.clone()]), authors: None, kinds: None, since: Some(101), until: None };
    assert!(!f.matches(&e));
    let f = Filter { ids: None, authors: None, kinds: None, since: None, until: Some(99) };
    assert!(!f.matches(&e));
}

#[test]
fn subscription_delivers_each_valid_match_once() {
    let a = note("hello", 100);
    let mut sub = Subscription::new(Filter { ids: None, authors: None, kinds: Some(vec![1]), since: Some(50), until: None });
    assert!(sub.on_wire(&a.serialize()).is_some());
    assert!(sub.on_wire(&a.serialize()).is_none());
    assert!(sub.on_event(a.copy()).is_none());
    let old = note("old", 10);
    assert!(sub.on_event(old).is_none());
    let mut forged = note("forged", 200);
    forged.content = "changed".to_string();
    assert!(sub.on_event(forged).is_none());
    assert!(sub.on_wire(b"garbage").is_none());
    let b = note("second", 300);
    let got = sub.on_event(b.copy()).unwrap();
    assert_eq!(got.id, b.id);
}
