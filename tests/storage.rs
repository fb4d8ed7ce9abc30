use std::collections::HashMap;

use pastebin::models::{CreatePasteResponse, Paste, PasteInfo, PASTE_TTL_SECS};
use pastebin::storage::{plan_create, plan_create_at, plan_read, plan_read_at, WriteBatch};
use pastebin::time::Timestamp;

/// A key-value store in memory, with the expiry second of each key.
struct MemStore {
    entries: HashMap<String, (Paste, i64)>,
}

impl MemStore {
    fn new() -> Self {
        MemStore { entries: HashMap::new() }
    }

    fn apply(&mut self, batch: &WriteBatch, now: Timestamp) {
        self.entries.insert(
            batch.key.clone(),
            (batch.record.clone(), now.secs + batch.ttl_secs as i64),
        );
    }

    fn fetch(&self, key: &str, now: Timestamp) -> Option<Paste> {
        match self.entries.get(key) {
            Some((p, expires)) if now.secs < *expires => Some(p.clone()),
            _ => None,
        }
    }

    fn create(&mut self, id: &str, content: &str, now: Timestamp) -> String {
        let batch = plan_create_at(id.to_string(), content.to_string(), now);
        self.apply(&batch, now);
        batch.key
    }

    fn get(&mut self, key: &str, now: Timestamp) -> Option<Paste> {
        let fetched = self.fetch(key, now);
        match plan_read_at(key, fetched, now) {
            Some(batch) => {
                self.apply(&batch, now);
                Some(batch.record)
            }
            None => None,
        }
    }
}

fn at(secs: i64) -> Timestamp {
    Timestamp::new(secs, 0)
}

#[test]
fn create_at_sets_both_timestamps_and_lifetime() {
    let now = Timestamp::new(1_700_000_000, 123);
    let b = plan_create_at("abc".to_string(), "hello".to_string(), now);
    assert_eq!(b.key, "abc");
    assert_eq!(b.record.id, "abc");
    assert_eq!(b.record.content, "hello");
    assert_eq!(b.record.created_at, now);
    assert_eq!(b.record.last_accessed, now);
    assert_eq!(b.ttl_secs, 172800);
    assert_eq!(PASTE_TTL_SECS, 172800);
}

#[test]
fn create_accepts_empty_content() {
    let b = plan_create_at("e".to_string(), String::new(), at(5));
    assert_eq!(b.record.content, "");
}

#[test]
fn create_draws_hyphenated_unique_ids() {
    let a = plan_create("hello".to_string());
    let b = plan_create("hello".to_string());
    assert_eq!(a.key.len(), 36);
    assert_eq!(a.key, a.record.id);
    for (i, c) in a.key.chars().enumerate() {
        if i == 8 || i == 13 || i == 18 || i == 23 {
            assert_eq!(c, '-');
        } else {
            assert!(c.is_ascii_hexdigit() && !c.is_ascii_uppercase());
        }
    }
    assert_ne!(a.key, b.key);
    assert_eq!(a.record.content, "hello");
    assert_eq!(a.record.created_at, a.record.last_accessed);
    assert!(a.record.created_at.secs > 1_600_000_000);
    assert!(a.record.created_at.nanos < 1_000_000_000);
}

#[test]
fn read_at_of_missing_issues_nothing() {
    assert_eq!(plan_read_at("nope", None, at(10)), None);
}

#[test]
fn read_at_touches_and_writes_back_under_key() {
    let stored = Paste {
        id: "stored-id".to_string(),
        content: "text".to_string(),
        created_at: at(100),
        last_accessed: at(200),
    };
    let b = plan_read_at("lookup-key", Some(stored), Timestamp::new(300, 7)).unwrap();
    assert_eq!(b.key, "lookup-key");
    assert_eq!(b.record.id, "stored-id");
    assert_eq!(b.record.content, "text");
    assert_eq!(b.record.created_at, at(100));
    assert_eq!(b.record.last_accessed, Timestamp::new(300, 7));
    assert_eq!(b.ttl_secs, 172800);
}

#[test]
fn read_uses_the_clock() {
    let stored = Paste {
        id: "k".to_string(),
        content: "c".to_string(),
        created_at: at(1),
        last_accessed: at(1),
    };
    assert_eq!(plan_read("k", None), None);
    let b = plan_read("k", Some(stored)).unwrap();
    assert!(b.record.last_accessed.secs > 1_600_000_000);
    assert_eq!(b.record.created_at, at(1));
    assert_eq!(b.key, "k");
}

#[test]
fn response_url_embeds_id() {
    let r = CreatePasteResponse::for_id("X1".to_string());
    assert_eq!(r.id, "X1");
    assert_eq!(r.url, "/p/X1");
}

#[test]
fn info_expires_two_days_after_last_access() {
    let p = Paste {
        id: "i".to_string(),
        content: "c".to_string(),
        created_at: at(10),
        last_accessed: Timestamp::new(1_000, 5),
    };
    let info = PasteInfo::of(&p).unwrap();
    assert_eq!(info.id, "i");
    assert_eq!(info.created_at, at(10));
    assert_eq!(info.last_accessed, Timestamp::new(1_000, 5));
    assert_eq!(info.expires_at, Timestamp::new(173_800, 5));
}

#[test]
fn info_out_of_range_is_none() {
    let p = Paste {
        id: "i".to_string(),
        content: "c".to_string(),
        created_at: at(0),
        last_accessed: at(i64::MAX - 172_799),
    };
    assert!(PasteInfo::of(&p).is_none());
    let q = Paste { last_accessed: at(i64::MAX - 172_800), ..p };
    assert_eq!(PasteInfo::of(&q).unwrap().expires_at, at(i64::MAX));
}

#[test]
fn timestamp_order_and_addition() {
    assert!(at(5).is_not_after(&at(5)));
    assert!(Timestamp::new(5, 1).is_not_after(&at(6)));
    assert!(!Timestamp::new(5, 2).is_not_after(&Timestamp::new(5, 1)));
    assert_eq!(at(-10).checked_plus_secs(4), Some(at(-6)));
    assert_eq!(at(i64::MIN).checked_plus_secs(u64::MAX), Some(at(i64::MAX)));
    assert_eq!(at(0).checked_plus_secs(u64::MAX), None);
}

#[test]
fn round_trip_returns_created_content() {
    let mut s = MemStore::new();
    let id = s.create("p1", "some content\nwith lines", at(1_000));
    let got = s.get(&id, at(1_001)).unwrap();
    assert_eq!(got.content, "some content\nwith lines");
    assert_eq!(got.id, "p1");
}

#[test]
fn last_accessed_moves_with_reads() {
    let mut s = MemStore::new();
    let id = s.create("p", "x", at(50));
    let first = s.get(&id, at(60)).unwrap();
    assert_eq!(first.created_at, at(50));
    assert_eq!(first.last_accessed, at(60));
    let second = s.get(&id, at(70)).unwrap();
    assert!(first.last_accessed.is_not_after(&second.last_accessed));
    assert_eq!(second.created_at, at(50));
}

#[test]
fn read_just_before_expiry_extends_lifetime() {
    let mut s = MemStore::new();
    let id = s.create("p", "x", at(0));
    assert!(s.get(&id, at(172_799)).is_some());
    assert!(s.get(&id, at(172_799 + 172_799)).is_some());
    assert!(s.get(&id, at(172_799 + 172_799 + 172_800)).is_none());
}

#[test]
fn miss_on_unknown_and_expired() {
    let mut s = MemStore::new();
    assert!(s.get("never", at(0)).is_none());
    let id = s.create("p", "x", at(0));
    assert!(s.get(&id, at(172_800)).is_none());
    assert_eq!(s.entries.len(), 1);
}

#[test]
fn repeated_reads_keep_content() {
    let mut s = MemStore::new();
    let id = s.create("p", "same", at(0));
    for k in 1..20 {
        let got = s.get(&id, at(k * 100_000)).unwrap();
        assert_eq!(got.content, "same");
        assert_eq!(got.created_at, at(0));
    }
}

#[test]
fn hello_scenario() {
    let mut s = MemStore::new();
    let created = plan_create("hello".to_string());
    let t0 = created.record.created_at;
    s.apply(&created, t0);
    let x = created.key.clone();
    assert!(!x.is_empty());
    let t1 = Timestamp::new(t0.secs + 1, 0);
    let p1 = s.get(&x, t1).unwrap();
    assert_eq!(p1.id, x);
    assert_eq!(p1.content, "hello");
    assert_eq!(p1.created_at, t0);
    assert!(t0.is_not_after(&p1.last_accessed));
    assert!(s.get("nonexistent", t1).is_none());
    let t2 = Timestamp::new(t1.secs + 5, 0);
    let p2 = s.get(&x, t2).unwrap();
    assert!(p1.last_accessed.is_not_after(&p2.last_accessed));
    assert_eq!(p2.last_accessed, t2);
    assert_eq!(p2.content, "hello");
}
