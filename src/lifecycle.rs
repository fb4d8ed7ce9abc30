use vstd::prelude::*;

use crate::models::{PasteView, PASTE_TTL_SECS};
use crate::storage::{create_batch, read_batch, WriteBatchView};
use crate::time::Timestamp;

verus! {

/// An entry of the key-value store: the record held under a key and the second
/// from which the store no longer holds it.
pub struct StoredEntry {
    pub record: PasteView,
    pub expires_at: int,
}

/// The key-value store: the entries set so far, by key. An entry stays in the
/// map after it expires; `lookup` no longer sees it.
pub type StoreView = Map<Seq<char>, StoredEntry>;

/// The store after it applied `batch` at `now`: the key holds the record, and
/// expires `ttl_secs` seconds after `now`.
pub open spec fn apply_write(store: StoreView, batch: WriteBatchView, now: Timestamp) -> StoreView {
    store.insert(batch.key, StoredEntry { record: batch.record, expires_at: now.secs + batch.ttl_secs })
}

/// What a `GET` of `key` at `at` returns: the record, while its entry has not
/// expired.
pub open spec fn lookup(store: StoreView, key: Seq<char>, at: Timestamp) -> Option<PasteView> {
    if store.contains_key(key) && at.secs < store[key].expires_at {
        Some(store[key].record)
    } else {
        None
    }
}

/// The store after a create of paste `id` with `content` at `now`.
pub open spec fn after_create(store: StoreView, id: Seq<char>, content: Seq<char>, now: Timestamp) -> StoreView {
    apply_write(store, create_batch(id, content, now), now)
}

/// A read of `key` at `now`: what it returns, and the store it leaves.
pub open spec fn read(store: StoreView, key: Seq<char>, now: Timestamp) -> (Option<PasteView>, StoreView) {
    match read_batch(key, lookup(store, key, now), now) {
        None => (None, store),
        Some(b) => (Some(b.record), apply_write(store, b, now)),
    }
}

/// What successive reads of `key` at the instants `times` return, in order.
pub open spec fn reads(store: StoreView, key: Seq<char>, times: Seq<Timestamp>) -> Seq<Option<PasteView>>
    decreases times.len(),
{
    if times.len() == 0 {
        Seq::empty()
    } else {
        let (r, next) = read(store, key, times[0]);
        seq![r] + reads(next, key, times.drop_first())
    }
}

/// Each instant of `times` comes before the lifetime that began at the previous
/// one has run out.
pub open spec fn within_lifetimes(times: Seq<Timestamp>) -> bool {
    forall|i: int| 0 <= i < times.len() - 1 ==> #[trigger] times[i + 1].secs < times[i].secs + PASTE_TTL_SECS
}

/// `r` found a paste with the identifier, content and creation of `p`.
pub open spec fn finds_same_paste(r: Option<PasteView>, p: PasteView) -> bool {
    r matches Some(q) && {
        &&& q.id == p.id
        &&& q.content == p.content
        &&& q.created_at == p.created_at
    }
}

/// A paste read before the lifetime of its create has run out holds the content
/// it was created with.
pub proof fn lemma_create_then_read(
    store: StoreView,
    id: Seq<char>,
    content: Seq<char>,
    created: Timestamp,
    now: Timestamp,
)
    requires
        now.secs < created.secs + PASTE_TTL_SECS,
    ensures
        read(after_create(store, id, content, created), id, now).0 matches Some(p) && {
            &&& p.id == id
            &&& p.content == content
            &&& p.created_at == created
            &&& p.last_accessed == now
        },
{
}

/// A read of a paste moves its last access to the read's instant, so the last
/// access never goes back while the clock does not; its creation stays.
pub proof fn lemma_read_last_accessed(store: StoreView, key: Seq<char>, now: Timestamp)
    requires
        lookup(store, key, now) matches Some(p) && p.last_accessed.spec_le(now),
    ensures
        read(store, key, now).0 matches Some(q) && {
            &&& q.last_accessed == now
            &&& lookup(store, key, now)->Some_0.last_accessed.spec_le(q.last_accessed)
            &&& q.created_at == lookup(store, key, now)->Some_0.created_at
        },
{
}

/// A create, and a read that finds its paste, give the key a full lifetime from
/// that instant: it can be read at any instant before that lifetime runs out.
pub proof fn lemma_lifetime_reset(
    store: StoreView,
    key: Seq<char>,
    content: Seq<char>,
    now: Timestamp,
    later: Timestamp,
)
    requires
        later.secs < now.secs + PASTE_TTL_SECS,
    ensures
        after_create(store, key, content, now)[key].expires_at == now.secs + PASTE_TTL_SECS,
        lookup(after_create(store, key, content, now), key, later) is Some,
        lookup(store, key, now) is Some ==> {
            &&& read(store, key, now).1[key].expires_at == now.secs + PASTE_TTL_SECS
            &&& lookup(read(store, key, now).1, key, later) is Some
        },
{
}

/// A read of a key that the store does not hold, never held, or holds only past
/// its expiry finds nothing and leaves the store as it was.
pub proof fn lemma_read_miss(store: StoreView, key: Seq<char>, now: Timestamp)
    requires
        !store.contains_key(key) || store[key].expires_at <= now.secs,
    ensures
        lookup(store, key, now) is None,
        read(store, key, now) == (None::<PasteView>, store),
{
}

/// Reads that follow each other within a lifetime, from a first one that finds
/// the paste, all find it with the same identifier, content and creation.
pub proof fn lemma_reads_keep_content(store: StoreView, key: Seq<char>, times: Seq<Timestamp>)
    requires
        times.len() > 0,
        lookup(store, key, times[0]) is Some,
        within_lifetimes(times),
    ensures
        reads(store, key, times).len() == times.len(),
        forall|i: int|
            0 <= i < times.len() ==> finds_same_paste(
                #[trigger] reads(store, key, times)[i],
                lookup(store, key, times[0])->Some_0,
            ),
    decreases times.len(),
{
    let p = lookup(store, key, times[0])->Some_0;
    let (r, next) = read(store, key, times[0]);
    let rest = times.drop_first();
    if rest.len() > 0 {
        assert(rest[0] == times[1]);
        assert(within_lifetimes(rest)) by {
            assert forall|i: int| 0 <= i < rest.len() - 1 implies #[trigger] rest[i + 1].secs < rest[i].secs
                + PASTE_TTL_SECS by {
                assert(times[(i + 1) + 1].secs < times[i + 1].secs + PASTE_TTL_SECS);
            }
        }
        assert(times[1].secs < times[0].secs + PASTE_TTL_SECS);
        lemma_reads_keep_content(next, key, rest);
    }
    let all = reads(store, key, times);
    assert(all == seq![r] + reads(next, key, rest));
    assert forall|i: int| 0 <= i < times.len() implies finds_same_paste(
        #[trigger] reads(store, key, times)[i],
        p,
    ) by {
        if i > 0 {
            assert(all[i] == reads(next, key, rest)[i - 1]);
        }
    }
}

} // verus!
