use vstd::prelude::*;

use crate::models::{opt_paste_view, Paste, PasteView, PASTE_TTL_SECS};
use crate::time::{clock_now, Timestamp};

verus! {

/// Failures of a storage operation. A missing paste is no failure.
#[derive(Clone, Copy, Debug, PartialEq, Eq, Structural)]
pub enum StorageError {
    /// The key-value store could not be reached or refused a command.
    Connection,
    /// A stored record could not be decoded, or a record could not be encoded.
    Serialization,
}

/// One atomic batch for the key-value store: set `key` to the encoded `record`
/// and let it expire `ttl_secs` seconds later. Both commands apply together or
/// not at all.
#[derive(Clone, Debug, PartialEq, Eq)]
pub struct WriteBatch {
    pub key: String,
    pub record: Paste,
    pub ttl_secs: u64,
}

pub struct WriteBatchView {
    pub key: Seq<char>,
    pub record: PasteView,
    pub ttl_secs: nat,
}

impl View for WriteBatch {
    type V = WriteBatchView;

    open spec fn view(&self) -> WriteBatchView {
        WriteBatchView { key: self.key@, record: self.record@, ttl_secs: self.ttl_secs as nat }
    }
}

/// The view of an optional batch.
pub open spec fn opt_batch_view(b: Option<WriteBatch>) -> Option<WriteBatchView> {
    match b {
        Some(b) => Some(b@),
        None => None,
    }
}

/// The batch that stores a new paste `id` with `content`, created at `now`.
pub open spec fn create_batch(id: Seq<char>, content: Seq<char>, now: Timestamp) -> WriteBatchView {
    WriteBatchView {
        key: id,
        record: PasteView::fresh(id, content, now),
        ttl_secs: PASTE_TTL_SECS as nat,
    }
}

/// The batch that a read of `key` at `now` issues, given what the store held
/// there: none on a miss; on a hit the record read at `now`, written back under
/// `key` with a full lifetime.
pub open spec fn read_batch(key: Seq<char>, fetched: Option<PasteView>, now: Timestamp) -> Option<
    WriteBatchView,
> {
    match fetched {
        None => None,
        Some(p) => Some(
            WriteBatchView { key, record: p.touched(now), ttl_secs: PASTE_TTL_SECS as nat },
        ),
    }
}

/// Whether `s` is an identifier in the hyphenated form: 36 characters, `-` at
/// 8, 13, 18 and 23, a lowercase hexadecimal digit everywhere else.
pub open spec fn is_hyphenated_id(s: Seq<char>) -> bool {
    &&& s.len() == 36
    &&& forall|i: int|
        0 <= i < 36 ==> if i == 8 || i == 13 || i == 18 || i == 23 {
            #[trigger] s[i] == '-'
        } else {
            ('0' <= s[i] <= '9') || ('a' <= s[i] <= 'f')
        }
}

/// Relies on uuid::Uuid::new_v4 and its `Display`, which writes the random
/// 128-bit value in lowercase hyphenated form.
#[verifier::external_body]
fn fresh_id() -> (r: String)
    ensures
        is_hyphenated_id(r@),
{
    uuid::Uuid::new_v4().to_string()
}

/// The batch that stores a new paste with identifier `id` and `content`,
/// created at `now`.
pub fn plan_create_at(id: String, content: String, now: Timestamp) -> (r: WriteBatch)
    ensures
        r@ == create_batch(id@, content@, now),
{
    let key = id.clone();
    WriteBatch { key, record: Paste::new(id, content, now), ttl_secs: PASTE_TTL_SECS }
}

/// The batch that stores a new paste with `content` under a fresh random
/// identifier, created now. The paste to hand back is its `record`.
pub fn plan_create(content: String) -> (r: WriteBatch)
    ensures
        is_hyphenated_id(r.key@),
        r@ == create_batch(r.key@, content@, r.record.created_at),
        r.record.wf(),
{
    let id = fresh_id();
    let now = clock_now();
    plan_create_at(id, content, now)
}

/// The batch that a read of `key` at `now` issues, given the record that the
/// store held under it (`None` where it held none, or it had expired).
pub fn plan_read_at(key: &str, fetched: Option<Paste>, now: Timestamp) -> (r: Option<WriteBatch>)
    ensures
        opt_batch_view(r) == read_batch(key@, opt_paste_view(fetched), now),
{
    match fetched {
        None => None,
        Some(p) => Some(
            WriteBatch { key: key.to_owned(), record: p.touch(now), ttl_secs: PASTE_TTL_SECS },
        ),
    }
}

/// The batch that a read of `key` issues now, given the record that the store
/// held under it. On a hit the paste to hand back is its `record`.
pub fn plan_read(key: &str, fetched: Option<Paste>) -> (r: Option<WriteBatch>)
    ensures
        fetched is None ==> r is None,
        fetched matches Some(p) ==> r matches Some(b) && {
            &&& Some(b@) == read_batch(key@, Some(p@), b.record.last_accessed)
            &&& b.record.last_accessed.wf()
        },
{
    let now = clock_now();
    plan_read_at(key, fetched, now)
}

} // verus!
