use vstd::prelude::*;

use crate::time::Timestamp;

verus! {

/// Seconds in the sliding lifetime of a paste: two days.
pub const PASTE_TTL_SECS: u64 = 172800;

/// A stored paste.
#[derive(Clone, Debug, PartialEq, Eq)]
pub struct Paste {
    pub id: String,
    pub content: String,
    pub created_at: Timestamp,
    pub last_accessed: Timestamp,
}

/// A paste with its text fields as character sequences.
pub struct PasteView {
    pub id: Seq<char>,
    pub content: Seq<char>,
    pub created_at: Timestamp,
    pub last_accessed: Timestamp,
}

impl View for Paste {
    type V = PasteView;

    open spec fn view(&self) -> PasteView {
        PasteView {
            id: self.id@,
            content: self.content@,
            created_at: self.created_at,
            last_accessed: self.last_accessed,
        }
    }
}

/// The view of an optional paste.
pub open spec fn opt_paste_view(p: Option<Paste>) -> Option<PasteView> {
    match p {
        Some(p) => Some(p@),
        None => None,
    }
}

impl PasteView {
    /// A paste just created at `now`: both of its timestamps are `now`.
    pub open spec fn fresh(id: Seq<char>, content: Seq<char>, now: Timestamp) -> PasteView {
        PasteView { id, content, created_at: now, last_accessed: now }
    }

    /// The same paste, read at `now`.
    pub open spec fn touched(self, now: Timestamp) -> PasteView {
        PasteView {
            id: self.id,
            content: self.content,
            created_at: self.created_at,
            last_accessed: now,
        }
    }
}

impl Paste {
    pub open spec fn wf(&self) -> bool {
        self.created_at.wf() && self.last_accessed.wf()
    }

    /// A paste created at `now`.
    pub fn new(id: String, content: String, now: Timestamp) -> (r: Paste)
        ensures
            r@ == PasteView::fresh(id@, content@, now),
    {
        Paste { id, content, created_at: now, last_accessed: now }
    }

    /// The same paste with its last access moved to `now`.
    pub fn touch(self, now: Timestamp) -> (r: Paste)
        ensures
            r@ == self@.touched(now),
    {
        Paste { last_accessed: now, ..self }
    }
}

/// The body of a request to create a paste.
#[derive(Clone, Debug, PartialEq, Eq)]
pub struct CreatePasteRequest {
    pub content: String,
}

/// The path under which a paste is shown: `/p/` and its identifier.
pub open spec fn paste_url(id: Seq<char>) -> Seq<char> {
    seq!['/', 'p', '/'] + id
}

/// The answer to a created paste: its identifier and the path that shows it.
#[derive(Clone, Debug, PartialEq, Eq)]
pub struct CreatePasteResponse {
    pub id: String,
    pub url: String,
}

impl CreatePasteResponse {
    pub fn for_id(id: String) -> (r: CreatePasteResponse)
        ensures
            r.id@ == id@,
            r.url@ == paste_url(id@),
    {
        let mut url = String::from_str("/p/");
        proof {
            reveal_strlit("/p/");
        }
        url.append(id.as_str());
        assert(url@ =~= paste_url(id@));
        CreatePasteResponse { id, url }
    }
}

/// What is shown of a paste without its content: its timestamps and the instant
/// at which it lapses unless read again.
#[derive(Clone, Debug, PartialEq, Eq)]
pub struct PasteInfo {
    pub id: String,
    pub created_at: Timestamp,
    pub last_accessed: Timestamp,
    pub expires_at: Timestamp,
}

impl PasteInfo {
    /// The info of `paste`, with `expires_at` one lifetime after its last access;
    /// `None` where that instant leaves the range of whole seconds.
    pub fn of(paste: &Paste) -> (r: Option<PasteInfo>)
        ensures
            paste.last_accessed.can_add_secs(PASTE_TTL_SECS) <==> r is Some,
            r matches Some(info) ==> {
                &&& info.id@ == paste.id@
                &&& info.created_at == paste.created_at
                &&& info.last_accessed == paste.last_accessed
                &&& info.expires_at == paste.last_accessed.spec_plus_secs(PASTE_TTL_SECS)
            },
    {
        match paste.last_accessed.checked_plus_secs(PASTE_TTL_SECS) {
            Some(expires_at) => Some(
                PasteInfo {
                    id: paste.id.clone(),
                    created_at: paste.created_at,
                    last_accessed: paste.last_accessed,
                    expires_at,
                },
            ),
            None => None,
        }
    }
}

} // verus!
