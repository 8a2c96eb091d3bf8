//! The filter builder: it turns query parameters (event id, author
//! identity, result limit) into a protocol filter object. Recent
//! listings are always scoped to the caller's own identity, so that
//! a listing never turns into an accidental broad relay scan.

use vstd::prelude::*;
use crate::errors::ValidationError;

verus! {

/// The raw event id that a human-readable encoded id denotes, or
/// nothing for text that does not decode.
pub uninterp spec fn note_id_decode(s: Seq<char>) -> Option<Seq<u8>>;

/// Relies on nostr_sdk's EventId::from_bech32: whether id text
/// decodes, and the 32 raw bytes it denotes, depend on the text
/// alone.
#[verifier::external_body]
fn decode_id_text(s: &str) -> (r: Option<Vec<u8>>)
    ensures
        r is Some <==> note_id_decode(s@) is Some,
        r matches Some(v) ==> Some(v@) == note_id_decode(s@) && v@.len() == 32,
{
    match <nostr_sdk::prelude::EventId as nostr_sdk::prelude::FromBech32>::from_bech32(s) {
        Ok(id) => Some(id.as_bytes().to_vec()),
        Err(_) => None,
    }
}

/// A validated event id: the human-readable text the user supplied
/// together with the raw bytes it decodes to.
#[derive(Debug)]
pub struct NoteId {
    pub text: String,
    pub bytes: Vec<u8>,
}

impl NoteId {
    /// A `NoteId` holds text that really decodes, and the bytes it
    /// decodes to.
    pub open spec fn wf(&self) -> bool {
        note_id_decode(self.text@) == Some(self.bytes@) && self.bytes@.len() == 32
    }

    /// Decodes id text; text that does not decode yields
    /// `InvalidId`.
    pub fn decode(text: String) -> (r: Result<NoteId, ValidationError>)
        ensures
            r matches Ok(id) ==> id.wf() && id.text@ == text@ && note_id_decode(text@) is Some,
            r matches Err(e) ==> e == ValidationError::InvalidId && note_id_decode(text@) is None,
    {
        match decode_id_text(text.as_str()) {
            Some(bytes) => Ok(NoteId { text, bytes }),
            None => Err(ValidationError::InvalidId),
        }
    }
}

/// A server-side query predicate: an optional event-id constraint,
/// an optional author constraint (the author's public key in its
/// human-readable form), an optional result-count limit, and an
/// optional lower time bound in seconds since the Unix epoch.
#[derive(Debug)]
pub struct QueryFilter {
    pub id: Option<NoteId>,
    pub author: Option<String>,
    pub limit: Option<u64>,
    pub since: Option<u64>,
}

/// Builds the filter of a fetch-by-id query: it constrains the
/// event id and nothing else. Id text that does not decode yields
/// `InvalidId`, and no filter exists in that case.
pub fn build_fetch_by_id(id_text: String) -> (r: Result<QueryFilter, ValidationError>)
    ensures
        r matches Ok(f) ==> {
            &&& f.id matches Some(id) && id.wf() && id.text@ == id_text@
            &&& f.author is None
            &&& f.limit is None
            &&& f.since is None
            &&& note_id_decode(id_text@) is Some
        },
        r matches Err(e) ==> e == ValidationError::InvalidId && note_id_decode(id_text@) is None,
{
    match NoteId::decode(id_text) {
        Ok(id) => Ok(QueryFilter { id: Some(id), author: None, limit: None, since: None }),
        Err(e) => Err(e),
    }
}

/// Builds the filter of a recent-events listing: it constrains the
/// author to the caller's own identity and bounds the result count.
/// A limit of 0 is permitted and simply yields an empty result set.
pub fn build_recent(limit: u64, author: &String) -> (f: QueryFilter)
    ensures
        f.author matches Some(a) && a@ == author@,
        f.limit == Some(limit),
        f.id is None,
        f.since is None,
{
    QueryFilter { id: None, author: Some(author.clone()), limit: Some(limit), since: None }
}

} // verus!
