//! The canonical entity model: entries, the transient deleted-entry payload,
//! identifiers, and the decode errors.

use vstd::prelude::*;

use crate::json::{Field, JsonValue};

verus! {

/// An opaque unique handle that the server assigns to an entry. It is used
/// both as a field of `Entry` and as a request parameter.
#[derive(Debug, Clone, Copy, PartialEq, Eq, Structural, Hash)]
pub struct ID(pub u64);

/// A list of entries, as some endpoints return them.
pub type Entries = Vec<Entry>;

/// A saved article as the service models it. The three flags travel on the
/// wire as the integers 0/1 and are booleans here; the timestamps travel as
/// RFC 3339 text and are Unix seconds (UTC) here; tags and annotations are
/// opaque sub-documents passed through unchanged. Optional fields keep
/// absence distinct from emptiness.
#[derive(Debug, PartialEq, Eq)]
pub struct Entry {
    pub annotations: Option<JsonValue>,
    pub content: Option<String>,
    pub created_at: i64,
    pub domain_name: Option<String>,
    pub headers: Option<String>,
    pub http_status: Option<String>,
    pub id: ID,
    pub is_archived: bool,
    pub is_public: bool,
    pub is_starred: bool,
    pub language: Option<String>,
    pub mimetype: Option<String>,
    pub origin_url: Option<String>,
    pub preview_picture: Option<String>,
    pub published_at: Option<i64>,
    pub published_by: Option<String>,
    pub reading_time: u32,
    pub starred_at: Option<i64>,
    pub tags: JsonValue,
    pub title: Option<String>,
    pub uid: Option<String>,
    pub updated_at: i64,
    pub url: Option<String>,
    pub user_email: String,
    pub user_id: ID,
    pub user_name: String,
}

/// The payload of a delete response: an entry in every respect except that
/// the server omits the identifier (it was implicit in the request). It
/// lives only until reconciliation turns it back into an `Entry`.
#[derive(Debug, PartialEq, Eq)]
pub struct DeletedEntry {
    pub annotations: Option<JsonValue>,
    pub content: Option<String>,
    pub created_at: i64,
    pub domain_name: Option<String>,
    pub headers: Option<String>,
    pub http_status: Option<String>,
    pub is_archived: bool,
    pub is_public: bool,
    pub is_starred: bool,
    pub language: Option<String>,
    pub mimetype: Option<String>,
    pub origin_url: Option<String>,
    pub preview_picture: Option<String>,
    pub published_at: Option<i64>,
    pub published_by: Option<String>,
    pub reading_time: u32,
    pub starred_at: Option<i64>,
    pub tags: JsonValue,
    pub title: Option<String>,
    pub uid: Option<String>,
    pub updated_at: i64,
    pub url: Option<String>,
    pub user_email: String,
    pub user_id: ID,
    pub user_name: String,
}

/// Why a wire payload was rejected.
#[derive(Debug, PartialEq, Eq)]
pub enum DecodeError {
    /// The bytes are not one well-formed JSON document, or the document is
    /// not an object where an object is required.
    Malformed,
    /// A required key is absent, or a key holds a value of the wrong shape.
    MissingOrInvalidField(Field),
    /// A flag key holds something other than the integers 0 or 1; the raw
    /// value is carried along.
    InvalidBoolean(Field, JsonValue),
}

/// An `Entry` stands in for its identifier wherever only identity is needed.
impl core::convert::From<Entry> for ID {
    fn from(entry: Entry) -> (r: ID) {
        entry.id
    }
}

impl vstd::std_specs::convert::FromSpecImpl<Entry> for ID {
    open spec fn obeys_from_spec() -> bool {
        true
    }

    open spec fn from_spec(entry: Entry) -> ID {
        entry.id
    }
}

/// Coercing an entry yields exactly the identifier the entry carries,
/// whatever its other fields hold.
pub proof fn lemma_identity_coercion(entry: Entry)
    ensures
        <ID as vstd::std_specs::convert::FromSpec<Entry>>::obeys_from_spec(),
        <ID as vstd::std_specs::convert::FromSpec<Entry>>::from_spec(entry) == entry.id,
{
}

} // verus!
