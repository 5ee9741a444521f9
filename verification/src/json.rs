//! The library's own model of a structured JSON document, and lookup of the
//! wire objects' known keys.

use vstd::prelude::*;

verus! {

/// A structured JSON document as this service transmits it. Every decoder of
/// the library works on this shape. Numbers on this service's wire are
/// integers (identifiers, counts, timestamps as text, 0/1 flags); a number
/// that does not fit a signed 64-bit integer is kept as `Unrepresentable`,
/// and every decoder that reads one rejects it.
#[derive(Debug, PartialEq, Eq)]
pub enum JsonValue {
    Null,
    Bool(bool),
    Int(i64),
    Str(String),
    Arr(Vec<JsonValue>),
    Obj(Vec<(String, JsonValue)>),
    Unrepresentable,
}

/// The closed set of object keys that the decoders read. Keys are classified
/// into this set once, so every later comparison is a plain enum equality.
#[derive(Debug, Clone, Copy, PartialEq, Eq, Structural)]
pub enum Field {
    Annotations,
    Content,
    CreatedAt,
    DomainName,
    Headers,
    HttpStatus,
    Id,
    IsArchived,
    IsPublic,
    IsStarred,
    Language,
    Mimetype,
    OriginUrl,
    PreviewPicture,
    PublishedAt,
    PublishedBy,
    ReadingTime,
    StarredAt,
    Tags,
    Title,
    Uid,
    UpdatedAt,
    Url,
    UserEmail,
    UserId,
    UserName,
    Limit,
    Page,
    Pages,
    Total,
    Embedded,
    Items,
}

/// Which known key, if any, the character sequence `s` spells.
pub open spec fn spec_classify(s: Seq<char>) -> Option<Field> {
    if s == "annotations"@ {
        Some(Field::Annotations)
    } else if s == "content"@ {
        Some(Field::Content)
    } else if s == "created_at"@ {
        Some(Field::CreatedAt)
    } else if s == "domain_name"@ {
        Some(Field::DomainName)
    } else if s == "headers"@ {
        Some(Field::Headers)
    } else if s == "http_status"@ {
        Some(Field::HttpStatus)
    } else if s == "id"@ {
        Some(Field::Id)
    } else if s == "is_archived"@ {
        Some(Field::IsArchived)
    } else if s == "is_public"@ {
        Some(Field::IsPublic)
    } else if s == "is_starred"@ {
        Some(Field::IsStarred)
    } else if s == "language"@ {
        Some(Field::Language)
    } else if s == "mimetype"@ {
        Some(Field::Mimetype)
    } else if s == "origin_url"@ {
        Some(Field::OriginUrl)
    } else if s == "preview_picture"@ {
        Some(Field::PreviewPicture)
    } else if s == "published_at"@ {
        Some(Field::PublishedAt)
    } else if s == "published_by"@ {
        Some(Field::PublishedBy)
    } else if s == "reading_time"@ {
        Some(Field::ReadingTime)
    } else if s == "starred_at"@ {
        Some(Field::StarredAt)
    } else if s == "tags"@ {
        Some(Field::Tags)
    } else if s == "title"@ {
        Some(Field::Title)
    } else if s == "uid"@ {
        Some(Field::Uid)
    } else if s == "updated_at"@ {
        Some(Field::UpdatedAt)
    } else if s == "url"@ {
        Some(Field::Url)
    } else if s == "user_email"@ {
        Some(Field::UserEmail)
    } else if s == "user_id"@ {
        Some(Field::UserId)
    } else if s == "user_name"@ {
        Some(Field::UserName)
    } else if s == "limit"@ {
        Some(Field::Limit)
    } else if s == "page"@ {
        Some(Field::Page)
    } else if s == "pages"@ {
        Some(Field::Pages)
    } else if s == "total"@ {
        Some(Field::Total)
    } else if s == "_embedded"@ {
        Some(Field::Embedded)
    } else if s == "items"@ {
        Some(Field::Items)
    } else {
        None
    }
}

/// Classifies one object key.
pub fn classify(k: &String) -> (r: Option<Field>)
    ensures
        r == spec_classify(k@),
{
    if *k == String::from_str("annotations") {
        Some(Field::Annotations)
    } else if *k == String::from_str("content") {
        Some(Field::Content)
    } else if *k == String::from_str("created_at") {
        Some(Field::CreatedAt)
    } else if *k == String::from_str("domain_name") {
        Some(Field::DomainName)
    } else if *k == String::from_str("headers") {
        Some(Field::Headers)
    } else if *k == String::from_str("http_status") {
        Some(Field::HttpStatus)
    } else if *k == String::from_str("id") {
        Some(Field::Id)
    } else if *k == String::from_str("is_archived") {
        Some(Field::IsArchived)
    } else if *k == String::from_str("is_public") {
        Some(Field::IsPublic)
    } else if *k == String::from_str("is_starred") {
        Some(Field::IsStarred)
    } else if *k == String::from_str("language") {
        Some(Field::Language)
    } else if *k == String::from_str("mimetype") {
        Some(Field::Mimetype)
    } else if *k == String::from_str("origin_url") {
        Some(Field::OriginUrl)
    } else if *k == String::from_str("preview_picture") {
        Some(Field::PreviewPicture)
    } else if *k == String::from_str("published_at") {
        Some(Field::PublishedAt)
    } else if *k == String::from_str("published_by") {
        Some(Field::PublishedBy)
    } else if *k == String::from_str("reading_time") {
        Some(Field::ReadingTime)
    } else if *k == String::from_str("starred_at") {
        Some(Field::StarredAt)
    } else if *k == String::from_str("tags") {
        Some(Field::Tags)
    } else if *k == String::from_str("title") {
        Some(Field::Title)
    } else if *k == String::from_str("uid") {
        Some(Field::Uid)
    } else if *k == String::from_str("updated_at") {
        Some(Field::UpdatedAt)
    } else if *k == String::from_str("url") {
        Some(Field::Url)
    } else if *k == String::from_str("user_email") {
        Some(Field::UserEmail)
    } else if *k == String::from_str("user_id") {
        Some(Field::UserId)
    } else if *k == String::from_str("user_name") {
        Some(Field::UserName)
    } else if *k == String::from_str("limit") {
        Some(Field::Limit)
    } else if *k == String::from_str("page") {
        Some(Field::Page)
    } else if *k == String::from_str("pages") {
        Some(Field::Pages)
    } else if *k == String::from_str("total") {
        Some(Field::Total)
    } else if *k == String::from_str("_embedded") {
        Some(Field::Embedded)
    } else if *k == String::from_str("items") {
        Some(Field::Items)
    } else {
        None
    }
}

/// The value of the first pair of `s` whose key spells the known key `f`,
/// if any: the wire object's reading of that key.
pub open spec fn spec_field_lookup(s: Seq<(String, JsonValue)>, f: Field) -> Option<JsonValue>
    decreases s.len(),
{
    if s.len() == 0 {
        None
    } else if spec_classify(s[0].0@) == Some(f) {
        Some(s[0].1)
    } else {
        spec_field_lookup(s.drop_first(), f)
    }
}

proof fn lemma_lookup_at_first_match(s: Seq<(String, JsonValue)>, i: int, f: Field)
    requires
        0 <= i < s.len(),
        forall|k: int| 0 <= k < i ==> spec_classify(s[k].0@) != Some(f),
        spec_classify(s[i].0@) == Some(f),
    ensures
        spec_field_lookup(s, f) == Some(s[i].1),
    decreases i,
{
    if i > 0 {
        lemma_lookup_at_first_match(s.drop_first(), i - 1, f);
    }
}

proof fn lemma_lookup_none(s: Seq<(String, JsonValue)>, f: Field)
    requires
        forall|k: int| 0 <= k < s.len() ==> spec_classify(s[k].0@) != Some(f),
    ensures
        spec_field_lookup(s, f) is None,
    decreases s.len(),
{
    if s.len() > 0 {
        lemma_lookup_none(s.drop_first(), f);
    }
}

proof fn lemma_lookup_remove_other(s: Seq<(String, JsonValue)>, i: int, f: Field, g: Field)
    requires
        0 <= i < s.len(),
        spec_classify(s[i].0@) == Some(f),
        g != f,
    ensures
        spec_field_lookup(s.remove(i), g) == spec_field_lookup(s, g),
    decreases i,
{
    if i == 0 {
        assert(s.remove(0) =~= s.drop_first());
    } else {
        lemma_lookup_remove_other(s.drop_first(), i - 1, f, g);
        assert(s.remove(i).drop_first() =~= s.drop_first().remove(i - 1));
        assert(s.remove(i)[0] == s[0]);
    }
}

/// Removes the first pair of `fields` whose key spells `f` and hands its
/// value out; the reading of every other known key is untouched.
pub fn find_remove(fields: &mut Vec<(String, JsonValue)>, f: Field) -> (r: Option<JsonValue>)
    ensures
        r == spec_field_lookup(old(fields)@, f),
        forall|g: Field|
            g != f ==> spec_field_lookup(final(fields)@, g) == spec_field_lookup(old(fields)@, g),
{
    let mut i: usize = 0;
    while i < fields.len()
        invariant
            i <= fields.len(),
            *fields == *old(fields),
            forall|k: int| 0 <= k < i ==> spec_classify(fields@[k].0@) != Some(f),
        decreases fields.len() - i,
    {
        let here = match classify(&fields[i].0) {
            Some(g) => g == f,
            None => false,
        };
        if here {
            let pair = fields.remove(i);
            proof {
                lemma_lookup_at_first_match(old(fields)@, i as int, f);
                assert forall|g: Field| g != f implies spec_field_lookup(
                    fields@,
                    g,
                ) == spec_field_lookup(old(fields)@, g) by {
                    lemma_lookup_remove_other(old(fields)@, i as int, f, g);
                }
            }
            return Some(pair.1);
        }
        i = i + 1;
    }
    proof {
        lemma_lookup_none(fields@, f);
    }
    None
}

} // verus!
