//! Decoding wire objects into the entity model, and reconciling delete
//! responses: one raw JSON object becomes an `Entry` (or a `DecodeError`),
//! and a deleted-entry payload plus the identifier from the request becomes
//! a full `Entry` again.

use vstd::prelude::*;

use crate::json::{find_remove, spec_field_lookup, Field, JsonValue};
use crate::types::{DecodeError, DeletedEntry, Entry, ID};
use crate::wire::{datetime_of, json_of, parse_datetime, parse_document};

verus! {

/// Reading of an optional opaque sub-document: a missing key and a null both
/// mean absence; any other value passes through unchanged. Never fails.
pub open spec fn spec_opt_document(slot: Option<JsonValue>) -> Option<JsonValue> {
    match slot {
        None => None,
        Some(JsonValue::Null) => None,
        Some(v) => Some(v),
    }
}

/// Reading of a required opaque sub-document: it must be present and not
/// null; it passes through unchanged.
pub open spec fn spec_req_document(slot: Option<JsonValue>, f: Field) -> Result<
    JsonValue,
    DecodeError,
> {
    match slot {
        None => Err(DecodeError::MissingOrInvalidField(f)),
        Some(JsonValue::Null) => Err(DecodeError::MissingOrInvalidField(f)),
        Some(v) => Ok(v),
    }
}

/// Reading of a required text key.
pub open spec fn spec_req_string(slot: Option<JsonValue>, f: Field) -> Result<
    String,
    DecodeError,
> {
    match slot {
        Some(JsonValue::Str(s)) => Ok(s),
        _ => Err(DecodeError::MissingOrInvalidField(f)),
    }
}

/// Reading of an optional text key: a missing key and a null both decode to
/// absence, never to an empty string.
pub open spec fn spec_opt_string(slot: Option<JsonValue>, f: Field) -> Result<
    Option<String>,
    DecodeError,
> {
    match slot {
        None => Ok(None),
        Some(JsonValue::Null) => Ok(None),
        Some(JsonValue::Str(s)) => Ok(Some(s)),
        _ => Err(DecodeError::MissingOrInvalidField(f)),
    }
}

/// Reading of a required identifier key: a non-negative wire integer.
pub open spec fn spec_req_id(slot: Option<JsonValue>, f: Field) -> Result<ID, DecodeError> {
    match slot {
        Some(JsonValue::Int(i)) => if i >= 0 {
            Ok(ID(i as u64))
        } else {
            Err(DecodeError::MissingOrInvalidField(f))
        },
        _ => Err(DecodeError::MissingOrInvalidField(f)),
    }
}

/// Reading of a required non-negative count that must fit 32 bits.
pub open spec fn spec_req_u32(slot: Option<JsonValue>, f: Field) -> Result<u32, DecodeError> {
    match slot {
        Some(JsonValue::Int(i)) => if 0 <= i && i <= u32::MAX {
            Ok(i as u32)
        } else {
            Err(DecodeError::MissingOrInvalidField(f))
        },
        _ => Err(DecodeError::MissingOrInvalidField(f)),
    }
}

/// Reading of a boolean flag, which this service transmits as an integer:
/// 0 is false and 1 is true; a missing key is a missing field; any other
/// value is an invalid boolean and is carried in the error.
pub open spec fn spec_flag(slot: Option<JsonValue>, f: Field) -> Result<bool, DecodeError> {
    match slot {
        None => Err(DecodeError::MissingOrInvalidField(f)),
        Some(v) => match v {
            JsonValue::Int(i) => if i == 0 {
                Ok(false)
            } else if i == 1 {
                Ok(true)
            } else {
                Err(DecodeError::InvalidBoolean(f, JsonValue::Int(i)))
            },
            other => Err(DecodeError::InvalidBoolean(f, other)),
        },
    }
}

/// Reading of a required timestamp key: a text value that parses as an
/// RFC 3339 date-time, kept as Unix seconds.
pub open spec fn spec_req_datetime(slot: Option<JsonValue>, f: Field) -> Result<
    i64,
    DecodeError,
> {
    match slot {
        Some(JsonValue::Str(s)) => match datetime_of(s@) {
            Some(t) => Ok(t),
            None => Err(DecodeError::MissingOrInvalidField(f)),
        },
        _ => Err(DecodeError::MissingOrInvalidField(f)),
    }
}

/// Reading of an optional timestamp key.
pub open spec fn spec_opt_datetime(slot: Option<JsonValue>, f: Field) -> Result<
    Option<i64>,
    DecodeError,
> {
    match slot {
        None => Ok(None),
        Some(JsonValue::Null) => Ok(None),
        Some(JsonValue::Str(s)) => match datetime_of(s@) {
            Some(t) => Ok(Some(t)),
            None => Err(DecodeError::MissingOrInvalidField(f)),
        },
        _ => Err(DecodeError::MissingOrInvalidField(f)),
    }
}

pub(crate) fn conv_opt_document(slot: Option<JsonValue>) -> (r: Option<JsonValue>)
    ensures
        r == spec_opt_document(slot),
{
    match slot {
        None => None,
        Some(JsonValue::Null) => None,
        Some(v) => Some(v),
    }
}

pub(crate) fn conv_req_document(slot: Option<JsonValue>, f: Field) -> (r: Result<
    JsonValue,
    DecodeError,
>)
    ensures
        r == spec_req_document(slot, f),
{
    match slot {
        None => Err(DecodeError::MissingOrInvalidField(f)),
        Some(JsonValue::Null) => Err(DecodeError::MissingOrInvalidField(f)),
        Some(v) => Ok(v),
    }
}

pub(crate) fn conv_req_string(slot: Option<JsonValue>, f: Field) -> (r: Result<
    String,
    DecodeError,
>)
    ensures
        r == spec_req_string(slot, f),
{
    match slot {
        Some(JsonValue::Str(s)) => Ok(s),
        _ => Err(DecodeError::MissingOrInvalidField(f)),
    }
}

pub(crate) fn conv_opt_string(slot: Option<JsonValue>, f: Field) -> (r: Result<
    Option<String>,
    DecodeError,
>)
    ensures
        r == spec_opt_string(slot, f),
{
    match slot {
        None => Ok(None),
        Some(JsonValue::Null) => Ok(None),
        Some(JsonValue::Str(s)) => Ok(Some(s)),
        _ => Err(DecodeError::MissingOrInvalidField(f)),
    }
}

pub(crate) fn conv_req_id(slot: Option<JsonValue>, f: Field) -> (r: Result<ID, DecodeError>)
    ensures
        r == spec_req_id(slot, f),
{
    match slot {
        Some(JsonValue::Int(i)) => {
            if i >= 0 {
                Ok(ID(i as u64))
            } else {
                Err(DecodeError::MissingOrInvalidField(f))
            }
        },
        _ => Err(DecodeError::MissingOrInvalidField(f)),
    }
}

pub(crate) fn conv_req_u32(slot: Option<JsonValue>, f: Field) -> (r: Result<u32, DecodeError>)
    ensures
        r == spec_req_u32(slot, f),
{
    match slot {
        Some(JsonValue::Int(i)) => {
            if 0 <= i && i <= u32::MAX as i64 {
                Ok(i as u32)
            } else {
                Err(DecodeError::MissingOrInvalidField(f))
            }
        },
        _ => Err(DecodeError::MissingOrInvalidField(f)),
    }
}

pub(crate) fn conv_flag(slot: Option<JsonValue>, f: Field) -> (r: Result<bool, DecodeError>)
    ensures
        r == spec_flag(slot, f),
{
    match slot {
        None => Err(DecodeError::MissingOrInvalidField(f)),
        Some(v) => match v {
            JsonValue::Int(i) => {
                if i == 0 {
                    Ok(false)
                } else if i == 1 {
                    Ok(true)
                } else {
                    Err(DecodeError::InvalidBoolean(f, JsonValue::Int(i)))
                }
            },
            other => Err(DecodeError::InvalidBoolean(f, other)),
        },
    }
}

pub(crate) fn conv_req_datetime(slot: Option<JsonValue>, f: Field) -> (r: Result<
    i64,
    DecodeError,
>)
    ensures
        r == spec_req_datetime(slot, f),
{
    match slot {
        Some(JsonValue::Str(s)) => match parse_datetime(s.as_str()) {
            Some(t) => Ok(t),
            None => Err(DecodeError::MissingOrInvalidField(f)),
        },
        _ => Err(DecodeError::MissingOrInvalidField(f)),
    }
}

pub(crate) fn conv_opt_datetime(slot: Option<JsonValue>, f: Field) -> (r: Result<
    Option<i64>,
    DecodeError,
>)
    ensures
        r == spec_opt_datetime(slot, f),
{
    match slot {
        None => Ok(None),
        Some(JsonValue::Null) => Ok(None),
        Some(JsonValue::Str(s)) => match parse_datetime(s.as_str()) {
            Some(t) => Ok(Some(t)),
            None => Err(DecodeError::MissingOrInvalidField(f)),
        },
        _ => Err(DecodeError::MissingOrInvalidField(f)),
    }
}

/// The first rejection among the identifier-less fields of an entry object,
/// reading each key in a fixed order; `None` when every field is acceptable.
pub open spec fn spec_fields_error(s: Seq<(String, JsonValue)>) -> Option<DecodeError> {
    if spec_opt_string(spec_field_lookup(s, Field::Content), Field::Content) is Err {
        Some(spec_opt_string(spec_field_lookup(s, Field::Content), Field::Content)->Err_0)
    } else if spec_req_datetime(spec_field_lookup(s, Field::CreatedAt), Field::CreatedAt) is Err {
        Some(spec_req_datetime(spec_field_lookup(s, Field::CreatedAt), Field::CreatedAt)->Err_0)
    } else if spec_opt_string(spec_field_lookup(s, Field::DomainName), Field::DomainName) is Err {
        Some(spec_opt_string(spec_field_lookup(s, Field::DomainName), Field::DomainName)->Err_0)
    } else if spec_opt_string(spec_field_lookup(s, Field::Headers), Field::Headers) is Err {
        Some(spec_opt_string(spec_field_lookup(s, Field::Headers), Field::Headers)->Err_0)
    } else if spec_opt_string(spec_field_lookup(s, Field::HttpStatus), Field::HttpStatus) is Err {
        Some(spec_opt_string(spec_field_lookup(s, Field::HttpStatus), Field::HttpStatus)->Err_0)
    } else if spec_flag(spec_field_lookup(s, Field::IsArchived), Field::IsArchived) is Err {
        Some(spec_flag(spec_field_lookup(s, Field::IsArchived), Field::IsArchived)->Err_0)
    } else if spec_flag(spec_field_lookup(s, Field::IsPublic), Field::IsPublic) is Err {
        Some(spec_flag(spec_field_lookup(s, Field::IsPublic), Field::IsPublic)->Err_0)
    } else if spec_flag(spec_field_lookup(s, Field::IsStarred), Field::IsStarred) is Err {
        Some(spec_flag(spec_field_lookup(s, Field::IsStarred), Field::IsStarred)->Err_0)
    } else if spec_opt_string(spec_field_lookup(s, Field::Language), Field::Language) is Err {
        Some(spec_opt_string(spec_field_lookup(s, Field::Language), Field::Language)->Err_0)
    } else if spec_opt_string(spec_field_lookup(s, Field::Mimetype), Field::Mimetype) is Err {
        Some(spec_opt_string(spec_field_lookup(s, Field::Mimetype), Field::Mimetype)->Err_0)
    } else if spec_opt_string(spec_field_lookup(s, Field::OriginUrl), Field::OriginUrl) is Err {
        Some(spec_opt_string(spec_field_lookup(s, Field::OriginUrl), Field::OriginUrl)->Err_0)
    } else if spec_opt_string(
        spec_field_lookup(s, Field::PreviewPicture),
        Field::PreviewPicture,
    ) is Err {
        Some(spec_opt_string(spec_field_lookup(s, Field::PreviewPicture), Field::PreviewPicture)->Err_0)
    } else if spec_opt_datetime(spec_field_lookup(s, Field::PublishedAt), Field::PublishedAt) is Err {
        Some(spec_opt_datetime(spec_field_lookup(s, Field::PublishedAt), Field::PublishedAt)->Err_0)
    } else if spec_opt_string(spec_field_lookup(s, Field::PublishedBy), Field::PublishedBy) is Err {
        Some(spec_opt_string(spec_field_lookup(s, Field::PublishedBy), Field::PublishedBy)->Err_0)
    } else if spec_req_u32(spec_field_lookup(s, Field::ReadingTime), Field::ReadingTime) is Err {
        Some(spec_req_u32(spec_field_lookup(s, Field::ReadingTime), Field::ReadingTime)->Err_0)
    } else if spec_opt_datetime(spec_field_lookup(s, Field::StarredAt), Field::StarredAt) is Err {
        Some(spec_opt_datetime(spec_field_lookup(s, Field::StarredAt), Field::StarredAt)->Err_0)
    } else if spec_req_document(spec_field_lookup(s, Field::Tags), Field::Tags) is Err {
        Some(spec_req_document(spec_field_lookup(s, Field::Tags), Field::Tags)->Err_0)
    } else if spec_opt_string(spec_field_lookup(s, Field::Title), Field::Title) is Err {
        Some(spec_opt_string(spec_field_lookup(s, Field::Title), Field::Title)->Err_0)
    } else if spec_opt_string(spec_field_lookup(s, Field::Uid), Field::Uid) is Err {
        Some(spec_opt_string(spec_field_lookup(s, Field::Uid), Field::Uid)->Err_0)
    } else if spec_req_datetime(spec_field_lookup(s, Field::UpdatedAt), Field::UpdatedAt) is Err {
        Some(spec_req_datetime(spec_field_lookup(s, Field::UpdatedAt), Field::UpdatedAt)->Err_0)
    } else if spec_opt_string(spec_field_lookup(s, Field::Url), Field::Url) is Err {
        Some(spec_opt_string(spec_field_lookup(s, Field::Url), Field::Url)->Err_0)
    } else if spec_req_string(spec_field_lookup(s, Field::UserEmail), Field::UserEmail) is Err {
        Some(spec_req_string(spec_field_lookup(s, Field::UserEmail), Field::UserEmail)->Err_0)
    } else if spec_req_id(spec_field_lookup(s, Field::UserId), Field::UserId) is Err {
        Some(spec_req_id(spec_field_lookup(s, Field::UserId), Field::UserId)->Err_0)
    } else if spec_req_string(spec_field_lookup(s, Field::UserName), Field::UserName) is Err {
        Some(spec_req_string(spec_field_lookup(s, Field::UserName), Field::UserName)->Err_0)
    } else {
        None
    }
}

/// The identifier-less entry that an acceptable object decodes to;
/// meaningful only where `spec_fields_error` is `None`.
pub open spec fn spec_build(s: Seq<(String, JsonValue)>) -> DeletedEntry {
    DeletedEntry {
        annotations: spec_opt_document(spec_field_lookup(s, Field::Annotations)),
        content: spec_opt_string(spec_field_lookup(s, Field::Content), Field::Content)->Ok_0,
        created_at: spec_req_datetime(
            spec_field_lookup(s, Field::CreatedAt),
            Field::CreatedAt,
        )->Ok_0,
        domain_name: spec_opt_string(
            spec_field_lookup(s, Field::DomainName),
            Field::DomainName,
        )->Ok_0,
        headers: spec_opt_string(spec_field_lookup(s, Field::Headers), Field::Headers)->Ok_0,
        http_status: spec_opt_string(
            spec_field_lookup(s, Field::HttpStatus),
            Field::HttpStatus,
        )->Ok_0,
        is_archived: spec_flag(spec_field_lookup(s, Field::IsArchived), Field::IsArchived)->Ok_0,
        is_public: spec_flag(spec_field_lookup(s, Field::IsPublic), Field::IsPublic)->Ok_0,
        is_starred: spec_flag(spec_field_lookup(s, Field::IsStarred), Field::IsStarred)->Ok_0,
        language: spec_opt_string(spec_field_lookup(s, Field::Language), Field::Language)->Ok_0,
        mimetype: spec_opt_string(spec_field_lookup(s, Field::Mimetype), Field::Mimetype)->Ok_0,
        origin_url: spec_opt_string(spec_field_lookup(s, Field::OriginUrl), Field::OriginUrl)->Ok_0,
        preview_picture: spec_opt_string(
            spec_field_lookup(s, Field::PreviewPicture),
            Field::PreviewPicture,
        )->Ok_0,
        published_at: spec_opt_datetime(
            spec_field_lookup(s, Field::PublishedAt),
            Field::PublishedAt,
        )->Ok_0,
        published_by: spec_opt_string(
            spec_field_lookup(s, Field::PublishedBy),
            Field::PublishedBy,
        )->Ok_0,
        reading_time: spec_req_u32(
            spec_field_lookup(s, Field::ReadingTime),
            Field::ReadingTime,
        )->Ok_0,
        starred_at: spec_opt_datetime(
            spec_field_lookup(s, Field::StarredAt),
            Field::StarredAt,
        )->Ok_0,
        tags: spec_req_document(spec_field_lookup(s, Field::Tags), Field::Tags)->Ok_0,
        title: spec_opt_string(spec_field_lookup(s, Field::Title), Field::Title)->Ok_0,
        uid: spec_opt_string(spec_field_lookup(s, Field::Uid), Field::Uid)->Ok_0,
        updated_at: spec_req_datetime(
            spec_field_lookup(s, Field::UpdatedAt),
            Field::UpdatedAt,
        )->Ok_0,
        url: spec_opt_string(spec_field_lookup(s, Field::Url), Field::Url)->Ok_0,
        user_email: spec_req_string(
            spec_field_lookup(s, Field::UserEmail),
            Field::UserEmail,
        )->Ok_0,
        user_id: spec_req_id(spec_field_lookup(s, Field::UserId), Field::UserId)->Ok_0,
        user_name: spec_req_string(
            spec_field_lookup(s, Field::UserName),
            Field::UserName,
        )->Ok_0,
    }
}

/// What the identifier-less part of an entry object decodes to: the first
/// rejection, or the assembled value.
pub open spec fn spec_decode_fields(s: Seq<(String, JsonValue)>) -> Result<
    DeletedEntry,
    DecodeError,
> {
    match spec_fields_error(s) {
        Some(e) => Err(e),
        None => Ok(spec_build(s)),
    }
}

/// The entry that reconciliation builds: every field of `d` carried over
/// unchanged, and `id` injected as the identifier.
pub open spec fn spec_reconcile(d: DeletedEntry, id: ID) -> Entry {
    Entry {
        annotations: d.annotations,
        content: d.content,
        created_at: d.created_at,
        domain_name: d.domain_name,
        headers: d.headers,
        http_status: d.http_status,
        id: id,
        is_archived: d.is_archived,
        is_public: d.is_public,
        is_starred: d.is_starred,
        language: d.language,
        mimetype: d.mimetype,
        origin_url: d.origin_url,
        preview_picture: d.preview_picture,
        published_at: d.published_at,
        published_by: d.published_by,
        reading_time: d.reading_time,
        starred_at: d.starred_at,
        tags: d.tags,
        title: d.title,
        uid: d.uid,
        updated_at: d.updated_at,
        url: d.url,
        user_email: d.user_email,
        user_id: d.user_id,
        user_name: d.user_name,
    }
}

/// What a deleted-entry document decodes to.
pub open spec fn spec_decode_deleted(j: JsonValue) -> Result<DeletedEntry, DecodeError> {
    match j {
        JsonValue::Obj(fields) => spec_decode_fields(fields@),
        _ => Err(DecodeError::Malformed),
    }
}

/// What an entry document decodes to: the identifier is read first, then
/// the rest of the object.
pub open spec fn spec_decode_entry(j: JsonValue) -> Result<Entry, DecodeError> {
    match j {
        JsonValue::Obj(fields) => match spec_req_id(
            spec_field_lookup(fields@, Field::Id),
            Field::Id,
        ) {
            Err(e) => Err(e),
            Ok(id) => match spec_decode_fields(fields@) {
                Err(e) => Err(e),
                Ok(d) => Ok(spec_reconcile(d, id)),
            },
        },
        _ => Err(DecodeError::Malformed),
    }
}

/// What decoding an entry straight from bytes yields.
pub open spec fn spec_decode_entry_bytes(b: Seq<u8>) -> Result<Entry, DecodeError> {
    match json_of(b) {
        None => Err(DecodeError::Malformed),
        Some(j) => spec_decode_entry(j),
    }
}

fn decode_fields(fields: Vec<(String, JsonValue)>) -> (r: Result<DeletedEntry, DecodeError>)
    ensures
        r == spec_decode_fields(fields@),
{
    let mut fs = fields;
    let slot_annotations = find_remove(&mut fs, Field::Annotations);
    let slot_content = find_remove(&mut fs, Field::Content);
    let slot_created_at = find_remove(&mut fs, Field::CreatedAt);
    let slot_domain_name = find_remove(&mut fs, Field::DomainName);
    let slot_headers = find_remove(&mut fs, Field::Headers);
    let slot_http_status = find_remove(&mut fs, Field::HttpStatus);
    let slot_is_archived = find_remove(&mut fs, Field::IsArchived);
    let slot_is_public = find_remove(&mut fs, Field::IsPublic);
    let slot_is_starred = find_remove(&mut fs, Field::IsStarred);
    let slot_language = find_remove(&mut fs, Field::Language);
    let slot_mimetype = find_remove(&mut fs, Field::Mimetype);
    let slot_origin_url = find_remove(&mut fs, Field::OriginUrl);
    let slot_preview_picture = find_remove(&mut fs, Field::PreviewPicture);
    let slot_published_at = find_remove(&mut fs, Field::PublishedAt);
    let slot_published_by = find_remove(&mut fs, Field::PublishedBy);
    let slot_reading_time = find_remove(&mut fs, Field::ReadingTime);
    let slot_starred_at = find_remove(&mut fs, Field::StarredAt);
    let slot_tags = find_remove(&mut fs, Field::Tags);
    let slot_title = find_remove(&mut fs, Field::Title);
    let slot_uid = find_remove(&mut fs, Field::Uid);
    let slot_updated_at = find_remove(&mut fs, Field::UpdatedAt);
    let slot_url = find_remove(&mut fs, Field::Url);
    let slot_user_email = find_remove(&mut fs, Field::UserEmail);
    let slot_user_id = find_remove(&mut fs, Field::UserId);
    let slot_user_name = find_remove(&mut fs, Field::UserName);
    let annotations = conv_opt_document(slot_annotations);
    let content = match conv_opt_string(slot_content, Field::Content) {
        Ok(v) => v,
        Err(e) => return Err(e),
    };
    let created_at = match conv_req_datetime(slot_created_at, Field::CreatedAt) {
        Ok(v) => v,
        Err(e) => return Err(e),
    };
    let domain_name = match conv_opt_string(slot_domain_name, Field::DomainName) {
        Ok(v) => v,
        Err(e) => return Err(e),
    };
    let headers = match conv_opt_string(slot_headers, Field::Headers) {
        Ok(v) => v,
        Err(e) => return Err(e),
    };
    let http_status = match conv_opt_string(slot_http_status, Field::HttpStatus) {
        Ok(v) => v,
        Err(e) => return Err(e),
    };
    let is_archived = match conv_flag(slot_is_archived, Field::IsArchived) {
        Ok(v) => v,
        Err(e) => return Err(e),
    };
    let is_public = match conv_flag(slot_is_public, Field::IsPublic) {
        Ok(v) => v,
        Err(e) => return Err(e),
    };
    let is_starred = match conv_flag(slot_is_starred, Field::IsStarred) {
        Ok(v) => v,
        Err(e) => return Err(e),
    };
    let language = match conv_opt_string(slot_language, Field::Language) {
        Ok(v) => v,
        Err(e) => return Err(e),
    };
    let mimetype = match conv_opt_string(slot_mimetype, Field::Mimetype) {
        Ok(v) => v,
        Err(e) => return Err(e),
    };
    let origin_url = match conv_opt_string(slot_origin_url, Field::OriginUrl) {
        Ok(v) => v,
        Err(e) => return Err(e),
    };
    let preview_picture = match conv_opt_string(slot_preview_picture, Field::PreviewPicture) {
        Ok(v) => v,
        Err(e) => return Err(e),
    };
    let published_at = match conv_opt_datetime(slot_published_at, Field::PublishedAt) {
        Ok(v) => v,
        Err(e) => return Err(e),
    };
    let published_by = match conv_opt_string(slot_published_by, Field::PublishedBy) {
        Ok(v) => v,
        Err(e) => return Err(e),
    };
    let reading_time = match conv_req_u32(slot_reading_time, Field::ReadingTime) {
        Ok(v) => v,
        Err(e) => return Err(e),
    };
    let starred_at = match conv_opt_datetime(slot_starred_at, Field::StarredAt) {
        Ok(v) => v,
        Err(e) => return Err(e),
    };
    let tags = match conv_req_document(slot_tags, Field::Tags) {
        Ok(v) => v,
        Err(e) => return Err(e),
    };
    let title = match conv_opt_string(slot_title, Field::Title) {
        Ok(v) => v,
        Err(e) => return Err(e),
    };
    let uid = match conv_opt_string(slot_uid, Field::Uid) {
        Ok(v) => v,
        Err(e) => return Err(e),
    };
    let updated_at = match conv_req_datetime(slot_updated_at, Field::UpdatedAt) {
        Ok(v) => v,
        Err(e) => return Err(e),
    };
    let url = match conv_opt_string(slot_url, Field::Url) {
        Ok(v) => v,
        Err(e) => return Err(e),
    };
    let user_email = match conv_req_string(slot_user_email, Field::UserEmail) {
        Ok(v) => v,
        Err(e) => return Err(e),
    };
    let user_id = match conv_req_id(slot_user_id, Field::UserId) {
        Ok(v) => v,
        Err(e) => return Err(e),
    };
    let user_name = match conv_req_string(slot_user_name, Field::UserName) {
        Ok(v) => v,
        Err(e) => return Err(e),
    };
    Ok(
        DeletedEntry {
            annotations,
            content,
            created_at,
            domain_name,
            headers,
            http_status,
            is_archived,
            is_public,
            is_starred,
            language,
            mimetype,
            origin_url,
            preview_picture,
            published_at,
            published_by,
            reading_time,
            starred_at,
            tags,
            title,
            uid,
            updated_at,
            url,
            user_email,
            user_id,
            user_name,
        },
    )
}

/// Decodes one deleted-entry document: an entry object without an
/// identifier, as the delete endpoint returns it.
pub fn decode_deleted_entry(j: JsonValue) -> (r: Result<DeletedEntry, DecodeError>)
    ensures
        r == spec_decode_deleted(j),
{
    match j {
        JsonValue::Obj(fields) => decode_fields(fields),
        _ => Err(DecodeError::Malformed),
    }
}

/// Decodes one entry document into the canonical model.
pub fn decode_entry(j: JsonValue) -> (r: Result<Entry, DecodeError>)
    ensures
        r == spec_decode_entry(j),
{
    match j {
        JsonValue::Obj(fields) => {
            let mut fs = fields;
            let slot_id = find_remove(&mut fs, Field::Id);
            let id = match conv_req_id(slot_id, Field::Id) {
                Ok(v) => v,
                Err(e) => return Err(e),
            };
            match decode_fields(fs) {
                Ok(d) => Ok(reconcile(d, id)),
                Err(e) => Err(e),
            }
        },
        _ => Err(DecodeError::Malformed),
    }
}

/// Decodes one entry straight from the bytes of a response body.
pub fn decode_entry_bytes(body: &[u8]) -> (r: Result<Entry, DecodeError>)
    ensures
        r == spec_decode_entry_bytes(body@),
{
    match parse_document(body) {
        None => Err(DecodeError::Malformed),
        Some(j) => decode_entry(j),
    }
}

/// Rebuilds the full `Entry` for a delete response from the decoded payload
/// and the identifier that the original request named. Total: every field of
/// `partial` is carried over unchanged, and `id` becomes the identifier.
pub fn reconcile(partial: DeletedEntry, id: ID) -> (r: Entry)
    ensures
        r == spec_reconcile(partial, id),
        r.id == id,
        r.annotations == partial.annotations,
        r.content == partial.content,
        r.created_at == partial.created_at,
        r.domain_name == partial.domain_name,
        r.headers == partial.headers,
        r.http_status == partial.http_status,
        r.is_archived == partial.is_archived,
        r.is_public == partial.is_public,
        r.is_starred == partial.is_starred,
        r.language == partial.language,
        r.mimetype == partial.mimetype,
        r.origin_url == partial.origin_url,
        r.preview_picture == partial.preview_picture,
        r.published_at == partial.published_at,
        r.published_by == partial.published_by,
        r.reading_time == partial.reading_time,
        r.starred_at == partial.starred_at,
        r.tags == partial.tags,
        r.title == partial.title,
        r.uid == partial.uid,
        r.updated_at == partial.updated_at,
        r.url == partial.url,
        r.user_email == partial.user_email,
        r.user_id == partial.user_id,
        r.user_name == partial.user_name,
{
    Entry {
        annotations: partial.annotations,
        content: partial.content,
        created_at: partial.created_at,
        domain_name: partial.domain_name,
        headers: partial.headers,
        http_status: partial.http_status,
        id: id,
        is_archived: partial.is_archived,
        is_public: partial.is_public,
        is_starred: partial.is_starred,
        language: partial.language,
        mimetype: partial.mimetype,
        origin_url: partial.origin_url,
        preview_picture: partial.preview_picture,
        published_at: partial.published_at,
        published_by: partial.published_by,
        reading_time: partial.reading_time,
        starred_at: partial.starred_at,
        tags: partial.tags,
        title: partial.title,
        uid: partial.uid,
        updated_at: partial.updated_at,
        url: partial.url,
        user_email: partial.user_email,
        user_id: partial.user_id,
        user_name: partial.user_name,
    }
}

/// For a wire object that decodes successfully, each boolean flag of the
/// result is true exactly where the wire carried the integer 1, and false
/// exactly where it carried the integer 0.
pub proof fn lemma_flag_decoding(j: JsonValue, e: Entry)
    requires
        spec_decode_entry(j) == Ok::<Entry, DecodeError>(e),
    ensures
        j matches JsonValue::Obj(fields) ==> {
            &&& (e.is_archived <==> spec_field_lookup(fields@, Field::IsArchived) == Some(
                JsonValue::Int(1),
            ))
            &&& (!e.is_archived <==> spec_field_lookup(fields@, Field::IsArchived) == Some(
                JsonValue::Int(0),
            ))
            &&& (e.is_public <==> spec_field_lookup(fields@, Field::IsPublic) == Some(
                JsonValue::Int(1),
            ))
            &&& (!e.is_public <==> spec_field_lookup(fields@, Field::IsPublic) == Some(
                JsonValue::Int(0),
            ))
            &&& (e.is_starred <==> spec_field_lookup(fields@, Field::IsStarred) == Some(
                JsonValue::Int(1),
            ))
            &&& (!e.is_starred <==> spec_field_lookup(fields@, Field::IsStarred) == Some(
                JsonValue::Int(0),
            ))
        },
{
}

/// A flag key holding anything besides the integers 0 and 1 makes the whole
/// entry decoding fail.
pub proof fn lemma_invalid_flag_rejected(j: JsonValue, f: Field, v: JsonValue)
    requires
        f == Field::IsArchived || f == Field::IsPublic || f == Field::IsStarred,
        j matches JsonValue::Obj(fields) && spec_field_lookup(fields@, f) == Some(v),
        v != JsonValue::Int(0) && v != JsonValue::Int(1),
    ensures
        spec_decode_entry(j) is Err,
{
    assert(spec_flag(Some(v), f) is Err);
}

/// Decoding is a function of the document alone: two successful decodings
/// of one document yield structurally equal entries.
pub proof fn lemma_decode_deterministic(j: JsonValue, e1: Entry, e2: Entry)
    requires
        spec_decode_entry(j) == Ok::<Entry, DecodeError>(e1),
        spec_decode_entry(j) == Ok::<Entry, DecodeError>(e2),
    ensures
        e1 == e2,
{
}

} // verus!
