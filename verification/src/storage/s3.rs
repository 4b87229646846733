//! Object storage: which keys, sizes and listings are accepted, and what an
//! answer of the store is reported as.
use vstd::prelude::*;
use vstd::string::*;
use crate::error::{AppError, StorageError, Result};
use crate::validation::{validate_s3_key, s3_key_outcome, scan_pair, has_pair};

verus! {

pub const MAX_OBJECT_SIZE_BYTES: u64 = 5368709120;
pub const LIST_LIMIT_MIN: i32 = 1;
pub const LIST_LIMIT_MAX: i32 = 1000;

#[derive(Debug, Clone)]
pub struct ObjectMeta {
    pub key: String,
    pub size_bytes: i64,
    pub content_type: Option<String>,
    pub etag: Option<String>,
}

/// The error for a size beyond `limit`.
pub open spec fn size_error(size: u64, limit: u64) -> Result<()> {
    Err(AppError::Storage(StorageError::SizeLimitExceeded { size_bytes: size, limit_bytes: limit }))
}

/// Checks an object key before it is used: a non-empty key of at most 1024
/// bytes, not absolute, without `..` and without NUL bytes.
pub fn validate_key(key: &str) -> (r: Result<()>)
    ensures
        r == s3_key_outcome(key.spec_bytes()),
{
    if let Err(e) = validate_s3_key(key) {
        return Err(e);
    }
    let b = key.as_bytes();
    if crate::validation::scan_byte(b, 0) {
        return Err(AppError::Storage(StorageError::InvalidKey { key: key.to_owned(), reason: "contains null bytes" }));
    }
    if b.len() > 0 && b[0] == 47 {
        return Err(AppError::Storage(StorageError::InvalidKey { key: key.to_owned(), reason: "cannot start with /" }));
    }
    if scan_pair(b, 46, 46) {
        return Err(AppError::Storage(StorageError::InvalidKey { key: key.to_owned(), reason: "path traversal not allowed" }));
    }
    Ok(())
}

/// Refuses an object larger than the store accepts.
pub fn validate_size(size: u64) -> (r: Result<()>)
    ensures
        r == if size > MAX_OBJECT_SIZE_BYTES { size_error(size, MAX_OBJECT_SIZE_BYTES) } else { Ok(()) },
{
    check_size_limit(size, MAX_OBJECT_SIZE_BYTES)
}

/// Refuses a size beyond `limit`.
pub fn check_size_limit(size: u64, limit: u64) -> (r: Result<()>)
    ensures
        r == if size > limit { size_error(size, limit) } else { Ok(()) },
{
    if size > limit {
        return Err(AppError::Storage(StorageError::SizeLimitExceeded { size_bytes: size, limit_bytes: limit }));
    }
    Ok(())
}

/// Checks an upload: the key, then the caller's limit, then the store's limit.
pub fn check_upload(key: &str, size: u64, max_size: u64) -> (r: Result<()>)
    ensures
        r == if s3_key_outcome(key.spec_bytes()) is Err {
            s3_key_outcome(key.spec_bytes())
        } else if size > max_size {
            size_error(size, max_size)
        } else if size > MAX_OBJECT_SIZE_BYTES {
            size_error(size, MAX_OBJECT_SIZE_BYTES)
        } else {
            Ok(())
        },
{
    if let Err(e) = validate_key(key) {
        return Err(e);
    }
    if let Err(e) = check_size_limit(size, max_size) {
        return Err(e);
    }
    validate_size(size)
}

/// The size an answer reports: its content length, 0 when absent, read as an
/// unsigned number.
pub open spec fn reported_size(content_length: Option<i64>) -> u64 {
    match content_length {
        Some(n) => n as u64,
        None => 0,
    }
}

/// Refuses an object whose reported length is beyond `limit`.
pub fn check_reported_size(content_length: Option<i64>, limit: u64) -> (r: Result<()>)
    ensures
        r == if reported_size(content_length) > limit {
            size_error(reported_size(content_length), limit)
        } else {
            Ok(())
        },
{
    let size: u64 = match content_length {
        Some(n) => n as u64,
        None => 0,
    };
    check_size_limit(size, limit)
}

/// The number of keys a listing asks for: `limit` brought into 1..=1000.
pub fn list_limit(limit: i32) -> (r: i32)
    ensures
        r == if limit < LIST_LIMIT_MIN { LIST_LIMIT_MIN } else if limit > LIST_LIMIT_MAX { LIST_LIMIT_MAX } else { limit },
{
    if limit < LIST_LIMIT_MIN {
        LIST_LIMIT_MIN
    } else if limit > LIST_LIMIT_MAX {
        LIST_LIMIT_MAX
    } else {
        limit
    }
}

/// Refuses a listing prefix that contains `..`.
pub fn check_list_prefix(prefix: &str) -> (r: Result<()>)
    ensures
        r is Ok <==> !has_pair(prefix.spec_bytes(), 46, 46),
        r is Err ==> (r matches Err(AppError::Storage(StorageError::InvalidKey { key, reason }))
            && key@ == prefix@ && reason == "path traversal not allowed"),
{
    if scan_pair(prefix.as_bytes(), 46, 46) {
        return Err(AppError::Storage(StorageError::InvalidKey {
            key: prefix.to_owned(),
            reason: "path traversal not allowed",
        }));
    }
    Ok(())
}

/// The metadata of an object just stored.
pub fn uploaded_meta(key: &str, size_bytes: i64, content_type: Option<&str>, etag: Option<String>) -> (m: ObjectMeta)
    ensures
        m.key@ == key@,
        m.size_bytes == size_bytes,
        match content_type {
            Some(c) => m.content_type matches Some(t) && t@ == c@,
            None => m.content_type is None,
        },
        m.etag == etag,
{
    let content_type = match content_type {
        Some(c) => Some(c.to_owned()),
        None => None,
    };
    ObjectMeta { key: key.to_owned(), size_bytes, content_type, etag }
}

/// The metadata of a listed object, skipped when the listing gives no key.
pub fn listed_meta(key: Option<String>, size: Option<i64>, etag: Option<String>) -> (m: Option<ObjectMeta>)
    ensures
        match key {
            Some(k) => m matches Some(o) && o.key == k && o.size_bytes == match size { Some(s) => s, None => 0 }
                && o.content_type is None && o.etag == etag,
            None => m is None,
        },
{
    match key {
        Some(k) => Some(ObjectMeta {
            key: k,
            size_bytes: match size { Some(s) => s, None => 0 },
            content_type: None,
            etag,
        }),
        None => None,
    }
}

} // verus!
