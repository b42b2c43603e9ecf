//! What storage flows ask of the host's ports, what the ports answer, and the result
//! records built from stored objects.
//!
//! An upload or deletion is a state machine: each step names the next call into the
//! host's object store, quota policy, metadata extractor or backend, and the host
//! feeds the call's outcome back in. The decisions (ordering, limits, paths, cleanup on
//! failure) are made here; the host only performs the calls.

use vstd::prelude::*;

use crate::storage::backend::StorageBackend;
use crate::storage::model::{
    content_path, content_path_of, thumbnail_path, thumbnail_path_of, FileInfo, ImageMetadata,
    NewStorageObject, QuotaSnapshot, StorageError, StorageObject, UploadResult,
};

verus! {

/// A call the host must perform for the current scope.
#[derive(Debug)]
pub enum StorageCall {
    /// `FileObjectStore::find_by_upload_id`.
    FindByUploadId { upload_id: u128 },
    /// `FileObjectStore::find_by_hash`.
    FindByHash { hash: String },
    /// `FileObjectStore::get`.
    GetObject { id: i64 },
    /// `FileObjectStore::insert`.
    Insert { object: NewStorageObject },
    /// `FileObjectStore::delete`.
    DeleteRecord { id: i64 },
    /// `QuotaPolicy::current`.
    QuotaCurrent,
    /// `QuotaPolicy::check`.
    QuotaCheck { size: i64 },
    /// `QuotaPolicy::consume`.
    QuotaConsume { size: i64 },
    /// `QuotaPolicy::release`.
    QuotaRelease { size: i64 },
    /// `MetadataExtractor::extract_image` on the uploaded bytes.
    ExtractImage,
    /// `StorageBackend::put` of the uploaded bytes.
    PutUpload { path: String },
    /// `StorageBackend::put` of the thumbnail the client sent with the upload.
    PutClientThumbnail { path: String },
    /// `StorageBackend::put` of bytes produced here (an extracted thumbnail).
    PutBytes { path: String, bytes: Vec<u8> },
    /// `StorageBackend::delete`.
    DeletePath { path: String },
}

/// Outcome of a `StorageCall`, fed back by the host.
#[derive(Debug)]
pub enum StorageReply {
    /// Outcome of `FindByUploadId`, `FindByHash` or `GetObject`.
    Found(Result<Option<StorageObject>, StorageError>),
    /// Outcome of a quota call.
    Quota(Result<QuotaSnapshot, StorageError>),
    /// Outcome of `ExtractImage`.
    Extracted(Result<ImageMetadata, StorageError>),
    /// Outcome of a backend put or delete; an error carries the I/O error text.
    Written(Result<(), String>),
    /// Outcome of `Insert`.
    Inserted(Result<StorageObject, StorageError>),
    /// Outcome of `DeleteRecord`.
    Removed(Result<(), StorageError>),
}

/// Next step of a flow: a call to perform, or the final outcome together with the
/// quota snapshot to report to the quota-changed callback, if any.
#[derive(Debug)]
pub enum Step<T> {
    Call(StorageCall),
    Finish(Result<T, StorageError>, Option<QuotaSnapshot>),
}

/// `r` reports an already stored object `file` as a deduplicated upload.
pub open spec fn dedup_result_spec<B: StorageBackend>(
    r: UploadResult,
    file: StorageObject,
    backend: B,
    quota: QuotaSnapshot,
) -> bool {
    &&& r.file_id == file.id
    &&& r.content_path@ == content_path_of(file.id)
    &&& (r.thumbnail_path is Some <==> file.thumb_path is Some)
    &&& (r.thumbnail_path matches Some(p) ==> p@ == thumbnail_path_of(file.id))
    &&& r.url@ == backend.url_of(file.storage_path@)
    &&& (r.thumb_url is Some <==> file.thumb_path is Some)
    &&& (file.thumb_path matches Some(t) ==> r.thumb_url matches Some(u) && u@ == backend.url_of(t@))
    &&& r.size == file.size
    &&& r.is_dedup
    &&& r.mime_type == file.mime_type
    &&& r.mime_category == file.mime_category
    &&& r.width == file.width
    &&& r.height == file.height
    &&& r.duration_ms == file.duration_ms
    &&& r.original_name == file.original_name
    &&& r.quota == quota
}

/// Builds the upload result for an already stored object.
pub fn dedup_result<B: StorageBackend>(file: StorageObject, backend: &B, quota: QuotaSnapshot) -> (r: UploadResult)
    ensures
        dedup_result_spec(r, file, *backend, quota),
{
    let thumbnail_path = match &file.thumb_path {
        Some(_) => Some(thumbnail_path(file.id)),
        None => None,
    };
    let thumb_url = match &file.thumb_path {
        Some(p) => Some(backend.url_for(p.as_str())),
        None => None,
    };
    UploadResult {
        file_id: file.id,
        content_path: content_path(file.id),
        thumbnail_path,
        url: backend.url_for(file.storage_path.as_str()),
        thumb_url,
        size: file.size,
        is_dedup: true,
        mime_type: file.mime_type,
        mime_category: file.mime_category,
        width: file.width,
        height: file.height,
        duration_ms: file.duration_ms,
        original_name: file.original_name,
        quota,
    }
}

/// `info` describes the stored object `file` for its owner.
pub open spec fn file_info_spec<B: StorageBackend>(info: FileInfo, file: StorageObject, backend: B) -> bool {
    &&& info.id == file.id
    &&& info.hash == file.hash
    &&& info.content_path@ == content_path_of(file.id)
    &&& (info.thumbnail_path is Some <==> file.thumb_path is Some)
    &&& (info.thumbnail_path matches Some(p) ==> p@ == thumbnail_path_of(file.id))
    &&& info.url@ == backend.url_of(file.storage_path@)
    &&& (info.thumb_url is Some <==> file.thumb_path is Some)
    &&& (file.thumb_path matches Some(t) ==> info.thumb_url matches Some(u) && u@ == backend.url_of(t@))
    &&& info.size == file.size
    &&& info.mime_type == file.mime_type
    &&& info.mime_category == file.mime_category
    &&& info.width == file.width
    &&& info.height == file.height
    &&& info.duration_ms == file.duration_ms
    &&& info.original_name == file.original_name
    &&& info.ref_count == file.ref_count
}

/// Describes a stored object for listings and detail views.
pub fn file_info<B: StorageBackend>(file: StorageObject, backend: &B) -> (info: FileInfo)
    ensures
        file_info_spec(info, file, *backend),
{
    let thumbnail_path = match &file.thumb_path {
        Some(_) => Some(thumbnail_path(file.id)),
        None => None,
    };
    let thumb_url = match &file.thumb_path {
        Some(p) => Some(backend.url_for(p.as_str())),
        None => None,
    };
    FileInfo {
        id: file.id,
        hash: file.hash,
        content_path: content_path(file.id),
        thumbnail_path,
        url: backend.url_for(file.storage_path.as_str()),
        thumb_url,
        size: file.size,
        mime_type: file.mime_type,
        mime_category: file.mime_category,
        width: file.width,
        height: file.height,
        duration_ms: file.duration_ms,
        original_name: file.original_name,
        ref_count: file.ref_count,
    }
}

} // verus!
