//! Content-addressed storage objects, quota snapshots, errors and service results.

use vstd::prelude::*;

use crate::text::{concat, decimal, i64_text, signed_decimal, u64_text};

verus! {

/// Storage failures. Adapters map their own (database, object store, file system)
/// errors onto these variants; I/O failures carry the text of the underlying error.
#[derive(Debug, Clone)]
pub enum StorageError {
    InvalidHash,
    HashMismatch,
    UnsupportedType(String),
    FileTooLarge { size: u64, max: u64 },
    QuotaExceeded { used_bytes: i64, quota_bytes: i64 },
    NotFound,
    Forbidden(String),
    NotOnStore(String),
    Io(String),
    Image(String),
    Backend(String),
    Store(String),
}

/// Text of a storage error, as its `Display` shows it.
pub open spec fn storage_error_text(e: StorageError) -> Seq<char> {
    match e {
        StorageError::InvalidHash => "文件 hash 格式无效"@,
        StorageError::HashMismatch => "文件内容与 hash 不一致"@,
        StorageError::UnsupportedType(t) => "文件类型不支持: "@ + t@,
        StorageError::FileTooLarge { size, max } => "文件过大: "@ + decimal(size as nat)
            + " bytes, 最大 "@ + decimal(max as nat) + " bytes"@,
        StorageError::QuotaExceeded { .. } => "配额不足"@,
        StorageError::NotFound => "文件不存在"@,
        StorageError::Forbidden(t) => "无权访问: "@ + t@,
        StorageError::NotOnStore(t) => "文件未上传到存储: "@ + t@,
        StorageError::Io(t) => "IO 错误: "@ + t@,
        StorageError::Image(t) => "图片处理错误: "@ + t@,
        StorageError::Backend(t) => "存储后端错误: "@ + t@,
        StorageError::Store(t) => "数据存储错误: "@ + t@,
    }
}

/// Text of an oversized-file message: `"<prefix><size> bytes, 最大 <max> bytes"`.
pub fn too_large_text(prefix: &str, size: u64, max: u64) -> (s: String)
    ensures
        s@ == prefix@ + decimal(size as nat) + " bytes, 最大 "@ + decimal(max as nat) + " bytes"@,
{
    let a = concat(prefix, u64_text(size).as_str());
    let b = concat(a.as_str(), " bytes, 最大 ");
    let c = concat(b.as_str(), u64_text(max).as_str());
    concat(c.as_str(), " bytes")
}

impl StorageError {
    /// The error's display text.
    pub fn describe(&self) -> (s: String)
        ensures
            s@ == storage_error_text(*self),
    {
        match self {
            StorageError::InvalidHash => "文件 hash 格式无效".to_owned(),
            StorageError::HashMismatch => "文件内容与 hash 不一致".to_owned(),
            StorageError::UnsupportedType(t) => concat("文件类型不支持: ", t.as_str()),
            StorageError::FileTooLarge { size, max } => too_large_text("文件过大: ", *size, *max),
            StorageError::QuotaExceeded { .. } => "配额不足".to_owned(),
            StorageError::NotFound => "文件不存在".to_owned(),
            StorageError::Forbidden(t) => concat("无权访问: ", t.as_str()),
            StorageError::NotOnStore(t) => concat("文件未上传到存储: ", t.as_str()),
            StorageError::Io(t) => concat("IO 错误: ", t.as_str()),
            StorageError::Image(t) => concat("图片处理错误: ", t.as_str()),
            StorageError::Backend(t) => concat("存储后端错误: ", t.as_str()),
            StorageError::Store(t) => concat("数据存储错误: ", t.as_str()),
        }
    }
}

/// A content-addressed stored file. Ownership is kept by the host's object store.
#[derive(Debug, Clone)]
pub struct StorageObject {
    pub id: i64,
    pub hash: String,
    pub storage_path: String,
    pub size: i64,
    pub mime_type: String,
    pub mime_category: String,
    pub width: Option<i32>,
    pub height: Option<i32>,
    pub duration_ms: Option<i64>,
    pub thumb_path: Option<String>,
    pub original_name: Option<String>,
    pub ref_count: i32,
}

/// Quota usage of a scope; the host's policy decides the limit.
#[derive(Debug, Clone, Copy)]
pub struct QuotaSnapshot {
    pub used_bytes: i64,
    pub quota_bytes: i64,
}

/// A file object about to be recorded; the scope is passed separately.
#[derive(Debug, Clone)]
pub struct NewStorageObject {
    pub hash: String,
    pub storage_path: String,
    pub size: i64,
    pub mime_type: String,
    pub mime_category: String,
    pub width: Option<i32>,
    pub height: Option<i32>,
    pub duration_ms: Option<i64>,
    pub thumb_path: Option<String>,
    pub original_name: Option<String>,
    /// Client idempotency key (the 128-bit value of a UUID), set by the image upload path.
    pub upload_id: Option<u128>,
}

/// Image dimensions and thumbnail produced by a metadata extractor.
#[derive(Debug, Clone)]
pub struct ImageMetadata {
    pub width: u32,
    pub height: u32,
    pub thumb: Vec<u8>,
    pub thumb_ext: String,
}

#[derive(Debug, Clone, Copy, PartialEq, Eq, Structural)]
pub enum ImageFit {
    Contain,
    Cover,
    Fill,
}

#[derive(Debug, Clone, Copy, PartialEq, Eq, Structural)]
pub enum ImageOutputFormat {
    WebP,
    Jpeg,
    Png,
}

#[derive(Debug, Clone, Copy)]
pub struct ImageTransform {
    pub width: Option<u32>,
    pub height: Option<u32>,
    pub fit: ImageFit,
    pub quality: u8,
    pub format: ImageOutputFormat,
}

#[derive(Debug)]
pub struct TransformedImage {
    pub bytes: Vec<u8>,
    pub mime_type: String,
}

/// Video metadata extracted by the client and uploaded with the video.
#[derive(Debug, Clone, Copy)]
pub struct VideoMeta {
    pub duration_ms: u64,
    pub width: u32,
    pub height: u32,
}

/// Result of an upload. `url` comes from the backend's `url_for`.
#[derive(Debug)]
pub struct UploadResult {
    pub file_id: i64,
    pub content_path: String,
    pub thumbnail_path: Option<String>,
    pub url: String,
    pub thumb_url: Option<String>,
    pub size: i64,
    pub is_dedup: bool,
    pub mime_type: String,
    pub mime_category: String,
    pub width: Option<i32>,
    pub height: Option<i32>,
    pub duration_ms: Option<i64>,
    pub original_name: Option<String>,
    pub quota: QuotaSnapshot,
}

/// Result of a physical deletion.
#[derive(Debug)]
pub struct DeleteResult {
    pub physical_deleted: bool,
    pub freed_bytes: i64,
    pub snapshot: QuotaSnapshot,
}

/// A file as listed for its owner.
#[derive(Debug)]
pub struct FileInfo {
    pub id: i64,
    pub hash: String,
    pub content_path: String,
    pub thumbnail_path: Option<String>,
    pub url: String,
    pub thumb_url: Option<String>,
    pub size: i64,
    pub mime_type: String,
    pub mime_category: String,
    pub width: Option<i32>,
    pub height: Option<i32>,
    pub duration_ms: Option<i64>,
    pub original_name: Option<String>,
    pub ref_count: i32,
}

/// One page of a file listing.
#[derive(Debug)]
pub struct FileListResult {
    pub items: Vec<FileInfo>,
    pub total: i64,
    pub page: i64,
    pub limit: i64,
}

/// Bytes of an authorised file read and their content type.
pub struct FileContent {
    pub bytes: Vec<u8>,
    pub mime_type: String,
}

/// Upload size limits.
#[derive(Debug, Clone)]
pub struct StorageServiceConfig {
    pub max_image_size: u64,
    pub max_video_size: u64,
    pub max_file_size: u64,
}

/// Private read path of a file's original: `/storage/files/<id>/content`.
pub open spec fn content_path_of(id: i64) -> Seq<char> {
    "/storage/files/"@ + signed_decimal(id as int) + "/content"@
}

/// Private read path of a file's thumbnail.
pub open spec fn thumbnail_path_of(id: i64) -> Seq<char> {
    content_path_of(id) + "?variant=thumbnail"@
}

/// A file's private read paths: `/storage/files/{id}/content` for the original and the
/// same path with `?variant=thumbnail` for its thumbnail.
pub proof fn law_read_paths(id: i64)
    ensures
        content_path_of(id) == "/storage/files/"@ + signed_decimal(id as int) + "/content"@,
        thumbnail_path_of(id) == "/storage/files/"@ + signed_decimal(id as int) + "/content?variant=thumbnail"@,
{
    reveal_strlit("/content");
    reveal_strlit("?variant=thumbnail");
    reveal_strlit("/content?variant=thumbnail");
    assert("/content"@ + "?variant=thumbnail"@ =~= "/content?variant=thumbnail"@);
    assert(thumbnail_path_of(id) =~= "/storage/files/"@ + signed_decimal(id as int) + "/content?variant=thumbnail"@);
}

pub fn content_path(id: i64) -> (s: String)
    ensures
        s@ == content_path_of(id),
{
    let a = concat("/storage/files/", i64_text(id).as_str());
    concat(a.as_str(), "/content")
}

pub fn thumbnail_path(id: i64) -> (s: String)
    ensures
        s@ == thumbnail_path_of(id),
{
    concat(content_path(id).as_str(), "?variant=thumbnail")
}

} // verus!
