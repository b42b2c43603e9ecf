//! Checks and mappings of the storage HTTP routes: error responses, image variant
//! queries, upload forms and public image reads.

use vstd::prelude::*;

use crate::error::{is_error, is_internal, ErrorKind};
use crate::storage::model::{storage_error_text, ImageFit, ImageOutputFormat, ImageTransform, StorageError, TransformedImage};
use crate::storage::naming::{extension_of, path_extension};
use crate::storage::model::too_large_text;
use crate::text::{concat, decimal, parse_u64, parsed_u64, same_text};
use crate::web::{ascii_lowercase, ascii_lowered, opt_text, AppError};

verus! {

/// `e` is the HTTP error of the storage error `error`: quota, size, type, hash,
/// permission and missing file errors become client errors with their own codes and
/// messages; the rest are internal errors about storage.
pub open spec fn storage_err_describes(error: StorageError, e: crate::error::AppError) -> bool {
    match error {
        StorageError::QuotaExceeded { .. } => is_error(e, ErrorKind::Forbidden, "STORAGE_QUOTA_EXCEEDED"@, "云空间不足"@),
        StorageError::FileTooLarge { size, max } => is_error(
            e,
            ErrorKind::BadRequest,
            "BAD_REQUEST"@,
            "文件过大: "@ + decimal(size as nat) + " bytes, 最大 "@ + decimal(max as nat) + " bytes"@,
        ),
        StorageError::UnsupportedType(v) => is_error(e, ErrorKind::BadRequest, "BAD_REQUEST"@, "文件类型不支持: "@ + v@),
        StorageError::InvalidHash => is_error(e, ErrorKind::BadRequest, "ASSET_HASH_INVALID"@, "文件 hash 必须是 64 位小写 SHA-256"@),
        StorageError::HashMismatch => is_error(e, ErrorKind::BadRequest, "ASSET_HASH_MISMATCH"@, "文件内容与 hash 不一致"@),
        StorageError::Forbidden(m) => is_error(e, ErrorKind::Forbidden, "FORBIDDEN"@, m@),
        StorageError::NotOnStore(key) => is_error(e, ErrorKind::BadRequest, "BAD_REQUEST"@, "文件未上传成功，请重试: "@ + key@),
        StorageError::NotFound => is_error(e, ErrorKind::NotFound, "NOT_FOUND"@, "文件不存在"@),
        other => is_internal(e, storage_error_text(other), "storage"@),
    }
}

/// The HTTP error of a storage error (see `storage_err_describes`).
pub fn map_storage_err(error: StorageError) -> (e: AppError)
    ensures
        storage_err_describes(error, e.0),
{
    match error {
        StorageError::QuotaExceeded { .. } => {
            let e = AppError::new(403, "STORAGE_QUOTA_EXCEEDED", "云空间不足");
            assert(crate::error::status_kind(403) == ErrorKind::Forbidden);
            e
        },
        StorageError::FileTooLarge { size, max } => AppError::bad_request(too_large_text("文件过大: ", size, max).as_str()),
        StorageError::UnsupportedType(value) => AppError::bad_request(concat("文件类型不支持: ", value.as_str()).as_str()),
        StorageError::InvalidHash => AppError::new(400, "ASSET_HASH_INVALID", "文件 hash 必须是 64 位小写 SHA-256"),
        StorageError::HashMismatch => AppError::new(400, "ASSET_HASH_MISMATCH", "文件内容与 hash 不一致"),
        StorageError::Forbidden(message) => AppError::forbidden(message.as_str()),
        StorageError::NotOnStore(key) => AppError::bad_request(concat("文件未上传成功，请重试: ", key.as_str()).as_str()),
        StorageError::NotFound => AppError::not_found("文件不存在"),
        other => {
            let text = other.describe();
            AppError::internal(text.as_str(), "storage")
        },
    }
}

/// Query of a file-content read: a variant name, or a dynamic transform.
#[derive(Debug, Clone)]
pub struct ContentQuery {
    pub variant: Option<String>,
    pub w: Option<u32>,
    pub h: Option<u32>,
    pub fit: Option<String>,
    pub q: Option<u8>,
    pub format: Option<String>,
}

impl ContentQuery {
    /// A query naming a width or a height asks for a transformed image.
    pub fn wants_transform(&self) -> (r: bool)
        ensures
            r == (self.w is Some || self.h is Some),
    {
        self.w.is_some() || self.h.is_some()
    }

    /// Whether the stored thumbnail is asked for.
    pub fn wants_thumbnail(&self) -> (r: bool)
        ensures
            r == (self.variant matches Some(v) && v@ == "thumbnail"@),
    {
        match &self.variant {
            Some(v) => same_text(v.as_str(), "thumbnail"),
            None => false,
        }
    }
}

/// Largest accepted width or height of a transformed image.
pub const MAX_DIMENSION: u32 = 4096;

/// Largest accepted pixel count of a transformed image.
pub const MAX_PIXELS: u64 = 16_000_000;

/// Whether requested dimensions are refused: zero, more than 4096 on a side, or more
/// than 16 million pixels (a missing side counts as 1).
pub open spec fn dimensions_refused(w: Option<u32>, h: Option<u32>) -> bool {
    let ww: int = match w { Some(x) => x as int, None => 1 };
    let hh: int = match h { Some(y) => y as int, None => 1 };
    ||| w == Some(0u32)
    ||| h == Some(0u32)
    ||| (w matches Some(x) && x > MAX_DIMENSION)
    ||| (h matches Some(y) && y > MAX_DIMENSION)
    ||| ww * hh > MAX_PIXELS
}

/// The fit a query names (`contain` when it names none).
pub open spec fn fit_named(fit: Option<Seq<char>>) -> Option<ImageFit> {
    let f = match fit { Some(f) => f, None => "contain"@ };
    if f == "contain"@ {
        Some(ImageFit::Contain)
    } else if f == "cover"@ {
        Some(ImageFit::Cover)
    } else if f == "fill"@ {
        Some(ImageFit::Fill)
    } else {
        None
    }
}

/// The output format a query names (`webp` when it names none; `jpg` is `jpeg`).
pub open spec fn format_named(format: Option<Seq<char>>) -> Option<ImageOutputFormat> {
    let f = match format { Some(f) => f, None => "webp"@ };
    if f == "webp"@ {
        Some(ImageOutputFormat::WebP)
    } else if f == "jpeg"@ || f == "jpg"@ {
        Some(ImageOutputFormat::Jpeg)
    } else if f == "png"@ {
        Some(ImageOutputFormat::Png)
    } else {
        None
    }
}

/// The quality a query names (80 when it names none).
pub open spec fn quality_named(q: Option<u8>) -> u8 {
    match q {
        Some(q) => q,
        None => 80,
    }
}

/// The transform a query asks for, or the message of the bad request it is. The checks
/// run in order: dimensions, fit, quality (40 to 95), format.
pub open spec fn transform_of(query: ContentQuery) -> Result<ImageTransform, Seq<char>> {
    if dimensions_refused(query.w, query.h) {
        Err("图片尺寸超出允许范围"@)
    } else if fit_named(opt_view(query.fit)) is None {
        Err("fit 仅支持 contain、cover 或 fill"@)
    } else if !(40 <= quality_named(query.q) <= 95) {
        Err("q 必须在 40 到 95 之间"@)
    } else if format_named(opt_view(query.format)) is None {
        Err("format 仅支持 webp、jpeg 或 png"@)
    } else {
        Ok(ImageTransform {
            width: query.w,
            height: query.h,
            fit: fit_named(opt_view(query.fit)).unwrap(),
            quality: quality_named(query.q),
            format: format_named(opt_view(query.format)).unwrap(),
        })
    }
}

/// An accepted variant query keeps the requested width and height, each between 1 and
/// 4096 with at most 16 million pixels together, and a quality between 40 and 95 (80
/// when none is named); a query naming no fit gets `contain` and none naming a format
/// gets `webp`, while `jpg` and `jpeg` both name JPEG. A quality outside 40 to 95, or a
/// zero side, is a bad request.
pub proof fn law_image_transform_query(query: ContentQuery)
    ensures
        transform_of(query) matches Ok(t) ==> (t.width == query.w && t.height == query.h
            && 40 <= t.quality <= 95
            && (query.q matches Some(v) ==> t.quality == v)
            && (query.q is None ==> t.quality == 80)
            && (query.w matches Some(x) ==> 1 <= x <= 4096)
            && (query.h matches Some(y) ==> 1 <= y <= 4096)
            && (query.w matches Some(x) ==> (query.h matches Some(y) ==> x * y <= 16_000_000))
            && (query.fit is None ==> t.fit == ImageFit::Contain)
            && (opt_view(query.fit) == Some("cover"@) ==> t.fit == ImageFit::Cover)
            && (opt_view(query.fit) == Some("fill"@) ==> t.fit == ImageFit::Fill)
            && (query.format is None ==> t.format == ImageOutputFormat::WebP)
            && (opt_view(query.format) == Some("jpg"@) ==> t.format == ImageOutputFormat::Jpeg)
            && (opt_view(query.format) == Some("jpeg"@) ==> t.format == ImageOutputFormat::Jpeg)
            && (opt_view(query.format) == Some("png"@) ==> t.format == ImageOutputFormat::Png)),
        query.q matches Some(v) && (v < 40 || v > 95) ==> transform_of(query) is Err,
        query.w == Some(0u32) || query.h == Some(0u32) ==> transform_of(query) is Err,
        (query.w is None && query.h is None && query.fit is None && query.q is None && query.format is None)
            ==> transform_of(query) == Ok::<ImageTransform, Seq<char>>(ImageTransform {
                width: None, height: None, fit: ImageFit::Contain, quality: 80, format: ImageOutputFormat::WebP }),
{
    reveal_strlit("contain");
    reveal_strlit("cover");
    reveal_strlit("fill");
    reveal_strlit("webp");
    reveal_strlit("jpeg");
    reveal_strlit("jpg");
    reveal_strlit("png");
    assert("contain"@ != "cover"@ && "contain"@ != "fill"@ && "cover"@ != "fill"@) by {
        assert("contain"@[2] != "cover"@[2] && "contain"@[0] != "fill"@[0] && "cover"@[0] != "fill"@[0]);
    }
    assert("webp"@ != "jpeg"@ && "webp"@ != "jpg"@ && "webp"@ != "png"@ && "jpeg"@ != "png"@ && "jpg"@ != "png"@) by {
        assert("webp"@[0] != "jpeg"@[0] && "webp"@[0] != "png"@[0] && "jpeg"@[0] != "png"@[0]);
    }
    if let Ok(t) = transform_of(query) {
        if let Some(x) = query.w {
            if let Some(y) = query.h {
                assert(x * y <= 16_000_000);
            }
        }
    }
}

/// The view of an optional string.
pub open spec fn opt_view(value: Option<String>) -> Option<Seq<char>> {
    match value {
        Some(v) => Some(v@),
        None => None,
    }
}

fn fit_of(fit: &Option<String>) -> (r: Option<ImageFit>)
    ensures
        r == fit_named(opt_view(*fit)),
{
    let f: &str = match fit {
        Some(f) => f.as_str(),
        None => "contain",
    };
    if same_text(f, "contain") {
        Some(ImageFit::Contain)
    } else if same_text(f, "cover") {
        Some(ImageFit::Cover)
    } else if same_text(f, "fill") {
        Some(ImageFit::Fill)
    } else {
        None
    }
}

fn format_of(format: &Option<String>) -> (r: Option<ImageOutputFormat>)
    ensures
        r == format_named(opt_view(*format)),
{
    let f: &str = match format {
        Some(f) => f.as_str(),
        None => "webp",
    };
    if same_text(f, "webp") {
        Some(ImageOutputFormat::WebP)
    } else if same_text(f, "jpeg") || same_text(f, "jpg") {
        Some(ImageOutputFormat::Jpeg)
    } else if same_text(f, "png") {
        Some(ImageOutputFormat::Png)
    } else {
        None
    }
}

/// The transform of an image variant query.
pub fn parse_image_transform(query: &ContentQuery) -> (r: Result<ImageTransform, AppError>)
    ensures
        match transform_of(*query) {
            Ok(t) => r matches Ok(x) && x == t,
            Err(m) => r matches Err(e) && is_error(e.0, ErrorKind::BadRequest, "BAD_REQUEST"@, m),
        },
{
    let width = query.w;
    let height = query.h;
    let ww: u64 = match width { Some(x) => x as u64, None => 1 };
    let hh: u64 = match height { Some(y) => y as u64, None => 1 };
    let too_wide = match width { Some(x) => x == 0 || x > MAX_DIMENSION, None => false };
    let too_high = match height { Some(y) => y == 0 || y > MAX_DIMENSION, None => false };
    if too_wide || too_high {
        return Err(AppError::bad_request("图片尺寸超出允许范围"));
    }
    assert(ww <= 4096 && hh <= 4096);
    assert(ww * hh <= 4096 * 4096) by (nonlinear_arith)
        requires ww <= 4096, hh <= 4096;
    if ww * hh > MAX_PIXELS {
        return Err(AppError::bad_request("图片尺寸超出允许范围"));
    }
    let fit = match fit_of(&query.fit) {
        Some(f) => f,
        None => return Err(AppError::bad_request("fit 仅支持 contain、cover 或 fill")),
    };
    let quality = match query.q {
        Some(q) => q,
        None => 80,
    };
    if !(40 <= quality && quality <= 95) {
        return Err(AppError::bad_request("q 必须在 40 到 95 之间"));
    }
    let format = match format_of(&query.format) {
        Some(f) => f,
        None => return Err(AppError::bad_request("format 仅支持 webp、jpeg 或 png")),
    };
    Ok(ImageTransform { width, height, fit, quality, format })
}

/// An empty form field counts as absent.
pub fn non_empty(value: String) -> (r: Option<String>)
    ensures
        value@.len() == 0 ==> r is None,
        value@.len() > 0 ==> r == Some(value),
{
    if value.as_str().is_empty() {
        None
    } else {
        Some(value)
    }
}

/// A numeric form field: its value as a `u64`, or 0 when it is absent or not a number.
pub fn parse_number(value: Option<&str>) -> (r: u64)
    ensures
        r == (match opt_text(value) {
            Some(v) => match parsed_u64(v) { Some(n) => n, None => 0 },
            None => 0,
        }),
{
    match value {
        Some(v) => match parse_u64(v) {
            Some(n) => n,
            None => 0,
        },
        None => 0,
    }
}

/// A pixel-size form field: its value as a `u32`, or 0 when it is absent, not a number
/// or too large.
pub fn parse_dimension(value: Option<&str>) -> (r: u32)
    ensures
        r == (match opt_text(value) {
            Some(v) => match parsed_u64(v) { Some(n) => if n <= u32::MAX { n as u32 } else { 0 }, None => 0 },
            None => 0,
        }),
{
    match value {
        Some(v) => match parse_u64(v) {
            Some(n) => if n <= u32::MAX as u64 { n as u32 } else { 0 },
            None => 0,
        },
        None => 0,
    }
}

/// The name of an uploaded part, or `default` when the form gives none.
pub fn part_name(file_name: Option<&str>, default: &str) -> (r: String)
    ensures
        r@ == (match opt_text(file_name) { Some(n) => n, None => default@ }),
{
    match file_name {
        Some(n) => n.to_owned(),
        None => default.to_owned(),
    }
}

/// The 128-bit value of a UUID that `uuid::Uuid::parse_str` reads from a text (`None`
/// when it does not parse).
pub uninterp spec fn uuid_parsed(text: Seq<char>) -> Option<u128>;

/// `uuid::Uuid::parse_str`, as the UUID's 128-bit value.
#[verifier::external_body]
fn parse_uuid(text: &str) -> (r: Option<u128>)
    ensures
        r == uuid_parsed(text@),
{
    uuid::Uuid::parse_str(text).ok().map(|u| u.as_u128())
}

/// A file part of an upload form.
#[derive(Debug, Clone)]
pub struct UploadPart {
    pub bytes: Vec<u8>,
    pub name: String,
}

/// The checked fields of an image upload form: file, hash and upload id.
#[derive(Debug)]
pub struct ImageUploadForm {
    pub file: UploadPart,
    pub hash: String,
    pub upload_id: u128,
}

/// Checks an image upload form: the file and the hash are required, and the upload id
/// must parse as a UUID.
pub fn image_upload_form(file: Option<UploadPart>, hash: Option<String>, upload_id: Option<String>) -> (r: Result<ImageUploadForm, AppError>)
    ensures
        file is None ==> (r matches Err(e) && is_error(e.0, ErrorKind::BadRequest, "BAD_REQUEST"@, "缺少文件"@)),
        file is Some && hash is None ==> (r matches Err(e) && is_error(e.0, ErrorKind::BadRequest, "BAD_REQUEST"@, "缺少 hash"@)),
        file is Some && hash is Some ==> match (match upload_id { Some(u) => uuid_parsed(u@), None => None }) {
            Some(id) => r matches Ok(f) && f.file == file.unwrap() && f.hash == hash.unwrap() && f.upload_id == id,
            None => r matches Err(e) && is_error(e.0, ErrorKind::BadRequest, "ASSET_UPLOAD_ID_INVALID"@, "upload_id 无效"@),
        },
{
    let file = match file {
        Some(f) => f,
        None => return Err(AppError::bad_request("缺少文件")),
    };
    let hash = match hash {
        Some(h) => h,
        None => return Err(AppError::bad_request("缺少 hash")),
    };
    let id = match upload_id {
        Some(u) => parse_uuid(u.as_str()),
        None => None,
    };
    match id {
        Some(upload_id) => Ok(ImageUploadForm { file, hash, upload_id }),
        None => Err(AppError::new(400, "ASSET_UPLOAD_ID_INVALID", "upload_id 无效")),
    }
}

/// Checks a generic file upload form: the file and the hash are required.
pub fn file_upload_form(file: Option<UploadPart>, hash: Option<String>) -> (r: Result<(UploadPart, String), AppError>)
    ensures
        file is None ==> (r matches Err(e) && is_error(e.0, ErrorKind::BadRequest, "BAD_REQUEST"@, "缺少文件"@)),
        file is Some && hash is None ==> (r matches Err(e) && is_error(e.0, ErrorKind::BadRequest, "BAD_REQUEST"@, "缺少 hash"@)),
        file is Some && hash is Some ==> r == Ok::<(UploadPart, String), AppError>((file.unwrap(), hash.unwrap())),
{
    let file = match file {
        Some(f) => f,
        None => return Err(AppError::bad_request("缺少文件")),
    };
    match hash {
        Some(h) => Ok((file, h)),
        None => Err(AppError::bad_request("缺少 hash")),
    }
}

/// The checked parts of a video upload form.
#[derive(Debug)]
pub struct VideoUploadForm {
    pub video: UploadPart,
    pub thumbnail: Vec<u8>,
    pub hash: String,
}

/// Checks a video upload form: the video, its thumbnail and the hash are required, in
/// that order.
pub fn video_upload_form(video: Option<UploadPart>, thumbnail: Option<Vec<u8>>, hash: Option<String>) -> (r: Result<VideoUploadForm, AppError>)
    ensures
        video is None ==> (r matches Err(e) && is_error(e.0, ErrorKind::BadRequest, "BAD_REQUEST"@, "缺少视频文件"@)),
        video is Some && thumbnail is None ==> (r matches Err(e) && is_error(e.0, ErrorKind::BadRequest, "BAD_REQUEST"@, "缺少缩略图"@)),
        video is Some && thumbnail is Some && hash is None ==> (r matches Err(e) && is_error(e.0, ErrorKind::BadRequest, "BAD_REQUEST"@, "缺少 hash"@)),
        video is Some && thumbnail is Some && hash is Some ==> (r matches Ok(f) && f.video == video.unwrap()
            && f.thumbnail == thumbnail.unwrap() && f.hash == hash.unwrap()),
{
    let video = match video {
        Some(v) => v,
        None => return Err(AppError::bad_request("缺少视频文件")),
    };
    let thumbnail = match thumbnail {
        Some(t) => t,
        None => return Err(AppError::bad_request("缺少缩略图")),
    };
    match hash {
        Some(h) => Ok(VideoUploadForm { video, thumbnail, hash: h }),
        None => Err(AppError::bad_request("缺少 hash")),
    }
}

/// Answer to a hash check for a file the scope does not have yet.
pub fn not_uploaded_yet() -> (e: AppError)
    ensures
        is_error(e.0, ErrorKind::NotFound, "NOT_FOUND"@, "文件未上传过，可以上传"@),
{
    AppError::not_found("文件未上传过，可以上传")
}

/// The content type of a public image, from its file extension (in any ASCII case).
pub open spec fn public_mime_of(ext: Seq<char>) -> Option<Seq<char>> {
    if ext == "jpg"@ || ext == "jpeg"@ {
        Some("image/jpeg"@)
    } else if ext == "png"@ {
        Some("image/png"@)
    } else if ext == "gif"@ {
        Some("image/gif"@)
    } else if ext == "webp"@ {
        Some("image/webp"@)
    } else {
        None
    }
}

/// The lowercase extension of a path, empty without one.
pub open spec fn lower_extension(path: Seq<char>) -> Seq<char> {
    match extension_of(path) {
        Some(e) => ascii_lowered(e),
        None => Seq::empty(),
    }
}

/// The content type of a public image with the (lowercase) extension `ext`; other
/// extensions are refused.
pub fn public_mime(ext: &str) -> (r: Result<&'static str, AppError>)
    ensures
        match public_mime_of(ext@) {
            Some(m) => r matches Ok(x) && x@ == m,
            None => r matches Err(e) && is_error(e.0, ErrorKind::BadRequest, "BAD_REQUEST"@, "仅支持公开访问图片文件"@),
        },
{
    if same_text(ext, "jpg") || same_text(ext, "jpeg") {
        Ok("image/jpeg")
    } else if same_text(ext, "png") {
        Ok("image/png")
    } else if same_text(ext, "gif") {
        Ok("image/gif")
    } else if same_text(ext, "webp") {
        Ok("image/webp")
    } else {
        Err(AppError::bad_request("仅支持公开访问图片文件"))
    }
}

/// The content type of a public image file; other files are refused.
pub fn mime_from_path(path: &str) -> (r: Result<&'static str, AppError>)
    ensures
        match public_mime_of(lower_extension(path@)) {
            Some(m) => r matches Ok(x) && x@ == m,
            None => r matches Err(e) && is_error(e.0, ErrorKind::BadRequest, "BAD_REQUEST"@, "仅支持公开访问图片文件"@),
        },
{
    let ext = match path_extension(path) {
        Some(e) => ascii_lowercase(e.as_str()),
        None => String::new(),
    };
    public_mime(ext.as_str())
}

/// Whether `file` lies under `root`, both given as their path components (what
/// `Path::starts_with` compares).
pub open spec fn within_root(root: Seq<String>, file: Seq<String>) -> bool {
    root.len() <= file.len() && forall|i: int| 0 <= i < root.len() ==> #[trigger] root[i]@ == file[i]@
}

pub fn path_within_root(root: &Vec<String>, file: &Vec<String>) -> (r: bool)
    ensures
        r == within_root(root@, file@),
{
    if root.len() > file.len() {
        return false;
    }
    let n = root.len();
    for i in 0..n
        invariant
            n == root@.len(),
            n <= file@.len(),
            forall|k: int| 0 <= k < i ==> #[trigger] root@[k]@ == file@[k]@,
    {
        if !same_text(root[i].as_str(), file[i].as_str()) {
            return false;
        }
    }
    true
}

/// A public image outside the root, or one that cannot be read, is simply missing.
pub fn public_image_missing() -> (e: AppError)
    ensures
        is_error(e.0, ErrorKind::NotFound, "NOT_FOUND"@, "图片不存在"@),
{
    AppError::not_found("图片不存在")
}

/// A public image source must be a regular file of at most `max` bytes.
pub fn public_source_check(is_file: bool, len: u64, max: u64) -> (r: Result<(), AppError>)
    ensures
        r is Ok <==> (is_file && len <= max),
        r is Err ==> (r matches Err(e) && is_error(
            e.0,
            crate::error::status_kind(413),
            "IMAGE_SOURCE_TOO_LARGE"@,
            "图片源文件过大"@,
        )),
{
    if !is_file || len > max {
        return Err(AppError::new(413, "IMAGE_SOURCE_TOO_LARGE", "图片源文件过大"));
    }
    Ok(())
}

/// The cache policy of public images: cached for a year and never revalidated.
pub fn public_cache_control() -> (r: &'static str)
    ensures
        r@ == "public, max-age=31536000, immutable"@,
{
    "public, max-age=31536000, immutable"
}

// ---------------------------------------------------------------------------
// The order of a public image read.

/// A call a public image read asks the host to perform.
#[derive(Debug)]
pub enum PublicImageCall {
    /// Canonicalise the configured root directory; answer with its path components.
    CanonicalRoot,
    /// Canonicalise `root/original/{path}`; answer with its components and its text.
    CanonicalFile { path: String },
    /// Read the metadata of the canonical file: whether it is a regular file, and its length.
    Metadata,
    /// Read the canonical file.
    Read,
    /// `MetadataExtractor::transform_image` on the bytes that were read.
    Transform { bytes: Vec<u8>, transform: ImageTransform },
}

/// Outcome of a `PublicImageCall`.
#[derive(Debug)]
pub enum PublicImageReply {
    Root(Result<Vec<String>, String>),
    File(Option<(Vec<String>, String)>),
    Metadata(Option<(bool, u64)>),
    Read(Option<Vec<u8>>),
    Transformed(Result<TransformedImage, StorageError>),
}

/// Next step of a public image read: a call, or the bytes and their content type.
#[derive(Debug)]
pub enum PublicImageStep {
    Call(PublicImageCall),
    Finish(Result<(Vec<u8>, String), AppError>),
}

/// Where a public image read stands.
#[derive(Debug)]
pub enum PublicImagePhase {
    Root,
    File(Vec<String>),
    Metadata(String),
    Reading(String),
    Transforming,
    Finished,
}

/// A read of a public image under the configured root.
#[derive(Debug)]
pub struct PublicImageRead {
    pub path: String,
    pub query: ContentQuery,
    pub max_source_size: u64,
    pub phase: PublicImagePhase,
}

impl PublicImageRead {
    /// Whether `reply` answers the call the read is waiting for.
    pub open spec fn awaits(&self, reply: PublicImageReply) -> bool {
        match self.phase {
            PublicImagePhase::Root => reply is Root,
            PublicImagePhase::File(_) => reply is File,
            PublicImagePhase::Metadata(_) => reply is Metadata,
            PublicImagePhase::Reading(_) => reply is Read,
            PublicImagePhase::Transforming => reply is Transformed,
            PublicImagePhase::Finished => false,
        }
    }

    /// Starts a read of `original/{path}`: the root is resolved first.
    pub fn start(path: &str, query: ContentQuery, max_source_size: u64) -> (res: (PublicImageRead, PublicImageStep))
        ensures
            res.0.path@ == path@,
            res.0.query == query,
            res.0.max_source_size == max_source_size,
            res.0.phase is Root,
            res.1 matches PublicImageStep::Call(PublicImageCall::CanonicalRoot),
    {
        (PublicImageRead { path: path.to_owned(), query, max_source_size, phase: PublicImagePhase::Root },
            PublicImageStep::Call(PublicImageCall::CanonicalRoot))
    }

    /// What follows `old` when the host answers with `reply`. Nothing is read before the
    /// canonical file is known to lie under the canonical root and to be a regular file
    /// within the size limit; a missing or escaping file is `图片不存在`.
    pub open spec fn next(old: PublicImageRead, reply: PublicImageReply, new: PublicImageRead, step: PublicImageStep) -> bool {
        &&& new.path == old.path
        &&& new.query == old.query
        &&& new.max_source_size == old.max_source_size
        &&& match (old.phase, reply) {
            (PublicImagePhase::Root, PublicImageReply::Root(r)) => match r {
                Err(t) => new.phase is Finished
                    && (step matches PublicImageStep::Finish(Err(e)) && is_internal(e.0, t@, "public image root"@)),
                Ok(root) => new.phase == PublicImagePhase::File(root)
                    && (step matches PublicImageStep::Call(PublicImageCall::CanonicalFile { path }) && path == old.path),
            },
            (PublicImagePhase::File(root), PublicImageReply::File(f)) => match f {
                Some((file, text)) => if within_root(root@, file@) {
                    new.phase == PublicImagePhase::Metadata(text)
                        && (step matches PublicImageStep::Call(PublicImageCall::Metadata))
                } else {
                    new.phase is Finished && missing_image(step)
                },
                None => new.phase is Finished && missing_image(step),
            },
            (PublicImagePhase::Metadata(text), PublicImageReply::Metadata(m)) => match m {
                None => new.phase is Finished && missing_image(step),
                Some((is_file, len)) => if is_file && len <= old.max_source_size {
                    new.phase == PublicImagePhase::Reading(text)
                        && (step matches PublicImageStep::Call(PublicImageCall::Read))
                } else {
                    new.phase is Finished && (step matches PublicImageStep::Finish(Err(e))
                        && is_error(e.0, crate::error::status_kind(413), "IMAGE_SOURCE_TOO_LARGE"@, "图片源文件过大"@))
                },
            },
            (PublicImagePhase::Reading(text), PublicImageReply::Read(b)) => match b {
                None => new.phase is Finished && missing_image(step),
                Some(bytes) => if old.query.w is Some || old.query.h is Some {
                    match transform_of(old.query) {
                        Ok(t) => new.phase is Transforming
                            && (step matches PublicImageStep::Call(PublicImageCall::Transform { bytes: x, transform })
                            && x == bytes && transform == t),
                        Err(m) => new.phase is Finished && (step matches PublicImageStep::Finish(Err(e))
                            && is_error(e.0, ErrorKind::BadRequest, "BAD_REQUEST"@, m)),
                    }
                } else {
                    new.phase is Finished && match public_mime_of(lower_extension(text@)) {
                        Some(mime) => step matches PublicImageStep::Finish(Ok((x, y))) && x == bytes && y@ == mime,
                        None => step matches PublicImageStep::Finish(Err(e))
                            && is_error(e.0, ErrorKind::BadRequest, "BAD_REQUEST"@, "仅支持公开访问图片文件"@),
                    }
                },
            },
            (PublicImagePhase::Transforming, PublicImageReply::Transformed(t)) => new.phase is Finished && match t {
                Ok(img) => step matches PublicImageStep::Finish(Ok((x, y))) && x == img.bytes && y == img.mime_type,
                Err(se) => step matches PublicImageStep::Finish(Err(e)) && storage_err_describes(se, e.0),
            },
            _ => false,
        }
    }

    /// Advances the read with the host's answer to the pending call.
    pub fn step(self, reply: PublicImageReply) -> (res: (PublicImageRead, PublicImageStep))
        requires
            self.awaits(reply),
        ensures
            PublicImageRead::next(self, reply, res.0, res.1),
    {
        let PublicImageRead { path, query, max_source_size, phase } = self;
        match (phase, reply) {
            (PublicImagePhase::Root, PublicImageReply::Root(r)) => match r {
                Err(t) => (PublicImageRead { path, query, max_source_size, phase: PublicImagePhase::Finished },
                    PublicImageStep::Finish(Err(AppError::internal(t.as_str(), "public image root")))),
                Ok(root) => {
                    let call = PublicImageCall::CanonicalFile { path: path.clone() };
                    (PublicImageRead { path, query, max_source_size, phase: PublicImagePhase::File(root) }, PublicImageStep::Call(call))
                },
            },
            (PublicImagePhase::File(root), PublicImageReply::File(f)) => match f {
                Some((file, text)) => if path_within_root(&root, &file) {
                    (PublicImageRead { path, query, max_source_size, phase: PublicImagePhase::Metadata(text) },
                        PublicImageStep::Call(PublicImageCall::Metadata))
                } else {
                    (PublicImageRead { path, query, max_source_size, phase: PublicImagePhase::Finished },
                        PublicImageStep::Finish(Err(public_image_missing())))
                },
                None => (PublicImageRead { path, query, max_source_size, phase: PublicImagePhase::Finished },
                    PublicImageStep::Finish(Err(public_image_missing()))),
            },
            (PublicImagePhase::Metadata(text), PublicImageReply::Metadata(m)) => match m {
                None => (PublicImageRead { path, query, max_source_size, phase: PublicImagePhase::Finished },
                    PublicImageStep::Finish(Err(public_image_missing()))),
                Some((is_file, len)) => match public_source_check(is_file, len, max_source_size) {
                    Err(e) => (PublicImageRead { path, query, max_source_size, phase: PublicImagePhase::Finished },
                        PublicImageStep::Finish(Err(e))),
                    Ok(()) => (PublicImageRead { path, query, max_source_size, phase: PublicImagePhase::Reading(text) },
                        PublicImageStep::Call(PublicImageCall::Read)),
                },
            },
            (PublicImagePhase::Reading(text), PublicImageReply::Read(b)) => match b {
                None => (PublicImageRead { path, query, max_source_size, phase: PublicImagePhase::Finished },
                    PublicImageStep::Finish(Err(public_image_missing()))),
                Some(bytes) => if query.wants_transform() {
                    match parse_image_transform(&query) {
                        Ok(transform) => (PublicImageRead { path, query, max_source_size, phase: PublicImagePhase::Transforming },
                            PublicImageStep::Call(PublicImageCall::Transform { bytes, transform })),
                        Err(e) => (PublicImageRead { path, query, max_source_size, phase: PublicImagePhase::Finished },
                            PublicImageStep::Finish(Err(e))),
                    }
                } else {
                    let r = match mime_from_path(text.as_str()) {
                        Ok(mime) => Ok((bytes, mime.to_owned())),
                        Err(e) => Err(e),
                    };
                    (PublicImageRead { path, query, max_source_size, phase: PublicImagePhase::Finished }, PublicImageStep::Finish(r))
                },
            },
            (PublicImagePhase::Transforming, PublicImageReply::Transformed(t)) => {
                let r = match t {
                    Ok(img) => Ok((img.bytes, img.mime_type)),
                    Err(se) => Err(map_storage_err(se)),
                };
                (PublicImageRead { path, query, max_source_size, phase: PublicImagePhase::Finished }, PublicImageStep::Finish(r))
            },
            (phase, _) => {
                assert(false);
                (PublicImageRead { path, query, max_source_size, phase }, PublicImageStep::Finish(Err(public_image_missing())))
            },
        }
    }
}

/// `step` ends a read with `图片不存在`.
pub open spec fn missing_image(step: PublicImageStep) -> bool {
    step matches PublicImageStep::Finish(Err(e)) && is_error(e.0, ErrorKind::NotFound, "NOT_FOUND"@, "图片不存在"@)
}

} // verus!
