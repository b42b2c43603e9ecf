//! Video and generic file uploads: owner-scoped deduplication, size and type checks,
//! a quota pre-check, storing the bytes (and the client's video thumbnail), recording
//! the object, and consuming quota once the object is recorded.

use vstd::prelude::*;

use crate::storage::backend::StorageBackend;
use crate::storage::flow::{dedup_result, dedup_result_spec, Step, StorageCall, StorageReply};
use crate::storage::model::{
    content_path, content_path_of, thumbnail_path, thumbnail_path_of, NewStorageObject,
    QuotaSnapshot, StorageError, StorageObject, StorageServiceConfig, UploadResult, VideoMeta,
};
use crate::storage::naming::{year_month_shaped, 
    ext_of, ext_of_spec, is_audio_ext, mime_from_ext, mime_of_ext, new_uuid_v4, object_path,
    object_path_of, truncate_filename, truncated_name, utc_year_month, uuid_text_of,
};
use crate::text::{concat, same_text};

verus! {

/// What is being uploaded.
#[derive(Debug, Clone, Copy)]
pub enum MediaKind {
    /// A video, with the metadata the client extracted.
    Video(VideoMeta),
    /// Any other file.
    File,
}

/// Paths and types decided for a new video or file.
#[derive(Debug)]
pub struct MediaPlan {
    pub ext: String,
    pub date: String,
    pub uid: u128,
    pub main_rel: String,
    pub thumb_rel: Option<String>,
}

/// Where a video or file upload stands.
#[derive(Debug)]
pub enum MediaPhase {
    /// Looking the declared hash up within the scope.
    ByHash,
    /// A stored object matched; reading the current quota to report it.
    DedupQuota(StorageObject),
    /// Checking that the scope's quota admits the upload.
    Checking { ext: String },
    /// Storing the uploaded bytes.
    PuttingMain(MediaPlan),
    /// Storing the client's video thumbnail.
    PuttingThumb(MediaPlan),
    /// Recording the object.
    Inserting(MediaPlan),
    /// Consuming quota for the recorded object.
    Consuming(MediaPlan, StorageObject),
    /// Nothing more to do.
    Finished,
}

/// A video or file upload in progress.
#[derive(Debug)]
pub struct MediaUpload {
    pub kind: MediaKind,
    pub hash: String,
    pub filename: String,
    pub size: i64,
    pub max_size: u64,
    pub phase: MediaPhase,
}

/// Whether a video extension is accepted (`mp4`, `mov`, `avi`).
pub open spec fn is_video_ext(ext: Seq<char>) -> bool {
    ext == "mp4"@ || ext == "mov"@ || ext == "avi"@
}

/// Extension used when the uploaded name has none.
pub open spec fn default_ext(kind: MediaKind) -> Seq<char> {
    match kind {
        MediaKind::Video(_) => "mp4"@,
        MediaKind::File => "bin"@,
    }
}

/// MIME type recorded for an upload of extension `ext`.
pub open spec fn media_mime(kind: MediaKind, ext: Seq<char>) -> Seq<char> {
    match kind {
        MediaKind::Video(_) => "video/"@ + ext,
        MediaKind::File => mime_of_ext(ext),
    }
}

/// Category recorded for an upload of extension `ext`.
pub open spec fn media_category(kind: MediaKind, ext: Seq<char>) -> Seq<char> {
    match kind {
        MediaKind::Video(_) => "video"@,
        MediaKind::File => if is_audio_ext(ext) { "audio"@ } else { "file"@ },
    }
}

/// The plan for an upload of extension `ext`.
pub open spec fn media_plan_spec(p: MediaPlan, kind: MediaKind, ext: Seq<char>) -> bool {
    &&& p.ext@ == ext
    &&& year_month_shaped(p.date@)
    &&& match kind {
        MediaKind::Video(_) => {
            &&& p.main_rel@ == object_path_of("video"@, p.date@, p.uid, ext)
            &&& p.thumb_rel matches Some(t) && t@ == object_path_of("thumb"@, p.date@, p.uid, "jpg"@)
        },
        MediaKind::File => {
            &&& p.main_rel@ == object_path_of("file"@, p.date@, p.uid, ext)
            &&& p.thumb_rel is None
        },
    }
}

/// `obj` is the record of the new upload `u` with plan `p`.
pub open spec fn media_object_spec(obj: NewStorageObject, u: MediaUpload, p: MediaPlan) -> bool {
    &&& obj.hash == u.hash
    &&& obj.storage_path == p.main_rel
    &&& obj.size == u.size
    &&& obj.mime_type@ == media_mime(u.kind, p.ext@)
    &&& obj.mime_category@ == media_category(u.kind, p.ext@)
    &&& obj.thumb_path == p.thumb_rel
    &&& obj.original_name matches Some(n) && n@ == truncated_name(u.filename@, 255)
    &&& obj.upload_id is None
    &&& match u.kind {
        MediaKind::Video(m) => {
            &&& obj.width == Some(m.width as i32)
            &&& obj.height == Some(m.height as i32)
            &&& obj.duration_ms == Some(m.duration_ms as i64)
        },
        MediaKind::File => {
            &&& obj.width is None
            &&& obj.height is None
            &&& obj.duration_ms is None
        },
    }
}

/// `r` reports the freshly recorded upload `obj` of plan `p`.
pub open spec fn media_result_spec<B: StorageBackend>(
    r: UploadResult,
    u: MediaUpload,
    p: MediaPlan,
    obj: StorageObject,
    snap: QuotaSnapshot,
    backend: B,
) -> bool {
    &&& r.file_id == obj.id
    &&& r.content_path@ == content_path_of(obj.id)
    &&& r.url@ == backend.url_of(p.main_rel@)
    &&& r.size == u.size
    &&& !r.is_dedup
    &&& r.mime_type@ == media_mime(u.kind, p.ext@)
    &&& r.mime_category@ == media_category(u.kind, p.ext@)
    &&& r.original_name matches Some(n) && n@ == truncated_name(u.filename@, 255)
    &&& r.quota == snap
    &&& match u.kind {
        MediaKind::Video(m) => {
            &&& r.thumbnail_path matches Some(t) && t@ == thumbnail_path_of(obj.id)
            &&& p.thumb_rel matches Some(tr) && r.thumb_url matches Some(t) && t@ == backend.url_of(tr@)
            &&& r.width == Some(m.width as i32)
            &&& r.height == Some(m.height as i32)
            &&& r.duration_ms == Some(m.duration_ms as i64)
        },
        MediaKind::File => {
            &&& r.thumbnail_path is None
            &&& r.thumb_url is None
            &&& r.width is None
            &&& r.height is None
            &&& r.duration_ms is None
        },
    }
}

fn video_ext_ok(ext: &str) -> (res: bool)
    ensures
        res == is_video_ext(ext@),
{
    same_text(ext, "mp4") || same_text(ext, "mov") || same_text(ext, "avi")
}

fn audio_ext(ext: &str) -> (res: bool)
    ensures
        res == is_audio_ext(ext@),
{
    same_text(ext, "mp3") || same_text(ext, "wav") || same_text(ext, "aac") || same_text(ext, "ogg")
        || same_text(ext, "m4a")
}

impl MediaUpload {
    /// Well-formedness: the size is a byte count and every plan matches the upload kind.
    pub open spec fn wf(&self) -> bool {
        &&& self.size >= 0
        &&& match self.phase {
            MediaPhase::PuttingMain(p) | MediaPhase::PuttingThumb(p) | MediaPhase::Inserting(p)
            | MediaPhase::Consuming(p, _) => media_plan_spec(p, self.kind, p.ext@),
            _ => true,
        }
    }

    /// Whether `reply` answers the call this upload is waiting for.
    pub open spec fn awaits(&self, reply: StorageReply) -> bool {
        match self.phase {
            MediaPhase::ByHash => reply is Found,
            MediaPhase::DedupQuota(_) | MediaPhase::Checking { .. } | MediaPhase::Consuming(..) => reply is Quota,
            MediaPhase::PuttingMain(_) | MediaPhase::PuttingThumb(_) => reply is Written,
            MediaPhase::Inserting(_) => reply is Inserted,
            MediaPhase::Finished => false,
        }
    }

    /// Starts an upload of `size` bytes named `filename` with declared hash `hash`; the
    /// first step looks the hash up.
    pub fn start(config: &StorageServiceConfig, kind: MediaKind, size: usize, filename: &str, hash: &str) -> (res: (MediaUpload, Step<UploadResult>))
        requires
            size <= i64::MAX,
        ensures
            res.0.kind == kind,
            res.0.hash@ == hash@,
            res.0.filename@ == filename@,
            res.0.size == size,
            res.0.max_size == (match kind {
                MediaKind::Video(_) => config.max_video_size,
                MediaKind::File => config.max_file_size,
            }),
            res.0.phase is ByHash,
            res.0.wf(),
            res.1 matches Step::Call(StorageCall::FindByHash { hash: h }) && h == res.0.hash,
    {
        let max_size = match kind {
            MediaKind::Video(_) => config.max_video_size,
            MediaKind::File => config.max_file_size,
        };
        let u = MediaUpload {
            kind,
            hash: hash.to_owned(),
            filename: filename.to_owned(),
            size: size as i64,
            max_size,
            phase: MediaPhase::ByHash,
        };
        let h = u.hash.clone();
        (u, Step::Call(StorageCall::FindByHash { hash: h }))
    }

    /// What follows `old` when the host answers with `reply`.
    pub open spec fn next<B: StorageBackend>(old: MediaUpload, backend: B, reply: StorageReply, new: MediaUpload, step: Step<UploadResult>) -> bool {
        &&& new.kind == old.kind
        &&& new.hash == old.hash
        &&& new.filename == old.filename
        &&& new.size == old.size
        &&& new.max_size == old.max_size
        &&& match (old.phase, reply) {
            (MediaPhase::ByHash, StorageReply::Found(found)) => match found {
                Err(e) => new.phase is Finished && step == Step::<UploadResult>::Finish(Err(e), None),
                Ok(Some(f)) => new.phase == MediaPhase::DedupQuota(f) && step == Step::<UploadResult>::Call(StorageCall::QuotaCurrent),
                Ok(None) => {
                    let ext = ext_of_spec(old.filename@, default_ext(old.kind));
                    if old.size as u64 > old.max_size {
                        new.phase is Finished && step == Step::<UploadResult>::Finish(
                            Err(StorageError::FileTooLarge { size: old.size as u64, max: old.max_size }), None)
                    } else if old.kind is Video && !is_video_ext(ext) {
                        &&& new.phase is Finished
                        &&& step matches Step::Finish(Err(StorageError::UnsupportedType(t)), None)
                        &&& t@ == ext
                    } else {
                        &&& new.phase matches MediaPhase::Checking { ext: e }
                        &&& e@ == ext
                        &&& step == Step::<UploadResult>::Call(StorageCall::QuotaCheck { size: old.size })
                    }
                },
            },
            (MediaPhase::DedupQuota(f), StorageReply::Quota(q)) => new.phase is Finished && (match q {
                Err(e) => step == Step::<UploadResult>::Finish(Err(e), None),
                Ok(q) => step matches Step::Finish(Ok(r), None) && dedup_result_spec(r, f, backend, q),
            }),
            (MediaPhase::Checking { ext }, StorageReply::Quota(q)) => match q {
                Err(e) => new.phase is Finished && step == Step::<UploadResult>::Finish(Err(e), None),
                Ok(_) => {
                    &&& new.phase matches MediaPhase::PuttingMain(p)
                    &&& media_plan_spec(p, old.kind, ext@)
                    &&& step == Step::<UploadResult>::Call(StorageCall::PutUpload { path: p.main_rel })
                },
            },
            (MediaPhase::PuttingMain(p), StorageReply::Written(w)) => match w {
                Err(msg) => new.phase is Finished && step == Step::<UploadResult>::Finish(Err(StorageError::Io(msg)), None),
                Ok(()) => match p.thumb_rel {
                    Some(t) => new.phase == MediaPhase::PuttingThumb(p)
                        && step == Step::<UploadResult>::Call(StorageCall::PutClientThumbnail { path: t }),
                    None => {
                        &&& new.phase == MediaPhase::Inserting(p)
                        &&& step matches Step::Call(StorageCall::Insert { object })
                        &&& media_object_spec(object, old, p)
                    },
                },
            },
            (MediaPhase::PuttingThumb(p), StorageReply::Written(w)) => match w {
                Err(msg) => new.phase is Finished && step == Step::<UploadResult>::Finish(Err(StorageError::Io(msg)), None),
                Ok(()) => {
                    &&& new.phase == MediaPhase::Inserting(p)
                    &&& step matches Step::Call(StorageCall::Insert { object })
                    &&& media_object_spec(object, old, p)
                },
            },
            (MediaPhase::Inserting(p), StorageReply::Inserted(ins)) => match ins {
                Err(e) => new.phase is Finished && step == Step::<UploadResult>::Finish(Err(e), None),
                Ok(obj) => new.phase == MediaPhase::Consuming(p, obj)
                    && step == Step::<UploadResult>::Call(StorageCall::QuotaConsume { size: old.size }),
            },
            (MediaPhase::Consuming(p, obj), StorageReply::Quota(q)) => new.phase is Finished && (match q {
                Err(e) => step == Step::<UploadResult>::Finish(Err(e), None),
                Ok(s) => {
                    &&& step matches Step::Finish(Ok(r), Some(n))
                    &&& n == s
                    &&& media_result_spec(r, old, p, obj, s, backend)
                },
            }),
            _ => false,
        }
    }

    fn record(&self, p: &MediaPlan) -> (obj: NewStorageObject)
        requires
            media_plan_spec(*p, self.kind, p.ext@),
        ensures
            media_object_spec(obj, *self, *p),
    {
        let (width, height, duration_ms) = match self.kind {
            MediaKind::Video(m) => (Some(m.width as i32), Some(m.height as i32), Some(m.duration_ms as i64)),
            MediaKind::File => (None, None, None),
        };
        NewStorageObject {
            hash: self.hash.clone(),
            storage_path: p.main_rel.clone(),
            size: self.size,
            mime_type: self.mime(p.ext.as_str()),
            mime_category: self.category(p.ext.as_str()),
            width,
            height,
            duration_ms,
            thumb_path: match &p.thumb_rel {
                Some(t) => Some(t.clone()),
                None => None,
            },
            original_name: Some(truncate_filename(self.filename.as_str(), 255)),
            upload_id: None,
        }
    }

    fn mime(&self, ext: &str) -> (m: String)
        ensures
            m@ == media_mime(self.kind, ext@),
    {
        match self.kind {
            MediaKind::Video(_) => concat("video/", ext),
            MediaKind::File => mime_from_ext(ext),
        }
    }

    fn category(&self, ext: &str) -> (c: String)
        ensures
            c@ == media_category(self.kind, ext@),
    {
        match self.kind {
            MediaKind::Video(_) => "video".to_owned(),
            MediaKind::File => if audio_ext(ext) {
                "audio".to_owned()
            } else {
                "file".to_owned()
            },
        }
    }

    /// Advances the upload with the host's answer to the pending call.
    pub fn step<B: StorageBackend>(self, backend: &B, reply: StorageReply) -> (res: (MediaUpload, Step<UploadResult>))
        requires
            self.wf(),
            self.awaits(reply),
        ensures
            MediaUpload::next(self, *backend, reply, res.0, res.1),
            res.0.wf(),
    {
        let mut u = self;
        let mut phase = MediaPhase::Finished;
        std::mem::swap(&mut phase, &mut u.phase);
        match phase {
            MediaPhase::ByHash => match reply {
                StorageReply::Found(Err(e)) => (u, Step::Finish(Err(e), None)),
                StorageReply::Found(Ok(Some(f))) => {
                    u.phase = MediaPhase::DedupQuota(f);
                    (u, Step::Call(StorageCall::QuotaCurrent))
                },
                StorageReply::Found(Ok(None)) => {
                    if u.size as u64 > u.max_size {
                        let err = StorageError::FileTooLarge { size: u.size as u64, max: u.max_size };
                        return (u, Step::Finish(Err(err), None));
                    }
                    let ext = match u.kind {
                        MediaKind::Video(_) => ext_of(u.filename.as_str(), "mp4"),
                        MediaKind::File => ext_of(u.filename.as_str(), "bin"),
                    };
                    let is_video = match u.kind {
                        MediaKind::Video(_) => true,
                        MediaKind::File => false,
                    };
                    if is_video && !video_ext_ok(ext.as_str()) {
                        return (u, Step::Finish(Err(StorageError::UnsupportedType(ext)), None));
                    }
                    u.phase = MediaPhase::Checking { ext };
                    let size = u.size;
                    (u, Step::Call(StorageCall::QuotaCheck { size }))
                },
                _ => {
                    assert(false);
                    (u, Step::Finish(Err(StorageError::NotFound), None))
                },
            },
            MediaPhase::DedupQuota(f) => match reply {
                StorageReply::Quota(Err(e)) => (u, Step::Finish(Err(e), None)),
                StorageReply::Quota(Ok(q)) => {
                    let r = dedup_result(f, backend, q);
                    (u, Step::Finish(Ok(r), None))
                },
                _ => {
                    assert(false);
                    (u, Step::Finish(Err(StorageError::NotFound), None))
                },
            },
            MediaPhase::Checking { ext } => match reply {
                StorageReply::Quota(Err(e)) => (u, Step::Finish(Err(e), None)),
                StorageReply::Quota(Ok(_)) => {
                    let date = utc_year_month();
                    let uid = new_uuid_v4();
                    let (main_rel, thumb_rel) = match u.kind {
                        MediaKind::Video(_) => (
                            object_path("video", date.as_str(), uid, ext.as_str()),
                            Some(object_path("thumb", date.as_str(), uid, "jpg")),
                        ),
                        MediaKind::File => (object_path("file", date.as_str(), uid, ext.as_str()), None),
                    };
                    let path = main_rel.clone();
                    u.phase = MediaPhase::PuttingMain(MediaPlan { ext, date, uid, main_rel, thumb_rel });
                    (u, Step::Call(StorageCall::PutUpload { path }))
                },
                _ => {
                    assert(false);
                    (u, Step::Finish(Err(StorageError::NotFound), None))
                },
            },
            MediaPhase::PuttingMain(p) => match reply {
                StorageReply::Written(Err(msg)) => (u, Step::Finish(Err(StorageError::Io(msg)), None)),
                StorageReply::Written(Ok(())) => match &p.thumb_rel {
                    Some(t) => {
                        let path = t.clone();
                        u.phase = MediaPhase::PuttingThumb(p);
                        (u, Step::Call(StorageCall::PutClientThumbnail { path }))
                    },
                    None => {
                        let object = u.record(&p);
                        u.phase = MediaPhase::Inserting(p);
                        (u, Step::Call(StorageCall::Insert { object }))
                    },
                },
                _ => {
                    assert(false);
                    (u, Step::Finish(Err(StorageError::NotFound), None))
                },
            },
            MediaPhase::PuttingThumb(p) => match reply {
                StorageReply::Written(Err(msg)) => (u, Step::Finish(Err(StorageError::Io(msg)), None)),
                StorageReply::Written(Ok(())) => {
                    let object = u.record(&p);
                    u.phase = MediaPhase::Inserting(p);
                    (u, Step::Call(StorageCall::Insert { object }))
                },
                _ => {
                    assert(false);
                    (u, Step::Finish(Err(StorageError::NotFound), None))
                },
            },
            MediaPhase::Inserting(p) => match reply {
                StorageReply::Inserted(Err(e)) => (u, Step::Finish(Err(e), None)),
                StorageReply::Inserted(Ok(obj)) => {
                    u.phase = MediaPhase::Consuming(p, obj);
                    let size = u.size;
                    (u, Step::Call(StorageCall::QuotaConsume { size }))
                },
                _ => {
                    assert(false);
                    (u, Step::Finish(Err(StorageError::NotFound), None))
                },
            },
            MediaPhase::Consuming(p, obj) => match reply {
                StorageReply::Quota(Err(e)) => (u, Step::Finish(Err(e), None)),
                StorageReply::Quota(Ok(s)) => {
                    let (thumbnail_path_v, thumb_url, width, height, duration_ms) = match u.kind {
                        MediaKind::Video(m) => {
                            let tu = match &p.thumb_rel {
                                Some(t) => Some(backend.url_for(t.as_str())),
                                None => None,
                            };
                            (Some(thumbnail_path(obj.id)), tu, Some(m.width as i32), Some(m.height as i32), Some(m.duration_ms as i64))
                        },
                        MediaKind::File => (None, None, None, None, None),
                    };
                    let r = UploadResult {
                        file_id: obj.id,
                        content_path: content_path(obj.id),
                        thumbnail_path: thumbnail_path_v,
                        url: backend.url_for(p.main_rel.as_str()),
                        thumb_url,
                        size: u.size,
                        is_dedup: false,
                        mime_type: u.mime(p.ext.as_str()),
                        mime_category: u.category(p.ext.as_str()),
                        width,
                        height,
                        duration_ms,
                        original_name: Some(truncate_filename(u.filename.as_str(), 255)),
                        quota: s,
                    };
                    (u, Step::Finish(Ok(r), Some(s)))
                },
                _ => {
                    assert(false);
                    (u, Step::Finish(Err(StorageError::NotFound), None))
                },
            },
            MediaPhase::Finished => {
                assert(false);
                (u, Step::Finish(Err(StorageError::NotFound), None))
            },
        }
    }
}

/// A video or file upload consumes quota only after its object is recorded, consumes
/// exactly the uploaded size, and never needs to give quota back: no step before the
/// recording reserves any, and a failure after it does not consume.
pub proof fn law_media_consumes_after_recording<B: StorageBackend>(
    old: MediaUpload,
    backend: B,
    reply: StorageReply,
    new: MediaUpload,
    step: Step<UploadResult>,
)
    requires
        old.wf(),
        old.awaits(reply),
        MediaUpload::next(old, backend, reply, new, step),
    ensures
        step matches Step::Call(StorageCall::QuotaConsume { size }) ==> size == old.size && old.phase is Inserting,
        !(step matches Step::Call(StorageCall::QuotaRelease { .. })),
        step matches Step::Call(StorageCall::Insert { .. }) ==> old.phase is PuttingMain || old.phase is PuttingThumb,
        step matches Step::Call(StorageCall::PutUpload { .. }) ==> old.phase is Checking,
{
}

/// A deduplicated video or file is reported with `is_dedup` and no quota notification;
/// a new one carries, and notifies, the snapshot of its own consumption.
pub proof fn law_media_dedup_and_notify<B: StorageBackend>(
    old: MediaUpload,
    backend: B,
    reply: StorageReply,
    new: MediaUpload,
    step: Step<UploadResult>,
)
    requires
        old.wf(),
        old.awaits(reply),
        MediaUpload::next(old, backend, reply, new, step),
    ensures
        old.phase is DedupQuota ==> step matches Step::Finish(_, None),
        step matches Step::Finish(Ok(r), None) ==> r.is_dedup,
        step matches Step::Finish(Ok(r), Some(n)) ==> !r.is_dedup && r.quota == n && r.size == old.size,
{
}

/// The bytes of a file or video go where its record points: the uploaded data is written
/// to the main path, a client thumbnail to the thumbnail path, and the recorded object
/// names exactly the paths of the plan that wrote them.
pub proof fn law_media_written_where_recorded<B: StorageBackend>(
    old: MediaUpload,
    backend: B,
    reply: StorageReply,
    new: MediaUpload,
    step: Step<UploadResult>,
)
    requires
        old.awaits(reply),
        MediaUpload::next(old, backend, reply, new, step),
    ensures
        step matches Step::Call(StorageCall::PutUpload { path }) ==> (new.phase matches MediaPhase::PuttingMain(p)
            && path == p.main_rel),
        step matches Step::Call(StorageCall::PutClientThumbnail { path }) ==> (old.phase matches MediaPhase::PuttingMain(p)
            && p.thumb_rel == Some(path) && new.phase == MediaPhase::PuttingThumb(p)),
        step matches Step::Call(StorageCall::Insert { object }) ==> ((old.phase matches MediaPhase::PuttingMain(p)
            && object.storage_path == p.main_rel && object.thumb_path == p.thumb_rel)
            || (old.phase matches MediaPhase::PuttingThumb(p)
            && object.storage_path == p.main_rel && object.thumb_path == p.thumb_rel)),
{
}

/// Once no stored object matched and the size is within the limit, a video upload goes
/// by its lowercased extension: `mp4`, `mov` and `avi` proceed to the quota check for
/// the uploaded size, and any other extension ends the upload as an unsupported type
/// naming it.
pub proof fn law_video_extension_decides<B: StorageBackend>(
    old: MediaUpload,
    backend: B,
    new: MediaUpload,
    step: Step<UploadResult>,
)
    requires
        old.phase is ByHash,
        old.kind is Video,
        old.size as u64 <= old.max_size,
        MediaUpload::next(old, backend, StorageReply::Found(Ok(None)), new, step),
    ensures
        ({
            let ext = ext_of_spec(old.filename@, "mp4"@);
            &&& (ext == "mp4"@ || ext == "mov"@ || ext == "avi"@) ==> (new.phase matches MediaPhase::Checking { ext: e }
                && e@ == ext && step == Step::<UploadResult>::Call(StorageCall::QuotaCheck { size: old.size }))
            &&& (ext != "mp4"@ && ext != "mov"@ && ext != "avi"@) ==> (new.phase is Finished
                && (step matches Step::Finish(Err(StorageError::UnsupportedType(t)), None) && t@ == ext))
        }),
{
}

/// Once the quota admits an upload, its bytes go to `video/{date}/{uuid}.{ext}` with the
/// client's thumbnail at `thumb/{date}/{uuid}.jpg` for a video, and to
/// `file/{date}/{uuid}.{ext}` with no thumbnail for any other file, under the extension
/// that was checked.
pub proof fn law_media_storage_paths<B: StorageBackend>(
    old: MediaUpload,
    backend: B,
    q: QuotaSnapshot,
    new: MediaUpload,
    step: Step<UploadResult>,
)
    requires
        old.phase is Checking,
        MediaUpload::next(old, backend, StorageReply::Quota(Ok(q)), new, step),
    ensures
        new.phase matches MediaPhase::PuttingMain(p) && step == Step::<UploadResult>::Call(StorageCall::PutUpload { path: p.main_rel })
            && (old.phase matches MediaPhase::Checking { ext } && p.ext@ == ext@)
            && (old.kind is Video ==> (p.main_rel@ == "video/"@ + p.date@ + "/"@ + uuid_text_of(p.uid) + "."@ + p.ext@
                && (p.thumb_rel matches Some(t) && t@ == "thumb/"@ + p.date@ + "/"@ + uuid_text_of(p.uid) + ".jpg"@)))
            && (old.kind is File ==> (p.main_rel@ == "file/"@ + p.date@ + "/"@ + uuid_text_of(p.uid) + "."@ + p.ext@
                && p.thumb_rel is None)),
{
    reveal_strlit("/");
    reveal_strlit(".");
    reveal_strlit("video");
    reveal_strlit("video/");
    reveal_strlit("thumb");
    reveal_strlit("thumb/");
    reveal_strlit("jpg");
    reveal_strlit(".jpg");
    reveal_strlit("file");
    reveal_strlit("file/");
    let p = new.phase->PuttingMain_0;
    let mid = p.date@ + "/"@ + uuid_text_of(p.uid);
    assert(object_path_of("video"@, p.date@, p.uid, p.ext@) =~= "video/"@ + p.date@ + "/"@ + uuid_text_of(p.uid) + "."@ + p.ext@);
    assert(object_path_of("file"@, p.date@, p.uid, p.ext@) =~= "file/"@ + p.date@ + "/"@ + uuid_text_of(p.uid) + "."@ + p.ext@);
    assert(object_path_of("thumb"@, p.date@, p.uid, "jpg"@) =~= "thumb/"@ + p.date@ + "/"@ + uuid_text_of(p.uid) + ".jpg"@);
}

/// The record of a new upload names the stored bytes and types them: a video as
/// `video/{ext}` in category `video`; any other file in category `audio` exactly when its
/// extension is `mp3`, `wav`, `aac`, `ogg` or `m4a`, and in category `file` otherwise.
pub proof fn law_media_record_types<B: StorageBackend>(
    old: MediaUpload,
    backend: B,
    reply: StorageReply,
    new: MediaUpload,
    step: Step<UploadResult>,
    p: MediaPlan,
)
    requires
        old.phase == MediaPhase::PuttingMain(p) || old.phase == MediaPhase::PuttingThumb(p),
        MediaUpload::next(old, backend, reply, new, step),
    ensures
        step matches Step::Call(StorageCall::Insert { object }) ==> (object.storage_path == p.main_rel
            && object.thumb_path == p.thumb_rel && object.size == old.size && object.hash == old.hash
            && (old.kind is Video ==> (object.mime_type@ == "video/"@ + p.ext@ && object.mime_category@ == "video"@))
            && (old.kind is File ==> ((object.mime_category@ == "audio"@ <==> (p.ext@ == "mp3"@ || p.ext@ == "wav"@
                || p.ext@ == "aac"@ || p.ext@ == "ogg"@ || p.ext@ == "m4a"@))
                && (object.mime_category@ == "audio"@ || object.mime_category@ == "file"@)))),
{
    reveal_strlit("audio");
    reveal_strlit("file");
    assert("file"@ != "audio"@) by {
        assert("file"@.len() != "audio"@.len());
    }
}

} // verus!
