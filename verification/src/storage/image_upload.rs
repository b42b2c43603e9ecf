//! Image upload: idempotent retry, owner-scoped deduplication, size and
//! type checks, thumbnail extraction, quota reservation, storing the original and the
//! thumbnail, and recording the object, with cleanup when a later step fails.

use vstd::prelude::*;

use crate::storage::backend::StorageBackend;
use crate::storage::flow::{dedup_result, dedup_result_spec, Step, StorageCall, StorageReply};
use crate::storage::model::{
    content_path, content_path_of, thumbnail_path, thumbnail_path_of, ImageMetadata,
    NewStorageObject, QuotaSnapshot, StorageError, StorageObject, StorageServiceConfig,
    UploadResult,
};
use crate::storage::naming::{year_month_shaped, 
    ext_of, ext_of_spec, new_uuid_v4, object_path, object_path_of, truncate_filename,
    truncated_name, utc_year_month, uuid_text_of,
};
use crate::text::{concat, same_text};

verus! {

/// Everything decided about a new image once its metadata is known.
#[derive(Debug)]
pub struct ImagePlan {
    /// Normalised format name (`jpg`, `png`, `gif` or `webp`).
    pub format: String,
    pub date: String,
    pub uid: u128,
    pub original_rel: String,
    pub thumb_rel: String,
    pub width: u32,
    pub height: u32,
    /// The extracted thumbnail, until it has been handed to the backend.
    pub thumb: Option<Vec<u8>>,
}

/// Where an image upload stands.
#[derive(Debug)]
pub enum ImagePhase {
    /// Looking the client's upload id up.
    ByUploadId,
    /// Looking the declared hash up within the scope.
    ByHash,
    /// A stored object matched; reading the current quota to report it.
    DedupQuota(StorageObject),
    /// Extracting dimensions and a thumbnail.
    Extracting { ext: String, format: String },
    /// Reserving quota for the new object.
    Consuming(ImagePlan),
    /// Storing the original.
    PuttingOriginal(ImagePlan, QuotaSnapshot),
    /// Storing the thumbnail.
    PuttingThumb(ImagePlan, QuotaSnapshot),
    /// The thumbnail could not be stored; removing the stored original.
    DroppingOriginal(String),
    /// A store failed; returning the reserved quota.
    Releasing(String),
    /// Recording the object.
    Inserting(ImagePlan, QuotaSnapshot),
    /// Recording failed; removing the stored original.
    CleanupOriginal(ImagePlan, StorageError),
    /// Recording failed; removing the stored thumbnail.
    CleanupThumb(StorageError),
    /// Recording failed; returning the reserved quota.
    CleanupRelease(StorageError),
    /// Recording failed; looking for an object that a concurrent upload recorded.
    Refinding(StorageError),
    /// Nothing more to do.
    Finished,
}

/// An image upload in progress.
#[derive(Debug)]
pub struct ImageUpload {
    pub hash: String,
    pub filename: String,
    /// Number of uploaded bytes.
    pub size: i64,
    pub upload_id: u128,
    pub max_size: u64,
    pub phase: ImagePhase,
}

/// Normalised name of a supported image extension.
pub open spec fn image_format_of(ext: Seq<char>) -> Option<Seq<char>> {
    if ext == "jpg"@ || ext == "jpeg"@ {
        Some("jpg"@)
    } else if ext == "png"@ {
        Some("png"@)
    } else if ext == "gif"@ {
        Some("gif"@)
    } else if ext == "webp"@ {
        Some("webp"@)
    } else {
        None
    }
}

fn image_format(ext: &str) -> (res: Option<String>)
    ensures
        res matches Some(f) ==> image_format_of(ext@) == Some(f@),
        res is None ==> image_format_of(ext@) is None,
{
    if same_text(ext, "jpg") || same_text(ext, "jpeg") {
        Some("jpg".to_owned())
    } else if same_text(ext, "png") {
        Some("png".to_owned())
    } else if same_text(ext, "gif") {
        Some("gif".to_owned())
    } else if same_text(ext, "webp") {
        Some("webp".to_owned())
    } else {
        None
    }
}

/// `obj` is the record of a new image with plan `p`.
pub open spec fn image_object_spec(obj: NewStorageObject, u: ImageUpload, p: ImagePlan) -> bool {
    &&& obj.hash == u.hash
    &&& obj.storage_path == p.original_rel
    &&& obj.size == u.size
    &&& obj.mime_type@ == "image/"@ + p.format@
    &&& obj.mime_category@ == "image"@
    &&& obj.width == Some(p.width as i32)
    &&& obj.height == Some(p.height as i32)
    &&& obj.duration_ms is None
    &&& obj.thumb_path == Some(p.thumb_rel)
    &&& obj.original_name matches Some(n) && n@ == truncated_name(u.filename@, 255)
    &&& obj.upload_id == Some(u.upload_id)
}

/// `r` reports the freshly recorded image `obj` of plan `p`.
pub open spec fn image_result_spec<B: StorageBackend>(
    r: UploadResult,
    u: ImageUpload,
    p: ImagePlan,
    obj: StorageObject,
    snap: QuotaSnapshot,
    backend: B,
) -> bool {
    &&& r.file_id == obj.id
    &&& r.content_path@ == content_path_of(obj.id)
    &&& r.thumbnail_path matches Some(t) && t@ == thumbnail_path_of(obj.id)
    &&& r.url@ == backend.url_of(p.original_rel@)
    &&& r.thumb_url matches Some(t) && t@ == backend.url_of(p.thumb_rel@)
    &&& r.size == u.size
    &&& !r.is_dedup
    &&& r.mime_type@ == "image/"@ + p.format@
    &&& r.mime_category@ == "image"@
    &&& r.width == Some(p.width as i32)
    &&& r.height == Some(p.height as i32)
    &&& r.duration_ms is None
    &&& r.original_name matches Some(n) && n@ == truncated_name(u.filename@, 255)
    &&& r.quota == snap
}

/// The plan for an image of extension `ext` and format `format` with metadata `meta`.
pub open spec fn image_plan_spec(p: ImagePlan, ext: Seq<char>, format: Seq<char>, meta: ImageMetadata) -> bool {
    &&& p.format@ == format
    &&& year_month_shaped(p.date@)
    &&& p.original_rel@ == object_path_of("original"@, p.date@, p.uid, ext)
    &&& p.thumb_rel@ == object_path_of("thumb"@, p.date@, p.uid, meta.thumb_ext@)
    &&& p.width == meta.width
    &&& p.height == meta.height
    &&& p.thumb == Some(meta.thumb)
}

impl ImageUpload {
    /// Whether `reply` answers the call this upload is waiting for.
    pub open spec fn awaits(&self, reply: StorageReply) -> bool {
        match self.phase {
            ImagePhase::ByUploadId | ImagePhase::ByHash | ImagePhase::Refinding(_) => reply is Found,
            ImagePhase::DedupQuota(_) | ImagePhase::Consuming(_) | ImagePhase::Releasing(_)
            | ImagePhase::CleanupRelease(_) => reply is Quota,
            ImagePhase::Extracting { .. } => reply is Extracted,
            ImagePhase::PuttingOriginal(..) | ImagePhase::PuttingThumb(..)
            | ImagePhase::DroppingOriginal(_) | ImagePhase::CleanupOriginal(..)
            | ImagePhase::CleanupThumb(_) => reply is Written,
            ImagePhase::Inserting(..) => reply is Inserted,
            ImagePhase::Finished => false,
        }
    }

    /// Whether the upload holds quota that it reserved and has not yet returned or kept.
    pub open spec fn holds_reservation(&self) -> bool {
        self.phase is PuttingOriginal || self.phase is PuttingThumb || self.phase is Inserting
            || self.phase is DroppingOriginal || self.phase is CleanupOriginal
            || self.phase is CleanupThumb
    }

    /// Starts an upload of `data` named `filename`, deduplicated under the client's key
    /// `hash` and with the client's idempotency key `upload_id`. The hash is an opaque
    /// key: it is not checked against the data. The first step looks the upload id up.
    pub fn start(config: &StorageServiceConfig, data: &[u8], filename: &str, hash: &str, upload_id: u128) -> (res: (ImageUpload, Step<UploadResult>))
        requires
            data@.len() <= i64::MAX,
        ensures
            res.0.hash@ == hash@,
            res.0.filename@ == filename@,
            res.0.size == data@.len(),
            res.0.upload_id == upload_id,
            res.0.max_size == config.max_image_size,
            res.0.phase is ByUploadId,
            res.1 == Step::<UploadResult>::Call(StorageCall::FindByUploadId { upload_id }),
    {
        let u = ImageUpload {
            hash: hash.to_owned(),
            filename: filename.to_owned(),
            size: data.len() as i64,
            upload_id,
            max_size: config.max_image_size,
            phase: ImagePhase::ByUploadId,
        };
        (u, Step::Call(StorageCall::FindByUploadId { upload_id }))
    }

    /// Starts an upload that carries no idempotency key of the client's: a fresh random
    /// one stands in for it.
    pub fn start_fresh(config: &StorageServiceConfig, data: &[u8], filename: &str, hash: &str) -> (res: (ImageUpload, Step<UploadResult>))
        requires
            data@.len() <= i64::MAX,
        ensures
            res.0.hash@ == hash@,
            res.0.filename@ == filename@,
            res.0.size == data@.len(),
            res.0.max_size == config.max_image_size,
            res.0.phase is ByUploadId,
            res.1 == Step::<UploadResult>::Call(StorageCall::FindByUploadId { upload_id: res.0.upload_id }),
    {
        let upload_id = new_uuid_v4();
        Self::start(config, data, filename, hash, upload_id)
    }

    /// What follows `old` when the host answers with `reply`.
    pub open spec fn next<B: StorageBackend>(old: ImageUpload, backend: B, reply: StorageReply, new: ImageUpload, step: Step<UploadResult>) -> bool {
        &&& new.hash == old.hash
        &&& new.filename == old.filename
        &&& new.size == old.size
        &&& new.upload_id == old.upload_id
        &&& new.max_size == old.max_size
        &&& match (old.phase, reply) {
            (ImagePhase::ByUploadId, StorageReply::Found(found)) => match found {
                Err(e) => new.phase is Finished && step == Step::<UploadResult>::Finish(Err(e), None),
                Ok(Some(f)) => new.phase == ImagePhase::DedupQuota(f) && step == Step::<UploadResult>::Call(StorageCall::QuotaCurrent),
                Ok(None) => new.phase is ByHash && step == Step::<UploadResult>::Call(StorageCall::FindByHash { hash: old.hash }),
            },
            (ImagePhase::ByHash, StorageReply::Found(found)) => match found {
                Err(e) => new.phase is Finished && step == Step::<UploadResult>::Finish(Err(e), None),
                Ok(Some(f)) => new.phase == ImagePhase::DedupQuota(f) && step == Step::<UploadResult>::Call(StorageCall::QuotaCurrent),
                Ok(None) => {
                    let ext = ext_of_spec(old.filename@, "jpg"@);
                    if old.size as u64 > old.max_size {
                        new.phase is Finished && step == Step::<UploadResult>::Finish(
                            Err(StorageError::FileTooLarge { size: old.size as u64, max: old.max_size }), None)
                    } else {
                        match image_format_of(ext) {
                            None => {
                                &&& new.phase is Finished
                                &&& step matches Step::Finish(Err(StorageError::UnsupportedType(t)), None)
                                &&& t@ == ext
                            },
                            Some(fmt) => {
                                &&& new.phase matches ImagePhase::Extracting { ext: e, format: f }
                                &&& e@ == ext
                                &&& f@ == fmt
                                &&& step == Step::<UploadResult>::Call(StorageCall::ExtractImage)
                            },
                        }
                    }
                },
            },
            (ImagePhase::Refinding(err), StorageReply::Found(found)) => match found {
                Err(e) => new.phase is Finished && step == Step::<UploadResult>::Finish(Err(e), None),
                Ok(Some(f)) => new.phase == ImagePhase::DedupQuota(f) && step == Step::<UploadResult>::Call(StorageCall::QuotaCurrent),
                Ok(None) => new.phase is Finished && step == Step::<UploadResult>::Finish(Err(err), None),
            },
            (ImagePhase::DedupQuota(f), StorageReply::Quota(q)) => new.phase is Finished && (match q {
                Err(e) => step == Step::<UploadResult>::Finish(Err(e), None),
                Ok(q) => step matches Step::Finish(Ok(r), None) && dedup_result_spec(r, f, backend, q),
            }),
            (ImagePhase::Extracting { ext, format }, StorageReply::Extracted(meta)) => match meta {
                Err(e) => new.phase is Finished && step == Step::<UploadResult>::Finish(Err(e), None),
                Ok(m) => {
                    &&& new.phase matches ImagePhase::Consuming(p)
                    &&& image_plan_spec(p, ext@, format@, m)
                    &&& step == Step::<UploadResult>::Call(StorageCall::QuotaConsume { size: old.size })
                },
            },
            (ImagePhase::Consuming(p), StorageReply::Quota(q)) => match q {
                Err(e) => new.phase is Finished && step == Step::<UploadResult>::Finish(Err(e), None),
                Ok(s) => new.phase == ImagePhase::PuttingOriginal(p, s)
                    && step == Step::<UploadResult>::Call(StorageCall::PutUpload { path: p.original_rel }),
            },
            (ImagePhase::PuttingOriginal(p, s), StorageReply::Written(w)) => match w {
                Err(msg) => new.phase == ImagePhase::Releasing(msg)
                    && step == Step::<UploadResult>::Call(StorageCall::QuotaRelease { size: old.size }),
                Ok(()) => {
                    &&& new.phase == ImagePhase::PuttingThumb(ImagePlan { thumb: None, ..p }, s)
                    &&& step matches Step::Call(StorageCall::PutBytes { path, bytes })
                    &&& path == p.thumb_rel
                    &&& (p.thumb matches Some(t) ==> bytes == t)
                    &&& (p.thumb is None ==> bytes@.len() == 0)
                },
            },
            (ImagePhase::PuttingThumb(p, s), StorageReply::Written(w)) => match w {
                Err(msg) => new.phase == ImagePhase::DroppingOriginal(msg)
                    && step == Step::<UploadResult>::Call(StorageCall::DeletePath { path: p.original_rel }),
                Ok(()) => {
                    &&& new.phase == ImagePhase::Inserting(p, s)
                    &&& step matches Step::Call(StorageCall::Insert { object })
                    &&& image_object_spec(object, old, p)
                },
            },
            (ImagePhase::DroppingOriginal(msg), StorageReply::Written(_)) => new.phase == ImagePhase::Releasing(msg)
                && step == Step::<UploadResult>::Call(StorageCall::QuotaRelease { size: old.size }),
            (ImagePhase::Releasing(msg), StorageReply::Quota(q)) => new.phase is Finished && (match q {
                Err(e) => step == Step::<UploadResult>::Finish(Err(e), None),
                Ok(_) => step == Step::<UploadResult>::Finish(Err(StorageError::Io(msg)), None),
            }),
            (ImagePhase::Inserting(p, s), StorageReply::Inserted(ins)) => match ins {
                Ok(obj) => {
                    &&& new.phase is Finished
                    &&& step matches Step::Finish(Ok(r), Some(n))
                    &&& n == s
                    &&& image_result_spec(r, old, p, obj, s, backend)
                },
                Err(e) => new.phase == ImagePhase::CleanupOriginal(p, e)
                    && step == Step::<UploadResult>::Call(StorageCall::DeletePath { path: p.original_rel }),
            },
            (ImagePhase::CleanupOriginal(p, e), StorageReply::Written(_)) => new.phase == ImagePhase::CleanupThumb(e)
                && step == Step::<UploadResult>::Call(StorageCall::DeletePath { path: p.thumb_rel }),
            (ImagePhase::CleanupThumb(e), StorageReply::Written(_)) => new.phase == ImagePhase::CleanupRelease(e)
                && step == Step::<UploadResult>::Call(StorageCall::QuotaRelease { size: old.size }),
            (ImagePhase::CleanupRelease(e), StorageReply::Quota(_)) => new.phase == ImagePhase::Refinding(e)
                && step == Step::<UploadResult>::Call(StorageCall::FindByHash { hash: old.hash }),
            _ => false,
        }
    }

    /// Advances the upload with the host's answer to the pending call.
    pub fn step<B: StorageBackend>(self, backend: &B, reply: StorageReply) -> (res: (ImageUpload, Step<UploadResult>))
        requires
            self.awaits(reply),
        ensures
            ImageUpload::next(self, *backend, reply, res.0, res.1),
    {
        let mut u = self;
        let mut phase = ImagePhase::Finished;
        std::mem::swap(&mut phase, &mut u.phase);
        match phase {
            ImagePhase::ByUploadId | ImagePhase::ByHash => {
                let by_upload_id = match phase {
                    ImagePhase::ByUploadId => true,
                    _ => false,
                };
                let found = match reply {
                    StorageReply::Found(found) => found,
                    _ => {
                        assert(false);
                        return (u, Step::Finish(Err(StorageError::NotFound), None));
                    },
                };
                match found {
                    Err(e) => (u, Step::Finish(Err(e), None)),
                    Ok(Some(f)) => {
                        u.phase = ImagePhase::DedupQuota(f);
                        (u, Step::Call(StorageCall::QuotaCurrent))
                    },
                    Ok(None) => {
                        if by_upload_id {
                            u.phase = ImagePhase::ByHash;
                            let hash = u.hash.clone();
                            return (u, Step::Call(StorageCall::FindByHash { hash }));
                        }
                        if u.size as u64 > u.max_size {
                            let err = StorageError::FileTooLarge { size: u.size as u64, max: u.max_size };
                            return (u, Step::Finish(Err(err), None));
                        }
                        let ext = ext_of(u.filename.as_str(), "jpg");
                        match image_format(ext.as_str()) {
                            None => (u, Step::Finish(Err(StorageError::UnsupportedType(ext)), None)),
                            Some(format) => {
                                u.phase = ImagePhase::Extracting { ext, format };
                                (u, Step::Call(StorageCall::ExtractImage))
                            },
                        }
                    },
                }
            },
            ImagePhase::Refinding(err) => {
                let found = match reply {
                    StorageReply::Found(found) => found,
                    _ => {
                        assert(false);
                        return (u, Step::Finish(Err(StorageError::NotFound), None));
                    },
                };
                match found {
                    Err(e) => (u, Step::Finish(Err(e), None)),
                    Ok(Some(f)) => {
                        u.phase = ImagePhase::DedupQuota(f);
                        (u, Step::Call(StorageCall::QuotaCurrent))
                    },
                    Ok(None) => (u, Step::Finish(Err(err), None)),
                }
            },
            ImagePhase::DedupQuota(f) => {
                match reply {
                    StorageReply::Quota(Err(e)) => (u, Step::Finish(Err(e), None)),
                    StorageReply::Quota(Ok(q)) => {
                        let r = dedup_result(f, backend, q);
                        (u, Step::Finish(Ok(r), None))
                    },
                    _ => {
                        assert(false);
                        (u, Step::Finish(Err(StorageError::NotFound), None))
                    },
                }
            },
            ImagePhase::Extracting { ext, format } => {
                match reply {
                    StorageReply::Extracted(Err(e)) => (u, Step::Finish(Err(e), None)),
                    StorageReply::Extracted(Ok(m)) => {
                        let date = utc_year_month();
                        let uid = new_uuid_v4();
                        let original_rel = object_path("original", date.as_str(), uid, ext.as_str());
                        let thumb_rel = object_path("thumb", date.as_str(), uid, m.thumb_ext.as_str());
                        let plan = ImagePlan {
                            format,
                            date,
                            uid,
                            original_rel,
                            thumb_rel,
                            width: m.width,
                            height: m.height,
                            thumb: Some(m.thumb),
                        };
                        u.phase = ImagePhase::Consuming(plan);
                        let size = u.size;
                        (u, Step::Call(StorageCall::QuotaConsume { size }))
                    },
                    _ => {
                        assert(false);
                        (u, Step::Finish(Err(StorageError::NotFound), None))
                    },
                }
            },
            ImagePhase::Consuming(p) => {
                match reply {
                    StorageReply::Quota(Err(e)) => (u, Step::Finish(Err(e), None)),
                    StorageReply::Quota(Ok(s)) => {
                        let path = p.original_rel.clone();
                        u.phase = ImagePhase::PuttingOriginal(p, s);
                        (u, Step::Call(StorageCall::PutUpload { path }))
                    },
                    _ => {
                        assert(false);
                        (u, Step::Finish(Err(StorageError::NotFound), None))
                    },
                }
            },
            ImagePhase::PuttingOriginal(p, s) => {
                match reply {
                    StorageReply::Written(Err(msg)) => {
                        u.phase = ImagePhase::Releasing(msg);
                        let size = u.size;
                        (u, Step::Call(StorageCall::QuotaRelease { size }))
                    },
                    StorageReply::Written(Ok(())) => {
                        let ImagePlan { format, date, uid, original_rel, thumb_rel, width, height, thumb } = p;
                        let bytes = match thumb {
                            Some(t) => t,
                            None => Vec::new(),
                        };
                        let path = thumb_rel.clone();
                        u.phase = ImagePhase::PuttingThumb(
                            ImagePlan { format, date, uid, original_rel, thumb_rel, width, height, thumb: None },
                            s,
                        );
                        (u, Step::Call(StorageCall::PutBytes { path, bytes }))
                    },
                    _ => {
                        assert(false);
                        (u, Step::Finish(Err(StorageError::NotFound), None))
                    },
                }
            },
            ImagePhase::PuttingThumb(p, s) => {
                match reply {
                    StorageReply::Written(Err(msg)) => {
                        let path = p.original_rel.clone();
                        u.phase = ImagePhase::DroppingOriginal(msg);
                        (u, Step::Call(StorageCall::DeletePath { path }))
                    },
                    StorageReply::Written(Ok(())) => {
                        let object = NewStorageObject {
                            hash: u.hash.clone(),
                            storage_path: p.original_rel.clone(),
                            size: u.size,
                            mime_type: concat("image/", p.format.as_str()),
                            mime_category: "image".to_owned(),
                            width: Some(p.width as i32),
                            height: Some(p.height as i32),
                            duration_ms: None,
                            thumb_path: Some(p.thumb_rel.clone()),
                            original_name: Some(truncate_filename(u.filename.as_str(), 255)),
                            upload_id: Some(u.upload_id),
                        };
                        u.phase = ImagePhase::Inserting(p, s);
                        (u, Step::Call(StorageCall::Insert { object }))
                    },
                    _ => {
                        assert(false);
                        (u, Step::Finish(Err(StorageError::NotFound), None))
                    },
                }
            },
            ImagePhase::DroppingOriginal(msg) => {
                u.phase = ImagePhase::Releasing(msg);
                let size = u.size;
                (u, Step::Call(StorageCall::QuotaRelease { size }))
            },
            ImagePhase::Releasing(msg) => {
                match reply {
                    StorageReply::Quota(Err(e)) => (u, Step::Finish(Err(e), None)),
                    StorageReply::Quota(Ok(_)) => (u, Step::Finish(Err(StorageError::Io(msg)), None)),
                    _ => {
                        assert(false);
                        (u, Step::Finish(Err(StorageError::NotFound), None))
                    },
                }
            },
            ImagePhase::Inserting(p, s) => {
                match reply {
                    StorageReply::Inserted(Ok(obj)) => {
                        let r = UploadResult {
                            file_id: obj.id,
                            content_path: content_path(obj.id),
                            thumbnail_path: Some(thumbnail_path(obj.id)),
                            url: backend.url_for(p.original_rel.as_str()),
                            thumb_url: Some(backend.url_for(p.thumb_rel.as_str())),
                            size: u.size,
                            is_dedup: false,
                            mime_type: concat("image/", p.format.as_str()),
                            mime_category: "image".to_owned(),
                            width: Some(p.width as i32),
                            height: Some(p.height as i32),
                            duration_ms: None,
                            original_name: Some(truncate_filename(u.filename.as_str(), 255)),
                            quota: s,
                        };
                        (u, Step::Finish(Ok(r), Some(s)))
                    },
                    StorageReply::Inserted(Err(e)) => {
                        let path = p.original_rel.clone();
                        u.phase = ImagePhase::CleanupOriginal(p, e);
                        (u, Step::Call(StorageCall::DeletePath { path }))
                    },
                    _ => {
                        assert(false);
                        (u, Step::Finish(Err(StorageError::NotFound), None))
                    },
                }
            },
            ImagePhase::CleanupOriginal(p, e) => {
                let path = p.thumb_rel.clone();
                u.phase = ImagePhase::CleanupThumb(e);
                (u, Step::Call(StorageCall::DeletePath { path }))
            },
            ImagePhase::CleanupThumb(e) => {
                u.phase = ImagePhase::CleanupRelease(e);
                let size = u.size;
                (u, Step::Call(StorageCall::QuotaRelease { size }))
            },
            ImagePhase::CleanupRelease(e) => {
                u.phase = ImagePhase::Refinding(e);
                let hash = u.hash.clone();
                (u, Step::Call(StorageCall::FindByHash { hash }))
            },
            ImagePhase::Finished => {
                assert(false);
                (u, Step::Finish(Err(StorageError::NotFound), None))
            },
        }
    }
}

/// Quota that an image upload has reserved is given back on every failure: while the
/// upload holds a reservation it never ends in an error, and it leaves the reserving
/// phases only by recording the image or by releasing exactly the reserved size.
pub proof fn law_image_reservation_returned<B: StorageBackend>(
    old: ImageUpload,
    backend: B,
    reply: StorageReply,
    new: ImageUpload,
    step: Step<UploadResult>,
)
    requires
        old.awaits(reply),
        ImageUpload::next(old, backend, reply, new, step),
        old.holds_reservation(),
    ensures
        !(step matches Step::Finish(Err(_), _)),
        !new.holds_reservation() ==> (step == Step::<UploadResult>::Call(StorageCall::QuotaRelease { size: old.size })
            || step matches Step::Finish(Ok(_), Some(_))),
{
}

/// An image upload reserves and releases exactly the number of uploaded bytes, and a
/// reservation starts only once no stored object matched the upload id or the hash.
pub proof fn law_image_quota_amounts<B: StorageBackend>(
    old: ImageUpload,
    backend: B,
    reply: StorageReply,
    new: ImageUpload,
    step: Step<UploadResult>,
)
    requires
        old.awaits(reply),
        ImageUpload::next(old, backend, reply, new, step),
    ensures
        step matches Step::Call(StorageCall::QuotaConsume { size }) ==> size == old.size && old.phase is Extracting,
        step matches Step::Call(StorageCall::QuotaRelease { size }) ==> size == old.size,
        new.holds_reservation() && !old.holds_reservation() ==> old.phase is Consuming,
{
}

/// A deduplicated image is reported with `is_dedup`, without storing anything or
/// notifying a quota change; a freshly stored one is not marked deduplicated and is
/// reported with the snapshot of its own reservation, which is also the one notified.
pub proof fn law_image_dedup_and_notify<B: StorageBackend>(
    old: ImageUpload,
    backend: B,
    reply: StorageReply,
    new: ImageUpload,
    step: Step<UploadResult>,
)
    requires
        old.awaits(reply),
        ImageUpload::next(old, backend, reply, new, step),
    ensures
        old.phase is DedupQuota ==> step matches Step::Finish(_, None),
        step matches Step::Finish(Ok(r), None) ==> r.is_dedup,
        step matches Step::Finish(Ok(r), Some(n)) ==> !r.is_dedup && r.quota == n && r.size == old.size,
{
}

/// The bytes of an image go where its record points: the uploaded data is written to the
/// path of the original, the thumbnail to the path of the thumbnail, both paths stay
/// fixed from the reservation on, and the recorded object names exactly those two paths.
pub proof fn law_image_written_where_recorded<B: StorageBackend>(
    old: ImageUpload,
    backend: B,
    reply: StorageReply,
    new: ImageUpload,
    step: Step<UploadResult>,
)
    requires
        old.awaits(reply),
        ImageUpload::next(old, backend, reply, new, step),
    ensures
        step matches Step::Call(StorageCall::PutUpload { path }) ==> (new.phase matches ImagePhase::PuttingOriginal(p, _)
            && path == p.original_rel),
        old.phase matches ImagePhase::PuttingOriginal(p, _) ==> (new.phase matches ImagePhase::PuttingThumb(q, _)
            ==> (q.original_rel == p.original_rel && q.thumb_rel == p.thumb_rel
                && (step matches Step::Call(StorageCall::PutBytes { path, .. }) && path == p.thumb_rel))),
        old.phase matches ImagePhase::PuttingThumb(p, _) ==> (new.phase matches ImagePhase::Inserting(q, _)
            ==> q == p),
        step matches Step::Call(StorageCall::Insert { object }) ==> (old.phase matches ImagePhase::PuttingThumb(p, _)
            && object.storage_path == p.original_rel && object.thumb_path == Some(p.thumb_rel)),
{
}

/// A retry with the idempotency key of a recorded image gets that same asset back: the
/// upload goes straight to reporting the recorded object, which it reports as a
/// deduplicated result naming the object's id and location, without storing anything or
/// reserving quota.
pub proof fn law_image_retry_returns_same_asset<B: StorageBackend>(
    start: ImageUpload,
    backend: B,
    found: StorageObject,
    reporting: ImageUpload,
    first: Step<UploadResult>,
    quota: QuotaSnapshot,
    done: ImageUpload,
    last: Step<UploadResult>,
)
    requires
        start.phase is ByUploadId,
        ImageUpload::next(start, backend, StorageReply::Found(Ok(Some(found))), reporting, first),
        ImageUpload::next(reporting, backend, StorageReply::Quota(Ok(quota)), done, last),
    ensures
        first == Step::<UploadResult>::Call(StorageCall::QuotaCurrent),
        last matches Step::Finish(Ok(r), None) && r.is_dedup && r.file_id == found.id
            && r.url@ == backend.url_of(found.storage_path@) && r.size == found.size,
        done.phase is Finished,
{
}

/// Once no stored object matched and the size is within the limit, an image upload goes
/// by its lowercased extension: `jpg` and `jpeg` both proceed to extraction as format
/// `jpg`, keeping the extension as written; `png`, `gif` and `webp` proceed under their
/// own name; any other extension ends the upload as an unsupported type naming it.
pub proof fn law_image_extension_decides_format<B: StorageBackend>(
    old: ImageUpload,
    backend: B,
    new: ImageUpload,
    step: Step<UploadResult>,
)
    requires
        old.phase is ByHash,
        old.size as u64 <= old.max_size,
        ImageUpload::next(old, backend, StorageReply::Found(Ok(None)), new, step),
    ensures
        ({
            let ext = ext_of_spec(old.filename@, "jpg"@);
            &&& (ext == "jpg"@ || ext == "jpeg"@) ==> (new.phase matches ImagePhase::Extracting { ext: e, format: f }
                && e@ == ext && f@ == "jpg"@ && step == Step::<UploadResult>::Call(StorageCall::ExtractImage))
            &&& (ext == "png"@ || ext == "gif"@ || ext == "webp"@) ==> (new.phase matches ImagePhase::Extracting { ext: e, format: f }
                && e@ == ext && f@ == ext && step == Step::<UploadResult>::Call(StorageCall::ExtractImage))
            &&& (ext != "jpg"@ && ext != "jpeg"@ && ext != "png"@ && ext != "gif"@ && ext != "webp"@) ==> (new.phase is Finished
                && (step matches Step::Finish(Err(StorageError::UnsupportedType(t)), None) && t@ == ext))
        }),
{
    reveal_strlit("jpg");
    reveal_strlit("jpeg");
    reveal_strlit("png");
    reveal_strlit("gif");
    reveal_strlit("webp");
    // The five names differ in their first letter or their length.
    assert("jpg"@ != "png"@ && "jpg"@ != "gif"@ && "jpg"@ != "webp"@) by {
        assert("jpg"@[0] != "png"@[0] && "jpg"@[0] != "gif"@[0]);
    }
    assert("jpeg"@ != "png"@ && "jpeg"@ != "gif"@ && "jpeg"@ != "webp"@) by {
        assert("jpeg"@[0] != "webp"@[0]);
    }
    assert("png"@ != "gif"@ && "png"@ != "webp"@ && "gif"@ != "webp"@) by {
        assert("png"@[0] != "gif"@[0]);
    }
}

/// An extracted image is stored as `original/{date}/{uuid}.{ext}` under the extension as
/// uploaded, with its thumbnail at `thumb/{date}/{uuid}.{thumb_ext}`, keeps the format and
/// dimensions found, and reserves quota for its uploaded size.
pub proof fn law_image_storage_paths<B: StorageBackend>(
    old: ImageUpload,
    backend: B,
    meta: ImageMetadata,
    new: ImageUpload,
    step: Step<UploadResult>,
)
    requires
        old.phase is Extracting,
        ImageUpload::next(old, backend, StorageReply::Extracted(Ok(meta)), new, step),
    ensures
        new.phase matches ImagePhase::Consuming(p)
            && step == Step::<UploadResult>::Call(StorageCall::QuotaConsume { size: old.size })
            && (old.phase matches ImagePhase::Extracting { ext, format }
                && p.format@ == format@
                && p.original_rel@ == "original/"@ + p.date@ + "/"@ + uuid_text_of(p.uid) + "."@ + ext@)
            && p.thumb_rel@ == "thumb/"@ + p.date@ + "/"@ + uuid_text_of(p.uid) + "."@ + meta.thumb_ext@
            && p.width == meta.width && p.height == meta.height,
{
    reveal_strlit("/");
    reveal_strlit("original");
    reveal_strlit("original/");
    reveal_strlit("thumb");
    reveal_strlit("thumb/");
    let p = new.phase->Consuming_0;
    let ext = old.phase->ext;
    assert(object_path_of("original"@, p.date@, p.uid, ext@) =~= "original/"@ + p.date@ + "/"@ + uuid_text_of(p.uid) + "."@ + ext@);
    assert(object_path_of("thumb"@, p.date@, p.uid, meta.thumb_ext@) =~= "thumb/"@ + p.date@ + "/"@ + uuid_text_of(p.uid) + "."@ + meta.thumb_ext@);
}

/// The record of a new image names the stored original and thumbnail, the client's
/// upload id, and types it `image/{format}` in category `image`.
pub proof fn law_image_record_types<B: StorageBackend>(
    old: ImageUpload,
    backend: B,
    reply: StorageReply,
    new: ImageUpload,
    step: Step<UploadResult>,
    p: ImagePlan,
    s: QuotaSnapshot,
)
    requires
        old.phase == ImagePhase::PuttingThumb(p, s),
        ImageUpload::next(old, backend, reply, new, step),
    ensures
        step matches Step::Call(StorageCall::Insert { object }) ==> (object.storage_path == p.original_rel
            && object.thumb_path == Some(p.thumb_rel) && object.upload_id == Some(old.upload_id)
            && object.size == old.size && object.hash == old.hash
            && object.mime_type@ == "image/"@ + p.format@ && object.mime_category@ == "image"@
            && object.width == Some(p.width as i32) && object.height == Some(p.height as i32)),
{
}

} // verus!
