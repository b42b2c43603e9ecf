use std::collections::HashMap;


use frameworkx::storage::access::DeleteFile;
use frameworkx::storage::backend::LocalFs;
use frameworkx::storage::flow::{Step, StorageCall, StorageReply};
use frameworkx::storage::image_upload::ImageUpload;
use frameworkx::storage::media_upload::{MediaKind, MediaUpload};
use frameworkx::storage::model::{
    DeleteResult, ImageMetadata, QuotaSnapshot, StorageError, StorageObject, StorageServiceConfig,
    UploadResult, VideoMeta,
};
use frameworkx::storage::quota::{quota_check, QuotaAccount};


/// In-memory object store, quota, metadata extractor and backend.
struct Host {
    files: Vec<StorageObject>,
    next_id: i64,
    quota: QuotaAccount,
    stored: HashMap<String, Vec<u8>>,
    last_snapshot: Option<QuotaSnapshot>,
    backend: LocalFs,
    config: StorageServiceConfig,
    upload_ids: Vec<(u128, i64)>,
}

impl Host {
    fn new(used: i64, quota: i64, max_image: u64) -> Self {
        let mut account = QuotaAccount::new(quota);
        account.used_bytes = used;
        Host {
            files: Vec::new(),
            next_id: 1,
            quota: account,
            stored: HashMap::new(),
            last_snapshot: None,
            backend: LocalFs::new("/tmp/unused".into(), "/uploads".into()),
            config: StorageServiceConfig { max_image_size: max_image, ..Default::default() },
            upload_ids: Vec::new(),
        }
    }

    fn find(&self, id: i64) -> Option<StorageObject> {
        self.files.iter().find(|f| f.id == id).cloned()
    }

    fn perform(&mut self, call: StorageCall, data: &[u8], thumbnail: &[u8]) -> StorageReply {
        match call {
            StorageCall::FindByUploadId { upload_id } => {
                let id = self.upload_ids.iter().find(|(u, _)| *u == upload_id).map(|(_, id)| *id);
                StorageReply::Found(Ok(id.and_then(|id| self.find(id))))
            }
            StorageCall::FindByHash { hash } => {
                StorageReply::Found(Ok(self.files.iter().find(|f| f.hash == hash).cloned()))
            }
            StorageCall::GetObject { id } => StorageReply::Found(Ok(self.find(id))),
            StorageCall::Insert { object } => {
                let file = StorageObject {
                    id: self.next_id,
                    hash: object.hash,
                    storage_path: object.storage_path,
                    size: object.size,
                    mime_type: object.mime_type,
                    mime_category: object.mime_category,
                    width: object.width,
                    height: object.height,
                    duration_ms: object.duration_ms,
                    thumb_path: object.thumb_path,
                    original_name: object.original_name,
                    ref_count: 1,
                };
                self.next_id += 1;
                if let Some(u) = object.upload_id {
                    self.upload_ids.push((u, file.id));
                }
                self.files.push(file.clone());
                StorageReply::Inserted(Ok(file))
            }
            StorageCall::DeleteRecord { id } => {
                self.files.retain(|f| f.id != id);
                StorageReply::Removed(Ok(()))
            }
            StorageCall::QuotaCurrent => StorageReply::Quota(Ok(self.quota.snapshot())),
            StorageCall::QuotaCheck { size } => StorageReply::Quota(quota_check(self.quota.snapshot(), size)),
            StorageCall::QuotaConsume { size } => StorageReply::Quota(self.quota.consume(size)),
            StorageCall::QuotaRelease { size } => StorageReply::Quota(Ok(self.quota.release(size))),
            StorageCall::ExtractImage => StorageReply::Extracted(Ok(ImageMetadata {
                width: 800,
                height: 600,
                thumb: vec![0u8; 16],
                thumb_ext: "webp".into(),
            })),
            StorageCall::PutUpload { path } => {
                self.stored.insert(path, data.to_vec());
                StorageReply::Written(Ok(()))
            }
            StorageCall::PutClientThumbnail { path } => {
                self.stored.insert(path, thumbnail.to_vec());
                StorageReply::Written(Ok(()))
            }
            StorageCall::PutBytes { path, bytes } => {
                self.stored.insert(path, bytes);
                StorageReply::Written(Ok(()))
            }
            StorageCall::DeletePath { path } => {
                self.stored.remove(&path);
                StorageReply::Written(Ok(()))
            }
        }
    }

    fn upload_image(&mut self, data: &[u8], name: &str, hash: &str) -> Result<UploadResult, StorageError> {
        let config = self.config.clone();
        let (flow, step) = ImageUpload::start_fresh(&config, data, name, hash);
        self.drive_image(flow, step, data)
    }

    fn upload_image_with_id(&mut self, data: &[u8], name: &str, hash: &str, upload_id: u128) -> Result<UploadResult, StorageError> {
        let config = self.config.clone();
        let (flow, step) = ImageUpload::start(&config, data, name, hash, upload_id);
        self.drive_image(flow, step, data)
    }

    fn drive_image(&mut self, mut flow: ImageUpload, mut step: Step<UploadResult>, data: &[u8]) -> Result<UploadResult, StorageError> {
        loop {
            match step {
                Step::Finish(result, snapshot) => {
                    if snapshot.is_some() {
                        self.last_snapshot = snapshot;
                    }
                    return result;
                }
                Step::Call(call) => {
                    let reply = self.perform(call, data, &[]);
                    let backend = self.backend.clone();
                    let (next, next_step) = flow.step(&backend, reply);
                    flow = next;
                    step = next_step;
                }
            }
        }
    }

    fn upload_media(&mut self, kind: MediaKind, data: &[u8], name: &str, thumbnail: &[u8], hash: &str) -> Result<UploadResult, StorageError> {
        let config = self.config.clone();
        let (mut flow, mut step) = MediaUpload::start(&config, kind, data.len(), name, hash);
        loop {
            match step {
                Step::Finish(result, snapshot) => {
                    if snapshot.is_some() {
                        self.last_snapshot = snapshot;
                    }
                    return result;
                }
                Step::Call(call) => {
                    let reply = self.perform(call, data, thumbnail);
                    let backend = self.backend.clone();
                    let (next, next_step) = flow.step(&backend, reply);
                    flow = next;
                    step = next_step;
                }
            }
        }
    }

    fn delete_file(&mut self, id: i64) -> Result<DeleteResult, StorageError> {
        let (mut flow, mut step) = DeleteFile::start(id);
        loop {
            match step {
                Step::Finish(result, _) => return result,
                Step::Call(call) => {
                    let reply = self.perform(call, &[], &[]);
                    let (next, next_step) = flow.step(reply);
                    flow = next;
                    step = next_step;
                }
            }
        }
    }
}

#[test]
fn upload_image_new_stores_and_consumes_quota() {
    let mut host = Host::new(0, 1_000_000, 1_000_000);
    let data = b"fake-image-bytes";

    let r = host.upload_image(data, "a.jpg", "hash-a").unwrap();

    assert!(!r.is_dedup);
    assert!(r.url.starts_with("/uploads/original/"));
    assert!(r.thumb_url.as_deref().unwrap().starts_with("/uploads/thumb/"));
    assert_eq!(host.files.len(), 1);
    let stored = r.url.trim_start_matches("/uploads/").to_owned();
    assert_eq!(host.stored.get(&stored).map(Vec::as_slice), Some(&data[..]));
    assert_eq!(host.stored.len(), 2);
    assert_eq!(host.quota.used_bytes, data.len() as i64);
    assert_eq!(r.width, Some(800));
    assert_eq!(r.content_path, format!("/storage/files/{}/content", r.file_id));
}

#[test]
fn upload_image_dedup_reuses_owner_asset_without_second_store_or_quota() {
    let mut host = Host::new(0, 1_000_000, 1_000_000);
    host.upload_image(b"data", "a.jpg", "hash-a").unwrap();
    let before_files = host.files.len();
    let before_used = host.quota.used_bytes;

    let r = host.upload_image(b"data-dup", "a.jpg", "hash-a").unwrap();

    assert!(r.is_dedup);
    assert_eq!(host.files.len(), before_files);
    assert_eq!(host.quota.used_bytes, before_used);
    assert_eq!(host.find(r.file_id).unwrap().ref_count, 1);
}

#[test]
fn upload_image_too_large_rejected() {
    let mut host = Host::new(0, 1_000_000, 10);
    let data = vec![0u8; 20];

    let err = host.upload_image(&data, "a.jpg", "h").unwrap_err();

    assert!(matches!(err, StorageError::FileTooLarge { size: 20, max: 10 }));
    assert!(host.files.is_empty());
}

#[test]
fn upload_image_unsupported_type_rejected() {
    let mut host = Host::new(0, 1_000_000, 1_000_000);

    let err = host.upload_image(b"x", "a.bmp", "h").unwrap_err();

    assert!(matches!(err, StorageError::UnsupportedType(_)));
}

#[test]
fn upload_image_quota_exceeded_aborts_before_store() {
    let mut host = Host::new(990_000, 1_000_000, 1_000_000);
    let data = vec![0u8; 20_000];

    let err = host.upload_image(&data, "a.jpg", "h").unwrap_err();

    assert!(matches!(err, StorageError::QuotaExceeded { .. }));
    assert!(host.files.is_empty());
    assert!(host.stored.is_empty());
    assert_eq!(host.quota.used_bytes, 990_000);
}

#[test]
fn upload_file_new_stores_without_thumb() {
    let mut host = Host::new(0, 1_000_000, 1_000_000);

    let r = host.upload_media(MediaKind::File, b"hello", "doc.pdf", &[], "h").unwrap();

    assert!(!r.is_dedup);
    assert_eq!(r.mime_category, "file");
    assert_eq!(r.mime_type, "application/pdf");
    assert!(r.thumb_url.is_none());
    assert_eq!(host.quota.used_bytes, 5);
}

#[test]
fn upload_audio_file_is_categorised_as_audio() {
    let mut host = Host::new(0, 1_000_000, 1_000_000);
    let r = host.upload_media(MediaKind::File, b"la", "song.MP3", &[], "h").unwrap();
    assert_eq!(r.mime_category, "audio");
    assert_eq!(r.mime_type, "audio/mpeg");
}

#[test]
fn upload_video_stores_video_and_client_thumb() {
    let mut host = Host::new(0, 1_000_000, 50_000_000);
    let meta = VideoMeta { duration_ms: 1000, width: 640, height: 480 };

    let r = host
        .upload_media(MediaKind::Video(meta), b"videobytes", "v.mp4", b"thumbjpg", "h")
        .unwrap();

    assert!(!r.is_dedup);
    assert_eq!(r.mime_category, "video");
    assert_eq!(r.duration_ms, Some(1000));
    assert!(r.thumb_url.is_some());
    let thumb = r.thumb_url.as_deref().unwrap().trim_start_matches("/uploads/").to_owned();
    assert_eq!(host.stored.get(&thumb).map(Vec::as_slice), Some(&b"thumbjpg"[..]));
    assert_eq!(host.quota.used_bytes, b"videobytes".len() as i64);
}

#[test]
fn upload_video_rejects_unknown_container() {
    let mut host = Host::new(0, 1_000_000, 50_000_000);
    let meta = VideoMeta { duration_ms: 1, width: 1, height: 1 };
    let err = host
        .upload_media(MediaKind::Video(meta), b"v", "v.mkv", b"t", "h")
        .unwrap_err();
    assert!(matches!(err, StorageError::UnsupportedType(_)));
}

#[test]
fn delete_file_does_not_treat_refcount_as_delete_authority() {
    let mut host = Host::new(0, 1_000_000, 1_000_000);
    host.upload_image(b"d", "a.jpg", "h").unwrap();
    host.upload_image(b"d", "a.jpg", "h").unwrap();
    let id = host.files[0].id;
    host.files[0].ref_count += 1;

    let r = host.delete_file(id).unwrap();

    assert!(r.physical_deleted);
    assert_eq!(r.freed_bytes, 1);
    assert!(host.find(id).is_none());
    assert_eq!(host.quota.used_bytes, 0);
}

#[test]
fn delete_file_last_ref_physical_deletes_and_releases_quota() {
    let mut host = Host::new(0, 1_000_000, 1_000_000);
    host.upload_image(b"d", "a.jpg", "h").unwrap();
    let id = host.files[0].id;
    let path = host.files[0].storage_path.clone();
    let thumb = host.files[0].thumb_path.clone().unwrap();

    let r = host.delete_file(id).unwrap();

    assert!(r.physical_deleted);
    assert_eq!(r.freed_bytes, 1);
    assert!(host.find(id).is_none());
    assert!(!host.stored.contains_key(&path));
    assert!(!host.stored.contains_key(&thumb));
    assert_eq!(host.quota.used_bytes, 0);
    assert_eq!(r.snapshot.used_bytes, 0);
}

#[test]
fn delete_missing_file_is_not_found() {
    let mut host = Host::new(0, 1_000_000, 1_000_000);
    assert!(matches!(host.delete_file(42).unwrap_err(), StorageError::NotFound));
}

#[test]
fn quota_changed_callback_fires_on_consume() {
    let mut host = Host::new(0, 1_000_000, 1_000_000);

    host.upload_image(b"data", "a.jpg", "h").unwrap();

    let snap = host.last_snapshot.unwrap();
    assert_eq!(snap.used_bytes, 4);
}

#[test]
fn recorded_paths_hold_the_written_bytes() {
    let mut host = Host::new(0, 1_000_000, 1_000_000);
    let data = b"image-bytes";
    let r = host.upload_image(data, "p.png", "image-key").unwrap();
    let file = host.find(r.file_id).unwrap();
    assert_eq!(host.stored.get(&file.storage_path).map(Vec::as_slice), Some(&data[..]));
    let thumb = file.thumb_path.clone().unwrap();
    assert_eq!(host.stored.get(&thumb).map(Vec::as_slice), Some(&[0u8; 16][..]));

    let video = b"video-bytes";
    let kind = MediaKind::Video(VideoMeta { duration_ms: 1500, width: 640, height: 360 });
    let v = host.upload_media(kind, video, "clip.mp4", b"jpeg-thumb", "video-key").unwrap();
    let file = host.find(v.file_id).unwrap();
    assert_eq!(host.stored.get(&file.storage_path).map(Vec::as_slice), Some(&video[..]));
    assert_eq!(host.stored.get(file.thumb_path.as_ref().unwrap()).map(Vec::as_slice), Some(&b"jpeg-thumb"[..]));
}

#[test]
fn retry_with_the_same_upload_id_returns_the_same_asset() {
    let mut host = Host::new(0, 1_000_000, 1_000_000);
    let first = host.upload_image_with_id(b"pixels", "a.png", "retry-key", 42).unwrap();
    let used = host.quota.used_bytes;

    let again = host.upload_image_with_id(b"pixels", "renamed.png", "retry-key", 42).unwrap();

    assert!(again.is_dedup);
    assert_eq!(again.file_id, first.file_id);
    assert_eq!(again.url, first.url);
    assert_eq!(host.files.len(), 1);
    assert_eq!(host.quota.used_bytes, used);
}
