//! Reading, listing and deleting an owner's stored files.

use vstd::prelude::*;

use crate::storage::backend::StorageBackend;
use crate::storage::flow::{file_info, file_info_spec, Step, StorageCall, StorageReply};
use crate::storage::model::{DeleteResult, FileInfo, FileListResult, StorageError, StorageObject};
use crate::text::same_text;

verus! {

/// Largest page size of a file listing.
pub const MAX_LIST_LIMIT: i64 = 50i64;

/// Page number, page size and row offset of a listing request: the page is at least 1,
/// the size is clamped into `1..=50`, and the offset skips the earlier pages.
pub open spec fn list_window_of(page: i64, limit: i64) -> (i64, i64, int) {
    let p = if page < 1 { 1 } else { page };
    let l = if limit < 1 { 1 } else if limit > MAX_LIST_LIMIT { MAX_LIST_LIMIT } else { limit };
    (p, l, (p - 1) * l)
}

/// The page window of a listing request.
pub fn list_window(page: i64, limit: i64) -> (res: (i64, i64, i64))
    requires
        list_window_of(page, limit).2 <= i64::MAX,
    ensures
        res.0 == list_window_of(page, limit).0,
        res.1 == list_window_of(page, limit).1,
        res.2 == list_window_of(page, limit).2,
{
    let p = if page < 1 { 1 } else { page };
    let l = if limit < 1 { 1 } else if limit > MAX_LIST_LIMIT { MAX_LIST_LIMIT } else { limit };
    assert(0 <= (p - 1) * l) by (nonlinear_arith)
        requires p >= 1, l >= 1;
    (p, l, (p - 1) * l)
}

/// The window of a listing: the page is at least 1 and the limit between 1 and
/// `MAX_LIST_LIMIT`, each kept as asked when already in range, and the row offset is the
/// number of rows on the earlier pages, `(page - 1) * limit`; so the first page starts at
/// row 0 and each next page starts right where the one before it ends.
pub proof fn law_list_window(page: i64, limit: i64)
    ensures
        list_window_of(page, limit).0 >= 1,
        1 <= list_window_of(page, limit).1 <= MAX_LIST_LIMIT,
        page >= 1 ==> list_window_of(page, limit).0 == page,
        1 <= limit <= MAX_LIST_LIMIT ==> list_window_of(page, limit).1 == limit,
        list_window_of(page, limit).2 == (list_window_of(page, limit).0 - 1) * list_window_of(page, limit).1,
        list_window_of(1, limit).2 == 0,
        1 <= page < i64::MAX ==> list_window_of((page + 1) as i64, limit).2
            == list_window_of(page, limit).2 + list_window_of(page, limit).1,
{
    let l = list_window_of(page, limit).1;
    assert(0 * l == 0);
    if 1 <= page < i64::MAX {
        assert(page * l == (page - 1) * l + l) by (nonlinear_arith);
    }
}

/// One listing page built from the objects the store returned for the window.
pub fn file_list_result<B: StorageBackend>(files: Vec<StorageObject>, backend: &B, total: i64, page: i64, limit: i64) -> (res: FileListResult)
    ensures
        res.total == total,
        res.page == page,
        res.limit == limit,
        res.items@.len() == files@.len(),
        forall|i: int| 0 <= i < files@.len() ==> file_info_spec(#[trigger] res.items@[i], files@[i], *backend),
{
    let mut items: Vec<FileInfo> = Vec::new();
    let mut rest = files;
    let ghost all = rest@;
    let mut rev: Vec<StorageObject> = Vec::new();
    // Take the objects out in reverse, then describe them in order.
    while rest.len() > 0
        invariant
            rev@.len() + rest@.len() == all.len(),
            rest@ == all.take(rest@.len() as int),
            forall|i: int| 0 <= i < rev@.len() ==> #[trigger] rev@[i] == all[all.len() - 1 - i],
        decreases rest@.len(),
    {
        let f = rest.pop().unwrap();
        rev.push(f);
        assert(all.take(rest@.len() as int) =~= all.take(rest@.len() as int + 1).drop_last());
    }
    while rev.len() > 0
        invariant
            items@.len() + rev@.len() == all.len(),
            forall|i: int| 0 <= i < rev@.len() ==> #[trigger] rev@[i] == all[all.len() - 1 - i],
            forall|i: int| 0 <= i < items@.len() ==> file_info_spec(#[trigger] items@[i], all[i], *backend),
        decreases rev@.len(),
    {
        let f = rev.pop().unwrap();
        let info = file_info(f, backend);
        items.push(info);
    }
    FileListResult { items, total, page, limit }
}

/// Detail of one of the owner's files; `NotFound` when the store has none for the scope.
pub fn file_detail<B: StorageBackend>(found: Option<StorageObject>, backend: &B) -> (res: Result<FileInfo, StorageError>)
    ensures
        found is None ==> res matches Err(StorageError::NotFound),
        found matches Some(f) ==> res matches Ok(info) && file_info_spec(info, f, *backend),
{
    match found {
        None => Err(StorageError::NotFound),
        Some(f) => Ok(file_info(f, backend)),
    }
}

/// What to read for a file request: the stored path and the content type to answer with.
#[derive(Debug)]
pub struct ReadTarget {
    pub path: String,
    pub mime_type: String,
}

/// Which stored path serves a read of a file or of its thumbnail. Thumbnails are WebP;
/// a missing file or a missing thumbnail is `NotFound`.
pub fn read_target(found: Option<StorageObject>, thumbnail: bool) -> (res: Result<ReadTarget, StorageError>)
    ensures
        found is None ==> res matches Err(StorageError::NotFound),
        found matches Some(f) ==> (if thumbnail {
            match f.thumb_path {
                None => res matches Err(StorageError::NotFound),
                Some(t) => res matches Ok(r) && r.path == t && r.mime_type@ == "image/webp"@,
            }
        } else {
            res matches Ok(r) && r.path == f.storage_path && r.mime_type == f.mime_type
        }),
{
    match found {
        None => Err(StorageError::NotFound),
        Some(f) => {
            if thumbnail {
                match f.thumb_path {
                    None => Err(StorageError::NotFound),
                    Some(t) => Ok(ReadTarget { path: t, mime_type: "image/webp".to_owned() }),
                }
            } else {
                Ok(ReadTarget { path: f.storage_path, mime_type: f.mime_type })
            }
        },
    }
}

/// Source path of a dynamic image variant: only image files have variants.
pub fn variant_source(found: Option<StorageObject>) -> (res: Result<String, StorageError>)
    ensures
        found is None ==> res matches Err(StorageError::NotFound),
        found matches Some(f) ==> (if f.mime_category@ == "image"@ {
            res == Ok::<String, StorageError>(f.storage_path)
        } else {
            res == Err::<String, StorageError>(StorageError::UnsupportedType(f.mime_type))
        }),
{
    match found {
        None => Err(StorageError::NotFound),
        Some(f) => {
            if !same_text(f.mime_category.as_str(), "image") {
                Err(StorageError::UnsupportedType(f.mime_type))
            } else {
                Ok(f.storage_path)
            }
        },
    }
}

/// Where a deletion stands.
#[derive(Debug)]
pub enum DeletePhase {
    /// Reading the owner's object.
    Getting,
    /// Removing the stored bytes.
    DroppingMain(StorageObject),
    /// Removing the stored thumbnail.
    DroppingThumb(StorageObject),
    /// Removing the object record.
    Removing(StorageObject),
    /// Returning the object's size to the quota.
    Releasing(StorageObject),
    /// Nothing more to do.
    Finished,
}

/// A physical deletion of one of the owner's files. Whether the file may be deleted
/// (references held by other records) is the host's decision, made before starting.
#[derive(Debug)]
pub struct DeleteFile {
    pub id: i64,
    pub phase: DeletePhase,
}

impl DeleteFile {
    pub fn start(id: i64) -> (res: (DeleteFile, Step<DeleteResult>))
        ensures
            res.0.id == id,
            res.0.phase is Getting,
            res.1 == Step::<DeleteResult>::Call(StorageCall::GetObject { id }),
    {
        (DeleteFile { id, phase: DeletePhase::Getting }, Step::Call(StorageCall::GetObject { id }))
    }

    /// Whether `reply` answers the call this deletion is waiting for.
    pub open spec fn awaits(&self, reply: StorageReply) -> bool {
        match self.phase {
            DeletePhase::Getting => reply is Found,
            DeletePhase::DroppingMain(_) | DeletePhase::DroppingThumb(_) => reply is Written,
            DeletePhase::Removing(_) => reply is Removed,
            DeletePhase::Releasing(_) => reply is Quota,
            DeletePhase::Finished => false,
        }
    }

    /// What follows `old` when the host answers with `reply`. Failures to remove stored
    /// bytes are ignored; failures of the record or the quota end the deletion.
    pub open spec fn next(old: DeleteFile, reply: StorageReply, new: DeleteFile, step: Step<DeleteResult>) -> bool {
        &&& new.id == old.id
        &&& match (old.phase, reply) {
            (DeletePhase::Getting, StorageReply::Found(found)) => match found {
                Err(e) => new.phase is Finished && step == Step::<DeleteResult>::Finish(Err(e), None),
                Ok(None) => new.phase is Finished && step == Step::<DeleteResult>::Finish(Err(StorageError::NotFound), None),
                Ok(Some(f)) => new.phase == DeletePhase::DroppingMain(f)
                    && step == Step::<DeleteResult>::Call(StorageCall::DeletePath { path: f.storage_path }),
            },
            (DeletePhase::DroppingMain(f), StorageReply::Written(_)) => match f.thumb_path {
                Some(t) => new.phase == DeletePhase::DroppingThumb(f)
                    && step == Step::<DeleteResult>::Call(StorageCall::DeletePath { path: t }),
                None => new.phase == DeletePhase::Removing(f)
                    && step == Step::<DeleteResult>::Call(StorageCall::DeleteRecord { id: old.id }),
            },
            (DeletePhase::DroppingThumb(f), StorageReply::Written(_)) => new.phase == DeletePhase::Removing(f)
                && step == Step::<DeleteResult>::Call(StorageCall::DeleteRecord { id: old.id }),
            (DeletePhase::Removing(f), StorageReply::Removed(r)) => match r {
                Err(e) => new.phase is Finished && step == Step::<DeleteResult>::Finish(Err(e), None),
                Ok(()) => new.phase == DeletePhase::Releasing(f)
                    && step == Step::<DeleteResult>::Call(StorageCall::QuotaRelease { size: f.size }),
            },
            (DeletePhase::Releasing(f), StorageReply::Quota(q)) => new.phase is Finished && (match q {
                Err(e) => step == Step::<DeleteResult>::Finish(Err(e), None),
                Ok(s) => step == Step::<DeleteResult>::Finish(
                    Ok(DeleteResult { physical_deleted: true, freed_bytes: f.size, snapshot: s }), Some(s)),
            }),
            _ => false,
        }
    }

    /// Advances the deletion with the host's answer to the pending call.
    pub fn step(self, reply: StorageReply) -> (res: (DeleteFile, Step<DeleteResult>))
        requires
            self.awaits(reply),
        ensures
            DeleteFile::next(self, reply, res.0, res.1),
    {
        let id = self.id;
        match self.phase {
            DeletePhase::Getting => match reply {
                StorageReply::Found(Err(e)) => (DeleteFile { id, phase: DeletePhase::Finished }, Step::Finish(Err(e), None)),
                StorageReply::Found(Ok(None)) => (
                    DeleteFile { id, phase: DeletePhase::Finished },
                    Step::Finish(Err(StorageError::NotFound), None),
                ),
                StorageReply::Found(Ok(Some(f))) => {
                    let path = f.storage_path.clone();
                    (DeleteFile { id, phase: DeletePhase::DroppingMain(f) }, Step::Call(StorageCall::DeletePath { path }))
                },
                _ => {
                    assert(false);
                    (DeleteFile { id, phase: DeletePhase::Finished }, Step::Finish(Err(StorageError::NotFound), None))
                },
            },
            DeletePhase::DroppingMain(f) => {
                match &f.thumb_path {
                    Some(t) => {
                        let path = t.clone();
                        (DeleteFile { id, phase: DeletePhase::DroppingThumb(f) }, Step::Call(StorageCall::DeletePath { path }))
                    },
                    None => (DeleteFile { id, phase: DeletePhase::Removing(f) }, Step::Call(StorageCall::DeleteRecord { id })),
                }
            },
            DeletePhase::DroppingThumb(f) => (
                DeleteFile { id, phase: DeletePhase::Removing(f) },
                Step::Call(StorageCall::DeleteRecord { id }),
            ),
            DeletePhase::Removing(f) => match reply {
                StorageReply::Removed(Err(e)) => (DeleteFile { id, phase: DeletePhase::Finished }, Step::Finish(Err(e), None)),
                StorageReply::Removed(Ok(())) => {
                    let size = f.size;
                    (DeleteFile { id, phase: DeletePhase::Releasing(f) }, Step::Call(StorageCall::QuotaRelease { size }))
                },
                _ => {
                    assert(false);
                    (DeleteFile { id, phase: DeletePhase::Finished }, Step::Finish(Err(StorageError::NotFound), None))
                },
            },
            DeletePhase::Releasing(f) => match reply {
                StorageReply::Quota(Err(e)) => (DeleteFile { id, phase: DeletePhase::Finished }, Step::Finish(Err(e), None)),
                StorageReply::Quota(Ok(s)) => (
                    DeleteFile { id, phase: DeletePhase::Finished },
                    Step::Finish(Ok(DeleteResult { physical_deleted: true, freed_bytes: f.size, snapshot: s }), Some(s)),
                ),
                _ => {
                    assert(false);
                    (DeleteFile { id, phase: DeletePhase::Finished }, Step::Finish(Err(StorageError::NotFound), None))
                },
            },
            DeletePhase::Finished => {
                assert(false);
                (DeleteFile { id, phase: DeletePhase::Finished }, Step::Finish(Err(StorageError::NotFound), None))
            },
        }
    }
}

/// A deletion returns exactly the object's size to the quota, only after the record is
/// gone, reports that size as freed together with the snapshot it notifies, and touches
/// nothing when the owner has no such file.
pub proof fn law_delete_releases_object_size(
    old: DeleteFile,
    reply: StorageReply,
    new: DeleteFile,
    step: Step<DeleteResult>,
)
    requires
        old.awaits(reply),
        DeleteFile::next(old, reply, new, step),
    ensures
        step matches Step::Call(StorageCall::QuotaRelease { size }) ==> old.phase matches DeletePhase::Removing(f) && size == f.size,
        step matches Step::Finish(Ok(r), n) ==> old.phase matches DeletePhase::Releasing(f) && r.physical_deleted
            && r.freed_bytes == f.size && n == Some(r.snapshot),
        (old.phase is Getting && reply matches StorageReply::Found(Ok(None))) ==> step matches Step::Finish(Err(StorageError::NotFound), None),
{
}

} // verus!
