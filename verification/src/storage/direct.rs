//! Direct uploads to an object store: object keys under the caller's scope, grants of
//! temporary credentials, and confirmation of uploaded objects.

use vstd::prelude::*;

use crate::storage::backend::StorageBackend;
use crate::storage::model::{NewStorageObject, QuotaSnapshot, StorageError, StorageObject};
use crate::storage::naming::{year_month_shaped, ext_of, ext_of_spec, new_uuid_v4, uuid_text, uuid_text_of, utc_year_month};
use crate::text::{before_first, chars_of, concat, prefix_before, same_text, starts_with, string_of, strip_prefix};

verus! {

/// Temporary credentials issued for a direct upload, with the target bucket.
#[derive(Debug, Clone)]
pub struct StsCredentials {
    pub access_key_id: String,
    pub access_key_secret: String,
    pub security_token: String,
    pub expiration: String,
    pub bucket: String,
    pub endpoint: String,
}

/// A request for a direct-upload grant.
#[derive(Debug, Clone)]
pub struct IssueGrantRequest {
    pub file_name: String,
    pub file_size: i64,
    pub mime_type: String,
    pub thumb_size: Option<i64>,
}

/// Credentials and the object keys the client may write.
#[derive(Debug)]
pub struct UploadGrant {
    pub access_key_id: String,
    pub access_key_secret: String,
    pub security_token: String,
    pub expiration: String,
    pub bucket: String,
    pub endpoint: String,
    pub object_key: String,
    pub thumb_object_key: Option<String>,
    pub url: String,
    pub thumb_url: Option<String>,
}

/// Confirmation of an object the client uploaded directly.
#[derive(Debug, Clone)]
pub struct ConfirmRequest {
    pub object_key: String,
    pub file_size: i64,
    pub mime_type: String,
    pub mime_category: String,
    pub hash: String,
    pub thumb_object_key: Option<String>,
    pub width: Option<i32>,
    pub height: Option<i32>,
    pub duration_ms: Option<i64>,
    pub original_name: Option<String>,
}

/// Result of a confirmed direct upload.
#[derive(Debug)]
pub struct ConfirmResult {
    pub file_id: i64,
    pub url: String,
    pub thumb_url: Option<String>,
    pub quota: QuotaSnapshot,
}

/// Validity of temporary upload credentials, in seconds.
pub const GRANT_DURATION_SECS: u32 = 900u32;

/// Path-safe owner segment of a scope: every `:` becomes `-`.
pub open spec fn owner_segment(scope: Seq<char>) -> Seq<char> {
    Seq::new(scope.len(), |i: int| if scope[i] == ':' { '-' } else { scope[i] })
}

/// The owner segment of `scope`.
pub fn scope_owner(scope: &str) -> (res: String)
    ensures
        res@ == owner_segment(scope@),
{
    let cs = chars_of(scope);
    let mut out: Vec<char> = Vec::new();
    let n = cs.len();
    for i in 0..n
        invariant
            n == cs@.len(),
            cs@ == scope@,
            out@ == owner_segment(scope@).take(i as int),
    {
        let c = if cs[i] == ':' { '-' } else { cs[i] };
        out.push(c);
        assert(owner_segment(scope@).take(i + 1) =~= owner_segment(scope@).take(i as int).push(c));
    }
    assert(owner_segment(scope@).take(n as int) =~= owner_segment(scope@));
    string_of(out.as_slice())
}

/// Key directory for a MIME type: images go to `original`, videos to `video`, the rest
/// to `file`.
pub open spec fn category_dir_of(mime_type: Seq<char>) -> Seq<char> {
    let major = before_first(mime_type, '/');
    if major == "image"@ {
        "original"@
    } else if major == "video"@ {
        "video"@
    } else {
        "file"@
    }
}

fn category_dir(mime_type: &str) -> (res: String)
    ensures
        res@ == category_dir_of(mime_type@),
{
    let major = prefix_before(mime_type, '/');
    if same_text(major.as_str(), "image") {
        "original".to_owned()
    } else if same_text(major.as_str(), "video") {
        "video".to_owned()
    } else {
        "file".to_owned()
    }
}

/// Object keys, writable resources and session name decided for a grant.
#[derive(Debug)]
pub struct GrantPlan {
    pub date: String,
    pub uid: u128,
    pub object_key: String,
    pub thumb_object_key: Option<String>,
    pub resources: Vec<String>,
    pub session: String,
}

/// `users/{owner}/{dir}/{date}/{uuid}.{ext}`.
pub open spec fn object_key_of(owner: Seq<char>, dir: Seq<char>, date: Seq<char>, uid: u128, ext: Seq<char>) -> Seq<char> {
    "users/"@ + owner + "/"@ + dir + "/"@ + date + "/"@ + uuid_text_of(uid) + "."@ + ext
}

/// `g` is the grant plan for `req` under `scope`, for its date and UUID.
pub open spec fn grant_plan_spec(g: GrantPlan, scope: Seq<char>, req: IssueGrantRequest) -> bool {
    let owner = owner_segment(scope);
    &&& year_month_shaped(g.date@)
    &&& g.object_key@ == object_key_of(owner, category_dir_of(req.mime_type@), g.date@, g.uid,
        ext_of_spec(req.file_name@, "bin"@))
    &&& (g.thumb_object_key is Some <==> req.thumb_size is Some)
    &&& (g.thumb_object_key matches Some(t) ==> t@ == object_key_of(owner, "thumb"@, g.date@, g.uid, "webp"@))
    &&& g.resources@.len() == (if req.thumb_size is Some { 2int } else { 1int })
    &&& g.resources@[0] == g.object_key
    &&& (g.thumb_object_key matches Some(t) ==> g.resources@[1] == t)
    &&& g.session@ == "upload-"@ + owner
}

fn build_object_key(owner: &str, dir: &str, date: &str, uid: u128, ext: &str) -> (res: String)
    ensures
        res@ == object_key_of(owner@, dir@, date@, uid, ext@),
{
    let a = concat("users/", owner);
    let b = concat(a.as_str(), "/");
    let c = concat(b.as_str(), dir);
    let d = concat(c.as_str(), "/");
    let e = concat(d.as_str(), date);
    let f = concat(e.as_str(), "/");
    let g = concat(f.as_str(), uuid_text(uid).as_str());
    let h = concat(g.as_str(), ".");
    concat(h.as_str(), ext)
}

/// Decides the keys of a direct upload for `scope`, under the current month and a
/// fresh UUID.
pub fn plan_grant(scope: &str, req: &IssueGrantRequest) -> (g: GrantPlan)
    ensures
        grant_plan_spec(g, scope@, *req),
{
    let owner = scope_owner(scope);
    let ext = ext_of(req.file_name.as_str(), "bin");
    let date = utc_year_month();
    let uid = new_uuid_v4();
    let dir = category_dir(req.mime_type.as_str());
    let object_key = build_object_key(owner.as_str(), dir.as_str(), date.as_str(), uid, ext.as_str());
    let thumb_object_key = match req.thumb_size {
        Some(_) => Some(build_object_key(owner.as_str(), "thumb", date.as_str(), uid, "webp")),
        None => None,
    };
    let mut resources: Vec<String> = Vec::new();
    resources.push(object_key.clone());
    match &thumb_object_key {
        Some(t) => resources.push(t.clone()),
        None => {},
    }
    let session = concat("upload-", owner.as_str());
    GrantPlan { date, uid, object_key, thumb_object_key, resources, session }
}

/// The grant handed to the client once credentials were issued for `plan`.
pub fn upload_grant<B: StorageBackend>(creds: StsCredentials, plan: GrantPlan, backend: &B) -> (g: UploadGrant)
    ensures
        g.access_key_id == creds.access_key_id,
        g.access_key_secret == creds.access_key_secret,
        g.security_token == creds.security_token,
        g.expiration == creds.expiration,
        g.bucket == creds.bucket,
        g.endpoint == creds.endpoint,
        g.object_key == plan.object_key,
        g.thumb_object_key == plan.thumb_object_key,
        g.url@ == backend.url_of(plan.object_key@),
        g.thumb_url is Some <==> plan.thumb_object_key is Some,
        plan.thumb_object_key matches Some(t) ==> g.thumb_url matches Some(u) && u@ == backend.url_of(t@),
{
    let url = backend.url_for(plan.object_key.as_str());
    let thumb_url = match &plan.thumb_object_key {
        Some(k) => Some(backend.url_for(k.as_str())),
        None => None,
    };
    UploadGrant {
        access_key_id: creds.access_key_id,
        access_key_secret: creds.access_key_secret,
        security_token: creds.security_token,
        expiration: creds.expiration,
        bucket: creds.bucket,
        endpoint: creds.endpoint,
        object_key: plan.object_key,
        thumb_object_key: plan.thumb_object_key,
        url,
        thumb_url,
    }
}

/// Whether `key` lies under `users/{owner}/` of `scope`.
pub open spec fn key_in_scope(scope: Seq<char>, key: Seq<char>) -> bool {
    starts_with(key, "users/"@ + owner_segment(scope) + "/"@)
}

/// A confirmed key must lie under `users/{owner}/` of the confirming scope.
pub fn check_confirm_scope(scope: &str, object_key: &str) -> (res: Result<(), StorageError>)
    ensures
        res is Ok <==> key_in_scope(scope@, object_key@),
        res matches Err(e) ==> e matches StorageError::Forbidden(m) && m@ == "object_key 不属于当前 scope"@,
{
    let owner = scope_owner(scope);
    let a = concat("users/", owner.as_str());
    let prefix = concat(a.as_str(), "/");
    match strip_prefix(object_key, prefix.as_str()) {
        Some(_) => Ok(()),
        None => Err(StorageError::Forbidden("object_key 不属于当前 scope".to_owned())),
    }
}

/// What the backend's existence check means for a confirmation.
pub fn check_uploaded(exists: bool, object_key: &str) -> (res: Result<(), StorageError>)
    ensures
        exists ==> res is Ok,
        !exists ==> (res matches Err(StorageError::NotOnStore(k)) && k@ == object_key@),
{
    if exists {
        Ok(())
    } else {
        Err(StorageError::NotOnStore(object_key.to_owned()))
    }
}

/// `obj` is the record of the confirmed upload `req`.
pub open spec fn confirm_record_spec(obj: NewStorageObject, req: ConfirmRequest) -> bool {
    &&& obj.hash == req.hash
    &&& obj.storage_path == req.object_key
    &&& obj.size == req.file_size
    &&& obj.mime_type == req.mime_type
    &&& obj.mime_category == req.mime_category
    &&& obj.width == req.width
    &&& obj.height == req.height
    &&& obj.duration_ms == req.duration_ms
    &&& obj.thumb_path == req.thumb_object_key
    &&& obj.original_name == req.original_name
    &&& obj.upload_id is None
}

/// The record of a confirmed direct upload.
pub fn confirm_record(req: &ConfirmRequest) -> (obj: NewStorageObject)
    ensures
        confirm_record_spec(obj, *req),
{
    NewStorageObject {
        hash: req.hash.clone(),
        storage_path: req.object_key.clone(),
        size: req.file_size,
        mime_type: req.mime_type.clone(),
        mime_category: req.mime_category.clone(),
        width: req.width,
        height: req.height,
        duration_ms: req.duration_ms,
        thumb_path: match &req.thumb_object_key {
            Some(t) => Some(t.clone()),
            None => None,
        },
        original_name: match &req.original_name {
            Some(n) => Some(n.clone()),
            None => None,
        },
        upload_id: None,
    }
}

/// `r` reports the confirmed upload `req`, recorded as `obj`, with the quota `quota`.
pub open spec fn confirm_result_spec<B: StorageBackend>(r: ConfirmResult, obj: StorageObject, req: ConfirmRequest, quota: QuotaSnapshot, backend: B) -> bool {
    &&& r.file_id == obj.id
    &&& r.url@ == backend.url_of(req.object_key@)
    &&& (r.thumb_url is Some <==> req.thumb_object_key is Some)
    &&& (req.thumb_object_key matches Some(t) ==> r.thumb_url matches Some(u) && u@ == backend.url_of(t@))
    &&& r.quota == quota
}

/// The result of a confirmation once the object is recorded and quota consumed.
pub fn confirm_result<B: StorageBackend>(obj: &StorageObject, req: &ConfirmRequest, quota: QuotaSnapshot, backend: &B) -> (r: ConfirmResult)
    ensures
        confirm_result_spec(r, *obj, *req, quota, *backend),
{
    ConfirmResult {
        file_id: obj.id,
        url: backend.url_for(req.object_key.as_str()),
        thumb_url: match &req.thumb_object_key {
            Some(k) => Some(backend.url_for(k.as_str())),
            None => None,
        },
        quota,
    }
}

/// Every key granted to a scope, the object's and the thumbnail's, passes the confirm
/// check of that same scope.
pub proof fn law_granted_keys_confirm(g: GrantPlan, scope: Seq<char>, req: IssueGrantRequest)
    requires
        grant_plan_spec(g, scope, req),
    ensures
        key_in_scope(scope, g.object_key@),
        g.thumb_object_key matches Some(t) ==> key_in_scope(scope, t@),
{
    let owner = owner_segment(scope);
    let p = "users/"@ + owner + "/"@;
    let key = g.object_key@;
    assert(key.subrange(0, p.len() as int) =~= p);
    if let Some(t) = g.thumb_object_key {
        assert(t@.subrange(0, p.len() as int) =~= p);
    }
}

/// A granted key sits in the directory of its MIME type's major type: an `image/...`
/// upload goes under `original/`, a `video/...` upload under `video/`, and any other
/// under `file/`, always as `users/{owner}/{dir}/{date}/{uuid}.{ext}`; a requested
/// thumbnail goes to `users/{owner}/thumb/{date}/{uuid}.webp` under the same date and
/// UUID.
pub proof fn law_grant_key_directory(g: GrantPlan, scope: Seq<char>, req: IssueGrantRequest)
    requires
        grant_plan_spec(g, scope, req),
    ensures
        ({
            let major = before_first(req.mime_type@, '/');
            let head = "users/"@ + owner_segment(scope);
            let tail = "/"@ + g.date@ + "/"@ + uuid_text_of(g.uid) + "."@ + ext_of_spec(req.file_name@, "bin"@);
            &&& major == "image"@ ==> g.object_key@ == head + "/original"@ + tail
            &&& major == "video"@ ==> g.object_key@ == head + "/video"@ + tail
            &&& (major != "image"@ && major != "video"@) ==> g.object_key@ == head + "/file"@ + tail
            &&& (g.thumb_object_key matches Some(t) ==> t@ == head + "/thumb/"@ + g.date@ + "/"@
                + uuid_text_of(g.uid) + ".webp"@)
        }),
{
    reveal_strlit("/");
    reveal_strlit("image");
    reveal_strlit("original");
    reveal_strlit("/original");
    reveal_strlit("video");
    reveal_strlit("/video");
    reveal_strlit("file");
    reveal_strlit("/file");
    reveal_strlit("thumb");
    reveal_strlit("/thumb/");
    reveal_strlit(".");
    reveal_strlit("webp");
    reveal_strlit(".webp");
    if let Some(t) = g.thumb_object_key {
        assert(object_key_of(owner_segment(scope), "thumb"@, g.date@, g.uid, "webp"@)
            =~= "users/"@ + owner_segment(scope) + "/thumb/"@ + g.date@ + "/"@ + uuid_text_of(g.uid) + ".webp"@);
    }
    let major = before_first(req.mime_type@, '/');
    let owner = owner_segment(scope);
    let head = "users/"@ + owner;
    let date = g.date@;
    let uid = uuid_text_of(g.uid);
    let ext = ext_of_spec(req.file_name@, "bin"@);
    let tail = "/"@ + date + "/"@ + uid + "."@ + ext;
    let dir = category_dir_of(req.mime_type@);
    assert(object_key_of(owner, dir, date, g.uid, ext) =~= head + ("/"@ + dir) + tail);
    if major == "image"@ {
        assert("/"@ + dir =~= "/original"@);
        assert(major != "video"@) by {
            assert("image"@[0] != "video"@[0]);
        }
    } else if major == "video"@ {
        assert("/"@ + dir =~= "/video"@);
    } else {
        assert("/"@ + dir =~= "/file"@);
    }
}

// ---------------------------------------------------------------------------
// The grant and confirm sequences.

/// A call a direct-upload sequence asks the host to perform for the current scope.
#[derive(Debug)]
pub enum DirectCall {
    /// `QuotaPolicy::check`.
    QuotaCheck { size: i64 },
    /// `DirectUploadIssuer::issue_grant`.
    Issue { session: String, resources: Vec<String>, duration_secs: u32 },
    /// `StorageBackend::exists`.
    Exists { key: String },
    /// `FileObjectStore::insert`.
    Insert { object: NewStorageObject },
    /// `QuotaPolicy::consume`.
    QuotaConsume { size: i64 },
}

/// Outcome of a `DirectCall`.
#[derive(Debug)]
pub enum DirectReply {
    /// Outcome of `QuotaCheck` or `QuotaConsume`.
    Quota(Result<QuotaSnapshot, StorageError>),
    /// Outcome of `Issue`.
    Issued(Result<StsCredentials, StorageError>),
    /// Outcome of `Exists`.
    Exists(Result<bool, StorageError>),
    /// Outcome of `Insert`.
    Inserted(Result<StorageObject, StorageError>),
}

/// Next step of a direct-upload sequence: a call, or the outcome.
#[derive(Debug)]
pub enum DirectStep<T> {
    Call(DirectCall),
    Finish(Result<T, StorageError>),
}

/// `a` and `b` hold the same texts in the same order.
pub open spec fn same_keys(a: Seq<String>, b: Seq<String>) -> bool {
    a.len() == b.len() && forall|i: int| 0 <= i < a.len() ==> #[trigger] a[i]@ == b[i]@
}

/// Where a grant stands.
#[derive(Debug)]
pub enum GrantPhase {
    /// Waiting for the quota pre-check.
    Checking,
    /// Waiting for credentials for the planned keys.
    Issuing(GrantPlan),
    Finished,
}

/// Issuing a direct-upload grant for `scope`.
#[derive(Debug)]
pub struct GrantIssue {
    pub scope: String,
    pub req: IssueGrantRequest,
    pub phase: GrantPhase,
}

impl GrantIssue {
    /// Whether `reply` answers the call the grant is waiting for.
    pub open spec fn awaits(&self, reply: DirectReply) -> bool {
        match self.phase {
            GrantPhase::Checking => reply is Quota,
            GrantPhase::Issuing(_) => reply is Issued,
            GrantPhase::Finished => false,
        }
    }

    /// Starts a grant: the quota is checked for the declared size before anything else.
    pub fn start(scope: &str, req: IssueGrantRequest) -> (res: (GrantIssue, DirectStep<UploadGrant>))
        ensures
            res.0.scope@ == scope@,
            res.0.req == req,
            res.0.phase is Checking,
            res.1 matches DirectStep::Call(DirectCall::QuotaCheck { size }) && size == req.file_size,
    {
        let size = req.file_size;
        (GrantIssue { scope: scope.to_owned(), req, phase: GrantPhase::Checking }, DirectStep::Call(DirectCall::QuotaCheck { size }))
    }

    /// What follows `old` when the host answers with `reply`.
    pub open spec fn next<B: StorageBackend>(old: GrantIssue, backend: B, reply: DirectReply, new: GrantIssue, step: DirectStep<UploadGrant>) -> bool {
        &&& new.scope == old.scope
        &&& new.req == old.req
        &&& match (old.phase, reply) {
                (GrantPhase::Checking, DirectReply::Quota(Err(e))) => new.phase is Finished
                    && (step matches DirectStep::Finish(Err(x)) && x == e),
                (GrantPhase::Checking, DirectReply::Quota(Ok(_))) => new.phase matches GrantPhase::Issuing(p)
                    && grant_plan_spec(p, old.scope@, old.req)
                    && (step matches DirectStep::Call(DirectCall::Issue { session, resources, duration_secs })
                    && session@ == p.session@ && same_keys(resources@, p.resources@) && duration_secs == GRANT_DURATION_SECS),
                (GrantPhase::Issuing(_), DirectReply::Issued(Err(e))) => new.phase is Finished
                    && (step matches DirectStep::Finish(Err(x)) && x == e),
                (GrantPhase::Issuing(p), DirectReply::Issued(Ok(c))) => new.phase is Finished
                    && (step matches DirectStep::Finish(Ok(g)) && grant_of(g, c, p, backend)),
                _ => false,
            }
    }

    /// Advances the grant. A refused quota check ends it before any key is planned or any
    /// credential requested; a passed one plans the keys and asks for credentials limited
    /// to them for `GRANT_DURATION_SECS`; issued credentials give the grant.
    pub fn step<B: StorageBackend>(self, backend: &B, reply: DirectReply) -> (res: (GrantIssue, DirectStep<UploadGrant>))
        requires
            self.awaits(reply),
        ensures
            GrantIssue::next(self, *backend, reply, res.0, res.1),
    {
        let GrantIssue { scope, req, phase } = self;
        match (phase, reply) {
            (GrantPhase::Checking, DirectReply::Quota(Err(e))) => {
                (GrantIssue { scope, req, phase: GrantPhase::Finished }, DirectStep::Finish(Err(e)))
            },
            (GrantPhase::Checking, DirectReply::Quota(Ok(_))) => {
                let plan = plan_grant(scope.as_str(), &req);
                let call = DirectCall::Issue {
                    session: plan.session.clone(),
                    resources: plan.resources.clone(),
                    duration_secs: GRANT_DURATION_SECS,
                };
                (GrantIssue { scope, req, phase: GrantPhase::Issuing(plan) }, DirectStep::Call(call))
            },
            (GrantPhase::Issuing(_), DirectReply::Issued(Err(e))) => {
                (GrantIssue { scope, req, phase: GrantPhase::Finished }, DirectStep::Finish(Err(e)))
            },
            (GrantPhase::Issuing(plan), DirectReply::Issued(Ok(creds))) => {
                let g = upload_grant(creds, plan, backend);
                (GrantIssue { scope, req, phase: GrantPhase::Finished }, DirectStep::Finish(Ok(g)))
            },
            (phase, _) => {
                assert(false);
                (GrantIssue { scope, req, phase }, DirectStep::Finish(Err(StorageError::NotFound)))
            },
        }
    }
}

/// `g` is the grant of credentials `c` for the keys of plan `p`.
pub open spec fn grant_of<B: StorageBackend>(g: UploadGrant, c: StsCredentials, p: GrantPlan, backend: B) -> bool {
    &&& g.access_key_id == c.access_key_id
    &&& g.access_key_secret == c.access_key_secret
    &&& g.security_token == c.security_token
    &&& g.expiration == c.expiration
    &&& g.bucket == c.bucket
    &&& g.endpoint == c.endpoint
    &&& g.object_key == p.object_key
    &&& g.thumb_object_key == p.thumb_object_key
    &&& g.url@ == backend.url_of(p.object_key@)
    &&& (g.thumb_url is Some <==> p.thumb_object_key is Some)
    &&& (p.thumb_object_key matches Some(t) ==> g.thumb_url matches Some(u) && u@ == backend.url_of(t@))
}

/// Where a confirmation stands.
#[derive(Debug)]
pub enum ConfirmPhase {
    /// Waiting for the backend's existence check.
    Checking,
    /// Waiting for the record to be inserted.
    Recording,
    /// Waiting for the quota to be consumed for the recorded object.
    Consuming(StorageObject),
    Finished,
}

/// Confirming a directly uploaded object for `scope`.
#[derive(Debug)]
pub struct DirectConfirm {
    pub scope: String,
    pub req: ConfirmRequest,
    pub phase: ConfirmPhase,
}

impl DirectConfirm {
    /// Whether `reply` answers the call the confirmation is waiting for.
    pub open spec fn awaits(&self, reply: DirectReply) -> bool {
        match self.phase {
            ConfirmPhase::Checking => reply is Exists,
            ConfirmPhase::Recording => reply is Inserted,
            ConfirmPhase::Consuming(_) => reply is Quota,
            ConfirmPhase::Finished => false,
        }
    }

    /// Starts a confirmation: a key outside the scope's `users/{owner}/` is refused at
    /// once, without asking the backend, the store or the quota; otherwise the backend is
    /// asked whether the object exists.
    pub fn start(scope: &str, req: ConfirmRequest) -> (res: (DirectConfirm, DirectStep<ConfirmResult>))
        ensures
            res.0.scope@ == scope@,
            res.0.req == req,
            !key_in_scope(scope@, req.object_key@) ==> (res.0.phase is Finished
                && (res.1 matches DirectStep::Finish(Err(StorageError::Forbidden(m)))
                && m@ == "object_key 不属于当前 scope"@)),
            key_in_scope(scope@, req.object_key@) ==> (res.0.phase is Checking
                && (res.1 matches DirectStep::Call(DirectCall::Exists { key }) && key == req.object_key)),
    {
        match check_confirm_scope(scope, req.object_key.as_str()) {
            Err(e) => (DirectConfirm { scope: scope.to_owned(), req, phase: ConfirmPhase::Finished }, DirectStep::Finish(Err(e))),
            Ok(()) => {
                let key = req.object_key.clone();
                (DirectConfirm { scope: scope.to_owned(), req, phase: ConfirmPhase::Checking }, DirectStep::Call(DirectCall::Exists { key }))
            },
        }
    }

    /// What follows `old` when the host answers with `reply`.
    pub open spec fn next<B: StorageBackend>(old: DirectConfirm, backend: B, reply: DirectReply, new: DirectConfirm, step: DirectStep<ConfirmResult>) -> bool {
        &&& new.scope == old.scope
        &&& new.req == old.req
        &&& match (old.phase, reply) {
                (ConfirmPhase::Checking, DirectReply::Exists(Err(e))) => new.phase is Finished
                    && (step matches DirectStep::Finish(Err(x)) && x == e),
                (ConfirmPhase::Checking, DirectReply::Exists(Ok(false))) => new.phase is Finished
                    && (step matches DirectStep::Finish(Err(StorageError::NotOnStore(k))) && k@ == old.req.object_key@),
                (ConfirmPhase::Checking, DirectReply::Exists(Ok(true))) => new.phase is Recording
                    && (step matches DirectStep::Call(DirectCall::Insert { object }) && confirm_record_spec(object, old.req)),
                (ConfirmPhase::Recording, DirectReply::Inserted(Err(e))) => new.phase is Finished
                    && (step matches DirectStep::Finish(Err(x)) && x == e),
                (ConfirmPhase::Recording, DirectReply::Inserted(Ok(obj))) => new.phase == ConfirmPhase::Consuming(obj)
                    && (step matches DirectStep::Call(DirectCall::QuotaConsume { size }) && size == old.req.file_size),
                (ConfirmPhase::Consuming(_), DirectReply::Quota(Err(e))) => new.phase is Finished
                    && (step matches DirectStep::Finish(Err(x)) && x == e),
                (ConfirmPhase::Consuming(obj), DirectReply::Quota(Ok(q))) => new.phase is Finished
                    && (step matches DirectStep::Finish(Ok(r)) && confirm_result_spec(r, obj, old.req, q, backend)),
                _ => false,
            }
    }

    /// Advances the confirmation. An object missing from the store ends it with
    /// `NotOnStore`, before any record or quota change; an existing one is recorded, and
    /// only a recorded one consumes its declared size of quota.
    pub fn step<B: StorageBackend>(self, backend: &B, reply: DirectReply) -> (res: (DirectConfirm, DirectStep<ConfirmResult>))
        requires
            self.awaits(reply),
        ensures
            DirectConfirm::next(self, *backend, reply, res.0, res.1),
    {
        let DirectConfirm { scope, req, phase } = self;
        match (phase, reply) {
            (ConfirmPhase::Checking, DirectReply::Exists(Err(e))) => {
                (DirectConfirm { scope, req, phase: ConfirmPhase::Finished }, DirectStep::Finish(Err(e)))
            },
            (ConfirmPhase::Checking, DirectReply::Exists(Ok(exists))) => {
                match check_uploaded(exists, req.object_key.as_str()) {
                    Err(e) => (DirectConfirm { scope, req, phase: ConfirmPhase::Finished }, DirectStep::Finish(Err(e))),
                    Ok(()) => {
                        let object = confirm_record(&req);
                        (DirectConfirm { scope, req, phase: ConfirmPhase::Recording }, DirectStep::Call(DirectCall::Insert { object }))
                    },
                }
            },
            (ConfirmPhase::Recording, DirectReply::Inserted(Err(e))) => {
                (DirectConfirm { scope, req, phase: ConfirmPhase::Finished }, DirectStep::Finish(Err(e)))
            },
            (ConfirmPhase::Recording, DirectReply::Inserted(Ok(obj))) => {
                let size = req.file_size;
                (DirectConfirm { scope, req, phase: ConfirmPhase::Consuming(obj) }, DirectStep::Call(DirectCall::QuotaConsume { size }))
            },
            (ConfirmPhase::Consuming(_), DirectReply::Quota(Err(e))) => {
                (DirectConfirm { scope, req, phase: ConfirmPhase::Finished }, DirectStep::Finish(Err(e)))
            },
            (ConfirmPhase::Consuming(obj), DirectReply::Quota(Ok(q))) => {
                let r = confirm_result(&obj, &req, q, backend);
                (DirectConfirm { scope, req, phase: ConfirmPhase::Finished }, DirectStep::Finish(Ok(r)))
            },
            (phase, _) => {
                assert(false);
                (DirectConfirm { scope, req, phase }, DirectStep::Finish(Err(StorageError::NotFound)))
            },
        }
    }
}

/// A confirmation writes nothing for a key it refuses: the store is asked to insert only
/// after the backend reported the object, and quota is consumed only for a recorded one.
pub proof fn law_refused_confirm_changes_nothing<B: StorageBackend>(
    old: DirectConfirm,
    backend: B,
    reply: DirectReply,
    new: DirectConfirm,
    step: DirectStep<ConfirmResult>,
)
    requires
        old.awaits(reply),
        DirectConfirm::next(old, backend, reply, new, step),
    ensures
        step matches DirectStep::Call(DirectCall::Insert { .. }) ==> old.phase is Checking && reply == DirectReply::Exists(Ok(true)),
        step matches DirectStep::Call(DirectCall::QuotaConsume { .. }) ==> old.phase is Recording && (reply matches DirectReply::Inserted(Ok(_))),
{
}

/// Credentials are requested only after the quota check passed, and only for the keys
/// planned for the grant's own scope.
pub proof fn law_grant_checks_quota_first<B: StorageBackend>(
    old: GrantIssue,
    backend: B,
    reply: DirectReply,
    new: GrantIssue,
    step: DirectStep<UploadGrant>,
)
    requires
        old.awaits(reply),
        GrantIssue::next(old, backend, reply, new, step),
    ensures
        step matches DirectStep::Call(DirectCall::Issue { .. }) ==> (old.phase is Checking
            && (reply matches DirectReply::Quota(Ok(_)))
            && (new.phase matches GrantPhase::Issuing(p) && key_in_scope(old.scope@, p.object_key@))),
        step matches DirectStep::Finish(Ok(_)) ==> old.phase is Issuing,
{
    if let GrantPhase::Issuing(p) = new.phase {
        if old.phase is Checking {
            law_granted_keys_confirm(p, old.scope@, old.req);
        }
    }
}

/// The keys of an issued grant belong to the grant's scope, so a confirmation of them by
/// that scope passes its ownership check, and the grant's URLs are the backend's URLs of
/// those keys, the same ones a confirmation of them reports.
pub proof fn law_grant_keys_pass_confirm<B: StorageBackend>(
    old: GrantIssue,
    backend: B,
    reply: DirectReply,
    new: GrantIssue,
    step: DirectStep<UploadGrant>,
)
    requires
        old.awaits(reply),
        GrantIssue::next(old, backend, reply, new, step),
        old.phase matches GrantPhase::Issuing(p) && grant_plan_spec(p, old.scope@, old.req),
    ensures
        step matches DirectStep::Finish(Ok(g)) ==> (key_in_scope(old.scope@, g.object_key@)
            && g.url@ == backend.url_of(g.object_key@)
            && (g.thumb_object_key matches Some(t) ==> (key_in_scope(old.scope@, t@)
                && (g.thumb_url matches Some(u) && u@ == backend.url_of(t@))))),
{
    if let GrantPhase::Issuing(p) = old.phase {
        law_granted_keys_confirm(p, old.scope@, old.req);
    }
}

} // verus!
