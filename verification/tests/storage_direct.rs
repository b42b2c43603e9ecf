use frameworkx::storage::backend::LocalFs;
use frameworkx::storage::direct::{
    ConfirmRequest, ConfirmResult, DirectCall, DirectConfirm, DirectReply, DirectStep, GrantIssue,
    IssueGrantRequest, StsCredentials, UploadGrant,
};
use frameworkx::storage::model::{StorageError, StorageObject};
use frameworkx::storage::quota::{quota_check, QuotaAccount};

/// In-memory object store, quota, issuer and bucket; it records every call it performs.
struct Host {
    quota: QuotaAccount,
    on_store: Vec<String>,
    records: Vec<StorageObject>,
    calls: Vec<&'static str>,
    issued_for: Vec<String>,
}

impl Host {
    fn new(used: i64, quota: i64) -> Self {
        let mut account = QuotaAccount::new(quota);
        account.used_bytes = used;
        Host { quota: account, on_store: Vec::new(), records: Vec::new(), calls: Vec::new(), issued_for: Vec::new() }
    }

    fn perform(&mut self, call: DirectCall) -> DirectReply {
        match call {
            DirectCall::QuotaCheck { size } => {
                self.calls.push("check");
                DirectReply::Quota(quota_check(self.quota.snapshot(), size))
            }
            DirectCall::Issue { resources, .. } => {
                self.calls.push("issue");
                self.issued_for = resources;
                DirectReply::Issued(Ok(StsCredentials {
                    access_key_id: "id".into(),
                    access_key_secret: "secret".into(),
                    security_token: "token".into(),
                    expiration: "2030-01-01T00:00:00Z".into(),
                    bucket: "bkt".into(),
                    endpoint: "oss".into(),
                }))
            }
            DirectCall::Exists { key } => {
                self.calls.push("exists");
                DirectReply::Exists(Ok(self.on_store.contains(&key)))
            }
            DirectCall::Insert { object } => {
                self.calls.push("insert");
                let obj = StorageObject {
                    id: self.records.len() as i64 + 1,
                    hash: object.hash,
                    storage_path: object.storage_path,
                    size: object.size,
                    mime_type: object.mime_type,
                    mime_category: object.mime_category,
                    width: object.width,
                    height: object.height,
                    duration_ms: object.duration_ms,
                    thumb_path: object.thumb_path,
                    original_name: object.original_name,
                    ref_count: 1,
                };
                self.records.push(obj.clone());
                DirectReply::Inserted(Ok(obj))
            }
            DirectCall::QuotaConsume { size } => {
                self.calls.push("consume");
                DirectReply::Quota(self.quota.consume(size))
            }
        }
    }

    fn grant(&mut self, scope: &str, req: IssueGrantRequest) -> Result<UploadGrant, StorageError> {
        let urls = LocalFs::new("/unused".into(), "https://bkt.oss".into());
        let (mut flow, mut step) = GrantIssue::start(scope, req);
        loop {
            match step {
                DirectStep::Finish(r) => return r,
                DirectStep::Call(call) => {
                    let reply = self.perform(call);
                    let (next, next_step) = flow.step(&urls, reply);
                    flow = next;
                    step = next_step;
                }
            }
        }
    }

    fn confirm(&mut self, scope: &str, req: ConfirmRequest) -> Result<ConfirmResult, StorageError> {
        let urls = LocalFs::new("/unused".into(), "https://bkt.oss".into());
        let (mut flow, mut step) = DirectConfirm::start(scope, req);
        loop {
            match step {
                DirectStep::Finish(r) => return r,
                DirectStep::Call(call) => {
                    let reply = self.perform(call);
                    let (next, next_step) = flow.step(&urls, reply);
                    flow = next;
                    step = next_step;
                }
            }
        }
    }
}

fn grant_request(size: i64, thumb: bool) -> IssueGrantRequest {
    IssueGrantRequest {
        file_name: "clip.MP4".into(),
        file_size: size,
        mime_type: "video/mp4".into(),
        thumb_size: if thumb { Some(10) } else { None },
    }
}

fn confirm_request(key: &str) -> ConfirmRequest {
    ConfirmRequest {
        object_key: key.into(),
        file_size: 100,
        mime_type: "video/mp4".into(),
        mime_category: "video".into(),
        hash: "h".into(),
        thumb_object_key: None,
        width: None,
        height: None,
        duration_ms: Some(5),
        original_name: Some("clip.mp4".into()),
    }
}

#[test]
fn grant_checks_quota_before_issuing() {
    let mut host = Host::new(990, 1000);
    let err = host.grant("user:1", grant_request(20, false)).unwrap_err();
    assert!(matches!(err, StorageError::QuotaExceeded { .. }));
    assert_eq!(host.calls, vec!["check"]);
}

#[test]
fn grant_issues_credentials_for_the_scope_keys() {
    let mut host = Host::new(0, 1000);
    let g = host.grant("user:1", grant_request(20, true)).unwrap();
    assert_eq!(host.calls, vec!["check", "issue"]);
    assert!(g.object_key.starts_with("users/user-1/video/"));
    assert!(g.object_key.ends_with(".mp4"));
    let thumb = g.thumb_object_key.clone().unwrap();
    assert!(thumb.starts_with("users/user-1/thumb/") && thumb.ends_with(".webp"));
    assert_eq!(host.issued_for, vec![g.object_key.clone(), thumb.clone()]);
    assert_eq!(g.url, format!("https://bkt.oss/{}", g.object_key));
    assert_eq!(g.thumb_url, Some(format!("https://bkt.oss/{}", thumb)));
    assert_eq!((g.access_key_id.as_str(), g.bucket.as_str()), ("id", "bkt"));
}

#[test]
fn confirm_outside_the_scope_touches_nothing() {
    let mut host = Host::new(0, 1000);
    host.on_store.push("users/user-2/video/x.mp4".into());
    let err = host.confirm("user:1", confirm_request("users/user-2/video/x.mp4")).unwrap_err();
    assert!(matches!(err, StorageError::Forbidden(_)));
    assert!(host.calls.is_empty());
    assert!(host.records.is_empty());
    assert_eq!(host.quota.used_bytes, 0);
}

#[test]
fn confirm_of_a_missing_object_touches_neither_store_nor_quota() {
    let mut host = Host::new(0, 1000);
    let err = host.confirm("user:1", confirm_request("users/user-1/video/x.mp4")).unwrap_err();
    assert!(matches!(err, StorageError::NotOnStore(ref k) if k == "users/user-1/video/x.mp4"));
    assert_eq!(host.calls, vec!["exists"]);
    assert!(host.records.is_empty());
    assert_eq!(host.quota.used_bytes, 0);
}

#[test]
fn confirm_records_then_consumes() {
    let mut host = Host::new(0, 1000);
    host.on_store.push("users/user-1/video/x.mp4".into());
    let r = host.confirm("user:1", confirm_request("users/user-1/video/x.mp4")).unwrap();
    assert_eq!(host.calls, vec!["exists", "insert", "consume"]);
    assert_eq!(r.file_id, 1);
    assert_eq!(r.url, "https://bkt.oss/users/user-1/video/x.mp4");
    assert_eq!(r.quota.used_bytes, 100);
    assert_eq!(host.records[0].storage_path, "users/user-1/video/x.mp4");
}

#[test]
fn granted_keys_can_be_confirmed_by_their_scope() {
    let mut host = Host::new(0, 1000);
    let g = host.grant("user:1", grant_request(100, true)).unwrap();
    host.on_store.push(g.object_key.clone());
    let mut req = confirm_request(&g.object_key);
    req.thumb_object_key = g.thumb_object_key.clone();
    let r = host.confirm("user:1", req).unwrap();
    assert_eq!(r.url, g.url);
    assert_eq!(r.thumb_url, g.thumb_url);
    assert_eq!(r.quota.used_bytes, 100);
    assert_eq!(host.records[0].storage_path, g.object_key);
    assert!(matches!(host.confirm("user:2", confirm_request(&g.object_key)), Err(StorageError::Forbidden(_))));
}
