use frameworkx::error::{AppError, ErrorKind};
use frameworkx::storage::http::{ContentQuery, PublicImageCall, PublicImageRead, PublicImageReply, PublicImageStep};
use frameworkx::storage::model::{StorageError, TransformedImage};
use frameworkx::user::model::{AccountIdentifierCheck, AccountStatus, UserContext};
use frameworkx::user::routes::{CodeRequest, CodeRequestCall, CodeRequestReply, CodeRequestStep};

/// Drives a code request against fixed answers, recording each call.
fn request_code(
    channel: &str,
    identifier: &str,
    scene: &str,
    authorization: Option<&str>,
    available: bool,
) -> (Result<Option<String>, AppError>, Vec<String>) {
    let mut calls = Vec::new();
    let (mut flow, mut step) = CodeRequest::start(channel, identifier, scene, authorization);
    loop {
        match step {
            CodeRequestStep::Finish(r) => return (r, calls),
            CodeRequestStep::Call(call) => {
                let reply = match call {
                    CodeRequestCall::ResolveUser { token } => {
                        calls.push(format!("resolve {token}"));
                        CodeRequestReply::User(Ok(UserContext { account_id: 7, status: AccountStatus::Active }))
                    }
                    CodeRequestCall::CheckAccount { user, account_type, identifier } => {
                        calls.push(format!("check {} {account_type} {identifier}", user.account_id));
                        CodeRequestReply::Checked(Ok(AccountIdentifierCheck { exists: !available, owned_by_current_account: false, available }))
                    }
                    CodeRequestCall::RequestCode { channel, identifier, scene } => {
                        calls.push(format!("request {channel} {identifier} {scene}"));
                        CodeRequestReply::Requested(Ok(Some("123456".to_owned())))
                    }
                };
                let (next, next_step) = flow.step(reply);
                flow = next;
                step = next_step;
            }
        }
    }
}

#[test]
fn login_codes_are_requested_at_once() {
    let (r, calls) = request_code("email", "  a@b.c ", "login", None, true);
    assert_eq!(r.unwrap().as_deref(), Some("123456"));
    assert_eq!(calls, vec!["request email a@b.c login"]);
}

#[test]
fn unknown_scenes_are_refused_first() {
    let (r, calls) = request_code("email", "a@b.c", "other", Some("Bearer t"), true);
    assert_eq!(r.unwrap_err().code, "AUTH_CODE_SCENE_INVALID");
    assert!(calls.is_empty());
}

#[test]
fn binding_codes_need_a_user_the_right_channel_and_a_free_identifier() {
    let (r, calls) = request_code("email", "a@b.c", "bind_email", None, true);
    assert_eq!(r.unwrap_err().kind, ErrorKind::Unauthorized);
    assert!(calls.is_empty());

    let (r, calls) = request_code("sms", "a@b.c", "bind_email", Some("Bearer t"), true);
    assert_eq!(r.unwrap_err().code, "AUTH_CODE_CHANNEL_INVALID");
    assert_eq!(calls, vec!["resolve t"]);

    let (r, calls) = request_code("sms", "13800000000", "bind_phone", Some("Bearer t"), false);
    assert_eq!(r.unwrap_err().code, "AUTH_PHONE_ALREADY_BOUND");
    assert_eq!(calls, vec!["resolve t", "check 7 phone 13800000000"]);

    let (r, calls) = request_code("email", " a@b.c", "bind_email", Some("Bearer t"), true);
    assert!(r.is_ok());
    assert_eq!(calls, vec!["resolve t", "check 7 email a@b.c", "request email a@b.c bind_email"]);
}

fn content_query(w: Option<u32>) -> ContentQuery {
    ContentQuery { variant: None, w, h: None, fit: None, q: None, format: None }
}

/// Drives a public image read: the root is `/srv`, `escape` makes the file resolve outside it.
fn read_public(path: &str, w: Option<u32>, escape: bool, len: u64) -> (Result<(Vec<u8>, String), frameworkx::web::AppError>, Vec<&'static str>) {
    let mut calls = Vec::new();
    let (mut flow, mut step) = PublicImageRead::start(path, content_query(w), 1000);
    loop {
        match step {
            PublicImageStep::Finish(r) => return (r, calls),
            PublicImageStep::Call(call) => {
                let reply = match call {
                    PublicImageCall::CanonicalRoot => {
                        calls.push("root");
                        PublicImageReply::Root(Ok(vec!["/".to_owned(), "srv".to_owned()]))
                    }
                    PublicImageCall::CanonicalFile { path } => {
                        calls.push("file");
                        let dir = if escape { "etc" } else { "srv" };
                        PublicImageReply::File(Some((
                            vec!["/".to_owned(), dir.to_owned(), "original".to_owned(), path.clone()],
                            format!("/{dir}/original/{path}"),
                        )))
                    }
                    PublicImageCall::Metadata => {
                        calls.push("metadata");
                        PublicImageReply::Metadata(Some((true, len)))
                    }
                    PublicImageCall::Read => {
                        calls.push("read");
                        PublicImageReply::Read(Some(b"png-bytes".to_vec()))
                    }
                    PublicImageCall::Transform { bytes, transform } => {
                        calls.push("transform");
                        assert_eq!(bytes, b"png-bytes");
                        assert_eq!(transform.width, Some(64));
                        PublicImageReply::Transformed(Ok(TransformedImage { bytes: b"webp".to_vec(), mime_type: "image/webp".to_owned() }))
                    }
                };
                let (next, next_step) = flow.step(reply);
                flow = next;
                step = next_step;
            }
        }
    }
}

#[test]
fn public_images_are_read_only_inside_the_root() {
    let (r, calls) = read_public("a.PNG", None, false, 10);
    assert_eq!(r.unwrap(), (b"png-bytes".to_vec(), "image/png".to_owned()));
    assert_eq!(calls, vec!["root", "file", "metadata", "read"]);

    let (r, calls) = read_public("../../etc/passwd", None, true, 10);
    assert_eq!(r.unwrap_err().0.message, "图片不存在");
    assert_eq!(calls, vec!["root", "file"]);
}

#[test]
fn public_images_too_large_are_not_read() {
    let (r, calls) = read_public("a.png", None, false, 5000);
    assert_eq!(r.unwrap_err().0.code, "IMAGE_SOURCE_TOO_LARGE");
    assert_eq!(calls, vec!["root", "file", "metadata"]);
}

#[test]
fn public_images_can_be_transformed() {
    let (r, calls) = read_public("a.png", Some(64), false, 10);
    assert_eq!(r.unwrap(), (b"webp".to_vec(), "image/webp".to_owned()));
    assert_eq!(calls, vec!["root", "file", "metadata", "read", "transform"]);
    let (r, _) = read_public("a.txt", None, false, 10);
    assert_eq!(r.unwrap_err().0.message, "仅支持公开访问图片文件");
}

#[test]
fn transform_failures_map_to_http_errors() {
    let (mut flow, _) = PublicImageRead::start("a.png", content_query(Some(64)), 1000);
    for reply in [
        PublicImageReply::Root(Ok(vec!["/".to_owned()])),
        PublicImageReply::File(Some((vec!["/".to_owned(), "a.png".to_owned()], "/a.png".to_owned()))),
        PublicImageReply::Metadata(Some((true, 1))),
        PublicImageReply::Read(Some(vec![1])),
    ] {
        flow = flow.step(reply).0;
    }
    match flow.step(PublicImageReply::Transformed(Err(StorageError::Image("bad".to_owned())))).1 {
        PublicImageStep::Finish(Err(e)) => assert_eq!(e.0.kind, ErrorKind::Internal),
        _ => panic!("expected an error"),
    }
}
