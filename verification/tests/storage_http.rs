use frameworkx::error::ErrorKind;
use frameworkx::storage::http::{
    file_upload_form, image_upload_form, map_storage_err, mime_from_path, non_empty,
    not_uploaded_yet, parse_dimension, parse_image_transform, parse_number, part_name,
    path_within_root, public_cache_control, public_mime, public_image_missing, public_source_check,
    video_upload_form, ContentQuery, UploadPart,
};
use frameworkx::storage::image::{encoded_variant, target_dimensions, ImageExtractor};
use frameworkx::storage::model::{ImageFit, ImageOutputFormat, ImageTransform, StorageError};
use frameworkx::storage::quota::{default_quota, quota_check, reservation_outcome, QuotaAccount};
use frameworkx::storage::model::QuotaSnapshot;
use frameworkx::storage::backend::{LocalFs, StorageBackend};
use frameworkx::user::routes::request_token;

fn query(w: Option<u32>, h: Option<u32>, fit: Option<&str>, q: Option<u8>, format: Option<&str>) -> ContentQuery {
    ContentQuery {
        variant: None,
        w,
        h,
        fit: fit.map(str::to_owned),
        q,
        format: format.map(str::to_owned),
    }
}

#[test]
fn dynamic_image_query_accepts_bounded_cover_transform() {
    let transform = parse_image_transform(&query(Some(240), Some(135), Some("cover"), Some(80), Some("webp"))).unwrap();

    assert_eq!(transform.width, Some(240));
    assert_eq!(transform.height, Some(135));
    assert_eq!(transform.fit, ImageFit::Cover);
    assert_eq!(transform.format, ImageOutputFormat::WebP);
}

#[test]
fn dynamic_image_query_rejects_oversized_dimensions() {
    let result = parse_image_transform(&query(Some(4097), Some(100), None, None, None));

    assert!(result.is_err());
}

#[test]
fn dynamic_image_query_defaults_and_errors() {
    let t = parse_image_transform(&query(Some(100), None, None, None, None)).unwrap();
    assert_eq!(t.fit, ImageFit::Contain);
    assert_eq!(t.quality, 80);
    assert_eq!(t.format, ImageOutputFormat::WebP);
    assert_eq!(parse_image_transform(&query(Some(0), None, None, None, None)).unwrap_err().0.message, "图片尺寸超出允许范围");
    assert!(parse_image_transform(&query(Some(4096), Some(4096), None, None, None)).is_err());
    assert!(parse_image_transform(&query(Some(4000), Some(4000), None, None, None)).is_ok());
    assert_eq!(parse_image_transform(&query(Some(10), None, Some("crop"), None, None)).unwrap_err().0.message, "fit 仅支持 contain、cover 或 fill");
    assert_eq!(parse_image_transform(&query(Some(10), None, None, Some(39), None)).unwrap_err().0.message, "q 必须在 40 到 95 之间");
    assert!(parse_image_transform(&query(Some(10), None, None, Some(95), Some("jpg"))).is_ok());
    assert_eq!(parse_image_transform(&query(Some(10), None, None, None, Some("gif"))).unwrap_err().0.message, "format 仅支持 webp、jpeg 或 png");
    assert_eq!(parse_image_transform(&query(None, Some(5), Some("fill"), None, Some("png"))).unwrap().format, ImageOutputFormat::Png);
}

#[test]
fn content_query_flags() {
    let mut q = query(None, None, None, None, None);
    assert!(!q.wants_transform());
    assert!(!q.wants_thumbnail());
    q.variant = Some("thumbnail".into());
    assert!(q.wants_thumbnail());
    q.h = Some(3);
    assert!(q.wants_transform());
}

#[test]
fn public_image_mime_accepts_supported_extensions() {
    assert_eq!(mime_from_path("a.jpeg").unwrap(), "image/jpeg");
    assert_eq!(mime_from_path("a.webp").unwrap(), "image/webp");
}

#[test]
fn public_image_mime_rejects_non_images() {
    assert!(mime_from_path("secret.env").is_err());
}

#[test]
fn public_image_mime_ignores_case_and_directories() {
    assert_eq!(mime_from_path("/srv/original/2024/A.PNG").unwrap(), "image/png");
    assert_eq!(mime_from_path("x.Gif").unwrap(), "image/gif");
    assert!(mime_from_path("noext").is_err());
    assert!(mime_from_path(".jpg").is_err());
}

#[test]
fn public_source_rules() {
    assert!(public_source_check(true, 10, 10).is_ok());
    let e = public_source_check(true, 11, 10).unwrap_err();
    assert_eq!(e.0.code, "IMAGE_SOURCE_TOO_LARGE");
    assert_eq!(e.0.kind, ErrorKind::BadRequest);
    assert!(public_source_check(false, 1, 10).is_err());
    assert_eq!(public_image_missing().0.kind, ErrorKind::NotFound);
    assert_eq!(public_cache_control(), "public, max-age=31536000, immutable");
    let root: Vec<String> = vec!["/".into(), "srv".into()];
    let inside: Vec<String> = vec!["/".into(), "srv".into(), "original".into(), "a.jpg".into()];
    let outside: Vec<String> = vec!["/".into(), "etc".into(), "passwd".into()];
    assert!(path_within_root(&root, &inside));
    assert!(!path_within_root(&root, &outside));
    assert!(!path_within_root(&inside, &root));
}

#[test]
fn storage_errors_map_to_http_errors() {
    let e = map_storage_err(StorageError::QuotaExceeded { used_bytes: 1, quota_bytes: 1 });
    assert_eq!(e.0.kind, ErrorKind::Forbidden);
    assert_eq!(e.0.code, "STORAGE_QUOTA_EXCEEDED");
    let e = map_storage_err(StorageError::FileTooLarge { size: 20, max: 10 });
    assert_eq!(e.0.message, "文件过大: 20 bytes, 最大 10 bytes");
    let e = map_storage_err(StorageError::UnsupportedType("bmp".into()));
    assert_eq!(e.0.message, "文件类型不支持: bmp");
    assert_eq!(map_storage_err(StorageError::InvalidHash).0.code, "ASSET_HASH_INVALID");
    assert_eq!(map_storage_err(StorageError::HashMismatch).0.code, "ASSET_HASH_MISMATCH");
    assert_eq!(map_storage_err(StorageError::Forbidden("no".into())).0.message, "no");
    assert_eq!(map_storage_err(StorageError::NotOnStore("k".into())).0.message, "文件未上传成功，请重试: k");
    assert_eq!(map_storage_err(StorageError::NotFound).0.kind, ErrorKind::NotFound);
    let e = map_storage_err(StorageError::Io("boom".into()));
    assert_eq!(e.0.kind, ErrorKind::Internal);
    assert_eq!(e.0.detail.as_deref(), Some("[storage] IO 错误: boom"));
}

#[test]
fn form_fields() {
    assert_eq!(non_empty(String::new()), None);
    assert_eq!(non_empty("x".into()), Some("x".to_owned()));
    assert_eq!(parse_number(Some("1000")), 1000);
    assert_eq!(parse_number(Some("-1")), 0);
    assert_eq!(parse_number(Some("abc")), 0);
    assert_eq!(parse_number(None), 0);
    assert_eq!(parse_dimension(Some("640")), 640);
    assert_eq!(parse_dimension(Some("4294967296")), 0);
    assert_eq!(part_name(None, "image.jpg"), "image.jpg");
    assert_eq!(part_name(Some("a.png"), "image.jpg"), "a.png");
    assert_eq!(not_uploaded_yet().0.message, "文件未上传过，可以上传");
}

fn part() -> UploadPart {
    UploadPart { bytes: vec![1, 2, 3], name: "a.jpg".into() }
}

#[test]
fn upload_forms_require_their_parts() {
    assert_eq!(image_upload_form(None, Some("h".into()), None).unwrap_err().0.message, "缺少文件");
    assert_eq!(image_upload_form(Some(part()), None, None).unwrap_err().0.message, "缺少 hash");
    assert_eq!(
        image_upload_form(Some(part()), Some("h".into()), Some("nope".into())).unwrap_err().0.code,
        "ASSET_UPLOAD_ID_INVALID"
    );
    let form = image_upload_form(
        Some(part()),
        Some("h".into()),
        Some("67e55044-10b1-426f-9247-bb680e5fe0c8".into()),
    )
    .unwrap();
    assert_eq!(form.upload_id, 0x67e5504410b1426f9247bb680e5fe0c8);
    assert_eq!(form.hash, "h");

    assert_eq!(file_upload_form(None, None).unwrap_err().0.message, "缺少文件");
    assert!(file_upload_form(Some(part()), Some("h".into())).is_ok());

    assert_eq!(video_upload_form(None, None, None).unwrap_err().0.message, "缺少视频文件");
    assert_eq!(video_upload_form(Some(part()), None, None).unwrap_err().0.message, "缺少缩略图");
    assert_eq!(video_upload_form(Some(part()), Some(vec![1]), None).unwrap_err().0.message, "缺少 hash");
    assert!(video_upload_form(Some(part()), Some(vec![1]), Some("h".into())).is_ok());
}

fn transform(w: Option<u32>, h: Option<u32>, fit: ImageFit, format: ImageOutputFormat) -> ImageTransform {
    ImageTransform { width: w, height: h, fit, quality: 80, format }
}

#[test]
fn target_sizes_keep_aspect_ratio() {
    let t = transform(Some(240), None, ImageFit::Contain, ImageOutputFormat::WebP);
    assert_eq!(target_dimensions(1000, 500, t).unwrap(), (240, 120));
    let t = transform(None, Some(135), ImageFit::Contain, ImageOutputFormat::WebP);
    assert_eq!(target_dimensions(1000, 500, t).unwrap(), (270, 135));
    let t = transform(Some(1), None, ImageFit::Contain, ImageOutputFormat::WebP);
    assert_eq!(target_dimensions(1000, 10, t).unwrap(), (1, 1));
    let t = transform(Some(240), Some(135), ImageFit::Cover, ImageOutputFormat::WebP);
    assert_eq!(target_dimensions(1000, 500, t).unwrap(), (240, 135));
    let t = transform(None, None, ImageFit::Cover, ImageOutputFormat::WebP);
    match target_dimensions(1000, 500, t).unwrap_err() {
        StorageError::Image(text) => assert_eq!(text, "缺少目标宽度或高度"),
        other => panic!("unexpected {other:?}"),
    }
}

fn png_bytes(width: u32, height: u32) -> Vec<u8> {
    let image = image::DynamicImage::new_rgb8(width, height);
    let mut bytes = Vec::new();
    image.write_to(&mut std::io::Cursor::new(&mut bytes), image::ImageFormat::Png).unwrap();
    bytes
}

#[test]
fn transform_image_supports_dynamic_cover_dimensions() {
    let extractor = ImageExtractor::new(400, 80);
    let source = png_bytes(1000, 500);
    let out = extractor
        .transform_image(&source, transform(Some(240), Some(135), ImageFit::Cover, ImageOutputFormat::WebP))
        .unwrap();
    assert_eq!(out.mime_type, "image/webp");
    let decoded = image::load_from_memory(&out.bytes).unwrap();
    assert_eq!((decoded.width(), decoded.height()), (240, 135));
}

#[test]
fn transform_image_encodes_each_format() {
    let extractor = ImageExtractor::new(400, 80);
    let source = png_bytes(100, 50);
    let jpeg = extractor
        .transform_image(&source, transform(Some(40), None, ImageFit::Fill, ImageOutputFormat::Jpeg))
        .unwrap();
    assert_eq!(jpeg.mime_type, "image/jpeg");
    assert_eq!(image::load_from_memory(&jpeg.bytes).unwrap().height(), 20);
    let png = extractor
        .transform_image(&source, transform(None, Some(10), ImageFit::Contain, ImageOutputFormat::Png))
        .unwrap();
    assert_eq!(png.mime_type, "image/png");
    assert!(extractor
        .transform_image(b"not-an-image", transform(Some(10), None, ImageFit::Contain, ImageOutputFormat::Png))
        .is_err());
    assert!(extractor
        .transform_image(&source, transform(None, None, ImageFit::Contain, ImageOutputFormat::Png))
        .is_err());
}

#[test]
fn transform_image_fits_contain_and_stretches_fill() {
    let extractor = ImageExtractor::new(400, 80);
    let source = png_bytes(1000, 500);
    let contain = extractor
        .transform_image(&source, transform(Some(240), Some(240), ImageFit::Contain, ImageOutputFormat::Png))
        .unwrap();
    let d = image::load_from_memory(&contain.bytes).unwrap();
    assert_eq!((d.width(), d.height()), (240, 120));
    let fill = extractor
        .transform_image(&source, transform(Some(240), Some(240), ImageFit::Fill, ImageOutputFormat::Png))
        .unwrap();
    let d = image::load_from_memory(&fill.bytes).unwrap();
    assert_eq!((d.width(), d.height()), (240, 240));
    let cover = extractor
        .transform_image(&source, transform(Some(240), Some(240), ImageFit::Cover, ImageOutputFormat::Png))
        .unwrap();
    let d = image::load_from_memory(&cover.bytes).unwrap();
    assert_eq!((d.width(), d.height()), (240, 240));
}

#[test]
fn encoders_refuse_sizes_outside_their_range() {
    let extractor = ImageExtractor::new(400, 80);
    let source = png_bytes(100, 50);
    let wide = transform(Some(20_000), Some(1), ImageFit::Fill, ImageOutputFormat::WebP);
    assert!(matches!(extractor.transform_image(&source, wide), Err(StorageError::Image(_))));
    let jpeg = extractor
        .transform_image(&source, transform(Some(20_000), Some(1), ImageFit::Fill, ImageOutputFormat::Jpeg))
        .unwrap();
    let d = image::load_from_memory(&jpeg.bytes).unwrap();
    assert_eq!((d.width(), d.height()), (20_000, 1));
}

#[test]
fn encoded_variants_carry_the_format() {
    let v = encoded_variant(Ok(vec![1, 2, 3]), ImageOutputFormat::Png).unwrap();
    assert_eq!((v.bytes, v.mime_type.as_str()), (vec![1, 2, 3], "image/png"));
    match encoded_variant(Err("boom".to_owned()), ImageOutputFormat::WebP) {
        Err(StorageError::Image(t)) => assert_eq!(t, "boom"),
        _ => panic!("expected an image error"),
    }
}

#[test]
fn quota_rules() {
    assert_eq!(default_quota(), 104_857_600);
    let snap = QuotaSnapshot { used_bytes: 990_000, quota_bytes: 1_000_000 };
    assert!(quota_check(snap, 10_000).is_ok());
    match quota_check(snap, 20_000).unwrap_err() {
        StorageError::QuotaExceeded { used_bytes, quota_bytes } => {
            assert_eq!((used_bytes, quota_bytes), (990_000, 1_000_000));
        }
        other => panic!("unexpected {other:?}"),
    }
    assert_eq!(reservation_outcome(Some((5, 10)), snap).unwrap().used_bytes, 5);
    assert!(reservation_outcome(None, snap).is_err());

    let mut account = QuotaAccount::new(100);
    assert_eq!(account.consume(60).unwrap().used_bytes, 60);
    assert!(account.consume(41).is_err());
    assert_eq!(account.snapshot().used_bytes, 60);
    assert_eq!(account.release(60).used_bytes, 0);
    assert_eq!(account.release(5).used_bytes, 0);
}

/// A request scope resolved from the bearer token, the way a host maps tokens to scopes.
fn resolve_scope(authorization: Option<&str>, map: impl Fn(&str) -> String) -> Result<String, frameworkx::error::AppError> {
    let token = request_token(authorization)?;
    Ok(map(&token))
}

#[test]
fn bearer_resolver_maps_token_to_scope() {
    let scope = resolve_scope(Some("Bearer abc"), |token| format!("tenant:{token}")).unwrap();
    assert_eq!(scope.as_str(), "tenant:abc");
}

#[test]
fn bearer_resolver_rejects_missing_credentials() {
    let r = resolve_scope(None, |_| "unused".to_string());
    assert!(r.is_err());
    let e = r.unwrap_err();
    assert_eq!(e.kind, ErrorKind::Unauthorized);
    assert_eq!(e.message, "缺少有效登录凭据");
    assert!(resolve_scope(Some("Basic abc"), |_| "unused".to_string()).is_err());
}

#[test]
fn url_for_prefixes_path() {
    let dir = tempfile::tempdir().unwrap();
    let fs = LocalFs::new(dir.path().to_string_lossy().into_owned(), "/uploads".to_string());
    assert_eq!(fs.url_for("a/b.jpg"), "/uploads/a/b.jpg");
}

#[test]
fn public_mime_by_lowercase_extension() {
    assert_eq!(public_mime("jpeg").unwrap(), "image/jpeg");
    assert_eq!(public_mime("webp").unwrap(), "image/webp");
    assert!(public_mime("JPG").is_err());
    assert!(public_mime("").is_err());
}
