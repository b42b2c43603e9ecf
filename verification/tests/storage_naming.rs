use frameworkx::storage::naming::{ext_of, mime_from_ext, object_path, truncate_filename, uuid_text};

#[test]
fn extensions_are_lowercased_with_a_fallback() {
    assert_eq!(ext_of("Photo.JPG", "bin"), "jpg");
    assert_eq!(ext_of("archive.tar.gz", "bin"), "gz");
    assert_eq!(ext_of("README", "BIN"), "bin");
    assert_eq!(ext_of(".hidden", "bin"), "bin");
}

#[test]
fn long_names_keep_their_tail() {
    assert_eq!(truncate_filename("short.txt", 255), "short.txt");
    assert_eq!(truncate_filename("abcdefgh.png", 6), "…gh.png");
    assert_eq!(truncate_filename("图片文件名.jpg", 5), "…名.jpg");
}

#[test]
fn mime_types_by_extension() {
    assert_eq!(mime_from_ext("pdf"), "application/pdf");
    assert_eq!(mime_from_ext("docx"), "application/msword");
    assert_eq!(mime_from_ext("xls"), "application/vnd.ms-excel");
    assert_eq!(mime_from_ext("pptx"), "application/vnd.ms-powerpoint");
    assert_eq!(mime_from_ext("zip"), "application/zip");
    assert_eq!(mime_from_ext("rar"), "application/x-rar-compressed");
    assert_eq!(mime_from_ext("txt"), "text/plain");
    assert_eq!(mime_from_ext("mp3"), "audio/mpeg");
    assert_eq!(mime_from_ext("wav"), "audio/wav");
    assert_eq!(mime_from_ext("aac"), "audio/aac");
    assert_eq!(mime_from_ext("ogg"), "audio/ogg");
    assert_eq!(mime_from_ext("m4a"), "audio/mp4");
    assert_eq!(mime_from_ext("exe"), "application/octet-stream");
    assert_eq!(mime_from_ext("PDF"), "application/octet-stream");
}

#[test]
fn uuid_text_is_the_hyphenated_form() {
    let v: u128 = 0x67e5504410b1426f9247bb680e5fe0c8;
    assert_eq!(uuid_text(v), "67e55044-10b1-426f-9247-bb680e5fe0c8");
    assert_eq!(uuid_text(v), uuid::Uuid::from_u128(v).to_string());
    assert_eq!(uuid_text(0), "00000000-0000-0000-0000-000000000000");
    let fresh = uuid::Uuid::new_v4();
    assert_eq!(uuid_text(fresh.as_u128()), fresh.to_string());
}

#[test]
fn object_paths_join_dir_date_uuid_and_extension() {
    let v: u128 = 0x67e5504410b1426f9247bb680e5fe0c8;
    assert_eq!(object_path("original", "2024/05", v, "png"), "original/2024/05/67e55044-10b1-426f-9247-bb680e5fe0c8.png");
}
