use admission::minio::{
    accept_upload, bytes_at, generate_key_args, identify_image, image_name, is_image_media,
    to_ascii_lower, MinioInitialiser, SetupAction, SupportedImage, UploadError, IMG_BUCKET_NAME,
    MSG_NOT_AN_IMAGE, MSG_UNSUPPORTED_IMAGE, TMP_IMG_BUCKET_NAME,
};

#[test]
fn pictures_are_told_by_their_first_bytes() {
    assert_eq!(identify_image(&[0xFF, 0xD8, 0xFF, 0xE0, 0x00]), Some(SupportedImage::JPG));
    assert_eq!(identify_image(&[0xFF, 0xD8, 0xFF]), Some(SupportedImage::JPG));
    assert_eq!(identify_image(&[0x89, b'P', b'N', b'G', 0x0D, 0x0A]), Some(SupportedImage::PNG));
    assert_eq!(identify_image(b"GIF87a...."), Some(SupportedImage::GIF));
    assert_eq!(identify_image(b"GIF89a"), Some(SupportedImage::GIF));
    assert_eq!(identify_image(b"RIFF\x00\x00\x00\x00WEBPVP8 "), Some(SupportedImage::WEBP));
}

#[test]
fn other_bytes_are_no_picture() {
    assert_eq!(identify_image(&[]), None);
    assert_eq!(identify_image(&[0xFF, 0xD8]), None);
    assert_eq!(identify_image(&[0x89, b'P', b'N']), None);
    assert_eq!(identify_image(b"GIF88a"), None);
    assert_eq!(identify_image(b"RIFF\x00\x00\x00\x00WEBP"), None);
    assert_eq!(identify_image(b"RIFF\x00\x00\x00\x00WAVEfmt "), None);
    assert_eq!(identify_image(b"RIFX\x00\x00\x00\x00WEBPVP8 "), None);
    assert_eq!(identify_image(b"<html>"), None);
}

#[test]
fn bytes_are_found_where_they_stand() {
    assert!(bytes_at(b"abcdef", 2, b"cd"));
    assert!(bytes_at(b"abcdef", 4, b"ef"));
    assert!(bytes_at(b"abcdef", 6, b""));
    assert!(!bytes_at(b"abcdef", 5, b"fg"));
    assert!(!bytes_at(b"abcdef", 7, b""));
    assert!(!bytes_at(b"abcdef", 2, b"ce"));
}

#[test]
fn image_name_is_the_hash_of_prefix_and_bytes() {
    assert_eq!(
        image_name(b"", b""),
        "af1349b9f5f9a1a6a0404dea36dcc9499bcb25c9adc112b7cc9a93cae41f3262"
    );
    let whole = blake3::hash(b"secretpicture").to_hex().to_string();
    assert_eq!(image_name(b"secret", b"picture"), whole);
    assert_eq!(image_name(b"secretpic", b"ture"), whole);
    assert_ne!(image_name(b"secret", b"picture"), image_name(b"", b"picture"));
    assert_ne!(image_name(b"secret", b"picture"), "picture");
}

#[test]
fn content_type_must_be_a_known_image_type() {
    assert!(is_image_media(true, "image"));
    assert!(is_image_media(true, "IMAGE"));
    assert!(is_image_media(true, "Image"));
    assert!(!is_image_media(false, "image"));
    assert!(!is_image_media(true, "images"));
    assert!(!is_image_media(true, "imag"));
    assert!(!is_image_media(true, "text"));
    assert!(!is_image_media(true, ""));
    assert!(!is_image_media(true, "ımage"));
    assert_eq!(to_ascii_lower('A'), 'a');
    assert_eq!(to_ascii_lower('Z'), 'z');
    assert_eq!(to_ascii_lower('a'), 'a');
    assert_eq!(to_ascii_lower('@'), '@');
    assert_eq!(to_ascii_lower('['), '[');
    assert_eq!(to_ascii_lower('É'), 'É');
}

#[test]
fn key_carries_owner_and_kind() {
    let key = generate_key_args(&"abc123".to_string(), "Users:ann".to_string(), &SupportedImage::WEBP);
    assert_eq!(key.name, "abc123");
    assert_eq!(
        key.metadata,
        vec![
            ("Owner".to_string(), "Users:ann".to_string()),
            ("ImgType".to_string(), "WEBP".to_string()),
        ]
    );
    assert_eq!(SupportedImage::JPG.name(), "JPG");
    assert_eq!(SupportedImage::PNG.name(), "PNG");
    assert_eq!(SupportedImage::GIF.name(), "GIF");
    assert_eq!(SupportedImage::WEBP.name(), format!("{:?}", SupportedImage::WEBP));
}

#[test]
fn upload_is_accepted_under_its_hashed_name() {
    let data = [0x89, b'P', b'N', b'G', 1, 2, 3];
    let accepted = accept_upload(true, "image", b"iv", &data, "Users:ann".to_string()).unwrap();
    assert_eq!(accepted.kind, SupportedImage::PNG);
    let mut whole = b"iv".to_vec();
    whole.extend_from_slice(&data);
    assert_eq!(accepted.key.name, blake3::hash(&whole).to_hex().to_string());
    assert_eq!(
        accepted.key.metadata,
        vec![
            ("Owner".to_string(), "Users:ann".to_string()),
            ("ImgType".to_string(), "PNG".to_string()),
        ]
    );
}

#[test]
fn upload_is_refused_by_type_then_by_content() {
    let png = [0x89, b'P', b'N', b'G'];
    assert_eq!(
        accept_upload(true, "text", b"iv", &png, "u".to_string()),
        Err(UploadError::UnsupportedMediaType(MSG_NOT_AN_IMAGE))
    );
    assert_eq!(
        accept_upload(false, "image", b"iv", &png, "u".to_string()),
        Err(UploadError::UnsupportedMediaType(MSG_NOT_AN_IMAGE))
    );
    assert_eq!(
        accept_upload(false, "text", b"iv", b"plain", "u".to_string()),
        Err(UploadError::UnsupportedMediaType(MSG_NOT_AN_IMAGE))
    );
    assert_eq!(
        accept_upload(true, "image", b"iv", b"plain", "u".to_string()),
        Err(UploadError::UnsupportedMediaType(MSG_UNSUPPORTED_IMAGE))
    );
}

#[test]
fn upload_errors_have_their_status() {
    assert_eq!(UploadError::FileSizeExceeded("x").status(), 403);
    assert_eq!(UploadError::MinioError("x").status(), 500);
    assert_eq!(UploadError::UnsupportedMediaType("x").status(), 403);
}

#[test]
fn missing_buckets_are_created_temporary_first() {
    assert_eq!(MinioInitialiser::plan(true, true), vec![]);
    assert_eq!(
        MinioInitialiser::plan(false, true),
        vec![SetupAction::CreateBucket(IMG_BUCKET_NAME, false)]
    );
    assert_eq!(
        MinioInitialiser::plan(true, false),
        vec![
            SetupAction::CreateBucket(TMP_IMG_BUCKET_NAME, true),
            SetupAction::SetRetentionDays(TMP_IMG_BUCKET_NAME, 1),
        ]
    );
    assert_eq!(
        MinioInitialiser::plan(false, false),
        vec![
            SetupAction::CreateBucket("rf-images-tmp", true),
            SetupAction::SetRetentionDays("rf-images-tmp", 1),
            SetupAction::CreateBucket("rf-images", false),
        ]
    );
}
