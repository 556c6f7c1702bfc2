use staff_records::authorization::Context;
use staff_records::errors::AppError;
use staff_records::authorization::Identity;
use staff_records::handlers::file::{
    extension_for, upload_file, upload_file_with, PendingObject, Upload, UploadResponse,
    MAX_UPLOAD_BYTES,
};
use staff_records::utils::jwt::issue;

const USER: &str = "550e8400-e29b-41d4-a716-446655440000";
const PNG: [u8; 8] = [0x89, 0x50, 0x4E, 0x47, 0x0D, 0x0A, 0x1A, 0x0A];
const JPEG: [u8; 4] = [0xFF, 0xD8, 0xFF, 0xE0];

fn context() -> Context {
    Context {
        secret: "secret".to_string(),
        now: 1_000,
        fresh_id: "11111111-2222-4333-8444-555555555555".to_string(),
    }
}

fn header() -> String {
    format!("Bearer {}", issue(USER, 60, 1_000, "secret").unwrap())
}

fn png_of(size: usize) -> Vec<u8> {
    let mut bytes = PNG.to_vec();
    bytes.resize(size, 0);
    bytes
}

fn opened() -> Upload {
    upload_file(&context(), Some(&header())).unwrap()
}

fn bad_request(message: &str) -> AppError {
    AppError::BadRequest(message.to_string())
}

#[test]
fn upload_needs_a_valid_token() {
    assert_eq!(
        upload_file(&context(), None),
        Err(AppError::Unauthorized("Missing or empty token".to_string()))
    );
    assert_eq!(
        upload_file(&context(), Some("Bearer junk")),
        Err(AppError::Unauthorized("Invalid or expired token".to_string()))
    );
    assert_eq!(opened(), Upload { user_id: USER.to_string(), data: vec![] });
}

#[test]
fn field_must_be_named_file() {
    assert_eq!(opened().field("file"), Ok(opened()));
    assert_eq!(
        opened().field("image"),
        Err(bad_request("Invalid field name: expected 'file'"))
    );
}

#[test]
fn upload_of_exactly_the_ceiling_succeeds() {
    assert_eq!(MAX_UPLOAD_BYTES, 102_400);
    let bytes = png_of(102_400);
    let upload = opened().receive(&bytes).unwrap();
    assert_eq!(upload.data.len(), 102_400);
    let object = upload.finish(&context(), Some("bucket")).unwrap();
    assert_eq!(
        object,
        PendingObject {
            bucket: "bucket".to_string(),
            key: "11111111-2222-4333-8444-555555555555.png".to_string(),
            body: bytes,
            uri: "https://bucket.s3.amazonaws.com/11111111-2222-4333-8444-555555555555.png"
                .to_string(),
        }
    );
    assert_eq!(
        object.conclude(true),
        Ok(UploadResponse {
            uri: "https://bucket.s3.amazonaws.com/11111111-2222-4333-8444-555555555555.png"
                .to_string(),
        })
    );
}

#[test]
fn upload_of_one_byte_more_is_rejected() {
    assert_eq!(
        opened().receive(&png_of(102_401)),
        Err(bad_request("File size exceeds 100KiB limit"))
    );
}

#[test]
fn ceiling_is_checked_as_the_chunks_arrive() {
    let bytes = png_of(102_401);
    let mut upload = opened();
    let mut rejected_at = None;
    for (index, chunk) in bytes.chunks(4_096).enumerate() {
        match upload.clone().receive(chunk) {
            Ok(next) => {
                assert!(next.data.len() <= MAX_UPLOAD_BYTES);
                assert_eq!(next.data[..], bytes[..next.data.len()]);
                upload = next;
            }
            Err(e) => {
                assert_eq!(e, bad_request("File size exceeds 100KiB limit"));
                rejected_at = Some(index);
                break;
            }
        }
    }
    assert_eq!(rejected_at, Some(25));
    assert_eq!(upload.data.len(), 102_400);
}

#[test]
fn chunks_are_appended_in_order() {
    let upload = opened().receive(&[1, 2]).unwrap().receive(&[]).unwrap().receive(&[3]).unwrap();
    assert_eq!(upload.data, vec![1, 2, 3]);
    assert_eq!(upload.user_id, USER);
}

#[test]
fn empty_upload_is_rejected() {
    assert_eq!(
        opened().finish(&context(), Some("bucket")),
        Err(bad_request("File part is missing"))
    );
}

#[test]
fn unknown_bytes_are_rejected() {
    let upload = opened().receive(&[1, 2, 3, 4]).unwrap();
    assert_eq!(
        upload.finish(&context(), Some("bucket")),
        Err(bad_request("Unable to detect file type"))
    );
}

#[test]
fn other_types_are_rejected_whatever_they_are_called() {
    let upload = opened().receive(b"GIF89a\x01\x00\x01\x00").unwrap();
    assert_eq!(
        upload.finish(&context(), Some("bucket")),
        Err(bad_request("Only JPEG, JPG, and PNG files are allowed"))
    );
    let upload = opened().receive(b"%PDF-1.4 image.png").unwrap();
    assert_eq!(
        upload.finish(&context(), Some("bucket")),
        Err(bad_request("Only JPEG, JPG, and PNG files are allowed"))
    );
}

#[test]
fn jpeg_is_stored_as_jpg() {
    let upload = opened().receive(&JPEG).unwrap();
    let object = upload.finish(&context(), Some("media")).unwrap();
    assert_eq!(object.key, "11111111-2222-4333-8444-555555555555.jpg");
    assert_eq!(
        object.uri,
        "https://media.s3.amazonaws.com/11111111-2222-4333-8444-555555555555.jpg"
    );
    assert_eq!(object.body, JPEG.to_vec());
}

#[test]
fn missing_bucket_is_a_server_error() {
    let upload = opened().receive(&PNG).unwrap();
    assert_eq!(
        upload.finish(&context(), None),
        Err(AppError::InternalServerError("AWS_S3_BUCKET not set".to_string()))
    );
}

#[test]
fn failed_transport_is_a_server_error() {
    let object = opened().receive(&PNG).unwrap().finish(&context(), Some("bucket")).unwrap();
    let refused = object.conclude(false);
    assert_eq!(refused, Err(AppError::AWSError("Failed to upload file".to_string())));
    assert_eq!(refused.unwrap_err().status(), 500);
}

#[test]
fn extensions_of_the_accepted_types() {
    assert_eq!(extension_for("image/jpeg"), Some("jpg"));
    assert_eq!(extension_for("image/jpg"), Some("jpg"));
    assert_eq!(extension_for("image/png"), Some("png"));
    assert_eq!(extension_for("image/gif"), None);
    assert_eq!(extension_for(""), None);
}

#[test]
fn upload_opens_for_the_identity_it_is_given() {
    assert_eq!(
        upload_file_with(Ok(Identity { user_id: USER.to_string() })),
        Ok(Upload { user_id: USER.to_string(), data: vec![] })
    );
    assert_eq!(
        upload_file_with(Err(AppError::Unauthorized("no".to_string()))),
        Err(AppError::Unauthorized("no".to_string()))
    );
}

#[test]
fn finished_upload_follows_the_type_it_is_given() {
    let upload = || Upload { user_id: USER.to_string(), data: vec![1, 2, 3] };
    let finish = |mime: Option<&str>, bucket: Option<&str>| {
        upload().finish_with(&context(), bucket, mime.map(str::to_string))
    };
    assert_eq!(
        finish(Some("image/jpg"), Some("b")),
        Ok(PendingObject {
            bucket: "b".to_string(),
            key: "11111111-2222-4333-8444-555555555555.jpg".to_string(),
            body: vec![1, 2, 3],
            uri: "https://b.s3.amazonaws.com/11111111-2222-4333-8444-555555555555.jpg"
                .to_string(),
        })
    );
    assert_eq!(finish(None, Some("b")), Err(bad_request("Unable to detect file type")));
    assert_eq!(
        finish(Some("image/gif"), Some("b")),
        Err(bad_request("Only JPEG, JPG, and PNG files are allowed"))
    );
    assert_eq!(
        finish(Some("image/png"), None),
        Err(AppError::InternalServerError("AWS_S3_BUCKET not set".to_string()))
    );
    assert_eq!(
        Upload { user_id: USER.to_string(), data: vec![] }.finish_with(
            &context(),
            Some("b"),
            Some("image/png".to_string())
        ),
        Err(bad_request("File part is missing"))
    );
}
