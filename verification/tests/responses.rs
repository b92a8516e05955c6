use expresso::response::{listing_body, response_for, serialize_response, FsEvent, Response};
use expresso::router::Action;

#[test]
fn serialized_bytes_are_exact() {
    let r = Response {
        status: b"200 OK".to_vec(),
        content_type: b"text/plain".to_vec(),
        body: b"abc".to_vec(),
    };
    let out = serialize_response(&r);
    assert_eq!(
        out,
        b"HTTP/1.1 200 OK\r\nContent-Type: text/plain\r\nContent-Length: 3\r\n\r\nabc".to_vec()
    );
}

#[test]
fn content_length_counts_the_actual_body() {
    let r = Response {
        status: b"200 OK".to_vec(),
        content_type: b"application/octet-stream".to_vec(),
        body: vec![0u8; 12],
    };
    let out = serialize_response(&r);
    let text = String::from_utf8_lossy(&out).to_string();
    assert!(text.contains("Content-Length: 12\r\n"));
}

#[test]
fn empty_body_serializes_length_zero() {
    let r = Response {
        status: b"404 Not Found".to_vec(),
        content_type: b"text/plain".to_vec(),
        body: Vec::new(),
    };
    let out = serialize_response(&r);
    assert_eq!(
        out,
        b"HTTP/1.1 404 Not Found\r\nContent-Type: text/plain\r\nContent-Length: 0\r\n\r\n".to_vec()
    );
}

#[test]
fn listing_joins_names_with_newlines() {
    let names = vec![b"a.txt".to_vec(), b"sub".to_vec()];
    assert_eq!(listing_body(&names), b"a.txt\nsub\n".to_vec());
    assert_eq!(listing_body(&Vec::new()), Vec::<u8>::new());
}

#[test]
fn listing_response_is_200_plain() {
    let names = vec![b"x".to_vec()];
    let resp = response_for(Action::ListDir, FsEvent::Listing { names });
    assert_eq!(resp.status, b"200 OK".to_vec());
    assert_eq!(resp.content_type, b"text/plain".to_vec());
    assert_eq!(resp.body, b"x\n".to_vec());
}

#[test]
fn listing_failure_is_500() {
    let resp = response_for(Action::ListDir, FsEvent::ListFailed);
    assert_eq!(resp.status, b"500 Internal Server Error".to_vec());
    assert_eq!(resp.body, b"Failed to list directory".to_vec());
}

#[test]
fn unreadable_file_is_500() {
    let resp = response_for(
        Action::ReadFile { name: b"f".to_vec() },
        FsEvent::FileUnreadable,
    );
    assert_eq!(resp.status, b"500 Internal Server Error".to_vec());
    assert_eq!(resp.body, b"Failed to read file".to_vec());
}

#[test]
fn write_failures_name_their_stage() {
    let failed_write = response_for(
        Action::WriteFile { name: b"f".to_vec(), contents: Vec::new() },
        FsEvent::WriteFailed,
    );
    assert_eq!(failed_write.status, b"500 Internal Server Error".to_vec());
    assert_eq!(failed_write.body, b"Failed to write file".to_vec());
    let failed_create = response_for(
        Action::WriteFile { name: b"f".to_vec(), contents: Vec::new() },
        FsEvent::CreateFailed,
    );
    assert_eq!(failed_create.body, b"Failed to create file".to_vec());
}

#[test]
fn deleted_directory_and_failures_answered() {
    let dir = response_for(Action::DeleteEntry { name: b"d".to_vec() }, FsEvent::DeletedDir);
    assert_eq!(dir.status, b"200 OK".to_vec());
    assert_eq!(dir.body, b"Directory deleted".to_vec());
    let ff = response_for(
        Action::DeleteEntry { name: b"d".to_vec() },
        FsEvent::DeleteFileFailed,
    );
    assert_eq!(ff.body, b"Failed to delete file".to_vec());
    let df = response_for(
        Action::DeleteEntry { name: b"d".to_vec() },
        FsEvent::DeleteDirFailed,
    );
    assert_eq!(df.body, b"Failed to delete directory".to_vec());
}

#[test]
fn served_asset_keeps_its_content_type() {
    let ok = response_for(
        Action::ServeAsset { name: b"styles.css".to_vec(), content_type: b"text/css".to_vec() },
        FsEvent::FileData { data: b"body{}".to_vec() },
    );
    assert_eq!(ok.status, b"200 OK".to_vec());
    assert_eq!(ok.content_type, b"text/css".to_vec());
    assert_eq!(ok.body, b"body{}".to_vec());
    let missing = response_for(
        Action::ServeAsset { name: b"styles.css".to_vec(), content_type: b"text/css".to_vec() },
        FsEvent::FileMissing,
    );
    assert_eq!(missing.status, b"404 Not Found".to_vec());
    assert_eq!(missing.body, b"404 - File Not Found".to_vec());
}
