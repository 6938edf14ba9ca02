use microbin::args::Args;
use microbin::endpoints::file::{
    content_disposition, file_response, get_file, post_secure_file, secure_file_source,
    FileRequest, SecureFileError,
};
use microbin::pasta::{Pasta, PastaFile};
use microbin::util::misc::encrypt_bytes;
use microbin::util::storage::StorageError;

fn pasta(id: u64, file: Option<&str>) -> Pasta {
    Pasta {
        id,
        content: String::from("hello"),
        file: file.map(|name| PastaFile { name: name.to_string(), size: 1 }),
        extension: String::new(),
        private: false,
        readonly: false,
        editable: true,
        encrypt_server: false,
        encrypt_client: false,
        encrypted_key: None,
        created: 0,
        expiration: 0,
        last_read: 0,
        read_count: 0,
        burn_after_reads: 0,
        pasta_type: String::from("text"),
    }
}

const NOW: i64 = 1000;

fn args() -> Args {
    let mut args = Args::default();
    args.data_dir = String::from("/data");
    args.gc_days = 0;
    args
}

fn file_of(pastas: &mut Vec<Pasta>, id: u64) -> FileRequest {
    get_file(pastas, id, "cat", NOW, &args()).answer
}

fn source_of(pastas: &mut Vec<Pasta>, id: u64) -> Option<(String, String)> {
    secure_file_source(pastas, id, "cat", NOW, &args())
        .answer
        .map(|s| (s.storage_path, s.display_name))
}

#[test]
fn download_header() {
    assert_eq!(content_disposition("report.pdf"), "attachment; filename=\"report.pdf\"");
    assert_eq!(content_disposition(""), "attachment; filename=\"\"");
}

#[test]
fn a_local_file_is_streamed() {
    let mut pastas = vec![pasta(1, Some("my_report.pdf"))];
    match file_of(&mut pastas, 1) {
        FileRequest::FromDisk { path, display_name } => {
            assert_eq!(path, "/data/attachments/cat/my_report.pdf");
            assert_eq!(display_name, "my_report.pdf");
        }
        other => panic!("not from disk: {:?}", other),
    }
}

#[test]
fn an_object_is_fetched() {
    let mut pastas = vec![pasta(1, Some("s3://attachments/cat/photo.png"))];
    match file_of(&mut pastas, 1) {
        FileRequest::FromObjectStore { storage_path, display_name, content_type } => {
            assert_eq!(storage_path, "s3://attachments/cat/photo.png");
            assert_eq!(display_name, "photo.png");
            assert_eq!(content_type, "image/png");
        }
        other => panic!("not from the object store: {:?}", other),
    }
    let mut pastas = vec![pasta(1, Some("s3://attachments/cat/blob"))];
    match file_of(&mut pastas, 1) {
        FileRequest::FromObjectStore { content_type, .. } => {
            assert_eq!(content_type, "application/octet-stream");
        }
        other => panic!("not from the object store: {:?}", other),
    }
}

#[test]
fn an_encrypted_file_asks_for_the_password() {
    let mut pastas = vec![pasta(1, Some("report.pdf")), pasta(2, Some("s3:report.pdf"))];
    pastas[0].encrypt_server = true;
    pastas[1].encrypt_server = true;
    assert!(matches!(file_of(&mut pastas, 1), FileRequest::PasswordRequired));
    assert!(matches!(file_of(&mut pastas, 2), FileRequest::PasswordRequired));
}

#[test]
fn no_entity_or_no_file() {
    let mut pastas = vec![pasta(1, None)];
    assert!(matches!(file_of(&mut pastas, 1), FileRequest::NotFound));
    assert!(matches!(file_of(&mut pastas, 2), FileRequest::NotFound));
    pastas[0].encrypt_server = true;
    assert!(matches!(file_of(&mut pastas, 1), FileRequest::NotFound));
    assert_eq!(source_of(&mut pastas, 1), None);
    assert_eq!(source_of(&mut pastas, 2), None);
}

#[test]
fn where_the_ciphertext_is() {
    let mut pastas = vec![pasta(1, Some("report.pdf")), pasta(2, Some("s3:report.pdf"))];
    assert_eq!(
        source_of(&mut pastas, 1),
        Some((String::from("data.enc"), String::from("report.pdf")))
    );
    assert_eq!(
        source_of(&mut pastas, 2),
        Some((String::from("s3://attachments/cat/data.enc"), String::from("report.pdf")))
    );
}

#[test]
fn a_response_carries_name_and_type() {
    let r = file_response(String::from("text/plain"), "a.txt", vec![1, 2]);
    assert_eq!(r.content_type, "text/plain");
    assert_eq!(r.content_disposition, "attachment; filename=\"a.txt\"");
    assert_eq!(r.body, vec![1, 2]);
}

#[test]
fn an_encrypted_file_opens_under_its_password() {
    let ciphertext = encrypt_bytes(b"the report", "pw1");
    let r = post_secure_file(Ok(ciphertext.clone()), "pw1", "report.pdf").unwrap();
    assert_eq!(r.body, b"the report".to_vec());
    assert_eq!(r.content_type, "application/pdf");
    assert_eq!(r.content_disposition, "attachment; filename=\"report.pdf\"");
    assert_eq!(
        post_secure_file(Ok(ciphertext), "pw2", "report.pdf").err(),
        Some(SecureFileError::Unauthorized)
    );
    assert_eq!(
        post_secure_file(Ok(vec![1, 2, 3]), "pw1", "report.pdf").err(),
        Some(SecureFileError::Unauthorized)
    );
}

#[test]
fn the_empty_password_opens_nothing() {
    let ciphertext = encrypt_bytes(b"the report", "");
    assert_eq!(
        post_secure_file(Ok(ciphertext), "", "report.pdf").err(),
        Some(SecureFileError::Unauthorized)
    );
}

#[test]
fn a_failure_of_the_backend_is_passed_on() {
    assert_eq!(
        post_secure_file(Err(StorageError::NotFound), "pw1", "report.pdf").err(),
        Some(SecureFileError::NotFound)
    );
    assert_eq!(
        post_secure_file(Err(StorageError::Unavailable), "pw1", "report.pdf").err(),
        Some(SecureFileError::Unavailable)
    );
    assert_eq!(
        post_secure_file(Err(StorageError::Unavailable), "", "report.pdf").err(),
        Some(SecureFileError::Unavailable)
    );
}

#[test]
fn what_is_due_is_not_served() {
    let mut pastas = vec![pasta(1, Some("a.txt")), pasta(2, Some("b.txt"))];
    pastas[0].burn_after_reads = 1;
    pastas[0].read_count = 1;
    let r = get_file(&mut pastas, 1, "cat", NOW, &args());
    assert!(matches!(r.answer, FileRequest::NotFound));
    assert_eq!(r.evicted.len(), 1);
    assert_eq!(r.evicted[0].id, 1);
    assert_eq!(pastas.len(), 1);
    pastas[0].expiration = NOW;
    let r = secure_file_source(&mut pastas, 2, "cat", NOW, &args());
    assert!(r.answer.is_none());
    assert_eq!(r.evicted.len(), 1);
    assert!(pastas.is_empty());
}
