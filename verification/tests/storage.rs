use microbin::args::Args;
use microbin::util::storage::{generate_storage_path, locate, StorageError, StorageTarget};

fn s3() -> Args {
    let mut args = Args::default();
    args.s3_endpoint = Some(String::from("http://localhost:9000"));
    args.s3_bucket = Some(String::from("bucket"));
    args.s3_access_key = Some(String::from("access"));
    args.s3_secret_key = Some(String::from("SECRET-REDACTED"));
    args
}

#[test]
fn storage_path_of_a_local_file() {
    let args = Args::default();
    assert_eq!(generate_storage_path("cat-dog", "report.pdf", &args), "report.pdf");
    assert_eq!(generate_storage_path("cat-dog", "data.enc", &args), "data.enc");
    assert_eq!(generate_storage_path("", "", &args), "");
}

#[test]
fn storage_path_of_an_object() {
    let args = s3();
    assert_eq!(
        generate_storage_path("cat-dog", "report.pdf", &args),
        "s3://attachments/cat-dog/report.pdf"
    );
    assert_eq!(
        generate_storage_path("cat-dog", "data.enc", &args),
        "s3://attachments/cat-dog/data.enc"
    );
}

#[test]
fn an_object_path_names_an_object() {
    let args = Args::default();
    match locate("cat-dog", "s3://attachments/cat-dog/report.pdf", &args) {
        StorageTarget::S3 { key } => assert_eq!(key, "attachments/cat-dog/report.pdf"),
        other => panic!("not an object: {:?}", other),
    }
    match locate("cat-dog", "s3://", &args) {
        StorageTarget::S3 { key } => assert_eq!(key, ""),
        other => panic!("not an object: {:?}", other),
    }
}

#[test]
fn another_path_names_a_local_file() {
    let mut args = s3();
    args.data_dir = String::from("/var/lib/microbin");
    match locate("cat-dog", "data.enc", &args) {
        StorageTarget::Local { dir, path } => {
            assert_eq!(dir, "/var/lib/microbin/attachments/cat-dog");
            assert_eq!(path, "/var/lib/microbin/attachments/cat-dog/data.enc");
        }
        other => panic!("not a file: {:?}", other),
    }
    // the tag of an encrypted object is no storage path of the object store
    match locate("cat-dog", "s3:report.pdf", &args) {
        StorageTarget::Local { dir, path } => {
            assert_eq!(dir, "/var/lib/microbin/attachments/cat-dog");
            assert_eq!(path, "/var/lib/microbin/attachments/cat-dog/s3:report.pdf");
        }
        other => panic!("not a file: {:?}", other),
    }
}

#[test]
fn storage_errors_are_told_apart() {
    assert_ne!(StorageError::NotFound, StorageError::Unavailable);
    assert_eq!(StorageError::of_status(404), StorageError::NotFound);
    assert_eq!(StorageError::of_status(403), StorageError::Unavailable);
    assert_eq!(StorageError::of_status(500), StorageError::Unavailable);
    assert_eq!(StorageError::of_status(0), StorageError::Unavailable);
}

#[test]
fn only_objects_are_deleted_in_the_background() {
    let args = Args::default();
    assert!(locate("cat", "s3://attachments/cat/a.txt", &args).deferrable());
    assert!(!locate("cat", "a.txt", &args).deferrable());
    assert!(!locate("cat", "data.enc", &args).deferrable());
}
