use microbin::args::Args;
use microbin::endpoints::create::{
    burn_after_reads, check_uploader_cookie, commit, create, expiration_to_timestamp,
    generate_id, generate_uploader_token, hex_string, login_submit, redirect_after_create,
    CreationError, CreationOutcome, CreationRequest, LoginOutcome, UploaderCheck,
    UploaderLoginForm,
};
use microbin::endpoints::remove::{is_password_correct, post_remove, RemovalDecision};
use microbin::pasta::{Pasta, PastaFile, PrivacyMode};
use microbin::store::IndexAction;
use microbin::util::misc::{decrypt, decrypt_bytes};
use microbin::util::storage::StorageError;

const NOW: i64 = 1_700_000_000;
const TOKEN_OF_SECRET: &str = "a873306b976f738070d24b7f33a38e693b815cf7f77060d61ae371349dc83e7a";

fn s3() -> Args {
    let mut args = Args::default();
    args.s3_endpoint = Some(String::from("http://localhost:9000"));
    args.s3_bucket = Some(String::from("bucket"));
    args.s3_access_key = Some(String::from("access"));
    args.s3_secret_key = Some(String::from("SECRET-REDACTED"));
    args
}

fn restricted() -> Args {
    let mut args = Args::default();
    args.readonly = true;
    args.uploader_password = Some(String::from("  secret \n"));
    args
}

fn request(fields: &[(&str, &str)], args: &Args) -> CreationRequest {
    let mut r = CreationRequest::new(42, NOW, args);
    for (field, chunk) in fields {
        r.apply_chunk(field, chunk, args);
    }
    r
}

#[test]
fn expiry_for_each_choice() {
    let mut args = Args::default();
    assert_eq!(expiration_to_timestamp("1min", NOW, &args), NOW + 60);
    assert_eq!(expiration_to_timestamp("10min", NOW, &args), NOW + 600);
    assert_eq!(expiration_to_timestamp("1hour", NOW, &args), NOW + 3600);
    assert_eq!(expiration_to_timestamp("24hour", NOW, &args), NOW + 86400);
    assert_eq!(expiration_to_timestamp("3days", NOW, &args), NOW + 259200);
    assert_eq!(expiration_to_timestamp("1week", NOW, &args), NOW + 604800);
    assert_eq!(expiration_to_timestamp("never", NOW, &args), NOW + 604800);
    assert_eq!(expiration_to_timestamp("2weeks", NOW, &args), NOW + 604800);
    assert_eq!(expiration_to_timestamp("", NOW, &args), NOW + 604800);
    assert_eq!(expiration_to_timestamp("1MIN", NOW, &args), NOW + 604800);
    args.eternal_pasta = true;
    assert_eq!(expiration_to_timestamp("never", NOW, &args), 0);
    assert_eq!(expiration_to_timestamp("1week", NOW, &args), NOW + 604800);
    assert_eq!(expiration_to_timestamp("1week", i64::MAX - 604800, &args), i64::MAX);
    assert_eq!(expiration_to_timestamp("1min", i64::MIN, &args), i64::MIN + 60);
}

#[test]
fn burn_limit_for_each_choice() {
    assert_eq!(burn_after_reads("1"), 1);
    assert_eq!(burn_after_reads("10"), 10);
    assert_eq!(burn_after_reads("100"), 100);
    assert_eq!(burn_after_reads("1000"), 1000);
    assert_eq!(burn_after_reads("10000"), 10000);
    assert_eq!(burn_after_reads("0"), 0);
    assert_eq!(burn_after_reads("5"), 0);
    assert_eq!(burn_after_reads(""), 0);
    assert_eq!(burn_after_reads("100000"), 0);
}

#[test]
fn bytes_in_hexadecimal() {
    assert_eq!(hex_string(&[]), "");
    assert_eq!(hex_string(&[0x00, 0x0f, 0xa0, 0xff, 0x9a]), "000fa0ff9a");
    let all: Vec<u8> = (0..=255).collect();
    let expected: String = all.iter().map(|b| format!("{:02x}", b)).collect();
    assert_eq!(hex_string(&all), expected);
}

#[test]
fn uploader_token_is_the_salted_hash() {
    assert_eq!(generate_uploader_token("secret"), TOKEN_OF_SECRET);
    assert_eq!(
        generate_uploader_token(""),
        "fa15c37f8e0ed6a3e32804006e596642e030624d540d48bc851260ec3ec9ca9f"
    );
    assert_eq!(
        generate_uploader_token("hunter2"),
        "02c66c56d8e72d524b56d2730a4ad195f15efc372e4094ae8021cb89239e6493"
    );
}

#[test]
fn uploader_cookie() {
    let args = restricted();
    assert!(check_uploader_cookie(Some(TOKEN_OF_SECRET), &args));
    assert!(!check_uploader_cookie(Some("secret"), &args));
    assert!(!check_uploader_cookie(Some(""), &args));
    assert!(!check_uploader_cookie(None, &args));
    let mut open = restricted();
    open.readonly = false;
    assert!(!check_uploader_cookie(Some(TOKEN_OF_SECRET), &open));
    let mut open = restricted();
    open.uploader_password = None;
    assert!(!check_uploader_cookie(Some(TOKEN_OF_SECRET), &open));
}

#[test]
fn login_as_uploader() {
    let mut args = restricted();
    let form = UploaderLoginForm::new(String::from(" secret"));
    assert_eq!(form.password(), " secret");
    match login_submit(&form, &args) {
        LoginOutcome::Granted { token, secure } => {
            assert_eq!(token, TOKEN_OF_SECRET);
            assert!(!secure);
        }
        other => panic!("not granted: {:?}", other),
    }
    args.public_path = String::from("https://bin.example.org");
    match login_submit(&form, &args) {
        LoginOutcome::Granted { token, secure } => {
            assert_eq!(token, TOKEN_OF_SECRET);
            assert!(secure);
        }
        other => panic!("not granted: {:?}", other),
    }
    let wrong = UploaderLoginForm::new(String::from("Secret"));
    assert!(matches!(login_submit(&wrong, &args), LoginOutcome::Incorrect));
    let empty = UploaderLoginForm::new(String::new());
    assert!(matches!(login_submit(&empty, &args), LoginOutcome::Incorrect));
    args.readonly = false;
    assert!(matches!(login_submit(&wrong, &args), LoginOutcome::NotRequired));
    args.readonly = true;
    args.uploader_password = None;
    assert!(matches!(login_submit(&form, &args), LoginOutcome::NotRequired));
}

#[test]
fn a_blank_request() {
    let mut args = Args::default();
    args.editable = true;
    args.default_expiry = String::from("1hour");
    let r = CreationRequest::new(42, NOW, &args);
    assert_eq!(r.pasta.id, 42);
    assert_eq!(r.pasta.content, "");
    assert!(r.pasta.file.is_none());
    assert_eq!(r.pasta.extension, "");
    assert!(!r.pasta.private);
    assert!(!r.pasta.readonly);
    assert!(r.pasta.editable);
    assert!(!r.pasta.encrypt_server);
    assert!(!r.pasta.encrypt_client);
    assert_eq!(r.pasta.encrypted_key, None);
    assert_eq!(r.pasta.created, NOW);
    assert_eq!(r.pasta.expiration, NOW + 3600);
    assert_eq!(r.pasta.last_read, NOW);
    assert_eq!(r.pasta.read_count, 0);
    assert_eq!(r.pasta.burn_after_reads, 0);
    assert_eq!(r.pasta.pasta_type, "");
    assert_eq!(r.random_key, "");
    assert_eq!(r.plain_key, "");
    assert_eq!(r.uploader_password, "");
    assert!(r.pending_file.is_none());
}

#[test]
fn privacy_field_sets_the_mode() {
    let args = Args::default();
    let r = request(&[("privacy", "public")], &args);
    assert_eq!(r.pasta.privacy_mode(), PrivacyMode::Public);
    assert!(!r.pasta.private);
    let r = request(&[("privacy", "unlisted")], &args);
    assert_eq!(r.pasta.privacy_mode(), PrivacyMode::Public);
    assert!(r.pasta.private);
    let r = request(&[("privacy", "readonly")], &args);
    assert_eq!(r.pasta.privacy_mode(), PrivacyMode::Readonly);
    assert!(r.pasta.private && !r.pasta.encrypt_server && !r.pasta.encrypt_client);
    let r = request(&[("privacy", "private")], &args);
    assert_eq!(r.pasta.privacy_mode(), PrivacyMode::Private);
    assert!(r.pasta.private && r.pasta.encrypt_server && !r.pasta.encrypt_client);
    let r = request(&[("privacy", "secret")], &args);
    assert_eq!(r.pasta.privacy_mode(), PrivacyMode::Secret);
    assert!(r.pasta.private && r.pasta.encrypt_server && r.pasta.encrypt_client);
    let r = request(&[("privacy", "secret"), ("privacy", "public")], &args);
    assert_eq!(r.pasta.privacy_mode(), PrivacyMode::Public);
    assert!(!r.pasta.private);
}

#[test]
fn text_fields_are_taken_in() {
    let args = Args::default();
    let r = request(
        &[
            ("uploader_password", "sec"),
            ("uploader_password", "ret"),
            ("random_key", "first"),
            ("random_key", "second"),
            ("plain_key", "pass"),
            ("encrypted_random_key", "wrapped"),
            ("expiration", "10min"),
            ("burn_after", "100"),
            ("syntax_highlight", "rs"),
            ("unknown", "ignored"),
            ("content", "not taken here"),
        ],
        &args,
    );
    assert_eq!(r.uploader_password, "secret");
    assert_eq!(r.random_key, "second");
    assert_eq!(r.plain_key, "pass");
    // no field sets the token
    assert_eq!(r.pasta.encrypted_key, None);
    assert_eq!(r.pasta.expiration, NOW + 600);
    assert_eq!(r.pasta.burn_after_reads, 100);
    assert_eq!(r.pasta.extension, "rs");
    assert_eq!(r.pasta.content, "");
}

#[test]
fn content_is_typed() {
    let args = Args::default();
    let mut r = request(&[], &args);
    r.set_content(String::new());
    assert_eq!(r.pasta.content, "");
    assert_eq!(r.pasta.pasta_type, "");
    r.set_content(String::from("hello"));
    assert_eq!(r.pasta.content, "hello");
    assert_eq!(r.pasta.pasta_type, "text");
    r.set_content(String::from("https://example.com/x"));
    assert_eq!(r.pasta.content, "https://example.com/x");
    assert_eq!(r.pasta.pasta_type, "url");
    r.set_content(String::new());
    assert_eq!(r.pasta.content, "https://example.com/x");
    assert_eq!(r.pasta.pasta_type, "url");
}

#[test]
fn offered_files() {
    let mut args = Args::default();
    let f = CreationRequest::offered_file(Some("C/dir/my file.txt"), &args).unwrap();
    assert_eq!(f.name, "my_file.txt");
    assert_eq!(f.size, 0);
    assert!(CreationRequest::offered_file(Some(""), &args).is_none());
    assert!(CreationRequest::offered_file(None, &args).is_none());
    assert!(CreationRequest::offered_file(Some(".."), &args).is_none());
    args.no_file_upload = true;
    assert!(CreationRequest::offered_file(Some("a.txt"), &args).is_none());
}

#[test]
fn size_limits() {
    let mut args = Args::default();
    args.max_file_size_encrypted_mb = 1;
    args.max_file_size_unencrypted_mb = 2;
    let plain = request(&[("privacy", "public")], &args);
    assert!(plain.file_size_allowed(0, &args));
    assert!(plain.file_size_allowed(2 * 1024 * 1024, &args));
    assert!(!plain.file_size_allowed(2 * 1024 * 1024 + 1, &args));
    let private = request(&[("privacy", "private")], &args);
    assert!(private.file_size_allowed(1024 * 1024, &args));
    assert!(!private.file_size_allowed(1024 * 1024 + 1, &args));
    args.max_file_size_encrypted_mb = 4;
    assert!(private.file_size_allowed(2 * 1024 * 1024, &args));
    assert!(!private.file_size_allowed(2 * 1024 * 1024 + 1, &args));
    args.max_file_size_unencrypted_mb = usize::MAX;
    assert!(plain.file_size_allowed(usize::MAX, &args));
}

#[test]
fn an_attachment_is_taken_in() {
    let args = Args::default();
    let mut r = request(&[], &args);
    r.set_content(String::from("https://example.com"));
    let f = CreationRequest::offered_file(Some("a b.bin"), &args).unwrap();
    r.attach_file(f, vec![1, 2, 3]);
    let pending = r.pending_file.as_ref().unwrap();
    assert_eq!(pending.file.name, "a_b.bin");
    assert_eq!(pending.file.size, 3);
    assert_eq!(pending.data, vec![1, 2, 3]);
    assert_eq!(r.pasta.pasta_type, "text");
    assert!(r.pasta.file.is_none());
}

#[test]
fn who_may_upload() {
    let open = Args::default();
    let r = request(&[], &open);
    assert!(matches!(r.check_uploader(None, &open), UploaderCheck::Open));
    let args = restricted();
    let r = request(&[], &args);
    assert!(matches!(r.check_uploader(None, &args), UploaderCheck::Denied));
    assert!(matches!(r.check_uploader(Some("x"), &args), UploaderCheck::Denied));
    assert!(matches!(r.check_uploader(Some(TOKEN_OF_SECRET), &args), UploaderCheck::ByCookie));
    let r = request(&[("uploader_password", "secret  ")], &args);
    match r.check_uploader(None, &args) {
        UploaderCheck::ByPassword { token } => assert_eq!(token, TOKEN_OF_SECRET),
        other => panic!("not by password: {:?}", other),
    }
    assert!(matches!(r.check_uploader(Some(TOKEN_OF_SECRET), &args), UploaderCheck::ByCookie));
    let r = request(&[("uploader_password", "other")], &args);
    assert!(matches!(r.check_uploader(None, &args), UploaderCheck::Denied));
}

#[test]
fn a_public_paste_is_stored_as_it_came() {
    let args = Args::default();
    let mut r = request(&[("privacy", "public"), ("plain_key", "pw1")], &args);
    r.set_content(String::from("hello"));
    let f = CreationRequest::offered_file(Some("a.txt"), &args).unwrap();
    r.attach_file(f, vec![1, 2, 3]);
    let done = r.finish("cat-dog", &args).unwrap();
    assert_eq!(done.pasta.content, "hello");
    assert_eq!(done.pasta.encrypted_key, None);
    let file = done.pasta.file.as_ref().unwrap();
    assert_eq!(file.name, "a.txt");
    assert_eq!(file.size, 3);
    let save = done.save.unwrap();
    assert_eq!(save.storage_path, "a.txt");
    assert_eq!(save.data, vec![1, 2, 3]);
}

#[test]
fn a_paste_without_attachment_saves_nothing() {
    let args = s3();
    let mut r = request(&[("privacy", "private"), ("plain_key", "pw1")], &args);
    r.set_content(String::from("hello"));
    let done = r.finish("cat-dog", &args).unwrap();
    assert!(done.save.is_none());
    assert!(done.pasta.file.is_none());
}

#[test]
fn a_private_paste_is_encrypted_under_the_passphrase() {
    let args = Args::default();
    let mut r = request(
        &[("privacy", "private"), ("plain_key", "pw1"), ("random_key", "rk")],
        &args,
    );
    r.set_content(String::from("hello"));
    let f = CreationRequest::offered_file(Some("report.pdf"), &args).unwrap();
    r.attach_file(f, b"attachment".to_vec());
    let done = r.finish("cat-dog", &args).unwrap();
    assert_ne!(done.pasta.content, "hello");
    assert_eq!(decrypt(&done.pasta.content, "pw1"), Ok(String::from("hello")));
    assert!(decrypt(&done.pasta.content, "rk").is_err());
    assert_eq!(done.pasta.encrypted_key, None);
    let file = done.pasta.file.as_ref().unwrap();
    assert_eq!(file.name, "report.pdf");
    assert_eq!(file.size, 10);
    assert!(!file.is_s3());
    assert!(!file.is_s3_encrypted());
    let save = done.save.unwrap();
    assert_eq!(save.storage_path, "data.enc");
    assert_ne!(save.data, b"attachment".to_vec());
    assert_eq!(decrypt_bytes(&save.data, "pw1"), Ok(b"attachment".to_vec()));
}

#[test]
fn a_secret_paste_is_encrypted_under_the_key_of_the_client() {
    let args = s3();
    let mut r = request(
        &[
            ("privacy", "secret"),
            ("plain_key", "pw1"),
            ("random_key", "rk"),
            ("encrypted_random_key", "wrapped"),
        ],
        &args,
    );
    r.set_content(String::from("hello"));
    let f = CreationRequest::offered_file(Some("report.pdf"), &args).unwrap();
    r.attach_file(f, b"attachment".to_vec());
    let done = r.finish("cat-dog", &args).unwrap();
    assert_eq!(decrypt(&done.pasta.content, "rk"), Ok(String::from("hello")));
    assert!(decrypt(&done.pasta.content, "pw1").is_err());
    assert_eq!(done.pasta.encrypted_key, None);
    let file = done.pasta.file.as_ref().unwrap();
    assert_eq!(file.name, "s3:report.pdf");
    assert!(file.is_s3_encrypted());
    let save = done.save.unwrap();
    assert_eq!(save.storage_path, "s3://attachments/cat-dog/data.enc");
    assert_eq!(decrypt_bytes(&save.data, "rk"), Ok(b"attachment".to_vec()));
}

#[test]
fn a_plain_attachment_in_the_object_store() {
    let args = s3();
    let mut r = request(&[("privacy", "unlisted")], &args);
    let f = CreationRequest::offered_file(Some("report.pdf"), &args).unwrap();
    r.attach_file(f, b"attachment".to_vec());
    let done = r.finish("cat-dog", &args).unwrap();
    let file = done.pasta.file.as_ref().unwrap();
    assert_eq!(file.name, "s3://attachments/cat-dog/report.pdf");
    assert!(file.is_s3());
    let save = done.save.unwrap();
    assert_eq!(save.storage_path, "s3://attachments/cat-dog/report.pdf");
    assert_eq!(save.data, b"attachment".to_vec());
}

#[test]
fn empty_content_is_not_encrypted() {
    let args = Args::default();
    let r = request(&[("privacy", "private"), ("plain_key", "pw1")], &args);
    let done = r.finish("cat-dog", &args).unwrap();
    assert_eq!(done.pasta.content, "");
}

#[test]
fn readonly_ownership_proof() {
    let args = Args::default();
    let mut r = request(&[("privacy", "readonly"), ("plain_key", "pw1")], &args);
    r.set_content(String::from("hello"));
    let done = r.finish("cat-dog", &args).unwrap();
    assert_eq!(done.pasta.id, 42);
    assert_eq!(done.pasta.content, "hello");
    let token = done.pasta.encrypted_key.clone().unwrap();
    assert_ne!(token, "42");
    assert_eq!(decrypt(&token, "pw1"), Ok(String::from("42")));
    assert!(is_password_correct(&done.pasta, "pw1", &args));
    assert!(!is_password_correct(&done.pasta, "pw2", &args));
    let mut pastas: Vec<Pasta> = vec![done.pasta];
    let with_pw2 = post_remove(&mut pastas, 42, "cat-dog", "pw2", NOW, &args).answer.decision;
    let without = post_remove(&mut pastas, 42, "cat-dog", "", NOW, &args).answer.decision;
    assert_eq!(with_pw2, RemovalDecision::Incorrect);
    assert_eq!(with_pw2, without);
    let with_pw1 = post_remove(&mut pastas, 42, "cat-dog", "pw1", NOW, &args).answer.decision;
    assert_eq!(with_pw1, RemovalDecision::Remove);
}

#[test]
fn only_a_readonly_paste_with_a_passphrase_has_a_token() {
    let args = Args::default();
    let r = request(&[("privacy", "readonly"), ("encrypted_random_key", "t")], &args);
    let done = r.finish("cat-dog", &args).unwrap();
    assert_eq!(done.pasta.encrypted_key, None);
    for mode in ["public", "unlisted", "private", "secret"] {
        let mut r = request(
            &[
                ("privacy", mode),
                ("plain_key", "pw1"),
                ("random_key", "rk"),
                ("encrypted_random_key", "t"),
            ],
            &args,
        );
        r.set_content(String::from("hello"));
        let done = r.finish("cat-dog", &args).unwrap();
        assert_eq!(done.pasta.encrypted_key, None);
    }
}

#[test]
fn an_empty_key_is_refused() {
    let args = Args::default();
    // private without a passphrase
    let mut r = request(&[("privacy", "private"), ("random_key", "rk")], &args);
    r.set_content(String::from("hello"));
    assert_eq!(r.finish("cat-dog", &args).err(), Some(CreationError::EmptyKey));
    // secret without the key of the client
    let mut r = request(&[("privacy", "secret"), ("plain_key", "pw1")], &args);
    r.set_content(String::from("hello"));
    assert_eq!(r.finish("cat-dog", &args).err(), Some(CreationError::EmptyKey));
    // a file alone is enough to ask for a key
    let mut r = request(&[("privacy", "private")], &args);
    r.attach_file(CreationRequest::offered_file(Some("a.txt"), &args).unwrap(), vec![1]);
    assert_eq!(r.finish("cat-dog", &args).err(), Some(CreationError::EmptyKey));
    // nothing to encrypt, nothing to refuse
    let r = request(&[("privacy", "private")], &args);
    assert!(r.finish("cat-dog", &args).is_ok());
    // where nothing is encrypted no key is asked for
    let mut r = request(&[("privacy", "readonly")], &args);
    r.set_content(String::from("hello"));
    assert!(r.finish("cat-dog", &args).is_ok());
    let mut r = request(&[("privacy", "private")], &args);
    r.set_content(String::from("hello"));
    assert!(matches!(
        create(r, None, "cat-dog", &args),
        CreationOutcome::Refused(CreationError::EmptyKey)
    ));
    assert_eq!(CreationError::EmptyKey.message(), "Encryption needs a key.");
}

#[test]
fn an_attachment_over_the_limits_is_refused() {
    let mut args = Args::default();
    args.max_file_size_encrypted_mb = 1;
    args.max_file_size_unencrypted_mb = 2;
    let big = vec![0u8; 2 * 1024 * 1024 + 1];
    let mut r = request(&[("privacy", "public")], &args);
    r.attach_file(CreationRequest::offered_file(Some("a.bin"), &args).unwrap(), big.clone());
    assert_eq!(r.finish("cat-dog", &args).err(), Some(CreationError::FileTooLarge));
    let mut r = request(&[("privacy", "public")], &args);
    r.attach_file(
        CreationRequest::offered_file(Some("a.bin"), &args).unwrap(),
        vec![0u8; 2 * 1024 * 1024],
    );
    assert!(r.finish("cat-dog", &args).is_ok());
    let mut r = request(&[("privacy", "private"), ("plain_key", "pw1")], &args);
    r.attach_file(
        CreationRequest::offered_file(Some("a.bin"), &args).unwrap(),
        vec![0u8; 1024 * 1024 + 1],
    );
    assert_eq!(r.finish("cat-dog", &args).err(), Some(CreationError::FileTooLarge));
    // the size is looked at before the key
    let mut r = request(&[("privacy", "private")], &args);
    r.attach_file(CreationRequest::offered_file(Some("a.bin"), &args).unwrap(), big.clone());
    assert!(matches!(
        create(r, None, "cat-dog", &args),
        CreationOutcome::Refused(CreationError::FileTooLarge)
    ));
    assert_eq!(CreationError::FileTooLarge.message(), "File exceeded size limit.");
}

#[test]
fn where_the_creator_goes_next() {
    let mut args = Args::default();
    args.public_path = String::from("https://bin.example.org");
    assert_eq!(redirect_after_create(true, "cat-dog", &args), "/auth/cat-dog/success");
    assert_eq!(
        redirect_after_create(false, "cat-dog", &args),
        "https://bin.example.org/upload/cat-dog"
    );
    args.public_path = String::new();
    assert_eq!(redirect_after_create(false, "cat-dog", &args), "/upload/cat-dog");
}

#[test]
fn ids_have_sixteen_bits() {
    let mut seen = std::collections::HashSet::new();
    for _ in 0..200 {
        let id = generate_id();
        assert!(id <= u16::MAX as u64);
        seen.insert(id);
    }
    assert!(seen.len() > 1);
}

#[test]
fn an_entity_enters_the_store_only_after_its_bytes_are_saved() {
    let args = Args::default();
    let mut pastas: Vec<Pasta> = Vec::new();
    let done = request(&[], &args).finish("cat-dog", &args).unwrap();
    assert_eq!(commit(&mut pastas, done.pasta, Ok(())), Ok(IndexAction::Upsert { id: 42 }));
    assert_eq!(pastas.len(), 1);
    let done = request(&[], &args).finish("cat-dog", &args).unwrap();
    assert_eq!(
        commit(&mut pastas, done.pasta, Err(StorageError::Unavailable)),
        Err(StorageError::Unavailable)
    );
    assert_eq!(pastas.len(), 1);
    let done = request(&[], &args).finish("cat-dog", &args).unwrap();
    assert_eq!(
        commit(&mut pastas, done.pasta, Err(StorageError::NotFound)),
        Err(StorageError::NotFound)
    );
    assert_eq!(pastas.len(), 1);
}

#[test]
fn an_attachment_with_a_name_that_the_locator_cannot_carry_is_refused() {
    let args = Args::default();
    let mut r = request(&[("privacy", "private"), ("plain_key", "pw1")], &args);
    r.attach_file(PastaFile { name: String::from("s3:notes.txt"), size: 0 }, vec![1]);
    assert_eq!(r.finish("cat-dog", &args).err(), Some(CreationError::UnsafeFileName));
    assert_eq!(CreationError::UnsafeFileName.message(), "File name is not safe.");
    // such a name does not get as far as that when the request is read
    assert!(CreationRequest::offered_file(Some("s3:notes.txt"), &args).is_none());
}

#[test]
fn what_is_encrypted_differs_from_the_clear_form() {
    let args = Args::default();
    for content in ["a", "hello", "DS/2U8royDnJDiNY2ps3f6ZoTbpZo8ZtUGYLGEjwLDQ="] {
        let mut r = request(&[("privacy", "private"), ("plain_key", "pw1")], &args);
        r.set_content(content.to_string());
        r.attach_file(
            CreationRequest::offered_file(Some("a.txt"), &args).unwrap(),
            content.as_bytes().to_vec(),
        );
        let done = r.finish("cat-dog", &args).unwrap();
        assert_ne!(done.pasta.content, content);
        assert!(done.pasta.content.len() > content.len());
        let save = done.save.unwrap();
        assert_ne!(save.data, content.as_bytes());
        assert!(save.data.len() > content.len());
    }
}

#[test]
fn a_request_is_closed() {
    let open = Args::default();
    let mut r = request(&[("privacy", "private"), ("plain_key", "pw1")], &open);
    r.set_content(String::from("hello"));
    match create(r, None, "cat-dog", &open) {
        CreationOutcome::Created { creation, uploader_token } => {
            assert_eq!(uploader_token, None);
            assert_eq!(decrypt(&creation.pasta.content, "pw1"), Ok(String::from("hello")));
            assert!(creation.save.is_none());
        }
        other => panic!("not created: {:?}", other),
    }
    let args = restricted();
    let r = request(&[("uploader_password", "secret")], &args);
    match create(r, None, "cat-dog", &args) {
        CreationOutcome::Created { uploader_token, .. } => {
            assert_eq!(uploader_token.as_deref(), Some(TOKEN_OF_SECRET));
        }
        other => panic!("not created: {:?}", other),
    }
    let r = request(&[("uploader_password", "wrong")], &args);
    match create(r, Some(TOKEN_OF_SECRET), "cat-dog", &args) {
        CreationOutcome::Created { uploader_token, .. } => assert_eq!(uploader_token, None),
        other => panic!("not created: {:?}", other),
    }
    let r = request(&[("uploader_password", "wrong")], &args);
    assert!(matches!(create(r, Some("stale"), "cat-dog", &args), CreationOutcome::Denied));
    let r = request(&[], &args);
    assert!(matches!(create(r, None, "cat-dog", &args), CreationOutcome::Denied));
}
