use microbin::args::Args;
use microbin::pasta::{
    date_string, elapsed_units, is_image_name, is_video_name, size_string, time_ago_string,
    Backend, CodecError, Pasta, PastaFile, PrivacyMode, WallClock,
};

fn file(name: &str) -> PastaFile {
    PastaFile { name: name.to_string(), size: 0 }
}

fn pasta() -> Pasta {
    Pasta {
        id: 42,
        content: String::from("hello"),
        file: None,
        extension: String::new(),
        private: false,
        readonly: false,
        editable: true,
        encrypt_server: false,
        encrypt_client: false,
        encrypted_key: None,
        created: 1_700_000_000,
        expiration: 0,
        last_read: 1_700_000_000,
        read_count: 0,
        burn_after_reads: 0,
        pasta_type: String::from("text"),
    }
}

fn local() -> Args {
    Args::default()
}

fn s3() -> Args {
    let mut args = Args::default();
    args.s3_endpoint = Some(String::from("http://localhost:9000"));
    args.s3_bucket = Some(String::from("bucket"));
    args.s3_access_key = Some(String::from("access"));
    args.s3_secret_key = Some(String::from("SECRET-REDACTED"));
    args
}

#[test]
fn unsanitized_path_keeps_only_the_file_name() {
    let f = PastaFile::from_unsanitized("some/dir/my holiday photo.jpg").unwrap();
    assert_eq!(f.name, "my_holiday_photo.jpg");
    assert_eq!(f.size, 0);
    let f = PastaFile::from_unsanitized("plain.txt").unwrap();
    assert_eq!(f.name, "plain.txt");
    let f = PastaFile::from_unsanitized("../../etc/passwd").unwrap();
    assert_eq!(f.name, "passwd");
}

#[test]
fn unsanitized_path_without_a_file_name_is_refused() {
    for path in ["", "/", "..", "dir/.."] {
        let r = PastaFile::from_unsanitized(path);
        assert_eq!(r.err(), Some(CodecError::NoFileName));
    }
    assert_eq!(CodecError::NoFileName.message(), "Path did not contain a file name");
}

#[test]
fn file_name_from_a_component() {
    assert_eq!(PastaFile::from_file_name(None).err(), Some(CodecError::NoFileName));
    let f = PastaFile::from_file_name(Some(String::from(" a b "))).unwrap();
    assert_eq!(f.name, "_a_b_");
    assert_eq!(f.size, 0);
}

#[test]
fn locator_of_a_plain_object() {
    let f = file("s3://attachments/cat-dog/report.pdf");
    assert_eq!(f.name(), "s3://attachments/cat-dog/report.pdf");
    assert!(f.is_s3());
    assert!(!f.is_s3_encrypted());
    assert_eq!(f.backend(), Backend::S3);
    assert_eq!(f.display_name(), "report.pdf");
    assert_eq!(f.s3_path(), Some("attachments/cat-dog/report.pdf"));
    assert_eq!(f.physical_path(false, "cat-dog"), "s3://attachments/cat-dog/report.pdf");
}

#[test]
fn locator_of_an_encrypted_object() {
    let f = file("s3:report.pdf");
    assert!(!f.is_s3());
    assert!(f.is_s3_encrypted());
    assert_eq!(f.backend(), Backend::S3);
    assert_eq!(f.display_name(), "report.pdf");
    assert_eq!(f.s3_path(), None);
    assert_eq!(f.encrypted_path("cat-dog"), "s3://attachments/cat-dog/data.enc");
    assert_eq!(f.physical_path(true, "cat-dog"), "s3://attachments/cat-dog/data.enc");
}

#[test]
fn locator_of_a_local_file() {
    let f = file("report.pdf");
    assert!(!f.is_s3());
    assert!(!f.is_s3_encrypted());
    assert_eq!(f.backend(), Backend::Local);
    assert_eq!(f.display_name(), "report.pdf");
    assert_eq!(f.s3_path(), None);
    assert_eq!(f.physical_path(false, "cat-dog"), "report.pdf");
    assert_eq!(f.physical_path(true, "cat-dog"), "data.enc");
    assert_eq!(f.encrypted_path("cat-dog"), "data.enc");
}

#[test]
fn the_object_tag_is_looked_for_before_the_encryption_tag() {
    // `s3:` begins `s3://` too
    assert!(!file("s3://x").is_s3_encrypted());
    assert!(file("s3:/x").is_s3_encrypted());
    assert!(!file("s3").is_s3_encrypted());
    assert!(!file("S3://x").is_s3());
    assert_eq!(file("s3://").display_name(), "");
    assert_eq!(file("s3:").display_name(), "");
    assert_eq!(file("s3://").s3_path(), Some(""));
}

#[test]
fn display_name_beyond_ascii() {
    assert_eq!(file("s3://attachments/ça/été.png").display_name(), "été.png");
    assert_eq!(file("s3:été.png").display_name(), "été.png");
    assert_eq!(file("été.png").display_name(), "été.png");
}

#[test]
fn locator_codec_local_encrypted() {
    // an encrypted local file: the locator is the name, and the bytes are in `data.enc`
    let mut f = file("report.pdf");
    f.size = 7;
    let save_path = f.place(true, "cat-dog", &local()).unwrap();
    assert_eq!(save_path, "data.enc");
    assert_eq!(f.name, "report.pdf");
    assert_eq!(f.size, 7);
    assert!(!f.is_s3());
    assert!(!f.is_s3_encrypted());
    assert_eq!(f.backend(), Backend::Local);
    assert_eq!(f.display_name(), "report.pdf");
    assert_eq!(f.physical_path(true, "cat-dog"), save_path);
}

#[test]
fn locator_codec_local_plain() {
    let mut f = file("report.pdf");
    let save_path = f.place(false, "cat-dog", &local()).unwrap();
    assert_eq!(save_path, "report.pdf");
    assert_eq!(f.name, "report.pdf");
    assert_eq!(f.backend(), Backend::Local);
    assert_eq!(f.display_name(), "report.pdf");
    assert_eq!(f.physical_path(false, "cat-dog"), save_path);
}

#[test]
fn locator_codec_object_plain() {
    let mut f = file("report.pdf");
    let save_path = f.place(false, "cat-dog", &s3()).unwrap();
    assert_eq!(save_path, "s3://attachments/cat-dog/report.pdf");
    assert_eq!(f.name, "s3://attachments/cat-dog/report.pdf");
    assert!(f.is_s3());
    assert!(!f.is_s3_encrypted());
    assert_eq!(f.backend(), Backend::S3);
    assert_eq!(f.display_name(), "report.pdf");
    assert_eq!(f.physical_path(false, "cat-dog"), save_path);
}

#[test]
fn locator_codec_object_encrypted() {
    let mut f = file("report.pdf");
    let save_path = f.place(true, "cat-dog", &s3()).unwrap();
    assert_eq!(save_path, "s3://attachments/cat-dog/data.enc");
    assert_eq!(f.name, "s3:report.pdf");
    assert!(!f.is_s3());
    assert!(f.is_s3_encrypted());
    assert_eq!(f.backend(), Backend::S3);
    assert_eq!(f.display_name(), "report.pdf");
    assert_eq!(f.physical_path(true, "cat-dog"), save_path);
}

#[test]
fn a_name_with_the_object_tag_is_refused() {
    assert_eq!(PastaFile::from_unsanitized("s3:x.txt").err(), Some(CodecError::UnsafeFileName));
    assert_eq!(
        PastaFile::from_unsanitized("dir/s3:notes.txt").err(),
        Some(CodecError::UnsafeFileName)
    );
    assert_eq!(
        PastaFile::from_file_name(Some(String::from("s3:"))).err(),
        Some(CodecError::UnsafeFileName)
    );
    // the tag in another place does no harm
    assert_eq!(PastaFile::from_unsanitized("as3:x.txt").unwrap().name, "as3:x.txt");
    assert_eq!(PastaFile::from_unsanitized("S3:x.txt").unwrap().name, "S3:x.txt");
    assert_eq!(PastaFile::from_unsanitized("s3").unwrap().name, "s3");
}

#[test]
fn a_name_that_leads_elsewhere_is_refused() {
    assert_eq!(
        PastaFile::from_file_name(Some(String::from(".."))).err(),
        Some(CodecError::UnsafeFileName)
    );
    assert_eq!(
        PastaFile::from_file_name(Some(String::from("a/b"))).err(),
        Some(CodecError::UnsafeFileName)
    );
    assert_eq!(
        PastaFile::from_file_name(Some(String::from("/"))).err(),
        Some(CodecError::UnsafeFileName)
    );
    assert_eq!(PastaFile::from_file_name(Some(String::from("..."))).unwrap().name, "...");
    assert_eq!(PastaFile::from_file_name(Some(String::from("..a"))).unwrap().name, "..a");
    assert_eq!(PastaFile::from_file_name(Some(String::from(". ."))).unwrap().name, "._.");
    assert_eq!(CodecError::UnsafeFileName.message(), "File name is not safe");
}

#[test]
fn a_locator_refuses_a_name_that_it_cannot_carry() {
    // on a local backend a name with the tag of the object store
    let mut f = file("s3:notes.txt");
    assert_eq!(f.place(false, "cat-dog", &local()), Err(CodecError::UnsafeFileName));
    assert_eq!(f.name, "s3:notes.txt");
    assert_eq!(f.place(true, "cat-dog", &local()), Err(CodecError::UnsafeFileName));
    assert_eq!(f.name, "s3:notes.txt");
    // in the object store a plain name with a slash
    let mut f = file("a/b.txt");
    assert_eq!(f.place(false, "cat-dog", &s3()), Err(CodecError::UnsafeFileName));
    assert_eq!(f.name, "a/b.txt");
    assert_eq!(f.place(true, "cat-dog", &s3()), Ok(String::from("s3://attachments/cat-dog/data.enc")));
    assert_eq!(f.name, "s3:a/b.txt");
    assert_eq!(f.display_name(), "a/b.txt");
    // and an encrypted name that begins with two slashes
    let mut f = file("//b.txt");
    assert_eq!(f.place(true, "cat-dog", &s3()), Err(CodecError::UnsafeFileName));
    assert_eq!(f.name, "//b.txt");
}

#[test]
fn every_sanitised_name_survives_the_codec() {
    for path in ["report.pdf", "dir/my file.txt", "a:b", "x.s3:", "été.png", ".hidden", "a..b"] {
        for encrypted in [false, true] {
            for args in [local(), s3()] {
                let mut f = PastaFile::from_unsanitized(path).unwrap();
                let name = f.name.clone();
                let backend = if args.s3_enabled() { Backend::S3 } else { Backend::Local };
                let save_path = f.place(encrypted, "cat-dog", &args).unwrap();
                assert_eq!(f.display_name(), name);
                assert_eq!(f.backend(), backend);
                assert_eq!(f.is_s3(), args.s3_enabled() && !encrypted);
                assert_eq!(f.is_s3_encrypted(), args.s3_enabled() && encrypted);
                assert_eq!(f.physical_path(encrypted, "cat-dog"), save_path);
            }
        }
    }
}

#[test]
fn images_and_videos_are_told_by_the_name() {
    assert!(is_image_name("a.png"));
    assert!(is_image_name(".heif"));
    assert!(!is_image_name("a.png.txt"));
    assert!(!is_image_name("png"));
    assert!(is_video_name("a.mkv"));
    assert!(!is_video_name("a.png"));
    for name in [
        "a.jpg", "a.jpeg", "a.png", "a.gif", "a.bmp", "a.webp", "a.ico", "a.svg", "a.tiff",
        "a.tif", "a.jfif", "a.pjpeg", "a.pjp", "a.avif", "a.jxl", "a.heif",
    ] {
        assert!(file(name).is_image());
        assert!(!file(name).is_video());
        assert!(file(name).embeddable());
    }
    for name in ["a.mp4", "a.mov", "a.wmv", "a.webm", "a.avi", "a.flv", "a.mkv", "a.mts"] {
        assert!(file(name).is_video());
        assert!(!file(name).is_image());
        assert!(file(name).embeddable());
    }
    assert!(file("PHOTO.JPG").is_image());
    assert!(file("s3://attachments/cat/Clip.MP4").is_video());
    assert!(file("s3:Photo.Png").is_image());
    assert!(!file("s3://attachments/a.png/readme").embeddable());
    assert!(!file("notes.txt").embeddable());
    assert!(!file("").embeddable());
}

#[test]
fn privacy_modes() {
    let mut p = pasta();
    assert_eq!(p.privacy_mode(), PrivacyMode::Public);
    p.readonly = true;
    assert_eq!(p.privacy_mode(), PrivacyMode::Readonly);
    p.readonly = false;
    p.encrypt_server = true;
    assert_eq!(p.privacy_mode(), PrivacyMode::Private);
    p.encrypt_client = true;
    assert_eq!(p.privacy_mode(), PrivacyMode::Secret);
}

#[test]
fn sizes_are_shown_in_whole_units() {
    assert_eq!(size_string(0), "0 B");
    assert_eq!(size_string(1023), "1023 B");
    assert_eq!(size_string(1024), "1 KB");
    assert_eq!(size_string(1536), "1 KB");
    assert_eq!(size_string(1024 * 1024 - 1), "1023 KB");
    assert_eq!(size_string(1024 * 1024), "1 MB");
    assert_eq!(size_string(1024 * 1024 * 1024 - 1), "1023 MB");
    assert_eq!(size_string(1024 * 1024 * 1024), "1 GB");
    assert_eq!(size_string(5 * 1024 * 1024 * 1024 * 1024), "5120 GB");
}

#[test]
fn total_size_counts_content_and_file() {
    let mut p = pasta();
    assert!(!p.has_file());
    assert_eq!(p.total_size_as_string(), "5 B");
    p.content = String::from("é");
    assert_eq!(p.total_size_as_string(), "2 B");
    p.file = Some(PastaFile { name: String::from("a.bin"), size: 2046 });
    assert!(p.has_file());
    assert_eq!(p.total_size_as_string(), "2 KB");
    p.file = Some(PastaFile { name: String::from("a.bin"), size: u64::MAX });
    assert_eq!(p.total_size_as_string(), "17179869184 GB");
}

#[test]
fn only_plain_attachments_are_embedded() {
    let mut p = pasta();
    assert!(!p.file_embeddable());
    p.file = Some(file("a.png"));
    assert!(p.file_embeddable());
    p.encrypt_server = true;
    assert!(!p.file_embeddable());
    p.encrypt_server = false;
    p.encrypt_client = true;
    assert!(!p.file_embeddable());
    p.encrypt_client = false;
    p.file = Some(file("a.txt"));
    assert!(!p.file_embeddable());
}

#[test]
fn elapsed_time_in_units() {
    assert_eq!(elapsed_units(0, 86400 * 3, 86400), 3);
    assert_eq!(elapsed_units(0, 86400 * 3 - 1, 86400), 2);
    assert_eq!(elapsed_units(100, 100, 1), 0);
    assert_eq!(elapsed_units(0, 7200, 3600), 2);
    // the counter has 16 bits and wraps
    assert_eq!(elapsed_units(0, 65536, 1), 0);
    assert_eq!(elapsed_units(0, 65537, 1), 1);
    // a moment in the future: the quotient is rounded towards zero, then wrapped
    assert_eq!(elapsed_units(100, 0, 86400), 0);
    assert_eq!(elapsed_units(86400, 0, 86400), 65535);
    assert_eq!(elapsed_units(1, 0, 1), 65535);
    assert_eq!(elapsed_units(i64::MAX, i64::MIN, 1), 1);
    assert_eq!(elapsed_units(i64::MIN, i64::MAX, 1), 65535);
}

#[test]
fn time_ago_picks_the_largest_unit_with_more_than_one() {
    assert_eq!(time_ago_string(0, 0, false), "just now");
    assert_eq!(time_ago_string(0, 1, false), "just now");
    assert_eq!(time_ago_string(0, 2, false), "2 seconds ago");
    assert_eq!(time_ago_string(0, 119, false), "119 seconds ago");
    assert_eq!(time_ago_string(0, 120, false), "2 minutes ago");
    assert_eq!(time_ago_string(0, 7199, false), "119 minutes ago");
    assert_eq!(time_ago_string(0, 7200, false), "2 hours ago");
    assert_eq!(time_ago_string(0, 2 * 86400 - 1, false), "47 hours ago");
    assert_eq!(time_ago_string(0, 2 * 86400, false), "2 days ago");
    assert_eq!(time_ago_string(0, 400 * 86400, false), "400 days ago");
    assert_eq!(time_ago_string(0, 2, true), "2 s ago");
    assert_eq!(time_ago_string(0, 120, true), "2 m ago");
    assert_eq!(time_ago_string(0, 7200, true), "2 h ago");
    assert_eq!(time_ago_string(0, 2 * 86400, true), "2 d ago");
    assert_eq!(time_ago_string(0, 1, true), "just now");
}

#[test]
fn last_read_is_measured_from_a_given_moment() {
    let p = pasta();
    assert_eq!(p.last_read_days_ago_at(1_700_000_000 + 5 * 86400), 5);
    assert_eq!(p.last_read_time_ago_at(1_700_000_000 + 3 * 3600), "3 hours ago");
    assert_eq!(p.short_last_read_time_ago_at(1_700_000_000 + 3 * 3600), "3 h ago");
}

#[test]
fn last_read_is_measured_by_the_clock() {
    let p = pasta();
    // the entity was last read in November 2023
    assert!(p.last_read_days_ago() > 300);
    assert!(p.last_read_time_ago_as_string().ends_with(" days ago"));
    assert!(p.short_last_read_time_ago_as_string().ends_with(" d ago"));
}

#[test]
fn dates_are_shown_in_two_digits() {
    let clock = WallClock { month: 3, day: 7, hour: 9, minute: 5 };
    assert_eq!(date_string(Some(clock), "Never"), "03-07 09:05");
    let clock = WallClock { month: 12, day: 31, hour: 23, minute: 59 };
    assert_eq!(date_string(Some(clock), "Never"), "12-31 23:59");
    assert_eq!(date_string(None, "Never"), "Never");
    assert_eq!(date_string(None, "Unknow"), "Unknow");
}

#[test]
fn creation_and_expiry_as_text() {
    let mut p = pasta();
    let created = p.created_as_string();
    assert_eq!(created.len(), 11);
    assert_eq!(&created[2..3], "-");
    assert_eq!(&created[5..6], " ");
    assert_eq!(&created[8..9], ":");
    assert_eq!(p.expiration_as_string(), "Never");
    p.expiration = 1_700_000_000;
    assert_eq!(p.expiration_as_string(), created);
    p.expiration = i64::MAX;
    assert_eq!(p.expiration_as_string(), "Never");
    p.created = i64::MIN;
    assert_eq!(p.created_as_string(), "Unknow");
}

#[test]
fn rendering_follows_extension_and_mode() {
    let mut args = Args::default();
    let mut p = pasta();
    assert!(!p.should_render_markdown(&args));
    assert!(!p.should_render_html(&args));
    p.extension = String::from("md");
    assert!(p.should_render_markdown(&args));
    assert!(!p.should_render_html(&args));
    p.extension = String::from("markdown");
    assert!(p.should_render_markdown(&args));
    p.extension = String::from("MD");
    assert!(!p.should_render_markdown(&args));
    p.extension = String::from("html");
    assert!(p.should_render_html(&args));
    p.extension = String::from("htm");
    assert!(p.should_render_html(&args));
    p.encrypt_server = true;
    assert!(!p.should_render_html(&args));
    p.encrypt_server = false;
    p.encrypt_client = true;
    assert!(!p.should_render_html(&args));
    p.encrypt_client = false;
    args.render_html = false;
    assert!(!p.should_render_html(&args));
    p.extension = String::from("md");
    args.render_markdown = false;
    assert!(!p.should_render_markdown(&args));
}

#[test]
fn an_entity_prints_as_its_content() {
    assert_eq!(pasta().to_string(), "hello");
}

#[test]
fn a_read_is_counted() {
    let mut p = pasta();
    p.record_read(1_700_000_100);
    assert_eq!(p.read_count, 1);
    assert_eq!(p.last_read, 1_700_000_100);
    p.read_count = u64::MAX;
    p.record_read(1_700_000_200);
    assert_eq!(p.read_count, u64::MAX);
    assert_eq!(p.last_read, 1_700_000_200);
}

#[test]
fn file_path_of_an_entity() {
    let mut p = pasta();
    assert_eq!(p.file_path("cat"), None);
    p.file = Some(file("a.txt"));
    assert_eq!(p.file_path("cat").as_deref(), Some("a.txt"));
    p.encrypt_server = true;
    assert_eq!(p.file_path("cat").as_deref(), Some("data.enc"));
    p.file = Some(file("s3:a.txt"));
    assert_eq!(p.file_path("cat").as_deref(), Some("s3://attachments/cat/data.enc"));
    p.encrypt_server = false;
    p.file = Some(file("s3://attachments/cat/a.txt"));
    assert_eq!(p.file_path("cat").as_deref(), Some("s3://attachments/cat/a.txt"));
}

#[test]
fn content_is_escaped_for_its_place() {
    let mut p = pasta();
    p.content = String::from("a < b && `c` > $d \\ \"e\"");
    assert_eq!(p.content_textarea_safe(), "a &lt; b &amp;&amp; `c` &gt; $d \\ \"e\"");
    assert_eq!(p.content_escaped(), "a &lt; b &amp;&amp; \\`c\\` &gt; \\$d \\\\ \"e\"");
    assert_eq!(p.content_for_html_iframe(), "a &lt; b &amp;&amp; `c` &gt; $d \\ &quot;e&quot;");
    p.content = String::from("# Title\n\n<script>alert(1)</script>");
    let html = p.content_rendered_markdown();
    assert!(html.contains("Title"));
    assert!(!html.contains("<script>"));
}

#[test]
fn default_args() {
    let args = Args::default();
    assert!(!args.s3_enabled());
    assert_eq!(args.public_path_as_str(), "");
    assert_eq!(args.gc_days, 90);
    assert!(s3().s3_enabled());
    let mut partial = s3();
    partial.s3_bucket = None;
    assert!(!partial.s3_enabled());
}
