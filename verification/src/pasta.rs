//! The paste entity and the locator of its attachment.

use crate::args::Args;
use crate::util::contentrenderer::{
    escape_for_script, escape_text, escaped_attribute, escaped_for_script, escaped_text,
    prepare_html_for_iframe, render_markdown, rendered_markdown,
};
use crate::util::misc::timenow;
use crate::util::storage::{generate_storage_path, storage_path};
use crate::util::text::{
    after_last, chars_of, contains_char, decimal, ends_with_any, ends_with_one_of,
    lemma_tail_start_of_joined, lowercase, push_decimal, push_str, replace_char, same_text,
    starts_with, string_of, tail_index, with_replaced,
};
use chrono::{Datelike, Local, TimeZone, Timelike};
use vstd::prelude::*;
use vstd::string::StrSliceExecFns;
use vstd::utf8::encode_utf8;

verus! {

/// Where the bytes of an attachment live.
#[derive(Clone, Copy, Debug, PartialEq, Eq, Structural)]
pub enum Backend {
    /// On the local file system, under the entity's directory.
    Local,
    /// In the object store.
    S3,
}

/// Why a file name or a locator was refused.
#[derive(Clone, Copy, Debug, PartialEq, Eq, Structural)]
pub enum CodecError {
    /// The path that the client sent names no file.
    NoFileName,
    /// The file name is not safe: it would lead out of the entity's directory, or a locator
    /// could not carry it without being taken for something else.
    UnsafeFileName,
}

impl CodecError {
    /// The reason in words.
    pub fn message(&self) -> (m: &'static str)
        ensures
            m@ == (match self {
                CodecError::NoFileName => "Path did not contain a file name"@,
                CodecError::UnsafeFileName => "File name is not safe"@,
            }),
    {
        match self {
            CodecError::NoFileName => "Path did not contain a file name",
            CodecError::UnsafeFileName => "File name is not safe",
        }
    }
}

/// The tag of a plain file in the object store, which the object's path follows.
pub open spec fn s3_url_tag() -> Seq<char> {
    "s3://"@
}

/// The tag of an encrypted file in the object store, which the name to show follows.
pub open spec fn s3_tag() -> Seq<char> {
    "s3:"@
}

/// The fixed physical name of every encrypted attachment.
pub open spec fn encrypted_name() -> Seq<char> {
    "data.enc"@
}

/// The locator names a plain file in the object store.
pub open spec fn locator_is_s3(locator: Seq<char>) -> bool {
    s3_url_tag().is_prefix_of(locator)
}

/// The locator names an encrypted file whose ciphertext is in the object store.
pub open spec fn locator_is_s3_encrypted(locator: Seq<char>) -> bool {
    s3_tag().is_prefix_of(locator) && !s3_url_tag().is_prefix_of(locator)
}

/// The backend that the locator names.
pub open spec fn locator_backend(locator: Seq<char>) -> Backend {
    if locator_is_s3(locator) || locator_is_s3_encrypted(locator) {
        Backend::S3
    } else {
        Backend::Local
    }
}

/// The file name to show to a person: the locator without what tags the backend and the
/// encryption.
pub open spec fn locator_display_name(locator: Seq<char>) -> Seq<char> {
    if locator_is_s3(locator) {
        after_last(locator, '/')
    } else if s3_tag().is_prefix_of(locator) {
        locator.skip(3)
    } else {
        locator
    }
}

/// The path of the object that a plain file in the object store is kept under.
pub open spec fn locator_s3_path(locator: Seq<char>) -> Option<Seq<char>> {
    if locator_is_s3(locator) {
        Some(locator.skip(5))
    } else {
        None
    }
}

/// The backend that new attachments go to.
pub open spec fn chosen_backend(s3: bool) -> Backend {
    if s3 {
        Backend::S3
    } else {
        Backend::Local
    }
}

/// The locator that stands for a file with the name `name`, to be shown to people, of the
/// entity `pasta_id`.
pub open spec fn locator_for(
    backend: Backend,
    encrypted: bool,
    pasta_id: Seq<char>,
    name: Seq<char>,
) -> Seq<char> {
    match backend {
        Backend::S3 => if encrypted {
            s3_tag() + name
        } else {
            storage_path(true, pasta_id, name)
        },
        Backend::Local => name,
    }
}

/// The storage path under which the bytes of a new file are saved: an encrypted file under
/// the fixed name, a plain one under its own.
pub open spec fn save_path_for(
    backend: Backend,
    encrypted: bool,
    pasta_id: Seq<char>,
    name: Seq<char>,
) -> Seq<char> {
    storage_path(
        backend == Backend::S3,
        pasta_id,
        if encrypted {
            encrypted_name()
        } else {
            name
        },
    )
}

/// The storage path under which the bytes behind a locator are found again, for an entity
/// that is encrypted at rest or is not.
pub open spec fn physical_path(locator: Seq<char>, encrypted: bool, pasta_id: Seq<char>) -> Seq<
    char,
> {
    if encrypted {
        if locator_is_s3_encrypted(locator) {
            storage_path(true, pasta_id, encrypted_name())
        } else {
            encrypted_name()
        }
    } else {
        locator
    }
}

/// The names that a locator can carry without being taken for something else: a plain
/// object's name holds no `/`, an encrypted object's name does not begin with `//`, and a
/// local file's name does not begin with the tag of the object store.
pub open spec fn encodable(backend: Backend, encrypted: bool, name: Seq<char>) -> bool {
    match backend {
        Backend::S3 => if encrypted {
            !"//"@.is_prefix_of(name)
        } else {
            !name.contains('/')
        },
        Backend::Local => !s3_tag().is_prefix_of(name),
    }
}

/// The file names that are safe to keep: a safe name holds no `/`, is not the name of the
/// parent directory, and does not begin with the tag of the object store.
pub open spec fn is_safe_name(name: Seq<char>) -> bool {
    &&& !name.contains('/')
    &&& name != ".."@
    &&& !s3_tag().is_prefix_of(name)
}

/// A locator can carry a safe name on every backend, encrypted or not.
pub proof fn lemma_safe_names_are_encodable(name: Seq<char>, backend: Backend, encrypted: bool)
    requires
        is_safe_name(name),
    ensures
        encodable(backend, encrypted, name),
{
    reveal_strlit("//");
    if "//"@.is_prefix_of(name) {
        assert(name.subrange(0, 2)[0] == '/');
        assert(name[0] == '/');
    }
}

/// Decoding a locator gives back what was encoded: the backend, for the object store also
/// whether the file is encrypted, and the name to show; and the bytes are looked for where
/// they were saved.
pub proof fn lemma_locator_round_trip(
    backend: Backend,
    encrypted: bool,
    pasta_id: Seq<char>,
    name: Seq<char>,
)
    requires
        encodable(backend, encrypted, name),
    ensures
        locator_backend(locator_for(backend, encrypted, pasta_id, name)) == backend,
        locator_display_name(locator_for(backend, encrypted, pasta_id, name)) == name,
        locator_is_s3(locator_for(backend, encrypted, pasta_id, name)) == (backend == Backend::S3
            && !encrypted),
        locator_is_s3_encrypted(locator_for(backend, encrypted, pasta_id, name)) == (backend
            == Backend::S3 && encrypted),
        physical_path(locator_for(backend, encrypted, pasta_id, name), encrypted, pasta_id)
            == save_path_for(backend, encrypted, pasta_id, name),
{
    reveal_strlit("s3://");
    reveal_strlit("s3:");
    reveal_strlit("//");
    reveal_strlit("/");
    let l = locator_for(backend, encrypted, pasta_id, name);
    match backend {
        Backend::S3 => {
            if encrypted {
                assert(l.subrange(0, 3) =~= s3_tag());
                assert(l.skip(3) =~= name);
                if s3_url_tag().is_prefix_of(l) {
                    assert(l.subrange(0, 5)[3] == '/');
                    assert(l.subrange(0, 5)[4] == '/');
                    assert(name.subrange(0, 2) =~= "//"@);
                }
            } else {
                assert(l.subrange(0, 5) =~= s3_url_tag());
                let prefix = s3_url_tag() + "attachments/"@ + pasta_id;
                assert(l =~= prefix.push('/') + name);
                lemma_tail_start_of_joined(prefix, '/', name);
            }
        },
        Backend::Local => {
            if s3_url_tag().is_prefix_of(l) {
                assert(l.subrange(0, 3) =~= l.subrange(0, 5).subrange(0, 3));
                assert(l.subrange(0, 3) =~= s3_tag());
            }
        },
    }
}

/// The file name endings of the image types that a browser can show in place.
pub open spec fn image_extensions() -> Seq<&'static str> {
    seq![
        ".jpg",
        ".jpeg",
        ".png",
        ".gif",
        ".bmp",
        ".webp",
        ".ico",
        ".svg",
        ".tiff",
        ".tif",
        ".jfif",
        ".pjpeg",
        ".pjp",
        ".avif",
        ".jxl",
        ".heif",
    ]
}

/// The file name endings of the video types that a browser can show in place.
pub open spec fn video_extensions() -> Seq<&'static str> {
    seq![".mp4", ".mov", ".wmv", ".webm", ".avi", ".flv", ".mkv", ".mts"]
}

/// Whether a file name, given in lower case, ends like an image.
pub fn is_image_name(lowercase_name: &str) -> (b: bool)
    ensures
        b == ends_with_one_of(lowercase_name@, image_extensions()),
{
    let extensions: Vec<&'static str> = vec![
        ".jpg",
        ".jpeg",
        ".png",
        ".gif",
        ".bmp",
        ".webp",
        ".ico",
        ".svg",
        ".tiff",
        ".tif",
        ".jfif",
        ".pjpeg",
        ".pjp",
        ".avif",
        ".jxl",
        ".heif",
    ];
    assert(extensions@ =~= image_extensions());
    let name = chars_of(lowercase_name);
    ends_with_any(name.as_slice(), extensions.as_slice())
}

/// Whether a file name, given in lower case, ends like a video.
pub fn is_video_name(lowercase_name: &str) -> (b: bool)
    ensures
        b == ends_with_one_of(lowercase_name@, video_extensions()),
{
    let extensions: Vec<&'static str> = vec![
        ".mp4",
        ".mov",
        ".wmv",
        ".webm",
        ".avi",
        ".flv",
        ".mkv",
        ".mts",
    ];
    assert(extensions@ =~= video_extensions());
    let name = chars_of(lowercase_name);
    ends_with_any(name.as_slice(), extensions.as_slice())
}

/// The reference of an entity to its attachment.
#[derive(Debug)]
pub struct PastaFile {
    /// The locator: backend, encryption and name in one string.
    pub name: String,
    /// The size of the attachment in bytes.
    pub size: u64,
}

/// The model of a [`PastaFile`].
pub struct PastaFileView {
    pub name: Seq<char>,
    pub size: nat,
}

impl View for PastaFile {
    type V = PastaFileView;

    open spec fn view(&self) -> PastaFileView {
        PastaFileView { name: self.name@, size: self.size as nat }
    }
}

impl PastaFileView {
    /// The name to show ends, whatever its case, like an image.
    pub open spec fn is_image(self) -> bool {
        ends_with_one_of(lowercase(locator_display_name(self.name)), image_extensions())
    }

    /// The name to show ends, whatever its case, like a video.
    pub open spec fn is_video(self) -> bool {
        ends_with_one_of(lowercase(locator_display_name(self.name)), video_extensions())
    }

    /// A browser can show the file in place.
    pub open spec fn embeddable(self) -> bool {
        self.is_image() || self.is_video()
    }
}

/// What `Path::file_name` of the standard library returns for a path, as text: the final
/// component of the path, nothing where the path has none or ends in `..`. It depends on
/// the path and on the path rules of the target that the library is built for, and on
/// nothing else.
pub uninterp spec fn file_name_of(path: Seq<char>) -> Option<Seq<char>>;

/// The name under which a file is kept whose path has the final component `component`: the
/// component with each space replaced by an underscore. A path without a final component
/// is refused, and so is a name that is not safe.
pub open spec fn kept_name(component: Option<Seq<char>>) -> Result<Seq<char>, CodecError> {
    match component {
        None => Err(CodecError::NoFileName),
        Some(name) => if is_safe_name(with_replaced(name, ' ', '_')) {
            Ok(with_replaced(name, ' ', '_'))
        } else {
            Err(CodecError::UnsafeFileName)
        },
    }
}

/// The name under which a file is kept that a client offers under the path `path`, or why
/// the file is refused.
pub open spec fn sanitized_name(path: Seq<char>) -> Result<Seq<char>, CodecError> {
    kept_name(file_name_of(path))
}

/// A name that is kept is safe and holds no space.
pub proof fn lemma_kept_names_are_safe(component: Option<Seq<char>>)
    ensures
        kept_name(component) matches Ok(name) ==> is_safe_name(name) && !name.contains(' '),
{
    if let Some(given) = component {
        let name = with_replaced(given, ' ', '_');
        if name.contains(' ') {
            let k = choose|k: int| 0 <= k < name.len() && name[k] == ' ';
            assert(given[k] != ' ');
        }
    }
}

/// `Path::file_name` of the standard library, applied to `path` and turned into a string:
/// the final component of the path, if it has one.
#[verifier::external_body]
fn final_component(path: &str) -> (r: Option<String>)
    ensures
        r matches Some(n) ==> file_name_of(path@) == Some(n@),
        r is None ==> file_name_of(path@) is None,
{
    std::path::Path::new(path).file_name().map(|n| n.to_string_lossy().into_owned())
}

impl PastaFile {
    /// The reference for a file whose path has the final component `name`: each space of
    /// the component is replaced by an underscore, and the size is not known yet. A missing
    /// component is refused, and so is a name that is not safe.
    pub fn from_file_name(name: Option<String>) -> (r: Result<PastaFile, CodecError>)
        ensures
            match kept_name(
                match name {
                    Some(n) => Some(n@),
                    None => None,
                },
            ) {
                Ok(kept) => r matches Ok(f) && f@.size == 0 && f@.name == kept,
                Err(e) => r == Err::<PastaFile, CodecError>(e),
            },
            r matches Ok(f) ==> is_safe_name(f@.name) && !f@.name.contains(' '),
    {
        match name {
            None => Err(CodecError::NoFileName),
            Some(n) => {
                proof {
                    lemma_kept_names_are_safe(Some(n@));
                    reveal_strlit("..");
                }
                let chars = chars_of(n.as_str());
                let clean = replace_char(chars.as_slice(), ' ', '_');
                let tag = chars_of("s3:");
                let parent = chars_of("..");
                let is_parent = clean.len() == 2 && starts_with(clean.as_slice(), parent.as_slice());
                assert(is_parent == (clean@ == ".."@)) by {
                    if is_parent {
                        assert(clean@.subrange(0, 2) =~= clean@);
                    }
                    if clean@ == ".."@ {
                        assert(clean@.subrange(0, 2) =~= clean@);
                    }
                }
                if contains_char(clean.as_slice(), '/') || is_parent || starts_with(
                    clean.as_slice(),
                    tag.as_slice(),
                ) {
                    Err(CodecError::UnsafeFileName)
                } else {
                    Ok(PastaFile { name: string_of(clean.as_slice()), size: 0 })
                }
            },
        }
    }

    /// The reference for a file that a client names by `path`. Only the final component of
    /// the path is kept, with each space replaced by an underscore. A path without a final
    /// component is refused, and so is a name that is not safe. The size is not known yet.
    pub fn from_unsanitized(path: &str) -> (r: Result<PastaFile, CodecError>)
        ensures
            match sanitized_name(path@) {
                Ok(kept) => r matches Ok(f) && f@.size == 0 && f@.name == kept,
                Err(e) => r == Err::<PastaFile, CodecError>(e),
            },
            r matches Ok(f) ==> is_safe_name(f@.name) && !f@.name.contains(' '),
    {
        let name = final_component(path);
        PastaFile::from_file_name(name)
    }

    /// The locator.
    pub fn name(&self) -> (n: &str)
        ensures
            n@ == self@.name,
    {
        self.name.as_str()
    }

    /// Whether this is a plain file in the object store.
    pub fn is_s3(&self) -> (b: bool)
        ensures
            b == locator_is_s3(self@.name),
    {
        let name = chars_of(self.name.as_str());
        let tag = chars_of("s3://");
        starts_with(name.as_slice(), tag.as_slice())
    }

    /// Whether this is an encrypted file whose ciphertext is in the object store.
    pub fn is_s3_encrypted(&self) -> (b: bool)
        ensures
            b == locator_is_s3_encrypted(self@.name),
    {
        let name = chars_of(self.name.as_str());
        let tag = chars_of("s3:");
        let url_tag = chars_of("s3://");
        starts_with(name.as_slice(), tag.as_slice()) && !starts_with(
            name.as_slice(),
            url_tag.as_slice(),
        )
    }

    /// The backend that holds the bytes.
    pub fn backend(&self) -> (b: Backend)
        ensures
            b == locator_backend(self@.name),
    {
        if self.is_s3() || self.is_s3_encrypted() {
            Backend::S3
        } else {
            Backend::Local
        }
    }

    /// The file name to show, as in a `Content-Disposition` header.
    pub fn display_name(&self) -> (n: &str)
        ensures
            n@ == locator_display_name(self@.name),
    {
        let whole = self.name.as_str();
        let name = chars_of(whole);
        let tag = chars_of("s3:");
        let url_tag = chars_of("s3://");
        proof {
            reveal_strlit("s3:");
            reveal_strlit("s3://");
        }
        if starts_with(name.as_slice(), url_tag.as_slice()) {
            let from = tail_index(name.as_slice(), '/');
            whole.substring_char(from, name.len())
        } else if starts_with(name.as_slice(), tag.as_slice()) {
            whole.substring_char(3, name.len())
        } else {
            assert(whole@.subrange(0, name.len() as int) =~= whole@);
            whole
        }
    }

    /// The path of the object in the object store, for a plain file that is kept there.
    pub fn s3_path(&self) -> (p: Option<&str>)
        ensures
            p is Some == locator_s3_path(self@.name) is Some,
            p matches Some(path) ==> Some(path@) == locator_s3_path(self@.name),
    {
        let whole = self.name.as_str();
        let name = chars_of(whole);
        let url_tag = chars_of("s3://");
        proof {
            reveal_strlit("s3://");
        }
        if starts_with(name.as_slice(), url_tag.as_slice()) {
            Some(whole.substring_char(5, name.len()))
        } else {
            None
        }
    }

    /// Settles where the bytes of a new attachment go and what the locator becomes, for
    /// the entity shown to the outside as `pasta_id`. An encrypted file is saved under the
    /// fixed name and keeps its own name in the locator; a plain file is saved under its own
    /// name. Returns the storage path to save the bytes under. Decoding the new locator
    /// gives back the name, and the bytes are looked for where they are saved. A name that
    /// the locator cannot carry is refused, and the reference stays as it is.
    pub fn place(&mut self, encrypted: bool, pasta_id: &str, args: &Args) -> (r: Result<
        String,
        CodecError,
    >)
        ensures
            r is Ok == encodable(chosen_backend(args.s3_configured()), encrypted, old(self)@.name),
            r matches Err(e) ==> e == CodecError::UnsafeFileName && *final(self) == *old(self),
            r matches Ok(save_path) ==> {
                &&& final(self)@.size == old(self)@.size
                &&& final(self)@.name == locator_for(
                    chosen_backend(args.s3_configured()),
                    encrypted,
                    pasta_id@,
                    old(self)@.name,
                )
                &&& save_path@ == save_path_for(
                    chosen_backend(args.s3_configured()),
                    encrypted,
                    pasta_id@,
                    old(self)@.name,
                )
                &&& locator_display_name(final(self)@.name) == old(self)@.name
                &&& locator_backend(final(self)@.name) == chosen_backend(args.s3_configured())
                &&& physical_path(final(self)@.name, encrypted, pasta_id@) == save_path@
            },
    {
        let name = chars_of(self.name.as_str());
        let s3 = args.s3_enabled();
        let carried = if s3 {
            if encrypted {
                let slashes = chars_of("//");
                !starts_with(name.as_slice(), slashes.as_slice())
            } else {
                !contains_char(name.as_slice(), '/')
            }
        } else {
            let tag = chars_of("s3:");
            !starts_with(name.as_slice(), tag.as_slice())
        };
        if !carried {
            return Err(CodecError::UnsafeFileName);
        }
        proof {
            lemma_locator_round_trip(
                chosen_backend(args.s3_configured()),
                encrypted,
                pasta_id@,
                self@.name,
            );
        }
        if encrypted {
            let save_path = generate_storage_path(pasta_id, "data.enc", args);
            if s3 {
                let mut locator: Vec<char> = Vec::new();
                push_str(&mut locator, "s3:");
                push_str(&mut locator, self.name.as_str());
                self.name = string_of(locator.as_slice());
            }
            Ok(save_path)
        } else {
            let save_path = generate_storage_path(pasta_id, self.name.as_str(), args);
            if s3 {
                self.name = save_path.clone();
            }
            Ok(save_path)
        }
    }

    /// The storage path of the ciphertext of an encrypted attachment.
    pub fn encrypted_path(&self, pasta_id: &str) -> (path: String)
        ensures
            path@ == physical_path(self@.name, true, pasta_id@),
    {
        let mut out: Vec<char> = Vec::new();
        if self.is_s3_encrypted() {
            push_str(&mut out, "s3://");
            push_str(&mut out, "attachments/");
            push_str(&mut out, pasta_id);
            push_str(&mut out, "/");
            push_str(&mut out, "data.enc");
            assert(out@ =~= storage_path(true, pasta_id@, encrypted_name()));
        } else {
            push_str(&mut out, "data.enc");
            assert(out@ =~= encrypted_name());
        }
        string_of(out.as_slice())
    }

    /// The storage path of the bytes of the attachment, for an entity that is encrypted at
    /// rest or is not.
    pub fn physical_path(&self, encrypted: bool, pasta_id: &str) -> (path: String)
        ensures
            path@ == physical_path(self@.name, encrypted, pasta_id@),
    {
        if encrypted {
            self.encrypted_path(pasta_id)
        } else {
            self.name.clone()
        }
    }

    /// Whether the name to show is that of an image. Only the name is looked at.
    pub fn is_image(&self) -> (b: bool)
        ensures
            b == self@.is_image(),
    {
        let lowercase_name = self.display_name().to_lowercase();
        is_image_name(lowercase_name.as_str())
    }

    /// Whether the name to show is that of a video. Only the name is looked at.
    pub fn is_video(&self) -> (b: bool)
        ensures
            b == self@.is_video(),
    {
        let lowercase_name = self.display_name().to_lowercase();
        is_video_name(lowercase_name.as_str())
    }

    /// Whether a browser can show the file in place.
    pub fn embeddable(&self) -> (b: bool)
        ensures
            b == self@.embeddable(),
    {
        self.is_image() || self.is_video()
    }
}

/// How an entity is protected. The mode is chosen at creation and never changes.
#[derive(Clone, Copy, Debug, PartialEq, Eq, Structural)]
pub enum PrivacyMode {
    /// Cleartext, open to all.
    Public,
    /// Cleartext; removal asks for the passphrase that the stored token was made with.
    Readonly,
    /// Encrypted at rest under a passphrase that every reader supplies.
    Private,
    /// Encrypted at rest under a key that only the clients hold.
    Secret,
}

/// One stored entry.
#[derive(Debug)]
pub struct Pasta {
    /// The id, given at creation. Nothing keeps two entities from having the same.
    pub id: u64,
    /// The text: cleartext, or ciphertext where the entity is encrypted at rest.
    pub content: String,
    /// The attachment, if there is one.
    pub file: Option<PastaFile>,
    /// The file extension that names the language of the text.
    pub extension: String,
    /// Whether the entity is kept out of the public list.
    pub private: bool,
    /// Whether removal asks for the passphrase that `encrypted_key` was made with.
    pub readonly: bool,
    /// Whether anybody may remove or replace the entity.
    pub editable: bool,
    /// Whether content and attachment are encrypted at rest.
    pub encrypt_server: bool,
    /// Whether the key of the encryption is held by the clients alone.
    pub encrypt_client: bool,
    /// For a read-only entity, its id encrypted under the passphrase of its maker.
    pub encrypted_key: Option<String>,
    /// When the entity was created, in Unix time.
    pub created: i64,
    /// When the entity expires, in Unix time; 0 for never.
    pub expiration: i64,
    /// When the entity was last read, in Unix time.
    pub last_read: i64,
    /// How often the entity has been read.
    pub read_count: u64,
    /// After how many reads the entity is burnt; 0 for no limit.
    pub burn_after_reads: u64,
    /// `url` for content that is one URL, `text` for all other.
    pub pasta_type: String,
}

/// The model of a [`Pasta`].
pub struct PastaView {
    pub id: u64,
    pub content: Seq<char>,
    pub file: Option<PastaFileView>,
    pub extension: Seq<char>,
    pub private: bool,
    pub readonly: bool,
    pub editable: bool,
    pub encrypt_server: bool,
    pub encrypt_client: bool,
    pub encrypted_key: Option<Seq<char>>,
    pub created: int,
    pub expiration: int,
    pub last_read: int,
    pub read_count: nat,
    pub burn_after_reads: nat,
    pub pasta_type: Seq<char>,
}

impl View for Pasta {
    type V = PastaView;

    open spec fn view(&self) -> PastaView {
        PastaView {
            id: self.id,
            content: self.content@,
            file: match self.file {
                Some(f) => Some(f@),
                None => None,
            },
            extension: self.extension@,
            private: self.private,
            readonly: self.readonly,
            editable: self.editable,
            encrypt_server: self.encrypt_server,
            encrypt_client: self.encrypt_client,
            encrypted_key: match self.encrypted_key {
                Some(k) => Some(k@),
                None => None,
            },
            created: self.created as int,
            expiration: self.expiration as int,
            last_read: self.last_read as int,
            read_count: self.read_count as nat,
            burn_after_reads: self.burn_after_reads as nat,
            pasta_type: self.pasta_type@,
        }
    }
}

/// `a / b` rounded towards zero, for a positive `b`.
pub open spec fn quotient_towards_zero(a: int, b: int) -> int {
    if a >= 0 {
        a / b
    } else {
        -((-a) / b)
    }
}

/// The 16-bit number that `x` wraps around to.
pub open spec fn wrapped_u16(x: int) -> int {
    x % 0x1_0000
}

/// How many whole `unit`s of seconds lie between `last_read` and `now`, as a 16-bit counter
/// that wraps around.
pub open spec fn units_since(last_read: int, now: int, unit: int) -> int {
    wrapped_u16(quotient_towards_zero(now - last_read, unit))
}

/// How long ago a moment was, in the largest unit of which more than one has passed.
pub open spec fn time_ago(last_read: int, now: int, short: bool) -> Seq<char> {
    let days = units_since(last_read, now, 86400);
    let hours = units_since(last_read, now, 3600);
    let minutes = units_since(last_read, now, 60);
    let seconds = units_since(last_read, now, 1);
    if days > 1 {
        decimal(days as nat) + (if short { " d ago"@ } else { " days ago"@ })
    } else if hours > 1 {
        decimal(hours as nat) + (if short { " h ago"@ } else { " hours ago"@ })
    } else if minutes > 1 {
        decimal(minutes as nat) + (if short { " m ago"@ } else { " minutes ago"@ })
    } else if seconds > 1 {
        decimal(seconds as nat) + (if short { " s ago"@ } else { " seconds ago"@ })
    } else {
        "just now"@
    }
}

/// How many whole `unit`s of seconds lie between `last_read` and `now`, wrapped to 16 bits.
pub fn elapsed_units(last_read: i64, now: i64, unit: u32) -> (n: u16)
    requires
        unit > 0,
    ensures
        n == units_since(last_read as int, now as int, unit as int),
{
    let d: i128 = now as i128 - last_read as i128;
    let u: i128 = unit as i128;
    if d >= 0 {
        let q: i128 = d / u;
        (q % 0x1_0000) as u16
    } else {
        let q: i128 = (-d) / u;
        let r: i128 = q % 0x1_0000;
        assert((-q) % 0x1_0000 == (if r == 0 { 0 } else { 0x1_0000 - r })) by (nonlinear_arith)
            requires
                r == q % 0x1_0000,
                q >= 0,
        ;
        if r == 0 {
            0
        } else {
            (0x1_0000 - r) as u16
        }
    }
}

/// The text for the time that has passed between `last_read` and `now`.
pub fn time_ago_string(last_read: i64, now: i64, short: bool) -> (s: String)
    ensures
        s@ == time_ago(last_read as int, now as int, short),
{
    let days = elapsed_units(last_read, now, 86400);
    let hours = elapsed_units(last_read, now, 3600);
    let minutes = elapsed_units(last_read, now, 60);
    let seconds = elapsed_units(last_read, now, 1);
    let mut out: Vec<char> = Vec::new();
    if days > 1 {
        push_decimal(&mut out, days as u128);
        push_str(&mut out, if short { " d ago" } else { " days ago" });
    } else if hours > 1 {
        push_decimal(&mut out, hours as u128);
        push_str(&mut out, if short { " h ago" } else { " hours ago" });
    } else if minutes > 1 {
        push_decimal(&mut out, minutes as u128);
        push_str(&mut out, if short { " m ago" } else { " minutes ago" });
    } else if seconds > 1 {
        push_decimal(&mut out, seconds as u128);
        push_str(&mut out, if short { " s ago" } else { " seconds ago" });
    } else {
        push_str(&mut out, "just now");
    }
    string_of(out.as_slice())
}

/// A size in bytes for a person to read: whole units, rounded down, in the largest of B, KB,
/// MB and GB of which there is at least one.
pub open spec fn size_label(bytes: nat) -> Seq<char> {
    if bytes < 1024 {
        decimal(bytes) + " B"@
    } else if bytes < 1024 * 1024 {
        decimal(bytes / 1024) + " KB"@
    } else if bytes < 1024 * 1024 * 1024 {
        decimal(bytes / (1024 * 1024)) + " MB"@
    } else {
        decimal(bytes / (1024 * 1024 * 1024)) + " GB"@
    }
}

/// The text for a size of `bytes` bytes.
pub fn size_string(bytes: u128) -> (s: String)
    ensures
        s@ == size_label(bytes as nat),
{
    let mut out: Vec<char> = Vec::new();
    if bytes < 1024 {
        push_decimal(&mut out, bytes);
        push_str(&mut out, " B");
    } else if bytes < 1024 * 1024 {
        push_decimal(&mut out, bytes / 1024);
        push_str(&mut out, " KB");
    } else if bytes < 1024 * 1024 * 1024 {
        push_decimal(&mut out, bytes / (1024 * 1024));
        push_str(&mut out, " MB");
    } else {
        push_decimal(&mut out, bytes / (1024 * 1024 * 1024));
        push_str(&mut out, " GB");
    }
    string_of(out.as_slice())
}

/// A moment as the wall clock shows it: month, day of the month, hour and minute.
#[derive(Clone, Copy, Debug, PartialEq, Eq, Structural)]
pub struct WallClock {
    pub month: u32,
    pub day: u32,
    pub hour: u32,
    pub minute: u32,
}

/// The first second of the year 1, in Unix time.
pub const FIRST_DATE: i64 = -62_135_596_800;

/// The last second of the year 9999, in Unix time.
pub const LAST_DATE: i64 = 253_402_300_799;

/// The moments that are shown as dates: those of the years with up to four digits. For
/// these every time zone has an offset; a moment outside is shown by the word that stands
/// for a moment without a reading.
pub open spec fn has_date(timestamp: int) -> bool {
    FIRST_DATE <= timestamp <= LAST_DATE
}

/// `Local.timestamp_opt` on a Unix time in whole seconds, then `earliest`, as month, day,
/// hour and minute: the moment in the time zone of the machine, if the date library can
/// name it. It is asked for moments of the years 1 to 9999 only. Nothing is claimed of the
/// value.
#[verifier::external_body]
fn local_wall_clock(timestamp: i64) -> (r: Option<WallClock>)
    requires
        has_date(timestamp as int),
{
    Local.timestamp_opt(timestamp, 0).earliest().map(
        |date|
            WallClock {
                month: date.month(),
                day: date.day(),
                hour: date.hour(),
                minute: date.minute(),
            },
    )
}

/// A number in two digits or more, with a leading zero where it has but one.
pub open spec fn two_digits(n: nat) -> Seq<char> {
    if n < 10 {
        seq!['0'] + decimal(n)
    } else {
        decimal(n)
    }
}

/// A moment for a person to read: month and day, then hour and minute.
pub open spec fn date_label(clock: WallClock) -> Seq<char> {
    two_digits(clock.month as nat) + "-"@ + two_digits(clock.day as nat) + " "@ + two_digits(
        clock.hour as nat,
    ) + ":"@ + two_digits(clock.minute as nat)
}

/// A moment for a person to read, or the word that stands for a moment without a reading.
pub open spec fn date_or(clock: Option<WallClock>, fallback: Seq<char>) -> Seq<char> {
    match clock {
        Some(c) => date_label(c),
        None => fallback,
    }
}

/// Appends a number in two digits or more.
fn push_two_digits(out: &mut Vec<char>, n: u32)
    ensures
        final(out)@ == old(out)@ + two_digits(n as nat),
{
    if n < 10 {
        out.push('0');
    }
    push_decimal(out, n as u128);
    assert(out@ =~= old(out)@ + two_digits(n as nat));
}

/// The text for a moment, or `fallback` where the moment has no reading.
pub fn date_string(clock: Option<WallClock>, fallback: &str) -> (s: String)
    ensures
        s@ == date_or(clock, fallback@),
{
    match clock {
        None => fallback.to_owned(),
        Some(c) => {
            let mut out: Vec<char> = Vec::new();
            push_two_digits(&mut out, c.month);
            push_str(&mut out, "-");
            push_two_digits(&mut out, c.day);
            push_str(&mut out, " ");
            push_two_digits(&mut out, c.hour);
            push_str(&mut out, ":");
            push_two_digits(&mut out, c.minute);
            assert(out@ =~= date_label(c));
            string_of(out.as_slice())
        },
    }
}

impl PastaView {
    /// The privacy mode.
    pub open spec fn privacy_mode(self) -> PrivacyMode {
        if self.readonly {
            PrivacyMode::Readonly
        } else if self.encrypt_client {
            PrivacyMode::Secret
        } else if self.encrypt_server {
            PrivacyMode::Private
        } else {
            PrivacyMode::Public
        }
    }

    /// The flags name exactly one privacy mode: a read-only entity is not encrypted, and a
    /// client-held key is only used on content that is encrypted at rest. Only a read-only
    /// entity has a token.
    pub open spec fn well_formed(self) -> bool {
        &&& self.readonly ==> !self.encrypt_server && !self.encrypt_client
        &&& self.encrypt_client ==> self.encrypt_server
        &&& self.encrypted_key is Some ==> self.readonly
    }

    /// The size of content and attachment together, in bytes.
    pub open spec fn total_size(self) -> nat {
        encode_utf8(self.content).len() + (match self.file {
            Some(f) => f.size,
            None => 0,
        })
    }

    /// The attachment can be shown in place: there is one, of a type that a browser shows, and
    /// it is not encrypted.
    pub open spec fn file_embeddable(self) -> bool {
        self.file matches Some(f) && f.embeddable() && !(self.encrypt_server
            || self.encrypt_client)
    }

    /// The content is shown as rendered markdown.
    pub open spec fn renders_markdown(self, enabled: bool) -> bool {
        enabled && !self.encrypt_client && !self.encrypt_server && (self.extension == "md"@
            || self.extension == "markdown"@)
    }

    /// The content is shown as rendered HTML.
    pub open spec fn renders_html(self, enabled: bool) -> bool {
        enabled && !self.encrypt_client && !self.encrypt_server && (self.extension == "html"@
            || self.extension == "htm"@)
    }

    /// The storage path of the bytes of the attachment, if there is one: the fixed name of
    /// encrypted files for an entity that is encrypted at rest, else what the locator says.
    pub open spec fn file_path(self, pasta_id: Seq<char>) -> Option<Seq<char>> {
        match self.file {
            Some(f) => Some(physical_path(f.name, self.encrypt_server, pasta_id)),
            None => None,
        }
    }

    /// The entity after it has been read once more, at the moment `now`. The counter of
    /// reads stops at the largest number that it can hold.
    pub open spec fn after_read(self, now: int) -> PastaView {
        PastaView {
            read_count: if self.read_count < u64::MAX {
                self.read_count + 1
            } else {
                self.read_count
            },
            last_read: now,
            ..self
        }
    }
}

impl Pasta {
    /// The privacy mode.
    pub fn privacy_mode(&self) -> (m: PrivacyMode)
        ensures
            m == self@.privacy_mode(),
    {
        if self.readonly {
            PrivacyMode::Readonly
        } else if self.encrypt_client {
            PrivacyMode::Secret
        } else if self.encrypt_server {
            PrivacyMode::Private
        } else {
            PrivacyMode::Public
        }
    }

    /// Whether the entity has an attachment.
    pub fn has_file(&self) -> (b: bool)
        ensures
            b == self@.file is Some,
    {
        self.file.is_some()
    }

    /// The size of content and attachment together, for a person to read.
    pub fn total_size_as_string(&self) -> (s: String)
        ensures
            s@ == size_label(self@.total_size()),
    {
        let content_bytes: usize = self.content.as_str().as_bytes().len();
        let file_bytes: u64 = match &self.file {
            Some(f) => f.size,
            None => 0,
        };
        size_string(content_bytes as u128 + file_bytes as u128)
    }

    /// Whether the attachment can be shown in place.
    pub fn file_embeddable(&self) -> (b: bool)
        ensures
            b == self@.file_embeddable(),
    {
        match &self.file {
            Some(f) => f.embeddable() && !(self.encrypt_server || self.encrypt_client),
            None => false,
        }
    }

    /// How long ago the entity was last read, seen from the moment `now`.
    pub fn last_read_time_ago_at(&self, now: i64) -> (s: String)
        ensures
            s@ == time_ago(self@.last_read, now as int, false),
    {
        time_ago_string(self.last_read, now, false)
    }

    /// How long ago the entity was last read, in short, seen from the moment `now`.
    pub fn short_last_read_time_ago_at(&self, now: i64) -> (s: String)
        ensures
            s@ == time_ago(self@.last_read, now as int, true),
    {
        time_ago_string(self.last_read, now, true)
    }

    /// How many whole days ago the entity was last read, seen from the moment `now`.
    pub fn last_read_days_ago_at(&self, now: i64) -> (days: u16)
        ensures
            days == units_since(self@.last_read, now as int, 86400),
    {
        elapsed_units(self.last_read, now, 86400)
    }

    /// How long ago the entity was last read, by the system clock.
    pub fn last_read_time_ago_as_string(&self) -> (s: String)
        ensures
            exists|now: i64| s@ == time_ago(self@.last_read, now as int, false),
    {
        let now = timenow();
        self.last_read_time_ago_at(now)
    }

    /// How long ago the entity was last read, in short, by the system clock.
    pub fn short_last_read_time_ago_as_string(&self) -> (s: String)
        ensures
            exists|now: i64| s@ == time_ago(self@.last_read, now as int, true),
    {
        let now = timenow();
        self.short_last_read_time_ago_at(now)
    }

    /// How many whole days ago the entity was last read, by the system clock.
    pub fn last_read_days_ago(&self) -> (days: u16)
        ensures
            exists|now: i64| days == units_since(self@.last_read, now as int, 86400),
    {
        let now = timenow();
        self.last_read_days_ago_at(now)
    }

    /// Whether the content is to be shown as rendered markdown.
    pub fn should_render_markdown(&self, args: &Args) -> (b: bool)
        ensures
            b == self@.renders_markdown(args.render_markdown),
    {
        if !args.render_markdown || self.encrypt_client || self.encrypt_server {
            return false;
        }
        same_text(self.extension.as_str(), "md") || same_text(self.extension.as_str(), "markdown")
    }

    /// Whether the content is to be shown as rendered HTML.
    pub fn should_render_html(&self, args: &Args) -> (b: bool)
        ensures
            b == self@.renders_html(args.render_html),
    {
        if !args.render_html || self.encrypt_client || self.encrypt_server {
            return false;
        }
        same_text(self.extension.as_str(), "html") || same_text(self.extension.as_str(), "htm")
    }

    /// The content, as the entity prints.
    pub fn to_string(&self) -> (s: String)
        ensures
            s@ == self@.content,
    {
        self.content.clone()
    }

    /// The storage path of the bytes of the attachment, if there is one, for the entity
    /// shown to the outside as `pasta_id`. This is where the bytes are deleted when the
    /// entity goes.
    pub fn file_path(&self, pasta_id: &str) -> (path: Option<String>)
        ensures
            path is Some == self@.file_path(pasta_id@) is Some,
            path matches Some(p) ==> Some(p@) == self@.file_path(pasta_id@),
    {
        match &self.file {
            Some(f) => Some(f.physical_path(self.encrypt_server, pasta_id)),
            None => None,
        }
    }

    /// When the entity was created, in the time zone of the machine; `Unknow` for a moment
    /// that is not shown as a date.
    pub fn created_as_string(&self) -> (s: String)
        ensures
            !has_date(self@.created) ==> s@ == "Unknow"@,
            exists|clock: Option<WallClock>| s@ == date_or(clock, "Unknow"@),
    {
        let clock = if FIRST_DATE <= self.created && self.created <= LAST_DATE {
            local_wall_clock(self.created)
        } else {
            None
        };
        date_string(clock, "Unknow")
    }

    /// When the entity expires, in the time zone of the machine; `Never` for one that does
    /// not, and for a moment that is not shown as a date.
    pub fn expiration_as_string(&self) -> (s: String)
        ensures
            self@.expiration == 0 || !has_date(self@.expiration) ==> s@ == "Never"@,
            exists|clock: Option<WallClock>| s@ == date_or(clock, "Never"@),
    {
        let clock = if self.expiration != 0 && FIRST_DATE <= self.expiration && self.expiration
            <= LAST_DATE {
            local_wall_clock(self.expiration)
        } else {
            None
        };
        date_string(clock, "Never")
    }

    /// The content made fit for a template literal of a script in an HTML page.
    pub fn content_escaped(&self) -> (out: String)
        ensures
            out@ == escaped_text(escaped_for_script(self@.content)),
    {
        let for_script = escape_for_script(self.content.as_str());
        escape_text(for_script.as_str())
    }

    /// The content made fit for a text area of an HTML page.
    pub fn content_textarea_safe(&self) -> (out: String)
        ensures
            out@ == escaped_text(self@.content),
    {
        escape_text(self.content.as_str())
    }

    /// The content, taken as markdown, as HTML that is safe for display.
    pub fn content_rendered_markdown(&self) -> (out: String)
        ensures
            out@ == rendered_markdown(self@.content),
    {
        render_markdown(self.content.as_str())
    }

    /// The content, taken as an HTML document, made fit for the `srcdoc` of a frame.
    pub fn content_for_html_iframe(&self) -> (out: String)
        ensures
            out@ == escaped_attribute(self@.content),
    {
        prepare_html_for_iframe(self.content.as_str())
    }

    /// Takes down that the entity has been read at the moment `now`. Nothing else about an
    /// entity changes while it lives.
    pub fn record_read(&mut self, now: i64)
        ensures
            final(self)@ == old(self)@.after_read(now as int),
    {
        if self.read_count < u64::MAX {
            self.read_count = self.read_count + 1;
        }
        self.last_read = now;
    }
}

} // verus!
