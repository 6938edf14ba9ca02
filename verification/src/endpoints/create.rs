//! Creation: from the fields of a request to the entity that enters the store.
//!
//! The transport reads the request field by field and hands each piece to a
//! [`CreationRequest`]. When the request has been read, [`create`] checks its sender and
//! finishes the entity: it applies the encryption that the privacy mode asks for and settles
//! where the attachment goes. The caller saves the bytes, and [`commit`] puts the entity into
//! the store if that went well.

use crate::args::Args;
use crate::endpoints::remove::proves_ownership;
use crate::pasta::{
    chosen_backend, encodable, is_safe_name, locator_for, sanitized_name, save_path_for,
    CodecError, Pasta, PastaFile, PastaFileView, PastaView, PrivacyMode,
};
use crate::store::{insert, IndexAction};
use crate::util::misc::{
    cipher_bytes, cipher_text, decrypted, decrypted_bytes, encrypt, encrypt_bytes, encrypted,
    first_span, is_valid_url, DecryptError, SpanKind,
};
use crate::util::storage::StorageError;
use crate::util::text::{
    chars_of, decimal, decimal_string, digit_char, push_str, same_text, starts_with, string_of,
    trim, trimmed,
};
use rand::Rng;
use sha2::{Digest, Sha256};
use vstd::prelude::*;
use vstd::string::StringExecFns;
use vstd::utf8::encode_utf8;

verus! {

/// The longest time that a paste is kept when it is not kept for ever: one week, in seconds.
pub const ONE_WEEK: i64 = 604800;

/// The moment at which a paste expires that is created at `timenow` with the expiry
/// `expiration`; 0 stands for never. What is not one of the known expiries counts as a week,
/// and so does `never` where eternal pastes are not allowed.
pub open spec fn expiration_time(expiration: Seq<char>, timenow: int, eternal: bool) -> int {
    if expiration == "1min"@ {
        timenow + 60
    } else if expiration == "10min"@ {
        timenow + 60 * 10
    } else if expiration == "1hour"@ {
        timenow + 60 * 60
    } else if expiration == "24hour"@ {
        timenow + 60 * 60 * 24
    } else if expiration == "3days"@ {
        timenow + 60 * 60 * 24 * 3
    } else if expiration == "1week"@ {
        timenow + 60 * 60 * 24 * 7
    } else if expiration == "never"@ {
        if eternal {
            0
        } else {
            timenow + 60 * 60 * 24 * 7
        }
    } else {
        timenow + 60 * 60 * 24 * 7
    }
}

/// The moment at which a paste expires that is created at `timenow` with the expiry
/// `expiration`.
pub fn expiration_to_timestamp(expiration: &str, timenow: i64, args: &Args) -> (expires: i64)
    requires
        timenow + ONE_WEEK <= i64::MAX,
    ensures
        expires == expiration_time(expiration@, timenow as int, args.eternal_pasta),
{
    if same_text(expiration, "1min") {
        timenow + 60
    } else if same_text(expiration, "10min") {
        timenow + 60 * 10
    } else if same_text(expiration, "1hour") {
        timenow + 60 * 60
    } else if same_text(expiration, "24hour") {
        timenow + 60 * 60 * 24
    } else if same_text(expiration, "3days") {
        timenow + 60 * 60 * 24 * 3
    } else if same_text(expiration, "1week") {
        timenow + 60 * 60 * 24 * 7
    } else if same_text(expiration, "never") {
        if args.eternal_pasta {
            0
        } else {
            timenow + 60 * 60 * 24 * 7
        }
    } else {
        timenow + 60 * 60 * 24 * 7
    }
}

/// The number of reads after which a paste is burnt, for the value of the form field; 0
/// stands for no limit, and so does what is not one of the known values.
pub open spec fn burn_limit(value: Seq<char>) -> nat {
    if value == "1"@ {
        1
    } else if value == "10"@ {
        10
    } else if value == "100"@ {
        100
    } else if value == "1000"@ {
        1000
    } else if value == "10000"@ {
        10000
    } else {
        0
    }
}

/// The number of reads after which a paste is burnt, for the value of the form field.
pub fn burn_after_reads(value: &str) -> (limit: u64)
    ensures
        limit == burn_limit(value@),
{
    if same_text(value, "1") {
        1
    } else if same_text(value, "10") {
        10
    } else if same_text(value, "100") {
        100
    } else if same_text(value, "1000") {
        1000
    } else if same_text(value, "10000") {
        10000
    } else {
        0
    }
}

/// What `Sha256::digest` returns for a message: its SHA-256 hash.
pub uninterp spec fn sha256(data: Seq<u8>) -> Seq<u8>;

/// `Sha256::digest` on the message.
#[verifier::external_body]
fn sha256_digest(data: &[u8]) -> (hash: Vec<u8>)
    ensures
        hash@ == sha256(data@),
{
    Sha256::digest(data).to_vec()
}

/// The character that stands for the hexadecimal digit `d`, in lower case.
pub open spec fn hex_digit(d: int) -> char {
    if d < 10 {
        digit_char(d)
    } else {
        (('a' as int) + d - 10) as char
    }
}

/// The bytes in hexadecimal, two lower-case digits for each.
pub open spec fn hex_lower(bytes: Seq<u8>) -> Seq<char>
    decreases bytes.len(),
{
    if bytes.len() == 0 {
        Seq::empty()
    } else {
        hex_lower(bytes.drop_last()).push(hex_digit(bytes.last() as int / 16)).push(
            hex_digit(bytes.last() as int % 16),
        )
    }
}

/// The character for a hexadecimal digit.
fn hex_char(d: u8) -> (c: char)
    requires
        d < 16,
    ensures
        c == hex_digit(d as int),
{
    if d < 10 {
        (48u8 + d) as char
    } else {
        (87u8 + d) as char
    }
}

/// The bytes in hexadecimal, two lower-case digits for each.
pub fn hex_string(bytes: &[u8]) -> (s: String)
    ensures
        s@ == hex_lower(bytes@),
{
    let mut out: Vec<char> = Vec::new();
    let mut i: usize = 0;
    while i < bytes.len()
        invariant
            i <= bytes.len(),
            out@ == hex_lower(bytes@.take(i as int)),
        decreases bytes.len() - i,
    {
        assert(bytes@.take(i + 1).drop_last() =~= bytes@.take(i as int));
        let b = bytes[i];
        out.push(hex_char(b / 16));
        out.push(hex_char(b % 16));
        i += 1;
    }
    assert(bytes@.take(bytes.len() as int) =~= bytes@);
    string_of(out.as_slice())
}

/// The salt that is hashed with the uploader password.
pub open spec fn uploader_salt() -> Seq<char> {
    "microbin_uploader_salt_2024"@
}

/// The token that shows knowledge of the uploader password: the hash of password and salt,
/// in hexadecimal.
pub open spec fn uploader_token(password: Seq<char>) -> Seq<char> {
    hex_lower(sha256(encode_utf8(password) + encode_utf8(uploader_salt())))
}

/// The token that shows knowledge of the uploader password.
pub fn generate_uploader_token(password: &str) -> (token: String)
    ensures
        token@ == uploader_token(password@),
{
    let mut data: Vec<u8> = Vec::new();
    data.extend_from_slice(password.as_bytes());
    data.extend_from_slice("microbin_uploader_salt_2024".as_bytes());
    assert(data@ =~= encode_utf8(password@) + encode_utf8(uploader_salt()));
    let hash = sha256_digest(data.as_slice());
    hex_string(hash.as_slice())
}

/// `s` without the white space around it.
fn trimmed_string(s: &str) -> (t: String)
    ensures
        t@ == trimmed(s@),
{
    let chars = chars_of(s);
    string_of(trim(chars.as_slice()))
}

/// Uploads ask for the uploader password: the server is read-only and a password is set.
pub open spec fn uploads_restricted(args: &Args) -> bool {
    args.readonly && args.uploader_password is Some
}

/// The cookie value that lets its bearer upload.
pub open spec fn expected_token(args: &Args) -> Seq<char> {
    uploader_token(trimmed(args.uploader_password->0@))
}

/// The cookie shows that its bearer may upload, on a server where not everybody may.
pub open spec fn cookie_opens(cookie: Option<&str>, args: &Args) -> bool {
    uploads_restricted(args) && cookie is Some && cookie->0@ == expected_token(args)
}

/// The password is the uploader password, on a server where not everybody may upload. White
/// space around either does not count.
pub open spec fn password_opens(password: Seq<char>, args: &Args) -> bool {
    uploads_restricted(args) && trimmed(password) == trimmed(args.uploader_password->0@)
}

/// Whether the `uploader_token` cookie of a request, if it has one, shows that its sender
/// may upload. Where uploads are open to all, no cookie does.
pub fn check_uploader_cookie(cookie: Option<&str>, args: &Args) -> (b: bool)
    ensures
        b == cookie_opens(cookie, args),
{
    if !args.readonly {
        return false;
    }
    match &args.uploader_password {
        None => false,
        Some(password) => {
            let expected = trimmed_string(password.as_str());
            let token = generate_uploader_token(expected.as_str());
            match cookie {
                Some(c) => same_text(c, token.as_str()),
                None => false,
            }
        },
    }
}

/// The form that a person logs in with as uploader.
#[derive(Debug)]
pub struct UploaderLoginForm {
    password: String,
}

impl View for UploaderLoginForm {
    type V = Seq<char>;

    /// The password as typed.
    closed spec fn view(&self) -> Seq<char> {
        self.password@
    }
}

impl UploaderLoginForm {
    /// The form with the given password.
    pub fn new(password: String) -> (form: UploaderLoginForm)
        ensures
            form@ == password@,
    {
        UploaderLoginForm { password }
    }

    /// The password as typed.
    pub fn password(&self) -> (p: &str)
        ensures
            p@ == self@,
    {
        self.password.as_str()
    }
}

/// How a login as uploader ends.
#[derive(Debug)]
pub enum LoginOutcome {
    /// Nobody needs to log in here; the person is sent to the start page.
    NotRequired,
    /// The password is right: the person is sent to the start page with the cookie.
    Granted {
        /// The value of the `uploader_token` cookie.
        token: String,
        /// Whether the cookie is for secure connections only.
        secure: bool,
    },
    /// The password is wrong: the person is sent back to the login page.
    Incorrect,
}

/// Decides a login as uploader. White space around either password does not count.
pub fn login_submit(form: &UploaderLoginForm, args: &Args) -> (outcome: LoginOutcome)
    ensures
        !uploads_restricted(args) ==> outcome is NotRequired,
        uploads_restricted(args) && !password_opens(form@, args) ==> outcome is Incorrect,
        password_opens(form@, args) ==> (outcome matches LoginOutcome::Granted { token, secure }
            && token@ == expected_token(args) && secure == "https://"@.is_prefix_of(
            args.public_path@,
        )),
{
    if !args.readonly {
        return LoginOutcome::NotRequired;
    }
    match &args.uploader_password {
        None => LoginOutcome::NotRequired,
        Some(password) => {
            let expected = trimmed_string(password.as_str());
            let given = trimmed_string(form.password());
            if same_text(given.as_str(), expected.as_str()) {
                let token = generate_uploader_token(expected.as_str());
                let public_path = chars_of(args.public_path.as_str());
                let https = chars_of("https://");
                let secure = starts_with(public_path.as_slice(), https.as_slice());
                LoginOutcome::Granted { token, secure }
            } else {
                LoginOutcome::Incorrect
            }
        },
    }
}

/// `Rng::gen` on the generator of the thread, for a 16-bit number: a number drawn at
/// random. Nothing is known of it.
#[verifier::external_body]
fn random_u16() -> (n: u16) {
    rand::thread_rng().gen::<u16>()
}

/// The id for a new entity: drawn at random from the numbers of 16 bits. Nothing keeps it
/// apart from the ids that are in use.
pub fn generate_id() -> (id: u64)
    ensures
        id <= u16::MAX,
{
    random_u16() as u64
}

/// An attachment that has been received and waits for the end of the request.
#[derive(Debug)]
pub struct PendingFile {
    /// The reference, with the sanitised name and the size.
    pub file: PastaFile,
    /// The bytes as received.
    pub data: Vec<u8>,
}

/// A creation request while its fields come in: the entity as far as it is known, and what
/// the request carries besides.
#[derive(Debug)]
pub struct CreationRequest {
    /// The entity in the making.
    pub pasta: Pasta,
    /// The key that the client made for a secret paste.
    pub random_key: String,
    /// The passphrase that the uploader chose.
    pub plain_key: String,
    /// The uploader password that came with the request.
    pub uploader_password: String,
    /// The attachment, once it has been received.
    pub pending_file: Option<PendingFile>,
}

/// The model of a [`CreationRequest`].
pub struct CreationRequestView {
    pub pasta: PastaView,
    pub random_key: Seq<char>,
    pub plain_key: Seq<char>,
    pub uploader_password: Seq<char>,
    pub pending_file: Option<(PastaFileView, Seq<u8>)>,
}

impl View for CreationRequest {
    type V = CreationRequestView;

    open spec fn view(&self) -> CreationRequestView {
        CreationRequestView {
            pasta: self.pasta@,
            random_key: self.random_key@,
            plain_key: self.plain_key@,
            uploader_password: self.uploader_password@,
            pending_file: match self.pending_file {
                Some(p) => Some((p.file@, p.data@)),
                None => None,
            },
        }
    }
}

/// The request before any of its fields has been read: a public paste without content,
/// created and last read at `timenow`, that expires as the configuration says.
pub open spec fn blank_request(id: u64, timenow: int, args: &Args) -> CreationRequestView {
    CreationRequestView {
        pasta: PastaView {
            id,
            content: Seq::empty(),
            file: None,
            extension: Seq::empty(),
            private: false,
            readonly: false,
            editable: args.editable,
            encrypt_server: false,
            encrypt_client: false,
            encrypted_key: None,
            created: timenow,
            expiration: expiration_time(args.default_expiry@, timenow, args.eternal_pasta),
            last_read: timenow,
            read_count: 0,
            burn_after_reads: 0,
            pasta_type: Seq::empty(),
        },
        random_key: Seq::empty(),
        plain_key: Seq::empty(),
        uploader_password: Seq::empty(),
        pending_file: None,
    }
}

/// The request after one piece of the text field `field` has been read. Pieces of the
/// uploader password add up; of every other field the last piece counts. A field that is not
/// known changes nothing, and no field sets the token of a read-only paste: that is made
/// when the entity is finished, from its id and the passphrase.
pub open spec fn after_chunk(
    r: CreationRequestView,
    field: Seq<char>,
    chunk: Seq<char>,
    eternal: bool,
) -> CreationRequestView {
    if field == "uploader_password"@ {
        CreationRequestView { uploader_password: r.uploader_password + chunk, ..r }
    } else if field == "random_key"@ {
        CreationRequestView { random_key: chunk, ..r }
    } else if field == "privacy"@ {
        CreationRequestView {
            pasta: PastaView {
                private: chunk != "public"@,
                readonly: chunk == "readonly"@,
                encrypt_client: chunk == "secret"@,
                encrypt_server: chunk == "private"@ || chunk == "secret"@,
                ..r.pasta
            },
            ..r
        }
    } else if field == "plain_key"@ {
        CreationRequestView { plain_key: chunk, ..r }
    } else if field == "expiration"@ {
        CreationRequestView {
            pasta: PastaView {
                expiration: expiration_time(chunk, r.pasta.created, eternal),
                ..r.pasta
            },
            ..r
        }
    } else if field == "burn_after"@ {
        CreationRequestView {
            pasta: PastaView { burn_after_reads: burn_limit(chunk), ..r.pasta },
            ..r
        }
    } else if field == "syntax_highlight"@ {
        CreationRequestView { pasta: PastaView { extension: chunk, ..r.pasta }, ..r }
    } else {
        r
    }
}

/// The request after its text content has been read: empty content changes nothing, other
/// content is taken and typed as a URL where it is one and nothing else, as text where not.
pub open spec fn after_content(r: CreationRequestView, content: Seq<char>) -> CreationRequestView {
    if content.len() == 0 {
        r
    } else {
        CreationRequestView {
            pasta: PastaView {
                content,
                pasta_type: if first_span(content) == Some((content, SpanKind::Url)) {
                    "url"@
                } else {
                    "text"@
                },
                ..r.pasta
            },
            ..r
        }
    }
}

/// An attachment of `len` bytes is within the limits: that for all attachments, and for an
/// entity that is encrypted at rest also that for encrypted ones.
pub open spec fn within_size_limit(encrypted: bool, len: int, args: &Args) -> bool {
    &&& encrypted ==> len <= args.max_file_size_encrypted_mb * 1024 * 1024
    &&& len <= args.max_file_size_unencrypted_mb * 1024 * 1024
}

/// The request after it has received the attachment `file` with the bytes `data`: the
/// reference gets the size, and the paste counts as text.
pub open spec fn after_file(r: CreationRequestView, file: PastaFileView, data: Seq<u8>) -> CreationRequestView {
    CreationRequestView {
        pasta: PastaView { pasta_type: "text"@, ..r.pasta },
        pending_file: Some((PastaFileView { size: data.len(), ..file }, data)),
        ..r
    }
}

impl CreationRequestView {
    /// The content and the attachment are encrypted at rest.
    pub open spec fn encrypts(self) -> bool {
        self.pasta.encrypt_server && !self.pasta.readonly
    }

    /// The key that content and attachment are encrypted under: the client's for a secret
    /// paste, else the uploader's passphrase.
    pub open spec fn key(self) -> Seq<char> {
        if self.pasta.encrypt_client {
            self.random_key
        } else {
            self.plain_key
        }
    }

    /// The name of the attachment, as it was sanitised; empty where there is none.
    pub open spec fn attachment_name(self) -> Seq<char> {
        match self.pending_file {
            Some(p) => p.0.name,
            None => Seq::empty(),
        }
    }

    /// The bytes of the attachment, as they were received; none where there is none.
    pub open spec fn attachment_data(self) -> Seq<u8> {
        match self.pending_file {
            Some(p) => p.1,
            None => Seq::empty(),
        }
    }

    /// Why the request is refused, if it is: its attachment is over the limits; or content
    /// or attachment would have to be encrypted and the key for that is empty; or the
    /// locator cannot carry the name of the attachment.
    pub open spec fn refusal(self, args: &Args) -> Option<CreationError> {
        if self.pending_file is Some && !within_size_limit(
            self.pasta.encrypt_server,
            self.attachment_data().len() as int,
            args,
        ) {
            Some(CreationError::FileTooLarge)
        } else if self.encrypts() && self.key().len() == 0 && (self.pasta.content.len() != 0
            || self.pending_file is Some) {
            Some(CreationError::EmptyKey)
        } else if self.pending_file is Some && !encodable(
            chosen_backend(args.s3_configured()),
            self.encrypts(),
            self.attachment_name(),
        ) {
            Some(CreationError::UnsafeFileName)
        } else {
            None
        }
    }

    /// The locator of the attachment `file` of the finished entity.
    pub open spec fn placed(self, file: PastaFileView, pasta_id: Seq<char>, s3: bool) -> PastaFileView {
        PastaFileView {
            name: locator_for(chosen_backend(s3), self.encrypts(), pasta_id, file.name),
            size: file.size,
        }
    }

    /// The finished entity. A read-only paste with a passphrase gets its own id, encrypted
    /// under the passphrase, as the token that proves ownership later; no other paste has a
    /// token. Content is encrypted where the mode asks for it.
    pub open spec fn finished(self, pasta_id: Seq<char>, s3: bool) -> PastaView {
        PastaView {
            encrypted_key: if self.plain_key.len() != 0 && self.pasta.readonly {
                Some(encrypted(decimal(self.pasta.id as nat), self.plain_key))
            } else {
                None
            },
            content: if self.encrypts() && self.pasta.content.len() != 0 {
                encrypted(self.pasta.content, self.key())
            } else {
                self.pasta.content
            },
            file: match self.pending_file {
                Some(p) => Some(self.placed(p.0, pasta_id, s3)),
                None => self.pasta.file,
            },
            ..self.pasta
        }
    }

    /// The bytes to save and the storage path to save them under, if there is an attachment.
    pub open spec fn to_save(self, pasta_id: Seq<char>, s3: bool) -> Option<(Seq<char>, Seq<u8>)> {
        match self.pending_file {
            Some(p) => Some(
                (
                    save_path_for(chosen_backend(s3), self.encrypts(), pasta_id, p.0.name),
                    if self.encrypts() {
                        cipher_bytes(p.1, self.key())
                    } else {
                        p.1
                    },
                ),
            ),
            None => None,
        }
    }
}

/// Why a creation request is refused.
#[derive(Clone, Copy, Debug, PartialEq, Eq, Structural)]
pub enum CreationError {
    /// The attachment is larger than the configuration allows.
    FileTooLarge,
    /// The paste is to be encrypted, and the key for that is empty.
    EmptyKey,
    /// The locator cannot carry the name of the attachment.
    UnsafeFileName,
}

impl CreationError {
    /// The reason in words.
    pub fn message(&self) -> (m: &'static str)
        ensures
            m@ == (match self {
                CreationError::FileTooLarge => "File exceeded size limit."@,
                CreationError::EmptyKey => "Encryption needs a key."@,
                CreationError::UnsafeFileName => "File name is not safe."@,
            }),
    {
        match self {
            CreationError::FileTooLarge => "File exceeded size limit.",
            CreationError::EmptyKey => "Encryption needs a key.",
            CreationError::UnsafeFileName => "File name is not safe.",
        }
    }
}

/// Whether the sender of a creation request may upload.
#[derive(Debug)]
pub enum UploaderCheck {
    /// Uploads are open to all.
    Open,
    /// The request carries the cookie of an uploader.
    ByCookie,
    /// The request carries the uploader password; the answer sets the cookie.
    ByPassword {
        /// The value of the `uploader_token` cookie.
        token: String,
    },
    /// Neither: the request is refused.
    Denied,
}

impl UploaderCheck {
    /// This is the answer to a request that carries the uploader password `password` and
    /// the cookie `cookie`. A cookie that opens is not asked for the password, and only a
    /// password that opens without a cookie has the cookie set.
    pub open spec fn answers(&self, password: Seq<char>, cookie: Option<&str>, args: &Args) -> bool {
        match self {
            UploaderCheck::Open => !uploads_restricted(args),
            UploaderCheck::ByCookie => cookie_opens(cookie, args),
            UploaderCheck::ByPassword { token } => uploads_restricted(args) && !cookie_opens(
                cookie,
                args,
            ) && password_opens(password, args) && token@ == expected_token(args),
            UploaderCheck::Denied => uploads_restricted(args) && !cookie_opens(cookie, args)
                && !password_opens(password, args),
        }
    }
}

/// The bytes to save for a new attachment.
#[derive(Debug)]
pub struct FileSave {
    /// The storage path to save them under.
    pub storage_path: String,
    /// The bytes, encrypted where the entity is.
    pub data: Vec<u8>,
}

/// What a creation request comes to.
#[derive(Debug)]
pub struct Creation {
    /// The entity, ready for the store.
    pub pasta: Pasta,
    /// The bytes of its attachment, to be saved before the entity enters the store.
    pub save: Option<FileSave>,
}

impl Creation {
    /// What there is to save, as a model.
    pub open spec fn to_save(&self) -> Option<(Seq<char>, Seq<u8>)> {
        match self.save {
            Some(s) => Some((s.storage_path@, s.data@)),
            None => None,
        }
    }

    /// This is what the request `r` comes to for the entity shown to the outside as
    /// `pasta_id`: the entity is the finished one, and what there is to save is what the
    /// request says. A read-only paste made with a passphrase can later be removed with
    /// that passphrase. What is encrypted differs from the clear form and opens under the
    /// key that encrypted it.
    pub open spec fn completes(&self, r: CreationRequestView, pasta_id: Seq<char>, s3: bool) -> bool {
        &&& self.pasta@ == r.finished(pasta_id, s3)
        &&& self.to_save() == r.to_save(pasta_id, s3)
        &&& r.pasta.readonly && r.plain_key.len() != 0 ==> proves_ownership(
            self.pasta@,
            r.plain_key,
        )
        &&& r.encrypts() ==> decrypted(self.pasta@.content, r.key()) == Ok::<
            Seq<char>,
            DecryptError,
        >(r.pasta.content)
        &&& r.encrypts() && r.pasta.content.len() != 0 ==> self.pasta@.content
            != r.pasta.content
        &&& r.encrypts() && r.pending_file is Some ==> self.save is Some && self.save->0.data@
            != r.attachment_data() && decrypted_bytes(self.save->0.data@, r.key()) == Ok::<
            Seq<u8>,
            DecryptError,
        >(r.attachment_data())
    }
}

impl CreationRequest {
    /// The flags of the entity name one privacy mode, it has no token yet, and nothing in
    /// the request can overflow the clock: a week after its creation is still a moment that the machine can
    /// name.
    pub open spec fn well_formed(&self) -> bool {
        &&& self.pasta@.well_formed()
        &&& self.pasta@.encrypted_key is None
        &&& self.pasta.created + ONE_WEEK <= i64::MAX
    }

    /// The request for a new entity with the id `id`, at the moment `timenow`, before any of
    /// its fields has been read.
    pub fn new(id: u64, timenow: i64, args: &Args) -> (r: CreationRequest)
        requires
            timenow + ONE_WEEK <= i64::MAX,
        ensures
            r@ == blank_request(id, timenow as int, args),
            r.well_formed(),
    {
        CreationRequest {
            pasta: Pasta {
                id,
                content: String::new(),
                file: None,
                extension: String::new(),
                private: false,
                readonly: false,
                editable: args.editable,
                encrypt_server: false,
                encrypted_key: None,
                encrypt_client: false,
                created: timenow,
                read_count: 0,
                burn_after_reads: 0,
                last_read: timenow,
                pasta_type: String::new(),
                expiration: expiration_to_timestamp(args.default_expiry.as_str(), timenow, args),
            },
            random_key: String::new(),
            plain_key: String::new(),
            uploader_password: String::new(),
            pending_file: None,
        }
    }

    /// Takes in one piece of the text field `field`.
    pub fn apply_chunk(&mut self, field: &str, chunk: &str, args: &Args)
        requires
            old(self).well_formed(),
        ensures
            final(self)@ == after_chunk(old(self)@, field@, chunk@, args.eternal_pasta),
            final(self).well_formed(),
    {
        proof {
            reveal_strlit("readonly");
            reveal_strlit("private");
            reveal_strlit("secret");
            assert("readonly"@.len() == 8 && "private"@.len() == 7 && "secret"@.len() == 6);
        }
        if same_text(field, "uploader_password") {
            self.uploader_password.append(chunk);
        } else if same_text(field, "random_key") {
            self.random_key = chunk.to_owned();
        } else if same_text(field, "privacy") {
            self.pasta.private = !same_text(chunk, "public");
            self.pasta.readonly = same_text(chunk, "readonly");
            self.pasta.encrypt_client = same_text(chunk, "secret");
            self.pasta.encrypt_server = same_text(chunk, "private") || same_text(chunk, "secret");
        } else if same_text(field, "plain_key") {
            self.plain_key = chunk.to_owned();
        } else if same_text(field, "expiration") {
            self.pasta.expiration = expiration_to_timestamp(chunk, self.pasta.created, args);
        } else if same_text(field, "burn_after") {
            self.pasta.burn_after_reads = burn_after_reads(chunk);
        } else if same_text(field, "syntax_highlight") {
            self.pasta.extension = chunk.to_owned();
        }
    }

    /// Takes in the text content, once all of it has been read.
    pub fn set_content(&mut self, content: String)
        ensures
            final(self)@ == after_content(old(self)@, content@),
            final(self).well_formed() == old(self).well_formed(),
    {
        if !content.as_str().is_empty() {
            let url = is_valid_url(content.as_str());
            self.pasta.content = content;
            self.pasta.pasta_type = if url {
                "url".to_owned()
            } else {
                "text".to_owned()
            };
        }
    }

    /// The reference for an attachment that a request offers under the file name `path`,
    /// or nothing where the attachment is to be passed over: uploads are switched off, the
    /// request names no file, the path that it gives has no file name in it, or the name
    /// is not safe. The reference carries the sanitised name; the size is not known yet.
    pub fn offered_file(path: Option<&str>, args: &Args) -> (r: Option<PastaFile>)
        ensures
            r is Some == (!args.no_file_upload && path is Some && path->0@.len() != 0
                && sanitized_name(path->0@) is Ok),
            r matches Some(f) ==> f@.size == 0 && Ok::<Seq<char>, CodecError>(f@.name)
                == sanitized_name(path->0@),
            r matches Some(f) ==> is_safe_name(f@.name) && !f@.name.contains(' '),
    {
        if args.no_file_upload {
            return None;
        }
        match path {
            None => None,
            Some(p) => {
                if p.is_empty() {
                    None
                } else {
                    match PastaFile::from_unsanitized(p) {
                        Ok(f) => Some(f),
                        Err(_) => None,
                    }
                }
            },
        }
    }

    /// Whether an attachment of which `len` bytes have been received so far is still within
    /// the limits. The caller asks after every piece and refuses the request on the first no.
    pub fn file_size_allowed(&self, len: usize, args: &Args) -> (b: bool)
        ensures
            b == within_size_limit(self@.pasta.encrypt_server, len as int, args),
    {
        let len: u128 = len as u128;
        let encrypted_limit: u128 = args.max_file_size_encrypted_mb as u128 * 1024 * 1024;
        let limit: u128 = args.max_file_size_unencrypted_mb as u128 * 1024 * 1024;
        !((self.pasta.encrypt_server && len > encrypted_limit) || len > limit)
    }

    /// Takes in the attachment, once all of it has been read.
    pub fn attach_file(&mut self, file: PastaFile, data: Vec<u8>)
        ensures
            final(self)@ == after_file(old(self)@, file@, data@),
            final(self).well_formed() == old(self).well_formed(),
    {
        let mut file = file;
        file.size = data.len() as u64;
        self.pending_file = Some(PendingFile { file, data });
        self.pasta.pasta_type = "text".to_owned();
    }

    /// Decides whether the sender of the request may upload, given the `uploader_token`
    /// cookie of the request if it has one.
    pub fn check_uploader(&self, cookie: Option<&str>, args: &Args) -> (check: UploaderCheck)
        ensures
            check.answers(self@.uploader_password, cookie, args),
    {
        if !args.readonly {
            return UploaderCheck::Open;
        }
        match &args.uploader_password {
            None => UploaderCheck::Open,
            Some(password) => {
                let expected = trimmed_string(password.as_str());
                let token = generate_uploader_token(expected.as_str());
                let has_valid_cookie = match cookie {
                    Some(c) => same_text(c, token.as_str()),
                    None => false,
                };
                let given = trimmed_string(self.uploader_password.as_str());
                if has_valid_cookie {
                    UploaderCheck::ByCookie
                } else if same_text(given.as_str(), expected.as_str()) {
                    UploaderCheck::ByPassword { token }
                } else {
                    UploaderCheck::Denied
                }
            },
        }
    }

    /// Finishes the entity, once the request has been read and its sender may upload:
    /// encrypts what the privacy mode wants encrypted and settles, for the entity shown to
    /// the outside as `pasta_id`, the locator of the attachment and where its bytes go.
    ///
    /// The request is refused, and nothing is there to save, where its attachment is over
    /// the limits, where something would be encrypted under an empty key, and where the
    /// locator cannot carry the name of the attachment.
    pub fn finish(self, pasta_id: &str, args: &Args) -> (r: Result<Creation, CreationError>)
        ensures
            match self@.refusal(args) {
                Some(e) => r matches Err(x) && x == e,
                None => r matches Ok(done) && done.completes(
                    self@,
                    pasta_id@,
                    args.s3_configured(),
                ) && (self@.pasta.well_formed() ==> done.pasta@.well_formed()),
            },
    {
        let too_large = match &self.pending_file {
            Some(pending) => !self.file_size_allowed(pending.data.len(), args),
            None => false,
        };
        if too_large {
            return Err(CreationError::FileTooLarge);
        }
        let CreationRequest { pasta, random_key, plain_key, uploader_password: _, pending_file } =
            self;
        let mut pasta = pasta;
        let encrypts = pasta.encrypt_server && !pasta.readonly;
        let key: &str = if pasta.encrypt_client {
            random_key.as_str()
        } else {
            plain_key.as_str()
        };
        if encrypts && key.is_empty() && (!pasta.content.as_str().is_empty()
            || pending_file.is_some()) {
            return Err(CreationError::EmptyKey);
        }
        if !plain_key.as_str().is_empty() && pasta.readonly {
            let id = decimal_string(pasta.id as u128);
            pasta.encrypted_key = Some(encrypt(id.as_str(), plain_key.as_str()));
        } else {
            pasta.encrypted_key = None;
        }
        if encrypts {
            if !pasta.content.as_str().is_empty() {
                pasta.content = encrypt(pasta.content.as_str(), key);
            } else {
                assert(pasta.content@ =~= Seq::<char>::empty());
            }
        }
        let save = match pending_file {
            Some(pending) => {
                let PendingFile { file, data } = pending;
                let mut file = file;
                let storage_path = match file.place(encrypts, pasta_id, args) {
                    Ok(path) => path,
                    Err(_) => {
                        return Err(CreationError::UnsafeFileName);
                    },
                };
                let data = if encrypts {
                    encrypt_bytes(data.as_slice(), key)
                } else {
                    data
                };
                pasta.file = Some(file);
                Some(FileSave { storage_path, data })
            },
            None => None,
        };
        Ok(Creation { pasta, save })
    }
}

/// What the privacy mode means for the finished entity. A public paste is stored as it
/// came. A read-only paste is stored as it came too, and with a passphrase it gets the
/// token of its maker. A private paste has its content encrypted under the passphrase, a
/// secret one under the key of the client. Only a read-only paste has a token.
pub proof fn lemma_mode_decides_encryption(r: CreationRequestView, pasta_id: Seq<char>, s3: bool)
    requires
        r.pasta.well_formed(),
        r.pasta.content.len() != 0,
    ensures
        r.finished(pasta_id, s3).privacy_mode() == r.pasta.privacy_mode(),
        r.finished(pasta_id, s3).well_formed(),
        match r.pasta.privacy_mode() {
            PrivacyMode::Public => r.finished(pasta_id, s3).content == r.pasta.content
                && r.finished(pasta_id, s3).encrypted_key is None,
            PrivacyMode::Readonly => r.finished(pasta_id, s3).content == r.pasta.content
                && r.finished(pasta_id, s3).encrypted_key == (if r.plain_key.len() != 0 {
                Some(encrypted(decimal(r.pasta.id as nat), r.plain_key))
            } else {
                None
            }),
            PrivacyMode::Private => r.finished(pasta_id, s3).content == cipher_text(
                r.pasta.content,
                r.plain_key,
            ) && r.finished(pasta_id, s3).encrypted_key is None,
            PrivacyMode::Secret => r.finished(pasta_id, s3).content == cipher_text(
                r.pasta.content,
                r.random_key,
            ) && r.finished(pasta_id, s3).encrypted_key is None,
        },
{
}

/// How a creation request ends, once it has been read.
#[derive(Debug)]
pub enum CreationOutcome {
    /// The sender may not upload: nothing is created.
    Denied,
    /// The request is refused: nothing is created and nothing is saved.
    Refused(CreationError),
    /// The entity is finished. Its bytes are to be saved, then it enters the store.
    Created {
        /// The entity and what there is to save.
        creation: Creation,
        /// The value of the `uploader_token` cookie to set, for a sender who showed the
        /// uploader password.
        uploader_token: Option<String>,
    },
}

/// Closes a creation request that has been read: the sender is checked, and for one who may
/// upload the entity is finished as [`CreationRequest::finish`] says, or the request is
/// refused for the reason that it gives.
pub fn create(request: CreationRequest, cookie: Option<&str>, pasta_id: &str, args: &Args) -> (outcome:
    CreationOutcome)
    ensures
        match outcome {
            CreationOutcome::Denied => UploaderCheck::Denied.answers(
                request@.uploader_password,
                cookie,
                args,
            ),
            CreationOutcome::Refused(e) => {
                &&& !UploaderCheck::Denied.answers(request@.uploader_password, cookie, args)
                &&& request@.refusal(args) == Some(e)
            },
            CreationOutcome::Created { creation, uploader_token } => {
                &&& !UploaderCheck::Denied.answers(request@.uploader_password, cookie, args)
                &&& request@.refusal(args) is None
                &&& creation.completes(request@, pasta_id@, args.s3_configured())
                &&& request@.pasta.well_formed() ==> creation.pasta@.well_formed()
                &&& uploader_token is Some == (!cookie_opens(cookie, args) && password_opens(
                    request@.uploader_password,
                    args,
                ))
                &&& uploader_token matches Some(token) ==> token@ == expected_token(args)
            },
        },
{
    let uploader_token = match request.check_uploader(cookie, args) {
        UploaderCheck::Open => None,
        UploaderCheck::ByCookie => None,
        UploaderCheck::ByPassword { token } => Some(token),
        UploaderCheck::Denied => {
            return CreationOutcome::Denied;
        },
    };
    match request.finish(pasta_id, args) {
        Ok(creation) => CreationOutcome::Created { creation, uploader_token },
        Err(e) => CreationOutcome::Refused(e),
    }
}

/// Puts a finished entity into the store, once the storage backend has answered for its
/// attachment. A failure to save the bytes is the end of the request: the store stays as
/// it is.
pub fn commit(pastas: &mut Vec<Pasta>, pasta: Pasta, saved: Result<(), StorageError>) -> (r:
    Result<IndexAction, StorageError>)
    ensures
        saved is Ok ==> r == Ok::<IndexAction, StorageError>(IndexAction::Upsert { id: pasta.id })
            && final(pastas)@ == old(pastas)@.push(pasta),
        saved matches Err(e) ==> r == Err::<IndexAction, StorageError>(e) && final(pastas)@
            == old(pastas)@,
{
    match saved {
        Ok(()) => Ok(insert(pastas, pasta)),
        Err(e) => Err(e),
    }
}

/// Where the creator of an entity is sent next: to the page that confirms an encrypted
/// paste, or to the page of the paste itself.
pub open spec fn creation_redirect(encrypt_server: bool, slug: Seq<char>, public_path: Seq<char>) -> Seq<char> {
    if encrypt_server {
        "/auth/"@ + slug + "/success"@
    } else {
        public_path + "/upload/"@ + slug
    }
}

/// Where the creator of the entity shown to the outside as `slug` is sent next.
pub fn redirect_after_create(encrypt_server: bool, slug: &str, args: &Args) -> (location: String)
    ensures
        location@ == creation_redirect(encrypt_server, slug@, args.public_path@),
{
    let mut out: Vec<char> = Vec::new();
    if encrypt_server {
        push_str(&mut out, "/auth/");
        push_str(&mut out, slug);
        push_str(&mut out, "/success");
        assert(out@ =~= "/auth/"@ + slug@ + "/success"@);
    } else {
        push_str(&mut out, args.public_path.as_str());
        push_str(&mut out, "/upload/");
        push_str(&mut out, slug);
        assert(out@ =~= args.public_path@ + "/upload/"@ + slug@);
    }
    string_of(out.as_slice())
}

} // verus!
