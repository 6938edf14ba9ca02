//! Serving attachments: where the bytes are read from and how they are handed out.

use crate::args::Args;
use crate::pasta::{locator_display_name, locator_is_s3, physical_path, Pasta};
use crate::store::{find_by_id, first_with_id, holds};
use crate::util::misc::{
    decrypt_bytes, decrypted_bytes, evicted, remove_expired_at, survivors, Swept,
};
use crate::util::storage::{entity_dir, StorageError};
use crate::util::text::{push_str, string_of};
use vstd::prelude::*;

verus! {

/// How a request for the attachment of an entity is answered.
#[derive(Debug)]
pub enum FileRequest {
    /// No such entity, or it has no attachment.
    NotFound,
    /// The entity is encrypted at rest: the sender is asked for the password.
    PasswordRequired,
    /// The bytes are fetched from the object store and sent as a download.
    FromObjectStore {
        /// The storage path to fetch.
        storage_path: String,
        /// The name to offer the download under.
        display_name: String,
        /// The media type to send it as.
        content_type: String,
    },
    /// The bytes are streamed from the local file.
    FromDisk {
        /// The path of the file.
        path: String,
        /// The name to offer the download under.
        display_name: String,
    },
}

impl FileRequest {
    /// This is the answer for an entity with the attachment `file`, or without one.
    pub open spec fn answers(
        &self,
        pasta: &Pasta,
        pasta_id: Seq<char>,
        data_dir: Seq<char>,
    ) -> bool {
        match pasta.file {
            None => self is NotFound,
            Some(file) => if pasta.encrypt_server {
                self is PasswordRequired
            } else if locator_is_s3(file.name@) {
                self matches FileRequest::FromObjectStore {
                    storage_path,
                    display_name,
                    content_type,
                } && storage_path@ == file.name@ && display_name@ == locator_display_name(
                    file.name@,
                ) && content_type@ == media_type_of(locator_display_name(file.name@))
            } else {
                self matches FileRequest::FromDisk { path, display_name } && path@ == entity_dir(
                    data_dir,
                    pasta_id,
                ) + "/"@ + file.name@ && display_name@ == locator_display_name(file.name@)
            },
        }
    }
}

/// What `mime_guess::from_path` says of a file name, with `first_or_octet_stream`, as text:
/// the media type that the ending of the name suggests, `application/octet-stream` where it
/// suggests none. It depends on the name and on the path rules of the target that the
/// library is built for, and on nothing else.
pub uninterp spec fn media_type_of(name: Seq<char>) -> Seq<char>;

/// `mime_guess::from_path` on a file name, then `first_or_octet_stream`, as text.
#[verifier::external_body]
fn guessed_mime(name: &str) -> (mime: String)
    ensures
        mime@ == media_type_of(name@),
{
    mime_guess::from_path(name).first_or_octet_stream().to_string()
}

/// The answer to a request for the attachment of the entity with the id `id`, which is
/// shown to the outside as `pasta_id`, at the moment `now`. The store is swept first: what
/// is due at that moment is not served any more.
pub fn get_file(pastas: &mut Vec<Pasta>, id: u64, pasta_id: &str, now: i64, args: &Args) -> (r:
    Swept<FileRequest>)
    ensures
        final(pastas)@ == survivors(old(pastas)@, now as int, args.gc_days as int),
        r.evicted@ == evicted(old(pastas)@, now as int, args.gc_days as int),
        !holds(final(pastas)@, id) ==> r.answer is NotFound,
        forall|i: int|
            first_with_id(final(pastas)@, id, i) ==> r.answer.answers(
                &final(pastas)@[i],
                pasta_id@,
                args.data_dir@,
            ),
{
    let evicted = remove_expired_at(pastas, now, args.gc_days);
    let answer = match find_by_id(pastas, id) {
        None => FileRequest::NotFound,
        Some(pasta) => match &pasta.file {
            None => FileRequest::NotFound,
            Some(file) => {
                if pasta.encrypt_server {
                    FileRequest::PasswordRequired
                } else if file.is_s3() {
                    let display_name = file.display_name().to_owned();
                    let content_type = guessed_mime(display_name.as_str());
                    FileRequest::FromObjectStore {
                        storage_path: file.name().to_owned(),
                        display_name,
                        content_type,
                    }
                } else {
                    let mut path: Vec<char> = Vec::new();
                    push_str(&mut path, args.data_dir.as_str());
                    push_str(&mut path, "/attachments/");
                    push_str(&mut path, pasta_id);
                    push_str(&mut path, "/");
                    push_str(&mut path, file.name());
                    assert(path@ =~= entity_dir(args.data_dir@, pasta_id@) + "/"@ + file.name@);
                    FileRequest::FromDisk {
                        path: string_of(path.as_slice()),
                        display_name: file.display_name().to_owned(),
                    }
                }
            },
        },
    };
    Swept { answer, evicted }
}

/// The value of the `Content-Disposition` header that offers a file for download under the
/// name `display_name`.
pub open spec fn attachment_disposition(display_name: Seq<char>) -> Seq<char> {
    "attachment; filename=\""@ + display_name + "\""@
}

/// The value of the `Content-Disposition` header for a download under `display_name`.
pub fn content_disposition(display_name: &str) -> (value: String)
    ensures
        value@ == attachment_disposition(display_name@),
{
    let mut out: Vec<char> = Vec::new();
    push_str(&mut out, "attachment; filename=\"");
    push_str(&mut out, display_name);
    push_str(&mut out, "\"");
    assert(out@ =~= attachment_disposition(display_name@));
    string_of(out.as_slice())
}

/// Where the ciphertext of an attachment is, and the name to offer the download under.
#[derive(Debug)]
pub struct SecureFileSource {
    /// The storage path of the ciphertext.
    pub storage_path: String,
    /// The name to show.
    pub display_name: String,
}

/// The first phase of handing out the attachment of an encrypted entity, at the moment
/// `now`: the store is swept, and if the entity with the id `id` is still there and has an
/// attachment, the place of its ciphertext is given.
pub fn secure_file_source(
    pastas: &mut Vec<Pasta>,
    id: u64,
    pasta_id: &str,
    now: i64,
    args: &Args,
) -> (r: Swept<Option<SecureFileSource>>)
    ensures
        final(pastas)@ == survivors(old(pastas)@, now as int, args.gc_days as int),
        r.evicted@ == evicted(old(pastas)@, now as int, args.gc_days as int),
        !holds(final(pastas)@, id) ==> r.answer is None,
        forall|i: int|
            first_with_id(final(pastas)@, id, i) ==> match final(pastas)@[i].file {
                None => r.answer is None,
                Some(file) => r.answer matches Some(source) && source.storage_path@
                    == physical_path(file.name@, true, pasta_id@) && source.display_name@
                    == locator_display_name(file.name@),
            },
{
    let evicted = remove_expired_at(pastas, now, args.gc_days);
    let answer = match find_by_id(pastas, id) {
        None => None,
        Some(pasta) => match &pasta.file {
            None => None,
            Some(file) => Some(
                SecureFileSource {
                    storage_path: file.encrypted_path(pasta_id),
                    display_name: file.display_name().to_owned(),
                },
            ),
        },
    };
    Swept { answer, evicted }
}

/// Why the attachment of an encrypted entity is not handed out.
#[derive(Clone, Copy, Debug, PartialEq, Eq, Structural)]
pub enum SecureFileError {
    /// There are no such bytes; they may have been collected before.
    NotFound,
    /// The storage backend could not serve the request.
    Unavailable,
    /// The bytes do not open under the password, or no password was given.
    Unauthorized,
}

/// A file as it is sent to a client.
#[derive(Debug)]
pub struct FileResponse {
    /// The media type.
    pub content_type: String,
    /// The value of the `Content-Disposition` header.
    pub content_disposition: String,
    /// The bytes.
    pub body: Vec<u8>,
}

/// The answer that hands out bytes under a name and a media type.
pub fn file_response(content_type: String, display_name: &str, body: Vec<u8>) -> (r: FileResponse)
    ensures
        r.content_type == content_type,
        r.content_disposition@ == attachment_disposition(display_name@),
        r.body == body,
{
    FileResponse { content_type, content_disposition: content_disposition(display_name), body }
}

/// What becomes of the bytes of an encrypted attachment, once the storage backend has
/// answered: a failure of the backend is passed on as it is; bytes that do not open under
/// the password are refused, and so is the empty password, which is never tried as a key.
pub open spec fn opened_file(
    fetched: Result<Seq<u8>, StorageError>,
    password: Seq<char>,
) -> Result<Seq<u8>, SecureFileError> {
    match fetched {
        Err(StorageError::NotFound) => Err(SecureFileError::NotFound),
        Err(StorageError::Unavailable) => Err(SecureFileError::Unavailable),
        Ok(data) => if password.len() == 0 {
            Err(SecureFileError::Unauthorized)
        } else {
            match decrypted_bytes(data, password) {
                Ok(plain) => Ok(plain),
                Err(_) => Err(SecureFileError::Unauthorized),
            }
        },
    }
}

/// The second phase of handing out the attachment of an encrypted entity, once the storage
/// backend has answered: the bytes are decrypted under the password and offered as a
/// download under `display_name`, with the media type that the name suggests.
pub fn post_secure_file(
    fetched: Result<Vec<u8>, StorageError>,
    password: &str,
    display_name: &str,
) -> (r: Result<FileResponse, SecureFileError>)
    ensures
        match opened_file(
            match fetched {
                Ok(data) => Ok(data@),
                Err(e) => Err(e),
            },
            password@,
        ) {
            Ok(plain) => r matches Ok(response) && response.body@ == plain
                && response.content_disposition@ == attachment_disposition(display_name@)
                && response.content_type@ == media_type_of(display_name@),
            Err(e) => r matches Err(x) && x == e,
        },
{
    match fetched {
        Err(StorageError::NotFound) => Err(SecureFileError::NotFound),
        Err(StorageError::Unavailable) => Err(SecureFileError::Unavailable),
        Ok(data) => {
            if password.is_empty() {
                return Err(SecureFileError::Unauthorized);
            }
            match decrypt_bytes(data.as_slice(), password) {
                Err(_) => Err(SecureFileError::Unauthorized),
                Ok(plain) => {
                    let content_type = guessed_mime(display_name);
                    Ok(file_response(content_type, display_name, plain))
                },
            }
        },
    }
}

} // verus!
