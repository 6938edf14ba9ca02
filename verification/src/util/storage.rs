//! Where the bytes of an attachment go: the object store or the local file system.

use crate::args::Args;
use crate::pasta::{locator_is_s3, s3_url_tag};
use crate::util::text::{chars_of, push_chars, push_str, skip, starts_with, string_of};
use vstd::prelude::*;

verus! {

/// Why the storage backend could not do what was asked. Not-found may only mean that the
/// bytes were collected before; unavailable is for the operator to look at.
#[derive(Clone, Copy, Debug, PartialEq, Eq, Structural)]
pub enum StorageError {
    /// No such file or object.
    NotFound,
    /// The backend could not be reached or refused the request.
    Unavailable,
}

impl StorageError {
    /// The error that an answer of the object store with the HTTP status `status` stands
    /// for, where the answer is a failure: 404 says that there is no such object, every
    /// other status that the store cannot serve the request.
    pub fn of_status(status: u16) -> (e: StorageError)
        ensures
            e == (if status == 404 {
                StorageError::NotFound
            } else {
                StorageError::Unavailable
            }),
    {
        if status == 404 {
            StorageError::NotFound
        } else {
            StorageError::Unavailable
        }
    }
}

/// The key of the object that holds `filename` for the entity `pasta_id`.
pub open spec fn object_key(pasta_id: Seq<char>, filename: Seq<char>) -> Seq<char> {
    "attachments/"@ + pasta_id + "/"@ + filename
}

/// The storage path of a new file: tagged with the object store and the object's key where
/// the object store is in use, the bare file name where it is not.
pub open spec fn storage_path(s3: bool, pasta_id: Seq<char>, filename: Seq<char>) -> Seq<char> {
    if s3 {
        s3_url_tag() + object_key(pasta_id, filename)
    } else {
        filename
    }
}

/// The storage path under which a new file `filename` of the entity `pasta_id` is saved.
pub fn generate_storage_path(pasta_id: &str, filename: &str, args: &Args) -> (path: String)
    ensures
        path@ == storage_path(args.s3_configured(), pasta_id@, filename@),
{
    let mut out: Vec<char> = Vec::new();
    if args.s3_enabled() {
        push_str(&mut out, "s3://");
        push_str(&mut out, "attachments/");
        push_str(&mut out, pasta_id);
        push_str(&mut out, "/");
        push_str(&mut out, filename);
        assert(out@ =~= s3_url_tag() + object_key(pasta_id@, filename@));
    } else {
        push_str(&mut out, filename);
        assert(out@ =~= filename@);
    }
    string_of(out.as_slice())
}

/// The place that a storage path names.
#[derive(Debug)]
pub enum StorageTarget {
    /// An object in the bucket.
    S3 {
        /// The key of the object.
        key: String,
    },
    /// A file under the data directory.
    Local {
        /// The directory of the entity. Saving creates it; deleting removes it once it is
        /// empty.
        dir: String,
        /// The file itself.
        path: String,
    },
}

/// The directory that holds the local files of the entity `pasta_id`.
pub open spec fn entity_dir(data_dir: Seq<char>, pasta_id: Seq<char>) -> Seq<char> {
    data_dir + "/attachments/"@ + pasta_id
}

impl StorageTarget {
    /// This is the place that `storage_path` names for the entity `pasta_id`: a path with
    /// the tag of the object store names the object whose key follows the tag, any other
    /// path names the file of that name in the entity's directory.
    pub open spec fn is_place_of(
        &self,
        pasta_id: Seq<char>,
        storage_path: Seq<char>,
        data_dir: Seq<char>,
    ) -> bool {
        match self {
            StorageTarget::S3 { key } => locator_is_s3(storage_path) && key@ == storage_path.skip(
                5,
            ),
            StorageTarget::Local { dir, path } => !locator_is_s3(storage_path) && dir@
                == entity_dir(data_dir, pasta_id) && path@ == entity_dir(data_dir, pasta_id)
                + "/"@ + storage_path,
        }
    }

    /// Whether the deletion of the bytes may be left to a task in the background. A call to
    /// the object store takes its time, and a sweep must not keep the store locked for it;
    /// a local file is deleted at once.
    pub fn deferrable(&self) -> (b: bool)
        ensures
            b == (self is S3),
    {
        match self {
            StorageTarget::S3 { .. } => true,
            StorageTarget::Local { .. } => false,
        }
    }
}

/// The place where the bytes behind `storage_path` are saved, read and deleted.
pub fn locate(pasta_id: &str, storage_path: &str, args: &Args) -> (target: StorageTarget)
    ensures
        target.is_place_of(pasta_id@, storage_path@, args.data_dir@),
{
    let path = chars_of(storage_path);
    let tag = chars_of("s3://");
    proof {
        reveal_strlit("s3://");
    }
    if starts_with(path.as_slice(), tag.as_slice()) {
        StorageTarget::S3 { key: string_of(skip(path.as_slice(), 5)) }
    } else {
        let mut dir: Vec<char> = Vec::new();
        push_str(&mut dir, args.data_dir.as_str());
        push_str(&mut dir, "/attachments/");
        push_str(&mut dir, pasta_id);
        assert(dir@ =~= entity_dir(args.data_dir@, pasta_id@));
        let mut file: Vec<char> = Vec::new();
        push_chars(&mut file, dir.as_slice());
        push_str(&mut file, "/");
        push_chars(&mut file, path.as_slice());
        assert(file@ =~= entity_dir(args.data_dir@, pasta_id@) + "/"@ + storage_path@);
        StorageTarget::Local { dir: string_of(dir.as_slice()), path: string_of(file.as_slice()) }
    }
}

} // verus!
