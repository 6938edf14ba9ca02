//! The configuration that the paste lifecycle consumes.

use vstd::prelude::*;

verus! {

/// The recognised options. `main` fills this once at start-up; the library only reads it.
pub struct Args {
    /// Root of the local storage.
    pub data_dir: String,
    /// The expiry that a paste gets when the request names none.
    pub default_expiry: String,
    /// Pastes that nobody has read for this many days are collected; 0 switches this off.
    pub gc_days: u16,
    /// Whether a paste may live forever.
    pub eternal_pasta: bool,
    /// Whether new pastes may be removed or replaced without a password.
    pub editable: bool,
    /// Whether ids are shown as hash ids and not as animal names.
    pub hash_ids: bool,
    /// Whether file uploads are switched off.
    pub no_file_upload: bool,
    /// Size limit of an encrypted attachment, in MiB.
    pub max_file_size_encrypted_mb: usize,
    /// Size limit of any attachment, in MiB.
    pub max_file_size_unencrypted_mb: usize,
    /// Whether only the holder of the uploader password may create pastes.
    pub readonly: bool,
    /// The uploader password, if one is set.
    pub uploader_password: Option<String>,
    /// The administrator's password.
    pub auth_admin_password: String,
    /// The public base URL, empty where none is configured.
    pub public_path: String,
    /// Whether markdown pastes are rendered.
    pub render_markdown: bool,
    /// Whether HTML pastes are rendered.
    pub render_html: bool,
    /// Region of the object store.
    pub s3_region: String,
    /// Endpoint of the object store.
    pub s3_endpoint: Option<String>,
    /// Bucket of the object store.
    pub s3_bucket: Option<String>,
    /// Access key of the object store.
    pub s3_access_key: Option<String>,
    /// Secret key of the object store.
    pub s3_secret_key: Option<String>,
}

impl Args {
    /// The object store is selected exactly when all of its required fields are present.
    pub open spec fn s3_configured(&self) -> bool {
        &&& self.s3_endpoint is Some
        &&& self.s3_bucket is Some
        &&& self.s3_access_key is Some
        &&& self.s3_secret_key is Some
    }

    /// Whether attachments go to the object store.
    pub fn s3_enabled(&self) -> (b: bool)
        ensures
            b == self.s3_configured(),
    {
        self.s3_endpoint.is_some() && self.s3_bucket.is_some() && self.s3_access_key.is_some()
            && self.s3_secret_key.is_some()
    }

    /// The public base URL as text.
    pub fn public_path_as_str(&self) -> (s: String)
        ensures
            s@ == self.public_path@,
    {
        self.public_path.clone()
    }
}

impl Default for Args {
    /// Local storage under `microbin_data`, pastes expire after a day by default, nothing is
    /// collected for inactivity, and no password is set.
    fn default() -> (a: Args)
        ensures
            a.data_dir@ == "microbin_data"@,
            a.default_expiry@ == "24hour"@,
            a.gc_days == 90,
            !a.eternal_pasta,
            !a.editable,
            !a.hash_ids,
            !a.no_file_upload,
            a.max_file_size_encrypted_mb == 256,
            a.max_file_size_unencrypted_mb == 2048,
            !a.readonly,
            a.uploader_password is None,
            a.auth_admin_password@ == "m1cr0b1n"@,
            a.public_path@ == ""@,
            a.render_markdown,
            a.render_html,
            a.s3_region@ == "us-east-1"@,
            !a.s3_configured(),
    {
        Args {
            data_dir: "microbin_data".to_owned(),
            default_expiry: "24hour".to_owned(),
            gc_days: 90,
            eternal_pasta: false,
            editable: false,
            hash_ids: false,
            no_file_upload: false,
            max_file_size_encrypted_mb: 256,
            max_file_size_unencrypted_mb: 2048,
            readonly: false,
            uploader_password: None,
            auth_admin_password: "m1cr0b1n".to_owned(),
            public_path: "".to_owned(),
            render_markdown: true,
            render_html: true,
            s3_region: "us-east-1".to_owned(),
            s3_endpoint: None,
            s3_bucket: None,
            s3_access_key: None,
            s3_secret_key: None,
        }
    }
}

} // verus!
