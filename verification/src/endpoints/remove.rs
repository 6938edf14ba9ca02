//! Removal on request: who may remove an entity, and what goes with it.
//!
//! Removal has two phases with a gap between them. In the first the store is only read: the
//! request is decided and the storage path of the attachment is taken down. Then the caller
//! lets go of the store and deletes the bytes. In the second phase it takes the entity out
//! of the store by its id, if it is still there.

use crate::args::Args;
use crate::pasta::{Pasta, PastaView};
use crate::store::{find_by_id, first_with_id, holds};
use crate::util::misc::{evicted, remove_expired_at, survivors, Swept};
use crate::util::misc::{decrypt, decrypted, DecryptError};
use crate::util::text::{decimal, decimal_string, push_str, same_text, string_of};
use vstd::prelude::*;

verus! {

/// Removal of the entity asks for a password: it is encrypted at rest, read-only, or not
/// open to changes by everybody.
pub open spec fn protected(p: PastaView) -> bool {
    p.encrypt_server || p.readonly || !p.editable
}

/// The password proves that its holder made the read-only entity: the stored token decrypts
/// under it to the entity's id.
pub open spec fn proves_ownership(p: PastaView, password: Seq<char>) -> bool {
    p.encrypted_key is Some && decrypted(p.encrypted_key->0, password) == Ok::<
        Seq<char>,
        DecryptError,
    >(decimal(p.id as nat))
}

/// The password opens the content of the entity.
pub open spec fn opens_content(p: PastaView, password: Seq<char>) -> bool {
    decrypted(p.content, password) is Ok
}

/// The password allows the removal of the entity: it is the administrator's, or it proves
/// ownership of a read-only entity, or it opens the content of another encrypted one. Empty
/// content proves nothing, since it opens under every key: an encrypted entity without
/// content is removed with the administrator's password only. The empty password is never
/// tried as a key.
pub open spec fn password_accepted(p: PastaView, password: Seq<char>, admin: Seq<char>) -> bool {
    ||| password == admin
    ||| password.len() != 0 && p.readonly && proves_ownership(p, password)
    ||| password.len() != 0 && !p.readonly && p.encrypt_server && p.content.len() != 0
        && opens_content(p, password)
}

/// What becomes of a request to remove an entity.
#[derive(Clone, Copy, Debug, PartialEq, Eq, Structural)]
pub enum RemovalDecision {
    /// There is no such entity.
    NotFound,
    /// The entity is not protected, so no password was called for: the store stays as it
    /// is, and the sender is shown the entity.
    NotProtected,
    /// The entity is protected and the request shows no right to remove it: the sender is
    /// asked for the password.
    PasswordRequired,
    /// The entity is protected and the password is missing or wrong.
    Incorrect,
    /// The entity is to be removed, and its attachment with it.
    Remove,
}

/// What becomes of a request without a password to remove the entity.
pub open spec fn plain_removal(p: PastaView) -> RemovalDecision {
    if protected(p) {
        RemovalDecision::PasswordRequired
    } else {
        RemovalDecision::Remove
    }
}

/// What becomes of a request with the password `password` to remove the entity. An empty
/// password is no password.
pub open spec fn authorized_removal(
    p: PastaView,
    password: Seq<char>,
    admin: Seq<char>,
) -> RemovalDecision {
    if !protected(p) {
        RemovalDecision::NotProtected
    } else if password.len() == 0 {
        RemovalDecision::Incorrect
    } else if password_accepted(p, password, admin) {
        RemovalDecision::Remove
    } else {
        RemovalDecision::Incorrect
    }
}

/// Whether the token of a read-only entity, decrypted under a password, shows the id.
pub fn token_shows_id(id: u64, token: &Result<String, DecryptError>) -> (b: bool)
    ensures
        b == (token matches Ok(t) && t@ == decimal(id as nat)),
{
    match token {
        Ok(t) => {
            let id = decimal_string(id as u128);
            same_text(t.as_str(), id.as_str())
        },
        Err(_) => false,
    }
}

/// Whether the password allows the removal of the entity.
pub fn is_password_correct(pasta: &Pasta, password: &str, args: &Args) -> (b: bool)
    ensures
        b == password_accepted(pasta@, password@, args.auth_admin_password@),
{
    if same_text(password, args.auth_admin_password.as_str()) {
        return true;
    }
    if password.is_empty() {
        return false;
    }
    if pasta.readonly {
        match &pasta.encrypted_key {
            Some(encrypted_key) => {
                let token = decrypt(encrypted_key.as_str(), password);
                token_shows_id(pasta.id, &token)
            },
            None => false,
        }
    } else if pasta.encrypt_server {
        !pasta.content.as_str().is_empty() && decrypt(pasta.content.as_str(), password).is_ok()
    } else {
        false
    }
}

/// What a removal request comes to.
#[derive(Debug)]
pub struct Removal {
    /// What becomes of the request.
    pub decision: RemovalDecision,
    /// With a decision to remove, the storage path of the attachment, if there is one.
    pub file: Option<String>,
}

impl Removal {
    /// The removal goes with the decision `decision` on the entity `pasta`: the storage path
    /// of the attachment is given with a decision to remove and with no other.
    pub open spec fn goes_with(
        &self,
        decision: RemovalDecision,
        pasta: &Pasta,
        pasta_id: Seq<char>,
    ) -> bool {
        &&& self.decision == decision
        &&& self.file is Some == (decision == RemovalDecision::Remove && pasta@.file_path(
            pasta_id,
        ) is Some)
        &&& self.file matches Some(path) ==> Some(path@) == pasta@.file_path(pasta_id)
    }
}

/// The first phase of a removal without a password, at the moment `now`, for the entity with
/// the id `id` that is shown to the outside as `pasta_id`. The store is swept first: what is
/// due at that moment is gone, whoever asks.
pub fn remove(pastas: &mut Vec<Pasta>, id: u64, pasta_id: &str, now: i64, args: &Args) -> (r:
    Swept<Removal>)
    ensures
        final(pastas)@ == survivors(old(pastas)@, now as int, args.gc_days as int),
        r.evicted@ == evicted(old(pastas)@, now as int, args.gc_days as int),
        !holds(final(pastas)@, id) ==> r.answer.decision == RemovalDecision::NotFound
            && r.answer.file is None,
        forall|i: int|
            first_with_id(final(pastas)@, id, i) ==> r.answer.goes_with(
                plain_removal(final(pastas)@[i]@),
                &final(pastas)@[i],
                pasta_id@,
            ),
{
    let evicted = remove_expired_at(pastas, now, args.gc_days);
    let answer = match find_by_id(pastas, id) {
        None => Removal { decision: RemovalDecision::NotFound, file: None },
        Some(pasta) => {
            if pasta.encrypt_server || pasta.readonly || !pasta.editable {
                Removal { decision: RemovalDecision::PasswordRequired, file: None }
            } else {
                Removal { decision: RemovalDecision::Remove, file: pasta.file_path(pasta_id) }
            }
        },
    };
    Swept { answer, evicted }
}

/// The first phase of a removal with a password, at the moment `now`, for the entity with
/// the id `id` that is shown to the outside as `pasta_id`. The store is swept first: what is
/// due at that moment is gone without a password.
pub fn post_remove(
    pastas: &mut Vec<Pasta>,
    id: u64,
    pasta_id: &str,
    password: &str,
    now: i64,
    args: &Args,
) -> (r: Swept<Removal>)
    ensures
        final(pastas)@ == survivors(old(pastas)@, now as int, args.gc_days as int),
        r.evicted@ == evicted(old(pastas)@, now as int, args.gc_days as int),
        !holds(final(pastas)@, id) ==> r.answer.decision == RemovalDecision::NotFound
            && r.answer.file is None,
        forall|i: int|
            first_with_id(final(pastas)@, id, i) ==> r.answer.goes_with(
                authorized_removal(final(pastas)@[i]@, password@, args.auth_admin_password@),
                &final(pastas)@[i],
                pasta_id@,
            ),
{
    let evicted = remove_expired_at(pastas, now, args.gc_days);
    let answer = match find_by_id(pastas, id) {
        None => Removal { decision: RemovalDecision::NotFound, file: None },
        Some(pasta) => {
            let is_protected = pasta.readonly || pasta.encrypt_server || !pasta.editable;
            if !is_protected {
                Removal { decision: RemovalDecision::NotProtected, file: None }
            } else if password.is_empty() {
                Removal { decision: RemovalDecision::Incorrect, file: None }
            } else if is_password_correct(pasta, password, args) {
                Removal { decision: RemovalDecision::Remove, file: pasta.file_path(pasta_id) }
            } else {
                Removal { decision: RemovalDecision::Incorrect, file: None }
            }
        },
    };
    Swept { answer, evicted }
}

/// Where a removal request is answered with a redirect, the place it leads to; the error
/// page is shown where the entity was not found.
pub open spec fn removal_redirect(
    decision: RemovalDecision,
    pasta_id: Seq<char>,
    public_path: Seq<char>,
) -> Option<Seq<char>> {
    match decision {
        RemovalDecision::NotFound => None,
        RemovalDecision::NotProtected => Some(public_path + "/upload/"@ + pasta_id),
        RemovalDecision::PasswordRequired => Some(
            public_path + "/auth_remove_private/"@ + pasta_id,
        ),
        RemovalDecision::Incorrect => Some(
            public_path + "/auth_remove_private/"@ + pasta_id + "/incorrect"@,
        ),
        RemovalDecision::Remove => Some(public_path + "/list"@),
    }
}

/// The place that the answer to a removal request leads to, if it is a redirect.
pub fn redirect_after_remove(decision: RemovalDecision, pasta_id: &str, args: &Args) -> (location:
    Option<String>)
    ensures
        location is Some == removal_redirect(decision, pasta_id@, args.public_path@) is Some,
        location matches Some(l) ==> Some(l@) == removal_redirect(
            decision,
            pasta_id@,
            args.public_path@,
        ),
{
    let mut out: Vec<char> = Vec::new();
    push_str(&mut out, args.public_path.as_str());
    match decision {
        RemovalDecision::NotFound => {
            return None;
        },
        RemovalDecision::NotProtected => {
            push_str(&mut out, "/upload/");
            push_str(&mut out, pasta_id);
            assert(out@ =~= args.public_path@ + "/upload/"@ + pasta_id@);
        },
        RemovalDecision::PasswordRequired => {
            push_str(&mut out, "/auth_remove_private/");
            push_str(&mut out, pasta_id);
            assert(out@ =~= args.public_path@ + "/auth_remove_private/"@ + pasta_id@);
        },
        RemovalDecision::Incorrect => {
            push_str(&mut out, "/auth_remove_private/");
            push_str(&mut out, pasta_id);
            push_str(&mut out, "/incorrect");
            assert(out@ =~= args.public_path@ + "/auth_remove_private/"@ + pasta_id@
                + "/incorrect"@);
        },
        RemovalDecision::Remove => {
            push_str(&mut out, "/list");
            assert(out@ =~= args.public_path@ + "/list"@);
        },
    }
    Some(string_of(out.as_slice()))
}

/// Who made a read-only entity may remove it: the passphrase under which the stored token
/// decrypts to the id of the entity is accepted, whatever the administrator's password is.
pub proof fn lemma_maker_may_remove(p: PastaView, passphrase: Seq<char>, admin: Seq<char>)
    requires
        p.readonly,
        passphrase.len() != 0,
        proves_ownership(p, passphrase),
    ensures
        authorized_removal(p, passphrase, admin) == RemovalDecision::Remove,
{
}

/// A protected entity is not removed with a password that is not accepted: a wrong password
/// ends as a missing one does.
pub proof fn lemma_wrong_password_is_like_none(
    p: PastaView,
    password: Seq<char>,
    admin: Seq<char>,
)
    requires
        protected(p),
        !password_accepted(p, password, admin),
    ensures
        authorized_removal(p, password, admin) == authorized_removal(p, Seq::empty(), admin),
        authorized_removal(p, password, admin) == RemovalDecision::Incorrect,
{
}

} // verus!
