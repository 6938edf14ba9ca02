//! Encryption, the clock, the eviction of entities whose time has come, and two things that
//! a paste is shown with: whether its content is a link, and the QR code of its address.

use crate::args::Args;
use crate::pasta::{Pasta, PastaView};
use crate::util::text::same_text;
use linkify::{LinkFinder, LinkKind};
use magic_crypt::{MagicCrypt256, MagicCryptError, MagicCryptTrait};
use qrcode_generator::QrCodeEcc;
use vstd::pervasive::unreached;
use vstd::prelude::*;

verus! {

/// The error of the cipher library. It tells a malformed encoding from a failed decryption;
/// this library does not pass that on.
#[verifier::external_type_specification]
#[verifier::external_body]
pub struct ExMagicCryptError(MagicCryptError);

/// The one error of decryption: the key is wrong or the ciphertext is damaged or malformed.
/// Which of these it was is not told.
#[derive(Clone, Copy, Debug, PartialEq, Eq, Structural)]
pub struct DecryptError;

/// What `MagicCryptTrait::encrypt_str_to_base64` returns for a text, on a 256-bit cipher
/// made from a passphrase: the base64 form of the text's AES-256-CBC ciphertext.
pub uninterp spec fn cipher_text(plaintext: Seq<char>, key: Seq<char>) -> Seq<char>;

/// What `MagicCryptTrait::decrypt_base64_to_string` recovers from a base64 ciphertext, on a
/// 256-bit cipher made from a passphrase; nothing where it fails.
pub uninterp spec fn plain_text(ciphertext: Seq<char>, key: Seq<char>) -> Option<Seq<char>>;

/// What `MagicCryptTrait::encrypt_bytes_to_bytes` returns for a payload, on a 256-bit cipher
/// made from a passphrase: its AES-256-CBC ciphertext.
pub uninterp spec fn cipher_bytes(data: Seq<u8>, key: Seq<char>) -> Seq<u8>;

/// What `MagicCryptTrait::decrypt_bytes_to_bytes` recovers from a ciphertext, on a 256-bit
/// cipher made from a passphrase; nothing where it fails.
pub uninterp spec fn plain_bytes(data: Seq<u8>, key: Seq<char>) -> Option<Seq<u8>>;

/// `MagicCrypt256::new` with the passphrase and no initialisation vector, then
/// `encrypt_str_to_base64`. The cipher pads the bytes of every input to the next whole
/// number of blocks, and base64 writes four characters for every three bytes, so the result
/// has more characters than the text; and since padding, cipher and base64 are all
/// invertible, decryption under the same passphrase recovers the text.
#[verifier::external_body]
fn encrypt_str_to_base64(text: &str, key: &str) -> (out: String)
    ensures
        out@ == cipher_text(text@, key@),
        out@.len() > text@.len(),
        plain_text(out@, key@) == Some(text@),
{
    MagicCrypt256::new(key, None::<String>).encrypt_str_to_base64(text)
}

/// `MagicCrypt256::new` with the passphrase and no initialisation vector, then
/// `decrypt_base64_to_string`. It fails on malformed base64, on a ciphertext that is no whole
/// number of blocks or whose padding is wrong, and on a plaintext that is not UTF-8.
#[verifier::external_body]
fn decrypt_base64_to_string(text: &str, key: &str) -> (out: Result<String, MagicCryptError>)
    ensures
        out matches Ok(s) ==> plain_text(text@, key@) == Some(s@),
        out is Err ==> plain_text(text@, key@) is None,
{
    MagicCrypt256::new(key, None::<String>).decrypt_base64_to_string(text)
}

/// `MagicCrypt256::new` with the passphrase and no initialisation vector, then
/// `encrypt_bytes_to_bytes`. The cipher pads every payload to the next whole number of
/// blocks, so the result is longer than the payload. Decryption under the same passphrase
/// recovers the payload.
#[verifier::external_body]
fn encrypt_bytes_to_bytes(data: &[u8], key: &str) -> (out: Vec<u8>)
    ensures
        out@ == cipher_bytes(data@, key@),
        out@.len() > data@.len(),
        plain_bytes(out@, key@) == Some(data@),
{
    MagicCrypt256::new(key, None::<String>).encrypt_bytes_to_bytes(data)
}

/// `MagicCrypt256::new` with the passphrase and no initialisation vector, then
/// `decrypt_bytes_to_bytes`. It fails on a ciphertext that is no whole number of blocks or
/// whose padding is wrong.
#[verifier::external_body]
fn decrypt_bytes_to_bytes(data: &[u8], key: &str) -> (out: Result<Vec<u8>, MagicCryptError>)
    ensures
        out matches Ok(d) ==> plain_bytes(data@, key@) == Some(d@),
        out is Err ==> plain_bytes(data@, key@) is None,
{
    MagicCrypt256::new(key, None::<String>).decrypt_bytes_to_bytes(data)
}

/// The ciphertext of a text: empty for the empty text, else what the cipher gives.
pub open spec fn encrypted(text: Seq<char>, key: Seq<char>) -> Seq<char> {
    if text.len() == 0 {
        Seq::empty()
    } else {
        cipher_text(text, key)
    }
}

/// The plaintext of a ciphertext: empty for the empty ciphertext, else what the cipher
/// recovers, if it recovers anything.
pub open spec fn decrypted(text: Seq<char>, key: Seq<char>) -> Result<Seq<char>, DecryptError> {
    if text.len() == 0 {
        Ok(Seq::empty())
    } else {
        match plain_text(text, key) {
            Some(plain) => Ok(plain),
            None => Err(DecryptError),
        }
    }
}

/// The plaintext of an encrypted payload, if the cipher recovers one.
pub open spec fn decrypted_bytes(data: Seq<u8>, key: Seq<char>) -> Result<Seq<u8>, DecryptError> {
    match plain_bytes(data, key) {
        Some(plain) => Ok(plain),
        None => Err(DecryptError),
    }
}

/// Encrypts a text under a passphrase. The empty text stays empty; the ciphertext of any
/// other text is longer than the text, and so differs from it. Any passphrase is accepted
/// here, the empty one too: who calls refuses it. The result decrypts, under the same
/// passphrase, to the text.
pub fn encrypt(text_str: &str, key_str: &str) -> (out: String)
    ensures
        out@ == encrypted(text_str@, key_str@),
        decrypted(out@, key_str@) == Ok::<Seq<char>, DecryptError>(text_str@),
        text_str@.len() != 0 ==> out@.len() > text_str@.len(),
{
    if text_str.is_empty() {
        let out = String::new();
        assert(out@ =~= text_str@);
        return out;
    }
    encrypt_str_to_base64(text_str, key_str)
}

/// Decrypts a text under a passphrase. The empty text stays empty. A wrong passphrase, a
/// damaged ciphertext and a malformed encoding all give the same error.
pub fn decrypt(text_str: &str, key_str: &str) -> (out: Result<String, DecryptError>)
    ensures
        out matches Ok(s) ==> decrypted(text_str@, key_str@) == Ok::<Seq<char>, DecryptError>(s@),
        out is Err ==> decrypted(text_str@, key_str@) is Err,
{
    if text_str.is_empty() {
        return Ok(String::new());
    }
    match decrypt_base64_to_string(text_str, key_str) {
        Ok(s) => Ok(s),
        Err(_) => Err(DecryptError),
    }
}

/// Encrypts a payload under a passphrase. The result is longer than the payload and
/// decrypts, under the same passphrase, to the payload.
pub fn encrypt_bytes(data: &[u8], passphrase: &str) -> (out: Vec<u8>)
    ensures
        out@ == cipher_bytes(data@, passphrase@),
        out@.len() > data@.len(),
        decrypted_bytes(out@, passphrase@) == Ok::<Seq<u8>, DecryptError>(data@),
{
    encrypt_bytes_to_bytes(data, passphrase)
}

/// Decrypts a payload under a passphrase.
pub fn decrypt_bytes(data: &[u8], passphrase: &str) -> (out: Result<Vec<u8>, DecryptError>)
    ensures
        out matches Ok(d) ==> decrypted_bytes(data@, passphrase@) == Ok::<Seq<u8>, DecryptError>(
            d@,
        ),
        out is Err ==> decrypted_bytes(data@, passphrase@) is Err,
{
    match decrypt_bytes_to_bytes(data, passphrase) {
        Ok(d) => Ok(d),
        Err(_) => Err(DecryptError),
    }
}

/// `SystemTime::now` of the standard library, as whole seconds since the Unix epoch; nothing
/// where the clock stands before the epoch. Nothing is known of the value.
#[verifier::external_body]
fn seconds_since_epoch() -> (r: Option<u64>) {
    std::time::SystemTime::now().duration_since(std::time::UNIX_EPOCH).ok().map(|d| d.as_secs())
}

/// The current Unix time in seconds, 0 where the clock stands before the epoch.
pub fn timenow() -> (now: i64) {
    match seconds_since_epoch() {
        Some(n) => n as i64,
        None => 0,
    }
}

/// An entity is due for eviction when its expiry has been reached, when it has been read as
/// often as it may be, or when nobody has read it for `gc_days` days. An expiry of 0 never
/// comes, a read limit of 0 is none, and `gc_days` of 0 switches the last rule off.
pub open spec fn evictable(p: PastaView, now: int, gc_days: int) -> bool {
    ||| p.expiration != 0 && p.expiration <= now
    ||| p.burn_after_reads != 0 && p.read_count >= p.burn_after_reads
    ||| gc_days != 0 && now - p.last_read >= gc_days * 86400
}

/// Whether the entity is due for eviction at the moment `now`.
pub fn is_evictable(p: &Pasta, now: i64, gc_days: u16) -> (b: bool)
    ensures
        b == evictable(p@, now as int, gc_days as int),
{
    let idle: i128 = now as i128 - p.last_read as i128;
    (p.expiration != 0 && p.expiration <= now) || (p.burn_after_reads != 0 && p.read_count
        >= p.burn_after_reads) || (gc_days != 0 && idle >= gc_days as i128 * 86400)
}

/// The entities that a sweep at the moment `now` leaves in the store, in their order.
pub open spec fn survivors(pastas: Seq<Pasta>, now: int, gc_days: int) -> Seq<Pasta> {
    pastas.filter(|p: Pasta| !evictable(p@, now, gc_days))
}

/// The entities that a sweep at the moment `now` takes out of the store, in their order.
pub open spec fn evicted(pastas: Seq<Pasta>, now: int, gc_days: int) -> Seq<Pasta> {
    pastas.filter(|p: Pasta| evictable(p@, now, gc_days))
}

/// Sweeps the store at the moment `now`: every entity that is due leaves it and is handed
/// back, so that the caller can delete its bytes and its row in the durable index. The
/// others stay, in their order.
pub fn remove_expired_at(pastas: &mut Vec<Pasta>, now: i64, gc_days: u16) -> (removed: Vec<Pasta>)
    ensures
        final(pastas)@ == survivors(old(pastas)@, now as int, gc_days as int),
        removed@ == evicted(old(pastas)@, now as int, gc_days as int),
{
    let mut all: Vec<Pasta> = Vec::new();
    std::mem::swap(pastas, &mut all);
    let mut removed: Vec<Pasta> = Vec::new();
    let ghost before = all@;
    proof {
        reveal(Seq::filter);
    }
    for p in it: all
        invariant
            it.seq() == before,
            pastas@ == survivors(before.take(it.index() as int), now as int, gc_days as int),
            removed@ == evicted(before.take(it.index() as int), now as int, gc_days as int),
    {
        proof {
            reveal(Seq::filter);
            let i = it.index() as int;
            assert(before.take(i + 1).drop_last() =~= before.take(i));
            assert(before.take(i + 1).last() == p);
        }
        if is_evictable(&p, now, gc_days) {
            removed.push(p);
        } else {
            pastas.push(p);
        }
    }
    proof {
        assert(before.take(before.len() as int) =~= before);
    }
    removed
}

/// Sweeps the store at the moment that the system clock shows.
pub fn remove_expired(pastas: &mut Vec<Pasta>, args: &Args) -> (removed: Vec<Pasta>)
    ensures
        exists|now: i64|
            final(pastas)@ == survivors(old(pastas)@, now as int, args.gc_days as int) && removed@
                == evicted(old(pastas)@, now as int, args.gc_days as int),
{
    let now = timenow();
    remove_expired_at(pastas, now, args.gc_days)
}

/// An answer that was given after a sweep of the store, with what the sweep took out. The
/// caller deletes the bytes and the rows in the durable index of what was taken out.
#[derive(Debug)]
pub struct Swept<T> {
    /// The answer.
    pub answer: T,
    /// The entities that the sweep took out of the store, in their order.
    pub evicted: Vec<Pasta>,
}

/// A second sweep at the same moment, with nothing done to the store in between, finds
/// nothing to evict and leaves the store as the first sweep left it.
pub proof fn lemma_sweep_is_idempotent(pastas: Seq<Pasta>, now: int, gc_days: int)
    ensures
        survivors(survivors(pastas, now, gc_days), now, gc_days) == survivors(
            pastas,
            now,
            gc_days,
        ),
        evicted(survivors(pastas, now, gc_days), now, gc_days) == Seq::<Pasta>::empty(),
    decreases pastas.len(),
{
    reveal(Seq::filter);
    if pastas.len() > 0 {
        let rest = pastas.drop_last();
        let last = pastas.last();
        lemma_sweep_is_idempotent(rest, now, gc_days);
        if !evictable(last@, now, gc_days) {
            let kept = survivors(rest, now, gc_days).push(last);
            assert(kept.drop_last() =~= survivors(rest, now, gc_days));
            assert(kept.last() == last);
        }
    }
}

/// A sweep parts the store in two: what it leaves is not due, and what it takes out is.
pub proof fn lemma_sweep_parts_the_store(pastas: Seq<Pasta>, now: int, gc_days: int)
    ensures
        forall|i: int|
            0 <= i < survivors(pastas, now, gc_days).len() ==> !evictable(
                (#[trigger] survivors(pastas, now, gc_days)[i])@,
                now,
                gc_days,
            ),
        forall|i: int|
            0 <= i < evicted(pastas, now, gc_days).len() ==> evictable(
                (#[trigger] evicted(pastas, now, gc_days)[i])@,
                now,
                gc_days,
            ),
        survivors(pastas, now, gc_days).len() + evicted(pastas, now, gc_days).len()
            == pastas.len(),
    decreases pastas.len(),
{
    reveal(Seq::filter);
    if pastas.len() > 0 {
        lemma_sweep_parts_the_store(pastas.drop_last(), now, gc_days);
    }
}

/// What a stretch of text is, as the link finder sees it.
#[derive(Clone, Copy, Debug, PartialEq, Eq, Structural)]
pub enum SpanKind {
    /// Plain text.
    Text,
    /// A URL with a scheme.
    Url,
    /// An e-mail address.
    Email,
}

/// What `LinkFinder::spans` yields first for a text, with the finder's default options: the
/// text of the first span and its kind. The spans follow one another and together make up
/// the text; there is none where the text is empty.
pub uninterp spec fn first_span(text: Seq<char>) -> Option<(Seq<char>, SpanKind)>;

/// `LinkFinder::new`, then `spans` on the text, then the first item of the iterator, as its
/// text and its kind.
#[verifier::external_body]
fn first_link_span(text: &str) -> (r: Option<(String, SpanKind)>)
    ensures
        r matches Some(span) ==> first_span(text@) == Some((span.0@, span.1)),
        r is None ==> first_span(text@) is None,
{
    LinkFinder::new().spans(text).next().map(
        |span|
            (
                span.as_str().to_string(),
                match span.kind() {
                    None => SpanKind::Text,
                    Some(LinkKind::Url) => SpanKind::Url,
                    Some(_) => SpanKind::Email,
                },
            ),
    )
}

/// Whether the first span of a text is a URL that makes up all of the text.
pub fn is_whole_url(url: &str, first: &Option<(String, SpanKind)>) -> (b: bool)
    ensures
        b == (first matches Some(span) && span.0@ == url@ && span.1 == SpanKind::Url),
{
    match first {
        Some(span) => same_text(span.0.as_str(), url) && span.1 == SpanKind::Url,
        None => false,
    }
}

/// Whether the text is one URL and nothing else. The empty text is none.
pub fn is_valid_url(url: &str) -> (b: bool)
    ensures
        b == (first_span(url@) == Some((url@, SpanKind::Url))),
{
    let first = first_link_span(url);
    is_whole_url(url, &first)
}

/// What `qrcode_generator::to_svg_to_string` returns for a text, at the lowest level of
/// error correction, 256 pixels wide and without a description: the SVG image of the QR
/// code; nothing where the text is too long for any QR code.
pub uninterp spec fn qr_svg(text: Seq<char>) -> Option<Seq<char>>;

/// `qrcode_generator::to_svg_to_string` on the text, at the lowest level of error
/// correction, 256 pixels wide and without a description.
#[verifier::external_body]
fn to_svg_to_string(text: &str) -> (r: Option<String>)
    ensures
        r matches Some(svg) ==> qr_svg(text@) == Some(svg@),
        r is None ==> qr_svg(text@) is None,
{
    qrcode_generator::to_svg_to_string(text, QrCodeEcc::Low, 256, None::<&str>).ok()
}

/// The QR code of a text as an SVG image, for a text that fits into one.
pub fn string_to_qr_svg(text: &str) -> (svg: String)
    requires
        qr_svg(text@) is Some,
    ensures
        Some(svg@) == qr_svg(text@),
{
    match to_svg_to_string(text) {
        Some(svg) => svg,
        None => unreached(),
    }
}

/// The QR code of a text as an SVG image, if the text fits into one.
pub fn try_string_to_qr_svg(text: &str) -> (r: Option<String>)
    ensures
        r matches Some(svg) ==> qr_svg(text@) == Some(svg@),
        r is None ==> qr_svg(text@) is None,
{
    if to_svg_to_string(text).is_some() {
        Some(string_to_qr_svg(text))
    } else {
        None
    }
}

} // verus!
