use vstd::prelude::*;
use chacha20poly1305::KeyInit;
use chacha20poly1305::aead::Aead;
use ed25519_dalek::Signer;
use ed25519_dalek::Verifier;

verus! {

/// The BLAKE3 keyed hash of `msg` under the 32-byte `key`.
pub uninterp spec fn blake3_keyed_of(key: Seq<u8>, msg: Seq<u8>) -> Seq<u8>;

/// The Ed25519 signature over `msg` by the signing key derived from
/// the 32-byte `seed` (Ed25519 signing is deterministic).
pub uninterp spec fn ed25519_signature_of(seed: Seq<u8>, msg: Seq<u8>) -> Seq<u8>;

/// The 32-byte Ed25519 public key derived from the 32-byte `seed`.
pub uninterp spec fn ed25519_public_of(seed: Seq<u8>) -> Seq<u8>;

/// Whether 32 bytes decode to a valid Ed25519 public key, exactly when
/// `ed25519_dalek::VerifyingKey::from_bytes` accepts them.
pub uninterp spec fn ed25519_valid_public(pk: Seq<u8>) -> bool;

/// The outcome of the Ed25519 check of a 64-byte signature over `msg`
/// under the valid public key `pk` (the check is deterministic).
pub uninterp spec fn ed25519_verifies(pk: Seq<u8>, msg: Seq<u8>, sig: Seq<u8>) -> bool;

/// The ChaCha20-Poly1305 sealing of `pt` under the 32-byte `key` with
/// the all-zero 96-bit nonce: ciphertext followed by the 16-byte tag.
pub uninterp spec fn chacha_seal(key: Seq<u8>, pt: Seq<u8>) -> Seq<u8>;

/// The largest plaintext the sealing wrapper accepts; far below the
/// cipher's own limit, at which its `encrypt` starts to fail.
pub const CHACHA_MAX_PLAINTEXT: usize = 0x1000_0000;

/// Relies on `blake3::keyed_hash`: a 32-byte digest that is a function
/// of the key and the message alone.
#[verifier::external_body]
pub(crate) fn blake3_keyed(key: &[u8], msg: &[u8]) -> (r: Vec<u8>)
    requires
        key@.len() == 32,
    ensures
        r@ == blake3_keyed_of(key@, msg@),
        r@.len() == 32,
{
    let mut k = [0u8; 32];
    k.copy_from_slice(key);
    blake3::keyed_hash(&k, msg).as_bytes().to_vec()
}

/// Relies on `ed25519_dalek::SigningKey::{from_bytes, sign}`: signing
/// is deterministic and yields a 64-byte signature; `from_bytes`
/// accepts any 32-byte seed.
#[verifier::external_body]
pub(crate) fn ed25519_sign(seed: &[u8], msg: &[u8]) -> (r: Vec<u8>)
    requires
        seed@.len() == 32,
    ensures
        r@ == ed25519_signature_of(seed@, msg@),
        r@.len() == 64,
{
    let mut s = [0u8; 32];
    s.copy_from_slice(seed);
    let sk = ed25519_dalek::SigningKey::from_bytes(&s);
    sk.sign(msg).to_bytes().to_vec()
}

/// Relies on `ed25519_dalek::SigningKey::verifying_key`: the public
/// key is a function of the seed alone, is 32 bytes long, and always
/// decodes back through `VerifyingKey::from_bytes`.
#[verifier::external_body]
pub(crate) fn ed25519_derive_public(seed: &[u8]) -> (r: Vec<u8>)
    requires
        seed@.len() == 32,
    ensures
        r@ == ed25519_public_of(seed@),
        r@.len() == 32,
        ed25519_valid_public(r@),
{
    let mut s = [0u8; 32];
    s.copy_from_slice(seed);
    let sk = ed25519_dalek::SigningKey::from_bytes(&s);
    sk.verifying_key().to_bytes().to_vec()
}

/// Relies on `ed25519_dalek::VerifyingKey::from_bytes`: it accepts
/// exactly the byte strings that decompress to a curve point, and in
/// particular every key that `verifying_key` derives from a seed.
#[verifier::external_body]
pub(crate) fn ed25519_check_public(pk: &[u8]) -> (r: bool)
    requires
        pk@.len() == 32,
    ensures
        r == ed25519_valid_public(pk@),
        (exists|seed: Seq<u8>| seed.len() == 32 && pk@ == ed25519_public_of(seed)) ==> r,
{
    let mut p = [0u8; 32];
    p.copy_from_slice(pk);
    ed25519_dalek::VerifyingKey::from_bytes(&p).is_ok()
}

/// Relies on `ed25519_dalek::VerifyingKey::verify`: the check is a
/// deterministic function of public key, message and signature, and it
/// accepts every signature made with the seed the key derives from.
#[verifier::external_body]
pub(crate) fn ed25519_do_verify(pk: &[u8], msg: &[u8], sig: &[u8]) -> (r: bool)
    requires
        pk@.len() == 32,
        ed25519_valid_public(pk@),
        sig@.len() == 64,
    ensures
        r == ed25519_verifies(pk@, msg@, sig@),
        (exists|seed: Seq<u8>|
            seed.len() == 32 && pk@ == ed25519_public_of(seed) && sig@ == ed25519_signature_of(
                seed,
                msg@,
            )) ==> r,
{
    let mut p = [0u8; 32];
    p.copy_from_slice(pk);
    let mut sg = [0u8; 64];
    sg.copy_from_slice(sig);
    match ed25519_dalek::VerifyingKey::from_bytes(&p) {
        Ok(key) => key.verify(msg, &ed25519_dalek::Signature::from_bytes(&sg)).is_ok(),
        Err(_) => false,
    }
}

/// Relies on `ed25519_dalek::SigningKey::generate` with `rand`'s
/// `OsRng`: a freshly sampled 32-byte secret seed; nothing more can be
/// said of a random value.
#[verifier::external_body]
pub(crate) fn ed25519_fresh_seed() -> (r: Vec<u8>)
    ensures
        r@.len() == 32,
{
    let sk = ed25519_dalek::SigningKey::generate(&mut rand::rngs::OsRng);
    sk.to_bytes().to_vec()
}

/// Relies on `chacha20poly1305::ChaCha20Poly1305`'s `encrypt` under
/// the all-zero nonce: deterministic, appends a 16-byte tag, and
/// cannot fail below the cipher's block-count limit.
#[verifier::external_body]
pub(crate) fn chacha_encrypt(key: &[u8], pt: &[u8]) -> (r: Vec<u8>)
    requires
        key@.len() == 32,
        pt@.len() <= CHACHA_MAX_PLAINTEXT,
    ensures
        r@ == chacha_seal(key@, pt@),
        r@.len() == pt@.len() + 16,
{
    let k = chacha20poly1305::Key::from_slice(key);
    let cipher = chacha20poly1305::ChaCha20Poly1305::new(k);
    let nonce = [0u8; 12];
    cipher.encrypt(&nonce.into(), pt).unwrap()
}

/// Relies on `chacha20poly1305::ChaCha20Poly1305`'s `decrypt` under
/// the all-zero nonce: it accepts a ciphertext exactly when the tag
/// recomputes, so it succeeds on every output of `encrypt` under the
/// same key and returns the sealed plaintext, and whatever it accepts
/// seals back to the same ciphertext.
#[verifier::external_body]
pub(crate) fn chacha_decrypt(key: &[u8], ct: &[u8]) -> (r: Option<Vec<u8>>)
    requires
        key@.len() == 32,
    ensures
        r matches Some(p) ==> ct@ == chacha_seal(key@, p@),
        r matches Some(p) ==> forall|q: Seq<u8>| ct@ == chacha_seal(key@, q) ==> p@ == q,
        r is None ==> forall|p: Seq<u8>| ct@ != chacha_seal(key@, p),
{
    let k = chacha20poly1305::Key::from_slice(key);
    let cipher = chacha20poly1305::ChaCha20Poly1305::new(k);
    let nonce = [0u8; 12];
    cipher.decrypt(&nonce.into(), ct).ok()
}

} // verus!
