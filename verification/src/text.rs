use vstd::prelude::*;
use vstd::string::StrSliceExecFns;
use vstd::utf8::{decode_utf8, encode_utf8, valid_utf8};
use crate::b64::{b64std_decode, b64std_encode, b64std_of, b64url_decode, b64url_encode, b64url_of};
use crate::crypto::{
    blake3_keyed, blake3_keyed_of, chacha_decrypt, chacha_encrypt, chacha_seal, ed25519_check_public,
    ed25519_derive_public, ed25519_do_verify, ed25519_fresh_seed, ed25519_public_of, ed25519_sign,
    ed25519_signature_of, ed25519_valid_public, ed25519_verifies, CHACHA_MAX_PLAINTEXT,
};
use crate::error::CryptoError;
use crate::gen_pass::{gen_pass_bytes, password_ok};
use crate::opt::TextSignFormat;
use crate::strutil::{lemma_trim_no_ws, string_from_utf8, trim_spec, trim_str};

verus! {

/// Copy the first 32 bytes of a slice into a key array.
fn key32_from(b: &[u8]) -> (r: [u8; 32])
    requires
        b@.len() >= 32,
    ensures
        r@ == b@.subrange(0, 32),
{
    let mut a = [0u8; 32];
    let mut i: usize = 0;
    while i < 32
        invariant
            0 <= i <= 32,
            b@.len() >= 32,
            a@.len() == 32,
            forall|k: int| 0 <= k < i ==> a@[k] == b@[k],
        decreases 32 - i,
    {
        a[i] = b[i];
        i = i + 1;
    }
    proof {
        assert(a@ =~= b@.subrange(0, 32));
    }
    a
}

/// Byte-for-byte equality of two slices.
fn bytes_eq(a: &[u8], b: &[u8]) -> (r: bool)
    ensures
        r == (a@ == b@),
{
    if a.len() != b.len() {
        return false;
    }
    let mut i: usize = 0;
    while i < a.len()
        invariant
            0 <= i <= a@.len(),
            a@.len() == b@.len(),
            forall|k: int| 0 <= k < i ==> a@[k] == b@[k],
        decreases a@.len() - i,
    {
        if a[i] != b[i] {
            proof {
                assert(a@[i as int] != b@[i as int]);
            }
            return false;
        }
        i = i + 1;
    }
    proof {
        assert(a@ =~= b@);
    }
    true
}

/// The signing half of the scheme capability: sign a whole in-memory
/// message.
pub trait TextSign {
    /// The signature bytes this signer produces over `msg`.
    spec fn sign_spec(&self, msg: Seq<u8>) -> Seq<u8>;

    /// The scheme's fixed signature length.
    spec fn sig_len(&self) -> nat;

    /// Sign the message, returning the raw signature bytes.
    fn sign(&self, msg: &[u8]) -> (r: Result<Vec<u8>, CryptoError>)
        ensures
            r matches Ok(s) && s@ == self.sign_spec(msg@) && s@.len() == self.sig_len(),
    ;
}

/// The verifying half of the scheme capability: a mismatching
/// signature is the normal value `false`, never an error.
pub trait TextVerify {
    /// Which raw signature lengths the scheme will check at all.
    spec fn sig_admissible(&self, sig: Seq<u8>) -> bool;

    /// The boolean outcome of a completed check.
    spec fn verify_spec(&self, msg: Seq<u8>, sig: Seq<u8>) -> bool;

    /// The error reported on an inadmissible signature.
    spec fn verify_err(&self) -> CryptoError;

    /// Whether the scheme's own signer produced `sig` over `msg` with
    /// the key matching this verifier.
    spec fn genuine(&self, msg: Seq<u8>, sig: Seq<u8>) -> bool;

    /// Check a signature over the message.
    fn verify(&self, msg: &[u8], sig: &[u8]) -> (r: Result<bool, CryptoError>)
        ensures
            r is Ok <==> self.sig_admissible(sig@),
            r matches Ok(b) ==> b == self.verify_spec(msg@, sig@),
            r matches Err(e) ==> e == self.verify_err(),
            self.sig_admissible(sig@) && self.genuine(msg@, sig@) ==> r == Ok::<
                bool,
                CryptoError,
            >(true),
    ;
}

/// Construction of a scheme key from raw key material in memory;
/// length validation happens here, not at file-reading time.
pub trait KeyLoader: Sized + View<V = Seq<u8>> {
    /// Whether the scheme accepts this key material.
    spec fn load_accepts(key: Seq<u8>) -> bool;

    /// The key bytes the scheme keeps of accepted material.
    spec fn load_view(key: Seq<u8>) -> Seq<u8>;

    /// The error reported of rejected material.
    spec fn load_err(key: Seq<u8>) -> CryptoError;

    /// Construct the scheme's key from raw key material.
    fn load(key: &[u8]) -> (r: Result<Self, CryptoError>)
        ensures
            r is Ok <==> Self::load_accepts(key@),
            r matches Ok(s) ==> s@ == Self::load_view(key@),
            r matches Err(e) ==> e == Self::load_err(key@),
    ;
}

/// Generation of fresh key material for a scheme.
pub trait KeyGenerator {
    /// What holds of every freshly generated sequence of key blocks.
    spec fn generate_post(blocks: Seq<Seq<u8>>) -> bool;

    /// Generate the scheme's key blocks.
    fn generate() -> (r: Result<Vec<Vec<u8>>, CryptoError>)
        ensures
            r matches Ok(v) && Self::generate_post(v.deep_view()),
    ;
}

/// The keyed-hash scheme: a 32-byte secret key, a 32-byte digest as
/// the signature, the same key on both ends.
pub struct Blake3 {
    key: [u8; 32],
}

impl View for Blake3 {
    type V = Seq<u8>;

    closed spec fn view(&self) -> Seq<u8> {
        self.key@
    }
}

impl Blake3 {
    /// Wrap a 32-byte keyed-hash key.
    pub fn new(key: [u8; 32]) -> (r: Self)
        ensures
            r@ == key@,
    {
        Blake3 { key }
    }

    /// Keep the first 32 bytes of the key material; fewer is an error.
    pub fn try_new(key: &[u8]) -> (r: Result<Self, CryptoError>)
        ensures
            key@.len() >= 32 ==> (r matches Ok(s) && s@ == key@.subrange(0, 32)),
            key@.len() < 32 ==> r == Err::<Blake3, CryptoError>(CryptoError::InvalidKeyLength),
    {
        if key.len() < 32 {
            Err(CryptoError::InvalidKeyLength)
        } else {
            Ok(Blake3::new(key32_from(key)))
        }
    }
}

impl TextSign for Blake3 {
    open spec fn sign_spec(&self, msg: Seq<u8>) -> Seq<u8> {
        blake3_keyed_of(self@, msg)
    }

    open spec fn sig_len(&self) -> nat {
        32
    }

    fn sign(&self, msg: &[u8]) -> (r: Result<Vec<u8>, CryptoError>) {
        Ok(blake3_keyed(self.key.as_slice(), msg))
    }
}

impl TextVerify for Blake3 {
    open spec fn sig_admissible(&self, sig: Seq<u8>) -> bool {
        true
    }

    open spec fn verify_spec(&self, msg: Seq<u8>, sig: Seq<u8>) -> bool {
        sig == blake3_keyed_of(self@, msg)
    }

    open spec fn verify_err(&self) -> CryptoError {
        CryptoError::InvalidSignatureLength
    }

    open spec fn genuine(&self, msg: Seq<u8>, sig: Seq<u8>) -> bool {
        sig == blake3_keyed_of(self@, msg)
    }

    fn verify(&self, msg: &[u8], sig: &[u8]) -> (r: Result<bool, CryptoError>) {
        let hash = blake3_keyed(self.key.as_slice(), msg);
        Ok(bytes_eq(hash.as_slice(), sig))
    }
}

impl KeyLoader for Blake3 {
    open spec fn load_accepts(key: Seq<u8>) -> bool {
        key.len() >= 32
    }

    open spec fn load_view(key: Seq<u8>) -> Seq<u8> {
        key.subrange(0, 32)
    }

    open spec fn load_err(key: Seq<u8>) -> CryptoError {
        CryptoError::InvalidKeyLength
    }

    fn load(key: &[u8]) -> (r: Result<Self, CryptoError>) {
        Blake3::try_new(key)
    }
}

impl KeyGenerator for Blake3 {
    open spec fn generate_post(blocks: Seq<Seq<u8>>) -> bool {
        &&& blocks.len() == 1
        &&& password_ok(blocks[0], 32, true, true, true, true)
    }

    fn generate() -> (r: Result<Vec<Vec<u8>>, CryptoError>) {
        let key = gen_pass_bytes(32, true, true, true, true);
        let ghost key_view = key@;
        let blocks = vec![key];
        proof {
            assert(blocks.deep_view().len() == 1);
            assert(blocks.deep_view()[0] =~= key_view);
        }
        Ok(blocks)
    }
}

/// The asymmetric scheme's signing side: a 32-byte private seed from
/// which the keypair is derived; signatures are 64 bytes.
pub struct Ed25519Signer {
    key: [u8; 32],
}

impl View for Ed25519Signer {
    type V = Seq<u8>;

    closed spec fn view(&self) -> Seq<u8> {
        self.key@
    }
}

impl Ed25519Signer {
    /// Wrap a 32-byte private seed.
    pub fn new(key: [u8; 32]) -> (r: Self)
        ensures
            r@ == key@,
    {
        Ed25519Signer { key }
    }

    /// Accept exactly 32 bytes of seed material.
    pub fn try_new(key: &[u8]) -> (r: Result<Self, CryptoError>)
        ensures
            key@.len() == 32 ==> (r matches Ok(s) && s@ == key@),
            key@.len() != 32 ==> r == Err::<Ed25519Signer, CryptoError>(
                CryptoError::InvalidKeyLength,
            ),
    {
        if key.len() != 32 {
            Err(CryptoError::InvalidKeyLength)
        } else {
            let k = key32_from(key);
            proof {
                assert(k@ =~= key@);
            }
            Ok(Ed25519Signer::new(k))
        }
    }
}

impl TextSign for Ed25519Signer {
    open spec fn sign_spec(&self, msg: Seq<u8>) -> Seq<u8> {
        ed25519_signature_of(self@, msg)
    }

    open spec fn sig_len(&self) -> nat {
        64
    }

    fn sign(&self, msg: &[u8]) -> (r: Result<Vec<u8>, CryptoError>) {
        Ok(ed25519_sign(self.key.as_slice(), msg))
    }
}

impl KeyLoader for Ed25519Signer {
    open spec fn load_accepts(key: Seq<u8>) -> bool {
        key.len() == 32
    }

    open spec fn load_view(key: Seq<u8>) -> Seq<u8> {
        key
    }

    open spec fn load_err(key: Seq<u8>) -> CryptoError {
        CryptoError::InvalidKeyLength
    }

    fn load(key: &[u8]) -> (r: Result<Self, CryptoError>) {
        Ed25519Signer::try_new(key)
    }
}

impl KeyGenerator for Ed25519Signer {
    open spec fn generate_post(blocks: Seq<Seq<u8>>) -> bool {
        &&& blocks.len() == 2
        &&& blocks[0].len() == 32
        &&& blocks[1] == ed25519_public_of(blocks[0])
        &&& blocks[1].len() == 32
        &&& ed25519_valid_public(blocks[1])
    }

    fn generate() -> (r: Result<Vec<Vec<u8>>, CryptoError>) {
        let seed = ed25519_fresh_seed();
        let public = ed25519_derive_public(seed.as_slice());
        let ghost seed_view = seed@;
        let ghost public_view = public@;
        let blocks = vec![seed, public];
        proof {
            assert(blocks.deep_view().len() == 2);
            assert(blocks.deep_view()[0] =~= seed_view);
            assert(blocks.deep_view()[1] =~= public_view);
        }
        Ok(blocks)
    }
}

/// The asymmetric scheme's verifying side: a 32-byte public key that
/// must decode to a valid curve point.
pub struct Ed25519Verifier {
    key: [u8; 32],
}

impl View for Ed25519Verifier {
    type V = Seq<u8>;

    closed spec fn view(&self) -> Seq<u8> {
        self.key@
    }
}

impl Ed25519Verifier {
    #[verifier::type_invariant]
    spec fn type_inv(self) -> bool {
        ed25519_valid_public(self.key@)
    }

    /// Wrap a 32-byte public key that is known to decode.
    pub fn new(key: [u8; 32]) -> (r: Self)
        requires
            ed25519_valid_public(key@),
        ensures
            r@ == key@,
    {
        Ed25519Verifier { key }
    }

    /// Accept exactly 32 bytes that decode to a valid public key.
    pub fn try_new(key: &[u8]) -> (r: Result<Self, CryptoError>)
        ensures
            key@.len() == 32 && ed25519_valid_public(key@) ==> (r matches Ok(s) && s@ == key@),
            key@.len() != 32 ==> r == Err::<Ed25519Verifier, CryptoError>(
                CryptoError::InvalidKeyLength,
            ),
            key@.len() == 32 && !ed25519_valid_public(key@) ==> r == Err::<
                Ed25519Verifier,
                CryptoError,
            >(CryptoError::InvalidKeyEncoding),
            (key@.len() == 32 && exists|seed: Seq<u8>|
                seed.len() == 32 && key@ == ed25519_public_of(seed)) ==> r is Ok,
    {
        if key.len() != 32 {
            Err(CryptoError::InvalidKeyLength)
        } else if !ed25519_check_public(key) {
            Err(CryptoError::InvalidKeyEncoding)
        } else {
            let k = key32_from(key);
            proof {
                assert(k@ =~= key@);
            }
            Ok(Ed25519Verifier::new(k))
        }
    }
}

impl TextVerify for Ed25519Verifier {
    open spec fn sig_admissible(&self, sig: Seq<u8>) -> bool {
        sig.len() == 64
    }

    open spec fn verify_spec(&self, msg: Seq<u8>, sig: Seq<u8>) -> bool {
        ed25519_verifies(self@, msg, sig)
    }

    open spec fn verify_err(&self) -> CryptoError {
        CryptoError::InvalidSignatureLength
    }

    open spec fn genuine(&self, msg: Seq<u8>, sig: Seq<u8>) -> bool {
        exists|seed: Seq<u8>|
            seed.len() == 32 && self@ == ed25519_public_of(seed) && sig == ed25519_signature_of(
                seed,
                msg,
            )
    }

    fn verify(&self, msg: &[u8], sig: &[u8]) -> (r: Result<bool, CryptoError>) {
        proof {
            use_type_invariant(self);
        }
        if sig.len() != 64 {
            Err(CryptoError::InvalidSignatureLength)
        } else {
            Ok(ed25519_do_verify(self.key.as_slice(), msg, sig))
        }
    }
}

impl KeyLoader for Ed25519Verifier {
    open spec fn load_accepts(key: Seq<u8>) -> bool {
        key.len() == 32 && ed25519_valid_public(key)
    }

    open spec fn load_view(key: Seq<u8>) -> Seq<u8> {
        key
    }

    open spec fn load_err(key: Seq<u8>) -> CryptoError {
        if key.len() != 32 {
            CryptoError::InvalidKeyLength
        } else {
            CryptoError::InvalidKeyEncoding
        }
    }

    fn load(key: &[u8]) -> (r: Result<Self, CryptoError>) {
        Ed25519Verifier::try_new(key)
    }
}

/// What signing returns, for each format, key material and message.
pub open spec fn sign_outcome(format: TextSignFormat, key: Seq<u8>, msg: Seq<u8>) -> Result<
    Seq<char>,
    CryptoError,
> {
    match format {
        TextSignFormat::Blake3 => if key.len() < 32 {
            Err(CryptoError::InvalidKeyLength)
        } else {
            Ok(b64url_of(blake3_keyed_of(key.subrange(0, 32), msg)))
        },
        TextSignFormat::Ed25519 => if key.len() != 32 {
            Err(CryptoError::InvalidKeyLength)
        } else {
            Ok(b64url_of(ed25519_signature_of(key, msg)))
        },
    }
}

/// Sign the whole in-memory message with the selected scheme and
/// transport the raw signature as unpadded URL-safe base64 text.
pub fn process_text_sign(message: &[u8], key: &[u8], format: TextSignFormat) -> (r: Result<
    String,
    CryptoError,
>)
    ensures
        r matches Ok(s) ==> (sign_outcome(format, key@, message@) matches Ok(t) && s@ == t),
        r matches Err(e) ==> sign_outcome(format, key@, message@) == Err::<Seq<char>, CryptoError>(
            e,
        ),
        (format == TextSignFormat::Blake3 && key@.len() >= 32) ==> blake3_keyed_of(
            key@.subrange(0, 32),
            message@,
        ).len() == 32,
        (format == TextSignFormat::Ed25519 && key@.len() == 32) ==> ed25519_signature_of(
            key@,
            message@,
        ).len() == 64,
{
    let signed: Vec<u8> = match format {
        TextSignFormat::Blake3 => {
            let signer = match Blake3::try_new(key) {
                Ok(s) => s,
                Err(e) => { return Err(e); },
            };
            match signer.sign(message) {
                Ok(sig) => sig,
                Err(e) => { return Err(e); },
            }
        },
        TextSignFormat::Ed25519 => {
            let signer = match Ed25519Signer::try_new(key) {
                Ok(s) => s,
                Err(e) => { return Err(e); },
            };
            match signer.sign(message) {
                Ok(sig) => sig,
                Err(e) => { return Err(e); },
            }
        },
    };
    Ok(b64url_encode(signed.as_slice()))
}

/// What verification returns, for each format, key material, message
/// and raw (already decoded) signature.
pub open spec fn verify_outcome(
    format: TextSignFormat,
    key: Seq<u8>,
    msg: Seq<u8>,
    raw: Seq<u8>,
) -> Result<bool, CryptoError> {
    match format {
        TextSignFormat::Blake3 => if key.len() < 32 {
            Err(CryptoError::InvalidKeyLength)
        } else {
            Ok(raw == blake3_keyed_of(key.subrange(0, 32), msg))
        },
        TextSignFormat::Ed25519 => if key.len() != 32 {
            Err(CryptoError::InvalidKeyLength)
        } else if !ed25519_valid_public(key) {
            Err(CryptoError::InvalidKeyEncoding)
        } else if raw.len() != 64 {
            Err(CryptoError::InvalidSignatureLength)
        } else {
            Ok(ed25519_verifies(key, msg, raw))
        },
    }
}

/// Check a base64 signature over the whole in-memory message with the
/// selected scheme; a cryptographic mismatch is the normal value
/// `false`, never an error.
pub fn process_text_verify(message: &[u8], key: &[u8], format: TextSignFormat, sig: &str) -> (r:
    Result<bool, CryptoError>)
    ensures
        (forall|bs: Seq<u8>| sig@ != b64url_of(bs)) ==> r == Err::<bool, CryptoError>(
            CryptoError::EncodingError,
        ),
        forall|bs: Seq<u8>|
            sig@ == b64url_of(bs) ==> r == verify_outcome(format, key@, message@, bs),
        // round trip of the keyed-hash scheme: a signature just made verifies
        (format == TextSignFormat::Blake3 && key@.len() >= 32 && sig@ == b64url_of(
            blake3_keyed_of(key@.subrange(0, 32), message@),
        )) ==> r == Ok::<bool, CryptoError>(true),
        // round trip of the asymmetric scheme: a signature made with the
        // seed verifies under the derived public key
        forall|seed: Seq<u8>|
            (format == TextSignFormat::Ed25519 && seed.len() == 32 && key@.len() == 32 && key@
                == ed25519_public_of(seed) && ed25519_signature_of(seed, message@).len() == 64
                && sig@ == b64url_of(ed25519_signature_of(seed, message@))) ==> r == Ok::<
                bool,
                CryptoError,
            >(true),
{
    let raw = match b64url_decode(sig) {
        Some(v) => v,
        None => { return Err(CryptoError::EncodingError); },
    };
    match format {
        TextSignFormat::Blake3 => {
            let verifier = match Blake3::try_new(key) {
                Ok(v) => v,
                Err(e) => { return Err(e); },
            };
            verifier.verify(message, raw.as_slice())
        },
        TextSignFormat::Ed25519 => {
            let verifier = match Ed25519Verifier::try_new(key) {
                Ok(v) => v,
                Err(e) => { return Err(e); },
            };
            verifier.verify(message, raw.as_slice())
        },
    }
}

/// Generate key blocks for the scheme: one 32-byte block for the
/// keyed-hash scheme; a private seed and its derived public key for
/// the asymmetric scheme.
pub fn process_text_generate(format: TextSignFormat) -> (r: Result<Vec<Vec<u8>>, CryptoError>)
    ensures
        r is Ok,
        format == TextSignFormat::Blake3 ==> (r matches Ok(v)
            && <Blake3 as KeyGenerator>::generate_post(v.deep_view())),
        format == TextSignFormat::Ed25519 ==> (r matches Ok(v)
            && <Ed25519Signer as KeyGenerator>::generate_post(v.deep_view())),
{
    match format {
        TextSignFormat::Blake3 => Blake3::generate(),
        TextSignFormat::Ed25519 => Ed25519Signer::generate(),
    }
}

/// What encryption returns, for each passphrase and plaintext.
pub open spec fn encrypt_outcome(key: Seq<char>, pt: Seq<char>) -> Result<Seq<char>, CryptoError> {
    if encode_utf8(key).len() < 32 {
        Err(CryptoError::InvalidKeyLength)
    } else {
        Ok(
            b64std_of(
                chacha_seal(encode_utf8(key).subrange(0, 32), encode_utf8(trim_spec(pt))),
            ),
        )
    }
}

/// Encrypt the whitespace-trimmed plaintext under the first 32 bytes
/// of the passphrase with the AEAD cipher and its fixed all-zero
/// nonce, and transport the result as padded standard base64 text.
pub fn process_text_encrypt(plaintext: &str, key: &str) -> (r: Result<String, CryptoError>)
    requires
        encode_utf8(trim_spec(plaintext@)).len() <= CHACHA_MAX_PLAINTEXT,
    ensures
        r matches Ok(s) ==> (encrypt_outcome(key@, plaintext@) matches Ok(t) && s@ == t
            && trim_spec(s@) == s@),
        r matches Err(e) ==> encrypt_outcome(key@, plaintext@) == Err::<Seq<char>, CryptoError>(e),
{
    let kb: Vec<u8> = key.as_bytes_vec();
    if kb.len() < 32 {
        return Err(CryptoError::InvalidKeyLength);
    }
    let k32 = key32_from(kb.as_slice());
    let trimmed = trim_str(plaintext);
    let pb: Vec<u8> = trimmed.as_bytes_vec();
    let ct = chacha_encrypt(k32.as_slice(), pb.as_slice());
    let out = b64std_encode(ct.as_slice());
    proof {
        lemma_trim_no_ws(out@);
    }
    Ok(out)
}

/// What decryption returns, for a 32-byte key and a decoded
/// ciphertext: the sealed plaintext where one exists, otherwise an
/// authentication failure.
pub open spec fn decrypt_outcome(k: Seq<u8>, ct: Seq<u8>) -> Result<Seq<char>, CryptoError> {
    if exists|p: Seq<u8>| ct == chacha_seal(k, p) {
        let p = choose|p: Seq<u8>| ct == chacha_seal(k, p);
        if valid_utf8(p) {
            Ok(decode_utf8(p))
        } else {
            Err(CryptoError::EncodingError)
        }
    } else {
        Err(CryptoError::AuthenticationError)
    }
}

/// Decrypt whitespace-trimmed, padded standard base64 ciphertext under
/// the first 32 bytes of the passphrase; a failed tag check is an
/// `AuthenticationError`, never corrupted plaintext.
pub fn process_text_decrypt(input: &str, key: &str) -> (r: Result<String, CryptoError>)
    ensures
        encode_utf8(key@).len() < 32 ==> r == Err::<String, CryptoError>(
            CryptoError::InvalidKeyLength,
        ),
        (encode_utf8(key@).len() >= 32 && (forall|bs: Seq<u8>| trim_spec(input@) != b64std_of(bs)))
            ==> r == Err::<String, CryptoError>(CryptoError::EncodingError),
        encode_utf8(key@).len() >= 32 ==> forall|bs: Seq<u8>|
            trim_spec(input@) == b64std_of(bs) ==> ((r matches Ok(s) ==> (decrypt_outcome(
                encode_utf8(key@).subrange(0, 32),
                bs,
            ) matches Ok(t) && s@ == t)) && (r matches Err(e) ==> decrypt_outcome(
                encode_utf8(key@).subrange(0, 32),
                bs,
            ) == Err::<Seq<char>, CryptoError>(e))),
        // round trip: decrypting what encryption produced returns the
        // plaintext that was sealed
        forall|pt: Seq<u8>|
            (encode_utf8(key@).len() >= 32 && valid_utf8(pt) && trim_spec(input@) == b64std_of(
                chacha_seal(encode_utf8(key@).subrange(0, 32), pt),
            )) ==> (r matches Ok(s) && s@ == decode_utf8(pt)),
{
    let kb: Vec<u8> = key.as_bytes_vec();
    if kb.len() < 32 {
        return Err(CryptoError::InvalidKeyLength);
    }
    let k32 = key32_from(kb.as_slice());
    let trimmed = trim_str(input);
    let ct = match b64std_decode(trimmed) {
        Some(v) => v,
        None => { return Err(CryptoError::EncodingError); },
    };
    let pt = match chacha_decrypt(k32.as_slice(), ct.as_slice()) {
        Some(p) => p,
        None => { return Err(CryptoError::AuthenticationError); },
    };
    let ghost ptv = pt@;
    match string_from_utf8(pt) {
        Some(s) => Ok(s),
        None => Err(CryptoError::EncodingError),
    }
}

/// Round trip of the keyed-hash scheme: the digest of a message always
/// verifies under the key that made it.
pub proof fn lemma_blake3_round_trip(key: Seq<u8>, msg: Seq<u8>)
    requires
        key.len() >= 32,
    ensures
        verify_outcome(
            TextSignFormat::Blake3,
            key,
            msg,
            blake3_keyed_of(key.subrange(0, 32), msg),
        ) == Ok::<bool, CryptoError>(true),
{
}

/// Tamper sensitivity of the keyed-hash scheme on the signature side:
/// any raw signature other than the digest itself is rejected.
pub proof fn lemma_blake3_rejects_other_sig(key: Seq<u8>, msg: Seq<u8>, raw: Seq<u8>)
    requires
        key.len() >= 32,
        raw != blake3_keyed_of(key.subrange(0, 32), msg),
    ensures
        verify_outcome(TextSignFormat::Blake3, key, msg, raw) == Ok::<bool, CryptoError>(false),
{
}

/// Signature-length enforcement of the asymmetric scheme: a raw
/// signature that is not exactly 64 bytes is an error, not a check.
pub proof fn lemma_ed25519_sig_length_enforced(key: Seq<u8>, msg: Seq<u8>, raw: Seq<u8>)
    requires
        key.len() == 32,
        ed25519_valid_public(key),
        raw.len() != 64,
    ensures
        verify_outcome(TextSignFormat::Ed25519, key, msg, raw) == Err::<bool, CryptoError>(
            CryptoError::InvalidSignatureLength,
        ),
{
}

} // verus!
