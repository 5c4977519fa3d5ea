use vstd::prelude::*;
use base64::Engine;
use crate::strutil::is_wspace;

verus! {

/// The unpadded URL-safe base64 encoding of a byte sequence, as
/// produced by base64's `URL_SAFE_NO_PAD` engine.
pub uninterp spec fn b64url_of(bs: Seq<u8>) -> Seq<char>;

/// The padded standard-alphabet base64 encoding of a byte sequence,
/// as produced by base64's `STANDARD` engine.
pub uninterp spec fn b64std_of(bs: Seq<u8>) -> Seq<char>;

/// Relies on base64's `URL_SAFE_NO_PAD.encode`: the encoding is a
/// function of the bytes alone.
#[verifier::external_body]
pub(crate) fn b64url_encode(bs: &[u8]) -> (r: String)
    ensures
        r@ == b64url_of(bs@),
{
    base64::engine::general_purpose::URL_SAFE_NO_PAD.encode(bs)
}

/// Relies on base64's `URL_SAFE_NO_PAD.decode`: with this engine's
/// canonical configuration (no padding accepted, trailing bits
/// rejected) it inverts `encode`, succeeding exactly on its outputs.
#[verifier::external_body]
pub(crate) fn b64url_decode(s: &str) -> (r: Option<Vec<u8>>)
    ensures
        r matches Some(v) ==> s@ == b64url_of(v@),
        r matches Some(v) ==> forall|bs: Seq<u8>| s@ == b64url_of(bs) ==> v@ == bs,
        r is None ==> forall|bs: Seq<u8>| s@ != b64url_of(bs),
{
    base64::engine::general_purpose::URL_SAFE_NO_PAD.decode(s).ok()
}

/// Relies on base64's `STANDARD.encode`: the encoding is a function of
/// the bytes alone, over an alphabet (`A`-`Z`, `a`-`z`, `0`-`9`, `+`,
/// `/`, `=`) that holds no whitespace character.
#[verifier::external_body]
pub(crate) fn b64std_encode(bs: &[u8]) -> (r: String)
    ensures
        r@ == b64std_of(bs@),
        forall|i: int| 0 <= i < r@.len() ==> !is_wspace(#[trigger] r@[i]),
{
    base64::engine::general_purpose::STANDARD.encode(bs)
}

/// Relies on base64's `STANDARD.decode`: with this engine's canonical
/// configuration (canonical padding required, trailing bits rejected)
/// it inverts `encode`, succeeding exactly on its outputs.
#[verifier::external_body]
pub(crate) fn b64std_decode(s: &str) -> (r: Option<Vec<u8>>)
    ensures
        r matches Some(v) ==> s@ == b64std_of(v@),
        r matches Some(v) ==> forall|bs: Seq<u8>| s@ == b64std_of(bs) ==> v@ == bs,
        r is None ==> forall|bs: Seq<u8>| s@ != b64std_of(bs),
{
    base64::engine::general_purpose::STANDARD.decode(s).ok()
}

} // verus!
