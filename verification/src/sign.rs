//! Request signing: a keyed hash over the canonical query string, appended to
//! it in lower-case hexadecimal.

use vstd::prelude::*;
use vstd::string::*;
use vstd::utf8::*;
use hmac::{Hmac, Mac, NewMac};
use sha2::Sha256;
use crate::query::{canonical, canonical_query, field_models, FieldModel, QueryField};

verus! {

/// The HMAC-SHA-256 authentication code of `message` under `key`.
///
/// The code is computed by the `hmac` and `sha2` crates; this name stands for
/// what they return. It always has 32 bytes.
pub uninterp spec fn hmac_sha256(key: Seq<u8>, message: Seq<u8>) -> Seq<u8>;

/// Computes the HMAC-SHA-256 code of `message` under `key`.
///
/// Trusted: wraps `Hmac::<Sha256>::new_varkey`, `update` and `finalize` of the
/// `hmac` crate. The construction accepts a key of any length (a short key is
/// padded, a long one is hashed first), so the key is never refused. The
/// result depends on the two byte strings alone and has the 32 bytes of a
/// SHA-256 output.
#[verifier::external_body]
fn hmac_sha256_digest(key: &[u8], message: &[u8]) -> (digest: Vec<u8>)
    ensures
        digest@ == hmac_sha256(key@, message@),
        digest@.len() == 32,
{
    let mut mac = Hmac::<Sha256>::new_varkey(key).unwrap();
    mac.update(message);
    mac.finalize().into_bytes().to_vec()
}

/// The lower-case hexadecimal digit for a value below 16.
pub open spec fn lower_hex_digit(n: nat) -> char
    recommends
        n < 16,
{
    if n < 10 {
        ((0x30 + n) as u8) as char
    } else {
        ((0x61 + n - 10) as u8) as char
    }
}

/// A byte string in lower-case hexadecimal: two digits for each byte, the
/// high half first.
pub open spec fn hex_lower(bytes: Seq<u8>) -> Seq<char>
    decreases bytes.len(),
{
    if bytes.len() == 0 {
        Seq::empty()
    } else {
        hex_lower(bytes.drop_last()).push(lower_hex_digit((bytes.last() / 16) as nat)).push(
            lower_hex_digit((bytes.last() % 16) as nat),
        )
    }
}

/// Renders bytes in lower-case hexadecimal.
///
/// Trusted: wraps `hex::encode`, which writes each byte as two lower-case
/// hexadecimal digits, in order.
#[verifier::external_body]
fn hex_encode(bytes: &[u8]) -> (text: String)
    ensures
        text@ == hex_lower(bytes@),
{
    hex::encode(bytes)
}

/// The signature of a query under a secret: the HMAC-SHA-256 code of the
/// query's UTF-8 bytes, keyed by the secret's UTF-8 bytes, in lower-case
/// hexadecimal.
pub open spec fn signature_text(secret: Seq<char>, query: Seq<char>) -> Seq<char> {
    hex_lower(hmac_sha256(encode_utf8(secret), encode_utf8(query)))
}

/// A query with its signature appended as the last pair.
pub open spec fn signed_text(secret: Seq<char>, query: Seq<char>) -> Seq<char> {
    query + "&signature="@ + signature_text(secret, query)
}

/// Hexadecimal text has two characters for each byte.
pub proof fn lemma_hex_lower_len(bytes: Seq<u8>)
    ensures
        hex_lower(bytes).len() == 2 * bytes.len(),
    decreases bytes.len(),
{
    if bytes.len() > 0 {
        lemma_hex_lower_len(bytes.drop_last());
    }
}

/// Signs a query string: returns the signature alone.
///
/// Every secret is accepted, whatever its length. The signature has 64
/// characters.
pub fn signature(secret: &str, query: &str) -> (sig: String)
    ensures
        sig@ == signature_text(secret@, query@),
        sig@.len() == 64,
{
    let digest = hmac_sha256_digest(secret.as_bytes(), query.as_bytes());
    proof {
        lemma_hex_lower_len(digest@);
    }
    hex_encode(digest.as_slice())
}

/// Appends a signature to a query as its last pair.
pub fn with_signature(query: &str, signature: &str) -> (signed: String)
    ensures
        signed@ == query@ + "&signature="@ + signature@,
{
    let mut out = String::from_str(query);
    out.append("&signature=");
    out.append(signature);
    out
}

/// Signs a query string: returns the query followed by `&signature=` and the
/// signature. The signer looks at no field: a timestamp or a receive window
/// is signed like any other text.
pub fn signed_query(secret: &str, query: &str) -> (signed: String)
    ensures
        signed@ == signed_text(secret@, query@),
{
    let sig = signature(secret, query);
    with_signature(query, sig.as_str())
}

/// Signs a parameter value: the signature of its canonical query string.
pub fn sign_fields(secret: &str, fields: &Vec<QueryField>) -> (sig: String)
    ensures
        sig@ == signature_text(secret@, canonical(field_models(fields@))),
        sig@.len() == 64,
{
    let query = canonical_query(fields);
    signature(secret, query.as_str())
}

/// Canonical encoding and signing are functions of the values alone: two
/// parameter values with the same fields, signed under the same secret, give
/// the same canonical query string, the same signature and the same signed
/// query, however often and from wherever they are computed.
pub proof fn lemma_signing_is_deterministic(
    secret_a: Seq<char>,
    fields_a: Seq<FieldModel>,
    secret_b: Seq<char>,
    fields_b: Seq<FieldModel>,
)
    requires
        secret_a == secret_b,
        fields_a == fields_b,
    ensures
        canonical(fields_a) == canonical(fields_b),
        signature_text(secret_a, canonical(fields_a)) == signature_text(
            secret_b,
            canonical(fields_b),
        ),
        signed_text(secret_a, canonical(fields_a)) == signed_text(secret_b, canonical(fields_b)),
{
}

} // verus!
