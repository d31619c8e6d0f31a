//! Signature engine: the layered hash-then-HMAC request signature.
//!
//! A signature binds a request to both its body and its endpoint path:
//! the nonce and body are hashed with SHA-256, the path and that digest
//! are authenticated with HMAC-SHA-512 under the decoded secret key,
//! and the tag travels base64-encoded. The hash and codec primitives
//! come from outside crates; their results are named here and every
//! step around them is verified against those names.

use vstd::prelude::*;
use crypto::digest::Digest;
use crypto::mac::Mac;
use crate::BuildError;

verus! {

/// The SHA-256 digest of a message.
pub uninterp spec fn sha256_of(msg: Seq<u8>) -> Seq<u8>;

/// The HMAC-SHA-512 tag of a message under a key.
pub uninterp spec fn hmac_sha512_of(key: Seq<u8>, msg: Seq<u8>) -> Seq<u8>;

/// The standard base64 encoding (padded) of a byte string, as ASCII bytes.
pub uninterp spec fn b64_encode_of(data: Seq<u8>) -> Seq<u8>;

/// The standard base64 decoding of a byte string: `Some` of the decoded
/// bytes, or `None` when the input is not valid base64.
pub uninterp spec fn b64_decode_of(data: Seq<u8>) -> Option<Seq<u8>>;

/// Relies on crypto::sha2::Sha256 through crypto::digest::Digest: the
/// 32-byte SHA-256 digest, a function of the message bytes alone.
#[verifier::external_body]
fn sha256_digest(msg: &[u8]) -> (r: Vec<u8>)
    ensures
        r@ == sha256_of(msg@),
        r@.len() == 32,
{
    let mut h = crypto::sha2::Sha256::new();
    h.input(msg);
    let mut out: [u8; 32] = [0; 32];
    h.result(&mut out);
    out.to_vec()
}

/// Relies on crypto::hmac::Hmac over crypto::sha2::Sha512: the 64-byte
/// HMAC-SHA-512 tag, a function of the key and message bytes alone.
#[verifier::external_body]
fn hmac_sha512_tag(key: &[u8], msg: &[u8]) -> (r: Vec<u8>)
    ensures
        r@ == hmac_sha512_of(key@, msg@),
        r@.len() == 64,
{
    let mut mac = crypto::hmac::Hmac::new(crypto::sha2::Sha512::new(), key);
    mac.input(msg);
    mac.result().code().to_vec()
}

/// Relies on base64::encode (standard alphabet, padded): the encoding
/// is a function of the input bytes alone, and base64::decode inverts it.
#[verifier::external_body]
fn b64_encode(data: &[u8]) -> (r: Vec<u8>)
    ensures
        r@ == b64_encode_of(data@),
        b64_decode_of(r@) == Some(data@),
{
    base64::encode(data).into_bytes()
}

/// Relies on base64::decode: `Ok` exactly on valid standard base64,
/// with a result that is a function of the input bytes alone.
#[verifier::external_body]
fn b64_decode(data: &[u8]) -> (r: Option<Vec<u8>>)
    ensures
        match r {
            Some(v) => b64_decode_of(data@) == Some(v@),
            None => b64_decode_of(data@) is None,
        },
{
    match base64::decode(data) {
        Ok(v) => Some(v),
        Err(_) => None,
    }
}

/// The HMAC-SHA-512 tag over the path and the digest of nonce and body,
/// under the raw (already decoded) key.
pub open spec fn mac_of(key: Seq<u8>, path: Seq<u8>, nonce: Seq<u8>, body: Seq<u8>) -> Seq<u8> {
    hmac_sha512_of(key, path + sha256_of(nonce + body))
}

/// The full signature computation: decode the base64 secret, hash nonce
/// and body with SHA-256, tag the path and digest with HMAC-SHA-512
/// under the decoded key, and base64-encode the tag. `None` when the
/// secret is not valid base64.
pub open spec fn signature_of(
    secret: Seq<u8>,
    path: Seq<u8>,
    nonce: Seq<u8>,
    body: Seq<u8>,
) -> Option<Seq<u8>> {
    match b64_decode_of(secret) {
        Some(key) => Some(b64_encode_of(mac_of(key, path, nonce, body))),
        None => None,
    }
}

/// Derives the authentication signature for one request. Succeeds
/// exactly when the base64 `secret` decodes; the result is pinned to
/// the signature computation, and decodes back to the 64-byte tag.
pub fn sign(secret: &[u8], path: &[u8], nonce: &[u8], body: &[u8]) -> (r: Result<
    Vec<u8>,
    BuildError,
>)
    ensures
        r is Ok <==> b64_decode_of(secret@) is Some,
        match r {
            Ok(sig) => match b64_decode_of(secret@) {
                Some(key) => {
                    &&& signature_of(secret@, path@, nonce@, body@) == Some(sig@)
                    &&& sig@ == b64_encode_of(mac_of(key, path@, nonce@, body@))
                    &&& b64_decode_of(sig@) == Some(mac_of(key, path@, nonce@, body@))
                    &&& mac_of(key, path@, nonce@, body@).len() == 64
                },
                None => false,
            },
            Err(e) => e == BuildError::Configuration,
        },
{
    let key = match b64_decode(secret) {
        Some(k) => k,
        None => {
            return Err(BuildError::Configuration);
        },
    };
    let mut inner_msg: Vec<u8> = Vec::new();
    inner_msg.extend_from_slice(nonce);
    inner_msg.extend_from_slice(body);
    proof {
        assert(inner_msg@ =~= nonce@ + body@);
    }
    let digest = sha256_digest(inner_msg.as_slice());
    let mut mac_msg: Vec<u8> = Vec::new();
    mac_msg.extend_from_slice(path);
    mac_msg.extend_from_slice(digest.as_slice());
    proof {
        assert(mac_msg@ =~= path@ + sha256_of(nonce@ + body@));
    }
    let tag = hmac_sha512_tag(key.as_slice(), mac_msg.as_slice());
    let sig = b64_encode(tag.as_slice());
    Ok(sig)
}

/// Determinism: the signature is a function of the secret, path, nonce
/// and body alone — two successful signings of the same inputs return
/// the same bytes.
pub proof fn lemma_sign_deterministic(
    secret: Seq<u8>,
    path: Seq<u8>,
    nonce: Seq<u8>,
    body: Seq<u8>,
    s1: Seq<u8>,
    s2: Seq<u8>,
)
    requires
        signature_of(secret, path, nonce, body) == Some(s1),
        signature_of(secret, path, nonce, body) == Some(s2),
    ensures
        s1 == s2,
{
}

} // verus!
