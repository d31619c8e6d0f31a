//! The signed-request builder: the sole entry point of the signing core.
//!
//! `build` derives the private-method path, draws a fresh nonce,
//! injects it into the parameter set, encodes the canonical body, signs
//! it, and assembles the full request descriptor. The returned body is
//! exactly the byte string that was hashed: nothing is re-derived or
//! reformatted after signing.

use vstd::prelude::*;
use crate::BuildError;
use crate::dec::dec_of;
use crate::nonce::{NonceGenerator, clock_now};
use crate::params::{ParameterSet, encoded, keys_sorted, pairs_map};
use crate::sign::{b64_decode_of, sign, signature_of};

verus! {

/// The fixed path prefix of private API methods: `/0/private/`.
pub open spec fn private_prefix() -> Seq<u8> {
    seq![47u8, 48u8, 47u8, 112u8, 114u8, 105u8, 118u8, 97u8, 116u8, 101u8, 47u8]
}

/// The fixed host every request is addressed to: `https://api.kraken.com`.
pub open spec fn api_host() -> Seq<u8> {
    seq![
        104u8, 116u8, 116u8, 112u8, 115u8, 58u8, 47u8, 47u8, 97u8, 112u8, 105u8, 46u8, 107u8,
        114u8, 97u8, 107u8, 101u8, 110u8, 46u8, 99u8, 111u8, 109u8,
    ]
}

/// The name of the injected nonce parameter: `nonce`.
pub open spec fn nonce_key() -> Seq<u8> {
    seq![110u8, 111u8, 110u8, 99u8, 101u8]
}

/// The fixed request method: `POST`.
pub open spec fn post_method() -> Seq<u8> {
    seq![80u8, 79u8, 83u8, 84u8]
}

/// The name of the nonce parameter, as owned bytes.
pub fn nonce_key_bytes() -> (r: Vec<u8>)
    ensures
        r@ == nonce_key(),
{
    let r: Vec<u8> = vec![110u8, 111u8, 110u8, 99u8, 101u8];
    proof {
        assert(r@ =~= nonce_key());
    }
    r
}

/// The private-method path for `method`: the fixed prefix, then the name.
pub fn private_path(method: &[u8]) -> (r: Vec<u8>)
    ensures
        r@ == private_prefix() + method@,
{
    let mut r: Vec<u8> = vec![
        47u8, 48u8, 47u8, 112u8, 114u8, 105u8, 118u8, 97u8, 116u8, 101u8, 47u8,
    ];
    r.extend_from_slice(method);
    proof {
        assert(r@ =~= private_prefix() + method@);
    }
    r
}

/// The absolute endpoint URL for `path`: the fixed host, then the path.
pub fn endpoint_url(path: &[u8]) -> (r: Vec<u8>)
    ensures
        r@ == api_host() + path@,
{
    let mut r: Vec<u8> = vec![
        104u8, 116u8, 116u8, 112u8, 115u8, 58u8, 47u8, 47u8, 97u8, 112u8, 105u8, 46u8, 107u8,
        114u8, 97u8, 107u8, 101u8, 110u8, 46u8, 99u8, 111u8, 109u8,
    ];
    r.extend_from_slice(path);
    proof {
        assert(r@ =~= api_host() + path@);
    }
    r
}

/// A credential: the public key identifier and the base64-encoded
/// shared secret. Owned by the caller and passed by reference into each
/// build; never echoed anywhere but the identity header.
pub struct Account {
    /// Public API key identifier, sent as the identity header.
    pub key: Vec<u8>,
    /// Base64-encoded secret the signatures are keyed with.
    pub secret: Vec<u8>,
}

/// A fully authenticated request descriptor, ready for transport.
pub struct SignedRequest {
    /// The request method; always `POST` for this protocol.
    pub method: Vec<u8>,
    /// Absolute endpoint URL: host plus private-method path.
    pub url: Vec<u8>,
    /// Value of the identity header: the credential's key.
    pub api_key: Vec<u8>,
    /// Value of the signature header: the base64 signature.
    pub signature: Vec<u8>,
    /// The nonce injected into the body, as a decimal string.
    pub nonce: Vec<u8>,
    /// The canonical body; byte-identical to what was signed.
    pub body: Vec<u8>,
}

/// What a successfully built request descriptor looks like: fixed
/// method, host and path; the caller's key in the identity header; the
/// nonce rendered from `counter`; the body the canonical encoding of
/// the parameters with the nonce injected; and the signature the full
/// signature computation over exactly that path, nonce and body.
pub open spec fn built_ok(
    req: SignedRequest,
    key: Seq<u8>,
    secret: Seq<u8>,
    method: Seq<u8>,
    params: Map<Seq<u8>, Seq<u8>>,
    counter: nat,
) -> bool {
    &&& req.method@ == post_method()
    &&& req.url@ == api_host() + private_prefix() + method
    &&& req.api_key@ == key
    &&& req.nonce@ == dec_of(counter)
    &&& (exists|ps: Seq<(Seq<u8>, Seq<u8>)>|
        {
            &&& keys_sorted(ps)
            &&& pairs_map(ps) == params.insert(nonce_key(), req.nonce@)
            &&& req.body@ == encoded(ps)
        })
    &&& signature_of(secret, private_prefix() + method, req.nonce@, req.body@) == Some(
        req.signature@,
    )
}

/// Builds the signed request for one already-made clock reading.
/// Succeeds exactly when the credential's secret is valid base64; the
/// nonce counter strictly advances either way.
pub fn build_at(
    account: &Account,
    method: &[u8],
    params: ParameterSet,
    gen: &mut NonceGenerator,
    secs: u64,
    nanos: u32,
) -> (r: Result<SignedRequest, BuildError>)
    requires
        old(gen).last < u128::MAX,
        params.wf(),
        !params.as_map().dom().contains(nonce_key()),
    ensures
        r is Ok <==> b64_decode_of(account.secret@) is Some,
        final(gen).last > old(gen).last,
        match r {
            Ok(req) => built_ok(
                req,
                account.key@,
                account.secret@,
                method@,
                params.as_map(),
                final(gen).last as nat,
            ),
            Err(e) => e == BuildError::Configuration,
        },
{
    let nonce = gen.next_at(secs, nanos);
    let path = private_path(method);
    let mut p = params;
    p.insert(nonce_key_bytes(), nonce.clone());
    let body = p.encode();
    let sig = match sign(
        account.secret.as_slice(),
        path.as_slice(),
        nonce.as_slice(),
        body.as_slice(),
    ) {
        Ok(s) => s,
        Err(e) => {
            return Err(e);
        },
    };
    let url = endpoint_url(path.as_slice());
    let post: Vec<u8> = vec![80u8, 79u8, 83u8, 84u8];
    proof {
        assert(post@ =~= post_method());
    }
    let req = SignedRequest {
        method: post,
        url,
        api_key: account.key.clone(),
        signature: sig,
        nonce,
        body,
    };
    proof {
        let ps = p@;
        assert(keys_sorted(ps));
        assert(pairs_map(ps) == params.as_map().insert(nonce_key(), req.nonce@));
        assert(req.body@ == encoded(ps));
        assert(req.url@ =~= api_host() + private_prefix() + method@);
    }
    Ok(req)
}

/// Builds the signed request for one call: reads the clock, draws the
/// nonce, encodes, signs and assembles. Fails with `Clock` when the
/// clock cannot be read (the generator then stands unchanged) and with
/// `Configuration` exactly when the secret is not valid base64.
pub fn build(
    account: &Account,
    method: &[u8],
    params: ParameterSet,
    gen: &mut NonceGenerator,
) -> (r: Result<SignedRequest, BuildError>)
    requires
        old(gen).last < u128::MAX,
        params.wf(),
        !params.as_map().dom().contains(nonce_key()),
    ensures
        final(gen).last >= old(gen).last,
        match r {
            Ok(req) => {
                &&& b64_decode_of(account.secret@) is Some
                &&& final(gen).last > old(gen).last
                &&& built_ok(
                    req,
                    account.key@,
                    account.secret@,
                    method@,
                    params.as_map(),
                    final(gen).last as nat,
                )
            },
            Err(e) => e == BuildError::Clock || (e == BuildError::Configuration
                && b64_decode_of(account.secret@) is None),
        },
{
    let (secs, nanos) = match clock_now() {
        Some(t) => t,
        None => {
            return Err(BuildError::Clock);
        },
    };
    build_at(account, method, params, gen, secs, nanos)
}

/// The name of the balance endpoint: `Balance`.
pub open spec fn balance_method() -> Seq<u8> {
    seq![66u8, 97u8, 108u8, 97u8, 110u8, 99u8, 101u8]
}

/// The name of the order-placing endpoint: `AddOrder`.
pub open spec fn add_order_method() -> Seq<u8> {
    seq![65u8, 100u8, 100u8, 79u8, 114u8, 100u8, 101u8, 114u8]
}

/// Builds the signed balance request: the balance endpoint with an
/// empty parameter set, so its body carries the nonce alone.
pub fn balance_request(account: &Account, gen: &mut NonceGenerator) -> (r: Result<
    SignedRequest,
    BuildError,
>)
    requires
        old(gen).last < u128::MAX,
    ensures
        final(gen).last >= old(gen).last,
        match r {
            Ok(req) => {
                &&& b64_decode_of(account.secret@) is Some
                &&& final(gen).last > old(gen).last
                &&& built_ok(
                    req,
                    account.key@,
                    account.secret@,
                    balance_method(),
                    Map::empty(),
                    final(gen).last as nat,
                )
            },
            Err(e) => e == BuildError::Clock || (e == BuildError::Configuration
                && b64_decode_of(account.secret@) is None),
        },
{
    let method: Vec<u8> = vec![66u8, 97u8, 108u8, 97u8, 110u8, 99u8, 101u8];
    proof {
        assert(method@ =~= balance_method());
    }
    let params = ParameterSet::new();
    build(account, method.as_slice(), params, gen)
}

/// Builds the signed order-placing request for `order`: the order
/// endpoint with the order's parameter mapping.
pub fn add_order_request(
    account: &Account,
    order: crate::order::NewOrder,
    gen: &mut NonceGenerator,
) -> (r: Result<SignedRequest, BuildError>)
    requires
        old(gen).last < u128::MAX,
    ensures
        final(gen).last >= old(gen).last,
        match r {
            Ok(req) => {
                &&& b64_decode_of(account.secret@) is Some
                &&& final(gen).last > old(gen).last
                &&& built_ok(
                    req,
                    account.key@,
                    account.secret@,
                    add_order_method(),
                    crate::order::order_params_map(order),
                    final(gen).last as nat,
                )
            },
            Err(e) => e == BuildError::Clock || (e == BuildError::Configuration
                && b64_decode_of(account.secret@) is None),
        },
{
    let method: Vec<u8> = vec![65u8, 100u8, 100u8, 79u8, 114u8, 100u8, 101u8, 114u8];
    proof {
        assert(method@ =~= add_order_method());
    }
    let params = crate::order::order_params(order);
    proof {
        let m = crate::order::order_params_map(order);
        assert(!m.dom().contains(nonce_key()));
    }
    build(account, method.as_slice(), params, gen)
}

} // verus!
