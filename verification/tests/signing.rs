use crypto::digest::Digest;
use crypto::mac::Mac;
use kraken_signer::nonce::NonceGenerator;
use kraken_signer::request::{add_order_request, balance_request, build, build_at, Account};
use kraken_signer::sign::sign;
use kraken_signer::params::ParameterSet;
use kraken_signer::order::{NewOrder, OrderDirection, OrderType};
use kraken_signer::BuildError;

fn b(s: &str) -> Vec<u8> {
    s.as_bytes().to_vec()
}

/// Base64 of the 32-byte key 00 01 02 ... 1f.
const TEST_SECRET: &str = "AAECAwQFBgcICQoLDA0ODxAREhMUFRYXGBkaGxwdHh8=";

fn test_order() -> NewOrder {
    NewOrder {
        pair: b("SOLUSD"),
        order_direction: OrderDirection::Buy,
        order_type: OrderType::Limit,
        price: Some(b("154.00")),
        price2: None,
        volume: Some(b("2")),
        leverage: None,
        oflags: None,
        starttm: None,
        expiretm: None,
        userref: None,
        validate: Some(true),
    }
}

/// Recomputes the layered signature independently of the library:
/// SHA-256 over nonce ++ body, HMAC-SHA-512 over path ++ digest under
/// the decoded secret, base64-encoded.
fn reference_signature(secret: &str, path: &[u8], nonce: &[u8], body: &[u8]) -> Vec<u8> {
    let key = base64::decode(secret).unwrap();
    let mut hasher = crypto::sha2::Sha256::new();
    hasher.input(nonce);
    hasher.input(body);
    let mut digest = [0u8; 32];
    hasher.result(&mut digest);
    let mut mac = crypto::hmac::Hmac::new(crypto::sha2::Sha512::new(), &key);
    mac.input(path);
    mac.input(&digest);
    base64::encode(mac.result().code()).into_bytes()
}

#[test]
fn sign_known_vector() {
    let sig = sign(
        TEST_SECRET.as_bytes(),
        b"/0/private/Balance",
        b"1616492376594",
        b"nonce=1616492376594",
    )
    .unwrap();
    assert_eq!(
        sig,
        b("GPbZTmbO/Va8fwTjsl8l3BQCXkE5h76PFpULWt+91/7gtoU/kPbAfpc2j2YzEfXVxqaL/nLaFdc7L5KV1PJFZA==")
    );
}

#[test]
fn sign_matches_independent_computation() {
    let path = b"/0/private/Balance";
    let nonce = b"1616492376594";
    let body = b"nonce=1616492376594";
    let sig = sign(TEST_SECRET.as_bytes(), path, nonce, body).unwrap();
    assert_eq!(sig, reference_signature(TEST_SECRET, path, nonce, body));
}

#[test]
fn sign_is_deterministic() {
    let path = b"/0/private/Balance";
    let nonce = b"1616492376594";
    let body = b"nonce=1616492376594&pair=XBTUSD";
    let s1 = sign(TEST_SECRET.as_bytes(), path, nonce, body).unwrap();
    let s2 = sign(TEST_SECRET.as_bytes(), path, nonce, body).unwrap();
    assert_eq!(s1, s2);
}

#[test]
fn sign_decodes_to_64_bytes() {
    let sig = sign(
        TEST_SECRET.as_bytes(),
        b"/0/private/Balance",
        b"1616492376594",
        b"nonce=1616492376594",
    )
    .unwrap();
    let mac = base64::decode(&sig).unwrap();
    assert_eq!(mac.len(), 64);
}

#[test]
fn sign_rejects_invalid_secret() {
    let r = sign(b"!!not-base64!!", b"/0/private/Balance", b"1", b"nonce=1");
    assert_eq!(r, Err(BuildError::Configuration));
}

#[test]
fn sign_tamper_sensitivity() {
    let path = b("/0/private/Balance");
    let nonce = b("1616492376594");
    let body = b("nonce=1616492376594");
    let baseline = sign(TEST_SECRET.as_bytes(), &path, &nonce, &body).unwrap();
    for i in 0..body.len() {
        let mut t = body.clone();
        t[i] ^= 1;
        let sig = sign(TEST_SECRET.as_bytes(), &path, &nonce, &t).unwrap();
        assert_ne!(sig, baseline, "body byte {} did not affect the signature", i);
    }
    for i in 0..path.len() {
        let mut t = path.clone();
        t[i] ^= 1;
        let sig = sign(TEST_SECRET.as_bytes(), &t, &nonce, &body).unwrap();
        assert_ne!(sig, baseline, "path byte {} did not affect the signature", i);
    }
    for i in 0..nonce.len() {
        let mut t = nonce.clone();
        t[i] ^= 1;
        let sig = sign(TEST_SECRET.as_bytes(), &path, &t, &body).unwrap();
        assert_ne!(sig, baseline, "nonce byte {} did not affect the signature", i);
    }
}

#[test]
fn nonce_renders_clock_reading() {
    let mut gen = NonceGenerator::new();
    let n = gen.next_at(1616492376, 594000000);
    assert_eq!(n, b("1616492376594000000"));
}

#[test]
fn nonce_strictly_increases_on_stalled_clock() {
    let mut gen = NonceGenerator::new();
    let n1 = gen.next_at(5, 7);
    let n2 = gen.next_at(5, 7);
    let n3 = gen.next_at(4, 0);
    assert_eq!(n1, b("5000000007"));
    assert_eq!(n2, b("5000000008"));
    assert_eq!(n3, b("5000000009"));
}

#[test]
fn nonce_sequence_parses_increasing() {
    let mut gen = NonceGenerator::new();
    let mut prev: u128 = 0;
    for _ in 0..100 {
        let n = gen.next().unwrap();
        let val: u128 = String::from_utf8(n).unwrap().parse().unwrap();
        assert!(val > prev);
        prev = val;
    }
}

#[test]
fn build_at_known_time() {
    let account = Account {
        key: b("api-key-id"),
        secret: b(TEST_SECRET),
    };
    let mut gen = NonceGenerator::new();
    let req = build_at(
        &account,
        b"Balance",
        ParameterSet::new(),
        &mut gen,
        1616492376,
        594000000,
    )
    .unwrap();
    assert_eq!(req.method, b("POST"));
    assert_eq!(req.url, b("https://api.kraken.com/0/private/Balance"));
    assert_eq!(req.api_key, b("api-key-id"));
    assert_eq!(req.nonce, b("1616492376594000000"));
    assert_eq!(req.body, b("nonce=1616492376594000000"));
}

#[test]
fn build_signature_reproducible_from_returned_parts() {
    let account = Account {
        key: b("api-key-id"),
        secret: b(TEST_SECRET),
    };
    let mut gen = NonceGenerator::new();
    let mut params = ParameterSet::new();
    params.insert(b("pair"), b("XBTUSD"));
    params.insert(b("type"), b("buy"));
    let req = build(&account, b"AddOrder", params, &mut gen).unwrap();
    let path = b("/0/private/AddOrder");
    assert_eq!(
        req.signature,
        reference_signature(TEST_SECRET, &path, &req.nonce, &req.body)
    );
    let mut url = b("https://api.kraken.com");
    url.extend_from_slice(&path);
    assert_eq!(req.url, url);
}

#[test]
fn build_body_carries_sorted_params_and_nonce() {
    let account = Account {
        key: b("k"),
        secret: b(TEST_SECRET),
    };
    let mut gen = NonceGenerator::new();
    let mut params = ParameterSet::new();
    params.insert(b("pair"), b("XBTUSD"));
    let req = build_at(&account, b"AddOrder", params, &mut gen, 3, 1).unwrap();
    assert_eq!(req.body, b("nonce=3000000001&pair=XBTUSD"));
}

#[test]
fn build_rejects_invalid_secret() {
    let account = Account {
        key: b("k"),
        secret: b("%%%"),
    };
    let mut gen = NonceGenerator::new();
    let r = build(&account, b"Balance", ParameterSet::new(), &mut gen);
    assert_eq!(r.err(), Some(BuildError::Configuration));
}

#[test]
fn balance_request_signs_nonce_only_body() {
    let account = Account {
        key: b("k"),
        secret: b(TEST_SECRET),
    };
    let mut gen = NonceGenerator::new();
    let req = balance_request(&account, &mut gen).unwrap();
    assert_eq!(req.url, b("https://api.kraken.com/0/private/Balance"));
    let mut expected = b("nonce=");
    expected.extend_from_slice(&req.nonce);
    assert_eq!(req.body, expected);
    let sig = reference_signature(TEST_SECRET, b"/0/private/Balance", &req.nonce, &req.body);
    assert_eq!(req.signature, sig);
}

#[test]
fn add_order_request_carries_order_params() {
    let account = Account {
        key: b("k"),
        secret: b(TEST_SECRET),
    };
    let mut gen = NonceGenerator::new();
    let req = add_order_request(&account, test_order(), &mut gen).unwrap();
    assert_eq!(req.url, b("https://api.kraken.com/0/private/AddOrder"));
    let mut expected = b("nonce=");
    expected.extend_from_slice(&req.nonce);
    expected.extend_from_slice(
        b"&ordertype=limit&pair=SOLUSD&price=154.00&type=buy&validate=1&volume=2",
    );
    assert_eq!(req.body, expected);
    let sig = reference_signature(TEST_SECRET, b"/0/private/AddOrder", &req.nonce, &req.body);
    assert_eq!(req.signature, sig);
}
