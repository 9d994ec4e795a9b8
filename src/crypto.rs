//! The signature that private end-points require: an HMAC-SHA512, keyed by the
//! base64-decoded account secret, over the request path followed by the
//! SHA-256 digest of the nonce and the request body; sent base64-encoded.

use vstd::prelude::*;
use vstd::string::StringSliceAdditionalSpecFns;
use vstd::utf8::encode_utf8;

use crate::error::ApiError;

verus! {

/// What `openssl::base64::decode_block` makes of a text: the decoded bytes,
/// or `None` where it refuses the text.
pub uninterp spec fn base64_decoded(s: Seq<char>) -> Option<Seq<u8>>;

/// The character of a six-bit value in the standard base64 alphabet.
pub open spec fn base64_char(v: int) -> char {
    if v < 26 {
        ((65 + v) as u8) as char
    } else if v < 52 {
        ((97 + v - 26) as u8) as char
    } else if v < 62 {
        ((48 + v - 52) as u8) as char
    } else if v == 62 {
        '+'
    } else {
        '/'
    }
}

/// Standard base64 with `=` padding and no line breaks: four characters for
/// each group of three bytes, the last group padded.
pub open spec fn base64_encoded(b: Seq<u8>) -> Seq<char>
    decreases b.len(),
{
    if b.len() == 0 {
        seq![]
    } else if b.len() == 1 {
        let x = b[0] as int;
        seq![base64_char(x / 4), base64_char((x % 4) * 16), '=', '=']
    } else if b.len() == 2 {
        let x = b[0] as int;
        let y = b[1] as int;
        seq![base64_char(x / 4), base64_char((x % 4) * 16 + y / 16), base64_char((y % 16) * 4), '=']
    } else {
        let x = b[0] as int;
        let y = b[1] as int;
        let z = b[2] as int;
        seq![
            base64_char(x / 4),
            base64_char((x % 4) * 16 + y / 16),
            base64_char((y % 16) * 4 + z / 64),
            base64_char(z % 64),
        ] + base64_encoded(b.subrange(3, b.len() as int))
    }
}

/// The SHA-256 digest of bytes, as `openssl::hash::hash` computes it.
pub uninterp spec fn sha256_of(b: Seq<u8>) -> Seq<u8>;

/// The HMAC-SHA512 of a message under a key, as openssl's `Signer` computes it.
pub uninterp spec fn hmac_sha512_of(key: Seq<u8>, msg: Seq<u8>) -> Seq<u8>;

/// Largest length that openssl's base64 decoding and HMAC functions take.
pub const C_INT_MAX: usize = 0x7fff_ffff;

/// Largest length that `openssl::base64::encode_block` takes: above it, the
/// length of the encoding (four characters for every three bytes begun, and a
/// terminating nul) overflows a C int.
pub const ENCODE_MAX: usize = 0x5fff_fffd;

/// Relies on `openssl::base64::decode_block`: whether it succeeds, and the
/// decoded bytes, depend on the text alone. It panics above a C int's worth of
/// bytes.
#[verifier::external_body]
fn base64_decode(s: &str) -> (r: Option<Vec<u8>>)
    requires
        s.spec_bytes().len() <= C_INT_MAX,
    ensures
        match r {
            Some(v) => base64_decoded(s@) == Some(v@),
            None => base64_decoded(s@) is None,
        },
{
    openssl::base64::decode_block(s).ok()
}

/// Relies on `openssl::base64::encode_block` (`EVP_EncodeBlock`): standard
/// base64 with padding and no line breaks. It panics where the input or the
/// length of its encoding overflows a C int.
#[verifier::external_body]
fn base64_encode(b: &[u8]) -> (r: String)
    requires
        b@.len() <= ENCODE_MAX,
    ensures
        r@ == base64_encoded(b@),
{
    openssl::base64::encode_block(b)
}

/// Relies on `openssl::hash::hash` with `MessageDigest::sha256`: on success,
/// the digest of the bytes.
#[verifier::external_body]
fn sha256(b: &[u8]) -> (r: Option<Vec<u8>>)
    ensures
        r matches Some(v) ==> v@ == sha256_of(b@),
{
    openssl::hash::hash(openssl::hash::MessageDigest::sha256(), b).ok().map(|d| d.to_vec())
}

/// Relies on `openssl::pkey::PKey::hmac` and `openssl::sign::Signer` with
/// `MessageDigest::sha512`: on success, the MAC of the message under the key.
/// `PKey::hmac` panics on a key above a C int's worth of bytes.
#[verifier::external_body]
fn hmac_sha512(key: &[u8], msg: &[u8]) -> (r: Option<Vec<u8>>)
    requires
        key@.len() <= C_INT_MAX,
    ensures
        r matches Some(v) ==> v@ == hmac_sha512_of(key@, msg@),
{
    let pkey = openssl::pkey::PKey::hmac(key).ok()?;
    let mut signer =
        openssl::sign::Signer::new(openssl::hash::MessageDigest::sha512(), &pkey).ok()?;
    signer.update(msg).ok()?;
    signer.sign_to_vec().ok()
}

/// The bytes that the MAC covers: the request path, then the digest of the
/// nonce followed by the body.
pub open spec fn signing_input(path: Seq<char>, nonce: Seq<char>, body: Seq<char>) -> Seq<u8> {
    encode_utf8(path) + sha256_of(encode_utf8(nonce) + encode_utf8(body))
}

/// The `API-Sign` value for a request, given the account secret as text.
pub open spec fn signature(
    secret: Seq<char>,
    path: Seq<char>,
    nonce: Seq<char>,
    body: Seq<char>,
) -> Seq<char> {
    base64_encoded(
        hmac_sha512_of(base64_decoded(secret)->Some_0, signing_input(path, nonce, body)),
    )
}

/// The signature is a function of the secret, the path, the nonce and the
/// body: two requests that agree on all four carry the same signature.
pub proof fn lemma_signature_deterministic(
    secret1: Seq<char>,
    path1: Seq<char>,
    nonce1: Seq<char>,
    body1: Seq<char>,
    secret2: Seq<char>,
    path2: Seq<char>,
    nonce2: Seq<char>,
    body2: Seq<char>,
)
    requires
        secret1 == secret2,
        path1 == path2,
        nonce1 == nonce2,
        body1 == body2,
    ensures
        signature(secret1, path1, nonce1, body1) == signature(secret2, path2, nonce2, body2),
        signing_input(path1, nonce1, body1) == signing_input(path2, nonce2, body2),
{
}

/// Appends the bytes of `src` to `dst`.
fn append_bytes(dst: &mut Vec<u8>, src: &[u8])
    ensures
        final(dst)@ == old(dst)@ + src@,
{
    let mut i: usize = 0;
    while i < src.len()
        invariant
            i <= src@.len(),
            dst@ == old(dst)@ + src@.subrange(0, i as int),
        decreases src@.len() - i,
    {
        dst.push(src[i]);
        i = i + 1;
        assert(src@.subrange(0, i as int) == src@.subrange(0, i - 1).push(src@[i - 1]));
    }
    assert(src@.subrange(0, src@.len() as int) == src@);
}

/// The bytes whose SHA-256 digest the signature covers: the nonce, then the
/// body, each in UTF-8.
pub fn digest_message(nonce: &str, body: &str) -> (r: Vec<u8>)
    ensures
        r@ == encode_utf8(nonce@) + encode_utf8(body@),
{
    let mut message: Vec<u8> = Vec::new();
    append_bytes(&mut message, nonce.as_bytes());
    append_bytes(&mut message, body.as_bytes());
    message
}

/// The bytes that the MAC covers, given the digest of the nonce and body:
/// the path in UTF-8, then the digest.
pub fn mac_message(path: &str, digest: &[u8]) -> (r: Vec<u8>)
    ensures
        r@ == encode_utf8(path@) + digest@,
{
    let mut input: Vec<u8> = Vec::new();
    append_bytes(&mut input, path.as_bytes());
    append_bytes(&mut input, digest);
    input
}

/// Computes the `API-Sign` value for a private request to `path` (for
/// instance `/0/private/Balance`) with the given nonce and body.
///
/// The result depends on the four values alone. It is `SigningFailure` where
/// the secret is not base64, and where openssl fails while hashing.
pub fn sign(secret: &str, path: &str, nonce: &str, body: &str) -> (r: Result<String, ApiError>)
    requires
        secret.spec_bytes().len() <= C_INT_MAX,
    ensures
        r matches Ok(s) ==> s@ == signature(secret@, path@, nonce@, body@),
        r matches Err(e) ==> e == ApiError::SigningFailure,
        base64_decoded(secret@) is None ==> r == Err::<String, ApiError>(ApiError::SigningFailure),
{
    let key = match base64_decode(secret) {
        Some(k) => k,
        None => {
            return Err(ApiError::SigningFailure);
        },
    };
    if key.len() > C_INT_MAX {
        return Err(ApiError::SigningFailure);
    }
    let message = digest_message(nonce, body);
    let digest = match sha256(message.as_slice()) {
        Some(d) => d,
        None => {
            return Err(ApiError::SigningFailure);
        },
    };
    let input = mac_message(path, digest.as_slice());
    let mac = match hmac_sha512(key.as_slice(), input.as_slice()) {
        Some(m) => m,
        None => {
            return Err(ApiError::SigningFailure);
        },
    };
    if mac.len() > ENCODE_MAX {
        return Err(ApiError::SigningFailure);
    }
    Ok(base64_encode(mac.as_slice()))
}

} // verus!
