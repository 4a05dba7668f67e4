use vstd::prelude::*;

use vstd::string::StrSliceExecFns;
use vstd::utf8::{encode_utf8, is_ascii_chars, is_ascii_chars_encode_utf8};

use crate::base64url::{b64url, lemma_b64url_ascii, spec_b64url};
use crate::errors::StoreError;
use crate::textfmt::{
    ascii_string, chars_of_ascii, dec_u64, escape_json, spec_dec, spec_escape,
};

verus! {

#[verifier::external_type_specification]
#[verifier::external_body]
pub struct ExEncodingKey(jsonwebtoken::EncodingKey);

/// The claims a minted credential signs: issuer, validity window, audience
/// and, on the Android-style platform, the requested scope.
#[derive(Debug, PartialEq, Eq)]
pub struct Claims {
    pub iss: String,
    pub iat: u64,
    pub exp: u64,
    pub aud: String,
    pub scope: Option<String>,
}

/// The mathematical shape of a [`Claims`].
pub struct ClaimsView {
    pub iss: Seq<char>,
    pub iat: u64,
    pub exp: u64,
    pub aud: Seq<char>,
    pub scope: Option<Seq<char>>,
}

impl View for Claims {
    type V = ClaimsView;

    open spec fn view(&self) -> ClaimsView {
        ClaimsView {
            iss: self.iss@,
            iat: self.iat,
            exp: self.exp,
            aud: self.aud@,
            scope: match self.scope {
                Some(s) => Some(s@),
                None => None,
            },
        }
    }
}

/// The JSON document a set of claims signs: the fields in fixed order,
/// `scope` only when set, every string escaped.
pub open spec fn spec_claims_json(c: ClaimsView) -> Seq<u8> {
    encode_utf8("{\"iss\":\""@) + spec_escape(encode_utf8(c.iss)) + encode_utf8("\",\"iat\":"@)
        + spec_dec(c.iat as nat) + encode_utf8(",\"exp\":"@) + spec_dec(c.exp as nat)
        + encode_utf8(",\"aud\":\""@) + spec_escape(encode_utf8(c.aud)) + (match c.scope {
        Some(s) => encode_utf8("\",\"scope\":\""@) + spec_escape(encode_utf8(s)),
        None => Seq::<u8>::empty(),
    }) + encode_utf8("\"}"@)
}

/// The header under which the iOS-style credential is signed.
pub open spec fn spec_es256_header(kid: Seq<char>) -> Seq<u8> {
    encode_utf8("{\"typ\":\"JWT\",\"alg\":\"ES256\",\"kid\":\""@) + spec_escape(encode_utf8(kid))
        + encode_utf8("\"}"@)
}

/// The header under which the Android-style assertion is signed.
pub open spec fn spec_rs256_header() -> Seq<u8> {
    encode_utf8("{\"typ\":\"JWT\",\"alg\":\"RS256\"}"@)
}

/// The signing input of a token: the base64url spellings of header and
/// claims, joined by a dot.
pub open spec fn spec_signing_input(header: Seq<u8>, claims: Seq<u8>) -> Seq<u8> {
    spec_b64url(header) + encode_utf8("."@) + spec_b64url(claims)
}

/// The shape of a minted token: the signing input of the given header and
/// claims, a dot, and whatever signature the signing library produced.
pub open spec fn spec_jwt_shape(tok: Seq<char>, header: Seq<u8>, claims: Seq<u8>) -> bool {
    exists|sig: Seq<char>|
        tok == chars_of_ascii(spec_signing_input(header, claims)) + "."@ + sig
}

/// Writes the JSON document a set of claims signs.
pub fn claims_json(c: &Claims) -> (r: Vec<u8>)
    ensures
        r@ == spec_claims_json(c@),
{
    let mut out: Vec<u8> = "{\"iss\":\"".as_bytes_vec();
    let mut part = escape_json(&c.iss.as_str().as_bytes_vec());
    out.append(&mut part);
    let mut part = "\",\"iat\":".as_bytes_vec();
    out.append(&mut part);
    let mut part = dec_u64(c.iat);
    out.append(&mut part);
    let mut part = ",\"exp\":".as_bytes_vec();
    out.append(&mut part);
    let mut part = dec_u64(c.exp);
    out.append(&mut part);
    let mut part = ",\"aud\":\"".as_bytes_vec();
    out.append(&mut part);
    let mut part = escape_json(&c.aud.as_str().as_bytes_vec());
    out.append(&mut part);
    match &c.scope {
        Some(s) => {
            let mut part = "\",\"scope\":\"".as_bytes_vec();
            out.append(&mut part);
            let mut part = escape_json(&s.as_str().as_bytes_vec());
            out.append(&mut part);
        },
        None => {},
    }
    let mut part = "\"}".as_bytes_vec();
    out.append(&mut part);
    proof {
        assert(out@ =~= spec_claims_json(c@));
    }
    out
}

/// Relies on `jsonwebtoken::EncodingKey::from_ec_pem`: reads a PKCS#8
/// elliptic-curve private key out of PEM text, or reports why it cannot.
#[verifier::external_body]
fn ec_key_from_pem(pem: &[u8]) -> (r: Result<jsonwebtoken::EncodingKey, String>) {
    jsonwebtoken::EncodingKey::from_ec_pem(pem).map_err(|e| e.to_string())
}

/// Relies on `jsonwebtoken::EncodingKey::from_rsa_pem`: reads an RSA
/// private key out of PEM text, or reports why it cannot.
#[verifier::external_body]
fn rsa_key_from_pem(pem: &[u8]) -> (r: Result<jsonwebtoken::EncodingKey, String>) {
    jsonwebtoken::EncodingKey::from_rsa_pem(pem).map_err(|e| e.to_string())
}

/// Relies on `jsonwebtoken::crypto::sign` with `Algorithm::ES256`: signs
/// the message with the key and returns the base64url signature text.
/// The signature is randomized, so nothing is claimed of its value.
#[verifier::external_body]
fn sign_es256(message: &[u8], key: &jsonwebtoken::EncodingKey) -> (r: Result<String, String>) {
    jsonwebtoken::crypto::sign(message, key, jsonwebtoken::Algorithm::ES256).map_err(
        |e| e.to_string(),
    )
}

/// Relies on `jsonwebtoken::crypto::sign` with `Algorithm::RS256`: signs
/// the message with the key and returns the base64url signature text.
#[verifier::external_body]
fn sign_rs256(message: &[u8], key: &jsonwebtoken::EncodingKey) -> (r: Result<String, String>) {
    jsonwebtoken::crypto::sign(message, key, jsonwebtoken::Algorithm::RS256).map_err(
        |e| e.to_string(),
    )
}

/// Assembles the signing input and the token around a produced signature.
fn assemble(header: Vec<u8>, claims: Vec<u8>) -> (r: Vec<u8>)
    ensures
        r@ == spec_signing_input(header@, claims@),
        forall|i: int| 0 <= i < r@.len() ==> r@[i] < 128,
{
    let mut input = b64url(&header);
    let mut dot = ".".as_bytes_vec();
    let mut c64 = b64url(&claims);
    proof {
        lemma_b64url_ascii(header@);
        lemma_b64url_ascii(claims@);
        reveal_strlit(".");
        assert(is_ascii_chars("."@));
        is_ascii_chars_encode_utf8("."@);
    }
    input.append(&mut dot);
    input.append(&mut c64);
    input
}

/// Mints the ES256-signed credential of the iOS-style platform: the header
/// carries the key identifier, the claims are signed with the
/// elliptic-curve key read out of `key_pem`.  Whether the key material is
/// usable is the signing library's decision; whatever token comes back has
/// exactly the stated header and claims under the signature.
pub fn build_es256_jwt(kid: &String, claims: &Claims, key_pem: &str) -> (r: Result<
    String,
    StoreError,
>)
    ensures
        match r {
            Ok(tok) => spec_jwt_shape(tok@, spec_es256_header(kid@), spec_claims_json(claims@)),
            Err(e) => e is SigningFailed,
        },
{
    let key = match ec_key_from_pem(key_pem.as_bytes()) {
        Ok(k) => k,
        Err(m) => {
            return Err(StoreError::SigningFailed(m));
        },
    };
    let mut header: Vec<u8> = "{\"typ\":\"JWT\",\"alg\":\"ES256\",\"kid\":\"".as_bytes_vec();
    let mut part = escape_json(&kid.as_str().as_bytes_vec());
    header.append(&mut part);
    let mut part = "\"}".as_bytes_vec();
    header.append(&mut part);
    proof {
        assert(header@ =~= spec_es256_header(kid@));
    }
    let cj = claims_json(claims);
    let input = assemble(header, cj);
    let sig = match sign_es256(input.as_slice(), &key) {
        Ok(s) => s,
        Err(m) => {
            return Err(StoreError::SigningFailed(m));
        },
    };
    let tok = ascii_string(input).concat(".").concat(sig.as_str());
    proof {
        assert(tok@ == chars_of_ascii(
            spec_signing_input(spec_es256_header(kid@), spec_claims_json(claims@)),
        ) + "."@ + sig@);
        assert(spec_jwt_shape(tok@, spec_es256_header(kid@), spec_claims_json(claims@)));
    }
    Ok(tok)
}

/// Mints the RS256-signed assertion of the Android-style platform, signed
/// with the RSA key read out of `key_pem`.
pub fn build_rs256_jwt(claims: &Claims, key_pem: &str) -> (r: Result<String, StoreError>)
    ensures
        match r {
            Ok(tok) => spec_jwt_shape(tok@, spec_rs256_header(), spec_claims_json(claims@)),
            Err(e) => e is SigningFailed,
        },
{
    let key = match rsa_key_from_pem(key_pem.as_bytes()) {
        Ok(k) => k,
        Err(m) => {
            return Err(StoreError::SigningFailed(m));
        },
    };
    let header: Vec<u8> = "{\"typ\":\"JWT\",\"alg\":\"RS256\"}".as_bytes_vec();
    proof {
        assert(header@ =~= spec_rs256_header());
    }
    let cj = claims_json(claims);
    let input = assemble(header, cj);
    let sig = match sign_rs256(input.as_slice(), &key) {
        Ok(s) => s,
        Err(m) => {
            return Err(StoreError::SigningFailed(m));
        },
    };
    let tok = ascii_string(input).concat(".").concat(sig.as_str());
    proof {
        assert(tok@ == chars_of_ascii(
            spec_signing_input(spec_rs256_header(), spec_claims_json(claims@)),
        ) + "."@ + sig@);
        assert(spec_jwt_shape(tok@, spec_rs256_header(), spec_claims_json(claims@)));
    }
    Ok(tok)
}

} // verus!
