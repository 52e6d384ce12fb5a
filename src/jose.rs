//! The calls into the JOSE, base64 and JSON crates, each behind a small
//! trusted item whose contract states what the crate's source shows.
use vstd::prelude::*;
use base64::Engine;
use jsonwebtoken::Algorithm as A;
use jsonwebtoken::errors::ErrorKind;
use crate::json::JsonValue;

verus! {

/// The signing algorithms that a JWS header can declare.
#[derive(Clone, Copy, Debug, PartialEq, Eq, Structural)]
pub enum SigningAlgorithm {
    HS256,
    HS384,
    HS512,
    ES256,
    ES384,
    RS256,
    RS384,
    RS512,
    PS256,
    PS384,
    PS512,
    EdDSA,
}

/// The parts of a JWS header that the pipeline reads.
pub struct JwsHeader {
    pub alg: SigningAlgorithm,
    pub x5c: Option<Vec<String>>,
}

/// Why a signed token did not decode once its key was known.
#[derive(Clone, Copy, Debug, PartialEq, Eq, Structural)]
pub enum TokenFailure {
    /// The signature, the key or the token's framing did not check out.
    Signature,
    /// The signature held but the payload is not a JSON document.
    Payload,
}

#[verifier::external_type_specification]
#[verifier::external_body]
pub struct ExJwtError(jsonwebtoken::errors::Error);

#[verifier::external_type_specification]
#[verifier::external_body]
pub struct ExBase64DecodeError(base64::DecodeError);

#[verifier::external_type_specification]
#[verifier::external_body]
pub struct ExJsonError(serde_json::Error);

#[verifier::external_type_specification]
#[verifier::external_body]
pub struct ExJsonValue(serde_json::Value);

/// The view of an optional certificate list: each entry as its characters.
pub open spec fn x5c_view(x5c: Option<Vec<String>>) -> Option<Seq<Seq<char>>> {
    match x5c {
        Some(v) => Some(v@.map_values(|s: String| s@)),
        None => None,
    }
}

/// What `jsonwebtoken::decode_header` reads from a token: its algorithm and
/// its certificate chain, or `None` where the header does not parse.
pub uninterp spec fn jws_header_of(token: Seq<char>) -> Option<(SigningAlgorithm, Option<Seq<Seq<char>>>)>;

/// What the standard, padded base64 alphabet decodes a text to.
pub uninterp spec fn base64_standard_decode(text: Seq<char>) -> Option<Seq<u8>>;

/// What the URL-safe, unpadded base64 alphabet decodes a text to.
pub uninterp spec fn base64_url_decode(text: Seq<char>) -> Option<Seq<u8>>;

/// The JSON document that `serde_json` reads from bytes, if they hold one.
pub uninterp spec fn json_document_of(bytes: Seq<u8>) -> Option<JsonValue>;

/// The JSON payload of a token whose ES256 signature holds under a SEC1 point.
pub uninterp spec fn es256_payload_of(token: Seq<char>, point: Seq<u8>) -> JsonValue;

/// The outcome of checking a token's ES256 signature with a SEC1 point and
/// reading its payload: `None` where both succeed.
pub uninterp spec fn es256_token_failure(token: Seq<char>, point: Seq<u8>) -> Option<TokenFailure>;

/// Relies on `jsonwebtoken::decode_header`, which parses the first segment of
/// a token without checking the signature; the result depends on the token alone.
#[verifier::external_body]
pub(crate) fn decode_header(token: &str) -> (r: Result<JwsHeader, jsonwebtoken::errors::Error>)
    ensures
        match r {
            Ok(h) => jws_header_of(token@) == Some((h.alg, x5c_view(h.x5c))),
            Err(_) => jws_header_of(token@).is_none(),
        },
{
    let h = jsonwebtoken::decode_header(token)?;
    let alg = match h.alg {
        A::HS256 => SigningAlgorithm::HS256, A::HS384 => SigningAlgorithm::HS384,
        A::HS512 => SigningAlgorithm::HS512, A::ES256 => SigningAlgorithm::ES256,
        A::ES384 => SigningAlgorithm::ES384, A::RS256 => SigningAlgorithm::RS256,
        A::RS384 => SigningAlgorithm::RS384, A::RS512 => SigningAlgorithm::RS512,
        A::PS256 => SigningAlgorithm::PS256, A::PS384 => SigningAlgorithm::PS384,
        A::PS512 => SigningAlgorithm::PS512, A::EdDSA => SigningAlgorithm::EdDSA,
    };
    Ok(JwsHeader { alg, x5c: h.x5c })
}

/// Relies on `base64::Engine::decode` with the `STANDARD` engine; the result
/// depends on the text alone.
#[verifier::external_body]
pub(crate) fn decode_base64_standard(text: &str) -> (r: Result<Vec<u8>, base64::DecodeError>)
    ensures
        match r {
            Ok(bytes) => base64_standard_decode(text@) == Some(bytes@),
            Err(_) => base64_standard_decode(text@).is_none(),
        },
{
    base64::engine::general_purpose::STANDARD.decode(text)
}

/// Relies on `jsonwebtoken::decode`, with a key made by `DecodingKey::from_ec_der`
/// and a validation for ES256 alone that checks no expiry and no audience and
/// asks for no claim:
/// it checks the signature over the first two segments, then reads the payload
/// as JSON. With those settings the result depends on the token and the key alone.
#[verifier::external_body]
pub(crate) fn decode_es256_token(token: &str, point: &[u8]) -> (r: Result<JsonValue, TokenFailure>)
    ensures
        match r {
            Ok(v) => es256_token_failure(token@, point@).is_none() && v == es256_payload_of(
                token@,
                point@,
            ),
            Err(f) => es256_token_failure(token@, point@) == Some(f),
        },
{
    let key = jsonwebtoken::DecodingKey::from_ec_der(point);
    let mut validation = jsonwebtoken::Validation::new(jsonwebtoken::Algorithm::ES256);
    validation.validate_exp = false;
    validation.validate_aud = false;
    validation.set_required_spec_claims::<&str>(&[]);
    match jsonwebtoken::decode::<serde_json::Value>(token, &key, &validation) {
        Ok(data) => Ok(json_of_serde(data.claims)),
        Err(e) => match e.kind() {
            ErrorKind::Json(_) | ErrorKind::Utf8(_) => Err(TokenFailure::Payload),
            _ => Err(TokenFailure::Signature),
        },
    }
}

/// Relies on `str::split_once` with `'.'`: the text before the first dot and
/// the text after it.
#[verifier::external_body]
pub(crate) fn split_at_first_dot(text: &str) -> (r: Option<(&str, &str)>)
    ensures
        match r {
            Some((before, after)) => text@ == before@.push('.') + after@ && !before@.contains('.'),
            None => !text@.contains('.'),
        },
{
    text.split_once('.')
}

/// Relies on `base64::Engine::decode` with the `URL_SAFE_NO_PAD` engine; the
/// result depends on the text alone.
#[verifier::external_body]
pub(crate) fn decode_base64_url(text: &str) -> (r: Result<Vec<u8>, base64::DecodeError>)
    ensures
        match r {
            Ok(bytes) => base64_url_decode(text@) == Some(bytes@),
            Err(_) => base64_url_decode(text@).is_none(),
        },
{
    base64::engine::general_purpose::URL_SAFE_NO_PAD.decode(text)
}

/// Relies on `serde_json::from_slice` into a `serde_json::Value`; the result
/// depends on the bytes alone.
#[verifier::external_body]
pub(crate) fn parse_json(bytes: &[u8]) -> (r: Result<JsonValue, serde_json::Error>)
    ensures
        match r {
            Ok(v) => json_document_of(bytes@) == Some(v),
            Err(_) => json_document_of(bytes@).is_none(),
        },
{
    serde_json::from_slice::<serde_json::Value>(bytes).map(json_of_serde)
}

/// Relies on the variants of `serde_json::Value` and on `Number::as_i64`:
/// each value becomes the library's value of the same kind, members in the
/// order in which the map yields them.
#[verifier::external_body]
fn json_of_serde(value: serde_json::Value) -> JsonValue {
    match value {
        serde_json::Value::Null => JsonValue::Null,
        serde_json::Value::Bool(b) => JsonValue::Bool(b),
        serde_json::Value::Number(n) => JsonValue::Number(n.as_i64()),
        serde_json::Value::String(s) => JsonValue::String(s),
        serde_json::Value::Array(a) => JsonValue::Array(a.into_iter().map(json_of_serde).collect()),
        serde_json::Value::Object(m) => JsonValue::Object(
            m.into_iter().map(|(k, v)| (k, json_of_serde(v))).collect(),
        ),
    }
}

} // verus!
