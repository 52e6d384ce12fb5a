//! Verification of signed transactions and notifications: the trust chain,
//! the signature, and the identity and environment of the decoded claims.
use vstd::prelude::*;
use crate::jose::{
    base64_standard_decode, decode_base64_standard, decode_es256_token, decode_header,
    base64_url_decode, decode_base64_url, es256_payload_of, es256_token_failure,
    json_document_of, jws_header_of, parse_json, split_at_first_dot, SigningAlgorithm,
    TokenFailure,
};
use crate::json::{
    string_field, string_member, notification_from_json, notification_of_json, transaction_from_json, transaction_of_json,
    JsonValue,
};
use crate::primitives::{
    notification_identity, Environment, JWSTransactionDecodedPayload,
    ResponseBodyV2DecodedPayload,
};

verus! {

/// Why a signed payload was refused.
#[derive(Clone, Copy, Debug, PartialEq, Eq, Structural)]
pub enum SignedDataVerifierError {
    /// The certificate chain does not lead to a trusted root.
    ChainInvalid,
    /// The header carries no certificate chain, or an empty one.
    MissingChain,
    /// The header does not parse, or a chain entry is not base64.
    MalformedChain,
    /// The header declares another algorithm than ES256.
    UnsupportedAlgorithm,
    /// The signature does not verify with the trusted leaf key.
    VerificationFailure,
    /// The payload does not decode into the expected claims.
    MalformedPayload,
    /// The bundle id or app identifier differs from the configured one,
    /// or a notification carries neither `data` nor `summary`.
    IdentityMismatch,
    /// The environment differs from the configured one.
    EnvironmentMismatch,
}

/// Checks signed payloads against a set of trusted roots and an expected
/// application identity.
pub struct SignedDataVerifier {
    root_certificates: Vec<Vec<u8>>,
    environment: Environment,
    bundle_id: String,
    app_apple_id: Option<i64>,
}

/// Whether an optional bundle id is present and equal to `expected`.
pub open spec fn bundle_matches(found: Option<String>, expected: Seq<char>) -> bool {
    match found {
        Some(b) => b@ == expected,
        None => false,
    }
}

/// The semantic check of transaction claims under a configuration.
pub open spec fn transaction_check(
    bundle_id: Seq<char>,
    environment: Environment,
    claims: JWSTransactionDecodedPayload,
) -> Result<(), SignedDataVerifierError> {
    if !bundle_matches(claims.bundle_id, bundle_id) {
        Err(SignedDataVerifierError::IdentityMismatch)
    } else if claims.environment != Some(environment) {
        Err(SignedDataVerifierError::EnvironmentMismatch)
    } else {
        Ok(())
    }
}

/// The semantic check of notification claims under a configuration: the app
/// identifier is compared only in production.
pub open spec fn notification_check(
    bundle_id: Seq<char>,
    environment: Environment,
    app_apple_id: Option<i64>,
    claims: ResponseBodyV2DecodedPayload,
) -> Result<(), SignedDataVerifierError> {
    match notification_identity(claims) {
        None => Err(SignedDataVerifierError::IdentityMismatch),
        Some((found_bundle, found_app, found_env)) => {
            if !bundle_matches(found_bundle, bundle_id) || (environment == Environment::Production
                && found_app != app_apple_id) {
                Err(SignedDataVerifierError::IdentityMismatch)
            } else if found_env != Some(environment) {
                Err(SignedDataVerifierError::EnvironmentMismatch)
            } else {
                Ok(())
            }
        },
    }
}

/// The length of the SEC1 uncompressed EC point that ends a leaf key.
pub const EC_POINT_LEN: usize = 65;

/// Whether `i` is the index of the first dot of `token`.
pub open spec fn first_dot(token: Seq<char>, i: int) -> bool {
    0 <= i < token.len() && token[i] == '.' && forall|j: int| 0 <= j < i ==> token[j] != '.'
}

/// Whether the raw header of `token`, its first segment read as base64url
/// JSON, declares the algorithm named `alg`.
pub open spec fn header_declares(token: Seq<char>, alg: Seq<char>) -> bool {
    exists|i: int|
        #[trigger] first_dot(token, i) && match base64_url_decode(token.take(i)) {
            Some(bytes) => match json_document_of(bytes) {
                Some(v) => match string_field(v, "alg"@) {
                    Some(Some(name)) => name@ == alg,
                    _ => false,
                },
                None => false,
            },
            None => false,
        }
}

/// Whether a header that the JOSE parser refused still names an algorithm
/// other than ES256 (such as `none`).
pub open spec fn declares_other_algorithm(token: Seq<char>) -> bool {
    exists|alg: Seq<char>| #[trigger] header_declares(token, alg) && alg != "ES256"@
}

/// The certificate chain that a token's header declares, once the header has
/// been checked: it parses, its chain is present and not empty, and it
/// declares ES256.
pub open spec fn header_stage(token: Seq<char>) -> Result<Seq<Seq<char>>, SignedDataVerifierError> {
    match jws_header_of(token) {
        None => if declares_other_algorithm(token) {
            Err(SignedDataVerifierError::UnsupportedAlgorithm)
        } else {
            Err(SignedDataVerifierError::MalformedChain)
        },
        Some((alg, x5c)) => match x5c {
            None => Err(SignedDataVerifierError::MissingChain),
            Some(entries) => {
                if entries.len() == 0 {
                    Err(SignedDataVerifierError::MissingChain)
                } else if alg != SigningAlgorithm::ES256 {
                    Err(SignedDataVerifierError::UnsupportedAlgorithm)
                } else {
                    Ok(entries)
                }
            },
        },
    }
}

/// The DER certificates that base64 chain entries decode to, or `None` where
/// one of them does not decode.
pub open spec fn decoded_chain(entries: Seq<Seq<char>>) -> Option<Seq<Seq<u8>>> {
    if forall|i: int| 0 <= i < entries.len() ==> (#[trigger] base64_standard_decode(entries[i])).is_some() {
        Some(entries.map_values(|e: Seq<char>| base64_standard_decode(e).unwrap()))
    } else {
        None
    }
}

/// The decoded certificate chain of a token, or the error that stops the
/// pipeline before the chain verifier is asked.
pub open spec fn chain_stage(token: Seq<char>) -> Result<Seq<Seq<u8>>, SignedDataVerifierError> {
    match header_stage(token) {
        Err(e) => Err(e),
        Ok(entries) => match decoded_chain(entries) {
            Some(chain) => Ok(chain),
            None => Err(SignedDataVerifierError::MalformedChain),
        },
    }
}

/// The trailing EC point of a leaf key.
pub open spec fn leaf_point(key: Seq<u8>) -> Seq<u8> {
    key.subrange(key.len() - EC_POINT_LEN, key.len() as int)
}

/// What becomes of a token once the chain verifier has answered with `key`
/// (`None`: the chain was refused): the EC point that its signature holds
/// under, or the error.
pub open spec fn key_stage(token: Seq<char>, key: Option<Seq<u8>>) -> Result<Seq<u8>, SignedDataVerifierError> {
    match key {
        None => Err(SignedDataVerifierError::ChainInvalid),
        Some(k) => {
            if k.len() < EC_POINT_LEN {
                Err(SignedDataVerifierError::VerificationFailure)
            } else {
                match es256_token_failure(token, leaf_point(k)) {
                    None => Ok(leaf_point(k)),
                    Some(TokenFailure::Signature) => Err(SignedDataVerifierError::VerificationFailure),
                    Some(TokenFailure::Payload) => Err(SignedDataVerifierError::MalformedPayload),
                }
            }
        },
    }
}

/// The view of the chain verifier's answer.
pub open spec fn key_view(key: Option<Vec<u8>>) -> Option<Seq<u8>> {
    match key {
        Some(k) => Some(k@),
        None => None,
    }
}

/// Whether `stage` is a possible outcome of the envelope stages of `token`:
/// the header and chain checks, the chain verifier `f` asked under `roots`,
/// and the signature check with the key it gave.
pub open spec fn envelope_outcome<F>(
    f: F,
    roots: Vec<Vec<u8>>,
    token: Seq<char>,
    stage: Result<Seq<u8>, SignedDataVerifierError>,
) -> bool where F: Fn(&Vec<Vec<u8>>, &Vec<Vec<u8>>) -> Option<Vec<u8>> {
    match chain_stage(token) {
        Err(e) => stage == Err::<Seq<u8>, _>(e),
        Ok(chain) => exists|c: Vec<Vec<u8>>, key: Option<Vec<u8>>|
            c.deep_view() == chain && #[trigger] f.ensures((&c, &roots), key) && key_stage(
                token,
                key_view(key),
            ) == stage,
    }
}

/// Whether the chain verifier `f` gives one answer for one chain under `roots`.
pub open spec fn answers_alike<F>(f: F, roots: Vec<Vec<u8>>) -> bool where
    F: Fn(&Vec<Vec<u8>>, &Vec<Vec<u8>>) -> Option<Vec<u8>>,
 {
    forall|c1: Vec<Vec<u8>>, c2: Vec<Vec<u8>>, k1: Option<Vec<u8>>, k2: Option<Vec<u8>>|
        c1.deep_view() == c2.deep_view() && #[trigger] f.ensures((&c1, &roots), k1)
            && #[trigger] f.ensures((&c2, &roots), k2) ==> key_view(k1) == key_view(k2)
}

/// The result of verifying a transaction token once its envelope stages gave
/// `stage`: the claims of the signed payload where they read and match the
/// configuration, else the first error.
pub open spec fn transaction_result(
    bundle_id: Seq<char>,
    environment: Environment,
    token: Seq<char>,
    stage: Result<Seq<u8>, SignedDataVerifierError>,
) -> Result<JWSTransactionDecodedPayload, SignedDataVerifierError> {
    match stage {
        Err(e) => Err(e),
        Ok(point) => match transaction_of_json(es256_payload_of(token, point)) {
            None => Err(SignedDataVerifierError::MalformedPayload),
            Some(claims) => match transaction_check(bundle_id, environment, claims) {
                Err(e) => Err(e),
                Ok(_) => Ok(claims),
            },
        },
    }
}

/// The result of verifying a notification token once its envelope stages
/// gave `stage`, as `transaction_result` gives it for a transaction.
pub open spec fn notification_result(
    bundle_id: Seq<char>,
    environment: Environment,
    app_apple_id: Option<i64>,
    token: Seq<char>,
    stage: Result<Seq<u8>, SignedDataVerifierError>,
) -> Result<ResponseBodyV2DecodedPayload, SignedDataVerifierError> {
    match stage {
        Err(e) => Err(e),
        Ok(point) => match notification_of_json(es256_payload_of(token, point)) {
            None => Err(SignedDataVerifierError::MalformedPayload),
            Some(claims) => match notification_check(bundle_id, environment, app_apple_id, claims) {
                Err(e) => Err(e),
                Ok(_) => Ok(claims),
            },
        },
    }
}

/// Reads the algorithm that the raw header of a token names, and tells
/// whether it is another than ES256.
fn names_other_algorithm(token: &str) -> (r: bool)
    ensures
        r == declares_other_algorithm(token@),
{
    let (segment, rest) = match split_at_first_dot(token) {
        Some(parts) => parts,
        None => {
            assert forall|alg: Seq<char>| !#[trigger] header_declares(token@, alg) by {
                assert forall|i: int| !#[trigger] first_dot(token@, i) by {
                    if first_dot(token@, i) {
                        assert(token@.contains(token@[i]));
                    }
                }
            }
            return false;
        },
    };
    let ghost at = segment@.len() as int;
    proof {
        assert(token@[at] == '.');
        assert forall|j: int| 0 <= j < at implies token@[j] != '.' by {
            assert(token@[j] == segment@[j]);
            if token@[j] == '.' {
                assert(segment@.contains(segment@[j]));
            }
        }
        assert(first_dot(token@, at));
        assert(token@.take(at) =~= segment@);
        assert forall|i: int| #[trigger] first_dot(token@, i) implies i == at by {
            if i < at {
                assert(token@[i] == segment@[i]);
                assert(segment@.contains(segment@[i]));
            }
        }
    }
    let bytes = match decode_base64_url(segment) {
        Ok(b) => b,
        Err(_) => return false,
    };
    let header = match parse_json(bytes.as_slice()) {
        Ok(v) => v,
        Err(_) => return false,
    };
    match string_member(&header, "alg") {
        Some(Some(name)) => {
            let es256 = String::from_str("ES256");
            let other = !(name == es256);
            if other {
                assert(header_declares(token@, name@));
            }
            other
        },
        _ => false,
    }
}

fn trailing_point(key: &Vec<u8>) -> (r: Vec<u8>)
    requires
        key.len() >= EC_POINT_LEN,
    ensures
        r@ == leaf_point(key@),
{
    let start: usize = key.len() - EC_POINT_LEN;
    let mut r: Vec<u8> = Vec::new();
    let mut i: usize = start;
    while i < key.len()
        invariant
            start == key.len() - EC_POINT_LEN,
            start <= i <= key.len(),
            r@ == key@.subrange(start as int, i as int),
        decreases key.len() - i,
    {
        r.push(key[i]);
        i = i + 1;
    }
    r
}

fn decode_chain(entries: &Vec<String>) -> (r: Option<Vec<Vec<u8>>>)
    ensures
        match r {
            Some(chain) => decoded_chain(entries@.map_values(|s: String| s@)) == Some(chain.deep_view()),
            None => decoded_chain(entries@.map_values(|s: String| s@)).is_none(),
        },
{
    let ghost texts = entries@.map_values(|s: String| s@);
    let mut chain: Vec<Vec<u8>> = Vec::new();
    let mut i: usize = 0;
    while i < entries.len()
        invariant
            texts == entries@.map_values(|s: String| s@),
            i <= entries.len(),
            chain.len() == i,
            forall|j: int| 0 <= j < i ==> (#[trigger] base64_standard_decode(texts[j])) == Some(chain.deep_view()[j]),
        decreases entries.len() - i,
    {
        match decode_base64_standard(entries[i].as_str()) {
            Ok(der) => {
                chain.push(der);
            },
            Err(_) => {
                assert(base64_standard_decode(texts[i as int]).is_none());
                return None;
            },
        }
        i = i + 1;
    }
    assert(chain.deep_view() =~= texts.map_values(|e: Seq<char>| base64_standard_decode(e).unwrap()));
    Some(chain)
}

fn option_string_eq(found: &Option<String>, expected: &String) -> (r: bool)
    ensures
        r == bundle_matches(*found, expected@),
{
    match found {
        Some(b) => *b == *expected,
        None => false,
    }
}

impl SignedDataVerifier {
    /// The trusted root certificates, each as DER bytes.
    pub closed spec fn roots(&self) -> Seq<Seq<u8>> {
        self.root_certificates.deep_view()
    }

    /// The configured environment.
    pub closed spec fn environment(&self) -> Environment {
        self.environment
    }

    /// The configured bundle id.
    pub closed spec fn bundle_id(&self) -> Seq<char> {
        self.bundle_id@
    }

    /// The configured app identifier.
    pub closed spec fn app_apple_id(&self) -> Option<i64> {
        self.app_apple_id
    }

    /// The trusted root certificates as handed to the chain verifier.
    pub closed spec fn root_certificates(&self) -> Vec<Vec<u8>> {
        self.root_certificates
    }

    /// Makes a verifier that trusts `root_certificates` and expects payloads
    /// of `bundle_id` in `environment`.
    pub fn new(
        root_certificates: Vec<Vec<u8>>,
        environment: Environment,
        bundle_id: String,
        app_apple_id: Option<i64>,
    ) -> (r: Self)
        ensures
            r.root_certificates() == root_certificates,
            r.roots() == root_certificates.deep_view(),
            r.environment() == environment,
            r.bundle_id() == bundle_id@,
            r.app_apple_id() == app_apple_id,
    {
        SignedDataVerifier { root_certificates, environment, bundle_id, app_apple_id }
    }

    /// Checks the bundle id and environment of decoded transaction claims.
    pub fn check_transaction_claims(&self, claims: &JWSTransactionDecodedPayload) -> (r: Result<
        (),
        SignedDataVerifierError,
    >)
        ensures
            r == transaction_check(self.bundle_id(), self.environment(), *claims),
    {
        if !option_string_eq(&claims.bundle_id, &self.bundle_id) {
            return Err(SignedDataVerifierError::IdentityMismatch);
        }
        if claims.environment != Some(self.environment) {
            return Err(SignedDataVerifierError::EnvironmentMismatch);
        }
        Ok(())
    }

    /// Checks the identity record of decoded notification claims: its bundle id,
    /// its app identifier in production, and its environment.
    pub fn check_notification_claims(&self, claims: &ResponseBodyV2DecodedPayload) -> (r: Result<
        (),
        SignedDataVerifierError,
    >)
        ensures
            r == notification_check(
                self.bundle_id(),
                self.environment(),
                self.app_apple_id(),
                *claims,
            ),
    {
        let bundle_id;
        let app_apple_id;
        let environment;
        if let Some(data) = &claims.data {
            bundle_id = &data.bundle_id;
            app_apple_id = data.app_apple_id;
            environment = data.environment;
        } else if let Some(summary) = &claims.summary {
            bundle_id = &summary.bundle_id;
            app_apple_id = summary.app_apple_id;
            environment = summary.environment;
        } else {
            return Err(SignedDataVerifierError::IdentityMismatch);
        }
        if !option_string_eq(bundle_id, &self.bundle_id) || (self.environment
            == Environment::Production && app_apple_id != self.app_apple_id) {
            return Err(SignedDataVerifierError::IdentityMismatch);
        }
        if environment != Some(self.environment) {
            return Err(SignedDataVerifierError::EnvironmentMismatch);
        }
        Ok(())
    }

    /// Checks a token's header, decodes its chain, asks `verify_chain` for the
    /// leaf key under the trusted roots, and checks the signature with that key.
    /// Gives the payload only where all of that succeeds.
    fn decode_signed_object<F>(&self, signed_obj: &str, verify_chain: &F) -> (r: Result<
        JsonValue,
        SignedDataVerifierError,
    >) where F: Fn(&Vec<Vec<u8>>, &Vec<Vec<u8>>) -> Option<Vec<u8>>
        requires
            forall|c: &Vec<Vec<u8>>, k: &Vec<Vec<u8>>| verify_chain.requires((c, k)),
        ensures
            match chain_stage(signed_obj@) {
                Err(e) => r == Err::<JsonValue, _>(e),
                Ok(chain) => exists|c: Vec<Vec<u8>>, key: Option<Vec<u8>>|
                    c.deep_view() == chain && #[trigger] verify_chain.ensures(
                        (&c, &self.root_certificates()),
                        key,
                    ) && match key_stage(signed_obj@, key_view(key)) {
                        Err(e) => r == Err::<JsonValue, _>(e),
                        Ok(point) => r == Ok::<JsonValue, SignedDataVerifierError>(es256_payload_of(signed_obj@, point)),
                    },
            },
    {
        let header = match decode_header(signed_obj) {
            Ok(h) => h,
            Err(_) => {
                if names_other_algorithm(signed_obj) {
                    return Err(SignedDataVerifierError::UnsupportedAlgorithm);
                }
                return Err(SignedDataVerifierError::MalformedChain);
            },
        };
        let x5c = match &header.x5c {
            Some(x5c) => x5c,
            None => return Err(SignedDataVerifierError::MissingChain),
        };
        if x5c.len() == 0 {
            return Err(SignedDataVerifierError::MissingChain);
        }
        if header.alg != SigningAlgorithm::ES256 {
            return Err(SignedDataVerifierError::UnsupportedAlgorithm);
        }
        let chain = match decode_chain(x5c) {
            Some(chain) => chain,
            None => return Err(SignedDataVerifierError::MalformedChain),
        };
        let key = verify_chain(&chain, &self.root_certificates);
        assert(verify_chain.ensures((&chain, &self.root_certificates()), key));
        let pub_key = match key {
            Some(k) => k,
            None => return Err(SignedDataVerifierError::ChainInvalid),
        };
        if pub_key.len() < EC_POINT_LEN {
            return Err(SignedDataVerifierError::VerificationFailure);
        }
        let point = trailing_point(&pub_key);
        match decode_es256_token(signed_obj, point.as_slice()) {
            Ok(payload) => Ok(payload),
            Err(TokenFailure::Signature) => Err(SignedDataVerifierError::VerificationFailure),
            Err(TokenFailure::Payload) => Err(SignedDataVerifierError::MalformedPayload),
        }
    }

    /// Verifies a signed transaction and returns its claims. `verify_chain`
    /// is asked, with the decoded chain (leaf first) and the trusted roots,
    /// for the leaf's public key; `None` means that the chain does not lead
    /// to a trusted root.
    pub fn verify_and_decode_signed_transaction<F>(
        &self,
        signed_transaction: &str,
        verify_chain: F,
    ) -> (r: Result<JWSTransactionDecodedPayload, SignedDataVerifierError>) where
        F: Fn(&Vec<Vec<u8>>, &Vec<Vec<u8>>) -> Option<Vec<u8>>,

        requires
            forall|c: &Vec<Vec<u8>>, k: &Vec<Vec<u8>>| verify_chain.requires((c, k)),
        ensures
            r is Ok ==> chain_stage(signed_transaction@) is Ok && exists|c: Vec<Vec<u8>>, k: Vec<u8>|
                c.deep_view() == chain_stage(signed_transaction@)->Ok_0 && #[trigger] verify_chain.ensures(
                    (&c, &self.root_certificates()),
                    Some(k),
                ),
            (chain_stage(signed_transaction@) is Ok && forall|c: Vec<Vec<u8>>, key: Option<Vec<u8>>|
                c.deep_view() == chain_stage(signed_transaction@)->Ok_0 && #[trigger] verify_chain.ensures(
                    (&c, &self.root_certificates()),
                    key,
                ) ==> key is None) ==> r == Err::<JWSTransactionDecodedPayload, _>(
                SignedDataVerifierError::ChainInvalid,
            ),
            exists|stage: Result<Seq<u8>, SignedDataVerifierError>|
                envelope_outcome(verify_chain, self.root_certificates(), signed_transaction@, stage)
                    && r == transaction_result(
                    self.bundle_id(),
                    self.environment(),
                    signed_transaction@,
                    stage,
                ),
    {
        let decoded = self.decode_signed_object(signed_transaction, &verify_chain);
        let ghost mut stage: Result<Seq<u8>, SignedDataVerifierError> = match chain_stage(signed_transaction@) {
            Err(e) => Err(e),
            Ok(_) => Ok(Seq::empty()),
        };
        proof {
            if chain_stage(signed_transaction@) is Ok {
                let chain = chain_stage(signed_transaction@)->Ok_0;
                let (c, key) = choose|c: Vec<Vec<u8>>, key: Option<Vec<u8>>|
                    c.deep_view() == chain && #[trigger] verify_chain.ensures(
                        (&c, &self.root_certificates()),
                        key,
                    ) && match key_stage(signed_transaction@, key_view(key)) {
                        Err(e) => decoded == Err::<JsonValue, _>(e),
                        Ok(point) => decoded == Ok::<JsonValue, SignedDataVerifierError>(
                            es256_payload_of(signed_transaction@, point),
                        ),
                    };
                stage = key_stage(signed_transaction@, key_view(key));
            }
            assert(envelope_outcome(verify_chain, self.root_certificates(), signed_transaction@, stage));
        }
        match decoded {
            Err(e) => Err(e),
            Ok(payload) => match transaction_from_json(&payload) {
                None => Err(SignedDataVerifierError::MalformedPayload),
                Some(decoded_signed_tx) => match self.check_transaction_claims(&decoded_signed_tx) {
                    Err(e) => Err(e),
                    Ok(_) => Ok(decoded_signed_tx),
                },
            },
        }
    }

    /// Verifies a signed notification and returns its claims; `verify_chain`
    /// is asked for the leaf key as in `verify_and_decode_signed_transaction`.
    pub fn verify_and_decode_notification<F>(&self, signed_payload: &str, verify_chain: F) -> (r:
        Result<ResponseBodyV2DecodedPayload, SignedDataVerifierError>) where
        F: Fn(&Vec<Vec<u8>>, &Vec<Vec<u8>>) -> Option<Vec<u8>>,

        requires
            forall|c: &Vec<Vec<u8>>, k: &Vec<Vec<u8>>| verify_chain.requires((c, k)),
        ensures
            r is Ok ==> chain_stage(signed_payload@) is Ok && exists|c: Vec<Vec<u8>>, k: Vec<u8>|
                c.deep_view() == chain_stage(signed_payload@)->Ok_0 && #[trigger] verify_chain.ensures(
                    (&c, &self.root_certificates()),
                    Some(k),
                ),
            (chain_stage(signed_payload@) is Ok && forall|c: Vec<Vec<u8>>, key: Option<Vec<u8>>|
                c.deep_view() == chain_stage(signed_payload@)->Ok_0 && #[trigger] verify_chain.ensures(
                    (&c, &self.root_certificates()),
                    key,
                ) ==> key is None) ==> r == Err::<ResponseBodyV2DecodedPayload, _>(
                SignedDataVerifierError::ChainInvalid,
            ),
            exists|stage: Result<Seq<u8>, SignedDataVerifierError>|
                envelope_outcome(verify_chain, self.root_certificates(), signed_payload@, stage)
                    && r == notification_result(
                    self.bundle_id(),
                    self.environment(),
                    self.app_apple_id(),
                    signed_payload@,
                    stage,
                ),
    {
        let decoded = self.decode_signed_object(signed_payload, &verify_chain);
        let ghost mut stage: Result<Seq<u8>, SignedDataVerifierError> = match chain_stage(signed_payload@) {
            Err(e) => Err(e),
            Ok(_) => Ok(Seq::empty()),
        };
        proof {
            if chain_stage(signed_payload@) is Ok {
                let chain = chain_stage(signed_payload@)->Ok_0;
                let (c, key) = choose|c: Vec<Vec<u8>>, key: Option<Vec<u8>>|
                    c.deep_view() == chain && #[trigger] verify_chain.ensures(
                        (&c, &self.root_certificates()),
                        key,
                    ) && match key_stage(signed_payload@, key_view(key)) {
                        Err(e) => decoded == Err::<JsonValue, _>(e),
                        Ok(point) => decoded == Ok::<JsonValue, SignedDataVerifierError>(
                            es256_payload_of(signed_payload@, point),
                        ),
                    };
                stage = key_stage(signed_payload@, key_view(key));
            }
            assert(envelope_outcome(verify_chain, self.root_certificates(), signed_payload@, stage));
        }
        match decoded {
            Err(e) => Err(e),
            Ok(payload) => match notification_from_json(&payload) {
                None => Err(SignedDataVerifierError::MalformedPayload),
                Some(decoded_signed_notification) => match self.check_notification_claims(
                    &decoded_signed_notification,
                ) {
                    Err(e) => Err(e),
                    Ok(_) => Ok(decoded_signed_notification),
                },
            },
        }
    }
}

/// Verifying one envelope twice with one verifier, and a chain verifier that
/// gives one answer per chain, goes through the envelope stages alike: both
/// calls fail there with the same error, or both reach the same EC point.
pub proof fn lemma_envelope_outcome_repeats<F>(
    f: F,
    roots: Vec<Vec<u8>>,
    token: Seq<char>,
    first: Result<Seq<u8>, SignedDataVerifierError>,
    second: Result<Seq<u8>, SignedDataVerifierError>,
) where F: Fn(&Vec<Vec<u8>>, &Vec<Vec<u8>>) -> Option<Vec<u8>>
    requires
        answers_alike(f, roots),
        envelope_outcome(f, roots, token, first),
        envelope_outcome(f, roots, token, second),
    ensures
        first == second,
{
    if chain_stage(token) is Ok {
        let chain = chain_stage(token)->Ok_0;
        let (c1, k1) = choose|c: Vec<Vec<u8>>, key: Option<Vec<u8>>|
            c.deep_view() == chain && #[trigger] f.ensures((&c, &roots), key) && key_stage(
                token,
                key_view(key),
            ) == first;
        let (c2, k2) = choose|c: Vec<Vec<u8>>, key: Option<Vec<u8>>|
            c.deep_view() == chain && #[trigger] f.ensures((&c, &roots), key) && key_stage(
                token,
                key_view(key),
            ) == second;
        assert(key_view(k1) == key_view(k2));
    }
}

/// Verifying one transaction token twice with one verifier, and a chain
/// verifier that gives one answer per chain, gives the same result.
pub proof fn lemma_transaction_verification_repeats<F>(
    verifier: SignedDataVerifier,
    f: F,
    token: Seq<char>,
    first_stage: Result<Seq<u8>, SignedDataVerifierError>,
    second_stage: Result<Seq<u8>, SignedDataVerifierError>,
    first: Result<JWSTransactionDecodedPayload, SignedDataVerifierError>,
    second: Result<JWSTransactionDecodedPayload, SignedDataVerifierError>,
) where F: Fn(&Vec<Vec<u8>>, &Vec<Vec<u8>>) -> Option<Vec<u8>>
    requires
        answers_alike(f, verifier.root_certificates()),
        envelope_outcome(f, verifier.root_certificates(), token, first_stage),
        envelope_outcome(f, verifier.root_certificates(), token, second_stage),
        first == transaction_result(verifier.bundle_id(), verifier.environment(), token, first_stage),
        second == transaction_result(verifier.bundle_id(), verifier.environment(), token, second_stage),
    ensures
        first == second,
{
    lemma_envelope_outcome_repeats(f, verifier.root_certificates(), token, first_stage, second_stage);
}

/// Verifying one notification token twice with one verifier, and a chain
/// verifier that gives one answer per chain, gives the same result.
pub proof fn lemma_notification_verification_repeats<F>(
    verifier: SignedDataVerifier,
    f: F,
    token: Seq<char>,
    first_stage: Result<Seq<u8>, SignedDataVerifierError>,
    second_stage: Result<Seq<u8>, SignedDataVerifierError>,
    first: Result<ResponseBodyV2DecodedPayload, SignedDataVerifierError>,
    second: Result<ResponseBodyV2DecodedPayload, SignedDataVerifierError>,
) where F: Fn(&Vec<Vec<u8>>, &Vec<Vec<u8>>) -> Option<Vec<u8>>
    requires
        answers_alike(f, verifier.root_certificates()),
        envelope_outcome(f, verifier.root_certificates(), token, first_stage),
        envelope_outcome(f, verifier.root_certificates(), token, second_stage),
        first == notification_result(
            verifier.bundle_id(),
            verifier.environment(),
            verifier.app_apple_id(),
            token,
            first_stage,
        ),
        second == notification_result(
            verifier.bundle_id(),
            verifier.environment(),
            verifier.app_apple_id(),
            token,
            second_stage,
        ),
    ensures
        first == second,
{
    lemma_envelope_outcome_repeats(f, verifier.root_certificates(), token, first_stage, second_stage);
}

/// An envelope whose header declares a non-empty chain and any algorithm
/// other than ES256 is refused with `UnsupportedAlgorithm`, before its chain
/// or signature is looked at.
pub proof fn lemma_algorithm_pinning(token: Seq<char>)
    requires
        jws_header_of(token) is Some,
        jws_header_of(token)->Some_0.1 is Some,
        jws_header_of(token)->Some_0.1->Some_0.len() > 0,
        jws_header_of(token)->Some_0.0 != SigningAlgorithm::ES256,
    ensures
        chain_stage(token) == Err::<Seq<Seq<u8>>, _>(SignedDataVerifierError::UnsupportedAlgorithm),
{
}

/// An envelope whose header the JOSE parser refuses, but which names an
/// algorithm other than ES256 (such as `none`), is refused with
/// `UnsupportedAlgorithm`.
pub proof fn lemma_unknown_algorithm_pinning(token: Seq<char>, alg: Seq<char>)
    requires
        jws_header_of(token) is None,
        header_declares(token, alg),
        alg != "ES256"@,
    ensures
        chain_stage(token) == Err::<Seq<Seq<u8>>, _>(SignedDataVerifierError::UnsupportedAlgorithm),
{
}

/// A transaction token that passes the envelope stages, but whose claims name
/// another bundle than the configured one, is refused with `IdentityMismatch`,
/// whatever its environment.
pub proof fn lemma_transaction_identity_isolation(
    bundle_id: Seq<char>,
    environment: Environment,
    token: Seq<char>,
    point: Seq<u8>,
)
    requires
        transaction_of_json(es256_payload_of(token, point)) is Some,
        !bundle_matches(transaction_of_json(es256_payload_of(token, point))->Some_0.bundle_id, bundle_id),
    ensures
        transaction_result(bundle_id, environment, token, Ok(point)) == Err::<
            JWSTransactionDecodedPayload,
            _,
        >(SignedDataVerifierError::IdentityMismatch),
{
}

/// A notification token that passes the envelope stages, but whose identity
/// record names another bundle than the configured one, is refused with
/// `IdentityMismatch`, whatever its environment and app identifier.
pub proof fn lemma_notification_identity_isolation(
    bundle_id: Seq<char>,
    environment: Environment,
    app_apple_id: Option<i64>,
    token: Seq<char>,
    point: Seq<u8>,
)
    requires
        notification_of_json(es256_payload_of(token, point)) is Some,
        notification_identity(notification_of_json(es256_payload_of(token, point))->Some_0) is Some,
        !bundle_matches(
            notification_identity(notification_of_json(es256_payload_of(token, point))->Some_0)->Some_0.0,
            bundle_id,
        ),
    ensures
        notification_result(bundle_id, environment, app_apple_id, token, Ok(point)) == Err::<
            ResponseBodyV2DecodedPayload,
            _,
        >(SignedDataVerifierError::IdentityMismatch),
{
}

/// A transaction token that passes the envelope stages, of the configured
/// bundle but of another environment, is refused with `EnvironmentMismatch`.
pub proof fn lemma_transaction_environment_isolation(
    bundle_id: Seq<char>,
    environment: Environment,
    token: Seq<char>,
    point: Seq<u8>,
)
    requires
        transaction_of_json(es256_payload_of(token, point)) is Some,
        bundle_matches(transaction_of_json(es256_payload_of(token, point))->Some_0.bundle_id, bundle_id),
        transaction_of_json(es256_payload_of(token, point))->Some_0.environment != Some(environment),
    ensures
        transaction_result(bundle_id, environment, token, Ok(point)) == Err::<
            JWSTransactionDecodedPayload,
            _,
        >(SignedDataVerifierError::EnvironmentMismatch),
{
}

/// A notification token that passes the envelope stages, whose identity record
/// matches the configured bundle (and, in production, the configured app
/// identifier) but names another environment, is refused with
/// `EnvironmentMismatch`.
pub proof fn lemma_notification_environment_isolation(
    bundle_id: Seq<char>,
    environment: Environment,
    app_apple_id: Option<i64>,
    token: Seq<char>,
    point: Seq<u8>,
)
    requires
        notification_of_json(es256_payload_of(token, point)) is Some,
        notification_identity(notification_of_json(es256_payload_of(token, point))->Some_0) is Some,
        bundle_matches(
            notification_identity(notification_of_json(es256_payload_of(token, point))->Some_0)->Some_0.0,
            bundle_id,
        ),
        environment == Environment::Production ==> notification_identity(
            notification_of_json(es256_payload_of(token, point))->Some_0,
        )->Some_0.1 == app_apple_id,
        notification_identity(notification_of_json(es256_payload_of(token, point))->Some_0)->Some_0.2
            != Some(environment),
    ensures
        notification_result(bundle_id, environment, app_apple_id, token, Ok(point)) == Err::<
            ResponseBodyV2DecodedPayload,
            _,
        >(SignedDataVerifierError::EnvironmentMismatch),
{
}

/// A notification token that passes the envelope stages but carries neither
/// `data` nor `summary` is refused with `IdentityMismatch`.
pub proof fn lemma_notification_without_record(
    bundle_id: Seq<char>,
    environment: Environment,
    app_apple_id: Option<i64>,
    token: Seq<char>,
    point: Seq<u8>,
)
    requires
        notification_of_json(es256_payload_of(token, point)) is Some,
        notification_of_json(es256_payload_of(token, point))->Some_0.data is None,
        notification_of_json(es256_payload_of(token, point))->Some_0.summary is None,
    ensures
        notification_result(bundle_id, environment, app_apple_id, token, Ok(point)) == Err::<
            ResponseBodyV2DecodedPayload,
            _,
        >(SignedDataVerifierError::IdentityMismatch),
{
}

} // verus!
