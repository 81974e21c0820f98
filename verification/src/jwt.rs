//! The token validator: header, signature and claims, then expiry.

use std::str::FromStr;
use vstd::prelude::*;
use crate::config::Config;
use crate::error::{spec_from_auth, ApiError, AuthError, KeyError, Stage, TokenFault};
use crate::jwk::{lemma_find, rsa_decoding_key, select, spec_select, JwkView, KeySet};

verus! {

/// The signature algorithms a validation can ask for, by their registered
/// names.
#[derive(Debug, Clone, Copy, PartialEq, Eq, Structural)]
pub enum Algorithm {
    HS256,
    HS384,
    HS512,
    ES256,
    ES384,
    RS256,
    RS384,
    RS512,
    PS256,
    PS384,
    PS512,
    EdDSA,
}

impl Algorithm {
    pub open spec fn spec_name(self) -> Seq<char> {
        match self {
            Algorithm::HS256 => "HS256"@,
            Algorithm::HS384 => "HS384"@,
            Algorithm::HS512 => "HS512"@,
            Algorithm::ES256 => "ES256"@,
            Algorithm::ES384 => "ES384"@,
            Algorithm::RS256 => "RS256"@,
            Algorithm::RS384 => "RS384"@,
            Algorithm::RS512 => "RS512"@,
            Algorithm::PS256 => "PS256"@,
            Algorithm::PS384 => "PS384"@,
            Algorithm::PS512 => "PS512"@,
            Algorithm::EdDSA => "EdDSA"@,
        }
    }

    /// The name under which the algorithm stands in a token's header.
    pub fn name(&self) -> (r: &'static str)
        ensures
            r@ == self.spec_name(),
    {
        match self {
            Algorithm::HS256 => "HS256",
            Algorithm::HS384 => "HS384",
            Algorithm::HS512 => "HS512",
            Algorithm::ES256 => "ES256",
            Algorithm::ES384 => "ES384",
            Algorithm::RS256 => "RS256",
            Algorithm::RS384 => "RS384",
            Algorithm::RS512 => "RS512",
            Algorithm::PS256 => "PS256",
            Algorithm::PS384 => "PS384",
            Algorithm::PS512 => "PS512",
            Algorithm::EdDSA => "EdDSA",
        }
    }
}

/// What a token must satisfy besides its expiry: the algorithm of its
/// signature and, where set, the audience it names and the issuer it comes
/// from. Expiry is no part of it: the validator checks it last, on its own.
#[derive(Debug, Clone)]
pub struct Validation {
    pub algorithm: Algorithm,
    pub audience: Option<String>,
    pub issuer: Option<String>,
}

pub struct ValidationView {
    pub algorithm: Algorithm,
    pub audience: Option<Seq<char>>,
    pub issuer: Option<Seq<char>>,
}

impl DeepView for Validation {
    type V = ValidationView;

    open spec fn deep_view(&self) -> ValidationView {
        ValidationView {
            algorithm: self.algorithm,
            audience: self.audience.deep_view(),
            issuer: self.issuer.deep_view(),
        }
    }
}

/// The claims a token must carry for a validation: always `exp`, and `aud`
/// and `iss` where an audience and an issuer are expected.
pub open spec fn spec_required_claims(validation: ValidationView) -> Seq<Seq<char>> {
    seq!["exp"@] + (if validation.audience is Some {
        seq!["aud"@]
    } else {
        Seq::<Seq<char>>::empty()
    }) + (if validation.issuer is Some {
        seq!["iss"@]
    } else {
        Seq::<Seq<char>>::empty()
    })
}

impl Validation {
    /// A validation that asks for `algorithm` and expects no audience and no
    /// issuer.
    pub fn new(algorithm: Algorithm) -> (r: Validation)
        ensures
            r.deep_view() == (ValidationView { algorithm, audience: None, issuer: None }),
    {
        Validation { algorithm, audience: None, issuer: None }
    }

    /// Expects tokens to name `audience`.
    pub fn set_audience(&mut self, audience: &str)
        ensures
            final(self).deep_view() == (ValidationView {
                audience: Some(audience@),
                ..old(self).deep_view()
            }),
    {
        self.audience = Some(audience.to_owned());
    }

    /// Expects tokens to come from `issuer`.
    pub fn set_issuer(&mut self, issuer: &str)
        ensures
            final(self).deep_view() == (ValidationView {
                issuer: Some(issuer@),
                ..old(self).deep_view()
            }),
    {
        self.issuer = Some(issuer.to_owned());
    }

    /// The names of the claims that a token must carry.
    pub fn required_claims(&self) -> (r: Vec<String>)
        ensures
            r.deep_view() == spec_required_claims(self.deep_view()),
    {
        let mut names: Vec<String> = Vec::new();
        names.push("exp".to_owned());
        if self.audience.is_some() {
            names.push("aud".to_owned());
        }
        if self.issuer.is_some() {
            names.push("iss".to_owned());
        }
        assert(names.deep_view() =~= spec_required_claims(self.deep_view()));
        names
    }
}

/// What a verified payload holds of the two claims the service reads.
#[derive(Debug, Clone)]
pub struct Payload {
    /// The `sub` member, where it is a string.
    pub sub: Option<String>,
    /// The `exp` member, where it is an integer of 64 bits.
    pub exp: Option<i64>,
}

pub struct PayloadView {
    pub sub: Option<Seq<char>>,
    pub exp: Option<i64>,
}

impl DeepView for Payload {
    type V = PayloadView;

    open spec fn deep_view(&self) -> PayloadView {
        PayloadView { sub: self.sub.deep_view(), exp: self.exp }
    }
}

/// The claims of a verified token: whom it stands for and when it expires,
/// in seconds since the epoch.
#[derive(Debug, Clone)]
pub struct Claims {
    pub sub: String,
    pub exp: i64,
}

pub struct ClaimsView {
    pub sub: Seq<char>,
    pub exp: i64,
}

impl DeepView for Claims {
    type V = ClaimsView;

    open spec fn deep_view(&self) -> ClaimsView {
        ClaimsView { sub: self.sub@, exp: self.exp }
    }
}

/// What `jsonwebtoken::decode_header` reads as the key id of a token: `None`
/// where the token has no readable header, `Some(None)` where the header names
/// no key id.
pub uninterp spec fn header_key_id(token: Seq<char>) -> Option<Option<Seq<char>>>;

/// What `jsonwebtoken::decode` yields for a token under a key and a
/// validation whose expiry check is off: the `sub` and `exp` members of the
/// payload, or `None` where it refuses the token.
pub uninterp spec fn decoded_payload(
    token: Seq<char>,
    key: jsonwebtoken::DecodingKey,
    algorithm: Seq<char>,
    audience: Option<Seq<char>>,
    issuer: Option<Seq<char>>,
    required: Seq<Seq<char>>,
) -> Option<PayloadView>;

/// Reads a token's header with `jsonwebtoken::decode_header`, which checks no
/// signature, and hands out the key id. Trusted: the result is the named
/// reading of `token`.
#[verifier::external_body]
fn decode_header_kid(token: &str) -> (r: Result<Option<String>, jsonwebtoken::errors::Error>)
    ensures
        header_key_id(token@) == match r {
            Ok(kid) => Some(kid.deep_view()),
            Err(_) => None,
        },
{
    jsonwebtoken::decode_header(token).map(|header| header.kid)
}

/// Verifies a token with `jsonwebtoken::decode`: the signature under `key`
/// and `algorithm`, the presence of the `required` claims, and audience and
/// issuer where they are given. The crate's own expiry check, which reads the
/// system clock, is switched off, so the outcome depends on the arguments
/// alone. Trusted: the result is the named outcome, with the payload's `sub`
/// and `exp` picked out.
#[verifier::external_body]
fn decode_payload(
    token: &str,
    key: &jsonwebtoken::DecodingKey,
    algorithm: &str,
    audience: &Option<String>,
    issuer: &Option<String>,
    required: &Vec<String>,
) -> (r: Result<Payload, jsonwebtoken::errors::Error>)
    ensures
        decoded_payload(
            token@,
            *key,
            algorithm@,
            audience.deep_view(),
            issuer.deep_view(),
            required.deep_view(),
        ) == match r {
            Ok(payload) => Some(payload.deep_view()),
            Err(_) => None,
        },
{
    let mut rules = jsonwebtoken::Validation::new(jsonwebtoken::Algorithm::from_str(algorithm)?);
    rules.validate_exp = false;
    rules.set_required_spec_claims(required);
    if let Some(item) = audience {
        rules.set_audience(&[item]);
    }
    if let Some(item) = issuer {
        rules.set_issuer(&[item]);
    }
    let data = jsonwebtoken::decode::<serde_json::Value>(token, key, &rules)?;
    Ok(Payload {
        sub: data.claims.get("sub").and_then(|v| v.as_str()).map(|s| s.to_owned()),
        exp: data.claims.get("exp").and_then(|v| v.as_i64()),
    })
}

/// Reads the clock with `chrono::Utc::now` and hands out the seconds since
/// the epoch. Nothing is claimed of the value.
#[verifier::external_body]
fn unix_now() -> i64 {
    chrono::Utc::now().timestamp()
}

/// The key id a token names, or what is wrong with its header.
pub open spec fn spec_key_id(token: Seq<char>) -> Result<Seq<char>, AuthError> {
    match header_key_id(token) {
        None => Err(AuthError::InvalidToken(TokenFault::Malformed)),
        Some(None) => Err(AuthError::InvalidToken(TokenFault::MissingKeyId)),
        Some(Some(kid)) => Ok(kid),
    }
}

/// A token is expired from the second its `exp` names.
pub open spec fn spec_expired(exp: i64, now: i64) -> bool {
    exp <= now
}

/// The claims of a payload that carries both, checked for expiry at `now`.
pub open spec fn spec_claims_of(payload: PayloadView, now: i64) -> Result<ClaimsView, AuthError> {
    match (payload.sub, payload.exp) {
        (Some(sub), Some(exp)) => if spec_expired(exp, now) {
            Err(AuthError::TokenExpired)
        } else {
            Ok(ClaimsView { sub, exp })
        },
        _ => Err(AuthError::InvalidToken(TokenFault::IncompleteClaims)),
    }
}

/// What verification under a given key yields at `now`.
pub open spec fn spec_verify(
    token: Seq<char>,
    key: jsonwebtoken::DecodingKey,
    validation: ValidationView,
    now: i64,
) -> Result<ClaimsView, AuthError> {
    match decoded_payload(
        token,
        key,
        validation.algorithm.spec_name(),
        validation.audience,
        validation.issuer,
        spec_required_claims(validation),
    ) {
        None => Err(AuthError::InvalidToken(TokenFault::Rejected)),
        Some(payload) => spec_claims_of(payload, now),
    }
}

/// The validation that the service's configuration stands for: RS256, the
/// configured audience and the configured issuer.
pub open spec fn spec_validation(audience: Seq<char>, issuer: Seq<char>) -> ValidationView {
    ValidationView { algorithm: Algorithm::RS256, audience: Some(audience), issuer: Some(issuer) }
}

/// What the whole verification of a token against a key set yields at `now`:
/// header, key, signature and claims, expiry, in that order.
pub open spec fn spec_validate(
    token: Seq<char>,
    keys: Seq<JwkView>,
    audience: Seq<char>,
    issuer: Seq<char>,
    now: i64,
) -> Result<ClaimsView, AuthError> {
    match spec_key_id(token) {
        Err(err) => Err(err),
        Ok(kid) => match spec_select(keys, kid) {
            Err(err) => Err(AuthError::InvalidToken(TokenFault::Key(err))),
            Ok(key) => spec_verify(token, key, spec_validation(audience, issuer), now),
        },
    }
}

/// How far the verification of a token against a key set gets at `now`.
pub open spec fn spec_stage(
    token: Seq<char>,
    keys: Seq<JwkView>,
    audience: Seq<char>,
    issuer: Seq<char>,
    now: i64,
) -> Stage {
    match spec_key_id(token) {
        Err(_) => Stage::Start,
        Ok(kid) => match spec_select(keys, kid) {
            Err(_) => Stage::KeySetResolved,
            Ok(key) => match decoded_payload(
                token,
                key,
                Algorithm::RS256.spec_name(),
                Some(audience),
                Some(issuer),
                spec_required_claims(spec_validation(audience, issuer)),
            ) {
                Some(PayloadView { sub: Some(_), exp: Some(exp) }) => if spec_expired(exp, now) {
                    Stage::CryptoVerified
                } else {
                    Stage::Accepted
                },
                _ => Stage::KeyResolved,
            },
        },
    }
}

/// Whether an outcome of the validator is the expected one: the same error,
/// or claims with the expected subject and expiry.
pub open spec fn agrees(
    outcome: Result<Claims, AuthError>,
    expected: Result<ClaimsView, AuthError>,
) -> bool {
    match outcome {
        Ok(claims) => expected == Ok::<ClaimsView, AuthError>(claims.deep_view()),
        Err(err) => expected == Err::<ClaimsView, AuthError>(err),
    }
}

/// The key id that a token's header names. No signature is checked here.
pub fn key_id(token: &str) -> (r: Result<String, AuthError>)
    ensures
        match r {
            Ok(kid) => spec_key_id(token@) == Ok::<Seq<char>, AuthError>(kid@),
            Err(err) => spec_key_id(token@) == Err::<Seq<char>, AuthError>(err),
        },
{
    match decode_header_kid(token) {
        Ok(Some(kid)) => Ok(kid),
        Ok(None) => Err(AuthError::InvalidToken(TokenFault::MissingKeyId)),
        Err(_) => Err(AuthError::InvalidToken(TokenFault::Malformed)),
    }
}

/// The key id of a token, for the HTTP layer: any fault of the header reads
/// "invalid token".
pub fn extract_kid(token: &str) -> (r: Result<String, ApiError>)
    ensures
        match r {
            Ok(kid) => spec_key_id(token@) == Ok::<Seq<char>, AuthError>(kid@),
            Err(err) => spec_key_id(token@) is Err && err.deep_view() == spec_from_auth(
                spec_key_id(token@)->Err_0,
            ),
        },
{
    match key_id(token) {
        Ok(kid) => Ok(kid),
        Err(err) => Err(ApiError::from(err)),
    }
}

/// Expiry at a given time: `TokenExpired` from the second `exp` names on.
pub fn check_expiration(claims: &Claims, now: i64) -> (r: Result<(), AuthError>)
    ensures
        r == (if spec_expired(claims.exp, now) {
            Err::<(), AuthError>(AuthError::TokenExpired)
        } else {
            Ok::<(), AuthError>(())
        }),
{
    if claims.exp <= now {
        Err(AuthError::TokenExpired)
    } else {
        Ok(())
    }
}

/// Expiry at the time the clock shows when it is asked.
pub fn validate_expiration(claims: &Claims) -> (r: Result<(), AuthError>)
    ensures
        r is Ok || r == Err::<(), AuthError>(AuthError::TokenExpired),
        exists|now: i64| r is Err <==> #[trigger] spec_expired(claims.exp, now),
{
    let now: i64 = unix_now();
    let r = check_expiration(claims, now);
    assert(r is Err <==> spec_expired(claims.exp, now));
    r
}

/// Expiry at the time the clock shows, for the HTTP layer: "token expired".
pub fn verify_exp(claims: &Claims) -> (r: Result<(), ApiError>)
    ensures
        r matches Err(err) ==> err.deep_view() == spec_from_auth(AuthError::TokenExpired),
        exists|now: i64| r is Err <==> #[trigger] spec_expired(claims.exp, now),
{
    match validate_expiration(claims) {
        Ok(()) => Ok(()),
        Err(err) => Err(ApiError::from(err)),
    }
}

/// The claims of a verified payload, checked for expiry at `now`. A payload
/// without a subject or an expiry is refused before expiry is looked at.
pub fn claims_of(payload: Payload, now: i64) -> (r: Result<Claims, AuthError>)
    ensures
        agrees(r, spec_claims_of(payload.deep_view(), now)),
{
    match (payload.sub, payload.exp) {
        (Some(sub), Some(exp)) => {
            let claims = Claims { sub, exp };
            match check_expiration(&claims, now) {
                Ok(()) => Ok(claims),
                Err(err) => Err(err),
            }
        },
        _ => Err(AuthError::InvalidToken(TokenFault::IncompleteClaims)),
    }
}

/// Verifies a token under a key at `now`: first signature, algorithm, audience
/// and issuer together, then, only where those hold, expiry.
pub fn verify_at(
    token: &str,
    key: &jsonwebtoken::DecodingKey,
    validation: &Validation,
    now: i64,
) -> (r: Result<Claims, AuthError>)
    ensures
        agrees(r, spec_verify(token@, *key, validation.deep_view(), now)),
{
    let required: Vec<String> = validation.required_claims();
    match decode_payload(
        token,
        key,
        validation.algorithm.name(),
        &validation.audience,
        &validation.issuer,
        &required,
    ) {
        Ok(payload) => claims_of(payload, now),
        Err(_) => Err(AuthError::InvalidToken(TokenFault::Rejected)),
    }
}

/// Verifies a token under a key at the time the clock shows.
pub fn validate_and_get_claims(
    token: &str,
    key: &jsonwebtoken::DecodingKey,
    validation: &Validation,
) -> (r: Result<Claims, AuthError>)
    ensures
        exists|now: i64| #[trigger]
            agrees(r, spec_verify(token@, *key, validation.deep_view(), now)),
{
    let now: i64 = unix_now();
    let r = verify_at(token, key, validation, now);
    assert(agrees(r, spec_verify(token@, *key, validation.deep_view(), now)));
    r
}

/// Verifies a token under a key at the time the clock shows, for the HTTP
/// layer: "token expired" for an expired token, "invalid token" for any other
/// failure.
pub fn decode_and_verify(
    token: &str,
    key: &jsonwebtoken::DecodingKey,
    validation: &Validation,
) -> (r: Result<Claims, ApiError>)
    ensures
        exists|now: i64|
            match r {
                Ok(claims) => #[trigger] spec_verify(token@, *key, validation.deep_view(), now)
                    == Ok::<ClaimsView, AuthError>(claims.deep_view()),
                Err(err) => spec_verify(token@, *key, validation.deep_view(), now) is Err
                    && err.deep_view() == spec_from_auth(
                    spec_verify(token@, *key, validation.deep_view(), now)->Err_0,
                ),
            },
{
    let now: i64 = unix_now();
    let ghost expected = spec_verify(token@, *key, validation.deep_view(), now);
    match verify_at(token, key, validation, now) {
        Ok(claims) => {
            assert(expected == Ok::<ClaimsView, AuthError>(claims.deep_view()));
            Ok(claims)
        },
        Err(err) => {
            assert(expected == Err::<ClaimsView, AuthError>(err));
            Err(ApiError::from(err))
        },
    }
}

/// The validation for an expected audience and issuer, with RS256 as the
/// fixed algorithm.
pub fn build_validation(audience: &str, issuer: &str) -> (r: Validation)
    ensures
        r.deep_view() == spec_validation(audience@, issuer@),
{
    let mut validation = Validation::new(Algorithm::RS256);
    validation.set_audience(audience);
    validation.set_issuer(issuer);
    validation
}

/// The validation that a configuration stands for.
pub fn create_validation(config: &Config) -> (r: Validation)
    ensures
        r.deep_view() == spec_validation(config.jwt_audience@, config.jwt_issuer@),
{
    build_validation(config.jwt_audience.as_str(), config.jwt_issuer.as_str())
}

/// Selects the decoding key that a token's key id names in a key set.
pub fn extract_decoding_key(keys: &KeySet, kid: &str) -> (r: Result<
    jsonwebtoken::DecodingKey,
    AuthError,
>)
    ensures
        match spec_select(keys@, kid@) {
            Ok(key) => r == Ok::<jsonwebtoken::DecodingKey, AuthError>(key),
            Err(err) => r == Err::<jsonwebtoken::DecodingKey, AuthError>(
                AuthError::InvalidToken(TokenFault::Key(err)),
            ),
        },
{
    match select(keys, kid) {
        Ok(key) => Ok(key),
        Err(err) => Err(AuthError::InvalidToken(TokenFault::Key(err))),
    }
}

/// Verifies a token against a key set at `now`. Claims come out only where
/// every stage held: the header names a key id, the set holds a usable key
/// for it, signature, audience and issuer hold under that key, and the expiry
/// lies after `now`.
pub fn validate_at(token: &str, keys: &KeySet, config: &Config, now: i64) -> (r: Result<
    Claims,
    AuthError,
>)
    ensures
        agrees(r, spec_validate(token@, keys@, config.jwt_audience@, config.jwt_issuer@, now)),
{
    let kid: String = match key_id(token) {
        Ok(kid) => kid,
        Err(err) => {
            return Err(err);
        },
    };
    let key: jsonwebtoken::DecodingKey = match extract_decoding_key(keys, kid.as_str()) {
        Ok(key) => key,
        Err(err) => {
            return Err(err);
        },
    };
    let validation: Validation = create_validation(config);
    verify_at(token, &key, &validation, now)
}

/// Verifies a token against a key set at the time the clock shows.
pub fn validate(token: &str, keys: &KeySet, config: &Config) -> (r: Result<Claims, AuthError>)
    ensures
        exists|now: i64| #[trigger]
            agrees(r, spec_validate(token@, keys@, config.jwt_audience@, config.jwt_issuer@, now)),
{
    let now: i64 = unix_now();
    let r = validate_at(token, keys, config, now);
    assert(agrees(r, spec_validate(token@, keys@, config.jwt_audience@, config.jwt_issuer@, now)));
    r
}

/// A token is accepted, with the subject and the expiry of its payload,
/// where its header names a key id, the key set holds a usable key for it,
/// the payload verifies under that key for the expected audience and issuer,
/// and the expiry lies after `now`.
pub proof fn lemma_valid_token_accepted(
    token: Seq<char>,
    keys: Seq<JwkView>,
    audience: Seq<char>,
    issuer: Seq<char>,
    now: i64,
    kid: Seq<char>,
    key: jsonwebtoken::DecodingKey,
    sub: Seq<char>,
    exp: i64,
)
    requires
        header_key_id(token) == Some(Some(kid)),
        spec_select(keys, kid) == Ok::<jsonwebtoken::DecodingKey, KeyError>(key),
        decoded_payload(
            token,
            key,
            Algorithm::RS256.spec_name(),
            Some(audience),
            Some(issuer),
            spec_required_claims(spec_validation(audience, issuer)),
        ) == Some(PayloadView { sub: Some(sub), exp: Some(exp) }),
        exp > now,
    ensures
        spec_validate(token, keys, audience, issuer, now) == Ok::<ClaimsView, AuthError>(
            ClaimsView { sub, exp },
        ),
{
}

/// Claims come out only at the end: where a token is accepted, its header
/// names a key id, a key of the set carries that id and makes the decoding
/// key, the payload verified under it for the expected audience and issuer
/// and carries the claims handed out, and the expiry lies strictly after
/// `now`.
pub proof fn lemma_claims_only_when_all_hold(
    token: Seq<char>,
    keys: Seq<JwkView>,
    audience: Seq<char>,
    issuer: Seq<char>,
    now: i64,
    claims: ClaimsView,
)
    requires
        spec_validate(token, keys, audience, issuer, now) == Ok::<ClaimsView, AuthError>(claims),
    ensures
        claims.exp > now,
        spec_key_id(token) is Ok,
        spec_select(keys, spec_key_id(token)->Ok_0) is Ok,
        exists|i: int|
            0 <= i < keys.len() && (#[trigger] keys[i]).kid == spec_key_id(token)->Ok_0
                && rsa_decoding_key(keys[i].n, keys[i].e) == Some(
                spec_select(keys, spec_key_id(token)->Ok_0)->Ok_0,
            ),
        decoded_payload(
            token,
            spec_select(keys, spec_key_id(token)->Ok_0)->Ok_0,
            Algorithm::RS256.spec_name(),
            Some(audience),
            Some(issuer),
            spec_required_claims(spec_validation(audience, issuer)),
        ) == Some(PayloadView { sub: Some(claims.sub), exp: Some(claims.exp) }),
{
    let kid = spec_key_id(token)->Ok_0;
    lemma_find(keys, kid);
    let key = spec_select(keys, kid)->Ok_0;
    let payload = decoded_payload(
        token,
        key,
        Algorithm::RS256.spec_name(),
        Some(audience),
        Some(issuer),
        spec_required_claims(spec_validation(audience, issuer)),
    ).unwrap();
    assert(payload == PayloadView { sub: Some(claims.sub), exp: Some(claims.exp) });
}

/// A verification yields claims exactly where it gets to the last stage, and
/// an error names the stage at which it was rejected: nothing of a token
/// that fell short is handed out.
pub proof fn lemma_rejected_where_it_stopped(
    token: Seq<char>,
    keys: Seq<JwkView>,
    audience: Seq<char>,
    issuer: Seq<char>,
    now: i64,
)
    ensures
        spec_validate(token, keys, audience, issuer, now) is Ok <==> spec_stage(
            token,
            keys,
            audience,
            issuer,
            now,
        ) == Stage::Accepted,
        spec_validate(token, keys, audience, issuer, now) matches Err(err)
            ==> err.spec_rejected_at() == spec_stage(token, keys, audience, issuer, now),
{
}

/// A token whose key id no key of the set carries is refused as invalid.
pub proof fn lemma_unknown_kid_rejected(
    token: Seq<char>,
    keys: Seq<JwkView>,
    audience: Seq<char>,
    issuer: Seq<char>,
    now: i64,
    kid: Seq<char>,
)
    requires
        header_key_id(token) == Some(Some(kid)),
        forall|i: int| 0 <= i < keys.len() ==> (#[trigger] keys[i]).kid != kid,
    ensures
        spec_validate(token, keys, audience, issuer, now) == Err::<ClaimsView, AuthError>(
            AuthError::InvalidToken(TokenFault::Key(KeyError::KeyNotFound)),
        ),
{
    lemma_find(keys, kid);
}

/// A token that holds in every other respect is refused as expired from the
/// second its expiry names: at `exp` itself and at any time after.
pub proof fn lemma_expired_token_rejected(
    token: Seq<char>,
    keys: Seq<JwkView>,
    audience: Seq<char>,
    issuer: Seq<char>,
    now: i64,
    kid: Seq<char>,
    key: jsonwebtoken::DecodingKey,
    sub: Seq<char>,
    exp: i64,
)
    requires
        header_key_id(token) == Some(Some(kid)),
        spec_select(keys, kid) == Ok::<jsonwebtoken::DecodingKey, KeyError>(key),
        decoded_payload(
            token,
            key,
            Algorithm::RS256.spec_name(),
            Some(audience),
            Some(issuer),
            spec_required_claims(spec_validation(audience, issuer)),
        ) == Some(PayloadView { sub: Some(sub), exp: Some(exp) }),
        exp <= now,
    ensures
        spec_validate(token, keys, audience, issuer, now) == Err::<ClaimsView, AuthError>(
            AuthError::TokenExpired,
        ),
{
}

/// A token whose header names no key id is refused as invalid whatever the
/// key set holds, a set of one key included.
pub proof fn lemma_missing_kid_rejected(
    token: Seq<char>,
    keys: Seq<JwkView>,
    audience: Seq<char>,
    issuer: Seq<char>,
    now: i64,
)
    requires
        header_key_id(token) == Some(None::<Seq<char>>),
    ensures
        spec_validate(token, keys, audience, issuer, now) == Err::<ClaimsView, AuthError>(
            AuthError::InvalidToken(TokenFault::MissingKeyId),
        ),
{
}

/// The outcome of a verification depends on the time only through expiry:
/// a token accepted at one time is accepted with the same claims at any
/// other time before its expiry.
pub proof fn lemma_same_claims_until_expiry(
    token: Seq<char>,
    keys: Seq<JwkView>,
    audience: Seq<char>,
    issuer: Seq<char>,
    first: i64,
    second: i64,
    claims: ClaimsView,
)
    requires
        spec_validate(token, keys, audience, issuer, first) == Ok::<ClaimsView, AuthError>(claims),
        claims.exp > second,
    ensures
        spec_validate(token, keys, audience, issuer, second) == Ok::<ClaimsView, AuthError>(claims),
{
}

} // verus!
