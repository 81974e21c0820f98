//! One verification, from the bearer token to claims or a refusal. The
//! network stands outside: where the key set has to be fetched, the caller is
//! told so, makes the request, and hands its outcome back.

use vstd::prelude::*;
use crate::cache::{fresh, served_from, EntryView, JwksCache, TTL_SECONDS};
use crate::config::Config;
use crate::error::{spec_from_auth, ApiError, AuthError};
use crate::fetch::{key_set_of, spec_key_set_of, HttpOutcome, HttpOutcomeView};
use crate::jwk::JwkView;
use crate::jwt::{
    agrees, key_id, spec_key_id, spec_validate, validate_at, Claims, ClaimsView,
};
use crate::text::{starts_with, strip_prefix};

verus! {

/// What a verification needs next.
#[derive(Debug)]
pub enum Step {
    /// The key set of the configured source is not at hand: fetch it.
    Fetch,
    /// The verification has ended.
    Done(Result<Claims, AuthError>),
}

/// The bearer token of an `Authorization` header: what follows `"Bearer "`.
pub open spec fn spec_bearer(authorization: Option<Seq<char>>) -> Option<Seq<char>> {
    match authorization {
        Some(value) => if starts_with(value, "Bearer "@) {
            Some(value.subrange("Bearer "@.len() as int, value.len() as int))
        } else {
            None
        },
        None => None,
    }
}

/// The bearer token of a request, given the text of its `Authorization`
/// header where it has one that is text. The scheme is matched exactly; the
/// token may be empty.
pub fn bearer_token<'a>(authorization: Option<&'a str>) -> (r: Result<&'a str, AuthError>)
    ensures
        match r {
            Ok(token) => spec_bearer(authorization.deep_view()) == Some(token@),
            Err(err) => spec_bearer(authorization.deep_view()) is None && err
                == AuthError::MissingToken,
        },
{
    match authorization {
        Some(value) => match strip_prefix(value, "Bearer ") {
            Some(token) => {
                assert(value@.subrange("Bearer "@.len() as int, value@.len() as int) =~= token@);
                Ok(token)
            },
            None => Err(AuthError::MissingToken),
        },
        None => Err(AuthError::MissingToken),
    }
}

/// The bearer token of a request, for the HTTP layer: "Missing token" where
/// there is none.
pub fn extract_token<'a>(authorization: Option<&'a str>) -> (r: Result<&'a str, ApiError>)
    ensures
        match r {
            Ok(token) => spec_bearer(authorization.deep_view()) == Some(token@),
            Err(err) => spec_bearer(authorization.deep_view()) is None && err.deep_view()
                == spec_from_auth(AuthError::MissingToken),
        },
{
    match bearer_token(authorization) {
        Ok(token) => Ok(token),
        Err(err) => Err(ApiError::from(err)),
    }
}

/// How a verification starts at `now`: `None` stands for a fetch. A token
/// whose header names no key id is refused before the cache is looked at; a
/// fresh entry for the configured source decides the verification at once.
pub open spec fn spec_begin(
    token: Seq<char>,
    entries: Map<Seq<char>, EntryView>,
    uri: Seq<char>,
    audience: Seq<char>,
    issuer: Seq<char>,
    now: i64,
) -> Option<Result<ClaimsView, AuthError>> {
    match spec_key_id(token) {
        Err(err) => Some(Err(err)),
        Ok(_) => match served_from(entries, uri, now) {
            Some(keys) => Some(spec_validate(token, keys, audience, issuer, now)),
            None => None,
        },
    }
}

/// How a verification ends once the fetch has come back.
pub open spec fn spec_resume(
    token: Seq<char>,
    outcome: HttpOutcomeView,
    audience: Seq<char>,
    issuer: Seq<char>,
    now: i64,
) -> Result<ClaimsView, AuthError> {
    match spec_key_set_of(outcome) {
        Err(err) => Err(AuthError::VerificationUnavailable(err)),
        Ok(keys) => spec_validate(token, keys, audience, issuer, now),
    }
}

/// Starts the verification of `token` at `now`.
pub fn begin(token: &str, cache: &JwksCache, config: &Config, now: i64) -> (r: Step)
    requires
        cache.wf(),
    ensures
        match r {
            Step::Fetch => spec_begin(
                token@,
                cache@,
                config.jwks_uri@,
                config.jwt_audience@,
                config.jwt_issuer@,
                now,
            ) is None,
            Step::Done(outcome) => match spec_begin(
                token@,
                cache@,
                config.jwks_uri@,
                config.jwt_audience@,
                config.jwt_issuer@,
                now,
            ) {
                Some(expected) => agrees(outcome, expected),
                None => false,
            },
        },
{
    match key_id(token) {
        Err(err) => Step::Done(Err(err)),
        Ok(_) => match cache.get(config.jwks_uri.as_str(), now) {
            Some(keys) => Step::Done(validate_at(token, keys, config, now)),
            None => Step::Fetch,
        },
    }
}

/// Ends the verification of `token` with the outcome of the fetch that
/// `begin` asked for. A key set that arrived is cached for the configured
/// source as of `now` and the token is verified against it; a fetch that
/// failed leaves the cache untouched and the verification unavailable.
pub fn resume(
    token: &str,
    cache: &mut JwksCache,
    config: &Config,
    outcome: &HttpOutcome,
    now: i64,
) -> (r: Result<Claims, AuthError>)
    requires
        old(cache).wf(),
    ensures
        final(cache).wf(),
        agrees(
            r,
            spec_resume(token@, outcome.deep_view(), config.jwt_audience@, config.jwt_issuer@, now),
        ),
        match spec_key_set_of(outcome.deep_view()) {
            Ok(keys) => final(cache)@ == old(cache)@.insert(
                config.jwks_uri@,
                EntryView { keys, fetched_at: now },
            ),
            Err(_) => *final(cache) == *old(cache),
        },
{
    match key_set_of(outcome) {
        Err(err) => Err(AuthError::VerificationUnavailable(err)),
        Ok(keys) => {
            let r = validate_at(token, &keys, config, now);
            cache.put(config.jwks_uri.as_str(), keys, now);
            r
        },
    }
}

/// Starts the verification of a request from the text of its
/// `Authorization` header: a request without a bearer token is refused with
/// `MissingToken`, any other goes the way of `begin`.
pub fn is_authenticated(
    authorization: Option<&str>,
    cache: &JwksCache,
    config: &Config,
    now: i64,
) -> (r: Step)
    requires
        cache.wf(),
    ensures
        match spec_bearer(authorization.deep_view()) {
            None => r == Step::Done(Err(AuthError::MissingToken)),
            Some(token) => match r {
                Step::Fetch => spec_begin(
                    token,
                    cache@,
                    config.jwks_uri@,
                    config.jwt_audience@,
                    config.jwt_issuer@,
                    now,
                ) is None,
                Step::Done(outcome) => match spec_begin(
                    token,
                    cache@,
                    config.jwks_uri@,
                    config.jwt_audience@,
                    config.jwt_issuer@,
                    now,
                ) {
                    Some(expected) => agrees(outcome, expected),
                    None => false,
                },
            },
        },
{
    match bearer_token(authorization) {
        Ok(token) => begin(token, cache, config, now),
        Err(err) => Step::Done(Err(err)),
    }
}

/// A token that was accepted is accepted again, with the same claims and
/// without a fetch, at any later time at which the cached key set is still
/// fresh and the token has not expired.
pub proof fn lemma_repeat_within_ttl(
    token: Seq<char>,
    entries: Map<Seq<char>, EntryView>,
    uri: Seq<char>,
    audience: Seq<char>,
    issuer: Seq<char>,
    first: i64,
    second: i64,
    claims: ClaimsView,
)
    requires
        spec_begin(token, entries, uri, audience, issuer, first) == Some(
            Ok::<ClaimsView, AuthError>(claims),
        ),
        entries.contains_key(uri),
        fresh(entries[uri].fetched_at, second),
        claims.exp > second,
    ensures
        spec_begin(token, entries, uri, audience, issuer, second) == Some(
            Ok::<ClaimsView, AuthError>(claims),
        ),
{
}

/// A token that was accepted against a key set just fetched is accepted
/// again, with the same claims and without a second fetch, as long as the
/// time to live of that fetch has not passed and the token has not expired.
pub proof fn lemma_repeat_after_fetch(
    token: Seq<char>,
    entries: Map<Seq<char>, EntryView>,
    uri: Seq<char>,
    audience: Seq<char>,
    issuer: Seq<char>,
    outcome: HttpOutcomeView,
    first: i64,
    second: i64,
    claims: ClaimsView,
)
    requires
        spec_resume(token, outcome, audience, issuer, first) == Ok::<ClaimsView, AuthError>(claims),
        second - first < TTL_SECONDS,
        claims.exp > second,
    ensures
        spec_key_set_of(outcome) is Ok,
        spec_begin(
            token,
            entries.insert(
                uri,
                EntryView { keys: spec_key_set_of(outcome)->Ok_0, fetched_at: first },
            ),
            uri,
            audience,
            issuer,
            second,
        ) == Some(Ok::<ClaimsView, AuthError>(claims)),
{
}

/// Once the time to live of an entry has passed, a verification asks for a
/// fetch; the key set that this one fetch brings decides every verification
/// until its own time to live has passed, with no further fetch. Until the
/// entry has run out, the keys it holds decide, whatever the source publishes
/// meanwhile.
pub proof fn lemma_refresh_after_ttl(
    token: Seq<char>,
    entries: Map<Seq<char>, EntryView>,
    uri: Seq<char>,
    audience: Seq<char>,
    issuer: Seq<char>,
    now: i64,
    fetched: Seq<JwkView>,
    later: i64,
)
    requires
        spec_key_id(token) is Ok,
        entries.contains_key(uri),
    ensures
        now - entries[uri].fetched_at >= TTL_SECONDS ==> spec_begin(
            token,
            entries,
            uri,
            audience,
            issuer,
            now,
        ) is None,
        now - entries[uri].fetched_at < TTL_SECONDS ==> spec_begin(
            token,
            entries,
            uri,
            audience,
            issuer,
            now,
        ) == Some(spec_validate(token, entries[uri].keys, audience, issuer, now)),
        later - now < TTL_SECONDS ==> spec_begin(
            token,
            entries.insert(uri, EntryView { keys: fetched, fetched_at: now }),
            uri,
            audience,
            issuer,
            later,
        ) == Some(spec_validate(token, fetched, audience, issuer, later)),
{
}

/// A token whose header names no key id is refused as invalid at once,
/// whatever the cache holds and without a fetch.
pub proof fn lemma_missing_kid_never_fetches(
    token: Seq<char>,
    entries: Map<Seq<char>, EntryView>,
    uri: Seq<char>,
    audience: Seq<char>,
    issuer: Seq<char>,
    now: i64,
)
    requires
        spec_key_id(token) is Err,
    ensures
        spec_begin(token, entries, uri, audience, issuer, now) matches Some(
            Err(AuthError::InvalidToken(_)),
        ),
{
}

/// While the key source cannot be had, no verification yields claims: a
/// failed request, an answer outside 2xx and a body that is no key-set
/// document all end in `VerificationUnavailable`.
pub proof fn lemma_no_claims_without_keys(
    token: Seq<char>,
    outcome: HttpOutcomeView,
    audience: Seq<char>,
    issuer: Seq<char>,
    now: i64,
)
    requires
        spec_key_set_of(outcome) is Err,
    ensures
        spec_resume(token, outcome, audience, issuer, now) == Err::<ClaimsView, AuthError>(
            AuthError::VerificationUnavailable(spec_key_set_of(outcome)->Err_0),
        ),
{
}

} // verus!
