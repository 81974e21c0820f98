//! From the answer of a key source to a key set in the cache.

use vstd::prelude::*;
use crate::cache::{EntryView, JwksCache};
use crate::error::FetchError;
use crate::jwk::{spec_parse, JwkView, KeySet};

verus! {

/// How one GET of a key source ended.
#[derive(Debug, Clone)]
pub enum HttpOutcome {
    /// No answer: the request failed on the network or ran out of time.
    Failed,
    /// An answer, with its status and the text of its body.
    Response { status: u16, body: String },
}

pub enum HttpOutcomeView {
    Failed,
    Response { status: u16, body: Seq<char> },
}

impl DeepView for HttpOutcome {
    type V = HttpOutcomeView;

    open spec fn deep_view(&self) -> HttpOutcomeView {
        match self {
            HttpOutcome::Failed => HttpOutcomeView::Failed,
            HttpOutcome::Response { status, body } => HttpOutcomeView::Response {
                status: *status,
                body: body@,
            },
        }
    }
}

/// The statuses that stand for success.
pub open spec fn is_success(status: u16) -> bool {
    200 <= status < 300
}

/// The key set that an outcome stands for: a failed request and a status
/// outside 2xx are fetch failures, a body that is no key-set document is a
/// parse failure.
pub open spec fn spec_key_set_of(outcome: HttpOutcomeView) -> Result<Seq<JwkView>, FetchError> {
    match outcome {
        HttpOutcomeView::Failed => Err(FetchError::FetchFailed(None)),
        HttpOutcomeView::Response { status, body } => if !is_success(status) {
            Err(FetchError::FetchFailed(Some(status)))
        } else {
            match spec_parse(body) {
                Some(keys) => Ok(keys),
                None => Err(FetchError::ParseFailed),
            }
        },
    }
}

/// Reads the key set out of the outcome of a GET.
pub fn key_set_of(outcome: &HttpOutcome) -> (r: Result<KeySet, FetchError>)
    ensures
        match r {
            Ok(keys) => spec_key_set_of(outcome.deep_view()) == Ok::<Seq<JwkView>, FetchError>(
                keys@,
            ),
            Err(err) => spec_key_set_of(outcome.deep_view()) == Err::<Seq<JwkView>, FetchError>(
                err,
            ),
        },
{
    match outcome {
        HttpOutcome::Failed => Err(FetchError::FetchFailed(None)),
        HttpOutcome::Response { status, body } => {
            if *status < 200 || *status >= 300 {
                Err(FetchError::FetchFailed(Some(*status)))
            } else {
                KeySet::parse(body.as_str())
            }
        },
    }
}

/// Takes in the outcome of a GET of `uri` made at `now`: a key set is stored
/// in place of what was cached for that source; a failure leaves the cache as
/// it is and is handed back. Nothing is tried again.
pub fn store_outcome(cache: &mut JwksCache, uri: &str, outcome: &HttpOutcome, now: i64) -> (r:
    Result<(), FetchError>)
    requires
        old(cache).wf(),
    ensures
        final(cache).wf(),
        match spec_key_set_of(outcome.deep_view()) {
            Ok(keys) => r is Ok && final(cache)@ == old(cache)@.insert(
                uri@,
                EntryView { keys, fetched_at: now },
            ),
            Err(err) => r == Err::<(), FetchError>(err) && *final(cache) == *old(cache),
        },
{
    match key_set_of(outcome) {
        Ok(keys) => {
            cache.put(uri, keys, now);
            Ok(())
        },
        Err(err) => Err(err),
    }
}

} // verus!
