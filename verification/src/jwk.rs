//! Key sets: the document a key source publishes, read into plain values, and
//! the selection of a decoding key by key id.

use vstd::prelude::*;
use crate::error::{FetchError, KeyError};
use crate::text::same_text;

verus! {

/// A decoding key of `jsonwebtoken`, carried from the selector to the
/// validator as it is.
#[verifier::external_type_specification]
#[verifier::external_body]
pub struct ExDecodingKey(jsonwebtoken::DecodingKey);

/// The error of `jsonwebtoken`. Nothing is read of it: every one is mapped to
/// an error of this library where it comes back.
#[verifier::external_type_specification]
#[verifier::external_body]
pub struct ExJwtError(jsonwebtoken::errors::Error);

/// The error of `serde_json`, mapped in the same way.
#[verifier::external_type_specification]
#[verifier::external_body]
pub struct ExJsonError(serde_json::Error);

/// One key of a key-set document as the JSON reader hands it out, before the
/// shape that this library asks for has been checked.
#[derive(Debug, Clone)]
pub struct ParsedKey {
    /// The `kid` member, where the key has one.
    pub kid: Option<String>,
    /// The `n` and `e` members, where the key is an RSA key.
    pub rsa: Option<(String, String)>,
}

pub struct ParsedKeyView {
    pub kid: Option<Seq<char>>,
    pub rsa: Option<(Seq<char>, Seq<char>)>,
}

impl DeepView for ParsedKey {
    type V = ParsedKeyView;

    open spec fn deep_view(&self) -> ParsedKeyView {
        ParsedKeyView {
            kid: match self.kid {
                Some(kid) => Some(kid@),
                None => None,
            },
            rsa: match self.rsa {
                Some((n, e)) => Some((n@, e@)),
                None => None,
            },
        }
    }
}

/// A signing key: its identifier and the two components of an RSA public
/// key, base64url-encoded as in the document.
#[derive(Debug, Clone)]
pub struct Jwk {
    pub kid: String,
    pub n: String,
    pub e: String,
}

pub struct JwkView {
    pub kid: Seq<char>,
    pub n: Seq<char>,
    pub e: Seq<char>,
}

impl DeepView for Jwk {
    type V = JwkView;

    open spec fn deep_view(&self) -> JwkView {
        JwkView { kid: self.kid@, n: self.n@, e: self.e@ }
    }
}

/// A snapshot of the keys of one source. It is built whole and never changed.
#[derive(Debug, Clone)]
pub struct KeySet {
    keys: Vec<Jwk>,
}

impl View for KeySet {
    type V = Seq<JwkView>;

    closed spec fn view(&self) -> Seq<JwkView> {
        self.keys.deep_view()
    }
}

/// What `serde_json::from_str` makes of `body` read as a
/// `jsonwebtoken::jwk::JwkSet`: the keys in document order, or `None` where the
/// text is no such document.
pub uninterp spec fn parsed_key_set(body: Seq<char>) -> Option<Seq<ParsedKeyView>>;

/// What `jsonwebtoken::DecodingKey::from_rsa_components` makes of a modulus and
/// an exponent: the key, or `None` where it refuses them.
pub uninterp spec fn rsa_decoding_key(n: Seq<char>, e: Seq<char>) -> Option<
    jsonwebtoken::DecodingKey,
>;

/// Reads a key-set document with `serde_json::from_str` into a
/// `jsonwebtoken::jwk::JwkSet` and hands out, for each key in order, its key id
/// and, for an RSA key, its modulus and exponent. Trusted: the result is the
/// named reading of `body`.
#[verifier::external_body]
fn read_key_set(body: &str) -> (r: Result<Vec<ParsedKey>, serde_json::Error>)
    ensures
        parsed_key_set(body@) == match r {
            Ok(keys) => Some(keys.deep_view()),
            Err(_) => None,
        },
{
    let set: jsonwebtoken::jwk::JwkSet = serde_json::from_str(body)?;
    Ok(set.keys.into_iter().map(|key| ParsedKey {
        kid: key.common.key_id,
        rsa: match key.algorithm {
            jsonwebtoken::jwk::AlgorithmParameters::RSA(rsa) => Some((rsa.n, rsa.e)),
            jsonwebtoken::jwk::AlgorithmParameters::EllipticCurve(_) => None,
            jsonwebtoken::jwk::AlgorithmParameters::OctetKey(_) => None,
            jsonwebtoken::jwk::AlgorithmParameters::OctetKeyPair(_) => None,
        },
    }).collect())
}

/// Builds a decoding key with `jsonwebtoken::DecodingKey::from_rsa_components`.
/// Trusted: the result is the named key of the two components, an error where
/// there is none.
#[verifier::external_body]
fn decoding_key_from_rsa(n: &str, e: &str) -> (r: Result<
    jsonwebtoken::DecodingKey,
    jsonwebtoken::errors::Error,
>)
    ensures
        rsa_decoding_key(n@, e@) == match r {
            Ok(key) => Some(key),
            Err(_) => None,
        },
{
    jsonwebtoken::DecodingKey::from_rsa_components(n, e)
}

/// Every key carries a key id and RSA components.
pub open spec fn well_shaped(keys: Seq<ParsedKeyView>) -> bool {
    forall|i: int| 0 <= i < keys.len() ==> (#[trigger] keys[i]).kid is Some && keys[i].rsa is Some
}

/// The keys of a well-shaped document.
pub open spec fn shaped(keys: Seq<ParsedKeyView>) -> Seq<JwkView> {
    Seq::new(
        keys.len(),
        |i: int|
            JwkView {
                kid: keys[i].kid.unwrap(),
                n: keys[i].rsa.unwrap().0,
                e: keys[i].rsa.unwrap().1,
            },
    )
}

/// The key set that a document's text stands for, `None` where it is no
/// key-set document of the expected shape.
pub open spec fn spec_parse(body: Seq<char>) -> Option<Seq<JwkView>> {
    match parsed_key_set(body) {
        Some(keys) => if well_shaped(keys) {
            Some(shaped(keys))
        } else {
            None
        },
        None => None,
    }
}

/// The first key of `keys` whose key id is exactly `kid`.
pub open spec fn spec_find(keys: Seq<JwkView>, kid: Seq<char>) -> Option<JwkView>
    decreases keys.len(),
{
    if keys.len() == 0 {
        None
    } else if keys[0].kid == kid {
        Some(keys[0])
    } else {
        spec_find(keys.drop_first(), kid)
    }
}

/// The decoding key for `kid`: the key made of the first matching entry.
pub open spec fn spec_select(keys: Seq<JwkView>, kid: Seq<char>) -> Result<
    jsonwebtoken::DecodingKey,
    KeyError,
> {
    match spec_find(keys, kid) {
        None => Err(KeyError::KeyNotFound),
        Some(jwk) => match rsa_decoding_key(jwk.n, jwk.e) {
            None => Err(KeyError::KeyMaterialInvalid),
            Some(key) => Ok(key),
        },
    }
}

/// A key is found exactly where some entry carries the key id, and the entry
/// found carries it and stands before every other that does.
pub proof fn lemma_find(keys: Seq<JwkView>, kid: Seq<char>)
    ensures
        match spec_find(keys, kid) {
            Some(jwk) => exists|i: int|
                0 <= i < keys.len() && keys[i] == jwk && jwk.kid == kid && forall|j: int|
                    0 <= j < i ==> (#[trigger] keys[j]).kid != kid,
            None => forall|i: int| 0 <= i < keys.len() ==> (#[trigger] keys[i]).kid != kid,
        },
    decreases keys.len(),
{
    if keys.len() == 0 {
    } else if keys[0].kid == kid {
        assert(keys[0] == spec_find(keys, kid).unwrap());
    } else {
        let rest = keys.drop_first();
        lemma_find(rest, kid);
        match spec_find(rest, kid) {
            Some(jwk) => {
                let i = choose|i: int|
                    0 <= i < rest.len() && rest[i] == jwk && jwk.kid == kid && forall|j: int|
                        0 <= j < i ==> (#[trigger] rest[j]).kid != kid;
                assert(keys[i + 1] == rest[i]);
                assert forall|j: int| 0 <= j < i + 1 implies (#[trigger] keys[j]).kid != kid by {
                    if j > 0 {
                        assert(keys[j] == rest[j - 1]);
                    }
                }
            },
            None => {
                assert forall|i: int| 0 <= i < keys.len() implies (#[trigger] keys[i]).kid
                    != kid by {
                    if i > 0 {
                        assert(keys[i] == rest[i - 1]);
                    }
                }
            },
        }
    }
}

impl KeySet {
    /// A key set of the given keys, in their order.
    pub fn new(keys: Vec<Jwk>) -> (r: KeySet)
        ensures
            r@ == keys.deep_view(),
    {
        KeySet { keys }
    }

    /// How many keys the set holds.
    pub fn len(&self) -> (r: usize)
        ensures
            r == self@.len(),
    {
        self.keys.len()
    }

    /// The key at `index`, in document order.
    pub fn key(&self, index: usize) -> (r: Option<&Jwk>)
        ensures
            match r {
                Some(jwk) => index < self@.len() && jwk.deep_view() == self@[index as int],
                None => index >= self@.len(),
            },
    {
        if index < self.keys.len() {
            Some(&self.keys[index])
        } else {
            None
        }
    }

    /// Checks the shape of what the JSON reader handed out: a key set where
    /// every key has a key id and RSA components, `None` otherwise.
    pub fn from_parsed(parsed: &Vec<ParsedKey>) -> (r: Option<KeySet>)
        ensures
            match r {
                Some(set) => well_shaped(parsed.deep_view()) && set@ == shaped(parsed.deep_view()),
                None => !well_shaped(parsed.deep_view()),
            },
    {
        let ghost all = parsed.deep_view();
        let mut keys: Vec<Jwk> = Vec::new();
        let mut i: usize = 0;
        while i < parsed.len()
            invariant
                i <= parsed.len(),
                all == parsed.deep_view(),
                keys.len() == i,
                forall|j: int| 0 <= j < i ==> (#[trigger] all[j]).kid is Some && all[j].rsa is Some,
                forall|j: int| 0 <= j < i ==> (#[trigger] keys[j]).deep_view() == shaped(all)[j],
            decreases parsed.len() - i,
        {
            let entry: &ParsedKey = &parsed[i];
            assert(entry.deep_view() == all[i as int]);
            match (&entry.kid, &entry.rsa) {
                (Some(kid), Some((n, e))) => {
                    keys.push(Jwk { kid: kid.clone(), n: n.clone(), e: e.clone() });
                },
                _ => {
                    return None;
                },
            }
            i = i + 1;
        }
        let set = KeySet { keys };
        assert(set@ =~= shaped(all));
        Some(set)
    }

    /// Reads a key-set document. It is accepted where it is JSON of the
    /// key-set form and every key has `kid`, `n` and `e`; anything else is a
    /// parse failure.
    pub fn parse(body: &str) -> (r: Result<KeySet, FetchError>)
        ensures
            match r {
                Ok(set) => spec_parse(body@) == Some(set@),
                Err(err) => spec_parse(body@) is None && err == FetchError::ParseFailed,
            },
    {
        match read_key_set(body) {
            Ok(parsed) => match KeySet::from_parsed(&parsed) {
                Some(set) => Ok(set),
                None => Err(FetchError::ParseFailed),
            },
            Err(_) => Err(FetchError::ParseFailed),
        }
    }

    /// The first key whose key id is exactly `kid`.
    pub fn find(&self, kid: &str) -> (r: Option<&Jwk>)
        ensures
            match r {
                Some(jwk) => spec_find(self@, kid@) == Some(jwk.deep_view()),
                None => spec_find(self@, kid@) is None,
            },
    {
        let mut i: usize = 0;
        assert(self@.skip(0) =~= self@);
        while i < self.keys.len()
            invariant
                i <= self.keys.len(),
                spec_find(self@, kid@) == spec_find(self@.skip(i as int), kid@),
            decreases self.keys.len() - i,
        {
            let jwk: &Jwk = &self.keys[i];
            let ghost rest = self@.skip(i as int);
            assert(rest[0] == jwk.deep_view());
            assert(rest.drop_first() =~= self@.skip(i + 1));
            if same_text(jwk.kid.as_str(), kid) {
                return Some(jwk);
            }
            i = i + 1;
        }
        None
    }
}

/// Selects the decoding key for `kid`: `KeyNotFound` where no key carries
/// that id, `KeyMaterialInvalid` where the first that does has fields that
/// make no key.
pub fn select(keys: &KeySet, kid: &str) -> (r: Result<jsonwebtoken::DecodingKey, KeyError>)
    ensures
        r == spec_select(keys@, kid@),
{
    match keys.find(kid) {
        None => Err(KeyError::KeyNotFound),
        Some(jwk) => match decoding_key_from_rsa(jwk.n.as_str(), jwk.e.as_str()) {
            Ok(key) => Ok(key),
            Err(_) => Err(KeyError::KeyMaterialInvalid),
        },
    }
}

} // verus!
