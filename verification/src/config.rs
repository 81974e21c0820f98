//! What the process is configured with at start.

use vstd::prelude::*;

verus! {

/// The settings of the service. They are read once and never change.
#[derive(Debug, Clone)]
pub struct Config {
    pub database_url: String,
    pub log_level: String,
    /// Where the signing keys are published.
    pub jwks_uri: String,
    /// The audience a token must be issued for.
    pub jwt_audience: String,
    /// The issuer a token must come from.
    pub jwt_issuer: String,
}

} // verus!
