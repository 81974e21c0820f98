//! Bearer-token verification for a small todo service: a key-set cache, a key
//! selector and a token validator, with the error taxonomy and request rules
//! that the service's HTTP layer relies on.

pub mod text;
pub mod error;
pub mod config;
pub mod jwk;
pub mod jwt;
pub mod cache;
pub mod fetch;
pub mod auth;
pub mod database;
pub mod todo;
pub mod extract;
