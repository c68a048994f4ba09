//! Local OAuth2 authorization-code flow with PKCE: credential lifecycle rules,
//! the loopback capture of the authorization code, and the background refresh
//! policy, stated as contracts over plain values.

pub mod error;
pub mod text;
pub mod token;
pub mod scheduler;
pub mod fetch;
pub mod pkce;
pub mod identity;
pub mod capture;
pub mod exchange;
pub mod store;
pub mod login;
pub mod photo;
pub mod monitor;
