//! Session and authorization core of the Metaversitas e-learning backend:
//! bearer tokens, server-side session credentials, the profile cache, the
//! two login transports (browser cookies and Photon envelopes) and the
//! canonical error taxonomy with its transport mappings.

pub mod error;
pub mod token;
pub mod store;
pub mod session;
pub mod cookie;
pub mod profile;
pub mod photon;
pub mod authorize;
pub mod validation;
pub mod login;
pub mod domain_errors;
pub mod config;
pub mod services;
pub mod models;
