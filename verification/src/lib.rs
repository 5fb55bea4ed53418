//! Credential authentication and session identity for a listing service:
//! validated domain values, the Basic-auth extractor, the bearer-token codec,
//! the password verifier and the authorization gate.

pub mod authentication;
pub mod create_cookie;
pub mod domain;
pub mod encoding;
pub mod gate;
pub mod get_documents_from_id;
pub mod routes;
pub mod scan;
