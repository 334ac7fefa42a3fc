//! Automated player for an image-identification quiz: an answer store keyed by
//! image fingerprints, and the decisions of the login and game protocol.
pub mod error;
pub mod fingerprint;
pub mod login;
pub mod options;
pub mod play;
pub mod protocol;
pub mod session;
pub mod store;
