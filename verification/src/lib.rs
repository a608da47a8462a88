//! Core logic of a command-line client for a remote object store: the
//! session/authorization manager, the error classifier and retry policy,
//! and the chunked streaming transfer workers, all verified. Network
//! transport, the command line and the credential file are collaborators
//! that the surrounding binary supplies.

pub mod chunking;
pub mod dispatch;
pub mod download;
pub mod errors;
pub mod hashing;
pub mod session;
pub mod upload;
