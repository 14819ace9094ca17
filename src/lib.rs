//! Mutual-TLS client identity verification for a QUIC service: trust anchors
//! built from root certificates, chain validation, identity whitelists, the
//! error kinds reported for each failure, and the credentials and TLS
//! configuration of a peer.

pub mod assemble;
pub mod certificate;
pub mod client_auth;
pub mod domain_name;
pub mod error;
pub mod pki;
pub mod server;
pub mod tls;
