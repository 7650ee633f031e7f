//! Building blocks of a certificate-management client: an ES256 key codec
//! over JSON Web Keys, the proxy policy of the outbound HTTP client, and the
//! options of the local store and of the protocol layer.

pub mod acme;
pub mod client;
pub mod crypto;
pub mod jwk;
pub mod kvdb;
