//! Configuration for TLS connections to a server.

use vstd::prelude::*;

verus! {

/// Where the TLS material lives, and whether the peer is verified.
#[derive(Debug, Clone, PartialEq)]
pub struct SslConfig {
    /// Path to the file listing trusted certificate authorities.
    pub ca_file: String,
    /// Path to the file holding the client certificate.
    pub certificate_file: String,
    /// Path to the file holding the client private key.
    pub key_file: String,
    /// Whether the peer certificate must verify.
    pub verify_peer: bool,
}

impl SslConfig {
    /// A configuration from its paths and verification choice.
    pub fn new(ca_file: String, certificate_file: String, key_file: String, verify_peer: bool)
        -> (r: SslConfig)
        ensures
            r.ca_file@ == ca_file@,
            r.certificate_file@ == certificate_file@,
            r.key_file@ == key_file@,
            r.verify_peer == verify_peer,
    {
        SslConfig { ca_file, certificate_file, key_file, verify_peer }
    }
}

} // verus!
