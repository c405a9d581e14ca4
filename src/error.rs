use vstd::prelude::*;

verus! {

/// Opaque error reported by rustls when it rejects certificate or key material.
#[verifier::external_type_specification]
#[verifier::external_body]
pub struct ExRustlsError(rustls::Error);

/// Why a configuration step or a connector resolution failed.
#[derive(Debug)]
pub enum TlsError {
    /// No server identity is configured and the target has no host.
    InvalidTargetUri,
    /// A host or a domain name is not usable as a TLS server name.
    InvalidServerName,
    /// The TLS library rejected the trust anchor or the client identity.
    ConnectorConstructionFailed(rustls::Error),
}

} // verus!
