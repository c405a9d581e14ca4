use vstd::prelude::*;
use crate::error::TlsError;
use crate::material::{certificate_view, identity_view, Certificate, Identity};
use crate::server_name::{rustls_server_name, ServerIdentity};

verus! {

#[verifier::external_type_specification]
#[verifier::external_body]
pub struct ExRootCertStore(rustls::RootCertStore);

#[verifier::external_type_specification]
#[verifier::external_body]
pub struct ExClientConfig(rustls::ClientConfig);

#[verifier::external_type_specification]
#[verifier::external_body]
pub struct ExTokioTlsConnector(tokio_rustls::TlsConnector);

/// Relies on rustls::RootCertStore::empty: a store that trusts nothing yet.
#[verifier::external_body]
fn empty_root_store() -> (r: rustls::RootCertStore) {
    rustls::RootCertStore::empty()
}

/// Whether rustls can turn the DER bytes into a trust anchor.
pub uninterp spec fn trust_anchor_accepted(der: Seq<u8>) -> bool;

/// Relies on rustls::RootCertStore::add: parses one DER certificate into a trust
/// anchor of the store, or rejects it; which of the two depends on the bytes alone.
#[verifier::external_body]
fn add_root_certificate(roots: &mut rustls::RootCertStore, der: &[u8]) -> (r: Result<
    (),
    rustls::Error,
>)
    ensures
        r is Ok <==> trust_anchor_accepted(der@),
{
    roots.add(&rustls::Certificate(der.to_vec()))
}

/// Relies on rustls's client config builder (`ClientConfig::builder`,
/// `with_safe_defaults`, `with_root_certificates`, `with_no_client_auth`), none
/// of which fails: a config that offers no client certificate.
#[verifier::external_body]
fn config_without_client_auth(roots: rustls::RootCertStore) -> (r: rustls::ClientConfig) {
    rustls::ClientConfig::builder().with_safe_defaults().with_root_certificates(
        roots,
    ).with_no_client_auth()
}

/// Relies on rustls's client config builder (`ClientConfig::builder`,
/// `with_safe_defaults`, `with_root_certificates`, `with_client_auth_cert`): a
/// config that presents the certificate and key, or an error where rustls
/// rejects the key.
#[verifier::external_body]
fn config_with_client_auth(roots: rustls::RootCertStore, cert: &[u8], key: &[u8]) -> (r: Result<
    rustls::ClientConfig,
    rustls::Error,
>) {
    rustls::ClientConfig::builder().with_safe_defaults().with_root_certificates(
        roots,
    ).with_client_auth_cert(vec![rustls::Certificate(cert.to_vec())], rustls::PrivateKey(key.to_vec()))
}

/// Relies on the public field `ClientConfig::alpn_protocols`: the protocols
/// offered during the handshake are replaced by the given list.
#[verifier::external_body]
fn set_alpn_protocols(config: &mut rustls::ClientConfig, protocols: Vec<Vec<u8>>) {
    config.alpn_protocols = protocols;
}

/// Relies on tokio-rustls's `From<Arc<ClientConfig>> for TlsConnector`.
#[verifier::external_body]
fn connector_from_config(config: rustls::ClientConfig) -> (r: tokio_rustls::TlsConnector) {
    tokio_rustls::TlsConnector::from(std::sync::Arc::new(config))
}

/// What a connector was built from.
pub struct ConnectorView {
    pub server_name: Seq<char>,
    pub trust_anchor: Option<Seq<u8>>,
    pub client_identity: Option<(Seq<u8>, Seq<u8>)>,
}

/// A TLS connector ready to drive one handshake against one server name.
pub struct Connector {
    tls: tokio_rustls::TlsConnector,
    domain: rustls::ServerName,
    server_name: ServerIdentity,
    trust_anchor: Option<Certificate>,
    client_identity: Option<Identity>,
}

impl View for Connector {
    type V = ConnectorView;

    closed spec fn view(&self) -> ConnectorView {
        ConnectorView {
            server_name: self.server_name@,
            trust_anchor: certificate_view(self.trust_anchor),
            client_identity: identity_view(self.client_identity),
        }
    }
}

impl Connector {
    /// Builds a connector that validates the peer against `server_name`, trusts
    /// `trust_anchor` and presents `client_identity`. Without a client identity
    /// it succeeds exactly when rustls accepts the trust anchor, if one is given;
    /// with one, rustls may also reject the key.
    pub fn new(
        trust_anchor: Option<Certificate>,
        client_identity: Option<Identity>,
        server_name: ServerIdentity,
    ) -> (r: Result<Connector, TlsError>)
        ensures
            r matches Ok(c) ==> c@ == (ConnectorView {
                server_name: server_name@,
                trust_anchor: certificate_view(trust_anchor),
                client_identity: identity_view(client_identity),
            }),
            r matches Err(e) ==> e is ConnectorConstructionFailed,
            trust_anchor is None && client_identity is None ==> r is Ok,
            client_identity is None ==> (r is Ok <==> (trust_anchor matches Some(c)
                ==> trust_anchor_accepted(c@))),
    {
        let mut roots = empty_root_store();
        if let Some(cert) = &trust_anchor {
            if let Err(e) = add_root_certificate(&mut roots, cert.as_der()) {
                return Err(TlsError::ConnectorConstructionFailed(e));
            }
        }
        let mut config = match &client_identity {
            Some(identity) => match config_with_client_auth(
                roots,
                identity.certificate().as_der(),
                identity.key_der(),
            ) {
                Ok(config) => config,
                Err(e) => return Err(TlsError::ConnectorConstructionFailed(e)),
            },
            None => config_without_client_auth(roots),
        };
        // offer HTTP/2 ("h2") during negotiation
        set_alpn_protocols(&mut config, vec![vec![0x68u8, 0x32u8]]);
        let domain = match rustls_server_name(server_name.as_str()) {
            Ok(domain) => domain,
            Err(_) => {
                proof {
                    assert(false);
                }
                return Err(TlsError::InvalidServerName);
            },
        };
        Ok(Connector {
            tls: connector_from_config(config),
            domain,
            server_name,
            trust_anchor,
            client_identity,
        })
    }

    /// The server name that the peer's certificate is validated against.
    pub fn server_name(&self) -> (r: &ServerIdentity)
        ensures
            r@ == self@.server_name,
    {
        &self.server_name
    }

    /// The trust anchor added to the root store, if any.
    pub fn trust_anchor(&self) -> (r: Option<&Certificate>)
        ensures
            r is Some <==> self@.trust_anchor is Some,
            r matches Some(c) ==> self@.trust_anchor == Some(c@),
    {
        self.trust_anchor.as_ref()
    }

    /// The client identity presented for mutual TLS, if any.
    pub fn client_identity(&self) -> (r: Option<&Identity>)
        ensures
            r is Some <==> self@.client_identity is Some,
            r matches Some(i) ==> self@.client_identity == Some(i@),
    {
        self.client_identity.as_ref()
    }

    /// The tokio-rustls connector that performs the handshake.
    pub fn tls(&self) -> &tokio_rustls::TlsConnector {
        &self.tls
    }

    /// The server name in the form rustls takes for a handshake.
    pub fn domain(&self) -> &rustls::ServerName {
        &self.domain
    }
}

} // verus!
