use vstd::prelude::*;
use crate::connector::{trust_anchor_accepted, Connector, ConnectorView};
use crate::error::TlsError;
use crate::material::{certificate_view, identity_view, Certificate, Identity};
use crate::server_name::{valid_server_name, ServerIdentity};

verus! {

#[verifier::external_type_specification]
#[verifier::external_body]
pub struct ExUri(http::Uri);

/// The host of a URI's authority, if it has one.
pub uninterp spec fn uri_host(uri: http::Uri) -> Option<Seq<char>>;

/// Relies on http::Uri::host: the host of the URI's authority, if it has one,
/// which depends on the URI alone.
pub assume_specification[ http::Uri::host ](uri: &http::Uri) -> (r: Option<&str>)
    ensures
        host_view(r) == uri_host(*uri),
;

/// What a configuration holds.
pub struct ConfigView {
    pub server_name: Option<Seq<char>>,
    pub trust_anchor: Option<Seq<u8>>,
    pub client_identity: Option<(Seq<u8>, Seq<u8>)>,
}

/// The configuration with nothing set.
pub open spec fn empty_config() -> ConfigView {
    ConfigView { server_name: None, trust_anchor: None, client_identity: None }
}

/// `cfg` with its server identity replaced by `name`.
pub open spec fn set_server_name(cfg: ConfigView, name: Seq<char>) -> ConfigView {
    ConfigView { server_name: Some(name), ..cfg }
}

/// `cfg` with its trust anchor replaced by `cert`.
pub open spec fn set_trust_anchor(cfg: ConfigView, cert: Seq<u8>) -> ConfigView {
    ConfigView { trust_anchor: Some(cert), ..cfg }
}

/// `cfg` with its client identity replaced by `identity`.
pub open spec fn set_client_identity(cfg: ConfigView, identity: (Seq<u8>, Seq<u8>)) -> ConfigView {
    ConfigView { client_identity: Some(identity), ..cfg }
}

/// How the server name of one connection attempt is decided.
pub enum Resolution {
    /// The peer is validated against this name.
    Name(Seq<char>),
    /// No identity is configured and the target has no host.
    InvalidTargetUri,
    /// The target's host is not usable as a server name.
    InvalidServerName,
}

/// The text of an optional host.
pub open spec fn host_view(host: Option<&str>) -> Option<Seq<char>> {
    match host {
        Some(h) => Some(h@),
        None => None,
    }
}

/// The configured server identity wins; otherwise the target's host, which must
/// be present, non-empty, and accepted as a server name.
pub open spec fn resolve(cfg: ConfigView, host: Option<Seq<char>>) -> Resolution {
    match cfg.server_name {
        Some(name) => Resolution::Name(name),
        None => match host {
            Some(h) => if h.len() == 0 {
                Resolution::InvalidTargetUri
            } else if valid_server_name(h) {
                Resolution::Name(h)
            } else {
                Resolution::InvalidServerName
            },
            None => Resolution::InvalidTargetUri,
        },
    }
}

/// `r` is the server name that `res` decides, or the error it names.
pub open spec fn name_outcome(res: Resolution, r: Result<ServerIdentity, TlsError>) -> bool {
    match res {
        Resolution::Name(n) => r matches Ok(s) && s@ == n,
        Resolution::InvalidTargetUri => r matches Err(e) && e is InvalidTargetUri,
        Resolution::InvalidServerName => r matches Err(e) && e is InvalidServerName,
    }
}

/// `r` is a connector for the name that `res` decides, built from the material
/// of `cfg`, or the error of `res`, or the error of the TLS library. Without a
/// client identity it is built exactly when rustls accepts the trust anchor, if
/// there is one.
pub open spec fn connector_outcome(
    cfg: ConfigView,
    res: Resolution,
    r: Result<Connector, TlsError>,
) -> bool {
    match res {
        Resolution::Name(n) => {
            &&& r matches Ok(c) ==> c@ == (ConnectorView {
                server_name: n,
                trust_anchor: cfg.trust_anchor,
                client_identity: cfg.client_identity,
            })
            &&& r matches Err(e) ==> e is ConnectorConstructionFailed
            &&& cfg.trust_anchor is None && cfg.client_identity is None ==> r is Ok
            &&& cfg.client_identity is None ==> (r is Ok <==> (cfg.trust_anchor matches Some(
                c,
            ) ==> trust_anchor_accepted(c)))
        },
        Resolution::InvalidTargetUri => r matches Err(e) && e is InvalidTargetUri,
        Resolution::InvalidServerName => r matches Err(e) && e is InvalidServerName,
    }
}

/// TLS settings for the connections of one endpoint.
#[derive(Debug)]
pub struct ClientTlsConfig {
    server_name: Option<ServerIdentity>,
    cert: Option<Certificate>,
    identity: Option<Identity>,
}

impl View for ClientTlsConfig {
    type V = ConfigView;

    closed spec fn view(&self) -> ConfigView {
        ConfigView {
            server_name: match self.server_name {
                Some(n) => Some(n@),
                None => None,
            },
            trust_anchor: certificate_view(self.cert),
            client_identity: identity_view(self.identity),
        }
    }
}

impl ClientTlsConfig {
    /// A configuration with no server identity, trust anchor or client identity.
    pub fn new() -> (r: ClientTlsConfig)
        ensures
            r@ == empty_config(),
    {
        ClientTlsConfig { server_name: None, cert: None, identity: None }
    }

    /// Validates the peer against `server_name`, whatever host a target has.
    pub fn server_name(self, server_name: ServerIdentity) -> (r: ClientTlsConfig)
        ensures
            r@ == set_server_name(self@, server_name@),
    {
        ClientTlsConfig { server_name: Some(server_name), ..self }
    }

    /// Validates the peer against `domain_name`, which must be a DNS name or IP
    /// literal that rustls accepts.
    pub fn domain_name(self, domain_name: &str) -> (r: Result<ClientTlsConfig, TlsError>)
        ensures
            r is Ok <==> valid_server_name(domain_name@),
            r matches Ok(c) ==> c@ == set_server_name(self@, domain_name@),
            r matches Err(e) ==> e is InvalidServerName,
    {
        match ServerIdentity::parse(domain_name) {
            Ok(name) => Ok(self.server_name(name)),
            Err(e) => Err(e),
        }
    }

    /// Trusts `ca_certificate` when validating the peer's certificate.
    pub fn ca_certificate(self, ca_certificate: Certificate) -> (r: ClientTlsConfig)
        ensures
            r@ == set_trust_anchor(self@, ca_certificate@),
    {
        ClientTlsConfig { cert: Some(ca_certificate), ..self }
    }

    /// Presents `identity` to the server for mutual TLS.
    pub fn identity(self, identity: Identity) -> (r: ClientTlsConfig)
        ensures
            r@ == set_client_identity(self@, identity@),
    {
        ClientTlsConfig { identity: Some(identity), ..self }
    }

    /// The server name for a target whose host is `host`.
    pub fn effective_server_name(&self, host: Option<&str>) -> (r: Result<ServerIdentity, TlsError>)
        ensures
            name_outcome(resolve(self@, host_view(host)), r),
    {
        match &self.server_name {
            Some(name) => Ok(name.clone()),
            None => match host {
                Some(h) => {
                    if h.is_empty() {
                        Err(TlsError::InvalidTargetUri)
                    } else {
                        ServerIdentity::parse(h)
                    }
                },
                None => Err(TlsError::InvalidTargetUri),
            },
        }
    }

    /// A connector for a target whose host is `host`.
    pub fn connector_for_host(&self, host: Option<&str>) -> (r: Result<Connector, TlsError>)
        ensures
            connector_outcome(self@, resolve(self@, host_view(host)), r),
    {
        let name = match self.effective_server_name(host) {
            Ok(name) => name,
            Err(e) => return Err(e),
        };
        let cert = match &self.cert {
            Some(c) => Some(c.clone()),
            None => None,
        };
        let identity = match &self.identity {
            Some(i) => Some(i.clone()),
            None => None,
        };
        Connector::new(cert, identity, name)
    }

    /// A connector for one connection attempt to `uri`: the configured server
    /// identity is used whatever the URI holds; otherwise the URI's host.
    pub fn tls_connector(&self, uri: http::Uri) -> (r: Result<Connector, TlsError>)
        ensures
            connector_outcome(self@, resolve(self@, uri_host(uri)), r),
            self@.server_name matches Some(n) ==> connector_outcome(
                self@,
                Resolution::Name(n),
                r,
            ),
    {
        self.connector_for_host(uri.host())
    }

    /// The configured server identity, if any.
    pub fn server_identity(&self) -> (r: Option<&ServerIdentity>)
        ensures
            r is Some <==> self@.server_name is Some,
            r matches Some(n) ==> self@.server_name == Some(n@),
    {
        self.server_name.as_ref()
    }

    /// The configured trust anchor, if any.
    pub fn trust_anchor(&self) -> (r: Option<&Certificate>)
        ensures
            r is Some <==> self@.trust_anchor is Some,
            r matches Some(c) ==> self@.trust_anchor == Some(c@),
    {
        self.cert.as_ref()
    }

    /// The configured client identity, if any.
    pub fn client_identity(&self) -> (r: Option<&Identity>)
        ensures
            r is Some <==> self@.client_identity is Some,
            r matches Some(i) ==> self@.client_identity == Some(i@),
    {
        self.identity.as_ref()
    }
}

impl Default for ClientTlsConfig {
    fn default() -> (r: ClientTlsConfig)
        ensures
            r@ == empty_config(),
    {
        ClientTlsConfig::new()
    }
}

impl Clone for ClientTlsConfig {
    fn clone(&self) -> (r: ClientTlsConfig)
        ensures
            r@ == self@,
    {
        ClientTlsConfig {
            server_name: match &self.server_name {
                Some(n) => Some(n.clone()),
                None => None,
            },
            cert: match &self.cert {
                Some(c) => Some(c.clone()),
                None => None,
            },
            identity: match &self.identity {
                Some(i) => Some(i.clone()),
                None => None,
            },
        }
    }
}

/// A configured server identity decides the server name whatever the target's
/// host is, including a target without a host.
pub proof fn lemma_configured_name_wins(cfg: ConfigView, host: Option<Seq<char>>)
    requires
        cfg.server_name is Some,
    ensures
        resolve(cfg, host) == Resolution::Name(cfg.server_name->0),
{
}

/// Without a configured server identity, a non-empty host decides the server
/// name exactly as parsing it would: its own text where rustls accepts it, an
/// invalid server name otherwise.
pub proof fn lemma_host_is_parsed(cfg: ConfigView, host: Seq<char>)
    requires
        cfg.server_name is None,
        host.len() > 0,
    ensures
        valid_server_name(host) ==> resolve(cfg, Some(host)) == Resolution::Name(host),
        !valid_server_name(host) ==> resolve(cfg, Some(host)) == Resolution::InvalidServerName,
{
}

/// Without a configured server identity, a target without a host is an invalid
/// target, and no connector comes of it.
pub proof fn lemma_missing_host_rejected(cfg: ConfigView, r: Result<Connector, TlsError>)
    requires
        cfg.server_name is None,
        connector_outcome(cfg, resolve(cfg, None), r),
    ensures
        resolve(cfg, None) == Resolution::InvalidTargetUri,
        r matches Err(e) && e is InvalidTargetUri,
{
}

/// Setting the trust anchor leaves the server identity and the client identity
/// as they were.
pub proof fn lemma_trust_anchor_keeps_rest(cfg: ConfigView, cert: Seq<u8>)
    ensures
        set_trust_anchor(cfg, cert).client_identity == cfg.client_identity,
        set_trust_anchor(cfg, cert).server_name == cfg.server_name,
        set_trust_anchor(cfg, cert).trust_anchor == Some(cert),
{
}

/// Of two settings of the same field only the later one stays in effect.
pub proof fn lemma_last_setting_wins(
    cfg: ConfigView,
    name1: Seq<char>,
    name2: Seq<char>,
    cert1: Seq<u8>,
    cert2: Seq<u8>,
    id1: (Seq<u8>, Seq<u8>),
    id2: (Seq<u8>, Seq<u8>),
    host: Option<Seq<char>>,
)
    ensures
        set_server_name(set_server_name(cfg, name1), name2) == set_server_name(cfg, name2),
        resolve(set_server_name(set_server_name(cfg, name1), name2), host) == Resolution::Name(
            name2,
        ),
        set_trust_anchor(set_trust_anchor(cfg, cert1), cert2) == set_trust_anchor(cfg, cert2),
        set_client_identity(set_client_identity(cfg, id1), id2) == set_client_identity(cfg, id2),
{
}

} // verus!
