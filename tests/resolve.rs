use tonic_tls::config::ClientTlsConfig;
use tonic_tls::connector::Connector;
use tonic_tls::error::TlsError;
use tonic_tls::material::{Certificate, Identity};
use tonic_tls::server_name::ServerIdentity;

fn uri(s: &str) -> http::Uri {
    s.parse::<http::Uri>().unwrap()
}

fn name_of(r: &Result<Connector, TlsError>) -> String {
    match r {
        Ok(c) => c.server_name().as_str().to_string(),
        Err(e) => panic!("no connector: {:?}", e),
    }
}

#[test]
fn scenario_default_config_uses_uri_host() {
    let r = ClientTlsConfig::new().tls_connector(uri("https://svc.internal:443/"));
    assert_eq!(name_of(&r), "svc.internal");
    let c = r.unwrap();
    assert!(c.trust_anchor().is_none());
    assert!(c.client_identity().is_none());
}

#[test]
fn scenario_domain_name_overrides_ip_host() {
    let cfg = ClientTlsConfig::new().domain_name("override.example").unwrap();
    let r = cfg.tls_connector(uri("https://1.2.3.4:443/"));
    assert_eq!(name_of(&r), "override.example");
}

#[test]
fn scenario_empty_host_is_invalid_target() {
    let r = ClientTlsConfig::new().tls_connector(uri("https://:443/"));
    assert!(matches!(r, Err(TlsError::InvalidTargetUri)));
}

#[test]
fn override_used_without_host() {
    let name = ServerIdentity::parse("pinned.example").unwrap();
    let cfg = ClientTlsConfig::new().server_name(name);
    let r = cfg.tls_connector(uri("/only/a/path"));
    assert_eq!(name_of(&r), "pinned.example");
    let r = cfg.connector_for_host(None);
    assert_eq!(name_of(&r), "pinned.example");
    let r = cfg.connector_for_host(Some("other.example"));
    assert_eq!(name_of(&r), "pinned.example");
}

#[test]
fn host_is_parsed_into_server_name() {
    let cfg = ClientTlsConfig::new();
    let resolved = cfg.effective_server_name(Some("example.com")).unwrap();
    let parsed = ServerIdentity::parse("example.com").unwrap();
    assert_eq!(resolved.as_str(), parsed.as_str());
    assert_eq!(resolved.as_str(), "example.com");
    let r = cfg.tls_connector(uri("https://example.com/"));
    assert_eq!(name_of(&r), "example.com");
}

#[test]
fn ip_host_is_accepted() {
    let r = ClientTlsConfig::new().tls_connector(uri("https://10.0.0.7:8443/"));
    assert_eq!(name_of(&r), "10.0.0.7");
}

#[test]
fn missing_host_is_invalid_target() {
    let cfg = ClientTlsConfig::new();
    assert!(matches!(cfg.connector_for_host(None), Err(TlsError::InvalidTargetUri)));
    assert!(matches!(cfg.connector_for_host(Some("")), Err(TlsError::InvalidTargetUri)));
    assert!(matches!(cfg.effective_server_name(None), Err(TlsError::InvalidTargetUri)));
    assert!(matches!(cfg.tls_connector(uri("/no/host")), Err(TlsError::InvalidTargetUri)));
}

#[test]
fn unusable_host_is_invalid_server_name() {
    let cfg = ClientTlsConfig::new();
    assert!(matches!(cfg.connector_for_host(Some("bad host!")), Err(TlsError::InvalidServerName)));
    assert!(matches!(
        cfg.effective_server_name(Some("-leading.example")),
        Err(TlsError::InvalidServerName)
    ));
}

#[test]
fn invalid_domain_name_is_an_error() {
    let r = ClientTlsConfig::new().domain_name("not a domain");
    assert!(matches!(r, Err(TlsError::InvalidServerName)));
    let r = ClientTlsConfig::new().domain_name("");
    assert!(matches!(r, Err(TlsError::InvalidServerName)));
}

#[test]
fn server_identity_parse() {
    assert_eq!(ServerIdentity::parse("example.com").unwrap().as_str(), "example.com");
    assert_eq!(ServerIdentity::parse("1.2.3.4").unwrap().as_str(), "1.2.3.4");
    assert!(ServerIdentity::parse("").is_err());
    assert!(ServerIdentity::parse("bad name!").is_err());
}

#[test]
fn ca_certificate_keeps_client_identity() {
    let a = ClientTlsConfig::new()
        .domain_name("svc.example")
        .unwrap()
        .identity(Identity::from_der(vec![1, 2], vec![3, 4]));
    let b = a.clone().ca_certificate(Certificate::from_der(vec![9, 9, 9]));
    let ia = a.client_identity().unwrap();
    let ib = b.client_identity().unwrap();
    assert_eq!(ia.certificate().as_der(), ib.certificate().as_der());
    assert_eq!(ia.key_der(), ib.key_der());
    assert_eq!(b.trust_anchor().unwrap().as_der(), &[9u8, 9, 9][..]);
    assert!(a.trust_anchor().is_none());
    assert_eq!(a.server_identity().unwrap().as_str(), "svc.example");
    assert_eq!(b.server_identity().unwrap().as_str(), "svc.example");
}

#[test]
fn later_domain_name_wins() {
    let cfg = ClientTlsConfig::new()
        .domain_name("a.com")
        .unwrap()
        .domain_name("b.com")
        .unwrap();
    let r = cfg.tls_connector(uri("https://c.com/"));
    assert_eq!(name_of(&r), "b.com");
}

#[test]
fn later_certificate_and_identity_win() {
    let cfg = ClientTlsConfig::new()
        .ca_certificate(Certificate::from_der(vec![1]))
        .ca_certificate(Certificate::from_der(vec![2]))
        .identity(Identity::from_der(vec![3], vec![4]))
        .identity(Identity::from_der(vec![5], vec![6]));
    assert_eq!(cfg.trust_anchor().unwrap().as_der(), &[2u8][..]);
    assert_eq!(cfg.client_identity().unwrap().certificate().as_der(), &[5u8][..]);
    assert_eq!(cfg.client_identity().unwrap().key_der(), &[6u8][..]);
}

#[test]
fn malformed_trust_anchor_fails_construction() {
    let cfg = ClientTlsConfig::new().ca_certificate(Certificate::from_der(vec![1, 2, 3]));
    let r = cfg.tls_connector(uri("https://example.com/"));
    assert!(matches!(r, Err(TlsError::ConnectorConstructionFailed(_))));
}

#[test]
fn malformed_client_key_fails_construction() {
    let cfg = ClientTlsConfig::new().identity(Identity::from_der(vec![1, 2, 3], vec![4, 5, 6]));
    let r = cfg.tls_connector(uri("https://example.com/"));
    assert!(matches!(r, Err(TlsError::ConnectorConstructionFailed(_))));
}

#[test]
fn target_errors_come_before_construction() {
    let cfg = ClientTlsConfig::new().ca_certificate(Certificate::from_der(vec![1, 2, 3]));
    assert!(matches!(cfg.connector_for_host(None), Err(TlsError::InvalidTargetUri)));
}

#[test]
fn default_and_new_are_empty() {
    let d = ClientTlsConfig::default();
    assert!(d.server_identity().is_none());
    assert!(d.trust_anchor().is_none());
    assert!(d.client_identity().is_none());
    let n = ClientTlsConfig::new();
    assert!(n.server_identity().is_none());
}

#[test]
fn connector_keeps_material_and_domain() {
    let r = Connector::new(None, None, ServerIdentity::parse("node.example").unwrap());
    let c = r.unwrap();
    assert_eq!(c.server_name().as_str(), "node.example");
    assert_eq!(
        *c.domain(),
        rustls::ServerName::try_from("node.example").unwrap()
    );
}
