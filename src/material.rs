use vstd::prelude::*;

verus! {

/// A DER-encoded certificate, used as a trust anchor or as a client certificate.
#[derive(Debug)]
pub struct Certificate {
    der: Vec<u8>,
}

impl View for Certificate {
    type V = Seq<u8>;

    closed spec fn view(&self) -> Seq<u8> {
        self.der@
    }
}

impl Certificate {
    /// Wraps DER-encoded certificate bytes.
    pub fn from_der(der: Vec<u8>) -> (r: Certificate)
        ensures
            r@ == der@,
    {
        Certificate { der }
    }

    /// The DER-encoded bytes.
    pub fn as_der(&self) -> (r: &[u8])
        ensures
            r@ == self@,
    {
        self.der.as_slice()
    }
}

impl Clone for Certificate {
    fn clone(&self) -> (r: Certificate)
        ensures
            r@ == self@,
    {
        Certificate { der: self.der.clone() }
    }
}

/// What a client presents for mutual TLS: its certificate and its private key.
#[derive(Debug)]
pub struct Identity {
    cert: Certificate,
    key: Vec<u8>,
}

impl View for Identity {
    type V = (Seq<u8>, Seq<u8>);

    closed spec fn view(&self) -> (Seq<u8>, Seq<u8>) {
        (self.cert@, self.key@)
    }
}

impl Identity {
    /// Pairs a DER-encoded certificate with its DER-encoded private key.
    pub fn from_der(cert: Vec<u8>, key: Vec<u8>) -> (r: Identity)
        ensures
            r@ == (cert@, key@),
    {
        Identity { cert: Certificate::from_der(cert), key }
    }

    /// The client certificate.
    pub fn certificate(&self) -> (r: &Certificate)
        ensures
            r@ == self@.0,
    {
        &self.cert
    }

    /// The DER-encoded private key.
    pub fn key_der(&self) -> (r: &[u8])
        ensures
            r@ == self@.1,
    {
        self.key.as_slice()
    }
}

impl Clone for Identity {
    fn clone(&self) -> (r: Identity)
        ensures
            r@ == self@,
    {
        Identity { cert: self.cert.clone(), key: self.key.clone() }
    }
}

/// What an optional certificate holds.
pub open spec fn certificate_view(c: Option<Certificate>) -> Option<Seq<u8>> {
    match c {
        Some(c) => Some(c@),
        None => None,
    }
}

/// What an optional client identity holds.
pub open spec fn identity_view(i: Option<Identity>) -> Option<(Seq<u8>, Seq<u8>)> {
    match i {
        Some(i) => Some(i@),
        None => None,
    }
}

} // verus!
