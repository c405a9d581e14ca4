use vstd::prelude::*;

verus! {

/// Whether rustls accepts the text as a server name (a DNS name or an IP literal).
pub uninterp spec fn valid_server_name(s: Seq<char>) -> bool;

#[verifier::external_type_specification]
#[verifier::external_body]
pub struct ExRustlsServerName(rustls::ServerName);

#[verifier::external_type_specification]
#[verifier::external_body]
pub struct ExInvalidDnsNameError(rustls::client::InvalidDnsNameError);

/// Relies on rustls's `TryFrom<&str> for ServerName`: it succeeds exactly on the
/// texts that it validates as a DNS name or parses as an IP address, and that
/// depends on the text alone.
#[verifier::external_body]
pub(crate) fn rustls_server_name(s: &str) -> (r: Result<
    rustls::ServerName,
    rustls::client::InvalidDnsNameError,
>)
    ensures
        r is Ok <==> valid_server_name(s@),
{
    rustls::ServerName::try_from(s)
}

/// A validated TLS server name, kept as its text.
#[derive(Debug)]
pub struct ServerIdentity {
    name: String,
}

impl View for ServerIdentity {
    type V = Seq<char>;

    closed spec fn view(&self) -> Seq<char> {
        self.name@
    }
}

impl ServerIdentity {
    #[verifier::type_invariant]
    closed spec fn inv(self) -> bool {
        valid_server_name(self.name@)
    }

    /// Parses a DNS name or IP literal into a server name.
    pub fn parse(s: &str) -> (r: Result<ServerIdentity, crate::error::TlsError>)
        ensures
            r is Ok <==> valid_server_name(s@),
            r matches Ok(n) ==> n@ == s@,
            r matches Err(e) ==> e is InvalidServerName,
    {
        match rustls_server_name(s) {
            Ok(_) => Ok(ServerIdentity { name: s.to_string() }),
            Err(_) => Err(crate::error::TlsError::InvalidServerName),
        }
    }

    /// The text of the server name.
    pub fn as_str(&self) -> (r: &str)
        ensures
            r@ == self@,
            valid_server_name(r@),
    {
        proof {
            use_type_invariant(self);
        }
        self.name.as_str()
    }
}

impl Clone for ServerIdentity {
    fn clone(&self) -> (r: ServerIdentity)
        ensures
            r@ == self@,
    {
        proof {
            use_type_invariant(self);
        }
        ServerIdentity { name: self.name.clone() }
    }
}

} // verus!
