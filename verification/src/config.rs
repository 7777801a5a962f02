//! The immutable connection configuration and the endpoint address built
//! from it.

use vstd::prelude::*;
use vstd::string::StringExecFns;
use crate::text::{decimal_digits, append_decimal};

verus! {

/// The configuration for a client connection: where the server listens, the
/// credentials for the handshake, and an optional TLS certificate path.
/// Immutable once built.
#[derive(Clone)]
pub struct ClientConfig {
    /// The hostname of the database server.
    pub host: String,
    /// The port number on which the database server is listening.
    pub port: u32,
    /// The username for authentication.
    pub username: String,
    /// The password for authentication.
    pub password: String,
    /// The path of an optional TLS certificate used to certify the server;
    /// absence selects the plaintext transport.
    pub tls_cert: Option<String>,
}

/// The transport scheme selected by the presence of a certificate: the
/// secure scheme if and only if one is supplied.
pub open spec fn spec_scheme(tls: bool) -> Seq<char> {
    if tls {
        "https"@
    } else {
        "http"@
    }
}

/// The endpoint address `scheme://host:port` for a configuration.
pub open spec fn spec_endpoint_uri(config: &ClientConfig) -> Seq<char> {
    spec_scheme(config.tls_cert is Some) + "://"@ + config.host@ + ":"@ + decimal_digits(
        config.port as nat,
    )
}

impl ClientConfig {
    /// The transport scheme this configuration selects.
    pub fn scheme(&self) -> (r: &'static str)
        ensures
            r@ == spec_scheme(self.tls_cert is Some),
    {
        match &self.tls_cert {
            Some(_) => "https",
            None => "http",
        }
    }

    /// Builds the endpoint address `scheme://host:port`.
    pub fn endpoint_uri(&self) -> (r: String)
        ensures
            r@ == spec_endpoint_uri(self),
    {
        let mut s = String::from_str(self.scheme());
        s.append("://");
        s.append(self.host.as_str());
        s.append(":");
        append_decimal(&mut s, self.port);
        proof {
            assert(s@ =~= spec_endpoint_uri(self));
        }
        s
    }
}

/// Law: connecting without a certificate path always selects the plaintext
/// scheme, and supplying one always selects the secure scheme; the endpoint
/// address begins with exactly that scheme.
pub proof fn lemma_scheme_selection(config: &ClientConfig)
    ensures
        config.tls_cert is None ==> spec_scheme(config.tls_cert is Some) == "http"@,
        config.tls_cert is Some ==> spec_scheme(config.tls_cert is Some) == "https"@,
        spec_endpoint_uri(config).subrange(
            0,
            spec_scheme(config.tls_cert is Some).len() as int,
        ) == spec_scheme(config.tls_cert is Some),
{
    let scheme = spec_scheme(config.tls_cert is Some);
    assert(spec_endpoint_uri(config).subrange(0, scheme.len() as int) =~= scheme);
}

} // verus!
