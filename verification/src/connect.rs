//! The connection handshake, modeled as a step machine.
//!
//! The verified logic decides every next action; the unverified driver
//! performs the file and network work and reports each outcome back. The
//! sequence is: read the certificate (only when one is configured), build
//! the endpoint, open the transport channel with its bounded connect
//! timeout, then perform the credential handshake. Any failure ends the
//! attempt at once with the matching error kind — there are no retries.

use vstd::prelude::*;
use crate::config::ClientConfig;
use crate::errors::ClientError;
use crate::sanitize::{filter_message, sanitized};

verus! {

/// The bounded timeout, in seconds, applied to opening the transport
/// channel — the only timeout the client enforces.
pub const CONNECT_TIMEOUT_SECS: u64 = 5;

/// Keep-alive is enabled for idle connections.
pub const KEEP_ALIVE_WHILE_IDLE: bool = true;

/// An action the driver must perform next.
pub enum ConnectAction {
    /// Read the certificate file at the configured path (local file I/O).
    ReadCertificate,
    /// Build a plaintext endpoint for the configured address.
    BuildPlainEndpoint,
    /// Build a TLS endpoint for the configured address, validated against
    /// the configured hostname, trusting the certificate read earlier.
    BuildTlsEndpoint,
    /// Open the transport channel (network I/O).
    OpenChannel,
    /// Perform the credential handshake (network I/O).
    Handshake,
}

/// Whether an action performs network I/O.
pub open spec fn action_is_network(a: ConnectAction) -> bool {
    a is OpenChannel || a is Handshake
}

/// Where a connection attempt stands.
pub enum ConnectPhase {
    /// Waiting for the certificate file to be read.
    AwaitingCertificate,
    /// Waiting for the endpoint to be built.
    AwaitingEndpoint,
    /// Waiting for the transport channel to open.
    AwaitingChannel,
    /// Waiting for the handshake verdict.
    AwaitingHandshake,
    /// The connection is established and authenticated.
    Connected,
    /// The attempt failed; no further action follows.
    Failed(ClientError),
}

/// What the driver reports after performing the pending action.
pub enum ConnectEvent {
    /// The certificate file was read; its contents follow.
    CertificateRead(String),
    /// The certificate file could not be read; the message follows.
    CertificateUnreadable(String),
    /// The endpoint, and the TLS trust configuration if any, was built.
    EndpointBuilt,
    /// The endpoint or its TLS trust configuration was rejected.
    EndpointRejected(String),
    /// The transport channel opened.
    ChannelOpened,
    /// The transport connect failed or timed out.
    ChannelRefused(String),
    /// The server accepted the credentials.
    HandshakeAccepted,
    /// The server rejected the handshake; the raw server message follows.
    HandshakeRejected(String),
}

/// A connection attempt: the configuration it follows, the phase it is in,
/// and the certificate contents once read.
pub struct Connector {
    /// The configuration the attempt follows.
    pub config: ClientConfig,
    /// The phase the attempt is in.
    pub phase: ConnectPhase,
    /// The certificate contents, once read.
    pub cert_pem: Option<String>,
}

/// The first phase and action of a connection attempt: read the certificate
/// when one is configured, otherwise build the plaintext endpoint at once.
pub open spec fn spec_connect_start(config: &ClientConfig) -> (ConnectPhase, ConnectAction) {
    if config.tls_cert is Some {
        (ConnectPhase::AwaitingCertificate, ConnectAction::ReadCertificate)
    } else {
        (ConnectPhase::AwaitingEndpoint, ConnectAction::BuildPlainEndpoint)
    }
}

/// The events a phase expects from the driver.
pub open spec fn spec_expects(phase: ConnectPhase, event: ConnectEvent) -> bool {
    match phase {
        ConnectPhase::AwaitingCertificate => event is CertificateRead || event
            is CertificateUnreadable,
        ConnectPhase::AwaitingEndpoint => event is EndpointBuilt || event is EndpointRejected,
        ConnectPhase::AwaitingChannel => event is ChannelOpened || event is ChannelRefused,
        ConnectPhase::AwaitingHandshake => event is HandshakeAccepted || event
            is HandshakeRejected,
        ConnectPhase::Connected => false,
        ConnectPhase::Failed(_) => false,
    }
}

/// The transition relation of the connection machine: from the attempt
/// `pre`, the event `event` moves it to `post` and issues `action`. A
/// rejected handshake carries the raw server message, which arrives in the
/// resulting error sanitized.
pub open spec fn spec_step(
    pre: Connector,
    event: ConnectEvent,
    post: Connector,
    action: Option<ConnectAction>,
) -> bool {
    &&& post.config == pre.config
    &&& match event {
        ConnectEvent::CertificateRead(pem) => {
            &&& post.phase is AwaitingEndpoint
            &&& post.cert_pem == Some(pem)
            &&& action == Some(ConnectAction::BuildTlsEndpoint)
        },
        ConnectEvent::CertificateUnreadable(m) => {
            &&& post.phase == ConnectPhase::Failed(ClientError::FileError(m))
            &&& post.cert_pem == pre.cert_pem
            &&& action is None
        },
        ConnectEvent::EndpointBuilt => {
            &&& post.phase is AwaitingChannel
            &&& post.cert_pem == pre.cert_pem
            &&& action == Some(ConnectAction::OpenChannel)
        },
        ConnectEvent::EndpointRejected(m) => {
            &&& post.phase == ConnectPhase::Failed(
                if pre.config.tls_cert is Some {
                    ClientError::TlsConfigError(m)
                } else {
                    ClientError::ConnectionError(m)
                },
            )
            &&& post.cert_pem == pre.cert_pem
            &&& action is None
        },
        ConnectEvent::ChannelOpened => {
            &&& post.phase is AwaitingHandshake
            &&& post.cert_pem == pre.cert_pem
            &&& action == Some(ConnectAction::Handshake)
        },
        ConnectEvent::ChannelRefused(m) => {
            &&& post.phase == ConnectPhase::Failed(ClientError::ConnectionError(m))
            &&& post.cert_pem == pre.cert_pem
            &&& action is None
        },
        ConnectEvent::HandshakeAccepted => {
            &&& post.phase is Connected
            &&& post.cert_pem == pre.cert_pem
            &&& action is None
        },
        ConnectEvent::HandshakeRejected(m) => {
            &&& post.phase matches ConnectPhase::Failed(e)
            &&& e matches ClientError::HandshakeError(fm)
            &&& fm@ == sanitized(m@)
            &&& post.cert_pem == pre.cert_pem
            &&& action is None
        },
    }
}

impl Connector {
    /// Begins a connection attempt for `config`, yielding the first action
    /// the driver must perform.
    pub fn start(config: ClientConfig) -> (r: (Connector, ConnectAction))
        ensures
            r.0.config == config,
            r.0.cert_pem is None,
            (r.0.phase, r.1) == spec_connect_start(&config),
    {
        let phase = match &config.tls_cert {
            Some(_) => ConnectPhase::AwaitingCertificate,
            None => ConnectPhase::AwaitingEndpoint,
        };
        let action = match &config.tls_cert {
            Some(_) => ConnectAction::ReadCertificate,
            None => ConnectAction::BuildPlainEndpoint,
        };
        (Connector { config, phase, cert_pem: None }, action)
    }

    /// Advances the attempt by one reported outcome, yielding the next
    /// action, or nothing when the attempt has connected or failed.
    pub fn step(&mut self, event: ConnectEvent) -> (action: Option<ConnectAction>)
        requires
            spec_expects(old(self).phase, event),
        ensures
            spec_step(*old(self), event, *final(self), action),
    {
        match event {
            ConnectEvent::CertificateRead(pem) => {
                self.cert_pem = Some(pem);
                self.phase = ConnectPhase::AwaitingEndpoint;
                Some(ConnectAction::BuildTlsEndpoint)
            },
            ConnectEvent::CertificateUnreadable(m) => {
                self.phase = ConnectPhase::Failed(ClientError::FileError(m));
                None
            },
            ConnectEvent::EndpointBuilt => {
                self.phase = ConnectPhase::AwaitingChannel;
                Some(ConnectAction::OpenChannel)
            },
            ConnectEvent::EndpointRejected(m) => {
                let err = match &self.config.tls_cert {
                    Some(_) => ClientError::TlsConfigError(m),
                    None => ClientError::ConnectionError(m),
                };
                self.phase = ConnectPhase::Failed(err);
                None
            },
            ConnectEvent::ChannelOpened => {
                self.phase = ConnectPhase::AwaitingHandshake;
                Some(ConnectAction::Handshake)
            },
            ConnectEvent::ChannelRefused(m) => {
                self.phase = ConnectPhase::Failed(ClientError::ConnectionError(m));
                None
            },
            ConnectEvent::HandshakeAccepted => {
                self.phase = ConnectPhase::Connected;
                None
            },
            ConnectEvent::HandshakeRejected(m) => {
                let fm = filter_message(m.as_str());
                self.phase = ConnectPhase::Failed(ClientError::HandshakeError(fm));
                None
            },
        }
    }
}

/// Law: while the machine waits for the certificate, no step it accepts can
/// issue a network action — network I/O can only follow a successful read.
pub proof fn lemma_certificate_phase_issues_no_network(
    pre: Connector,
    event: ConnectEvent,
    post: Connector,
    action: Option<ConnectAction>,
)
    requires
        pre.phase is AwaitingCertificate,
        spec_expects(pre.phase, event),
        spec_step(pre, event, post, action),
    ensures
        action matches Some(a) ==> !action_is_network(a),
{
}

/// Law: with a certificate path configured, the first action of a
/// connection attempt is the local certificate read — not a network action —
/// and when that read fails the attempt ends at once with a `FileError`,
/// issuing no further action; so the failure precedes any network I/O.
pub proof fn lemma_bad_certificate_fails_before_network(pre: Connector, msg: String)
    requires
        pre.config.tls_cert is Some,
        pre.phase == spec_connect_start(&pre.config).0,
    ensures
        !action_is_network(spec_connect_start(&pre.config).1),
        forall|post: Connector, action: Option<ConnectAction>|
            spec_step(pre, ConnectEvent::CertificateUnreadable(msg), post, action) ==> post.phase
                == ConnectPhase::Failed(ClientError::FileError(msg)) && action is None,
{
}

} // verus!
