//! Connecting a transport: a plain stream, or a TLS stream over one.
//!
//! The streams themselves are the driver's. [`Transport`] says which of the
//! two carries an exchange, and [`Connecting`] decides the steps of a
//! connect: the host is resolved to a server identity, the raw connection is
//! opened, and a TLS handshake follows where encryption is asked for.

use crate::outcome::Outcome;
use rustls_pki_types::{InvalidDnsNameError, ServerName};
use std::sync::Arc;
use vstd::prelude::*;

verus! {

/// `rustls_pki_types::InvalidDnsNameError`, carried through unread.
#[verifier::external_type_specification]
#[verifier::external_body]
pub struct ExInvalidDnsNameError(InvalidDnsNameError);

/// The stream that carries an exchange.
#[derive(Debug, Clone, Copy, PartialEq, Eq, Structural)]
pub enum Transport {
    /// A raw stream.
    Tcp,
    /// A TLS stream over a raw stream.
    Tls,
}

/// Why a connect failed.
#[derive(Debug, Clone)]
pub enum TransportError {
    /// The host is neither a DNS name nor an IP address.
    InvalidDnsName(Arc<InvalidDnsNameError>),
    /// The raw connection could not be opened.
    TcpConnect(Arc<std::io::Error>),
    /// The TLS handshake failed.
    TlsConnect(Arc<std::io::Error>),
}

/// How a host identifies a server.
#[derive(Debug, Clone, Copy, PartialEq, Eq, Structural)]
pub enum ServerKind {
    /// By a DNS name, which a TLS handshake announces.
    DnsName,
    /// By an IP address.
    IpAddress,
}

/// How `rustls_pki_types` reads a host: as a DNS name, as an IP address, or
/// as neither.
pub uninterp spec fn server_kind_of(host: Seq<char>) -> Option<ServerKind>;

/// `ServerName::try_from` on a string: which of the two identities the host
/// is read as, or the error where it is read as neither.
#[verifier::external_body]
fn server_kind(host: &str) -> (kind: Result<ServerKind, InvalidDnsNameError>)
    ensures
        match kind {
            Ok(k) => server_kind_of(host@) == Some(k),
            Err(_) => server_kind_of(host@) is None,
        },
{
    match ServerName::try_from(host) {
        Ok(ServerName::IpAddress(_)) => Ok(ServerKind::IpAddress),
        Ok(_) => Ok(ServerKind::DnsName),
        Err(cause) => Err(cause),
    }
}

/// A connect in flight.
#[derive(Debug)]
pub enum Connecting {
    /// The driver is opening a raw connection to `host`, which is a
    /// server identity of kind `server`, on `port`. A TLS handshake follows
    /// if `tls` is set.
    Raw { server: ServerKind, host: String, port: u16, tls: bool },
    /// The driver is performing the TLS handshake for the server `host` over
    /// the raw connection.
    Handshake { server: ServerKind, host: String },
}

/// What the driver does after a poll of a connect.
#[derive(Debug)]
pub enum Connected {
    /// The raw connection is open: go on with the handshake.
    Continue(Connecting),
    /// Nothing moved: poll again when woken.
    Pending(Connecting),
    /// The transport is connected.
    Ready(Transport),
    /// The connect failed. Nothing is tried again.
    Failed(TransportError),
}

/// What a connect in flight says, with text as a sequence of characters.
pub enum ConnectingView {
    Raw { server: ServerKind, host: Seq<char>, port: u16, tls: bool },
    Handshake { server: ServerKind, host: Seq<char> },
}

impl View for Connecting {
    type V = ConnectingView;

    open spec fn view(&self) -> ConnectingView {
        match *self {
            Connecting::Raw { server, host, port, tls } => ConnectingView::Raw {
                server,
                host: host@,
                port,
                tls,
            },
            Connecting::Handshake { server, host } => ConnectingView::Handshake { server, host: host@ },
        }
    }
}

/// How one poll takes a connect on, given what the driver saw.
pub open spec fn connects(pre: ConnectingView, outcome: Outcome, result: Connected) -> bool {
    match outcome {
        Outcome::Pending => result matches Connected::Pending(same) && same@ == pre,
        Outcome::Failed(fault) => match pre {
            ConnectingView::Raw { .. } => result matches Connected::Failed(
                TransportError::TcpConnect(cause),
            ) && *cause == fault,
            ConnectingView::Handshake { .. } => result matches Connected::Failed(
                TransportError::TlsConnect(cause),
            ) && *cause == fault,
        },
        Outcome::Ready(_) => match pre {
            ConnectingView::Raw { server, host, port, tls } => if tls {
                result matches Connected::Continue(next) && next@ == (ConnectingView::Handshake {
                    server,
                    host,
                })
            } else {
                result == Connected::Ready(Transport::Tcp)
            },
            ConnectingView::Handshake { .. } => result == Connected::Ready(Transport::Tls),
        },
    }
}

impl Transport {
    /// Begins a connect to `host` on `port`, encrypted if `tls` is set.
    ///
    /// The host must be a server identity: a DNS name or an IP address. The
    /// connect then starts with the raw connection; a host that is neither
    /// fails it before anything is opened.
    pub fn connect(tls: bool, host: &str, port: u16) -> (begun: Result<Connecting, TransportError>)
        ensures
            match server_kind_of(host@) {
                Some(server) => begun matches Ok(connecting) && connecting@ == (ConnectingView::Raw {
                    server,
                    host: host@,
                    port,
                    tls,
                }),
                None => begun matches Err(TransportError::InvalidDnsName(_)),
            },
    {
        Connecting::begin(server_kind(host), tls, host, port)
    }
}

impl Connecting {
    /// Begins a connect to a host that was read as `server`: with the raw
    /// connection where it is a server identity, and not at all where it was
    /// refused.
    pub fn begin(
        server: Result<ServerKind, InvalidDnsNameError>,
        tls: bool,
        host: &str,
        port: u16,
    ) -> (begun: Result<Connecting, TransportError>)
        ensures
            match server {
                Ok(kind) => begun matches Ok(connecting) && connecting@ == (ConnectingView::Raw {
                    server: kind,
                    host: host@,
                    port,
                    tls,
                }),
                Err(cause) => begun matches Err(TransportError::InvalidDnsName(kept)) && *kept
                    == cause,
            },
    {
        match server {
            Ok(server) => Ok(Connecting::Raw { server, host: host.to_owned(), port, tls }),
            Err(cause) => Err(TransportError::InvalidDnsName(Arc::new(cause))),
        }
    }

    /// Moves the connect on by what the driver saw of the step in flight.
    ///
    /// A pending outcome leaves the connect as it is. A fault ends it, as a
    /// failure of the step in flight. When the raw connection is open, the
    /// handshake follows if encryption was asked for, and the transport is
    /// the raw stream otherwise; when the handshake is done, the transport is
    /// the TLS stream.
    pub fn poll(self, outcome: Outcome) -> (result: Connected)
        ensures
            connects(self@, outcome, result),
    {
        match outcome {
            Outcome::Pending => Connected::Pending(self),
            Outcome::Failed(fault) => match self {
                Connecting::Raw { .. } => Connected::Failed(TransportError::TcpConnect(Arc::new(fault))),
                Connecting::Handshake { .. } => Connected::Failed(
                    TransportError::TlsConnect(Arc::new(fault)),
                ),
            },
            Outcome::Ready(_) => match self {
                Connecting::Raw { server, host, port, tls } => if tls {
                    Connected::Continue(Connecting::Handshake { server, host })
                } else {
                    Connected::Ready(Transport::Tcp)
                },
                Connecting::Handshake { .. } => Connected::Ready(Transport::Tls),
            },
        }
    }
}

} // verus!
