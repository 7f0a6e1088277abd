use vstd::prelude::*;
use vstd::string::StringExecFns;

verus! {

/// The kinds of failure a session can meet.
#[derive(Clone, Copy, Debug, PartialEq, Eq, Structural)]
pub enum ErrorKind {
    /// The host name did not resolve to an address.
    Resolution,
    /// The byte stream to the resolved address could not be opened.
    Connect,
    /// An encrypted scheme was asked for without a trust certificate.
    Config,
    /// The TLS context could not be built or its handshake failed.
    Tls,
    /// The WebSocket upgrade was refused or malformed.
    Handshake,
    /// The URL's scheme is neither `ws` nor `wss`.
    UnsupportedScheme,
    /// A binary frame did not hold valid UTF-8.
    Decode,
    /// A read or a write failed on an open connection.
    Transport,
}

/// A failure together with the detail that is shown to the user.
#[derive(Debug, PartialEq, Eq)]
pub struct SessionError {
    pub kind: ErrorKind,
    pub detail: String,
}

/// Mathematical value of a [`SessionError`].
pub struct SessionErrorView {
    pub kind: ErrorKind,
    pub detail: Seq<char>,
}

impl View for SessionError {
    type V = SessionErrorView;

    open spec fn view(&self) -> SessionErrorView {
        SessionErrorView { kind: self.kind, detail: self.detail@ }
    }
}

/// Detail carried by a [`ErrorKind::Config`] error.
pub open spec fn missing_certificate_detail() -> Seq<char> {
    "No certificate found for tls"@
}

/// Detail carried by an [`ErrorKind::UnsupportedScheme`] error.
pub open spec fn unsupported_scheme_detail() -> Seq<char> {
    "unsupported scheme"@
}

/// Detail carried by a [`ErrorKind::Decode`] error.
pub open spec fn invalid_utf8_detail() -> Seq<char> {
    "binary frame is not valid UTF-8"@
}

/// Detail carried by a [`ErrorKind::Resolution`] error when the URL names no host.
pub open spec fn missing_host_detail() -> Seq<char> {
    "Can't parse host"@
}

/// Detail carried by a [`ErrorKind::Resolution`] error when no port is known.
pub open spec fn missing_port_detail() -> Seq<char> {
    "Can't guess port"@
}

/// What precedes the detail of a transport failure in the line shown to the user.
pub open spec fn transport_prefix() -> Seq<char> {
    "Connection Closed: "@
}

impl SessionErrorView {
    /// The single line shown to the user for this failure.
    pub open spec fn message(self) -> Seq<char> {
        if self.kind == ErrorKind::Transport {
            transport_prefix() + self.detail
        } else {
            self.detail
        }
    }
}

impl SessionError {
    /// A failure of the given kind with the given detail.
    pub fn new(kind: ErrorKind, detail: String) -> (res: SessionError)
        ensures
            res@ == (SessionErrorView { kind, detail: detail@ }),
    {
        SessionError { kind, detail }
    }

    /// The failure raised when an encrypted scheme comes without a certificate.
    pub fn missing_certificate() -> (res: SessionError)
        ensures
            res@ == (SessionErrorView { kind: ErrorKind::Config, detail: missing_certificate_detail() }),
    {
        SessionError { kind: ErrorKind::Config, detail: String::from_str("No certificate found for tls") }
    }

    /// The failure raised for a scheme other than `ws` and `wss`.
    pub fn unsupported_scheme() -> (res: SessionError)
        ensures
            res@ == (SessionErrorView {
                kind: ErrorKind::UnsupportedScheme,
                detail: unsupported_scheme_detail(),
            }),
    {
        SessionError { kind: ErrorKind::UnsupportedScheme, detail: String::from_str("unsupported scheme") }
    }

    /// The failure raised for a binary frame that is not UTF-8.
    pub fn invalid_utf8() -> (res: SessionError)
        ensures
            res@ == (SessionErrorView { kind: ErrorKind::Decode, detail: invalid_utf8_detail() }),
    {
        SessionError { kind: ErrorKind::Decode, detail: String::from_str("binary frame is not valid UTF-8") }
    }

    /// The failure raised when the URL names no host.
    pub fn missing_host() -> (res: SessionError)
        ensures
            res@ == (SessionErrorView { kind: ErrorKind::Resolution, detail: missing_host_detail() }),
    {
        SessionError { kind: ErrorKind::Resolution, detail: String::from_str("Can't parse host") }
    }

    /// The failure raised when the URL gives no port and its scheme has no default.
    pub fn missing_port() -> (res: SessionError)
        ensures
            res@ == (SessionErrorView { kind: ErrorKind::Resolution, detail: missing_port_detail() }),
    {
        SessionError { kind: ErrorKind::Resolution, detail: String::from_str("Can't guess port") }
    }

    /// The single line shown to the user for this failure.
    pub fn message(&self) -> (res: String)
        ensures
            res@ == self@.message(),
    {
        match self.kind {
            ErrorKind::Transport => String::from_str("Connection Closed: ").concat(self.detail.as_str()),
            _ => self.detail.clone(),
        }
    }
}

} // verus!
