use vstd::prelude::*;
use vstd::string::StringExecFns;
use url::Url;
use crate::error::{
    missing_certificate_detail, missing_host_detail, missing_port_detail, unsupported_scheme_detail,
    ErrorKind, SessionError, SessionErrorView,
};

verus! {

/// `url::Url`, a parsed URL. Its contents are seen only through the three
/// names below.
#[verifier::external_type_specification]
#[verifier::external_body]
pub struct ExUrl(Url);

/// The scheme that `Url::scheme` returns for a URL.
pub uninterp spec fn url_scheme(url: Url) -> Seq<char>;

/// The host that `Url::host_str` returns for a URL.
pub uninterp spec fn url_host(url: Url) -> Option<Seq<char>>;

/// The port that `Url::port_or_known_default` returns for a URL.
pub uninterp spec fn url_port(url: Url) -> Option<u16>;

/// Calls `Url::scheme` and copies the scheme into a string. The contract
/// only gives the result its name.
#[verifier::external_body]
fn scheme_of(url: &Url) -> (res: String)
    ensures
        res@ == url_scheme(*url),
{
    url.scheme().to_owned()
}

/// Calls `Url::host_str` and copies the host, where the URL has one, into a
/// string. The contract only gives the result its name.
#[verifier::external_body]
fn host_of(url: &Url) -> (res: Option<String>)
    ensures
        res is Some <==> url_host(*url) is Some,
        res is Some ==> res->0@ == url_host(*url)->0,
{
    match url.host_str() {
        Some(host) => Some(host.to_owned()),
        None => None,
    }
}

/// Calls `Url::port_or_known_default`: the port written in the URL, or else
/// the one that the crate knows for the scheme. The contract gives the
/// result its name and claims what the crate documents of the schemes `ws`
/// and `wss`: for them there always is a port.
#[verifier::external_body]
fn port_of(url: &Url) -> (res: Option<u16>)
    ensures
        res == url_port(*url),
        url_scheme(*url) == "ws"@ || url_scheme(*url) == "wss"@ ==> res is Some,
{
    url.port_or_known_default()
}

/// How the byte stream under the WebSocket is protected.
#[derive(Debug, PartialEq, Eq)]
pub enum Channel {
    /// Plain TCP, scheme `ws`.
    Plain,
    /// TLS over TCP, scheme `wss`, trusting the given certificate.
    Tls { certificate: Vec<u8> },
}

/// Mathematical value of a [`Channel`].
pub enum ChannelView {
    Plain,
    Tls { certificate: Seq<u8> },
}

impl View for Channel {
    type V = ChannelView;

    open spec fn view(&self) -> ChannelView {
        match *self {
            Channel::Plain => ChannelView::Plain,
            Channel::Tls { certificate } => ChannelView::Tls { certificate: certificate@ },
        }
    }
}

/// Where to connect and how, settled before any network activity.
#[derive(Debug, PartialEq, Eq)]
pub struct ConnectPlan {
    pub host: String,
    pub port: u16,
    pub channel: Channel,
}

/// Mathematical value of a [`ConnectPlan`].
pub struct ConnectPlanView {
    pub host: Seq<char>,
    pub port: u16,
    pub channel: ChannelView,
}

impl View for ConnectPlan {
    type V = ConnectPlanView;

    open spec fn view(&self) -> ConnectPlanView {
        ConnectPlanView { host: self.host@, port: self.port, channel: self.channel@ }
    }
}

/// Mathematical value of optional certificate bytes.
pub open spec fn certificate_view(cert: Option<Vec<u8>>) -> Option<Seq<u8>> {
    match cert {
        Some(bytes) => Some(bytes@),
        None => None,
    }
}

/// Mathematical value of what planning returns.
pub open spec fn plan_view(res: Result<ConnectPlan, SessionError>) -> Result<
    ConnectPlanView,
    SessionErrorView,
> {
    match res {
        Ok(plan) => Ok(plan@),
        Err(e) => Err(e@),
    }
}

/// The scheme of a plain connection.
pub open spec fn plain_scheme() -> Seq<char> {
    "ws"@
}

/// The scheme of an encrypted connection.
pub open spec fn tls_scheme() -> Seq<char> {
    "wss"@
}

/// Whether a scheme is one of the two that the client speaks.
pub open spec fn is_supported_scheme(scheme: Seq<char>) -> bool {
    scheme == plain_scheme() || scheme == tls_scheme()
}

/// The plan for a URL's parts and the trust material at hand.
///
/// The scheme is looked at first: any scheme other than `ws` and `wss` is
/// refused, whatever else the URL holds. A URL of one of the two schemes
/// without a host or without a known port cannot be resolved. The scheme
/// `ws` gives a plain channel and ignores the certificate; `wss` gives an
/// encrypted one and fails without a certificate.
pub open spec fn planned(
    host: Option<Seq<char>>,
    port: Option<u16>,
    scheme: Seq<char>,
    cert: Option<Seq<u8>>,
) -> Result<ConnectPlanView, SessionErrorView> {
    if !is_supported_scheme(scheme) {
        Err(
            SessionErrorView {
                kind: ErrorKind::UnsupportedScheme,
                detail: unsupported_scheme_detail(),
            },
        )
    } else if host is None {
        Err(SessionErrorView { kind: ErrorKind::Resolution, detail: missing_host_detail() })
    } else if port is None {
        Err(SessionErrorView { kind: ErrorKind::Resolution, detail: missing_port_detail() })
    } else if scheme == plain_scheme() {
        Ok(ConnectPlanView { host: host->0, port: port->0, channel: ChannelView::Plain })
    } else {
        match cert {
            Some(certificate) => Ok(
                ConnectPlanView {
                    host: host->0,
                    port: port->0,
                    channel: ChannelView::Tls { certificate },
                },
            ),
            None => Err(
                SessionErrorView { kind: ErrorKind::Config, detail: missing_certificate_detail() },
            ),
        }
    }
}

/// Settles where to connect and how from the parts of a URL, before any
/// network activity. The scheme decides first: with another scheme than
/// `ws` and `wss` the result is the unsupported-scheme error, with or
/// without host and port.
pub fn plan(host: Option<String>, port: Option<u16>, scheme: String, cert: Option<Vec<u8>>) -> (res:
    Result<ConnectPlan, SessionError>)
    ensures
        plan_view(res) == planned(
            match host {
                Some(h) => Some(h@),
                None => None,
            },
            port,
            scheme@,
            certificate_view(cert),
        ),
{
    let plain = scheme == String::from_str("ws");
    let secure = scheme == String::from_str("wss");
    if !plain && !secure {
        return Err(SessionError::unsupported_scheme());
    }
    let host = match host {
        Some(h) => h,
        None => {
            return Err(SessionError::missing_host());
        },
    };
    let port = match port {
        Some(p) => p,
        None => {
            return Err(SessionError::missing_port());
        },
    };
    if plain {
        Ok(ConnectPlan { host, port, channel: Channel::Plain })
    } else {
        match cert {
            Some(certificate) => Ok(ConnectPlan { host, port, channel: Channel::Tls { certificate } }),
            None => Err(SessionError::missing_certificate()),
        }
    }
}

/// Settles where to connect and how for a parsed URL, before any network
/// activity: the plan of the URL's host, port and scheme. A URL of another
/// scheme than `ws` and `wss` is refused as unsupported. A URL of one of the
/// two never lacks a port, so with a host it is planned whenever the
/// certificate that `wss` asks for is there.
pub fn plan_for(url: &Url, cert: Option<Vec<u8>>) -> (res: Result<ConnectPlan, SessionError>)
    ensures
        plan_view(res) == planned(
            url_host(*url),
            url_port(*url),
            url_scheme(*url),
            certificate_view(cert),
        ),
        is_supported_scheme(url_scheme(*url)) && url_host(*url) is Some ==> (res is Ok <==> (
            url_scheme(*url) == plain_scheme() || cert is Some)),
        is_supported_scheme(url_scheme(*url)) && url_host(*url) is Some && res is Err
            ==> res->Err_0@.kind == ErrorKind::Config,
{
    let host = host_of(url);
    let port = port_of(url);
    let scheme = scheme_of(url);
    plan(host, port, scheme, cert)
}

/// A scheme other than `ws` and `wss` is refused as unsupported whatever
/// host, port and certificate come with it, and that error is given for no
/// other reason.
pub proof fn unsupported_exactly_for_other_schemes(
    host: Option<Seq<char>>,
    port: Option<u16>,
    scheme: Seq<char>,
    cert: Option<Seq<u8>>,
)
    ensures
        !is_supported_scheme(scheme) ==> planned(host, port, scheme, cert) == Err::<
            ConnectPlanView,
            SessionErrorView,
        >(
            SessionErrorView {
                kind: ErrorKind::UnsupportedScheme,
                detail: unsupported_scheme_detail(),
            },
        ),
        (planned(host, port, scheme, cert) is Err && planned(host, port, scheme, cert)->Err_0.kind
            == ErrorKind::UnsupportedScheme) <==> !is_supported_scheme(scheme),
{
}

/// An encrypted scheme without a certificate never yields a plan, whatever
/// the host and the port: the failure is a configuration error where both
/// are known.
pub proof fn encrypted_scheme_needs_certificate(host: Option<Seq<char>>, port: Option<u16>)
    ensures
        planned(host, port, tls_scheme(), None) is Err,
        host is Some && port is Some ==> planned(host, port, tls_scheme(), None)->Err_0.kind
            == ErrorKind::Config,
{
    reveal_strlit("ws");
    reveal_strlit("wss");
    assert(plain_scheme().len() != tls_scheme().len());
}

/// A plain connection is planned alike with and without a certificate.
pub proof fn plain_scheme_ignores_certificate(
    host: Option<Seq<char>>,
    port: Option<u16>,
    cert: Option<Seq<u8>>,
)
    ensures
        planned(host, port, plain_scheme(), cert) == planned(host, port, plain_scheme(), None),
{
}

} // verus!
