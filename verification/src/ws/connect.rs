//! How a connection is opened: directly, or through a SOCKS5 proxy.

use crate::ws::config::Config;
use vstd::prelude::*;

verus! {

/// A way to open a connection.
#[derive(Debug)]
pub enum Route {
    /// Straight to the endpoint.
    Direct { endpoint: String },
    /// To the endpoint, through a tunnel of the proxy.
    Proxied { proxy_addr: String, endpoint: String },
}

/// Chooses how to open a connection to `endpoint`: through the proxy if one is
/// configured, directly if not.
pub fn connect(endpoint: &str, config: &Config) -> (r: Route)
    ensures
        match config.socks5_proxy {
            Some(addr) => r matches Route::Proxied { proxy_addr, endpoint: target }
                && proxy_addr@ == addr@ && target@ == endpoint@,
            None => r matches Route::Direct { endpoint: target } && target@ == endpoint@,
        },
{
    if let Some(proxy_addr) = &config.socks5_proxy {
        return Route::Proxied { proxy_addr: proxy_addr.clone(), endpoint: endpoint.to_owned() };
    }
    Route::Direct { endpoint: endpoint.to_owned() }
}

/// The host and the port of a URL, as far as it has them.
#[derive(Debug)]
pub struct UrlParts {
    pub host: Option<String>,
    /// The port that is written in the URL, or the default one of its scheme.
    pub port: Option<u16>,
}

/// [`UrlParts`], with a sequence for the host.
pub type UrlPartsView = (Option<Seq<char>>, Option<u16>);

/// The host and the port that `url::Url` finds in `text`: `None` if `Url::parse` refuses
/// the text, else what `Url::host_str` and `Url::port_or_known_default` give of its result.
pub uninterp spec fn url_parts(text: Seq<char>) -> Option<UrlPartsView>;

impl UrlParts {
    pub open spec fn parts(self) -> UrlPartsView {
        (
            match self.host {
                Some(host) => Some(host@),
                None => None,
            },
            self.port,
        )
    }
}

/// Parses `text` with `url::Url::parse` (which `str::parse` calls) and takes from the
/// result the answers of `Url::host_str` and `Url::port_or_known_default`. The contract
/// claims that they are a function of the text, named [`url_parts`], and nothing of what
/// that function is.
#[verifier::external_body]
fn parse_url(text: &str) -> (r: Option<UrlParts>)
    ensures
        match r {
            Some(parts) => url_parts(text@) == Some(parts.parts()),
            None => url_parts(text@) is None,
        },
{
    match text.parse::<url::Url>() {
        Ok(url) => Some(
            UrlParts { host: url.host_str().map(str::to_owned), port: url.port_or_known_default() },
        ),
        Err(_) => None,
    }
}

/// Why no connection could be opened through the proxy; `E` is the error of the proxy.
#[derive(Debug)]
pub enum ProxyError<E> {
    /// The endpoint is no URL, or one without a host.
    NoHostName,
    /// The proxy gave no tunnel; reported as a refused connection.
    ConnectionRefused(E),
}

/// A tunnel to ask the proxy for, and the endpoint to greet through it.
#[derive(Debug)]
pub struct Tunnel {
    pub proxy_addr: String,
    pub host: String,
    pub port: u16,
    pub endpoint: String,
}

/// The host and the port that a tunnel leads to, or `None` if the endpoint has no host.
/// Where the URL tells no port it is that of secure WebSockets.
pub open spec fn tunnel_target(parts: Option<UrlPartsView>) -> Option<(Seq<char>, u16)> {
    match parts {
        Some((Some(host), Some(port))) => Some((host, port)),
        Some((Some(host), None)) => Some((host, 443)),
        _ => None,
    }
}

/// Finds the host and the port that a tunnel leads to.
pub fn target_of(parts: Option<UrlParts>) -> (r: Option<(String, u16)>)
    ensures
        match r {
            Some((host, port)) => parts is Some && tunnel_target(Some(parts->0.parts())) == Some(
                (host@, port),
            ),
            None => parts is None || tunnel_target(Some(parts->0.parts())) is None,
        },
{
    match parts {
        None => None,
        Some(parts) => match parts.host {
            None => None,
            Some(host) => {
                let port: u16 = match parts.port {
                    Some(port) => port,
                    None => 443,
                };
                Some((host, port))
            },
        },
    }
}

/// Works out the tunnel to ask the proxy at `proxy_addr` for, to reach `endpoint`.
pub fn connect_via_proxy<E>(proxy_addr: &str, endpoint: &str) -> (r: Result<Tunnel, ProxyError<E>>)
    ensures
        match tunnel_target(url_parts(endpoint@)) {
            Some((host, port)) => r matches Ok(tunnel) && {
                &&& tunnel.proxy_addr@ == proxy_addr@
                &&& tunnel.host@ == host
                &&& tunnel.port == port
                &&& tunnel.endpoint@ == endpoint@
            },
            None => r matches Err(error) && error is NoHostName,
        },
{
    match target_of(parse_url(endpoint)) {
        Some((host, port)) => Ok(
            Tunnel {
                proxy_addr: proxy_addr.to_owned(),
                host,
                port,
                endpoint: endpoint.to_owned(),
            },
        ),
        None => Err(ProxyError::NoHostName),
    }
}

impl Tunnel {
    /// Takes what came of asking the proxy for the tunnel: the endpoint to greet
    /// through it with its stream, or the error to report.
    pub fn opened<S, E>(self, stream: Result<S, E>) -> (r: Result<(String, S), ProxyError<E>>)
        ensures
            match stream {
                Ok(stream) => r matches Ok((endpoint, through)) && endpoint@ == self.endpoint@
                    && through == stream,
                Err(error) => r == Err::<(String, S), _>(ProxyError::ConnectionRefused(error)),
            },
    {
        match stream {
            Ok(stream) => Ok((self.endpoint, stream)),
            Err(error) => Err(ProxyError::ConnectionRefused(error)),
        }
    }
}

} // verus!
