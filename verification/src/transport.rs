//! Plain-value forms of what the transport layer hands over with each
//! request: the protocol version, the scheme the listener serves, the socket
//! addresses, and the raw request target.

use vstd::prelude::*;

verus! {

/// The HTTP protocol version of a request.
///
/// The normalizer only orders versions against 1.1: the `Host` header is
/// optional below 1.1 and mandatory from 1.1 on.
#[derive(Clone, Copy, PartialEq, Eq, Structural, Debug)]
pub enum HttpVersion {
    /// HTTP/0.9
    Http09,
    /// HTTP/1.0
    Http10,
    /// HTTP/1.1
    Http11,
    /// HTTP/2.0
    Http20,
}

impl HttpVersion {
    /// Whether this version predates HTTP/1.1, where the `Host` header
    /// became mandatory.
    pub open spec fn spec_below_11(self) -> bool {
        self is Http09 || self is Http10
    }

    /// Whether this version predates HTTP/1.1.
    pub fn below_11(&self) -> (r: bool)
        ensures
            r == self.spec_below_11(),
    {
        match self {
            HttpVersion::Http09 => true,
            HttpVersion::Http10 => true,
            HttpVersion::Http11 => false,
            HttpVersion::Http20 => false,
        }
    }
}

/// The scheme the accepting listener serves, which names the scheme of
/// every canonical URL reconstructed from an absolute-path target.
#[derive(Clone, Copy, PartialEq, Eq, Structural, Debug)]
pub enum Protocol {
    /// Plain HTTP.
    Http,
    /// HTTP over TLS.
    Https,
}

impl Protocol {
    /// The scheme name, as it stands before `://` in a URL.
    pub open spec fn spec_name(self) -> Seq<char> {
        match self {
            Protocol::Http => "http"@,
            Protocol::Https => "https"@,
        }
    }

    /// The scheme name, as it stands before `://` in a URL.
    pub fn name(&self) -> (r: &'static str)
        ensures
            r@ == self.spec_name(),
    {
        match self {
            Protocol::Http => "http",
            Protocol::Https => "https",
        }
    }
}

/// The view of a [`SocketAddrRepr`].
pub struct SocketAddrView {
    /// The textual form of the IP address, without brackets.
    pub ip: Seq<char>,
    /// Whether the address is an IPv6 address, which a URL authority
    /// renders bracketed.
    pub ipv6: bool,
    /// The port.
    pub port: u16,
}

/// A socket address as the transport reports it: the textual IP, whether it
/// is an IPv6 address, and the port.
pub struct SocketAddrRepr {
    /// The textual form of the IP address, without brackets.
    pub ip: String,
    /// Whether the address is an IPv6 address.
    pub ipv6: bool,
    /// The port.
    pub port: u16,
}

impl View for SocketAddrRepr {
    type V = SocketAddrView;

    open spec fn view(&self) -> SocketAddrView {
        SocketAddrView { ip: self.ip@, ipv6: self.ipv6, port: self.port }
    }
}

/// The raw request target, as the request line carried it.
pub enum RequestUri {
    /// A bare absolute path, such as `/index.html`: the common case, which
    /// needs header- or address-based host resolution.
    AbsolutePath(String),
    /// A full URL embedded in the request line, as proxies send.
    AbsoluteUri(String),
    /// An authority-only target, as `CONNECT` uses.
    Authority(String),
    /// The `*` target, as `OPTIONS` uses.
    Star,
}

} // verus!
