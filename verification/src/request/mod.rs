//! The canonical request representation and its construction from
//! transport-parsed values.

use vstd::prelude::*;

pub mod headers;
pub mod url;

use crate::request::headers::{get_host, host_header};
use crate::request::url::{canonical, host_url, host_target, local_url, local_target, url_accepted, url_error, Url};
use crate::transport::{HttpVersion, Protocol, RequestUri, SocketAddrRepr};
use vstd::string::StringExecFns;

verus! {

/// Makes hyper's `Method` usable in signatures: the request method token,
/// carried through to the handler chain unread.
#[verifier::external_type_specification]
#[verifier::external_body]
pub struct ExMethod(hyper::method::Method);

/// Makes `std::io::Error` usable in signatures: the opaque error a body
/// read propagates unchanged from the transport.
#[verifier::external_type_specification]
#[verifier::external_body]
pub struct ExIoError(std::io::Error);

/// The request body as a reader: a thin, non-buffering adapter over the
/// transport's partial-read reader, positioned at the start of the body.
/// Forward-only: consumed bytes cannot be re-read.
pub struct Body<R> {
    reader: R,
}

impl<R> Body<R> {
    /// The wrapped transport reader.
    pub closed spec fn spec_reader(self) -> R {
        self.reader
    }

    /// Wrap the transport's reader for use as a request body.
    pub fn new(reader: R) -> (b: Body<R>)
        ensures
            b.spec_reader() == reader,
    {
        Body { reader }
    }
}

impl<R: std::io::Read> Body<R> {
    /// Relies on `std::io::Read::read` of the wrapped transport reader:
    /// on success the count never exceeds the buffer's length, and the
    /// buffer keeps its length. The bytes themselves come from the
    /// connection, so nothing more holds of every outcome; errors are
    /// propagated unchanged.
    #[verifier::external_body]
    pub fn read(&mut self, buf: &mut [u8]) -> (r: Result<usize, std::io::Error>)
        ensures
            r matches Ok(n) ==> (n <= old(buf)@.len() && final(buf)@.len() == old(buf)@.len()),
    {
        self.reader.read(buf)
    }
}

/// The canonical request handed to every middleware stage.
///
/// `R` is the transport's partial-read body reader; `E` is the extensible
/// per-request context middleware shares (a type-keyed map, created empty
/// alongside the request).
pub struct Request<R, E> {
    /// The requested URL: always a complete absolute URL, never a bare
    /// path. This is the chief normalization guarantee.
    pub url: Url,
    /// The originating address of the request.
    pub remote_addr: SocketAddrRepr,
    /// The local address the connection was accepted on.
    pub local_addr: SocketAddrRepr,
    /// The request headers.
    pub headers: hyper::header::Headers,
    /// The request body as a reader.
    pub body: Body<R>,
    /// The request method token.
    pub method: hyper::method::Method,
    /// Extensible storage for data passed between middleware.
    pub extensions: E,
    /// The version of the HTTP protocol used.
    pub version: HttpVersion,
}

impl<R, E> Request<R, E> {
    /// The invariant every exposed request satisfies: its URL is absolute.
    pub open spec fn wf(self) -> bool {
        self.url.wf()
    }

    /// Shared access to the extensible per-request context.
    pub fn extensions(&self) -> (r: &E)
        ensures
            *r == self.extensions,
    {
        &self.extensions
    }

    /// Exclusive access to the extensible per-request context.
    pub fn extensions_mut(&mut self) -> (r: &mut E)
        ensures
            *r == old(self).extensions,
            final(self).extensions == *final(r),
            final(self).url == old(self).url,
            final(self).remote_addr == old(self).remote_addr,
            final(self).local_addr == old(self).local_addr,
            final(self).headers == old(self).headers,
            final(self).body == old(self).body,
            final(self).method == old(self).method,
            final(self).version == old(self).version,
    {
        &mut self.extensions
    }
}

impl<R, E> Request<R, E> {
    /// Create a request from the transport-parsed pieces of an HTTP
    /// request, deriving the one canonical absolute URL.
    /// `extensions` is the freshly created, still-empty per-request
    /// context the new request is to carry.
    ///
    /// The URL comes from the request target directly when it is an
    /// absolute URI; from the `Host` header and the path when the target
    /// is an absolute path; from the local listening address and the path
    /// when there is no `Host` header and the version predates 1.1 (where
    /// the header is optional). With no `Host` header from 1.1 on, and for
    /// every other target form, normalization fails and no request is
    /// produced.
    pub fn from_http(
        remote_addr: SocketAddrRepr,
        method: hyper::method::Method,
        headers: hyper::header::Headers,
        uri: RequestUri,
        version: HttpVersion,
        reader: R,
        local_addr: SocketAddrRepr,
        protocol: &Protocol,
        extensions: E,
    ) -> (result: Result<Request<R, E>, String>)
        ensures
            result matches Ok(req) ==> (req.wf() && req.method == method && req.version
                == version && req.remote_addr == remote_addr && req.local_addr == local_addr
                && req.headers == headers && req.body.spec_reader() == reader
                && req.extensions == extensions),
            uri matches RequestUri::AbsoluteUri(s) ==> ((result is Ok <==> url_accepted(s@)) && (
            result matches Ok(req) ==> req.url@ == canonical(s@)) && (result matches Err(e)
                ==> e@ == url_error(s@))),
            uri matches RequestUri::AbsolutePath(p) ==> (match host_header(headers) {
                Some(hv) => {
                    let t = host_url(protocol.spec_name(), hv.name, hv.port, p@);
                    &&& result is Ok <==> url_accepted(t)
                    &&& result matches Ok(req) ==> req.url@ == canonical(t)
                    &&& result matches Err(e) ==> e@ == "Couldn't parse requested URL: "@
                        + url_error(t)
                },
                None => if version.spec_below_11() {
                    let t = local_url(protocol.spec_name(), local_addr@, p@);
                    &&& result is Ok <==> url_accepted(t)
                    &&& result matches Ok(req) ==> req.url@ == canonical(t)
                    &&& result matches Err(e) ==> e@ == "Couldn't parse requested URL: "@
                        + url_error(t)
                } else {
                    result matches Err(e) && e@ == "No host specified in request"@
                },
            }),
            uri matches RequestUri::Authority(a) ==> (result matches Err(e) && e@
                == "Unsupported request URI"@),
            uri is Star ==> (result matches Err(e) && e@ == "Unsupported request URI"@),
    {
        let url = match uri {
            RequestUri::AbsoluteUri(s) => {
                match Url::parse(s.as_str()) {
                    Ok(u) => u,
                    Err(e) => {
                        return Err(e);
                    },
                }
            },
            RequestUri::AbsolutePath(path) => {
                let url_string: String = match get_host(&headers) {
                    Some(host) => host_target(protocol, &host.hostname, host.port, &path),
                    None => {
                        if version.below_11() {
                            local_target(protocol, &local_addr, &path)
                        } else {
                            return Err(String::from_str("No host specified in request"));
                        }
                    },
                };
                match Url::parse(url_string.as_str()) {
                    Ok(u) => u,
                    Err(e) => {
                        let mut msg = String::from_str("Couldn't parse requested URL: ");
                        msg.append(e.as_str());
                        return Err(msg);
                    },
                }
            },
            RequestUri::Authority(_) => {
                return Err(String::from_str("Unsupported request URI"));
            },
            RequestUri::Star => {
                return Err(String::from_str("Unsupported request URI"));
            },
        };
        Ok(
            Request {
                url,
                remote_addr,
                local_addr,
                headers,
                body: Body::new(reader),
                method,
                extensions,
                version,
            },
        )
    }
}

} // verus!
