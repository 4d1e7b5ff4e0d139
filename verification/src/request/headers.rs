//! The request's header collection, and the `Host` header the normalizer
//! reads from it.

use vstd::prelude::*;

verus! {

/// Makes hyper's `Headers` usable in signatures: the ordered,
/// name-queryable header collection the transport parsed for this request.
#[verifier::external_type_specification]
#[verifier::external_body]
pub struct ExHeaders(hyper::header::Headers);

/// The view of a [`HostInfo`].
pub struct HostView {
    /// The host name.
    pub name: Seq<char>,
    /// The explicit port, if the header named one.
    pub port: Option<u16>,
}

/// The parsed `Host` header: the host name and, when the header named one,
/// the explicit port.
pub struct HostInfo {
    /// The host name.
    pub hostname: String,
    /// The explicit port, if the header named one.
    pub port: Option<u16>,
}

impl View for HostInfo {
    type V = HostView;

    open spec fn view(&self) -> HostView {
        HostView { name: self.hostname@, port: self.port }
    }
}

/// The parsed `Host` header a header collection holds, if any: the
/// collection's raw bytes under the name `Host`, as hyper's `Host` parser
/// reads them. Absent when the collection has no such entry, and when the
/// bytes do not parse as a `Host` header.
pub uninterp spec fn host_header(headers: hyper::header::Headers) -> Option<HostView>;

/// Relies on hyper's `Headers::get_raw("Host")` (a case-insensitive
/// lookup; a typed entry renders to raw bytes on demand) and on
/// `Host::parse_header`, both total: yields the parsed `Host` header
/// (host name and optional port) exactly when the collection holds one;
/// the outcome is a function of the collection alone.
#[verifier::external_body]
pub fn get_host(headers: &hyper::header::Headers) -> (r: Option<HostInfo>)
    ensures
        r matches Some(h) ==> host_header(*headers) == Some(h@),
        r is None ==> host_header(*headers) is None,
{
    match headers.get_raw("Host") {
        Some(raw) => match <hyper::header::Host as hyper::header::Header>::parse_header(raw) {
            Ok(h) => Some(HostInfo { hostname: h.hostname, port: h.port }),
            Err(_) => None,
        },
        None => None,
    }
}

} // verus!
