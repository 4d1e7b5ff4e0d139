//! The canonical absolute URL every request exposes, and the reconstruction
//! of its textual form from an absolute-path target.

use vstd::prelude::*;
use vstd::string::StringExecFns;

use crate::transport::{Protocol, SocketAddrRepr, SocketAddrView};

verus! {

/// The view of a [`Url`].
pub struct UrlView {
    /// The scheme, without the `://` separator.
    pub scheme: Seq<char>,
    /// The host, never empty: a canonical URL is always absolute.
    pub host: Seq<char>,
    /// The explicit port, if the URL names one.
    pub port: Option<u16>,
    /// The path.
    pub path: Seq<char>,
    /// The query, without the leading `?`, if any.
    pub query: Option<Seq<char>>,
    /// The fragment, without the leading `#`, if any.
    pub fragment: Option<Seq<char>>,
}

impl UrlView {
    /// A canonical URL is absolute: it names a scheme and a host.
    pub open spec fn wf(self) -> bool {
        self.scheme.len() > 0 && self.host.len() > 0
    }
}

/// A parsed absolute URL: scheme, host, optional port, path, query and
/// fragment, held as plain values.
pub struct Url {
    /// The scheme, without the `://` separator.
    pub scheme: String,
    /// The host, never empty for a well-formed URL.
    pub host: String,
    /// The explicit port, if the URL names one.
    pub port: Option<u16>,
    /// The path.
    pub path: String,
    /// The query, without the leading `?`, if any.
    pub query: Option<String>,
    /// The fragment, without the leading `#`, if any.
    pub fragment: Option<String>,
}

impl View for Url {
    type V = UrlView;

    open spec fn view(&self) -> UrlView {
        UrlView {
            scheme: self.scheme@,
            host: self.host@,
            port: self.port,
            path: self.path@,
            query: match self.query {
                Some(q) => Some(q@),
                None => None,
            },
            fragment: match self.fragment {
                Some(f) => Some(f@),
                None => None,
            },
        }
    }
}

impl Url {
    /// A canonical URL is absolute: it names a scheme and a host.
    pub open spec fn wf(self) -> bool {
        self@.wf()
    }
}

/// The decimal digit for a value below ten.
pub open spec fn digit_char(n: nat) -> char {
    if n == 0 {
        '0'
    } else if n == 1 {
        '1'
    } else if n == 2 {
        '2'
    } else if n == 3 {
        '3'
    } else if n == 4 {
        '4'
    } else if n == 5 {
        '5'
    } else if n == 6 {
        '6'
    } else if n == 7 {
        '7'
    } else if n == 8 {
        '8'
    } else {
        '9'
    }
}

/// The decimal rendering of a number, most significant digit first.
pub open spec fn dec_of(n: nat) -> Seq<char>
    decreases n,
{
    if n < 10 {
        seq![digit_char(n)]
    } else {
        dec_of(n / 10) + seq![digit_char(n % 10)]
    }
}

/// The one-character string for a digit.
fn digit_str(d: u16) -> (r: &'static str)
    requires
        d < 10,
    ensures
        r@ == seq![digit_char(d as nat)],
{
    proof {
        reveal_strlit("0");
        reveal_strlit("1");
        reveal_strlit("2");
        reveal_strlit("3");
        reveal_strlit("4");
        reveal_strlit("5");
        reveal_strlit("6");
        reveal_strlit("7");
        reveal_strlit("8");
        reveal_strlit("9");
    }
    let r: &'static str = match d {
        0 => "0",
        1 => "1",
        2 => "2",
        3 => "3",
        4 => "4",
        5 => "5",
        6 => "6",
        7 => "7",
        8 => "8",
        _ => "9",
    };
    proof {
        assert(r@ =~= seq![digit_char(d as nat)]);
    }
    r
}

/// The decimal rendering of a port number.
pub fn u16_dec(n: u16) -> (s: String)
    ensures
        s@ == dec_of(n as nat),
    decreases n,
{
    let d = digit_str(n % 10);
    if n < 10 {
        String::from_str(d)
    } else {
        let mut s = u16_dec(n / 10);
        s.append(d);
        s
    }
}

/// The URL string reconstructed from a `Host` header: scheme, `://`, the
/// host name, the explicit port if the header named one, and the path.
pub open spec fn host_url(scheme: Seq<char>, host: Seq<char>, port: Option<u16>, path: Seq<char>) -> Seq<char> {
    scheme + "://"@ + host + (match port {
        Some(p) => ":"@ + dec_of(p as nat),
        None => Seq::<char>::empty(),
    }) + path
}

/// The URL string reconstructed from the local listening address: scheme,
/// `://`, the textual IP (bracketed when IPv6), `:`, the port, and the path.
pub open spec fn local_url(scheme: Seq<char>, addr: SocketAddrView, path: Seq<char>) -> Seq<char> {
    scheme + "://"@ + (if addr.ipv6 {
        "["@ + addr.ip + "]"@
    } else {
        addr.ip
    }) + ":"@ + dec_of(addr.port as nat) + path
}

/// The view of a [`RawUrlParts`].
pub struct RawUrlView {
    /// The scheme.
    pub scheme: Seq<char>,
    /// The host, absent for URLs that carry none (such as `mailto:`).
    pub host: Option<Seq<char>>,
    /// The explicit port, if any.
    pub port: Option<u16>,
    /// The path.
    pub path: Seq<char>,
    /// The query, if any.
    pub query: Option<Seq<char>>,
    /// The fragment, if any.
    pub fragment: Option<Seq<char>>,
}

/// The components of a successfully parsed URL, as the parser reports them.
pub struct RawUrlParts {
    /// The scheme.
    pub scheme: String,
    /// The host, absent for URLs that carry none.
    pub host: Option<String>,
    /// The explicit port, if any.
    pub port: Option<u16>,
    /// The path.
    pub path: String,
    /// The query, if any.
    pub query: Option<String>,
    /// The fragment, if any.
    pub fragment: Option<String>,
}

impl View for RawUrlParts {
    type V = RawUrlView;

    open spec fn view(&self) -> RawUrlView {
        RawUrlView {
            scheme: self.scheme@,
            host: match self.host {
                Some(h) => Some(h@),
                None => None,
            },
            port: self.port,
            path: self.path@,
            query: match self.query {
                Some(q) => Some(q@),
                None => None,
            },
            fragment: match self.fragment {
                Some(f) => Some(f@),
                None => None,
            },
        }
    }
}

/// What URL-grammar parsing yields for a string: the components when the
/// grammar accepts it, or the rendering of the parse failure when it does
/// not. Parsing is a function of the string alone; this names its outcome.
pub uninterp spec fn parsed_url(s: Seq<char>) -> Result<RawUrlView, Seq<char>>;

/// Relies on `url::Url::parse`, the component accessors of the parsed
/// value, and the rendering of the parse error: the outcome is a function
/// of the string alone, named exhaustively by [`parsed_url`].
#[verifier::external_body]
fn parse_raw(s: &str) -> (r: Result<RawUrlParts, String>)
    ensures
        r matches Ok(p) ==> (parsed_url(s@) matches Ok(q) && q == p@),
        r matches Err(e) ==> (parsed_url(s@) matches Err(d) && d == e@),
{
    match ::url::Url::parse(s) {
        Ok(u) => Ok(RawUrlParts {
            scheme: u.scheme().to_string(),
            host: u.host_str().map(|h| h.to_string()),
            port: u.port(),
            path: u.path().to_string(),
            query: u.query().map(|q| q.to_string()),
            fragment: u.fragment().map(|f| f.to_string()),
        }),
        Err(e) => Err(e.to_string()),
    }
}

/// Whether a string parses as an absolute URL: the URL grammar accepts it
/// and the result names a scheme and a non-empty host.
pub open spec fn url_accepted(s: Seq<char>) -> bool {
    match parsed_url(s) {
        Ok(p) => p.scheme.len() > 0 && match p.host {
            Some(h) => h.len() > 0,
            None => false,
        },
        Err(_) => false,
    }
}

/// The error message [`Url::parse`] reports for a string it rejects: the
/// parser's own diagnostic when the grammar refuses the string, else the
/// fixed message for a missing or empty host. Meaningful when
/// [`url_accepted`] does not hold.
pub open spec fn url_error(s: Seq<char>) -> Seq<char> {
    match parsed_url(s) {
        Ok(p) => match p.host {
            Some(_) => "URL has an empty host"@,
            None => "URL has no host"@,
        },
        Err(d) => d,
    }
}

/// The canonical URL a string parses to; meaningful when [`url_accepted`]
/// holds of the string.
pub open spec fn canonical(s: Seq<char>) -> UrlView {
    match parsed_url(s) {
        Ok(p) => UrlView {
            scheme: p.scheme,
            host: match p.host {
                Some(h) => h,
                None => Seq::<char>::empty(),
            },
            port: p.port,
            path: p.path,
            query: p.query,
            fragment: p.fragment,
        },
        Err(_) => UrlView {
            scheme: Seq::<char>::empty(),
            host: Seq::<char>::empty(),
            port: None,
            path: Seq::<char>::empty(),
            query: None,
            fragment: None,
        },
    }
}

impl Url {
    /// Parse a string as an absolute URL.
    ///
    /// Accepts exactly the strings the URL grammar accepts whose result
    /// names a scheme and a non-empty host; everything else is an error,
    /// since a canonical URL must be absolute. A grammar failure reports
    /// the parser's own diagnostic.
    pub fn parse(s: &str) -> (r: Result<Url, String>)
        ensures
            r is Ok <==> url_accepted(s@),
            r matches Ok(u) ==> (u@ == canonical(s@) && u.wf()),
            r matches Err(e) ==> e@ == url_error(s@),
    {
        match parse_raw(s) {
            Ok(p) => {
                let RawUrlParts { scheme, host, port, path, query, fragment } = p;
                match host {
                    Some(h) => {
                        if scheme.as_str().is_empty() || h.as_str().is_empty() {
                            Err(String::from_str("URL has an empty host"))
                        } else {
                            Ok(Url { scheme, host: h, port, path, query, fragment })
                        }
                    },
                    None => Err(String::from_str("URL has no host")),
                }
            },
            Err(e) => Err(e),
        }
    }
}

/// Assemble the URL string that a `Host` header dictates.
pub fn host_target(protocol: &Protocol, hostname: &String, port: Option<u16>, path: &String) -> (s: String)
    ensures
        s@ == host_url(protocol.spec_name(), hostname@, port, path@),
{
    let mut s = String::from_str(protocol.name());
    s.append("://");
    s.append(hostname.as_str());
    match port {
        Some(p) => {
            s.append(":");
            let pd = u16_dec(p);
            s.append(pd.as_str());
        },
        None => {},
    }
    s.append(path.as_str());
    proof {
        assert(s@ =~= host_url(protocol.spec_name(), hostname@, port, path@));
    }
    s
}

/// Assemble the URL string that the local listening address dictates.
pub fn local_target(protocol: &Protocol, addr: &SocketAddrRepr, path: &String) -> (s: String)
    ensures
        s@ == local_url(protocol.spec_name(), addr@, path@),
{
    let mut s = String::from_str(protocol.name());
    s.append("://");
    if addr.ipv6 {
        s.append("[");
        s.append(addr.ip.as_str());
        s.append("]");
    } else {
        s.append(addr.ip.as_str());
    }
    s.append(":");
    let pd = u16_dec(addr.port);
    s.append(pd.as_str());
    s.append(path.as_str());
    proof {
        assert(s@ =~= local_url(protocol.spec_name(), addr@, path@));
    }
    s
}

} // verus!
