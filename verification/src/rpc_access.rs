//! Who may reach the desktop RPC server: the loopback bind host, and the
//! browser origins allowed by CORS.

use crate::error::PumasError;
use vstd::prelude::*;
use vstd::string::StrSliceExecFns;

verus! {

/// An IP address as its bits.
#[derive(Clone, Copy, Debug, PartialEq, Eq, Structural)]
pub enum IpAddress {
    V4(u32),
    V6(u128),
}

/// `127.0.0.0/8` or `::1`.
pub open spec fn is_loopback(a: IpAddress) -> bool {
    match a {
        IpAddress::V4(bits) => bits / 16777216 == 127,
        IpAddress::V6(bits) => bits == 1,
    }
}

fn loopback(a: IpAddress) -> (r: bool)
    ensures
        r == is_loopback(a),
{
    match a {
        IpAddress::V4(bits) => bits / 16777216 == 127,
        IpAddress::V6(bits) => bits == 1,
    }
}

/// A validated RPC bind host; only a loopback address can be one.
pub struct LoopbackHost {
    address: IpAddress,
}

impl View for LoopbackHost {
    type V = IpAddress;

    closed spec fn view(&self) -> IpAddress {
        self.address
    }
}

impl LoopbackHost {
    /// Admit the bind host given as the address it parsed to (`None` when
    /// it is not an IP address).
    pub fn parse(address: Option<IpAddress>) -> (r: Result<LoopbackHost, PumasError>)
        ensures
            match address {
                None => r matches Err(PumasError::Other(m)) && m@ == "RPC host must be a loopback IP address"@,
                Some(a) => if is_loopback(a) {
                    r matches Ok(h) && h@ == a
                } else {
                    r matches Err(PumasError::Other(m)) && m@
                        == "RPC host must be a loopback IP address; remote access is not supported"@
                },
            },
    {
        match address {
            None => Err(PumasError::Other("RPC host must be a loopback IP address".to_owned())),
            Some(a) => if loopback(a) {
                Ok(LoopbackHost { address: a })
            } else {
                Err(
                    PumasError::Other(
                        "RPC host must be a loopback IP address; remote access is not supported".to_owned(),
                    ),
                )
            },
        }
    }

    /// The address to bind.
    pub fn address(&self) -> (a: IpAddress)
        ensures
            a == self@,
            is_loopback(a),
    {
        proof {
            use_type_invariant(self);
        }
        self.address
    }

    #[verifier::type_invariant]
    spec fn only_loopback(self) -> bool {
        is_loopback(self.address)
    }
}

/// The host of a parsed URL.
pub enum UrlHost {
    Domain(String),
    Ipv4(u32),
    Ipv6(u128),
}

pub enum UrlHostView {
    Domain(Seq<char>),
    Ipv4(u32),
    Ipv6(u128),
}

impl View for UrlHost {
    type V = UrlHostView;

    open spec fn view(&self) -> UrlHostView {
        match self {
            UrlHost::Domain(d) => UrlHostView::Domain(d@),
            UrlHost::Ipv4(a) => UrlHostView::Ipv4(*a),
            UrlHost::Ipv6(a) => UrlHostView::Ipv6(*a),
        }
    }
}

/// The scheme and host of a parsed URL.
pub struct UrlParts {
    pub scheme: String,
    pub host: Option<UrlHost>,
}

pub struct UrlPartsView {
    pub scheme: Seq<char>,
    pub host: Option<UrlHostView>,
}

impl View for UrlParts {
    type V = UrlPartsView;

    open spec fn view(&self) -> UrlPartsView {
        UrlPartsView {
            scheme: self.scheme@,
            host: match self.host {
                Some(h) => Some(h@),
                None => None,
            },
        }
    }
}

pub open spec fn parts_view(p: Option<UrlParts>) -> Option<UrlPartsView> {
    match p {
        Some(x) => Some(x@),
        None => None,
    }
}

/// The scheme and host that `url::Url::parse` finds in a text, or `None`
/// when it does not parse.
pub uninterp spec fn url_parts_of(input: Seq<char>) -> Option<UrlPartsView>;

/// Parses the text with `url::Url::parse` and reads `scheme()` and
/// `host()`, an IP host as its bits. The contract names the result.
#[verifier::external_body]
fn parse_url_parts(input: &str) -> (r: Option<UrlParts>)
    ensures
        parts_view(r) == url_parts_of(input@),
{
    let url = url::Url::parse(input).ok()?;
    let host = match url.host() {
        None => None,
        Some(url::Host::Domain(d)) => Some(UrlHost::Domain(d.to_string())),
        Some(url::Host::Ipv4(a)) => Some(UrlHost::Ipv4(u32::from(a))),
        Some(url::Host::Ipv6(a)) => Some(UrlHost::Ipv6(u128::from(a))),
    };
    Some(UrlParts { scheme: url.scheme().to_string(), host })
}

/// An `http` or `https` URL on `localhost` or a loopback address.
pub open spec fn loopback_origin(p: Option<UrlPartsView>) -> bool {
    match p {
        None => false,
        Some(p) => (p.scheme == "http"@ || p.scheme == "https"@) && match p.host {
            Some(UrlHostView::Domain(d)) => d == "localhost"@,
            Some(UrlHostView::Ipv4(a)) => is_loopback(IpAddress::V4(a)),
            Some(UrlHostView::Ipv6(a)) => is_loopback(IpAddress::V6(a)),
            None => false,
        },
    }
}

/// A tab or a printable ASCII character.
pub open spec fn visible_char(c: char) -> bool {
    c == '\t' || (32 <= c as int && c as int <= 126)
}

/// Every character may stand in an HTTP header value as text.
pub open spec fn visible_ascii(s: Seq<char>) -> bool {
    forall|i: int| 0 <= i < s.len() ==> visible_char(#[trigger] s[i])
}

/// Whether parsed origin parts name a loopback web origin.
pub fn is_loopback_origin(parts: &Option<UrlParts>) -> (r: bool)
    ensures
        r == loopback_origin(parts_view(*parts)),
{
    proof {
        reveal_strlit("http");
        reveal_strlit("https");
        reveal_strlit("localhost");
    }
    match parts {
        None => false,
        Some(p) => {
            let scheme_ok = p.scheme == "http".to_owned() || p.scheme == "https".to_owned();
            scheme_ok && match &p.host {
                Some(UrlHost::Domain(d)) => *d == "localhost".to_owned(),
                Some(UrlHost::Ipv4(a)) => loopback(IpAddress::V4(*a)),
                Some(UrlHost::Ipv6(a)) => loopback(IpAddress::V6(*a)),
                None => false,
            }
        },
    }
}

fn is_visible_ascii(s: &str) -> (r: bool)
    ensures
        r == visible_ascii(s@),
{
    let n = s.unicode_len();
    let mut i: usize = 0;
    while i < n
        invariant
            n == s@.len(),
            i <= n,
            forall|j: int| 0 <= j < i ==> visible_char(#[trigger] s@[j]),
        decreases n - i,
    {
        let c = s.get_char(i);
        if !(c == '\t' || (' ' <= c && c <= '~')) {
            assert(!visible_char(s@[i as int]));
            return false;
        }
        i = i + 1;
    }
    true
}

/// CORS admits a browser origin only when its header text is visible ASCII
/// and it is an `http(s)` URL on a loopback host.
pub fn is_allowed_cors_origin(origin: &str) -> (r: bool)
    ensures
        r == (visible_ascii(origin@) && loopback_origin(url_parts_of(origin@))),
{
    if !is_visible_ascii(origin) {
        return false;
    }
    let parts = parse_url_parts(origin);
    is_loopback_origin(&parts)
}

} // verus!
