use vstd::prelude::*;

verus! {

/// The host of a parsed URL.
#[derive(Clone, Debug)]
pub enum UrlHost {
    Domain(String),
    Ipv4([u8; 4]),
    Ipv6([u16; 8]),
}

/// The parts of a parsed URL that the validations read, and its normalized serialization.
#[derive(Clone, Debug)]
pub struct ParsedUrl {
    pub scheme: String,
    pub host: Option<UrlHost>,
    pub path: String,
    pub text: String,
}

pub ghost enum HostView {
    Domain(Seq<char>),
    Ipv4(Seq<u8>),
    Ipv6(Seq<u16>),
}

pub ghost struct ParsedUrlView {
    pub scheme: Seq<char>,
    pub host: Option<HostView>,
    pub path: Seq<char>,
    pub text: Seq<char>,
}

impl View for UrlHost {
    type V = HostView;

    open spec fn view(&self) -> HostView {
        match self {
            UrlHost::Domain(d) => HostView::Domain(d@),
            UrlHost::Ipv4(a) => HostView::Ipv4(a@),
            UrlHost::Ipv6(a) => HostView::Ipv6(a@),
        }
    }
}

impl View for ParsedUrl {
    type V = ParsedUrlView;

    open spec fn view(&self) -> ParsedUrlView {
        ParsedUrlView {
            scheme: self.scheme@,
            host: match self.host {
                Some(h) => Some(h@),
                None => None,
            },
            path: self.path@,
            text: self.text@,
        }
    }
}

/// What the URL parser makes of a text, `None` when it rejects it.
pub uninterp spec fn parsed_url(s: Seq<char>) -> Option<ParsedUrlView>;

/// Relies on url::Url::parse, the WHATWG URL parser: whether it accepts the text and, if so,
/// the scheme, host, path and serialization of the URL, which depend on the text alone.
#[verifier::external_body]
pub(crate) fn parse_url(s: &str) -> (r: Option<ParsedUrl>)
    ensures
        r is None <==> parsed_url(s@) is None,
        r matches Some(u) ==> parsed_url(s@) == Some(u@),
{
    let u = url::Url::parse(s).ok()?;
    let host = u.host().map(|h| match h {
        url::Host::Domain(d) => UrlHost::Domain(d.to_string()),
        url::Host::Ipv4(a) => UrlHost::Ipv4(a.octets()),
        url::Host::Ipv6(a) => UrlHost::Ipv6(a.segments()),
    });
    Some(ParsedUrl { scheme: u.scheme().to_string(), host, path: u.path().to_string(), text: u.to_string() })
}

} // verus!
