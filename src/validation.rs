use vstd::prelude::*;

use crate::text::{has_prefix, same_text};
use crate::url_parts::{parse_url, parsed_url, HostView, ParsedUrl, ParsedUrlView, UrlHost};

verus! {

pub const ALLOWED_UPDATER_HOST: &'static str = "github.com";
pub const ALLOWED_UPDATER_PATH_PREFIX: &'static str = "/MyWallpapers/app/releases/download/";
pub const DEEP_LINK_SCHEME: &'static str = "mywallpaper";

// ------------------------------------------------------------------------------------
// Updater endpoint
// ------------------------------------------------------------------------------------

/// Why an updater endpoint is refused, or `None` when it points at the project's releases.
pub open spec fn updater_endpoint_error(u: ParsedUrlView) -> Option<Seq<char>> {
    if u.scheme != "https"@ {
        Some("Endpoint must use HTTPS"@)
    } else if u.host != Some(HostView::Domain(ALLOWED_UPDATER_HOST@)) {
        Some("Endpoint must be on github.com"@)
    } else if !(ALLOWED_UPDATER_PATH_PREFIX@.len() <= u.path.len() && u.path.subrange(
        0,
        ALLOWED_UPDATER_PATH_PREFIX@.len() as int,
    ) == ALLOWED_UPDATER_PATH_PREFIX@) {
        Some("Endpoint must point to MyWallpapers/app releases"@)
    } else {
        None
    }
}

fn host_is_domain(h: &Option<UrlHost>, name: &str) -> (r: bool)
    ensures
        r == (match h {
            Some(x) => x@ == HostView::Domain(name@),
            None => false,
        }),
{
    match h {
        Some(UrlHost::Domain(d)) => same_text(d.as_str(), name),
        _ => false,
    }
}

/// Checks a parsed updater endpoint: HTTPS, on github.com, under the project's releases.
pub fn check_updater_endpoint(u: &ParsedUrl) -> (r: Result<(), String>)
    ensures
        r is Ok <==> updater_endpoint_error(u@) is None,
        r matches Err(m) ==> updater_endpoint_error(u@) == Some(m@),
{
    proof {
        reveal_strlit("https");
        reveal_strlit("Endpoint must use HTTPS");
        reveal_strlit("Endpoint must be on github.com");
        reveal_strlit("Endpoint must point to MyWallpapers/app releases");
    }
    if !same_text(u.scheme.as_str(), "https") {
        return Err("Endpoint must use HTTPS".to_string());
    }
    if !host_is_domain(&u.host, ALLOWED_UPDATER_HOST) {
        return Err("Endpoint must be on github.com".to_string());
    }
    if !has_prefix(u.path.as_str(), ALLOWED_UPDATER_PATH_PREFIX) {
        return Err("Endpoint must point to MyWallpapers/app releases".to_string());
    }
    Ok(())
}

/// Validates that an updater endpoint URL points to the project's GitHub releases.
pub fn validate_updater_endpoint(endpoint: &str) -> (r: Result<(), String>)
    ensures
        r is Ok <==> (parsed_url(endpoint@) matches Some(u) && updater_endpoint_error(u) is None),
        parsed_url(endpoint@) is None ==> (r matches Err(m) && m@ == "Invalid endpoint URL"@),
        (parsed_url(endpoint@) matches Some(u) && updater_endpoint_error(u) is Some) ==> (r matches Err(m)
            && updater_endpoint_error(parsed_url(endpoint@).unwrap()) == Some(m@)),
{
    match parse_url(endpoint) {
        None => Err("Invalid endpoint URL".to_string()),
        Some(u) => check_updater_endpoint(&u),
    }
}

// ------------------------------------------------------------------------------------
// OAuth
// ------------------------------------------------------------------------------------

/// Private, loopback, link-local or unspecified IPv4 addresses.
pub open spec fn blocked_ipv4(o: Seq<u8>) -> bool {
    ||| o[0] == 10
    ||| (o[0] == 172 && 16 <= o[1] <= 31)
    ||| (o[0] == 192 && o[1] == 168)
    ||| o[0] == 127
    ||| (o[0] == 169 && o[1] == 254)
    ||| (o[0] == 0 && o[1] == 0 && o[2] == 0 && o[3] == 0)
}

/// The IPv4 address that an IPv4-mapped IPv6 address (`::ffff:a.b.c.d`) stands for.
pub open spec fn mapped_ipv4(s: Seq<u16>) -> Option<Seq<u8>> {
    if s[0] == 0 && s[1] == 0 && s[2] == 0 && s[3] == 0 && s[4] == 0 && s[5] == 0xffff {
        Some(seq![(s[6] / 256) as u8, (s[6] % 256) as u8, (s[7] / 256) as u8, (s[7] % 256) as u8])
    } else {
        None
    }
}

/// Loopback, unspecified, unique-local (fc00::/7), link-local (fe80::/10), or IPv4-mapped
/// with a blocked IPv4 address.
pub open spec fn blocked_ipv6(s: Seq<u16>) -> bool {
    let zero_head = s[0] == 0 && s[1] == 0 && s[2] == 0 && s[3] == 0 && s[4] == 0 && s[5] == 0
        && s[6] == 0;
    ||| (zero_head && (s[7] == 1 || s[7] == 0))
    ||| s[0] & 0xfe00 == 0xfc00
    ||| s[0] & 0xffc0 == 0xfe80
    ||| (mapped_ipv4(s) matches Some(o) && blocked_ipv4(o))
}

/// Whether a host is the local machine, as the HTTP exception allows it.
pub open spec fn is_local_host(h: Option<HostView>) -> bool {
    match h {
        Some(HostView::Domain(d)) => d == "localhost"@,
        Some(HostView::Ipv4(o)) => o == seq![127u8, 0, 0, 1],
        Some(HostView::Ipv6(s)) => s == seq![0u16, 0, 0, 0, 0, 0, 0, 1],
        None => false,
    }
}

pub open spec fn private_ip_error() -> Seq<char> {
    "HTTPS to private/internal IPs is not allowed"@
}

/// Why an OAuth URL is refused, or `None` when it may be opened.
pub open spec fn oauth_url_error(u: ParsedUrlView) -> Option<Seq<char>> {
    if u.scheme == "https"@ {
        match u.host {
            Some(HostView::Ipv4(o)) => if blocked_ipv4(o) { Some(private_ip_error()) } else { None },
            Some(HostView::Ipv6(s)) => if blocked_ipv6(s) { Some(private_ip_error()) } else { None },
            _ => None,
        }
    } else if u.scheme == "http"@ {
        if is_local_host(u.host) {
            None
        } else {
            Some("HTTP is only allowed for localhost"@)
        }
    } else {
        Some("URL must use https:// (or http:// for localhost)"@)
    }
}

fn ipv4_blocked(o: &[u8; 4]) -> (r: bool)
    ensures
        r == blocked_ipv4(o@),
{
    let a = o[0];
    let b = o[1];
    a == 10 || (a == 172 && 16 <= b && b <= 31) || (a == 192 && b == 168) || a == 127 || (a == 169
        && b == 254) || (a == 0 && b == 0 && o[2] == 0 && o[3] == 0)
}

fn ipv6_blocked(s: &[u16; 8]) -> (r: bool)
    ensures
        r == blocked_ipv6(s@),
{
    let zero_head = s[0] == 0 && s[1] == 0 && s[2] == 0 && s[3] == 0 && s[4] == 0 && s[5] == 0
        && s[6] == 0;
    if zero_head && (s[7] == 1 || s[7] == 0) {
        return true;
    }
    if s[0] & 0xfe00 == 0xfc00 || s[0] & 0xffc0 == 0xfe80 {
        return true;
    }
    if s[0] == 0 && s[1] == 0 && s[2] == 0 && s[3] == 0 && s[4] == 0 && s[5] == 0xffff {
        let o: [u8; 4] = [(s[6] / 256) as u8, (s[6] % 256) as u8, (s[7] / 256) as u8, (s[7] % 256) as u8];
        let r = ipv4_blocked(&o);
        assert(o@ =~= mapped_ipv4(s@).unwrap());
        return r;
    }
    false
}

fn local_host(h: &Option<UrlHost>) -> (r: bool)
    ensures
        r == is_local_host(match h {
            Some(x) => Some(x@),
            None => None,
        }),
{
    proof {
        reveal_strlit("localhost");
    }
    match h {
        Some(UrlHost::Domain(d)) => same_text(d.as_str(), "localhost"),
        Some(UrlHost::Ipv4(o)) => {
            let r = o[0] == 127 && o[1] == 0 && o[2] == 0 && o[3] == 1;
            assert(r == (o@ =~= seq![127u8, 0, 0, 1]));
            r
        },
        Some(UrlHost::Ipv6(s)) => {
            let r = s[0] == 0 && s[1] == 0 && s[2] == 0 && s[3] == 0 && s[4] == 0 && s[5] == 0
                && s[6] == 0 && s[7] == 1;
            assert(r == (s@ =~= seq![0u16, 0, 0, 0, 0, 0, 0, 1]));
            r
        },
        None => false,
    }
}

/// Checks a parsed OAuth URL: HTTPS to anything but private or internal addresses, or HTTP
/// to the local machine only.
pub fn check_oauth_url(u: &ParsedUrl) -> (r: Result<(), String>)
    ensures
        r is Ok <==> oauth_url_error(u@) is None,
        r matches Err(m) ==> oauth_url_error(u@) == Some(m@),
{
    proof {
        reveal_strlit("https");
        reveal_strlit("http");
        reveal_strlit("HTTPS to private/internal IPs is not allowed");
        reveal_strlit("HTTP is only allowed for localhost");
        reveal_strlit("URL must use https:// (or http:// for localhost)");
    }
    if same_text(u.scheme.as_str(), "https") {
        let blocked = match &u.host {
            Some(UrlHost::Ipv4(o)) => ipv4_blocked(o),
            Some(UrlHost::Ipv6(s)) => ipv6_blocked(s),
            _ => false,
        };
        if blocked {
            Err("HTTPS to private/internal IPs is not allowed".to_string())
        } else {
            Ok(())
        }
    } else if same_text(u.scheme.as_str(), "http") {
        if local_host(&u.host) {
            Ok(())
        } else {
            Err("HTTP is only allowed for localhost".to_string())
        }
    } else {
        Err("URL must use https:// (or http:// for localhost)".to_string())
    }
}

/// Validates a URL before it is opened for OAuth (which blocks requests to private or
/// internal addresses).
pub fn validate_oauth_url(url_str: &str) -> (r: Result<(), String>)
    ensures
        r is Ok <==> (parsed_url(url_str@) matches Some(u) && oauth_url_error(u) is None),
        parsed_url(url_str@) is None ==> (r matches Err(m) && m@ == "Invalid URL"@),
        (parsed_url(url_str@) matches Some(u) && oauth_url_error(u) is Some) ==> (r matches Err(m)
            && oauth_url_error(parsed_url(url_str@).unwrap()) == Some(m@)),
{
    match parse_url(url_str) {
        None => Err("Invalid URL".to_string()),
        Some(u) => check_oauth_url(&u),
    }
}

// ------------------------------------------------------------------------------------
// Deep links
// ------------------------------------------------------------------------------------

/// The actions a deep link may name as its host.
pub open spec fn allowed_action(h: Seq<char>) -> bool {
    h == "callback"@ || h == "auth"@ || h == "oauth"@ || h == "login"@ || h == "app"@
}

/// Whether a parsed URL is an acceptable deep link: the application's scheme, and no host,
/// an empty one, or an allowed action.
pub open spec fn deep_link_ok(u: ParsedUrlView) -> bool {
    u.scheme == DEEP_LINK_SCHEME@ && match u.host {
        None => true,
        Some(HostView::Domain(d)) => d.len() == 0 || allowed_action(d),
        Some(_) => false,
    }
}

/// Checks a parsed deep link and gives back its normalized serialization.
pub fn check_deep_link(u: &ParsedUrl) -> (r: Option<String>)
    ensures
        r is Some <==> deep_link_ok(u@),
        r matches Some(t) ==> t@ == u@.text,
{
    if !same_text(u.scheme.as_str(), DEEP_LINK_SCHEME) {
        return None;
    }
    let ok = match &u.host {
        None => true,
        Some(UrlHost::Domain(d)) => {
            let h = d.as_str();
            h.unicode_len() == 0 || same_text(h, "callback") || same_text(h, "auth") || same_text(
                h,
                "oauth",
            ) || same_text(h, "login") || same_text(h, "app")
        },
        Some(_) => false,
    };
    if ok {
        Some(u.text.clone())
    } else {
        None
    }
}

/// Validates a deep link of the application's scheme and returns it normalized by the
/// parser, which strips injection attempts; `None` when it is not acceptable.
pub fn validate_deep_link(raw: &str) -> (r: Option<String>)
    ensures
        r is Some <==> (parsed_url(raw@) matches Some(u) && deep_link_ok(u)),
        r matches Some(t) ==> t@ == parsed_url(raw@).unwrap().text,
{
    match parse_url(raw) {
        None => None,
        Some(u) => check_deep_link(&u),
    }
}

} // verus!
