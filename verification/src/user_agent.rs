//! The client-context extractor.
//!
//! Derives device, operating system and browser classifications from a
//! user-agent string by ordered substring rules (first match wins), picks
//! the client address out of the forwarding headers, and tags private and
//! loopback addresses as internal. Pure and deterministic throughout;
//! letter case is folded over ASCII only.

use vstd::prelude::*;
use vstd::string::StringExecFns;
use crate::text::has_sub;
use crate::text::match_at;
use crate::text::spec_find;
use crate::text::spec_replaced;
use crate::text::trimmed;
use crate::text::lower_seq;
use crate::text::str_to_chars;
use crate::text::chars_to_string;
use crate::text::contains_sub;
use crate::text::starts_with_sub;
use crate::text::eq_chars;
use crate::text::find_first;
use crate::text::sub_chars;
use crate::text::replace_all;
use crate::text::trim_chars;
use crate::text::push_all;

verus! {

/// What one inbound request reveals about the client behind it.
pub struct ClientInfo {
    pub ip: String,
    pub user_agent: String,
    pub device_type: String,
    pub os: String,
    pub browser: String,
    pub location: Option<String>,
}

/// The device class read off the lower-cased user-agent text.
pub open spec fn spec_device_type(lower: Seq<char>) -> Seq<char> {
    if has_sub(lower, "mobile"@) || (has_sub(lower, "android"@) && !has_sub(lower, "tablet"@)) {
        "Mobile"@
    } else if has_sub(lower, "tablet"@) || has_sub(lower, "ipad"@) {
        "Tablet"@
    } else {
        "Desktop"@
    }
}

/// The macOS version segment of `ua`: from the marker to the closing
/// parenthesis, with underscores turned into dots; a bare name when either
/// is missing.
pub open spec fn spec_macos_version(ua: Seq<char>) -> Seq<char> {
    match spec_find(ua, "Mac OS X"@) {
        Some(start) => {
            let rest = ua.skip(start);
            match spec_find(rest, seq![')']) {
                Some(end) => spec_replaced(rest.subrange(0, end), seq!['_'], seq!['.']),
                None => "macOS"@,
            }
        },
        None => "macOS"@,
    }
}

/// The Android version of `ua`: the text between the marker and the next
/// semicolon, trimmed; a bare name when either is missing.
pub open spec fn spec_android_version(ua: Seq<char>) -> Seq<char> {
    match spec_find(ua, "Android "@) {
        Some(start) => {
            let rest = ua.skip(start + 8);
            match spec_find(rest, seq![';']) {
                Some(end) => "Android "@ + trimmed(rest.subrange(0, end)),
                None => "Android"@,
            }
        },
        None => "Android"@,
    }
}

/// The iOS version of `ua` for the given device name: the text between
/// the marker and the next blank, with underscores turned into dots; the
/// bare device name when either is missing.
pub open spec fn spec_ios_version(ua: Seq<char>, device: Seq<char>) -> Seq<char> {
    match spec_find(ua, "OS "@) {
        Some(start) => {
            let rest = ua.skip(start + 3);
            match spec_find(rest, seq![' ']) {
                Some(end) => device + " (iOS "@ + spec_replaced(
                    rest.subrange(0, end),
                    seq!['_'],
                    seq!['.'],
                ) + ")"@,
                None => device + " (iOS)"@,
            }
        },
        None => device + " (iOS)"@,
    }
}

/// The operating system read off `ua`: named Windows releases before the
/// generic one, the iOS devices before the Mac family — an iOS agent
/// always carries the Mac marker too — and each version segment taken
/// from the original (not lower-cased) text.
pub open spec fn spec_os(ua: Seq<char>) -> Seq<char> {
    let lower = lower_seq(ua);
    if has_sub(lower, "windows nt 10.0"@) {
        "Windows 10/11"@
    } else if has_sub(lower, "windows nt 6.3"@) {
        "Windows 8.1"@
    } else if has_sub(lower, "windows nt 6.2"@) {
        "Windows 8"@
    } else if has_sub(lower, "windows nt 6.1"@) {
        "Windows 7"@
    } else if has_sub(lower, "windows"@) {
        "Windows"@
    } else if has_sub(lower, "iphone"@) {
        spec_ios_version(ua, "iPhone"@)
    } else if has_sub(lower, "ipad"@) {
        spec_ios_version(ua, "iPad"@)
    } else if has_sub(lower, "mac os x"@) {
        spec_macos_version(ua)
    } else if has_sub(lower, "android"@) {
        spec_android_version(ua)
    } else if has_sub(lower, "linux"@) {
        "Linux"@
    } else {
        "Unknown"@
    }
}

/// The browser read off the lower-cased user-agent text: Edge before
/// Chrome before Safari, so Chromium-based agents that also carry the
/// Safari and Chrome markers are not misclassified.
pub open spec fn spec_browser(lower: Seq<char>) -> Seq<char> {
    if has_sub(lower, "edg/"@) || has_sub(lower, "edge/"@) {
        "Microsoft Edge"@
    } else if has_sub(lower, "chrome/"@) && !has_sub(lower, "edg"@) {
        "Chrome"@
    } else if has_sub(lower, "firefox/"@) {
        "Firefox"@
    } else if has_sub(lower, "safari/"@) && !has_sub(lower, "chrome"@) {
        "Safari"@
    } else if has_sub(lower, "opera"@) || has_sub(lower, "opr/"@) {
        "Opera"@
    } else if has_sub(lower, "msie"@) || has_sub(lower, "trident/"@) {
        "Internet Explorer"@
    } else {
        "Unknown"@
    }
}

/// Extracts the macOS version segment of `ua`.
pub fn extract_macos_version(ua: &str) -> (r: String)
    ensures
        r@ == spec_macos_version(ua@),
{
    let chars = str_to_chars(ua);
    let marker = str_to_chars("Mac OS X");
    match find_first(&chars, &marker) {
        Some(start) => {
            let rest = sub_chars(&chars, start, chars.len());
            proof {
                assert(rest@ =~= chars@.skip(start as int));
            }
            let close: Vec<char> = vec![')'];
            proof {
                assert(close@ =~= seq![')']);
            }
            match find_first(&rest, &close) {
                Some(end) => {
                    let version = sub_chars(&rest, 0, end);
                    let underscore: Vec<char> = vec!['_'];
                    let dot: Vec<char> = vec!['.'];
                    proof {
                        assert(underscore@ =~= seq!['_']);
                        assert(dot@ =~= seq!['.']);
                    }
                    let replaced = replace_all(&version, &underscore, &dot);
                    chars_to_string(&replaced)
                },
                None => String::from_str("macOS"),
            }
        },
        None => String::from_str("macOS"),
    }
}

/// Extracts the Android version segment of `ua`.
pub fn extract_android_version(ua: &str) -> (r: String)
    ensures
        r@ == spec_android_version(ua@),
{
    let chars = str_to_chars(ua);
    let marker = str_to_chars("Android ");
    match find_first(&chars, &marker) {
        Some(start) => {
            let n = chars.len();
            proof {
                reveal_strlit("Android ");
                assert(marker@.len() == 8);
                assert(start + 8 <= n);
            }
            let rest = sub_chars(&chars, start + 8, n);
            proof {
                assert(rest@ =~= chars@.skip(start + 8));
            }
            let semi: Vec<char> = vec![';'];
            proof {
                assert(semi@ =~= seq![';']);
            }
            match find_first(&rest, &semi) {
                Some(end) => {
                    let version = sub_chars(&rest, 0, end);
                    let cleaned = trim_chars(&version);
                    let mut out = str_to_chars("Android ");
                    push_all(&mut out, &cleaned);
                    chars_to_string(&out)
                },
                None => String::from_str("Android"),
            }
        },
        None => String::from_str("Android"),
    }
}

/// Extracts the iOS version segment of `ua` for the given device name.
pub fn extract_ios_version(ua: &str, device: &str) -> (r: String)
    ensures
        r@ == spec_ios_version(ua@, device@),
{
    let chars = str_to_chars(ua);
    let marker = str_to_chars("OS ");
    match find_first(&chars, &marker) {
        Some(start) => {
            let n = chars.len();
            proof {
                reveal_strlit("OS ");
                assert(marker@.len() == 3);
                assert(start + 3 <= n);
            }
            let rest = sub_chars(&chars, start + 3, n);
            proof {
                assert(rest@ =~= chars@.skip(start + 3));
            }
            let blank: Vec<char> = vec![' '];
            proof {
                assert(blank@ =~= seq![' ']);
            }
            match find_first(&rest, &blank) {
                Some(end) => {
                    let version = sub_chars(&rest, 0, end);
                    let underscore: Vec<char> = vec!['_'];
                    let dot: Vec<char> = vec!['.'];
                    proof {
                        assert(underscore@ =~= seq!['_']);
                        assert(dot@ =~= seq!['.']);
                    }
                    let replaced = replace_all(&version, &underscore, &dot);
                    let mut out = str_to_chars(device);
                    let open = str_to_chars(" (iOS ");
                    push_all(&mut out, &open);
                    push_all(&mut out, &replaced);
                    let close = str_to_chars(")");
                    push_all(&mut out, &close);
                    proof {
                        assert(out@ =~= spec_ios_version(ua@, device@));
                    }
                    chars_to_string(&out)
                },
                None => {
                    let mut out = str_to_chars(device);
                    let tail = str_to_chars(" (iOS)");
                    push_all(&mut out, &tail);
                    chars_to_string(&out)
                },
            }
        },
        None => {
            let mut out = str_to_chars(device);
            let tail = str_to_chars(" (iOS)");
            push_all(&mut out, &tail);
            chars_to_string(&out)
        },
    }
}

/// Classifies a user-agent string as device class, operating system and
/// browser, by the ordered substring rules; unmatched agents fall back to
/// an unknown marker in each place.
pub fn parse_user_agent(ua: &str) -> (r: (String, String, String))
    ensures
        r.0@ == spec_device_type(lower_seq(ua@)),
        r.1@ == spec_os(ua@),
        r.2@ == spec_browser(lower_seq(ua@)),
{
    let chars = str_to_chars(ua);
    let lower = crate::text::to_lower(&chars);

    let device_type = if contains_sub(&lower, &str_to_chars("mobile")) || (contains_sub(
        &lower,
        &str_to_chars("android"),
    ) && !contains_sub(&lower, &str_to_chars("tablet"))) {
        String::from_str("Mobile")
    } else if contains_sub(&lower, &str_to_chars("tablet")) || contains_sub(
        &lower,
        &str_to_chars("ipad"),
    ) {
        String::from_str("Tablet")
    } else {
        String::from_str("Desktop")
    };

    let os = if contains_sub(&lower, &str_to_chars("windows nt 10.0")) {
        String::from_str("Windows 10/11")
    } else if contains_sub(&lower, &str_to_chars("windows nt 6.3")) {
        String::from_str("Windows 8.1")
    } else if contains_sub(&lower, &str_to_chars("windows nt 6.2")) {
        String::from_str("Windows 8")
    } else if contains_sub(&lower, &str_to_chars("windows nt 6.1")) {
        String::from_str("Windows 7")
    } else if contains_sub(&lower, &str_to_chars("windows")) {
        String::from_str("Windows")
    } else if contains_sub(&lower, &str_to_chars("iphone")) {
        extract_ios_version(ua, "iPhone")
    } else if contains_sub(&lower, &str_to_chars("ipad")) {
        extract_ios_version(ua, "iPad")
    } else if contains_sub(&lower, &str_to_chars("mac os x")) {
        extract_macos_version(ua)
    } else if contains_sub(&lower, &str_to_chars("android")) {
        extract_android_version(ua)
    } else if contains_sub(&lower, &str_to_chars("linux")) {
        String::from_str("Linux")
    } else {
        String::from_str("Unknown")
    };

    let browser = if contains_sub(&lower, &str_to_chars("edg/")) || contains_sub(
        &lower,
        &str_to_chars("edge/"),
    ) {
        String::from_str("Microsoft Edge")
    } else if contains_sub(&lower, &str_to_chars("chrome/")) && !contains_sub(
        &lower,
        &str_to_chars("edg"),
    ) {
        String::from_str("Chrome")
    } else if contains_sub(&lower, &str_to_chars("firefox/")) {
        String::from_str("Firefox")
    } else if contains_sub(&lower, &str_to_chars("safari/")) && !contains_sub(
        &lower,
        &str_to_chars("chrome"),
    ) {
        String::from_str("Safari")
    } else if contains_sub(&lower, &str_to_chars("opera")) || contains_sub(
        &lower,
        &str_to_chars("opr/"),
    ) {
        String::from_str("Opera")
    } else if contains_sub(&lower, &str_to_chars("msie")) || contains_sub(
        &lower,
        &str_to_chars("trident/"),
    ) {
        String::from_str("Internet Explorer")
    } else {
        String::from_str("Unknown")
    };

    (device_type, os, browser)
}

/// The address names a private range, the loopback, or is the unknown
/// marker.
pub open spec fn is_internal_ip(ip: Seq<char>) -> bool {
    ||| match_at(ip, "192.168."@, 0)
    ||| match_at(ip, "10."@, 0)
    ||| match_at(ip, "172.16."@, 0)
    ||| match_at(ip, "172.17."@, 0)
    ||| match_at(ip, "172.18."@, 0)
    ||| match_at(ip, "172.19."@, 0)
    ||| match_at(ip, "172.20."@, 0)
    ||| match_at(ip, "172.21."@, 0)
    ||| match_at(ip, "172.22."@, 0)
    ||| match_at(ip, "172.23."@, 0)
    ||| match_at(ip, "172.24."@, 0)
    ||| match_at(ip, "172.25."@, 0)
    ||| match_at(ip, "172.26."@, 0)
    ||| match_at(ip, "172.27."@, 0)
    ||| match_at(ip, "172.28."@, 0)
    ||| match_at(ip, "172.29."@, 0)
    ||| match_at(ip, "172.30."@, 0)
    ||| match_at(ip, "172.31."@, 0)
    ||| ip == "127.0.0.1"@
    ||| ip == "::1"@
    ||| ip == "unknown"@
}

/// The coarse location tag for an address.
pub open spec fn spec_location(ip: Seq<char>) -> Seq<char> {
    if is_internal_ip(ip) {
        "internal"@
    } else {
        "external"@
    }
}

/// Tags an address as internal (private ranges, loopback, unknown) or
/// external; a coarse placeholder, not geolocation.
pub fn get_location_from_ip(ip: &str) -> (r: Option<String>)
    ensures
        r matches Some(loc) && loc@ == spec_location(ip@),
{
    let chars = str_to_chars(ip);
    let internal = starts_with_sub(&chars, &str_to_chars("192.168.")) || starts_with_sub(
        &chars,
        &str_to_chars("10."),
    ) || starts_with_sub(&chars, &str_to_chars("172.16.")) || starts_with_sub(
        &chars,
        &str_to_chars("172.17."),
    ) || starts_with_sub(&chars, &str_to_chars("172.18.")) || starts_with_sub(
        &chars,
        &str_to_chars("172.19."),
    ) || starts_with_sub(&chars, &str_to_chars("172.20.")) || starts_with_sub(
        &chars,
        &str_to_chars("172.21."),
    ) || starts_with_sub(&chars, &str_to_chars("172.22.")) || starts_with_sub(
        &chars,
        &str_to_chars("172.23."),
    ) || starts_with_sub(&chars, &str_to_chars("172.24.")) || starts_with_sub(
        &chars,
        &str_to_chars("172.25."),
    ) || starts_with_sub(&chars, &str_to_chars("172.26.")) || starts_with_sub(
        &chars,
        &str_to_chars("172.27."),
    ) || starts_with_sub(&chars, &str_to_chars("172.28.")) || starts_with_sub(
        &chars,
        &str_to_chars("172.29."),
    ) || starts_with_sub(&chars, &str_to_chars("172.30.")) || starts_with_sub(
        &chars,
        &str_to_chars("172.31."),
    ) || eq_chars(&chars, &str_to_chars("127.0.0.1")) || eq_chars(&chars, &str_to_chars("::1"))
        || eq_chars(&chars, &str_to_chars("unknown"));
    if internal {
        Some(String::from_str("internal"))
    } else {
        Some(String::from_str("external"))
    }
}

/// The first forwarded entry up to a comma, or the whole value.
pub open spec fn spec_before_comma(f: Seq<char>) -> Seq<char> {
    match spec_find(f, seq![',']) {
        Some(i) => f.subrange(0, i),
        None => f,
    }
}

/// The client address a request resolves to: the first trimmed entry of
/// the forwarded chain, else the real-IP header, else the peer address,
/// else the unknown marker.
pub open spec fn spec_client_ip(
    forwarded: Option<Seq<char>>,
    real_ip: Option<Seq<char>>,
    peer: Option<Seq<char>>,
) -> Seq<char> {
    match forwarded {
        Some(f) => trimmed(spec_before_comma(f)),
        None => match real_ip {
            Some(x) => x,
            None => match peer {
                Some(p) => p,
                None => "unknown"@,
            },
        },
    }
}

/// Resolves the client address from the forwarded-chain header, the
/// real-IP header and the peer address, in that order.
pub fn resolve_client_ip(forwarded: Option<&str>, real_ip: Option<&str>, peer: Option<&str>) -> (r:
    String)
    ensures
        r@ == spec_client_ip(
            match forwarded {
                Some(f) => Some(f@),
                None => None,
            },
            match real_ip {
                Some(x) => Some(x@),
                None => None,
            },
            match peer {
                Some(p) => Some(p@),
                None => None,
            },
        ),
{
    match forwarded {
        Some(f) => {
            let chars = str_to_chars(f);
            let comma: Vec<char> = vec![','];
            proof {
                assert(comma@ =~= seq![',']);
            }
            let head = match find_first(&chars, &comma) {
                Some(i) => sub_chars(&chars, 0, i),
                None => chars,
            };
            let cleaned = trim_chars(&head);
            chars_to_string(&cleaned)
        },
        None => match real_ip {
            Some(x) => String::from_str(x),
            None => match peer {
                Some(p) => String::from_str(p),
                None => String::from_str("unknown"),
            },
        },
    }
}

/// Derives the full client context of one inbound request from its
/// forwarding headers, peer address and user-agent header.
pub fn extract_client_info(
    forwarded: Option<&str>,
    real_ip: Option<&str>,
    peer: Option<&str>,
    user_agent: Option<&str>,
) -> (r: ClientInfo)
    ensures
        r.ip@ == spec_client_ip(
            match forwarded {
                Some(f) => Some(f@),
                None => None,
            },
            match real_ip {
                Some(x) => Some(x@),
                None => None,
            },
            match peer {
                Some(p) => Some(p@),
                None => None,
            },
        ),
        r.user_agent@ == (match user_agent {
            Some(u) => u@,
            None => "unknown"@,
        }),
        r.device_type@ == spec_device_type(lower_seq(r.user_agent@)),
        r.os@ == spec_os(r.user_agent@),
        r.browser@ == spec_browser(lower_seq(r.user_agent@)),
        r.location matches Some(loc) && loc@ == spec_location(r.ip@),
{
    let ip = resolve_client_ip(forwarded, real_ip, peer);
    let ua = match user_agent {
        Some(u) => String::from_str(u),
        None => String::from_str("unknown"),
    };
    let parsed = parse_user_agent(ua.as_str());
    let location = get_location_from_ip(ip.as_str());
    ClientInfo {
        ip,
        user_agent: ua,
        device_type: parsed.0,
        os: parsed.1,
        browser: parsed.2,
        location,
    }
}

} // verus!
