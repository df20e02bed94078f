//! The tracking-token codec.
//!
//! A token is the URL-safe, padding-free base64 text of the UTF-8 bytes of
//! `"{campaign_id}:{recipient_id}"`. Decoding degrades to `None` on any
//! input that is not such an encoding, so inbound tracking hits can always
//! be answered with an inert resource.

use vstd::prelude::*;
use base64::Engine;
use crate::text::split_at_sole;
use crate::text::split_two;
use crate::text::sole_sep;
use crate::text::str_to_chars;
use crate::text::chars_to_string;
use crate::text::push_all;

verus! {

/// Two identifiers joined around the tracking delimiter.
pub open spec fn spec_join_pair(c: Seq<char>, r: Seq<char>) -> Seq<char> {
    c + seq![':'] + r
}

/// The URL-safe, padding-free base64 text of the UTF-8 bytes of `data`.
pub uninterp spec fn encoded_token(data: Seq<char>) -> Seq<char>;

/// The text whose URL-safe, padding-free base64 encoding is `t`, when `t`
/// is such an encoding of valid UTF-8 bytes; nothing otherwise.
pub uninterp spec fn decoded_token(t: Seq<char>) -> Option<Seq<char>>;

/// Relies on base64's `URL_SAFE_NO_PAD` engine: `encode` maps the UTF-8
/// bytes of `data` to base64 text, and `decode` inverts every encoding, so
/// the result decodes back to `data`. The length bound keeps the engine's
/// output-size computation away from its overflow panic.
#[verifier::external_body]
fn b64_encode(data: &str) -> (r: String)
    requires
        data@.len() <= usize::MAX / 8,
    ensures
        r@ == encoded_token(data@),
        decoded_token(r@) == Some(data@),
{
    base64::engine::general_purpose::URL_SAFE_NO_PAD.encode(data.as_bytes())
}

/// Relies on base64's `URL_SAFE_NO_PAD` engine and `String::from_utf8`:
/// base64 text of valid UTF-8 bytes comes back as that text, anything else
/// as `None`; neither path panics.
#[verifier::external_body]
fn b64_decode(t: &str) -> (r: Option<String>)
    ensures
        match r {
            Some(s) => decoded_token(t@) == Some(s@),
            None => decoded_token(t@) is None,
        },
{
    match base64::engine::general_purpose::URL_SAFE_NO_PAD.decode(t.as_bytes()) {
        Ok(bytes) => String::from_utf8(bytes).ok(),
        Err(_) => None,
    }
}

/// What a well-formed token stands for: the two identifiers around the
/// sole delimiter of the decoded text.
pub open spec fn spec_parse_token(t: Seq<char>) -> Option<(Seq<char>, Seq<char>)> {
    match decoded_token(t) {
        Some(data) => split_at_sole(data, ':'),
        None => None,
    }
}

/// Joining two delimiter-free identifiers and splitting at the sole
/// delimiter are inverse to one another.
pub proof fn lemma_split_join(c: Seq<char>, r: Seq<char>)
    requires
        !c.contains(':'),
        !r.contains(':'),
    ensures
        split_at_sole(spec_join_pair(c, r), ':') == Some((c, r)),
{
    let s = spec_join_pair(c, r);
    let n = c.len() as int;
    assert(s.len() == c.len() + 1 + r.len());
    assert(s[n] == ':');
    assert forall|j: int| 0 <= j < s.len() && s[j] == ':' implies j == n by {
        if j < n {
            assert(s[j] == c[j]);
            assert(c.contains(':'));
        } else if j > n {
            assert(s[j] == r[j - n - 1]);
            assert(r.contains(':'));
        }
    }
    assert(sole_sep(s, ':'));
    let w = choose|w: int|
        0 <= w < s.len() && s[w] == ':' && (forall|j: int|
            0 <= j < s.len() && s[j] == ':' ==> j == w);
    assert(s[n] == ':' && 0 <= n < s.len());
    assert(w == n);
    assert(s.subrange(0, n) =~= c);
    assert(s.subrange(n + 1, s.len() as int) =~= r);
}

/// Encodes a campaign/recipient pair as an opaque, URL-safe token.
///
/// For identifiers free of the delimiter, the token parses back to exactly
/// the pair it was made from.
pub fn generate_tracking_id(campaign_id: &str, recipient_id: &str) -> (r: String)
    requires
        campaign_id@.len() + recipient_id@.len() < usize::MAX / 8,
    ensures
        r@ == encoded_token(spec_join_pair(campaign_id@, recipient_id@)),
        !campaign_id@.contains(':') && !recipient_id@.contains(':')
            ==> spec_parse_token(r@) == Some((campaign_id@, recipient_id@)),
{
    let mut joined = str_to_chars(campaign_id);
    joined.push(':');
    let rest = str_to_chars(recipient_id);
    push_all(&mut joined, &rest);
    proof {
        assert(joined@ =~= spec_join_pair(campaign_id@, recipient_id@));
    }
    let data = chars_to_string(&joined);
    let token = b64_encode(data.as_str());
    proof {
        if !campaign_id@.contains(':') && !recipient_id@.contains(':') {
            lemma_split_join(campaign_id@, recipient_id@);
        }
    }
    token
}

/// Decodes a tracking token back to its campaign/recipient pair.
///
/// Returns `None`, and never fails in any other way, whenever the input is
/// not a well-formed token: not valid base64, not valid text, or without
/// exactly one delimiter.
pub fn parse_tracking_id(tracking_id: &str) -> (r: Option<(String, String)>)
    ensures
        match r {
            Some(p) => spec_parse_token(tracking_id@) == Some((p.0@, p.1@)),
            None => spec_parse_token(tracking_id@) is None,
        },
{
    match b64_decode(tracking_id) {
        Some(data) => {
            let chars = str_to_chars(data.as_str());
            match split_two(&chars, ':') {
                Some(parts) => Some((chars_to_string(&parts.0), chars_to_string(&parts.1))),
                None => None,
            }
        },
        None => None,
    }
}

} // verus!
