//! The template renderer.
//!
//! Substitutes recipient variables into a message body, swaps the link
//! placeholder for a redirect-through-tracking URL, and injects a tracking
//! pixel before the closing body marker (or at the end when the document
//! has none).

use vstd::prelude::*;
use crate::codec::encoded_token;
use crate::codec::spec_join_pair;
use crate::codec::generate_tracking_id;
use crate::text::has_sub;
use crate::text::spec_replaced;
use crate::text::str_to_chars;
use crate::text::chars_to_string;
use crate::text::push_all;
use crate::text::replace_all;
use crate::text::contains_sub;

verus! {

/// The percent-encoded form of `s`, in the encoding urlencoding produces.
pub uninterp spec fn url_encoded(s: Seq<char>) -> Seq<char>;

/// Relies on urlencoding's `encode`: percent-encodes every byte outside
/// the unreserved set; the result depends on the input characters alone.
#[verifier::external_body]
fn percent_encode(s: &str) -> (r: String)
    ensures
        r@ == url_encoded(s@),
{
    urlencoding::encode(s).into_owned()
}

/// The tracking-pixel URL for a campaign/recipient pair.
pub open spec fn spec_pixel_url(base: Seq<char>, c: Seq<char>, r: Seq<char>) -> Seq<char> {
    base + "/api/v1/track/pixel/"@ + encoded_token(spec_join_pair(c, r))
}

/// The redirect-through-tracking URL for a campaign/recipient pair and a
/// destination.
pub open spec fn spec_click_url(
    base: Seq<char>,
    c: Seq<char>,
    r: Seq<char>,
    target: Seq<char>,
) -> Seq<char> {
    base + "/api/v1/track/click/"@ + encoded_token(spec_join_pair(c, r)) + "?redirect="@
        + url_encoded(target)
}

/// The zero-sized image tag that references a tracking-pixel URL.
pub open spec fn spec_pixel_tag(pixel_url: Seq<char>) -> Seq<char> {
    "<img src=\""@ + pixel_url + ("\" width=\"1\" height=\"1\" style=\"display:none\" alt=\"\" />")@
}

/// `html` with `tag` inserted before each closing body marker, or appended
/// when the document has none.
pub open spec fn spec_injected(html: Seq<char>, tag: Seq<char>) -> Seq<char> {
    if has_sub(html, "</body>"@) {
        spec_replaced(html, "</body>"@, tag + "</body>"@)
    } else {
        html + tag
    }
}

/// A bound under which every token this module builds stays clear of the
/// base64 engine's size limit.
pub open spec fn ids_fit(c: Seq<char>, r: Seq<char>) -> bool {
    c.len() + r.len() < usize::MAX / 8
}

/// Builds the tracking-pixel URL for a campaign/recipient pair.
pub fn generate_tracking_pixel(campaign_id: &str, recipient_id: &str, base_url: &str) -> (r:
    String)
    requires
        ids_fit(campaign_id@, recipient_id@),
    ensures
        r@ == spec_pixel_url(base_url@, campaign_id@, recipient_id@),
{
    let token = generate_tracking_id(campaign_id, recipient_id);
    let mut url = str_to_chars(base_url);
    let path = str_to_chars("/api/v1/track/pixel/");
    push_all(&mut url, &path);
    let tok = str_to_chars(token.as_str());
    push_all(&mut url, &tok);
    proof {
        assert(url@ =~= spec_pixel_url(base_url@, campaign_id@, recipient_id@));
    }
    chars_to_string(&url)
}

/// Builds the redirect-through-tracking URL for a campaign/recipient pair,
/// percent-encoding the destination into the redirect query parameter.
pub fn generate_tracking_link(
    campaign_id: &str,
    recipient_id: &str,
    target_url: &str,
    base_url: &str,
) -> (r: String)
    requires
        ids_fit(campaign_id@, recipient_id@),
    ensures
        r@ == spec_click_url(base_url@, campaign_id@, recipient_id@, target_url@),
{
    let token = generate_tracking_id(campaign_id, recipient_id);
    let encoded_target = percent_encode(target_url);
    let mut url = str_to_chars(base_url);
    let path = str_to_chars("/api/v1/track/click/");
    push_all(&mut url, &path);
    let tok = str_to_chars(token.as_str());
    push_all(&mut url, &tok);
    let query = str_to_chars("?redirect=");
    push_all(&mut url, &query);
    let tgt = str_to_chars(encoded_target.as_str());
    push_all(&mut url, &tgt);
    proof {
        assert(url@ =~= spec_click_url(base_url@, campaign_id@, recipient_id@, target_url@));
    }
    chars_to_string(&url)
}

/// Inserts a tracking pixel for the pair into `html`, immediately before
/// the closing body marker, or at the end when the document has none.
pub fn inject_tracking_pixel(html: &str, campaign_id: &str, recipient_id: &str, base_url: &str)
    -> (r: String)
    requires
        ids_fit(campaign_id@, recipient_id@),
    ensures
        r@ == spec_injected(
            html@,
            spec_pixel_tag(spec_pixel_url(base_url@, campaign_id@, recipient_id@)),
        ),
{
    let pixel_url = generate_tracking_pixel(campaign_id, recipient_id, base_url);
    let mut tag = str_to_chars("<img src=\"");
    let url_chars = str_to_chars(pixel_url.as_str());
    push_all(&mut tag, &url_chars);
    let tail = str_to_chars("\" width=\"1\" height=\"1\" style=\"display:none\" alt=\"\" />");
    push_all(&mut tag, &tail);
    proof {
        assert(tag@ =~= spec_pixel_tag(spec_pixel_url(base_url@, campaign_id@, recipient_id@)));
    }
    let html_chars = str_to_chars(html);
    let marker = str_to_chars("</body>");
    if contains_sub(&html_chars, &marker) {
        let mut replacement = Vec::<char>::new();
        push_all(&mut replacement, &tag);
        push_all(&mut replacement, &marker);
        let out = replace_all(&html_chars, &marker, &replacement);
        chars_to_string(&out)
    } else {
        let mut out = html_chars;
        push_all(&mut out, &tag);
        chars_to_string(&out)
    }
}

/// What a fully rendered message body is: the variable substitutions, then
/// the link substitution, then the pixel injection, in the renderer's
/// order.
pub open spec fn spec_rendered(
    template: Seq<char>,
    c: Seq<char>,
    r: Seq<char>,
    name: Seq<char>,
    email: Seq<char>,
    target: Seq<char>,
    base: Seq<char>,
) -> Seq<char> {
    let with_name = spec_replaced(template, "{{recipient_name}}"@, name);
    let with_email = spec_replaced(with_name, "{{recipient_email}}"@, email);
    let with_short_name = spec_replaced(with_email, "{{name}}"@, name);
    let with_short_email = spec_replaced(with_short_name, "{{email}}"@, email);
    let with_link = spec_replaced(
        with_short_email,
        "{{phishing_link}}"@,
        spec_click_url(base, c, r, target),
    );
    spec_injected(with_link, spec_pixel_tag(spec_pixel_url(base, c, r)))
}

/// Renders one personalized message: substitutes the recipient variables
/// (each in two spellings), swaps the link placeholder for the tracking
/// URL, and injects the tracking pixel. Placeholders the template does not
/// hold are left alone; unresolved other text is kept verbatim.
pub fn process_email_template(
    template_html: &str,
    campaign_id: &str,
    recipient_id: &str,
    recipient_name: &str,
    recipient_email: &str,
    phishing_target_url: &str,
    base_url: &str,
) -> (r: String)
    requires
        ids_fit(campaign_id@, recipient_id@),
    ensures
        r@ == spec_rendered(
            template_html@,
            campaign_id@,
            recipient_id@,
            recipient_name@,
            recipient_email@,
            phishing_target_url@,
            base_url@,
        ),
{
    let template = str_to_chars(template_html);
    let name = str_to_chars(recipient_name);
    let email = str_to_chars(recipient_email);

    let pat_name = str_to_chars("{{recipient_name}}");
    let step1 = replace_all(&template, &pat_name, &name);
    let pat_email = str_to_chars("{{recipient_email}}");
    let step2 = replace_all(&step1, &pat_email, &email);
    let pat_short_name = str_to_chars("{{name}}");
    let step3 = replace_all(&step2, &pat_short_name, &name);
    let pat_short_email = str_to_chars("{{email}}");
    let step4 = replace_all(&step3, &pat_short_email, &email);

    let link = generate_tracking_link(campaign_id, recipient_id, phishing_target_url, base_url);
    let link_chars = str_to_chars(link.as_str());
    let pat_link = str_to_chars("{{phishing_link}}");
    let step5 = replace_all(&step4, &pat_link, &link_chars);

    let with_link = chars_to_string(&step5);
    inject_tracking_pixel(with_link.as_str(), campaign_id, recipient_id, base_url)
}

/// The static page served to a click that names no redirect
/// destination: the disclosure that the link belonged to a phishing
/// simulation.
pub fn warning_page_html() -> (r: &'static str)
    ensures
        r@ == "<!DOCTYPE html><html><head><meta charset=\"utf-8\"><title>Phishing simulation</title></head><body><h1>This was a phishing simulation</h1><p>The link you just followed was part of a security awareness exercise. A real attack would not announce itself: check the sender, hover over links before clicking, and report suspicious messages.</p></body></html>"@,
{
    "<!DOCTYPE html><html><head><meta charset=\"utf-8\"><title>Phishing simulation</title></head><body><h1>This was a phishing simulation</h1><p>The link you just followed was part of a security awareness exercise. A real attack would not announce itself: check the sender, hover over links before clicking, and report suspicious messages.</p></body></html>"
}

/// The single-pixel transparent image that answers every pixel request:
/// the same 43 bytes whatever the token held, so the response reveals
/// nothing about its validity.
pub fn tracking_pixel_gif() -> (g: Vec<u8>)
    ensures
        g@ =~= seq![
            0x47u8, 0x49, 0x46, 0x38, 0x39, 0x61, 0x01, 0x00, 0x01, 0x00, 0x80, 0x00, 0x00, 0xFF,
            0xFF, 0xFF, 0x00, 0x00, 0x00, 0x21, 0xF9, 0x04, 0x01, 0x00, 0x00, 0x00, 0x00, 0x2C,
            0x00, 0x00, 0x00, 0x00, 0x01, 0x00, 0x01, 0x00, 0x00, 0x02, 0x02, 0x44, 0x01, 0x00,
            0x3B,
        ],
        g@.len() == 43,
{
    let g: Vec<u8> = vec![
        0x47, 0x49, 0x46, 0x38, 0x39, 0x61, 0x01, 0x00, 0x01, 0x00, 0x80, 0x00, 0x00, 0xFF, 0xFF,
        0xFF, 0x00, 0x00, 0x00, 0x21, 0xF9, 0x04, 0x01, 0x00, 0x00, 0x00, 0x00, 0x2C, 0x00, 0x00,
        0x00, 0x00, 0x01, 0x00, 0x01, 0x00, 0x00, 0x02, 0x02, 0x44, 0x01, 0x00, 0x3B,
    ];
    g
}

/// What a rendered test message is: the variable substitutions of a real
/// render, with the link placeholder pointing at the fixed test
/// destination and no tracking artifacts at all.
pub open spec fn spec_test_rendered(
    template: Seq<char>,
    name: Seq<char>,
    email: Seq<char>,
) -> Seq<char> {
    let with_name = spec_replaced(template, "{{recipient_name}}"@, name);
    let with_short_name = spec_replaced(with_name, "{{name}}"@, name);
    let with_email = spec_replaced(with_short_name, "{{recipient_email}}"@, email);
    let with_short_email = spec_replaced(with_email, "{{email}}"@, email);
    spec_replaced(with_short_email, "{{phishing_link}}"@, "https://example.com/test-link"@)
}

/// Renders a template as a test message: substitutes the test name and
/// address for the recipient variables and an inert fixed link for the
/// link placeholder, and injects nothing — a test send records no
/// engagement.
pub fn process_test_template(template_html: &str, test_name: &str, test_email: &str) -> (r:
    String)
    ensures
        r@ == spec_test_rendered(template_html@, test_name@, test_email@),
{
    let template = str_to_chars(template_html);
    let name = str_to_chars(test_name);
    let email = str_to_chars(test_email);

    let step1 = replace_all(&template, &str_to_chars("{{recipient_name}}"), &name);
    let step2 = replace_all(&step1, &str_to_chars("{{name}}"), &name);
    let step3 = replace_all(&step2, &str_to_chars("{{recipient_email}}"), &email);
    let step4 = replace_all(&step3, &str_to_chars("{{email}}"), &email);
    let link = str_to_chars("https://example.com/test-link");
    let step5 = replace_all(&step4, &str_to_chars("{{phishing_link}}"), &link);
    chars_to_string(&step5)
}

} // verus!
