use phishtest::codec::parse_tracking_id;
use phishtest::render::generate_tracking_link;
use phishtest::render::generate_tracking_pixel;
use phishtest::render::inject_tracking_pixel;
use phishtest::render::process_email_template;
use phishtest::render::tracking_pixel_gif;
use phishtest::render::warning_page_html;

const BASE_URL: &str = "http://localhost:8080";

#[test]
fn test_template_processing() {
    let template = r#"<html><body><h1>Hello {{recipient_name}}</h1><a href="{{phishing_link}}">Click here</a></body></html>"#;
    let processed = process_email_template(
        template,
        "campaign-1",
        "recipient-1",
        "John Doe",
        "john@example.com",
        "https://evil.com/phishing",
        BASE_URL,
    );

    assert!(processed.contains("Hello John Doe"));
    assert!(processed.contains("/api/v1/track/click/"));
    assert!(processed.contains("/api/v1/track/pixel/"));
}

#[test]
fn test_end_to_end_render() {
    let template =
        "<html><body>Hi {{recipient_name}}, <a href='{{phishing_link}}'>go</a></body></html>";
    let rendered = process_email_template(
        template,
        "campaign-9",
        "recipient-7",
        "Ana",
        "ana@corp.example",
        "https://corp.example/portal",
        BASE_URL,
    );

    assert!(rendered.contains("Hi Ana"));

    // The click URL's path segment carries a token that decodes back to
    // the original pair.
    let click_prefix = format!("{}/api/v1/track/click/", BASE_URL);
    let after = rendered.split(&click_prefix).nth(1).expect("click URL missing");
    let token: String = after.chars().take_while(|c| *c != '?').collect();
    let (c, r) = parse_tracking_id(&token).expect("token must decode");
    assert_eq!(c, "campaign-9");
    assert_eq!(r, "recipient-7");

    // The pixel tag is injected immediately before the closing body marker.
    let pixel_prefix = format!("{}/api/v1/track/pixel/", BASE_URL);
    assert!(rendered.contains(&pixel_prefix));
    let tag_start = rendered.find("<img src=").expect("pixel tag missing");
    let body_close = rendered.find("</body>").expect("body marker missing");
    assert!(tag_start < body_close);
    assert!(rendered[tag_start..body_close].ends_with("/>"));
}

#[test]
fn test_unresolved_placeholders_left_verbatim() {
    let rendered = process_email_template(
        "Hello {{unknown_token}} and {{name}}",
        "c",
        "r",
        "Kim",
        "kim@example.com",
        "https://example.com",
        BASE_URL,
    );
    assert!(rendered.contains("{{unknown_token}}"));
    assert!(rendered.contains("Hello"));
    assert!(rendered.contains("Kim"));
}

#[test]
fn test_both_spellings_substituted() {
    let rendered = process_email_template(
        "{{recipient_name}}|{{name}}|{{recipient_email}}|{{email}}",
        "c",
        "r",
        "Kim",
        "kim@example.com",
        "https://example.com",
        BASE_URL,
    );
    assert!(rendered.starts_with("Kim|Kim|kim@example.com|kim@example.com"));
}

#[test]
fn test_inject_pixel_before_body_close() {
    let html = "<html><body>hello</body></html>";
    let out = inject_tracking_pixel(html, "c1", "r1", BASE_URL);
    let tag_start = out.find("<img src=").unwrap();
    let body_close = out.find("</body>").unwrap();
    assert!(tag_start < body_close);
}

#[test]
fn test_inject_pixel_without_body_marker_appends() {
    let html = "no markup at all";
    let out = inject_tracking_pixel(html, "c1", "r1", BASE_URL);
    assert!(out.starts_with("no markup at all<img src="));
    assert!(out.ends_with("/>"));
}

#[test]
fn test_tracking_link_percent_encodes_target() {
    let link = generate_tracking_link("c1", "r1", "https://evil.com/a b?x=1", BASE_URL);
    assert!(link.contains("?redirect=https%3A%2F%2Fevil.com%2Fa%20b%3Fx%3D1"));
}

#[test]
fn test_tracking_pixel_url_shape() {
    let url = generate_tracking_pixel("c1", "r1", BASE_URL);
    let prefix = format!("{}/api/v1/track/pixel/", BASE_URL);
    assert!(url.starts_with(&prefix));
    let token = &url[prefix.len()..];
    assert_eq!(parse_tracking_id(token), Some(("c1".to_string(), "r1".to_string())));
}

#[test]
fn test_pixel_gif_is_43_bytes() {
    let gif = tracking_pixel_gif();
    assert_eq!(gif.len(), 43);
    assert_eq!(&gif[0..6], b"GIF89a");
    let expected: Vec<u8> = vec![
        0x47, 0x49, 0x46, 0x38, 0x39, 0x61, 0x01, 0x00, 0x01, 0x00, 0x80, 0x00, 0x00, 0xFF, 0xFF,
        0xFF, 0x00, 0x00, 0x00, 0x21, 0xF9, 0x04, 0x01, 0x00, 0x00, 0x00, 0x00, 0x2C, 0x00, 0x00,
        0x00, 0x00, 0x01, 0x00, 0x01, 0x00, 0x00, 0x02, 0x02, 0x44, 0x01, 0x00, 0x3B,
    ];
    assert_eq!(gif, expected);
}

#[test]
fn test_warning_page_discloses_the_simulation() {
    let page = warning_page_html();
    assert!(page.starts_with("<!DOCTYPE html>"));
    assert!(page.contains("This was a phishing simulation"));
    assert!(page.ends_with("</html>"));
}
