use phishtest::codec::generate_tracking_id;
use phishtest::codec::parse_tracking_id;

#[test]
fn test_tracking_id_generation_and_parsing() {
    let campaign_id = "campaign-123";
    let recipient_id = "recipient-456";

    let tracking_id = generate_tracking_id(campaign_id, recipient_id);
    let (parsed_campaign, parsed_recipient) = parse_tracking_id(&tracking_id).unwrap();

    assert_eq!(parsed_campaign, campaign_id);
    assert_eq!(parsed_recipient, recipient_id);
}

#[test]
fn test_token_is_opaque() {
    let token = generate_tracking_id("campaign-123", "recipient-456");
    assert_ne!(token, "campaign-123:recipient-456");
    assert!(!token.contains(':'));
}

#[test]
fn test_parse_garbage_never_fails() {
    assert_eq!(parse_tracking_id(""), None);
    assert_eq!(parse_tracking_id("!!!not base64!!!"), None);
    assert_eq!(parse_tracking_id("????"), None);
    assert_eq!(parse_tracking_id("YQ"), None); // decodes to "a": no delimiter
    assert_eq!(parse_tracking_id("YTpiOmM"), None); // decodes to "a:b:c": two delimiters
    assert_eq!(parse_tracking_id("/w"), None); // not in the URL-safe alphabet
}

#[test]
fn test_round_trip_empty_identifiers() {
    let token = generate_tracking_id("", "");
    let (c, r) = parse_tracking_id(&token).unwrap();
    assert_eq!(c, "");
    assert_eq!(r, "");
}

#[test]
fn test_round_trip_unicode_identifiers() {
    let token = generate_tracking_id("campagne-é", "empfänger-ü");
    let (c, r) = parse_tracking_id(&token).unwrap();
    assert_eq!(c, "campagne-é");
    assert_eq!(r, "empfänger-ü");
}
