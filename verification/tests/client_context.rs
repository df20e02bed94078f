use phishtest::user_agent::extract_android_version;
use phishtest::user_agent::extract_client_info;
use phishtest::user_agent::extract_ios_version;
use phishtest::user_agent::extract_macos_version;
use phishtest::user_agent::get_location_from_ip;
use phishtest::user_agent::parse_user_agent;
use phishtest::user_agent::resolve_client_ip;

#[test]
fn test_parse_chrome_windows() {
    let ua = "Mozilla/5.0 (Windows NT 10.0; Win64; x64) AppleWebKit/537.36 (KHTML, like Gecko) Chrome/120.0.0.0 Safari/537.36";
    let (device, os, browser) = parse_user_agent(ua);

    assert_eq!(device, "Desktop");
    assert_eq!(os, "Windows 10/11");
    assert_eq!(browser, "Chrome");
}

#[test]
fn test_parse_safari_ios() {
    let ua = "Mozilla/5.0 (iPhone; CPU iPhone OS 16_0 like Mac OS X) AppleWebKit/605.1.15 (KHTML, like Gecko) Version/16.0 Mobile/15E148 Safari/604.1";
    let (device, os, browser) = parse_user_agent(ua);

    assert_eq!(device, "Mobile");
    assert!(os.contains("iPhone"));
    assert_eq!(browser, "Safari");
}

#[test]
fn test_parse_firefox_linux() {
    let ua = "Mozilla/5.0 (X11; Linux x86_64; rv:109.0) Gecko/20100101 Firefox/119.0";
    let (device, os, browser) = parse_user_agent(ua);

    assert_eq!(device, "Desktop");
    assert_eq!(os, "Linux");
    assert_eq!(browser, "Firefox");
}

#[test]
fn test_internal_ip_detection() {
    assert_eq!(get_location_from_ip("192.168.1.1"), Some("internal".to_string()));
    assert_eq!(get_location_from_ip("10.0.0.1"), Some("internal".to_string()));
    assert_eq!(get_location_from_ip("172.16.0.1"), Some("internal".to_string()));
    assert_eq!(get_location_from_ip("127.0.0.1"), Some("internal".to_string()));
}

#[test]
fn test_external_ip_detection() {
    assert_eq!(get_location_from_ip("8.8.8.8"), Some("external".to_string()));
    assert_eq!(get_location_from_ip("172.32.0.1"), Some("external".to_string()));
    assert_eq!(get_location_from_ip("192.169.0.1"), Some("external".to_string()));
    assert_eq!(get_location_from_ip("::1"), Some("internal".to_string()));
    assert_eq!(get_location_from_ip("unknown"), Some("internal".to_string()));
}

#[test]
fn test_parse_edge_not_chrome() {
    let ua = "Mozilla/5.0 (Windows NT 10.0; Win64; x64) AppleWebKit/537.36 (KHTML, like Gecko) Chrome/120.0.0.0 Safari/537.36 Edg/120.0.0.0";
    let (_, _, browser) = parse_user_agent(ua);
    assert_eq!(browser, "Microsoft Edge");
}

#[test]
fn test_parse_unknown_agent() {
    let (device, os, browser) = parse_user_agent("curl/8.0.1");
    assert_eq!(device, "Desktop");
    assert_eq!(os, "Unknown");
    assert_eq!(browser, "Unknown");
}

#[test]
fn test_macos_version_extraction() {
    let ua = "Mozilla/5.0 (Macintosh; Intel Mac OS X 10_15_7) AppleWebKit/537.36";
    assert_eq!(extract_macos_version(ua), "Mac OS X 10.15.7");
    assert_eq!(extract_macos_version("no marker here"), "macOS");
}

#[test]
fn test_android_version_extraction() {
    let ua = "Mozilla/5.0 (Linux; Android 13; Pixel 7) AppleWebKit/537.36";
    assert_eq!(extract_android_version(ua), "Android 13");
    assert_eq!(extract_android_version("Mozilla/5.0 (Linux)"), "Android");
}

#[test]
fn test_ios_version_extraction() {
    let ua = "Mozilla/5.0 (iPhone; CPU iPhone OS 16_0 like Mac OS X) AppleWebKit/605.1.15";
    assert_eq!(extract_ios_version(ua, "iPhone"), "iPhone (iOS 16.0)");
    assert_eq!(extract_ios_version("Mozilla/5.0", "iPad"), "iPad (iOS)");
}

#[test]
fn test_client_ip_resolution_order() {
    assert_eq!(resolve_client_ip(Some(" 1.2.3.4 , 5.6.7.8"), Some("9.9.9.9"), Some("10.0.0.2")), "1.2.3.4");
    assert_eq!(resolve_client_ip(None, Some("9.9.9.9"), Some("10.0.0.2")), "9.9.9.9");
    assert_eq!(resolve_client_ip(None, None, Some("10.0.0.2")), "10.0.0.2");
    assert_eq!(resolve_client_ip(None, None, None), "unknown");
}

#[test]
fn test_extract_client_info_composition() {
    let info = extract_client_info(
        Some("203.0.113.9, 10.0.0.1"),
        None,
        Some("10.0.0.1"),
        Some("Mozilla/5.0 (X11; Linux x86_64; rv:109.0) Gecko/20100101 Firefox/119.0"),
    );
    assert_eq!(info.ip, "203.0.113.9");
    assert_eq!(info.device_type, "Desktop");
    assert_eq!(info.os, "Linux");
    assert_eq!(info.browser, "Firefox");
    assert_eq!(info.location, Some("external".to_string()));

    let unknown = extract_client_info(None, None, None, None);
    assert_eq!(unknown.ip, "unknown");
    assert_eq!(unknown.user_agent, "unknown");
    assert_eq!(unknown.location, Some("internal".to_string()));
}
