use phishtest::auth::AuthUser;
use phishtest::auth::Claims;
use phishtest::auth::has_role;
use phishtest::auth::validate_password_strength;
use phishtest::email::html_to_text;
use phishtest::errors::EngineError;
use phishtest::settings::default_settings;

fn user(role: &str) -> AuthUser {
    AuthUser {
        id: "u1".to_string(),
        email: "user@corp.example".to_string(),
        name: "User".to_string(),
        role: role.to_string(),
    }
}

#[test]
fn test_has_role() {
    assert!(has_role(&user("auditor"), "auditor"));
    assert!(!has_role(&user("auditor"), "operator"));
    assert!(has_role(&user("admin"), "operator"), "admin stands in for every role");
}

#[test]
fn test_claims_expiry() {
    let claims = Claims::new(
        "u1".to_string(),
        "user@corp.example".to_string(),
        "User".to_string(),
        "user".to_string(),
        1_700_000_000,
    );
    assert_eq!(claims.iat, 1_700_000_000);
    assert_eq!(claims.exp, 1_700_000_000 + 86_400);
    assert_eq!(claims.sub, "u1");
    assert_eq!(claims.role, "user");
}

#[test]
fn test_password_rules() {
    assert!(validate_password_strength("Str0ng-enough").is_ok());

    let short = validate_password_strength("Ab1").unwrap_err();
    assert_eq!(short, "password must be at least 8 characters long");

    let long = "A1".to_string() + &"a".repeat(130);
    let too_long = validate_password_strength(&long).unwrap_err();
    assert_eq!(too_long, "password must be at most 128 characters long");

    let no_upper = validate_password_strength("weak1234x").unwrap_err();
    assert_eq!(no_upper, "password must contain an uppercase letter");

    let no_lower = validate_password_strength("WEAK1234X").unwrap_err();
    assert_eq!(no_lower, "password must contain a lowercase letter");

    let no_digit = validate_password_strength("Weakweakweak").unwrap_err();
    assert_eq!(no_digit, "password must contain a digit");

    let weak = validate_password_strength("Password1").unwrap_err();
    assert_eq!(weak, "password is too common; choose a stronger one");
    assert!(validate_password_strength("XQwerty123z").is_err(), "weak word inside");
}

#[test]
fn test_default_settings_values() {
    let s = default_settings();
    assert_eq!(s.email.smtp_port, "587");
    assert_eq!(s.email.send_rate, "60");
    assert_eq!(s.email.batch_size, "100");
    assert_eq!(s.email.sender_name, "PhishTest Suite");
    assert!(s.email.ssl_enabled);
    assert_eq!(s.security.session_timeout, "30");
    assert_eq!(s.security.max_login_attempts, "5");
    assert!(!s.security.two_factor_auth);
    assert!(s.notifications.campaign_complete);
    assert_eq!(s.notifications.admin_email, "");
}

#[test]
fn test_html_to_text_strips_tags() {
    assert_eq!(html_to_text("<html><body> Hi <b>there</b>! </body></html>"), "Hi there!");
    assert_eq!(html_to_text("plain text"), "plain text");
    assert_eq!(html_to_text("a<b<c>d"), "ad");
    assert_eq!(html_to_text("broken <tag with no close"), "broken <tag with no close");
}

#[test]
fn test_error_messages() {
    assert_eq!(EngineError::PreconditionFailed.message(), "precondition failed");
    assert_eq!(EngineError::NotFound.message(), "not found");
    assert_eq!(EngineError::InternalError.message(), "internal error");
}
