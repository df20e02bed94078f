//! System settings: the shape of the configuration document and its
//! defaults. Persisting and serializing the document is the storage
//! collaborator's business.

use vstd::prelude::*;
use vstd::string::StringExecFns;

verus! {

/// Mail-delivery configuration.
pub struct EmailSettings {
    pub smtp_host: String,
    pub smtp_port: String,
    pub smtp_user: String,
    pub smtp_password: String,
    pub ssl_enabled: bool,
    pub send_rate: String,
    pub batch_size: String,
    pub sender_name: String,
    pub sender_email: String,
}

/// Security configuration.
pub struct SecuritySettings {
    pub data_encryption: bool,
    pub transport_encryption: bool,
    pub session_timeout: String,
    pub max_login_attempts: String,
    pub two_factor_auth: bool,
    pub ip_whitelist: bool,
}

/// Notification configuration.
pub struct NotificationSettings {
    pub campaign_complete: bool,
    pub high_risk_user: bool,
    pub system_error: bool,
    pub admin_email: String,
}

/// The whole configuration document.
pub struct SystemSettings {
    pub email: EmailSettings,
    pub security: SecuritySettings,
    pub notifications: NotificationSettings,
}

/// A full replacement of the configuration document.
pub struct UpdateSettingsRequest {
    pub email: EmailSettings,
    pub security: SecuritySettings,
    pub notifications: NotificationSettings,
}

/// The settings served when none are stored, and written back by a
/// reset: standard submission port, one message a minute in batches of a
/// hundred, encryption on, every notification on.
pub fn default_settings() -> (r: SystemSettings)
    ensures
        r.email.smtp_host@ == Seq::<char>::empty(),
        r.email.smtp_port@ == "587"@,
        r.email.smtp_user@ == Seq::<char>::empty(),
        r.email.smtp_password@ == Seq::<char>::empty(),
        r.email.ssl_enabled,
        r.email.send_rate@ == "60"@,
        r.email.batch_size@ == "100"@,
        r.email.sender_name@ == "PhishTest Suite"@,
        r.email.sender_email@ == Seq::<char>::empty(),
        r.security.data_encryption,
        r.security.transport_encryption,
        r.security.session_timeout@ == "30"@,
        r.security.max_login_attempts@ == "5"@,
        !r.security.two_factor_auth,
        !r.security.ip_whitelist,
        r.notifications.campaign_complete,
        r.notifications.high_risk_user,
        r.notifications.system_error,
        r.notifications.admin_email@ == Seq::<char>::empty(),
{
    SystemSettings {
        email: EmailSettings {
            smtp_host: String::new(),
            smtp_port: String::from_str("587"),
            smtp_user: String::new(),
            smtp_password: String::new(),
            ssl_enabled: true,
            send_rate: String::from_str("60"),
            batch_size: String::from_str("100"),
            sender_name: String::from_str("PhishTest Suite"),
            sender_email: String::new(),
        },
        security: SecuritySettings {
            data_encryption: true,
            transport_encryption: true,
            session_timeout: String::from_str("30"),
            max_login_attempts: String::from_str("5"),
            two_factor_auth: false,
            ip_whitelist: false,
        },
        notifications: NotificationSettings {
            campaign_complete: true,
            high_risk_user: true,
            system_error: true,
            admin_email: String::new(),
        },
    }
}

} // verus!
