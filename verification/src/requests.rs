//! The request shapes callers hand the engine, with plain values
//! throughout: identifiers as strings, moments as Unix seconds. The
//! transport layer parses its wire format into these and back.

use vstd::prelude::*;

verus! {

/// Creates a template.
pub struct CreateTemplateRequest {
    pub name: String,
    pub category: String,
    pub description: Option<String>,
    pub subject: String,
    pub content: String,
}

/// Changes a template; only the supplied fields change.
pub struct UpdateTemplateRequest {
    pub name: Option<String>,
    pub category: Option<String>,
    pub description: Option<String>,
    pub subject: Option<String>,
    pub content: Option<String>,
}

/// Creates a recipient.
pub struct CreateRecipientRequest {
    pub name: String,
    pub email: String,
    pub department: Option<String>,
    pub position: Option<String>,
    pub phone: Option<String>,
}

/// Changes a recipient; only the supplied fields change.
pub struct UpdateRecipientRequest {
    pub name: Option<String>,
    pub email: Option<String>,
    pub department: Option<String>,
    pub position: Option<String>,
    pub phone: Option<String>,
}

/// Creates a campaign, optionally naming a template and recipient
/// groups.
pub struct CreateCampaignRequest {
    pub name: String,
    pub description: Option<String>,
    pub template_id: Option<String>,
    pub recipient_groups: Vec<String>,
}

/// Changes a campaign; only the supplied fields change.
pub struct UpdateCampaignRequest {
    pub name: Option<String>,
    pub description: Option<String>,
    pub status: Option<String>,
    pub scheduled_at: Option<i64>,
    pub template_id: Option<String>,
}

/// Registers recipients against a campaign.
pub struct AddRecipientsRequest {
    pub recipient_ids: Vec<String>,
}

/// Imports recipients in bulk.
pub struct BulkImportRequest {
    pub recipients: Vec<CreateRecipientRequest>,
}

/// Creates a recipient group.
pub struct CreateGroupRequest {
    pub name: String,
    pub description: Option<String>,
    pub recipient_ids: Vec<String>,
}

/// Launches a campaign at the listed recipients, optionally naming the
/// destination the tracking link leads to.
pub struct LaunchCampaignRequest {
    pub recipient_ids: Vec<String>,
    pub phishing_target_url: Option<String>,
}

/// Sends one template as a test message, without tracking.
pub struct TestEmailRequest {
    pub test_email: String,
    pub test_name: String,
}

/// The query of a click hit: where to redirect, when given.
pub struct ClickQuery {
    pub redirect: Option<String>,
}

/// The compact campaign-creation form.
pub struct CreateCampaign {
    pub name: String,
    pub description: Option<String>,
    pub template_id: i32,
}

/// The compact recipient-creation form.
pub struct CreateRecipient {
    pub email: String,
    pub name: Option<String>,
    pub department: Option<String>,
}

/// The compact template-creation form.
pub struct CreateTemplate {
    pub name: String,
    pub subject: String,
    pub content: String,
    pub category: String,
}

} // verus!
