//! The engine's data model: campaigns, templates, recipients, and the
//! per-recipient tracking row, with plain values throughout — identifiers
//! are strings, timestamps are Unix seconds.

use vstd::prelude::*;
use crate::text::str_eq;

verus! {

/// The campaign lifecycle. `Draft` is initial; `Completed` is terminal.
#[derive(Clone, Copy, Debug, PartialEq, Eq, Structural)]
pub enum CampaignStatus {
    Draft,
    Scheduled,
    Active,
    Paused,
    Completed,
}

/// A campaign record.
pub struct Campaign {
    pub id: String,
    pub name: Option<String>,
    pub description: Option<String>,
    pub template_id: Option<String>,
    pub status: CampaignStatus,
    pub created_at: Option<i64>,
    pub updated_at: Option<i64>,
}

/// An email template record.
pub struct Template {
    pub id: String,
    pub name: String,
    pub category: String,
    pub description: Option<String>,
    pub subject: String,
    pub content: String,
}

/// A recipient record.
pub struct Recipient {
    pub id: String,
    pub name: String,
    pub email: String,
    pub department: Option<String>,
}

/// One row per campaign and recipient: delivery state, engagement flags,
/// and the forensic snapshot captured with each event.
pub struct CampaignRecipient {
    pub campaign_id: String,
    pub recipient_id: String,
    pub email_sent: bool,
    pub sent_at: Option<i64>,
    pub email_opened: bool,
    pub opened_at: Option<i64>,
    pub opened_ip: Option<String>,
    pub opened_user_agent: Option<String>,
    pub opened_device_type: Option<String>,
    pub opened_os: Option<String>,
    pub opened_browser: Option<String>,
    pub link_clicked: bool,
    pub clicked_at: Option<i64>,
    pub clicked_ip: Option<String>,
    pub clicked_user_agent: Option<String>,
    pub clicked_device_type: Option<String>,
    pub clicked_os: Option<String>,
    pub clicked_browser: Option<String>,
    pub clicked_location: Option<String>,
    pub reported: bool,
    pub reported_at: Option<i64>,
}

impl CampaignRecipient {
    /// The row registers the pair and records nothing yet.
    pub open spec fn is_blank_for(self, c: Seq<char>, r: Seq<char>) -> bool {
        &&& self.campaign_id@ == c
        &&& self.recipient_id@ == r
        &&& !self.email_sent
        &&& self.sent_at is None
        &&& !self.email_opened
        &&& self.opened_at is None
        &&& self.opened_ip is None
        &&& self.opened_user_agent is None
        &&& self.opened_device_type is None
        &&& self.opened_os is None
        &&& self.opened_browser is None
        &&& !self.link_clicked
        &&& self.clicked_at is None
        &&& self.clicked_ip is None
        &&& self.clicked_user_agent is None
        &&& self.clicked_device_type is None
        &&& self.clicked_os is None
        &&& self.clicked_browser is None
        &&& self.clicked_location is None
        &&& !self.reported
        &&& self.reported_at is None
    }

    /// A freshly registered row for the pair.
    pub fn blank(campaign_id: String, recipient_id: String) -> (r: CampaignRecipient)
        ensures
            r.is_blank_for(campaign_id@, recipient_id@),
            r.campaign_id == campaign_id,
            r.recipient_id == recipient_id,
    {
        CampaignRecipient {
            campaign_id,
            recipient_id,
            email_sent: false,
            sent_at: None,
            email_opened: false,
            opened_at: None,
            opened_ip: None,
            opened_user_agent: None,
            opened_device_type: None,
            opened_os: None,
            opened_browser: None,
            link_clicked: false,
            clicked_at: None,
            clicked_ip: None,
            clicked_user_agent: None,
            clicked_device_type: None,
            clicked_os: None,
            clicked_browser: None,
            clicked_location: None,
            reported: false,
            reported_at: None,
        }
    }
}

/// An equal copy of an optional string.
pub fn clone_opt_string(o: &Option<String>) -> (r: Option<String>)
    ensures
        r == *o,
{
    match o {
        Some(s) => Some(s.clone()),
        None => None,
    }
}

impl Recipient {
    /// An equal copy of the record.
    pub fn duplicate(&self) -> (r: Recipient)
        ensures
            r == *self,
    {
        Recipient {
            id: self.id.clone(),
            name: self.name.clone(),
            email: self.email.clone(),
            department: clone_opt_string(&self.department),
        }
    }
}

impl Template {
    /// An equal copy of the record.
    pub fn duplicate(&self) -> (r: Template)
        ensures
            r == *self,
    {
        Template {
            id: self.id.clone(),
            name: self.name.clone(),
            category: self.category.clone(),
            description: clone_opt_string(&self.description),
            subject: self.subject.clone(),
            content: self.content.clone(),
        }
    }
}

impl Campaign {
    /// An equal copy of the record.
    pub fn duplicate(&self) -> (r: Campaign)
        ensures
            r == *self,
    {
        Campaign {
            id: self.id.clone(),
            name: clone_opt_string(&self.name),
            description: clone_opt_string(&self.description),
            template_id: clone_opt_string(&self.template_id),
            status: self.status,
            created_at: self.created_at,
            updated_at: self.updated_at,
        }
    }
}

/// The status a stored status word names, if any.
pub open spec fn spec_status_of(s: Seq<char>) -> Option<CampaignStatus> {
    if s == "draft"@ {
        Some(CampaignStatus::Draft)
    } else if s == "scheduled"@ {
        Some(CampaignStatus::Scheduled)
    } else if s == "active"@ {
        Some(CampaignStatus::Active)
    } else if s == "paused"@ {
        Some(CampaignStatus::Paused)
    } else if s == "completed"@ {
        Some(CampaignStatus::Completed)
    } else {
        None
    }
}

/// Reads a status word; unknown words name no status.
pub fn status_from_str(s: &str) -> (r: Option<CampaignStatus>)
    ensures
        r == spec_status_of(s@),
{
    if str_eq(s, "draft") {
        Some(CampaignStatus::Draft)
    } else if str_eq(s, "scheduled") {
        Some(CampaignStatus::Scheduled)
    } else if str_eq(s, "active") {
        Some(CampaignStatus::Active)
    } else if str_eq(s, "paused") {
        Some(CampaignStatus::Paused)
    } else if str_eq(s, "completed") {
        Some(CampaignStatus::Completed)
    } else {
        None
    }
}

/// The status word of a status, inverse to `status_from_str`.
pub fn status_name(s: CampaignStatus) -> (r: &'static str)
    ensures
        spec_status_of(r@) == Some(s),
{
    match s {
        CampaignStatus::Draft => {
            proof {
                reveal_strlit("draft");
            }
            return "draft";
        },
        CampaignStatus::Scheduled => {
            proof {
                reveal_strlit("scheduled");
                reveal_strlit("draft");
                assert("scheduled"@.len() == 9);
                assert("draft"@.len() == 5);
            }
            return "scheduled";
        },
        CampaignStatus::Active => {
            proof {
                reveal_strlit("active");
                reveal_strlit("draft");
                reveal_strlit("scheduled");
                assert("active"@.len() == 6);
                assert("draft"@.len() == 5);
                assert("scheduled"@.len() == 9);
                assert("active"@[0] != "draft"@[0]);
            }
            return "active";
        },
        CampaignStatus::Paused => {
            proof {
                reveal_strlit("paused");
                reveal_strlit("draft");
                reveal_strlit("scheduled");
                reveal_strlit("active");
                assert("paused"@.len() == 6);
                assert("draft"@.len() == 5);
                assert("scheduled"@.len() == 9);
                assert("paused"@[0] != "active"@[0]);
            }
            return "paused";
        },
        CampaignStatus::Completed => {
            proof {
                reveal_strlit("completed");
                reveal_strlit("draft");
                reveal_strlit("scheduled");
                reveal_strlit("active");
                reveal_strlit("paused");
                assert("completed"@.len() == 9);
                assert("draft"@.len() == 5);
                assert("paused"@.len() == 6);
                assert("active"@.len() == 6);
                assert("completed"@[0] != "scheduled"@[0]);
            }
            return "completed";
        },
    }
}

} // verus!
