//! The campaign repository and the operations the engine drives over it.
//!
//! Campaigns, templates, recipients and tracking rows live in one
//! in-memory store keyed by their string identifiers; campaign identifiers
//! are unique, and so is the row of each campaign/recipient pair. Every
//! mutation is the compute half of one repository operation: a single
//! conditional or unconditional row update, or an idempotent insert.

use vstd::prelude::*;
use vstd::string::StringExecFns;
use crate::model::Campaign;
use crate::model::clone_opt_string;
use crate::model::CampaignRecipient;
use crate::model::CampaignStatus;
use crate::model::Recipient;
use crate::model::Template;
use crate::text::str_eq;
use crate::errors::EngineError;

verus! {

/// The immediate acknowledgement of an admitted launch: which campaign
/// started, and how many recipients the caller asked to register.
pub struct LaunchAck {
    pub campaign_id: String,
    pub total_recipients: usize,
}

/// With unique identifiers, a position that holds the sought campaign is
/// the stored position of that campaign.
pub proof fn lemma_campaign_found(s: CampaignStore, i: int, id: Seq<char>)
    requires
        s.wf(),
        0 <= i < s.campaigns@.len(),
        s.campaigns@[i].id@ == id,
    ensures
        s.has_campaign(id),
        s.campaign_index(id) == i,
        s.spec_campaign(id) == s.campaigns@[i],
{
    assert(CampaignStore::campaigns_have(s.campaigns@, id));
    let w = s.campaign_index(id);
    assert(0 <= w < s.campaigns@.len() && s.campaigns@[w].id@ == id);
    assert(w == i);
}

/// With unique pairs, a position that holds the sought row is the stored
/// position of that row.
pub proof fn lemma_row_found(s: CampaignStore, i: int, c: Seq<char>, r: Seq<char>)
    requires
        s.wf(),
        0 <= i < s.rows@.len(),
        s.rows@[i].campaign_id@ == c,
        s.rows@[i].recipient_id@ == r,
    ensures
        s.has_row(c, r),
        s.row_index(c, r) == i,
        s.spec_row(c, r) == s.rows@[i],
{
    assert(CampaignStore::rows_have(s.rows@, c, r));
    let w = s.row_index(c, r);
    assert(0 <= w < s.rows@.len() && s.rows@[w].campaign_id@ == c && s.rows@[w].recipient_id@ == r);
    assert(w == i);
}

/// With unique identifiers, a position that holds the sought recipient is
/// the stored position of that recipient.
pub proof fn lemma_recipient_found(s: CampaignStore, i: int, id: Seq<char>)
    requires
        s.wf(),
        0 <= i < s.recipients@.len(),
        s.recipients@[i].id@ == id,
    ensures
        s.has_recipient(id),
        CampaignStore::index_in_recipients(s.recipients@, id) == i,
{
    assert(CampaignStore::recipients_have(s.recipients@, id));
    let w = CampaignStore::index_in_recipients(s.recipients@, id);
    assert(0 <= w < s.recipients@.len() && s.recipients@[w].id@ == id);
    assert(w == i);
}

/// With unique identifiers, a position that holds the sought template is
/// the stored position of that template.
pub proof fn lemma_template_found(s: CampaignStore, i: int, id: Seq<char>)
    requires
        s.wf(),
        0 <= i < s.templates@.len(),
        s.templates@[i].id@ == id,
    ensures
        s.has_template(id),
        CampaignStore::index_in_templates(s.templates@, id) == i,
{
    assert(CampaignStore::templates_have(s.templates@, id));
    let w = CampaignStore::index_in_templates(s.templates@, id);
    assert(0 <= w < s.templates@.len() && s.templates@[w].id@ == id);
    assert(w == i);
}

/// Two stores with the same campaign records agree on where a stored
/// campaign stands.
proof fn lemma_campaign_index_agrees(a: CampaignStore, b: CampaignStore, id: Seq<char>)
    requires
        a.wf(),
        a.campaigns@ == b.campaigns@,
        a.has_campaign(id),
    ensures
        b.has_campaign(id),
        a.campaign_index(id) == b.campaign_index(id),
        a.spec_campaign(id) == b.spec_campaign(id),
{
}

/// The in-memory repository the engine acts on.
pub struct CampaignStore {
    pub campaigns: Vec<Campaign>,
    pub templates: Vec<Template>,
    pub recipients: Vec<Recipient>,
    pub rows: Vec<CampaignRecipient>,
}

impl CampaignStore {
    /// Identifiers are unique: one record per campaign, template and
    /// recipient, and one row per campaign/recipient pair.
    pub open spec fn wf(self) -> bool {
        &&& (forall|i: int, j: int|
            0 <= i < j < self.campaigns@.len() ==> self.campaigns@[i].id@ != self.campaigns@[j].id@)
        &&& (forall|i: int, j: int|
            0 <= i < j < self.templates@.len() ==> self.templates@[i].id@ != self.templates@[j].id@)
        &&& (forall|i: int, j: int|
            0 <= i < j < self.recipients@.len() ==> self.recipients@[i].id@
                != self.recipients@[j].id@)
        &&& (forall|i: int, j: int|
            0 <= i < j < self.rows@.len() ==> !(self.rows@[i].campaign_id@
                == self.rows@[j].campaign_id@ && self.rows@[i].recipient_id@
                == self.rows@[j].recipient_id@))
    }

    /// A campaign with this identifier stands in `campaigns`.
    pub open spec fn campaigns_have(campaigns: Seq<Campaign>, id: Seq<char>) -> bool {
        exists|i: int| 0 <= i < campaigns.len() && campaigns[i].id@ == id
    }

    /// A campaign with this identifier is stored.
    pub open spec fn has_campaign(self, id: Seq<char>) -> bool {
        CampaignStore::campaigns_have(self.campaigns@, id)
    }

    /// A template with this identifier stands in `templates`.
    pub open spec fn templates_have(templates: Seq<Template>, id: Seq<char>) -> bool {
        exists|i: int| 0 <= i < templates.len() && templates[i].id@ == id
    }

    /// A template with this identifier is stored.
    pub open spec fn has_template(self, id: Seq<char>) -> bool {
        CampaignStore::templates_have(self.templates@, id)
    }

    /// A recipient with this identifier stands in `recipients`.
    pub open spec fn recipients_have(recipients: Seq<Recipient>, id: Seq<char>) -> bool {
        exists|i: int| 0 <= i < recipients.len() && recipients[i].id@ == id
    }

    /// A recipient with this identifier is stored.
    pub open spec fn has_recipient(self, id: Seq<char>) -> bool {
        CampaignStore::recipients_have(self.recipients@, id)
    }

    /// A row for the pair stands in `rows`.
    pub open spec fn rows_have(rows: Seq<CampaignRecipient>, c: Seq<char>, r: Seq<char>) -> bool {
        exists|i: int| 0 <= i < rows.len() && rows[i].campaign_id@ == c && rows[i].recipient_id@ == r
    }

    /// A row for this campaign/recipient pair is stored.
    pub open spec fn has_row(self, c: Seq<char>, r: Seq<char>) -> bool {
        CampaignStore::rows_have(self.rows@, c, r)
    }

    /// The position in `recipients` of the recipient with this identifier.
    pub open spec fn index_in_recipients(recipients: Seq<Recipient>, id: Seq<char>) -> int {
        choose|i: int| 0 <= i < recipients.len() && recipients[i].id@ == id
    }

    /// The position in `templates` of the template with this identifier.
    pub open spec fn index_in_templates(templates: Seq<Template>, id: Seq<char>) -> int {
        choose|i: int| 0 <= i < templates.len() && templates[i].id@ == id
    }

    /// The position in `campaigns` of the campaign with this identifier.
    pub open spec fn index_in_campaigns(campaigns: Seq<Campaign>, id: Seq<char>) -> int {
        choose|i: int| 0 <= i < campaigns.len() && campaigns[i].id@ == id
    }

    /// The position of the campaign with this identifier.
    pub open spec fn campaign_index(self, id: Seq<char>) -> int {
        CampaignStore::index_in_campaigns(self.campaigns@, id)
    }

    /// The stored campaign with this identifier.
    pub open spec fn spec_campaign(self, id: Seq<char>) -> Campaign {
        self.campaigns@[self.campaign_index(id)]
    }

    /// The position in `rows` of the row of the pair.
    pub open spec fn index_in_rows(rows: Seq<CampaignRecipient>, c: Seq<char>, r: Seq<char>) -> int {
        choose|i: int| 0 <= i < rows.len() && rows[i].campaign_id@ == c && rows[i].recipient_id@ == r
    }

    /// The position of the row of this campaign/recipient pair.
    pub open spec fn row_index(self, c: Seq<char>, r: Seq<char>) -> int {
        CampaignStore::index_in_rows(self.rows@, c, r)
    }

    /// The stored row of this campaign/recipient pair.
    pub open spec fn spec_row(self, c: Seq<char>, r: Seq<char>) -> CampaignRecipient {
        self.rows@[self.row_index(c, r)]
    }

    /// An empty repository.
    pub fn new() -> (r: CampaignStore)
        ensures
            r.wf(),
            r.campaigns@.len() == 0,
            r.templates@.len() == 0,
            r.recipients@.len() == 0,
            r.rows@.len() == 0,
    {
        CampaignStore {
            campaigns: Vec::new(),
            templates: Vec::new(),
            recipients: Vec::new(),
            rows: Vec::new(),
        }
    }

    /// Position of the campaign with identifier `id`, if stored.
    #[verifier::loop_isolation(false)]
    pub fn find_campaign_index(&self, id: &str) -> (r: Option<usize>)
        ensures
            match r {
                Some(i) => i < self.campaigns@.len() && self.campaigns@[i as int].id@ == id@,
                None => !self.has_campaign(id@),
            },
    {
        let mut i: usize = 0;
        while i < self.campaigns.len()
            invariant
                i <= self.campaigns@.len(),
                forall|j: int| 0 <= j < i ==> self.campaigns@[j].id@ != id@,
            decreases self.campaigns@.len() - i,
        {
            if str_eq(self.campaigns[i].id.as_str(), id) {
                return Some(i);
            }
            i += 1;
        }
        None
    }

    /// Position of the template with identifier `id`, if stored.
    #[verifier::loop_isolation(false)]
    pub fn find_template_index(&self, id: &str) -> (r: Option<usize>)
        ensures
            match r {
                Some(i) => i < self.templates@.len() && self.templates@[i as int].id@ == id@,
                None => !self.has_template(id@),
            },
    {
        let mut i: usize = 0;
        while i < self.templates.len()
            invariant
                i <= self.templates@.len(),
                forall|j: int| 0 <= j < i ==> self.templates@[j].id@ != id@,
            decreases self.templates@.len() - i,
        {
            if str_eq(self.templates[i].id.as_str(), id) {
                return Some(i);
            }
            i += 1;
        }
        None
    }

    /// Position of the recipient with identifier `id`, if stored.
    #[verifier::loop_isolation(false)]
    pub fn find_recipient_index(&self, id: &str) -> (r: Option<usize>)
        ensures
            match r {
                Some(i) => i < self.recipients@.len() && self.recipients@[i as int].id@ == id@,
                None => !self.has_recipient(id@),
            },
    {
        let mut i: usize = 0;
        while i < self.recipients.len()
            invariant
                i <= self.recipients@.len(),
                forall|j: int| 0 <= j < i ==> self.recipients@[j].id@ != id@,
            decreases self.recipients@.len() - i,
        {
            if str_eq(self.recipients[i].id.as_str(), id) {
                return Some(i);
            }
            i += 1;
        }
        None
    }

    /// Position of the row of the pair, if stored.
    #[verifier::loop_isolation(false)]
    pub fn find_row_index(&self, campaign_id: &str, recipient_id: &str) -> (r: Option<usize>)
        ensures
            match r {
                Some(i) => i < self.rows@.len() && self.rows@[i as int].campaign_id@ == campaign_id@
                    && self.rows@[i as int].recipient_id@ == recipient_id@,
                None => !self.has_row(campaign_id@, recipient_id@),
            },
    {
        let mut i: usize = 0;
        while i < self.rows.len()
            invariant
                i <= self.rows@.len(),
                forall|j: int|
                    0 <= j < i ==> !(self.rows@[j].campaign_id@ == campaign_id@
                        && self.rows@[j].recipient_id@ == recipient_id@),
            decreases self.rows@.len() - i,
        {
            if str_eq(self.rows[i].campaign_id.as_str(), campaign_id) && str_eq(
                self.rows[i].recipient_id.as_str(),
                recipient_id,
            ) {
                return Some(i);
            }
            i += 1;
        }
        None
    }

    /// Stores a campaign record; refused when its identifier is taken.
    pub fn insert_campaign(&mut self, c: Campaign) -> (r: bool)
        requires
            old(self).wf(),
        ensures
            final(self).wf(),
            r == !old(self).has_campaign(c.id@),
            r ==> final(self).campaigns@ == old(self).campaigns@.push(c),
            !r ==> final(self).campaigns@ == old(self).campaigns@,
            final(self).templates@ == old(self).templates@,
            final(self).recipients@ == old(self).recipients@,
            final(self).rows@ == old(self).rows@,
    {
        match self.find_campaign_index(c.id.as_str()) {
            Some(_) => false,
            None => {
                self.campaigns.push(c);
                true
            },
        }
    }

    /// Stores a template record; refused when its identifier is taken.
    pub fn insert_template(&mut self, t: Template) -> (r: bool)
        requires
            old(self).wf(),
        ensures
            final(self).wf(),
            r == !old(self).has_template(t.id@),
            r ==> final(self).templates@ == old(self).templates@.push(t),
            !r ==> final(self).templates@ == old(self).templates@,
            final(self).campaigns@ == old(self).campaigns@,
            final(self).recipients@ == old(self).recipients@,
            final(self).rows@ == old(self).rows@,
    {
        match self.find_template_index(t.id.as_str()) {
            Some(_) => false,
            None => {
                self.templates.push(t);
                true
            },
        }
    }

    /// Stores a recipient record; refused when its identifier is taken.
    pub fn insert_recipient(&mut self, rec: Recipient) -> (r: bool)
        requires
            old(self).wf(),
        ensures
            final(self).wf(),
            r == !old(self).has_recipient(rec.id@),
            r ==> final(self).recipients@ == old(self).recipients@.push(rec),
            !r ==> final(self).recipients@ == old(self).recipients@,
            final(self).campaigns@ == old(self).campaigns@,
            final(self).templates@ == old(self).templates@,
            final(self).rows@ == old(self).rows@,
    {
        match self.find_recipient_index(rec.id.as_str()) {
            Some(_) => false,
            None => {
                self.recipients.push(rec);
                true
            },
        }
    }

    /// Registers the pair: inserts a blank row unless one is already
    /// there. Re-registering is a no-op, never an error.
    pub fn register_recipient(&mut self, campaign_id: &str, recipient_id: &str)
        requires
            old(self).wf(),
        ensures
            final(self).wf(),
            final(self).campaigns@ == old(self).campaigns@,
            final(self).templates@ == old(self).templates@,
            final(self).recipients@ == old(self).recipients@,
            old(self).has_row(campaign_id@, recipient_id@) ==> final(self).rows@ == old(self).rows@,
            !old(self).has_row(campaign_id@, recipient_id@) ==> final(self).rows@.len() == old(self).rows@.len() + 1 && final(self).rows@ == old(self).rows@.push(
                final(self).rows@.last(),
            ) && final(self).rows@.last().is_blank_for(campaign_id@, recipient_id@),
            final(self).has_row(campaign_id@, recipient_id@),
    {
        match self.find_row_index(campaign_id, recipient_id) {
            Some(_) => {},
            None => {
                let row = CampaignRecipient::blank(
                    String::from_str(campaign_id),
                    String::from_str(recipient_id),
                );
                self.rows.push(row);
            },
        }
    }

    /// The row is freshly registered for the campaign and one of the
    /// requested recipients.
    pub open spec fn blank_for_one_of(
        row: CampaignRecipient,
        cid: Seq<char>,
        ids: Seq<String>,
    ) -> bool {
        exists|k: int| 0 <= k < ids.len() && row.is_blank_for(cid, ids[k]@)
    }

    /// Registers every requested recipient against the campaign, each an
    /// idempotent insert: rows that exist stay exactly as they are, and
    /// every appended row is blank and belongs to one requested pair.
    #[verifier::loop_isolation(false)]
    pub fn register_recipients(&mut self, campaign_id: &str, recipient_ids: &Vec<String>)
        requires
            old(self).wf(),
        ensures
            final(self).wf(),
            final(self).campaigns@ == old(self).campaigns@,
            final(self).templates@ == old(self).templates@,
            final(self).recipients@ == old(self).recipients@,
            final(self).rows@.len() >= old(self).rows@.len(),
            final(self).rows@.subrange(0, old(self).rows@.len() as int) == old(self).rows@,
            forall|k: int|
                0 <= k < recipient_ids@.len() ==> final(self).has_row(
                    campaign_id@,
                    recipient_ids@[k]@,
                ),
            forall|j: int|
                #![trigger final(self).rows@[j]]
                old(self).rows@.len() <= j < final(self).rows@.len()
                    ==> CampaignStore::blank_for_one_of(
                    final(self).rows@[j],
                    campaign_id@,
                    recipient_ids@,
                ),
    {
        let ghost base = self.rows@;
        let mut k: usize = 0;
        while k < recipient_ids.len()
            invariant
                self.wf(),
                self.campaigns@ == old(self).campaigns@,
                self.templates@ == old(self).templates@,
                self.recipients@ == old(self).recipients@,
                base == old(self).rows@,
                self.rows@.len() >= base.len(),
                self.rows@.subrange(0, base.len() as int) == base,
                k <= recipient_ids@.len(),
                forall|m: int|
                    0 <= m < k ==> self.has_row(campaign_id@, recipient_ids@[m]@),
                forall|j: int|
                    #![trigger self.rows@[j]]
                    base.len() <= j < self.rows@.len() ==> CampaignStore::blank_for_one_of(
                        self.rows@[j],
                        campaign_id@,
                        recipient_ids@,
                    ),
            decreases recipient_ids@.len() - k,
        {
            let ghost before = self.rows@;
            self.register_recipient(campaign_id, recipient_ids[k].as_str());
            proof {
                if self.rows@.len() == before.len() + 1 {
                    assert(self.rows@.subrange(0, base.len() as int) =~= before.subrange(
                        0,
                        base.len() as int,
                    ));
                }
                assert forall|m: int| 0 <= m < k + 1 implies self.has_row(
                    campaign_id@,
                    recipient_ids@[m]@,
                ) by {
                    if m < k {
                        let w = choose|w: int|
                            0 <= w < before.len() && before[w].campaign_id@ == campaign_id@
                                && before[w].recipient_id@ == recipient_ids@[m]@;
                        assert(self.rows@[w] == before[w]);
                    }
                }
            }
            k += 1;
        }
    }

    /// Whether the campaign identified by `id` is stored with the given
    /// status.
    pub open spec fn has_status(self, id: Seq<char>, s: CampaignStatus) -> bool {
        self.has_campaign(id) && self.spec_campaign(id).status == s
    }

    /// Updates the campaign's status to `target`, but only when it is
    /// stored and, where one is demanded, currently holds `require_status`
    /// — the compute half of one conditional row update, the sole
    /// concurrency primitive the lifecycle relies on.
    fn transition(
        &mut self,
        id: &str,
        require_status: Option<CampaignStatus>,
        target: CampaignStatus,
        now: i64,
    ) -> (r: bool)
        requires
            old(self).wf(),
        ensures
            final(self).wf(),
            final(self).templates@ == old(self).templates@,
            final(self).recipients@ == old(self).recipients@,
            final(self).rows@ == old(self).rows@,
            r == (old(self).has_campaign(id@) && (match require_status {
                Some(s) => old(self).spec_campaign(id@).status == s,
                None => true,
            })),
            r ==> final(self).campaigns@ == old(self).campaigns@.update(
                old(self).campaign_index(id@),
                (Campaign {
                    status: target,
                    updated_at: Some(now),
                    ..old(self).spec_campaign(id@)
                }),
            ),
            !r ==> final(self).campaigns@ == old(self).campaigns@,
    {
        match self.find_campaign_index(id) {
            Some(i) => {
                proof {
                    let ci = old(self).campaign_index(id@);
                    assert(old(self).has_campaign(id@));
                    assert(old(self).campaigns@[ci].id@ == id@);
                    assert(ci == i as int);
                }
                let allowed = match require_status {
                    Some(s) => self.campaigns[i].status == s,
                    None => true,
                };
                if allowed {
                    self.campaigns[i].status = target;
                    self.campaigns[i].updated_at = Some(now);
                    proof {
                        assert(final(self).campaigns@ =~= old(self).campaigns@.update(
                            i as int,
                            (Campaign {
                                status: target,
                                updated_at: Some(now),
                                ..old(self).spec_campaign(id@)
                            }),
                        ));
                    }
                    true
                } else {
                    false
                }
            },
            None => false,
        }
    }

    /// Launch transition of the lifecycle: `draft` to `active`, refused
    /// from any other state and for unknown campaigns, atomically with the
    /// status check.
    pub fn start_campaign(&mut self, id: &str, now: i64) -> (r: bool)
        requires
            old(self).wf(),
        ensures
            final(self).wf(),
            final(self).templates@ == old(self).templates@,
            final(self).recipients@ == old(self).recipients@,
            final(self).rows@ == old(self).rows@,
            r == old(self).has_status(id@, CampaignStatus::Draft),
            r ==> final(self).campaigns@ == old(self).campaigns@.update(
                old(self).campaign_index(id@),
                (Campaign {
                    status: CampaignStatus::Active,
                    updated_at: Some(now),
                    ..old(self).spec_campaign(id@)
                }),
            ),
            !r ==> final(self).campaigns@ == old(self).campaigns@,
    {
        self.transition(id, Some(CampaignStatus::Draft), CampaignStatus::Active, now)
    }

    /// Pause transition of the lifecycle: `active` to `paused`, refused
    /// from any other state and for unknown campaigns.
    pub fn pause_campaign(&mut self, id: &str, now: i64) -> (r: bool)
        requires
            old(self).wf(),
        ensures
            final(self).wf(),
            final(self).templates@ == old(self).templates@,
            final(self).recipients@ == old(self).recipients@,
            final(self).rows@ == old(self).rows@,
            r == old(self).has_status(id@, CampaignStatus::Active),
            r ==> final(self).campaigns@ == old(self).campaigns@.update(
                old(self).campaign_index(id@),
                (Campaign {
                    status: CampaignStatus::Paused,
                    updated_at: Some(now),
                    ..old(self).spec_campaign(id@)
                }),
            ),
            !r ==> final(self).campaigns@ == old(self).campaigns@,
    {
        self.transition(id, Some(CampaignStatus::Active), CampaignStatus::Paused, now)
    }

    /// Stop: unconditionally forces `completed`, the terminal state, from
    /// any state; refused only for unknown campaigns.
    pub fn stop_campaign(&mut self, id: &str, now: i64) -> (r: bool)
        requires
            old(self).wf(),
        ensures
            final(self).wf(),
            final(self).templates@ == old(self).templates@,
            final(self).recipients@ == old(self).recipients@,
            final(self).rows@ == old(self).rows@,
            r == old(self).has_campaign(id@),
            r ==> final(self).campaigns@ == old(self).campaigns@.update(
                old(self).campaign_index(id@),
                (Campaign {
                    status: CampaignStatus::Completed,
                    updated_at: Some(now),
                    ..old(self).spec_campaign(id@)
                }),
            ),
            !r ==> final(self).campaigns@ == old(self).campaigns@,
    {
        self.transition(id, None, CampaignStatus::Completed, now)
    }

    /// Autocomplete transition of the lifecycle: `active` to `completed`,
    /// invoked when a send pass finishes clean; a no-op from any other
    /// state.
    pub fn autocomplete_campaign(&mut self, id: &str, now: i64) -> (r: bool)
        requires
            old(self).wf(),
        ensures
            final(self).wf(),
            final(self).templates@ == old(self).templates@,
            final(self).recipients@ == old(self).recipients@,
            final(self).rows@ == old(self).rows@,
            r == old(self).has_status(id@, CampaignStatus::Active),
            r ==> final(self).campaigns@ == old(self).campaigns@.update(
                old(self).campaign_index(id@),
                (Campaign {
                    status: CampaignStatus::Completed,
                    updated_at: Some(now),
                    ..old(self).spec_campaign(id@)
                }),
            ),
            !r ==> final(self).campaigns@ == old(self).campaigns@,
    {
        self.transition(id, Some(CampaignStatus::Active), CampaignStatus::Completed, now)
    }

    /// Row `j` of `rows` awaits dispatch for the campaign: registered,
    /// not yet sent, and naming a recipient of `recipients`.
    pub open spec fn row_pending(
        rows: Seq<CampaignRecipient>,
        recipients: Seq<Recipient>,
        j: int,
        cid: Seq<char>,
    ) -> bool {
        0 <= j < rows.len() && rows[j].campaign_id@ == cid && !rows[j].email_sent
            && CampaignStore::recipients_have(recipients, rows[j].recipient_id@)
    }

    /// Row `j` awaits dispatch for the campaign: registered, not yet
    /// sent, and naming a stored recipient.
    pub open spec fn is_pending_row(self, j: int, cid: Seq<char>) -> bool {
        CampaignStore::row_pending(self.rows@, self.recipients@, j, cid)
    }

    /// Some recipient of the campaign still awaits dispatch.
    pub open spec fn has_pending(self, cid: Seq<char>) -> bool {
        exists|j: int| CampaignStore::row_pending(self.rows@, self.recipients@, j, cid)
    }

    /// The recipients of the campaign that still await dispatch: one
    /// record for each registered, unsent row whose recipient is stored,
    /// and no recipient listed twice, so a loop over the result sends at
    /// most once per recipient.
    #[verifier::loop_isolation(false)]
    pub fn pending_recipients(&self, campaign_id: &str) -> (r: Vec<Recipient>)
        requires
            self.wf(),
        ensures
            forall|k: int|
                #![trigger r@[k]]
                0 <= k < r@.len() ==> (exists|j: int|
                    self.is_pending_row(j, campaign_id@) && self.rows@[j].recipient_id@
                        == r@[k].id@) && (exists|i: int|
                    0 <= i < self.recipients@.len() && self.recipients@[i] == r@[k]),
            forall|j: int|
                self.is_pending_row(j, campaign_id@) ==> exists|k: int|
                    0 <= k < r@.len() && r@[k].id@ == self.rows@[j].recipient_id@,
            forall|k1: int, k2: int| 0 <= k1 < k2 < r@.len() ==> r@[k1].id@ != r@[k2].id@,
    {
        let mut out: Vec<Recipient> = Vec::new();
        let mut j: usize = 0;
        while j < self.rows.len()
            invariant
                j <= self.rows@.len(),
                forall|k: int|
                    #![trigger out@[k]]
                    0 <= k < out@.len() ==> (exists|j2: int|
                        0 <= j2 < j && self.is_pending_row(j2, campaign_id@)
                            && self.rows@[j2].recipient_id@ == out@[k].id@) && (exists|i: int|
                        0 <= i < self.recipients@.len() && self.recipients@[i] == out@[k]),
                forall|k1: int, k2: int| 0 <= k1 < k2 < out@.len() ==> out@[k1].id@ != out@[k2].id@,
                forall|j2: int|
                    0 <= j2 < j && self.is_pending_row(j2, campaign_id@) ==> exists|k: int|
                        0 <= k < out@.len() && out@[k].id@ == self.rows@[j2].recipient_id@,
            decreases self.rows@.len() - j,
        {
            if str_eq(self.rows[j].campaign_id.as_str(), campaign_id) && !self.rows[j].email_sent {
                match self.find_recipient_index(self.rows[j].recipient_id.as_str()) {
                    Some(i) => {
                        let ghost out_old = out@;
                        out.push(self.recipients[i].duplicate());
                        proof {
                            assert(CampaignStore::recipients_have(
                                self.recipients@,
                                self.rows@[j as int].recipient_id@,
                            ));
                            assert(self.is_pending_row(j as int, campaign_id@));
                            assert(out@.last() == self.recipients@[i as int]);
                            assert(out@.last().id@ == self.rows@[j as int].recipient_id@);
                            assert forall|k1: int|
                                0 <= k1 < out@.len() - 1 implies out@[k1].id@
                                != out@.last().id@ by {
                                assert(out@[k1] == out_old[k1]);
                                let jw = choose|j2: int|
                                    0 <= j2 < j && self.is_pending_row(j2, campaign_id@)
                                        && self.rows@[j2].recipient_id@ == out_old[k1].id@;
                                assert(self.rows@[jw].campaign_id@ == campaign_id@);
                                assert(self.rows@[j as int].campaign_id@ == campaign_id@);
                            }
                            assert forall|j2: int|
                                0 <= j2 < j && self.is_pending_row(j2, campaign_id@)
                                    implies exists|k: int|
                                    0 <= k < out@.len() && out@[k].id@
                                        == self.rows@[j2].recipient_id@ by {
                                let k0 = choose|k: int|
                                    0 <= k < out_old.len() && out_old[k].id@
                                        == self.rows@[j2].recipient_id@;
                                assert(out@[k0] == out_old[k0]);
                            }
                        }
                    },
                    None => {
                        proof {
                            assert(!self.is_pending_row(j as int, campaign_id@));
                        }
                    },
                }
            }
            j += 1;
        }
        out
    }

    /// What refuses an admission before anything is written: an unknown
    /// campaign, a campaign without a usable template reference, a
    /// dangling template reference, or a campaign already out of `draft`.
    pub open spec fn launch_admission_error(self, cid: Seq<char>) -> Option<EngineError> {
        if !self.has_campaign(cid) {
            Some(EngineError::NotFound)
        } else {
            match self.spec_campaign(cid).template_id {
                Option::None => Some(EngineError::PreconditionFailed),
                Option::Some(t) => if t@.len() == 0 {
                    Some(EngineError::PreconditionFailed)
                } else if !self.has_template(t@) {
                    Some(EngineError::NotFound)
                } else if !(self.spec_campaign(cid).status is Draft) {
                    Some(EngineError::PreconditionFailed)
                } else {
                    None
                },
            }
        }
    }

    /// Admits a campaign launch: checks campaign, template and state,
    /// registers the requested recipients, demands a non-empty working
    /// set, and atomically moves the campaign from `draft` to `active`.
    ///
    /// All state checks come before registration, so a refused admission
    /// writes nothing at all; only the empty-working-set refusal, found
    /// after registering, keeps the registrations, with the status still
    /// `draft`. On success the acknowledgement carries the campaign and
    /// the requested recipient count, and the caller dispatches the
    /// pending recipients in the background.
    pub fn launch_campaign(
        &mut self,
        campaign_id: &str,
        recipient_ids: &Vec<String>,
        now: i64,
    ) -> (r: Result<LaunchAck, EngineError>)
        requires
            old(self).wf(),
        ensures
            final(self).wf(),
            final(self).templates@ == old(self).templates@,
            final(self).recipients@ == old(self).recipients@,
            match old(self).launch_admission_error(campaign_id@) {
                Some(e) => r == Err::<LaunchAck, EngineError>(e) && *final(self) == *old(self),
                None => {
                    &&& final(self).rows@.len() >= old(self).rows@.len()
                    &&& final(self).rows@.subrange(0, old(self).rows@.len() as int) == old(self).rows@
                    &&& forall|k: int|
                        0 <= k < recipient_ids@.len() ==> final(self).has_row(
                            campaign_id@,
                            recipient_ids@[k]@,
                        )
                    &&& forall|j: int|
                        #![trigger final(self).rows@[j]]
                        old(self).rows@.len() <= j < final(self).rows@.len()
                            ==> CampaignStore::blank_for_one_of(
                            final(self).rows@[j],
                            campaign_id@,
                            recipient_ids@,
                        )
                    &&& if final(self).has_pending(campaign_id@) {
                        r matches Ok(ack) && ack.campaign_id@ == campaign_id@
                            && ack.total_recipients == recipient_ids@.len() && final(self).campaigns@ == old(self).campaigns@.update(
                            old(self).campaign_index(campaign_id@),
                            (Campaign {
                                status: CampaignStatus::Active,
                                updated_at: Some(now),
                                ..old(self).spec_campaign(campaign_id@)
                            }),
                        )
                    } else {
                        r == Err::<LaunchAck, EngineError>(EngineError::PreconditionFailed)
                            && final(self).campaigns@ == old(self).campaigns@
                    }
                },
            },
    {
        let idx = match self.find_campaign_index(campaign_id) {
            None => {
                return Err(EngineError::NotFound);
            },
            Some(i) => i,
        };
        proof {
            lemma_campaign_found(*self, idx as int, campaign_id@);
        }
        let template_id = clone_opt_string(&self.campaigns[idx].template_id);
        let tid = match template_id {
            None => {
                return Err(EngineError::PreconditionFailed);
            },
            Some(t) => t,
        };
        if tid.as_str().is_empty() {
            return Err(EngineError::PreconditionFailed);
        }
        match self.find_template_index(tid.as_str()) {
            None => {
                return Err(EngineError::NotFound);
            },
            Some(_) => {},
        }
        if !(self.campaigns[idx].status == CampaignStatus::Draft) {
            return Err(EngineError::PreconditionFailed);
        }

        self.register_recipients(campaign_id, recipient_ids);
        proof {
            lemma_campaign_index_agrees(*old(self), *self, campaign_id@);
        }

        let pending = self.pending_recipients(campaign_id);
        if pending.len() == 0 {
            proof {
                assert(!self.has_pending(campaign_id@)) by {
                    if self.has_pending(campaign_id@) {
                        let j = choose|j: int|
                            CampaignStore::row_pending(
                                self.rows@,
                                self.recipients@,
                                j,
                                campaign_id@,
                            );
                        assert(self.is_pending_row(j, campaign_id@));
                        assert(exists|k: int|
                            0 <= k < pending@.len() && pending@[k].id@
                                == self.rows@[j].recipient_id@);
                    }
                }
            }
            return Err(EngineError::PreconditionFailed);
        }
        proof {
            assert(self.has_pending(campaign_id@)) by {
                assert(exists|j: int|
                    self.is_pending_row(j, campaign_id@) && self.rows@[j].recipient_id@
                        == pending@[0].id@);
                let jw = choose|j: int|
                    self.is_pending_row(j, campaign_id@) && self.rows@[j].recipient_id@
                        == pending@[0].id@;
                assert(CampaignStore::row_pending(self.rows@, self.recipients@, jw, campaign_id@));
            }
        }

        let activated = self.start_campaign(campaign_id, now);
        proof {
            assert(activated);
        }
        Ok(
            LaunchAck {
                campaign_id: String::from_str(campaign_id),
                total_recipients: recipient_ids.len(),
            },
        )
    }


    /// The row after its message went out: sent, with the send time.
    pub open spec fn spec_mark_sent(row: CampaignRecipient, now: i64) -> CampaignRecipient {
        CampaignRecipient { email_sent: true, sent_at: Some(now), ..row }
    }

    /// Marks the pair's row sent with the given time; rows of other pairs
    /// are untouched, and an unknown pair is a no-op.
    pub fn mark_recipient_sent(&mut self, campaign_id: &str, recipient_id: &str, now: i64)
        requires
            old(self).wf(),
        ensures
            final(self).wf(),
            final(self).campaigns@ == old(self).campaigns@,
            final(self).templates@ == old(self).templates@,
            final(self).recipients@ == old(self).recipients@,
            old(self).has_row(campaign_id@, recipient_id@) ==> final(self).rows@ == old(
                self,
            ).rows@.update(
                old(self).row_index(campaign_id@, recipient_id@),
                CampaignStore::spec_mark_sent(
                    old(self).spec_row(campaign_id@, recipient_id@),
                    now,
                ),
            ),
            !old(self).has_row(campaign_id@, recipient_id@) ==> final(self).rows@ == old(
                self,
            ).rows@,
    {
        match self.find_row_index(campaign_id, recipient_id) {
            Some(i) => {
                proof {
                    lemma_row_found(*self, i as int, campaign_id@, recipient_id@);
                }
                self.rows[i].email_sent = true;
                self.rows[i].sent_at = Some(now);
                proof {
                    assert(self.rows@ =~= old(self).rows@.update(
                        i as int,
                        CampaignStore::spec_mark_sent(
                            old(self).spec_row(campaign_id@, recipient_id@),
                            now,
                        ),
                    ));
                }
            },
            None => {},
        }
    }

    /// Whether a dispatch loop may still send for this campaign: the
    /// campaign is stored and currently `active`. A loop checks this
    /// before each send, so a pause or stop takes effect mid-batch.
    pub fn should_continue_dispatch(&self, id: &str) -> (r: bool)
        requires
            self.wf(),
        ensures
            r == self.has_status(id@, CampaignStatus::Active),
    {
        match self.find_campaign_index(id) {
            Some(i) => {
                proof {
                    let ci = self.campaign_index(id@);
                    assert(self.has_campaign(id@));
                    assert(self.campaigns@[ci].id@ == id@);
                    assert(ci == i as int);
                }
                self.campaigns[i].status == CampaignStatus::Active
            },
            None => false,
        }
    }
}

} // verus!
