//! Campaign record management: creation, partial update, and recipient
//! registration with existence checks — the compute halves of the
//! campaign endpoints.

use vstd::prelude::*;
use vstd::string::StringExecFns;
use crate::errors::EngineError;
use crate::model::Campaign;
use crate::model::CampaignStatus;
use crate::model::clone_opt_string;
use crate::model::spec_status_of;
use crate::model::status_from_str;
use crate::requests::CreateCampaignRequest;
use crate::requests::UpdateCampaignRequest;
use crate::store::CampaignStore;

verus! {

/// The template reference a creation request settles on: the named
/// template, or none when the request leaves it out or names it empty.
pub open spec fn spec_template_ref(template_id: Option<String>) -> Option<String> {
    match template_id {
        Some(t) => if t@.len() > 0 {
            Some(t)
        } else {
            None
        },
        None => None,
    }
}

impl CampaignStore {
    /// Creates a campaign in `draft` with the requested name, description
    /// and template reference; refused when the identifier is taken or
    /// the named template is not stored. An empty template reference
    /// counts as none.
    pub fn create_campaign(&mut self, id: &str, req: &CreateCampaignRequest, now: i64) -> (r:
        Result<(), EngineError>)
        requires
            old(self).wf(),
        ensures
            final(self).wf(),
            final(self).templates@ == old(self).templates@,
            final(self).recipients@ == old(self).recipients@,
            final(self).rows@ == old(self).rows@,
            r is Ok <==> !old(self).has_campaign(id@) && (match req.template_id {
                Some(t) => t@.len() == 0 || old(self).has_template(t@),
                None => true,
            }),
            r is Err ==> final(self).campaigns@ == old(self).campaigns@ && (r
                == Err::<(), EngineError>(EngineError::PreconditionFailed)),
            r is Ok ==> final(self).campaigns@.len() == old(self).campaigns@.len() + 1
                && final(self).campaigns@.drop_last() == old(self).campaigns@
                && final(self).campaigns@.last().id@ == id@
                && final(self).campaigns@.last().name == Some(req.name)
                && final(self).campaigns@.last().description == req.description
                && final(self).campaigns@.last().template_id == spec_template_ref(req.template_id)
                && final(self).campaigns@.last().status is Draft
                && final(self).campaigns@.last().created_at == Some(now)
                && final(self).campaigns@.last().updated_at == Some(now),
    {
        let template_ref: Option<String> = match &req.template_id {
            Some(t) => {
                if t.as_str().is_empty() {
                    None
                } else {
                    match self.find_template_index(t.as_str()) {
                        Some(_) => Some(t.clone()),
                        None => {
                            return Err(EngineError::PreconditionFailed);
                        },
                    }
                }
            },
            None => None,
        };
        match self.find_campaign_index(id) {
            Some(_) => Err(EngineError::PreconditionFailed),
            None => {
                let c = Campaign {
                    id: String::from_str(id),
                    name: Some(req.name.clone()),
                    description: clone_opt_string(&req.description),
                    template_id: template_ref,
                    status: CampaignStatus::Draft,
                    created_at: Some(now),
                    updated_at: Some(now),
                };
                self.campaigns.push(c);
                proof {
                    assert(self.campaigns@.drop_last() =~= old(self).campaigns@);
                }
                Ok(())
            },
        }
    }

    /// Applies a partial campaign update: each supplied field replaces
    /// the stored one, each omitted field is left exactly as it was. The
    /// scheduling moment is accepted and ignored, and a status word
    /// outside the lifecycle is refused.
    pub fn apply_campaign_update(&mut self, id: &str, req: &UpdateCampaignRequest, now: i64) -> (r:
        Result<(), EngineError>)
        requires
            old(self).wf(),
        ensures
            final(self).wf(),
            final(self).templates@ == old(self).templates@,
            final(self).recipients@ == old(self).recipients@,
            final(self).rows@ == old(self).rows@,
            !old(self).has_campaign(id@) ==> r == Err::<(), EngineError>(EngineError::NotFound)
                && final(self).campaigns@ == old(self).campaigns@,
            old(self).has_campaign(id@) && (match req.status {
                Some(s) => spec_status_of(s@) is None,
                None => false,
            }) ==> r == Err::<(), EngineError>(EngineError::PreconditionFailed) && final(self).campaigns@ == old(self).campaigns@,
            old(self).has_campaign(id@) && (match req.status {
                Some(s) => spec_status_of(s@) is Some,
                None => true,
            }) ==> r is Ok && ({
                let i0 = old(self).campaign_index(id@);
                let prev = old(self).spec_campaign(id@);
                let u = final(self).campaigns@[i0];
                &&& final(self).campaigns@.len() == old(self).campaigns@.len()
                &&& (forall|i: int|
                    0 <= i < final(self).campaigns@.len() && i != i0 ==> final(self).campaigns@[i]
                        == old(self).campaigns@[i])
                &&& u.id == prev.id
                &&& u.created_at == prev.created_at
                &&& u.name == (match req.name {
                    Some(n) => Some(n),
                    None => prev.name,
                })
                &&& u.description == (match req.description {
                    Some(d) => Some(d),
                    None => prev.description,
                })
                &&& u.template_id == (match req.template_id {
                    Some(t) => Some(t),
                    None => prev.template_id,
                })
                &&& u.status == (match req.status {
                    Some(s) => spec_status_of(s@).unwrap(),
                    None => prev.status,
                })
                &&& u.updated_at == Some(now)
            }),
    {
        let idx = match self.find_campaign_index(id) {
            None => {
                return Err(EngineError::NotFound);
            },
            Some(i) => i,
        };
        proof {
            crate::store::lemma_campaign_found(*self, idx as int, id@);
        }
        let new_status: CampaignStatus = match &req.status {
            Some(word) => {
                match status_from_str(word.as_str()) {
                    Some(st) => st,
                    None => {
                        return Err(EngineError::PreconditionFailed);
                    },
                }
            },
            None => self.campaigns[idx].status,
        };
        let new_name: Option<String> = match &req.name {
            Some(n) => Some(n.clone()),
            None => clone_opt_string(&self.campaigns[idx].name),
        };
        let new_description: Option<String> = match &req.description {
            Some(d) => Some(d.clone()),
            None => clone_opt_string(&self.campaigns[idx].description),
        };
        let new_template: Option<String> = match &req.template_id {
            Some(t) => Some(t.clone()),
            None => clone_opt_string(&self.campaigns[idx].template_id),
        };
        self.campaigns[idx].name = new_name;
        self.campaigns[idx].description = new_description;
        self.campaigns[idx].template_id = new_template;
        self.campaigns[idx].status = new_status;
        self.campaigns[idx].updated_at = Some(now);
        Ok(())
    }

    /// What a successful registration pass leaves behind: the counts add
    /// up, the returned list holds exactly the requested identifiers
    /// without a stored recipient, every known requested recipient has a
    /// row, prior rows are untouched, and the rows grew only by blank
    /// rows of requested pairs.
    pub open spec fn spec_registration_report(
        pre: CampaignStore,
        post: CampaignStore,
        cid: Seq<char>,
        ids: Seq<String>,
        added: usize,
        missing: Seq<String>,
    ) -> bool {
        &&& added + missing.len() == ids.len()
        &&& forall|m: int| 0 <= m < missing.len() ==> !pre.has_recipient(missing[m]@)
        &&& forall|k: int|
            0 <= k < ids.len() && !pre.has_recipient(ids[k]@) ==> exists|m: int|
                0 <= m < missing.len() && missing[m]@ == ids[k]@
        &&& forall|k: int|
            0 <= k < ids.len() && pre.has_recipient(ids[k]@) ==> post.has_row(cid, ids[k]@)
        &&& post.rows@.len() >= pre.rows@.len()
        &&& post.rows@.subrange(0, pre.rows@.len() as int) == pre.rows@
        &&& forall|j: int|
            #![trigger post.rows@[j]]
            pre.rows@.len() <= j < post.rows@.len() ==> CampaignStore::blank_for_one_of(
                post.rows@[j],
                cid,
                ids,
            )
    }

    /// Registers each listed recipient that is stored against the
    /// campaign — an idempotent insert per recipient — and reports how
    /// many were processed alongside the identifiers that name no stored
    /// recipient, which are skipped, never an error for the batch.
    #[verifier::loop_isolation(false)]
    pub fn add_recipients_to_campaign(
        &mut self,
        campaign_id: &str,
        recipient_ids: &Vec<String>,
    ) -> (r: Result<(usize, Vec<String>), EngineError>)
        requires
            old(self).wf(),
        ensures
            final(self).wf(),
            final(self).campaigns@ == old(self).campaigns@,
            final(self).templates@ == old(self).templates@,
            final(self).recipients@ == old(self).recipients@,
            !old(self).has_campaign(campaign_id@) ==> r == Err::<
                (usize, Vec<String>),
                EngineError,
            >(EngineError::NotFound) && final(self).rows@ == old(self).rows@,
            old(self).has_campaign(campaign_id@) ==> (r matches Ok(report)
                && CampaignStore::spec_registration_report(
                *old(self),
                *final(self),
                campaign_id@,
                recipient_ids@,
                report.0,
                report.1@,
            )),
    {
        match self.find_campaign_index(campaign_id) {
            None => {
                return Err(EngineError::NotFound);
            },
            Some(_) => {},
        }
        let ghost base = self.rows@;
        let mut missing: Vec<String> = Vec::new();
        let mut added: usize = 0;
        let mut k: usize = 0;
        while k < recipient_ids.len()
            invariant
                self.wf(),
                self.campaigns@ == old(self).campaigns@,
                self.templates@ == old(self).templates@,
                self.recipients@ == old(self).recipients@,
                base == old(self).rows@,
                self.rows@.len() >= base.len(),
                self.rows@.subrange(0, base.len() as int) == base,
                k <= recipient_ids@.len(),
                added + missing@.len() == k,
                forall|m: int| 0 <= m < missing@.len() ==> !self.has_recipient(missing@[m]@),
                forall|m2: int|
                    0 <= m2 < k && !self.has_recipient(recipient_ids@[m2]@) ==> exists|m: int|
                        0 <= m < missing@.len() && missing@[m]@ == recipient_ids@[m2]@,
                forall|m: int|
                    0 <= m < k && self.has_recipient(recipient_ids@[m]@) ==> self.has_row(
                        campaign_id@,
                        recipient_ids@[m]@,
                    ),
                forall|j: int|
                    #![trigger self.rows@[j]]
                    base.len() <= j < self.rows@.len() ==> CampaignStore::blank_for_one_of(
                        self.rows@[j],
                        campaign_id@,
                        recipient_ids@,
                    ),
            decreases recipient_ids@.len() - k,
        {
            let ghost before = self.rows@;
            match self.find_recipient_index(recipient_ids[k].as_str()) {
                Some(_) => {
                    self.register_recipient(campaign_id, recipient_ids[k].as_str());
                    added = added + 1;
                    proof {
                        if self.rows@.len() == before.len() + 1 {
                            assert(self.rows@.subrange(0, base.len() as int) =~= before.subrange(
                                0,
                                base.len() as int,
                            ));
                        }
                        assert forall|m: int|
                            0 <= m < k + 1 && self.has_recipient(recipient_ids@[m]@)
                                implies self.has_row(campaign_id@, recipient_ids@[m]@) by {
                            if m < k {
                                let w = choose|w: int|
                                    0 <= w < before.len() && before[w].campaign_id@ == campaign_id@
                                        && before[w].recipient_id@ == recipient_ids@[m]@;
                                assert(self.rows@[w] == before[w]);
                            }
                        }
                    }
                },
                None => {
                    let ghost missing_old = missing@;
                    missing.push(recipient_ids[k].clone());
                    proof {
                        assert(missing@.last()@ == recipient_ids@[k as int]@);
                        assert forall|m2: int|
                            0 <= m2 < k + 1 && !self.has_recipient(recipient_ids@[m2]@)
                                implies exists|m: int|
                                0 <= m < missing@.len() && missing@[m]@
                                    == recipient_ids@[m2]@ by {
                            if m2 < k {
                                let w = choose|w: int|
                                    0 <= w < missing_old.len() && missing_old[w]@
                                        == recipient_ids@[m2]@;
                                assert(missing@[w] == missing_old[w]);
                            } else {
                                assert(missing@[missing@.len() - 1]@ == recipient_ids@[m2]@);
                            }
                        }
                    }
                },
            }
            k += 1;
        }
        proof {
            assert forall|k2: int|
                0 <= k2 < recipient_ids@.len() && !old(self).has_recipient(recipient_ids@[k2]@)
                    implies exists|m: int|
                    0 <= m < missing@.len() && missing@[m]@ == recipient_ids@[k2]@ by {
                assert(!self.has_recipient(recipient_ids@[k2]@));
            }
            assert(CampaignStore::spec_registration_report(
                *old(self),
                *self,
                campaign_id@,
                recipient_ids@,
                added,
                missing@,
            ));
        }
        Ok((added, missing))
    }

    /// Removes the campaign with this identifier; its tracking rows are
    /// kept, as history.
    pub fn delete_campaign(&mut self, id: &str) -> (r: bool)
        requires
            old(self).wf(),
        ensures
            final(self).wf(),
            final(self).templates@ == old(self).templates@,
            final(self).recipients@ == old(self).recipients@,
            final(self).rows@ == old(self).rows@,
            r == old(self).has_campaign(id@),
            r ==> final(self).campaigns@ == old(self).campaigns@.remove(
                old(self).campaign_index(id@),
            ),
            !r ==> final(self).campaigns@ == old(self).campaigns@,
    {
        match self.find_campaign_index(id) {
            Some(i) => {
                proof {
                    crate::store::lemma_campaign_found(*self, i as int, id@);
                }
                self.campaigns.remove(i);
                proof {
                    assert forall|a: int, b: int|
                        0 <= a < b < self.campaigns@.len() implies self.campaigns@[a].id@
                        != self.campaigns@[b].id@ by {
                        let oa: int = if a < i { a } else { a + 1 };
                        let ob: int = if b < i { b } else { b + 1 };
                        assert(self.campaigns@[a] == old(self).campaigns@[oa]);
                        assert(self.campaigns@[b] == old(self).campaigns@[ob]);
                    }
                }
                true
            },
            None => false,
        }
    }

    /// The stored campaign with this identifier, as an equal copy.
    pub fn get_campaign(&self, id: &str) -> (r: Option<Campaign>)
        requires
            self.wf(),
        ensures
            match r {
                Some(c) => self.has_campaign(id@) && c == self.spec_campaign(id@),
                None => !self.has_campaign(id@),
            },
    {
        match self.find_campaign_index(id) {
            Some(i) => {
                proof {
                    crate::store::lemma_campaign_found(*self, i as int, id@);
                }
                Some(self.campaigns[i].duplicate())
            },
            None => None,
        }
    }
}

} // verus!
