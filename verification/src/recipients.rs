//! Recipient record management: partial update and removal — the
//! compute halves of the recipient endpoints.

use vstd::prelude::*;
use crate::errors::EngineError;
use crate::model::Recipient;
use crate::model::clone_opt_string;
use crate::store::CampaignStore;

verus! {

impl CampaignStore {
    /// Applies a partial recipient update: each supplied field replaces
    /// the stored one, each omitted field is left untouched.
    pub fn apply_recipient_update(
        &mut self,
        id: &str,
        name: &Option<String>,
        email: &Option<String>,
        department: &Option<String>,
    ) -> (r: Result<(), EngineError>)
        requires
            old(self).wf(),
        ensures
            final(self).wf(),
            final(self).campaigns@ == old(self).campaigns@,
            final(self).templates@ == old(self).templates@,
            final(self).rows@ == old(self).rows@,
            !old(self).has_recipient(id@) ==> r == Err::<(), EngineError>(EngineError::NotFound)
                && final(self).recipients@ == old(self).recipients@,
            old(self).has_recipient(id@) ==> r is Ok && ({
                let i0 = CampaignStore::index_in_recipients(old(self).recipients@, id@);
                let prev = old(self).recipients@[i0];
                let u = final(self).recipients@[i0];
                &&& final(self).recipients@.len() == old(self).recipients@.len()
                &&& (forall|i: int|
                    0 <= i < final(self).recipients@.len() && i != i0 ==> final(self).recipients@[i] == old(self).recipients@[i])
                &&& u.id == prev.id
                &&& u.name == (match *name {
                    Some(n) => n,
                    None => prev.name,
                })
                &&& u.email == (match *email {
                    Some(e) => e,
                    None => prev.email,
                })
                &&& u.department == (match *department {
                    Some(d) => Some(d),
                    None => prev.department,
                })
            }),
    {
        let idx = match self.find_recipient_index(id) {
            None => {
                return Err(EngineError::NotFound);
            },
            Some(i) => i,
        };
        proof {
            crate::store::lemma_recipient_found(*self, idx as int, id@);
        }
        let new_name = match name {
            Some(n) => n.clone(),
            None => self.recipients[idx].name.clone(),
        };
        let new_email = match email {
            Some(e) => e.clone(),
            None => self.recipients[idx].email.clone(),
        };
        let new_department = match department {
            Some(d) => Some(d.clone()),
            None => clone_opt_string(&self.recipients[idx].department),
        };
        self.recipients[idx].name = new_name;
        self.recipients[idx].email = new_email;
        self.recipients[idx].department = new_department;
        Ok(())
    }

    /// Removes the recipient with this identifier; its tracking rows are
    /// kept, as history of past campaigns.
    pub fn delete_recipient(&mut self, id: &str) -> (r: bool)
        requires
            old(self).wf(),
        ensures
            final(self).wf(),
            final(self).campaigns@ == old(self).campaigns@,
            final(self).templates@ == old(self).templates@,
            final(self).rows@ == old(self).rows@,
            r == old(self).has_recipient(id@),
            r ==> final(self).recipients@ == old(self).recipients@.remove(
                CampaignStore::index_in_recipients(old(self).recipients@, id@),
            ),
            !r ==> final(self).recipients@ == old(self).recipients@,
    {
        match self.find_recipient_index(id) {
            Some(i) => {
                proof {
                    crate::store::lemma_recipient_found(*self, i as int, id@);
                }
                self.recipients.remove(i);
                proof {
                    assert forall|a: int, b: int|
                        0 <= a < b < self.recipients@.len() implies self.recipients@[a].id@
                        != self.recipients@[b].id@ by {
                        let oa: int = if a < i { a } else { a + 1 };
                        let ob: int = if b < i { b } else { b + 1 };
                        assert(self.recipients@[a] == old(self).recipients@[oa]);
                        assert(self.recipients@[b] == old(self).recipients@[ob]);
                    }
                }
                true
            },
            None => false,
        }
    }

    /// The stored recipient with this identifier, as an equal copy.
    pub fn get_recipient(&self, id: &str) -> (r: Option<Recipient>)
        requires
            self.wf(),
        ensures
            match r {
                Some(rec) => self.has_recipient(id@) && rec == self.recipients@[
                    CampaignStore::index_in_recipients(self.recipients@, id@)
                ],
                None => !self.has_recipient(id@),
            },
    {
        match self.find_recipient_index(id) {
            Some(i) => {
                proof {
                    crate::store::lemma_recipient_found(*self, i as int, id@);
                }
                Some(self.recipients[i].duplicate())
            },
            None => None,
        }
    }
}

} // verus!
