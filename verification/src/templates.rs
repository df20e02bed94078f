//! Template record management: partial update, duplication and removal —
//! the compute halves of the template endpoints.

use vstd::prelude::*;
use crate::errors::EngineError;
use crate::model::Template;
use crate::model::clone_opt_string;
use crate::store::CampaignStore;
use vstd::string::StringExecFns;
use crate::text::str_to_chars;
use crate::text::chars_to_string;
use crate::text::push_all;

verus! {

impl CampaignStore {
    /// Applies a partial template update: each supplied field replaces
    /// the stored one, each omitted field is left untouched.
    pub fn apply_template_update(
        &mut self,
        id: &str,
        name: &Option<String>,
        category: &Option<String>,
        description: &Option<String>,
        subject: &Option<String>,
        content: &Option<String>,
    ) -> (r: Result<(), EngineError>)
        requires
            old(self).wf(),
        ensures
            final(self).wf(),
            final(self).campaigns@ == old(self).campaigns@,
            final(self).recipients@ == old(self).recipients@,
            final(self).rows@ == old(self).rows@,
            !old(self).has_template(id@) ==> r == Err::<(), EngineError>(EngineError::NotFound)
                && final(self).templates@ == old(self).templates@,
            old(self).has_template(id@) ==> r is Ok && ({
                let i0 = CampaignStore::index_in_templates(old(self).templates@, id@);
                let prev = old(self).templates@[i0];
                let u = final(self).templates@[i0];
                &&& final(self).templates@.len() == old(self).templates@.len()
                &&& (forall|i: int|
                    0 <= i < final(self).templates@.len() && i != i0 ==> final(self).templates@[i]
                        == old(self).templates@[i])
                &&& u.id == prev.id
                &&& u.name == (match *name {
                    Some(n) => n,
                    None => prev.name,
                })
                &&& u.category == (match *category {
                    Some(c) => c,
                    None => prev.category,
                })
                &&& u.description == (match *description {
                    Some(d) => Some(d),
                    None => prev.description,
                })
                &&& u.subject == (match *subject {
                    Some(x) => x,
                    None => prev.subject,
                })
                &&& u.content == (match *content {
                    Some(c) => c,
                    None => prev.content,
                })
            }),
    {
        let idx = match self.find_template_index(id) {
            None => {
                return Err(EngineError::NotFound);
            },
            Some(i) => i,
        };
        proof {
            crate::store::lemma_template_found(*self, idx as int, id@);
        }
        let new_name = match name {
            Some(n) => n.clone(),
            None => self.templates[idx].name.clone(),
        };
        let new_category = match category {
            Some(c) => c.clone(),
            None => self.templates[idx].category.clone(),
        };
        let new_description = match description {
            Some(d) => Some(d.clone()),
            None => clone_opt_string(&self.templates[idx].description),
        };
        let new_subject = match subject {
            Some(x) => x.clone(),
            None => self.templates[idx].subject.clone(),
        };
        let new_content = match content {
            Some(c) => c.clone(),
            None => self.templates[idx].content.clone(),
        };
        self.templates[idx].name = new_name;
        self.templates[idx].category = new_category;
        self.templates[idx].description = new_description;
        self.templates[idx].subject = new_subject;
        self.templates[idx].content = new_content;
        Ok(())
    }

    /// Copies a stored template under a fresh identifier, its name
    /// marked as a copy; refused when the original is missing or the new
    /// identifier is taken.
    pub fn duplicate_template(&mut self, template_id: &str, new_id: &str) -> (r: Result<
        (),
        EngineError,
    >)
        requires
            old(self).wf(),
        ensures
            final(self).wf(),
            final(self).campaigns@ == old(self).campaigns@,
            final(self).recipients@ == old(self).recipients@,
            final(self).rows@ == old(self).rows@,
            !old(self).has_template(template_id@) ==> r == Err::<(), EngineError>(
                EngineError::NotFound,
            ) && final(self).templates@ == old(self).templates@,
            old(self).has_template(template_id@) && old(self).has_template(new_id@) ==> r
                == Err::<(), EngineError>(EngineError::PreconditionFailed) && final(self).templates@ == old(self).templates@,
            old(self).has_template(template_id@) && !old(self).has_template(new_id@) ==> r is Ok
                && ({
                let orig = old(self).templates@[
                    CampaignStore::index_in_templates(old(self).templates@, template_id@)
                ];
                let u = final(self).templates@.last();
                &&& final(self).templates@.len() == old(self).templates@.len() + 1
                &&& final(self).templates@.drop_last() == old(self).templates@
                &&& u.id@ == new_id@
                &&& u.name@ == orig.name@ + " (copy)"@
                &&& u.category == orig.category
                &&& u.description == orig.description
                &&& u.subject == orig.subject
                &&& u.content == orig.content
            }),
    {
        let idx = match self.find_template_index(template_id) {
            None => {
                return Err(EngineError::NotFound);
            },
            Some(i) => i,
        };
        proof {
            crate::store::lemma_template_found(*self, idx as int, template_id@);
        }
        match self.find_template_index(new_id) {
            Some(_) => {
                return Err(EngineError::PreconditionFailed);
            },
            None => {},
        }
        let mut copy_name = str_to_chars(self.templates[idx].name.as_str());
        let suffix = str_to_chars(" (copy)");
        push_all(&mut copy_name, &suffix);
        let copy = Template {
            id: String::from_str(new_id),
            name: chars_to_string(&copy_name),
            category: self.templates[idx].category.clone(),
            description: clone_opt_string(&self.templates[idx].description),
            subject: self.templates[idx].subject.clone(),
            content: self.templates[idx].content.clone(),
        };
        self.templates.push(copy);
        proof {
            assert(self.templates@.drop_last() =~= old(self).templates@);
        }
        Ok(())
    }

    /// Removes the template with this identifier; campaigns that
    /// reference it keep the dangling reference and fail their next
    /// launch.
    pub fn delete_template(&mut self, id: &str) -> (r: bool)
        requires
            old(self).wf(),
        ensures
            final(self).wf(),
            final(self).campaigns@ == old(self).campaigns@,
            final(self).recipients@ == old(self).recipients@,
            final(self).rows@ == old(self).rows@,
            r == old(self).has_template(id@),
            r ==> final(self).templates@ == old(self).templates@.remove(
                CampaignStore::index_in_templates(old(self).templates@, id@),
            ),
            !r ==> final(self).templates@ == old(self).templates@,
    {
        match self.find_template_index(id) {
            Some(i) => {
                proof {
                    crate::store::lemma_template_found(*self, i as int, id@);
                }
                self.templates.remove(i);
                proof {
                    assert forall|a: int, b: int|
                        0 <= a < b < self.templates@.len() implies self.templates@[a].id@
                        != self.templates@[b].id@ by {
                        let oa: int = if a < i { a } else { a + 1 };
                        let ob: int = if b < i { b } else { b + 1 };
                        assert(self.templates@[a] == old(self).templates@[oa]);
                        assert(self.templates@[b] == old(self).templates@[ob]);
                    }
                }
                true
            },
            None => false,
        }
    }

    /// The stored template with this identifier, as an equal copy.
    pub fn get_template(&self, id: &str) -> (r: Option<Template>)
        requires
            self.wf(),
        ensures
            match r {
                Some(t) => self.has_template(id@) && t == self.templates@[
                    CampaignStore::index_in_templates(self.templates@, id@)
                ],
                None => !self.has_template(id@),
            },
    {
        match self.find_template_index(id) {
            Some(i) => {
                proof {
                    crate::store::lemma_template_found(*self, i as int, id@);
                }
                Some(self.templates[i].duplicate())
            },
            None => None,
        }
    }
}

} // verus!
