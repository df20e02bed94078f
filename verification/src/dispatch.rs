//! The dispatch orchestrator's execution half.
//!
//! After `launch_campaign` admits a campaign, a background loop works
//! through the pending recipients: render, hand the envelope to the
//! mailer, and apply the outcome here — one step per recipient, a failure
//! never aborting the batch — then finalize. The loop itself performs the
//! sends and the inter-send delay; every decision it applies to the store
//! stands in this module and is verified for every outcome the mailer can
//! produce.

use vstd::prelude::*;
use crate::model::Campaign;
use crate::model::CampaignRecipient;
use crate::model::CampaignStatus;
use crate::store::CampaignStore;

verus! {

/// The minimum pause between two sends, in seconds, respected by the
/// dispatch loop to keep the sending rate down.
pub const SEND_INTERVAL_SECS: u64 = 2;

/// The running tally of one dispatch pass.
#[derive(Clone, Copy, Debug, PartialEq, Eq, Structural)]
pub struct DispatchProgress {
    pub succeeded: u64,
    pub failed: u64,
}

/// A fresh tally.
pub fn new_progress() -> (r: DispatchProgress)
    ensures
        r.succeeded == 0,
        r.failed == 0,
{
    DispatchProgress { succeeded: 0, failed: 0 }
}

/// How many outcomes of a pass are failures.
pub open spec fn failures_of(outcomes: Seq<bool>) -> nat
    decreases outcomes.len(),
{
    if outcomes.len() == 0 {
        0
    } else {
        failures_of(outcomes.drop_last()) + (if outcomes.last() {
            0nat
        } else {
            1nat
        })
    }
}

/// A pass in which the mailer succeeded for every recipient counts no
/// failures — so finalizing such a pass completes the campaign, by the
/// contract of `finalize_dispatch`.
pub proof fn lemma_clean_pass_counts_no_failures(outcomes: Seq<bool>)
    requires
        forall|i: int| 0 <= i < outcomes.len() ==> outcomes[i],
    ensures
        failures_of(outcomes) == 0,
    decreases outcomes.len(),
{
    if outcomes.len() > 0 {
        lemma_clean_pass_counts_no_failures(outcomes.drop_last());
    }
}

/// A pass in which any send failed counts at least one failure — so
/// finalizing leaves the campaign as it was, by the contract of
/// `finalize_dispatch`: available for retry or inspection, never
/// auto-completed.
pub proof fn lemma_failed_pass_counts_failures(outcomes: Seq<bool>, i: int)
    requires
        0 <= i < outcomes.len(),
        !outcomes[i],
    ensures
        failures_of(outcomes) > 0,
    decreases outcomes.len(),
{
    if i < outcomes.len() - 1 {
        lemma_failed_pass_counts_failures(outcomes.drop_last(), i);
    }
}

/// The pass touches this row: it belongs to the campaign and some
/// successful outcome names its recipient.
pub open spec fn pass_marks(
    outcomes: Seq<(String, bool)>,
    row: CampaignRecipient,
    cid: Seq<char>,
) -> bool {
    row.campaign_id@ == cid && (exists|k: int|
        0 <= k < outcomes.len() && outcomes[k].1 && outcomes[k].0@ == row.recipient_id@)
}

/// Extending a pass by one outcome touches a row exactly when the prefix
/// already did, or the new outcome is a success naming the row.
proof fn lemma_pass_marks_extend(
    outcomes: Seq<(String, bool)>,
    k: int,
    row: CampaignRecipient,
    cid: Seq<char>,
)
    requires
        0 <= k < outcomes.len(),
    ensures
        pass_marks(outcomes.take(k + 1), row, cid) == (pass_marks(outcomes.take(k), row, cid) || (
        row.campaign_id@ == cid && outcomes[k].1 && outcomes[k].0@ == row.recipient_id@)),
{
    let t1 = outcomes.take(k + 1);
    let t0 = outcomes.take(k);
    if pass_marks(t1, row, cid) {
        let w = choose|w: int| 0 <= w < t1.len() && t1[w].1 && t1[w].0@ == row.recipient_id@;
        if w < k {
            assert(t0[w] == outcomes[w] && t1[w] == outcomes[w]);
            assert(pass_marks(t0, row, cid));
        } else {
            assert(t1[w] == outcomes[k]);
        }
    }
    if pass_marks(t0, row, cid) {
        let w = choose|w: int| 0 <= w < t0.len() && t0[w].1 && t0[w].0@ == row.recipient_id@;
        assert(t1[w] == t0[w]);
        assert(pass_marks(t1, row, cid));
    }
    if row.campaign_id@ == cid && outcomes[k].1 && outcomes[k].0@ == row.recipient_id@ {
        assert(t1[k] == outcomes[k]);
        assert(pass_marks(t1, row, cid));
    }
}

impl CampaignStore {
    /// Applies one send outcome: success marks the recipient's row sent
    /// and counts it; failure changes nothing in the store, counts the
    /// failure, and the pass moves on to the next recipient.
    pub fn dispatch_step(
        &mut self,
        campaign_id: &str,
        recipient_id: &str,
        send_ok: bool,
        now: i64,
        progress: &mut DispatchProgress,
    )
        requires
            old(self).wf(),
            old(progress).succeeded < u64::MAX,
            old(progress).failed < u64::MAX,
        ensures
            final(self).wf(),
            final(self).campaigns@ == old(self).campaigns@,
            final(self).templates@ == old(self).templates@,
            final(self).recipients@ == old(self).recipients@,
            send_ok ==> {
                &&& final(progress).succeeded == old(progress).succeeded + 1
                &&& final(progress).failed == old(progress).failed
                &&& old(self).has_row(campaign_id@, recipient_id@) ==> final(self).rows@ == old(
                    self,
                ).rows@.update(
                    old(self).row_index(campaign_id@, recipient_id@),
                    CampaignStore::spec_mark_sent(
                        old(self).spec_row(campaign_id@, recipient_id@),
                        now,
                    ),
                )
                &&& !old(self).has_row(campaign_id@, recipient_id@) ==> final(self).rows@ == old(
                    self,
                ).rows@
            },
            !send_ok ==> {
                &&& final(progress).failed == old(progress).failed + 1
                &&& final(progress).succeeded == old(progress).succeeded
                &&& *final(self) == *old(self)
            },
    {
        if send_ok {
            self.mark_recipient_sent(campaign_id, recipient_id, now);
            progress.succeeded = progress.succeeded + 1;
        } else {
            progress.failed = progress.failed + 1;
        }
    }

    /// Applies a whole dispatch pass in order — one step per outcome,
    /// then the finalize decision. The tally counts exactly the pass's
    /// failures; every row a successful outcome names ends marked sent at
    /// the given instant while every other row is untouched; and the
    /// campaign completes precisely when the mailer succeeded for every
    /// recipient of an active campaign — any failure leaves the campaign
    /// as it was, for retry or inspection.
    #[verifier::loop_isolation(false)]
    pub fn run_dispatch_pass(
        &mut self,
        campaign_id: &str,
        outcomes: &Vec<(String, bool)>,
        now: i64,
    ) -> (r: DispatchProgress)
        requires
            old(self).wf(),
            outcomes@.len() < u64::MAX,
        ensures
            final(self).wf(),
            final(self).templates@ == old(self).templates@,
            final(self).recipients@ == old(self).recipients@,
            final(self).rows@.len() == old(self).rows@.len(),
            forall|j: int|
                #![trigger final(self).rows@[j]]
                0 <= j < old(self).rows@.len() ==> final(self).rows@[j] == (if pass_marks(
                    outcomes@,
                    old(self).rows@[j],
                    campaign_id@,
                ) {
                    CampaignStore::spec_mark_sent(old(self).rows@[j], now)
                } else {
                    old(self).rows@[j]
                }),
            r.succeeded + r.failed == outcomes@.len(),
            r.failed == failures_of(outcomes@.map_values(|p: (String, bool)| p.1)),
            r.failed == 0 && old(self).has_status(campaign_id@, CampaignStatus::Active)
                ==> final(self).campaigns@ == old(self).campaigns@.update(
                old(self).campaign_index(campaign_id@),
                (Campaign {
                    status: CampaignStatus::Completed,
                    updated_at: Some(now),
                    ..old(self).spec_campaign(campaign_id@)
                }),
            ),
            !(r.failed == 0 && old(self).has_status(campaign_id@, CampaignStatus::Active))
                ==> final(self).campaigns@ == old(self).campaigns@,
    {
        let ghost all = outcomes@.map_values(|p: (String, bool)| p.1);
        let mut progress = new_progress();
        let mut k: usize = 0;
        proof {
            assert forall|j: int| 0 <= j < old(self).rows@.len() implies !pass_marks(
                outcomes@.take(0),
                old(self).rows@[j],
                campaign_id@,
            ) by {
                if pass_marks(outcomes@.take(0), old(self).rows@[j], campaign_id@) {
                    let w = choose|w: int|
                        0 <= w < outcomes@.take(0).len() && outcomes@.take(0)[w].1
                            && outcomes@.take(0)[w].0@ == old(self).rows@[j].recipient_id@;
                }
            }
        }
        while k < outcomes.len()
            invariant
                self.wf(),
                self.campaigns@ == old(self).campaigns@,
                self.templates@ == old(self).templates@,
                self.recipients@ == old(self).recipients@,
                self.rows@.len() == old(self).rows@.len(),
                forall|j: int|
                    #![trigger self.rows@[j]]
                    0 <= j < old(self).rows@.len() ==> self.rows@[j] == (if pass_marks(
                        outcomes@.take(k as int),
                        old(self).rows@[j],
                        campaign_id@,
                    ) {
                        CampaignStore::spec_mark_sent(old(self).rows@[j], now)
                    } else {
                        old(self).rows@[j]
                    }),
                k <= outcomes@.len(),
                progress.succeeded + progress.failed == k,
                progress.failed == failures_of(all.take(k as int)),
            decreases outcomes@.len() - k,
        {
            proof {
                assert(all.take(k + 1).drop_last() =~= all.take(k as int));
                assert(all.take(k + 1).last() == outcomes@[k as int].1);
            }
            let ghost mid = *self;
            let ok = outcomes[k].1;
            self.dispatch_step(campaign_id, outcomes[k].0.as_str(), ok, now, &mut progress);
            proof {
                let ghost rid = outcomes@[k as int].0@;
                if ok && mid.has_row(campaign_id@, rid) {
                    let idx = mid.row_index(campaign_id@, rid);
                    assert(0 <= idx < mid.rows@.len() && mid.rows@[idx].campaign_id@ == campaign_id@
                        && mid.rows@[idx].recipient_id@ == rid);
                    assert(old(self).rows@[idx].campaign_id@ == campaign_id@ && old(
                        self,
                    ).rows@[idx].recipient_id@ == rid);
                    assert forall|j: int| 0 <= j < old(self).rows@.len() implies self.rows@[j] == (
                    if pass_marks(outcomes@.take(k + 1), old(self).rows@[j], campaign_id@) {
                        CampaignStore::spec_mark_sent(old(self).rows@[j], now)
                    } else {
                        old(self).rows@[j]
                    }) by {
                        lemma_pass_marks_extend(outcomes@, k as int, old(self).rows@[j], campaign_id@);
                        if j != idx && old(self).rows@[j].campaign_id@ == campaign_id@ && old(
                            self,
                        ).rows@[j].recipient_id@ == rid {
                            assert(false);
                        }
                    }
                } else {
                    assert(self.rows@ == mid.rows@);
                    assert forall|j: int| 0 <= j < old(self).rows@.len() implies self.rows@[j] == (
                    if pass_marks(outcomes@.take(k + 1), old(self).rows@[j], campaign_id@) {
                        CampaignStore::spec_mark_sent(old(self).rows@[j], now)
                    } else {
                        old(self).rows@[j]
                    }) by {
                        lemma_pass_marks_extend(outcomes@, k as int, old(self).rows@[j], campaign_id@);
                        if ok && old(self).rows@[j].campaign_id@ == campaign_id@ && old(
                            self,
                        ).rows@[j].recipient_id@ == rid {
                            assert(mid.rows@[j].campaign_id@ == campaign_id@
                                && mid.rows@[j].recipient_id@ == rid);
                            assert(CampaignStore::rows_have(mid.rows@, campaign_id@, rid));
                            assert(false);
                        }
                    }
                }
            }
            k += 1;
        }
        proof {
            assert(all.take(outcomes@.len() as int) =~= all);
            assert(outcomes@.take(outcomes@.len() as int) =~= outcomes@);
        }
        self.finalize_dispatch(campaign_id, progress.failed, now);
        progress
    }

    /// Closes a dispatch pass: with zero failures an `active` campaign
    /// autocompletes to `completed`; with any failure the store is left
    /// exactly as it was, the campaign still `active` for retry or manual
    /// inspection.
    pub fn finalize_dispatch(&mut self, campaign_id: &str, failed: u64, now: i64) -> (r: bool)
        requires
            old(self).wf(),
        ensures
            final(self).wf(),
            final(self).templates@ == old(self).templates@,
            final(self).recipients@ == old(self).recipients@,
            final(self).rows@ == old(self).rows@,
            r == (failed == 0 && old(self).has_status(campaign_id@, CampaignStatus::Active)),
            r ==> final(self).campaigns@ == old(self).campaigns@.update(
                old(self).campaign_index(campaign_id@),
                (Campaign {
                    status: CampaignStatus::Completed,
                    updated_at: Some(now),
                    ..old(self).spec_campaign(campaign_id@)
                }),
            ),
            !r ==> final(self).campaigns@ == old(self).campaigns@,
    {
        if failed == 0 {
            self.autocomplete_campaign(campaign_id, now)
        } else {
            false
        }
    }
}

} // verus!
