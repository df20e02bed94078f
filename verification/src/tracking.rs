//! The engagement recorder over the repository, keyed by tracking token.
//!
//! Each inbound tracking hit decodes its token and applies one event to
//! the matching row. A token that does not decode, or decodes to an
//! unregistered pair, writes nothing; the pixel and click handlers report
//! nothing about it either, so an outside observer cannot probe which
//! tokens are valid. Only the report handler, an authenticated user
//! action, surfaces the failure.

use vstd::prelude::*;
use crate::codec::parse_tracking_id;
use crate::codec::spec_parse_token;
use crate::engagement::record_click;
use crate::engagement::record_open;
use crate::engagement::record_report;
use crate::engagement::spec_record_click;
use crate::engagement::spec_record_open;
use crate::engagement::spec_record_report;
use crate::errors::EngineError;
use crate::model::CampaignRecipient;
use crate::store::CampaignStore;
use crate::user_agent::ClientInfo;

verus! {

/// Relies on chrono's `Utc::now`: the moment of the call as Unix
/// seconds. Time is an input, so nothing is promised of the value. The
/// call refuses a system clock standing before the epoch, so the host's
/// clock must be sane — an environmental condition, not an input.
#[verifier::external_body]
fn now_timestamp() -> i64 {
    chrono::Utc::now().timestamp()
}

impl CampaignStore {
    /// Position of the row a decoded pair names, if stored.
    fn decoded_row_index(&self, pair: &(String, String)) -> (r: Option<usize>)
        ensures
            match r {
                Some(i) => i < self.rows@.len() && self.rows@[i as int].campaign_id@ == pair.0@
                    && self.rows@[i as int].recipient_id@ == pair.1@,
                None => !self.has_row(pair.0@, pair.1@),
            },
    {
        self.find_row_index(pair.0.as_str(), pair.1.as_str())
    }

    /// Applies a pixel hit: when the token decodes to a registered pair,
    /// the row takes a conditional open update — first write wins — at
    /// the moment of the call; on any other token nothing changes, and
    /// the caller serves the pixel bytes either way.
    pub fn handle_pixel_hit(&mut self, token: &str, ctx: &ClientInfo)
        requires
            old(self).wf(),
        ensures
            final(self).wf(),
            final(self).campaigns@ == old(self).campaigns@,
            final(self).templates@ == old(self).templates@,
            final(self).recipients@ == old(self).recipients@,
            match spec_parse_token(token@) {
                Some(pair) => {
                    if old(self).has_row(pair.0, pair.1) {
                        exists|t: i64|
                            final(self).rows@ == old(self).rows@.update(
                                old(self).row_index(pair.0, pair.1),
                                spec_record_open(old(self).spec_row(pair.0, pair.1), t, *ctx),
                            )
                    } else {
                        final(self).rows@ == old(self).rows@
                    }
                },
                None => final(self).rows@ == old(self).rows@,
            },
    {
        match parse_tracking_id(token) {
            Some(pair) => {
                match self.decoded_row_index(&pair) {
                    Some(i) => {
                        proof {
                            crate::store::lemma_row_found(*self, i as int, pair.0@, pair.1@);
                        }
                        let now = now_timestamp();
                        record_open(&mut self.rows[i], now, ctx);
                        proof {
                            assert(final(self).rows@ == old(self).rows@.update(
                                old(self).row_index(pair.0@, pair.1@),
                                spec_record_open(
                                    old(self).spec_row(pair.0@, pair.1@),
                                    now,
                                    *ctx,
                                ),
                            ));
                        }
                    },
                    None => {},
                }
            },
            None => {},
        }
    }

    /// Applies a click hit: when the token decodes to a registered pair,
    /// the row takes an unconditional click update — click snapshot
    /// refreshed, row forced open — at the moment of the call; on any
    /// other token nothing changes, and the caller redirects either way.
    pub fn handle_click_hit(&mut self, token: &str, ctx: &ClientInfo)
        requires
            old(self).wf(),
        ensures
            final(self).wf(),
            final(self).campaigns@ == old(self).campaigns@,
            final(self).templates@ == old(self).templates@,
            final(self).recipients@ == old(self).recipients@,
            match spec_parse_token(token@) {
                Some(pair) => {
                    if old(self).has_row(pair.0, pair.1) {
                        exists|t: i64|
                            final(self).rows@ == old(self).rows@.update(
                                old(self).row_index(pair.0, pair.1),
                                spec_record_click(old(self).spec_row(pair.0, pair.1), t, *ctx),
                            )
                    } else {
                        final(self).rows@ == old(self).rows@
                    }
                },
                None => final(self).rows@ == old(self).rows@,
            },
    {
        match parse_tracking_id(token) {
            Some(pair) => {
                match self.decoded_row_index(&pair) {
                    Some(i) => {
                        proof {
                            crate::store::lemma_row_found(*self, i as int, pair.0@, pair.1@);
                        }
                        let now = now_timestamp();
                        record_click(&mut self.rows[i], now, ctx);
                        proof {
                            assert(final(self).rows@ == old(self).rows@.update(
                                old(self).row_index(pair.0@, pair.1@),
                                spec_record_click(
                                    old(self).spec_row(pair.0@, pair.1@),
                                    now,
                                    *ctx,
                                ),
                            ));
                        }
                    },
                    None => {},
                }
            },
            None => {},
        }
    }

    /// Applies a report: when the token decodes to a registered pair, the
    /// row takes the report at the moment of the call; a token that does
    /// not decode, or names no registered pair, writes nothing and is the
    /// one tracking outcome surfaced to the caller.
    pub fn handle_report_hit(&mut self, token: &str) -> (r: Result<(), EngineError>)
        requires
            old(self).wf(),
        ensures
            final(self).wf(),
            final(self).campaigns@ == old(self).campaigns@,
            final(self).templates@ == old(self).templates@,
            final(self).recipients@ == old(self).recipients@,
            match spec_parse_token(token@) {
                Some(pair) => {
                    if old(self).has_row(pair.0, pair.1) {
                        r is Ok && exists|t: i64|
                            final(self).rows@ == old(self).rows@.update(
                                old(self).row_index(pair.0, pair.1),
                                spec_record_report(old(self).spec_row(pair.0, pair.1), t),
                            )
                    } else {
                        r == Err::<(), EngineError>(EngineError::NotFound) && final(self).rows@
                            == old(self).rows@
                    }
                },
                None => r == Err::<(), EngineError>(EngineError::NotFound) && final(self).rows@
                    == old(self).rows@,
            },
    {
        match parse_tracking_id(token) {
            Some(pair) => {
                match self.decoded_row_index(&pair) {
                    Some(i) => {
                        proof {
                            crate::store::lemma_row_found(*self, i as int, pair.0@, pair.1@);
                        }
                        let now = now_timestamp();
                        record_report(&mut self.rows[i], now);
                        proof {
                            assert(final(self).rows@ == old(self).rows@.update(
                                old(self).row_index(pair.0@, pair.1@),
                                spec_record_report(old(self).spec_row(pair.0@, pair.1@), now),
                            ));
                        }
                        Ok(())
                    },
                    None => Err(EngineError::NotFound),
                }
            },
            None => Err(EngineError::NotFound),
        }
    }

    /// How many rows of `rows` belong to the campaign and satisfy `f`.
    pub open spec fn count_rows(
        rows: Seq<CampaignRecipient>,
        cid: Seq<char>,
        f: spec_fn(CampaignRecipient) -> bool,
    ) -> nat
        decreases rows.len(),
    {
        if rows.len() == 0 {
            0
        } else {
            CampaignStore::count_rows(rows.drop_last(), cid, f) + (if rows.last().campaign_id@
                == cid && f(rows.last()) {
                1nat
            } else {
                0nat
            })
        }
    }

    /// Counts the campaign's rows and how many are sent, opened, clicked
    /// and reported — the integral half of the tracking statistics; the
    /// derived rates live with the caller.
    #[verifier::loop_isolation(false)]
    pub fn tracking_counts(&self, campaign_id: &str) -> (r: (u64, u64, u64, u64, u64))
        ensures
            r.0 == CampaignStore::count_rows(self.rows@, campaign_id@, |row: CampaignRecipient| true),
            r.1 == CampaignStore::count_rows(
                self.rows@,
                campaign_id@,
                |row: CampaignRecipient| row.email_sent,
            ),
            r.2 == CampaignStore::count_rows(
                self.rows@,
                campaign_id@,
                |row: CampaignRecipient| row.email_opened,
            ),
            r.3 == CampaignStore::count_rows(
                self.rows@,
                campaign_id@,
                |row: CampaignRecipient| row.link_clicked,
            ),
            r.4 == CampaignStore::count_rows(
                self.rows@,
                campaign_id@,
                |row: CampaignRecipient| row.reported,
            ),
    {
        let mut total: u64 = 0;
        let mut sent: u64 = 0;
        let mut opened: u64 = 0;
        let mut clicked: u64 = 0;
        let mut reported: u64 = 0;
        let mut j: usize = 0;
        while j < self.rows.len()
            invariant
                j <= self.rows@.len(),
                total <= j,
                sent <= j,
                opened <= j,
                clicked <= j,
                reported <= j,
                total == CampaignStore::count_rows(
                    self.rows@.take(j as int),
                    campaign_id@,
                    |row: CampaignRecipient| true,
                ),
                sent == CampaignStore::count_rows(
                    self.rows@.take(j as int),
                    campaign_id@,
                    |row: CampaignRecipient| row.email_sent,
                ),
                opened == CampaignStore::count_rows(
                    self.rows@.take(j as int),
                    campaign_id@,
                    |row: CampaignRecipient| row.email_opened,
                ),
                clicked == CampaignStore::count_rows(
                    self.rows@.take(j as int),
                    campaign_id@,
                    |row: CampaignRecipient| row.link_clicked,
                ),
                reported == CampaignStore::count_rows(
                    self.rows@.take(j as int),
                    campaign_id@,
                    |row: CampaignRecipient| row.reported,
                ),
            decreases self.rows@.len() - j,
        {
            proof {
                assert(self.rows@.take(j + 1).drop_last() =~= self.rows@.take(j as int));
                assert(self.rows@.take(j + 1).last() == self.rows@[j as int]);
            }
            if crate::text::str_eq(self.rows[j].campaign_id.as_str(), campaign_id) {
                total = total + 1;
                if self.rows[j].email_sent {
                    sent = sent + 1;
                }
                if self.rows[j].email_opened {
                    opened = opened + 1;
                }
                if self.rows[j].link_clicked {
                    clicked = clicked + 1;
                }
                if self.rows[j].reported {
                    reported = reported + 1;
                }
            }
            j += 1;
        }
        proof {
            assert(self.rows@.take(self.rows@.len() as int) =~= self.rows@);
        }
        (total, sent, opened, clicked, reported)
    }
}

} // verus!
