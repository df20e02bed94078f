//! The engagement recorder.
//!
//! Applies open, click and report events to one tracking row. Opens are
//! conditional — only the first one writes, so its forensic snapshot is
//! never overwritten. Clicks are unconditional, refresh the click snapshot
//! every time, and force the row open without touching an earlier open
//! snapshot. Reports set their flag and timestamp unconditionally.

use vstd::prelude::*;
use crate::model::CampaignRecipient;
use crate::user_agent::ClientInfo;

verus! {

/// The row after an open event: untouched when already open, otherwise
/// open with the event's time and context as its forensic snapshot.
pub open spec fn spec_record_open(r: CampaignRecipient, now: i64, ctx: ClientInfo) -> CampaignRecipient {
    if r.email_opened {
        r
    } else {
        CampaignRecipient {
            email_opened: true,
            opened_at: Some(now),
            opened_ip: Some(ctx.ip),
            opened_user_agent: Some(ctx.user_agent),
            opened_device_type: Some(ctx.device_type),
            opened_os: Some(ctx.os),
            opened_browser: Some(ctx.browser),
            ..r
        }
    }
}

/// The row after a click event: clicked, with the click snapshot
/// refreshed to this event, and forced open; an earlier open snapshot is
/// left alone, and a click with no earlier open records no open snapshot,
/// since no open was observed.
pub open spec fn spec_record_click(r: CampaignRecipient, now: i64, ctx: ClientInfo) -> CampaignRecipient {
    CampaignRecipient {
        email_opened: true,
        link_clicked: true,
        clicked_at: Some(now),
        clicked_ip: Some(ctx.ip),
        clicked_user_agent: Some(ctx.user_agent),
        clicked_device_type: Some(ctx.device_type),
        clicked_os: Some(ctx.os),
        clicked_browser: Some(ctx.browser),
        clicked_location: ctx.location,
        ..r
    }
}

/// The row after a report event.
pub open spec fn spec_record_report(r: CampaignRecipient, now: i64) -> CampaignRecipient {
    CampaignRecipient { reported: true, reported_at: Some(now), ..r }
}

/// Records an open: first write wins, a second open is a silent no-op.
pub fn record_open(row: &mut CampaignRecipient, now: i64, ctx: &ClientInfo)
    ensures
        *final(row) == spec_record_open(*old(row), now, *ctx),
{
    if !row.email_opened {
        row.email_opened = true;
        row.opened_at = Some(now);
        row.opened_ip = Some(ctx.ip.clone());
        row.opened_user_agent = Some(ctx.user_agent.clone());
        row.opened_device_type = Some(ctx.device_type.clone());
        row.opened_os = Some(ctx.os.clone());
        row.opened_browser = Some(ctx.browser.clone());
    }
}

/// Records a click: always marks the row clicked and open, and refreshes
/// the click snapshot to this event.
pub fn record_click(row: &mut CampaignRecipient, now: i64, ctx: &ClientInfo)
    ensures
        *final(row) == spec_record_click(*old(row), now, *ctx),
{
    row.email_opened = true;
    row.link_clicked = true;
    row.clicked_at = Some(now);
    row.clicked_ip = Some(ctx.ip.clone());
    row.clicked_user_agent = Some(ctx.user_agent.clone());
    row.clicked_device_type = Some(ctx.device_type.clone());
    row.clicked_os = Some(ctx.os.clone());
    row.clicked_browser = Some(ctx.browser.clone());
    row.clicked_location = match &ctx.location {
        Some(loc) => Some(loc.clone()),
        None => None,
    };
}

/// Records a report.
pub fn record_report(row: &mut CampaignRecipient, now: i64)
    ensures
        *final(row) == spec_record_report(*old(row), now),
{
    row.reported = true;
    row.reported_at = Some(now);
}

/// First write wins for opens: after any recorded open, a further open —
/// whatever time or context it carries — changes nothing, so the original
/// forensic snapshot stands.
pub proof fn lemma_open_first_write_wins(
    r: CampaignRecipient,
    t1: i64,
    c1: ClientInfo,
    t2: i64,
    c2: ClientInfo,
)
    ensures
        spec_record_open(spec_record_open(r, t1, c1), t2, c2) == spec_record_open(r, t1, c1),
{
}

/// A recorded click always leaves the row both opened and clicked,
/// whatever its prior state.
pub proof fn lemma_click_forces_open(r: CampaignRecipient, t: i64, c: ClientInfo)
    ensures
        spec_record_click(r, t, c).email_opened,
        spec_record_click(r, t, c).link_clicked,
{
}

/// No event withdraws an earlier one: the sent, opened, clicked and
/// reported flags are each monotone under every recorder operation.
pub proof fn lemma_flags_monotone(r: CampaignRecipient, t: i64, c: ClientInfo)
    ensures
        r.email_sent ==> spec_record_open(r, t, c).email_sent && spec_record_click(r, t, c).email_sent
            && spec_record_report(r, t).email_sent,
        r.email_opened ==> spec_record_open(r, t, c).email_opened && spec_record_click(r, t, c).email_opened
            && spec_record_report(r, t).email_opened,
        r.link_clicked ==> spec_record_open(r, t, c).link_clicked && spec_record_click(r, t, c).link_clicked
            && spec_record_report(r, t).link_clicked,
        r.reported ==> spec_record_open(r, t, c).reported && spec_record_click(r, t, c).reported
            && spec_record_report(r, t).reported,
{
}

/// A click never clobbers an earlier open snapshot: the open timestamp
/// and forensic fields pass through a click unchanged.
pub proof fn lemma_click_keeps_open_snapshot(r: CampaignRecipient, t: i64, c: ClientInfo)
    ensures
        spec_record_click(r, t, c).opened_at == r.opened_at,
        spec_record_click(r, t, c).opened_ip == r.opened_ip,
        spec_record_click(r, t, c).opened_user_agent == r.opened_user_agent,
        spec_record_click(r, t, c).opened_device_type == r.opened_device_type,
        spec_record_click(r, t, c).opened_os == r.opened_os,
        spec_record_click(r, t, c).opened_browser == r.opened_browser,
{
}

/// The row invariant — a clicked row is an opened row — holds of a
/// blank row and is preserved by every recorder operation and by the
/// dispatch marking.
pub proof fn lemma_click_implies_open_preserved(r: CampaignRecipient, t: i64, c: ClientInfo)
    requires
        r.link_clicked ==> r.email_opened,
    ensures
        spec_record_open(r, t, c).link_clicked ==> spec_record_open(r, t, c).email_opened,
        spec_record_click(r, t, c).link_clicked ==> spec_record_click(r, t, c).email_opened,
        spec_record_report(r, t).link_clicked ==> spec_record_report(r, t).email_opened,
        crate::store::CampaignStore::spec_mark_sent(r, t).link_clicked
            ==> crate::store::CampaignStore::spec_mark_sent(r, t).email_opened,
{
}

} // verus!
