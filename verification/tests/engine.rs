use phishtest::codec::generate_tracking_id;
use phishtest::dispatch::new_progress;
use phishtest::engagement::record_click;
use phishtest::engagement::record_open;
use phishtest::engagement::record_report;
use phishtest::errors::EngineError;
use phishtest::model::Campaign;
use phishtest::model::CampaignRecipient;
use phishtest::model::CampaignStatus;
use phishtest::model::Recipient;
use phishtest::model::Template;
use phishtest::model::status_from_str;
use phishtest::model::status_name;
use phishtest::requests::CreateCampaignRequest;
use phishtest::requests::UpdateCampaignRequest;
use phishtest::store::CampaignStore;
use phishtest::user_agent::ClientInfo;

fn ctx(ip: &str, browser: &str) -> ClientInfo {
    ClientInfo {
        ip: ip.to_string(),
        user_agent: "agent".to_string(),
        device_type: "Desktop".to_string(),
        os: "Linux".to_string(),
        browser: browser.to_string(),
        location: Some("external".to_string()),
    }
}

fn campaign(id: &str, template_id: Option<&str>) -> Campaign {
    Campaign {
        id: id.to_string(),
        name: Some(format!("{} name", id)),
        description: None,
        template_id: template_id.map(|t| t.to_string()),
        status: CampaignStatus::Draft,
        created_at: Some(1000),
        updated_at: Some(1000),
    }
}

fn template(id: &str) -> Template {
    Template {
        id: id.to_string(),
        name: "Quarterly review".to_string(),
        category: "finance".to_string(),
        description: None,
        subject: "Action required".to_string(),
        content: "<html><body>Hi {{recipient_name}}</body></html>".to_string(),
    }
}

fn recipient(id: &str, email: &str) -> Recipient {
    Recipient {
        id: id.to_string(),
        name: format!("{} person", id),
        email: email.to_string(),
        department: None,
    }
}

fn store_with_campaign() -> CampaignStore {
    let mut store = CampaignStore::new();
    assert!(store.insert_template(template("t1")));
    assert!(store.insert_campaign(campaign("c1", Some("t1"))));
    assert!(store.insert_recipient(recipient("r1", "one@corp.example")));
    assert!(store.insert_recipient(recipient("r2", "two@corp.example")));
    store
}

#[test]
fn test_open_sets_flags_then_first_write_wins() {
    let mut row = CampaignRecipient::blank("c1".to_string(), "r1".to_string());
    assert!(!row.email_opened);

    record_open(&mut row, 50, &ctx("1.1.1.1", "Chrome"));
    assert!(row.email_opened);
    assert_eq!(row.opened_at, Some(50));
    assert_eq!(row.opened_ip, Some("1.1.1.1".to_string()));
    assert_eq!(row.opened_browser, Some("Chrome".to_string()));

    // A second open with a different context changes nothing.
    record_open(&mut row, 99, &ctx("2.2.2.2", "Firefox"));
    assert_eq!(row.opened_at, Some(50));
    assert_eq!(row.opened_ip, Some("1.1.1.1".to_string()));
    assert_eq!(row.opened_browser, Some("Chrome".to_string()));
}

#[test]
fn test_click_forces_open_and_refreshes_snapshot() {
    let mut row = CampaignRecipient::blank("c1".to_string(), "r1".to_string());

    record_click(&mut row, 60, &ctx("1.1.1.1", "Chrome"));
    assert!(row.email_opened);
    assert!(row.link_clicked);
    assert_eq!(row.clicked_at, Some(60));
    // A click with no prior open records no open snapshot: no open was
    // observed.
    assert_eq!(row.opened_at, None);
    assert_eq!(row.opened_ip, None);

    // A later click refreshes the click snapshot but keeps any open data.
    record_open(&mut row, 70, &ctx("3.3.3.3", "Safari"));
    record_click(&mut row, 80, &ctx("4.4.4.4", "Edge"));
    assert_eq!(row.clicked_at, Some(80));
    assert_eq!(row.clicked_ip, Some("4.4.4.4".to_string()));
    assert_eq!(row.opened_at, None, "open snapshot is first-write-wins and was never taken");
    assert!(row.email_opened && row.link_clicked);
}

#[test]
fn test_report_sets_flag_and_time() {
    let mut row = CampaignRecipient::blank("c1".to_string(), "r1".to_string());
    record_report(&mut row, 90);
    assert!(row.reported);
    assert_eq!(row.reported_at, Some(90));
    assert!(!row.email_opened && !row.link_clicked && !row.email_sent);
}

#[test]
fn test_launch_without_template_precondition_failed() {
    let mut store = CampaignStore::new();
    assert!(store.insert_campaign(campaign("c1", None)));
    let r = store.launch_campaign("c1", &vec!["r1".to_string()], 2000);
    assert_eq!(r.err(), Some(EngineError::PreconditionFailed));
    assert_eq!(store.campaigns[0].status, CampaignStatus::Draft);
    assert!(store.rows.is_empty());
}

#[test]
fn test_launch_unknown_campaign_not_found() {
    let mut store = store_with_campaign();
    let r = store.launch_campaign("ghost", &vec!["r1".to_string()], 2000);
    assert_eq!(r.err(), Some(EngineError::NotFound));
}

#[test]
fn test_launch_dangling_template_not_found() {
    let mut store = CampaignStore::new();
    assert!(store.insert_campaign(campaign("c1", Some("missing"))));
    let r = store.launch_campaign("c1", &vec!["r1".to_string()], 2000);
    assert_eq!(r.err(), Some(EngineError::NotFound));
}

#[test]
fn test_launch_outside_draft_precondition_failed() {
    let mut store = store_with_campaign();
    assert!(store.start_campaign("c1", 1500));
    let r = store.launch_campaign("c1", &vec!["r1".to_string()], 2000);
    assert_eq!(r.err(), Some(EngineError::PreconditionFailed));
}

#[test]
fn test_launch_with_no_pending_recipients() {
    let mut store = store_with_campaign();
    // The only requested recipient is not stored, so nothing is pending.
    let r = store.launch_campaign("c1", &vec!["stranger".to_string()], 2000);
    assert_eq!(r.err(), Some(EngineError::PreconditionFailed));
    // The registration is kept, the status stays draft.
    assert_eq!(store.rows.len(), 1);
    assert_eq!(store.campaigns[0].status, CampaignStatus::Draft);
}

#[test]
fn test_launch_registers_and_activates() {
    let mut store = store_with_campaign();
    let ack = store.launch_campaign("c1", &vec!["r1".to_string()], 2000).unwrap();
    assert_eq!(ack.campaign_id, "c1");
    assert_eq!(ack.total_recipients, 1);
    assert_eq!(store.campaigns[0].status, CampaignStatus::Active);
    assert_eq!(store.campaigns[0].updated_at, Some(2000));
    assert_eq!(store.rows.len(), 1);
    assert_eq!(store.rows[0].campaign_id, "c1");
    assert_eq!(store.rows[0].recipient_id, "r1");
    assert!(!store.rows[0].email_sent);
}

#[test]
fn test_launch_registration_is_idempotent() {
    let mut store = store_with_campaign();
    let ids = vec!["r1".to_string(), "r1".to_string(), "r2".to_string()];
    let ack = store.launch_campaign("c1", &ids, 2000).unwrap();
    assert_eq!(ack.total_recipients, 3);
    assert_eq!(store.rows.len(), 2, "re-adding a registered recipient is a no-op");
}

#[test]
fn test_dispatch_partial_failure_keeps_campaign_active() {
    let mut store = store_with_campaign();
    store.launch_campaign("c1", &vec!["r1".to_string(), "r2".to_string()], 2000).unwrap();

    let mut progress = new_progress();
    // The mailer fails for the first recipient and succeeds for the second.
    store.dispatch_step("c1", "r1", false, 2010, &mut progress);
    store.dispatch_step("c1", "r2", true, 2012, &mut progress);
    assert_eq!(progress.succeeded, 1);
    assert_eq!(progress.failed, 1);

    let completed = store.finalize_dispatch("c1", progress.failed, 2015);
    assert!(!completed);

    assert!(!store.rows[0].email_sent);
    assert_eq!(store.rows[0].sent_at, None);
    assert!(store.rows[1].email_sent);
    assert_eq!(store.rows[1].sent_at, Some(2012));
    assert_eq!(store.campaigns[0].status, CampaignStatus::Active);
}

#[test]
fn test_dispatch_clean_pass_completes_campaign() {
    let mut store = store_with_campaign();
    store.launch_campaign("c1", &vec!["r1".to_string(), "r2".to_string()], 2000).unwrap();

    let mut progress = new_progress();
    store.dispatch_step("c1", "r1", true, 2010, &mut progress);
    store.dispatch_step("c1", "r2", true, 2012, &mut progress);
    assert_eq!(progress.failed, 0);

    let completed = store.finalize_dispatch("c1", progress.failed, 2015);
    assert!(completed);
    assert!(store.rows[0].email_sent && store.rows[1].email_sent);
    assert_eq!(store.campaigns[0].status, CampaignStatus::Completed);
}

#[test]
fn test_dispatch_stops_after_pause() {
    let mut store = store_with_campaign();
    store.launch_campaign("c1", &vec!["r1".to_string()], 2000).unwrap();
    assert!(store.should_continue_dispatch("c1"));
    assert!(store.pause_campaign("c1", 2005));
    assert!(!store.should_continue_dispatch("c1"));
}

#[test]
fn test_lifecycle_transitions() {
    let mut store = store_with_campaign();
    // Pausing a draft campaign is refused.
    assert!(!store.pause_campaign("c1", 1100));
    assert!(store.start_campaign("c1", 1200));
    // Starting twice is refused: the second caller sees a non-draft state.
    assert!(!store.start_campaign("c1", 1300));
    assert!(store.pause_campaign("c1", 1400));
    assert_eq!(store.campaigns[0].status, CampaignStatus::Paused);
    // Stop forces completed from any state.
    assert!(store.stop_campaign("c1", 1500));
    assert_eq!(store.campaigns[0].status, CampaignStatus::Completed);
    // Autocomplete only fires from active.
    assert!(!store.autocomplete_campaign("c1", 1600));
}

#[test]
fn test_pixel_hit_records_open_once() {
    let mut store = store_with_campaign();
    store.launch_campaign("c1", &vec!["r1".to_string()], 2000).unwrap();
    let token = generate_tracking_id("c1", "r1");

    store.handle_pixel_hit(&token, &ctx("5.5.5.5", "Chrome"));
    assert!(store.rows[0].email_opened);
    assert_eq!(store.rows[0].opened_ip, Some("5.5.5.5".to_string()));
    let first_opened_at = store.rows[0].opened_at;
    assert!(first_opened_at.is_some());

    store.handle_pixel_hit(&token, &ctx("6.6.6.6", "Firefox"));
    assert_eq!(store.rows[0].opened_ip, Some("5.5.5.5".to_string()));
    assert_eq!(store.rows[0].opened_at, first_opened_at);
}

#[test]
fn test_pixel_hit_with_garbage_token_is_silent() {
    let mut store = store_with_campaign();
    store.launch_campaign("c1", &vec!["r1".to_string()], 2000).unwrap();
    store.handle_pixel_hit("!!!", &ctx("5.5.5.5", "Chrome"));
    store.handle_pixel_hit(&generate_tracking_id("c1", "ghost"), &ctx("5.5.5.5", "Chrome"));
    assert!(!store.rows[0].email_opened);
}

#[test]
fn test_click_hit_forces_open() {
    let mut store = store_with_campaign();
    store.launch_campaign("c1", &vec!["r1".to_string()], 2000).unwrap();
    let token = generate_tracking_id("c1", "r1");
    store.handle_click_hit(&token, &ctx("7.7.7.7", "Safari"));
    assert!(store.rows[0].link_clicked);
    assert!(store.rows[0].email_opened);
    assert_eq!(store.rows[0].clicked_ip, Some("7.7.7.7".to_string()));
}

#[test]
fn test_report_hit_outcomes() {
    let mut store = store_with_campaign();
    store.launch_campaign("c1", &vec!["r1".to_string()], 2000).unwrap();
    let token = generate_tracking_id("c1", "r1");
    assert!(store.handle_report_hit(&token).is_ok());
    assert!(store.rows[0].reported);

    assert_eq!(store.handle_report_hit("not a token").err(), Some(EngineError::NotFound));
    let stranger = generate_tracking_id("c1", "ghost");
    assert_eq!(store.handle_report_hit(&stranger).err(), Some(EngineError::NotFound));
}

#[test]
fn test_tracking_counts() {
    let mut store = store_with_campaign();
    store.launch_campaign("c1", &vec!["r1".to_string(), "r2".to_string()], 2000).unwrap();
    let mut progress = new_progress();
    store.dispatch_step("c1", "r1", true, 2010, &mut progress);
    store.handle_click_hit(&generate_tracking_id("c1", "r1"), &ctx("1.1.1.1", "Chrome"));
    store.handle_report_hit(&generate_tracking_id("c1", "r2")).unwrap();

    let (total, sent, opened, clicked, reported) = store.tracking_counts("c1");
    assert_eq!(total, 2);
    assert_eq!(sent, 1);
    assert_eq!(opened, 1);
    assert_eq!(clicked, 1);
    assert_eq!(reported, 1);
    assert_eq!(store.tracking_counts("other"), (0, 0, 0, 0, 0));
}

#[test]
fn test_create_campaign_validates_template() {
    let mut store = CampaignStore::new();
    assert!(store.insert_template(template("t1")));
    let req = CreateCampaignRequest {
        name: "Drill".to_string(),
        description: Some("spring drill".to_string()),
        template_id: Some("missing".to_string()),
        recipient_groups: vec![],
    };
    assert_eq!(
        store.create_campaign("c9", &req, 3000).err(),
        Some(EngineError::PreconditionFailed)
    );

    let ok_req = CreateCampaignRequest {
        name: "Drill".to_string(),
        description: Some("spring drill".to_string()),
        template_id: Some("t1".to_string()),
        recipient_groups: vec![],
    };
    assert!(store.create_campaign("c9", &ok_req, 3000).is_ok());
    assert_eq!(store.campaigns[0].status, CampaignStatus::Draft);
    assert_eq!(store.campaigns[0].name, Some("Drill".to_string()));
    assert_eq!(store.campaigns[0].template_id, Some("t1".to_string()));
    // A taken identifier is refused.
    assert!(store.create_campaign("c9", &ok_req, 3100).is_err());
    // An empty template reference counts as none.
    let empty_req = CreateCampaignRequest {
        name: "Second".to_string(),
        description: None,
        template_id: Some(String::new()),
        recipient_groups: vec![],
    };
    assert!(store.create_campaign("c10", &empty_req, 3200).is_ok());
    assert_eq!(store.campaigns[1].template_id, None);
}

#[test]
fn test_apply_campaign_update_partial() {
    let mut store = store_with_campaign();
    let req = UpdateCampaignRequest {
        name: Some("Renamed".to_string()),
        description: None,
        status: Some("active".to_string()),
        scheduled_at: None,
        template_id: None,
    };
    store.apply_campaign_update("c1", &req, 4000).unwrap();
    assert_eq!(store.campaigns[0].name, Some("Renamed".to_string()));
    assert_eq!(store.campaigns[0].status, CampaignStatus::Active);
    assert_eq!(store.campaigns[0].template_id, Some("t1".to_string()), "omitted field untouched");
    assert_eq!(store.campaigns[0].updated_at, Some(4000));

    let bad = UpdateCampaignRequest {
        name: None,
        description: None,
        status: Some("haywire".to_string()),
        scheduled_at: None,
        template_id: None,
    };
    assert_eq!(
        store.apply_campaign_update("c1", &bad, 4100).err(),
        Some(EngineError::PreconditionFailed)
    );
    assert_eq!(
        store.apply_campaign_update("ghost", &bad, 4100).err(),
        Some(EngineError::NotFound)
    );
}

#[test]
fn test_apply_campaign_update_keeps_unset_name() {
    let mut store = CampaignStore::new();
    assert!(store.insert_campaign(Campaign {
        id: "c1".to_string(),
        name: None,
        description: None,
        template_id: None,
        status: CampaignStatus::Draft,
        created_at: None,
        updated_at: None,
    }));
    let req = UpdateCampaignRequest {
        name: None,
        description: Some("described".to_string()),
        status: None,
        scheduled_at: None,
        template_id: None,
    };
    store.apply_campaign_update("c1", &req, 4000).unwrap();
    assert_eq!(store.campaigns[0].name, None, "an omitted name stays exactly as it was");
    assert_eq!(store.campaigns[0].description, Some("described".to_string()));
}

#[test]
fn test_pending_recipients_distinct() {
    let mut store = store_with_campaign();
    store.register_recipients("c1", &vec!["r1".to_string(), "r1".to_string(), "r2".to_string()]);
    let pending = store.pending_recipients("c1");
    assert_eq!(pending.len(), 2);
    assert_ne!(pending[0].id, pending[1].id);
}

#[test]
fn test_add_recipients_reports_missing() {
    let mut store = store_with_campaign();
    let ids = vec!["r1".to_string(), "ghost".to_string(), "r2".to_string()];
    let (added, missing) = store.add_recipients_to_campaign("c1", &ids).unwrap();
    assert_eq!(added, 2);
    assert_eq!(missing, vec!["ghost".to_string()]);
    assert_eq!(store.rows.len(), 2);
    assert_eq!(
        store.add_recipients_to_campaign("ghost", &ids).err(),
        Some(EngineError::NotFound)
    );
}

#[test]
fn test_status_words_round_trip() {
    for status in [
        CampaignStatus::Draft,
        CampaignStatus::Scheduled,
        CampaignStatus::Active,
        CampaignStatus::Paused,
        CampaignStatus::Completed,
    ] {
        assert_eq!(status_from_str(status_name(status)), Some(status));
    }
    assert_eq!(status_from_str("nonsense"), None);
}

#[test]
fn test_run_dispatch_pass_completes_on_all_success() {
    let mut store = store_with_campaign();
    store.launch_campaign("c1", &vec!["r1".to_string(), "r2".to_string()], 2000).unwrap();
    let outcomes = vec![("r1".to_string(), true), ("r2".to_string(), true)];
    let tally = store.run_dispatch_pass("c1", &outcomes, 2020);
    assert_eq!(tally.succeeded, 2);
    assert_eq!(tally.failed, 0);
    assert_eq!(store.campaigns[0].status, CampaignStatus::Completed);
}

#[test]
fn test_run_dispatch_pass_keeps_active_on_failure() {
    let mut store = store_with_campaign();
    store.launch_campaign("c1", &vec!["r1".to_string(), "r2".to_string()], 2000).unwrap();
    let outcomes = vec![("r1".to_string(), false), ("r2".to_string(), true)];
    let tally = store.run_dispatch_pass("c1", &outcomes, 2020);
    assert_eq!(tally.succeeded, 1);
    assert_eq!(tally.failed, 1);
    assert_eq!(store.campaigns[0].status, CampaignStatus::Active);
    assert!(!store.rows[0].email_sent);
    assert!(store.rows[1].email_sent);
}
