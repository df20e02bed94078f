use phishtest::errors::EngineError;
use phishtest::model::Campaign;
use phishtest::model::CampaignStatus;
use phishtest::model::Recipient;
use phishtest::model::Template;
use phishtest::render::process_test_template;
use phishtest::store::CampaignStore;

fn seeded_store() -> CampaignStore {
    let mut store = CampaignStore::new();
    assert!(store.insert_template(Template {
        id: "t1".to_string(),
        name: "Invoice".to_string(),
        category: "finance".to_string(),
        description: Some("fake invoice".to_string()),
        subject: "Invoice due".to_string(),
        content: "<p>pay</p>".to_string(),
    }));
    assert!(store.insert_recipient(Recipient {
        id: "r1".to_string(),
        name: "Ana".to_string(),
        email: "ana@corp.example".to_string(),
        department: Some("finance".to_string()),
    }));
    store
}

#[test]
fn test_recipient_partial_update() {
    let mut store = seeded_store();
    store
        .apply_recipient_update("r1", &None, &Some("ana.r@corp.example".to_string()), &None)
        .unwrap();
    assert_eq!(store.recipients[0].name, "Ana", "omitted field untouched");
    assert_eq!(store.recipients[0].email, "ana.r@corp.example");
    assert_eq!(store.recipients[0].department, Some("finance".to_string()));

    assert_eq!(
        store.apply_recipient_update("ghost", &None, &None, &None).err(),
        Some(EngineError::NotFound)
    );
}

#[test]
fn test_recipient_delete_and_get() {
    let mut store = seeded_store();
    assert!(store.get_recipient("r1").is_some());
    assert!(store.delete_recipient("r1"));
    assert!(store.get_recipient("r1").is_none());
    assert!(!store.delete_recipient("r1"));
}

#[test]
fn test_template_partial_update() {
    let mut store = seeded_store();
    store
        .apply_template_update(
            "t1",
            &Some("Invoice v2".to_string()),
            &None,
            &None,
            &None,
            &Some("<p>pay now</p>".to_string()),
        )
        .unwrap();
    assert_eq!(store.templates[0].name, "Invoice v2");
    assert_eq!(store.templates[0].category, "finance", "omitted field untouched");
    assert_eq!(store.templates[0].content, "<p>pay now</p>");
    assert_eq!(
        store.apply_template_update("ghost", &None, &None, &None, &None, &None).err(),
        Some(EngineError::NotFound)
    );
}

#[test]
fn test_template_duplicate() {
    let mut store = seeded_store();
    store.duplicate_template("t1", "t2").unwrap();
    assert_eq!(store.templates.len(), 2);
    assert_eq!(store.templates[1].id, "t2");
    assert_eq!(store.templates[1].name, "Invoice (copy)");
    assert_eq!(store.templates[1].content, "<p>pay</p>");
    assert_eq!(store.duplicate_template("t1", "t2").err(), Some(EngineError::PreconditionFailed));
    assert_eq!(store.duplicate_template("ghost", "t3").err(), Some(EngineError::NotFound));
}

#[test]
fn test_template_delete_and_get() {
    let mut store = seeded_store();
    assert!(store.get_template("t1").is_some());
    assert!(store.delete_template("t1"));
    assert!(store.get_template("t1").is_none());
}

#[test]
fn test_campaign_delete_and_get() {
    let mut store = seeded_store();
    assert!(store.insert_campaign(Campaign {
        id: "c1".to_string(),
        name: Some("Drill".to_string()),
        description: None,
        template_id: Some("t1".to_string()),
        status: CampaignStatus::Draft,
        created_at: None,
        updated_at: None,
    }));
    let found = store.get_campaign("c1").unwrap();
    assert_eq!(found.name, Some("Drill".to_string()));
    assert!(store.delete_campaign("c1"));
    assert!(store.get_campaign("c1").is_none());
    assert!(!store.delete_campaign("c1"));
}

#[test]
fn test_process_test_template_uses_inert_link() {
    let out = process_test_template(
        "Hi {{name}} ({{recipient_email}}): {{phishing_link}}",
        "Ana",
        "ana@corp.example",
    );
    assert_eq!(out, "Hi Ana (ana@corp.example): https://example.com/test-link");
    assert!(!out.contains("/api/v1/track/"));
}
