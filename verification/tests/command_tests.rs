use storyos_adapter_postgres::command::{
    is_active_lifecycle, project_lifecycle, receipt_outcome, receipt_payload, replay_activity,
    route_challenge_use, CommandRoute, ProjectCommandChallengeUse, ProjectLifecycle,
};
use storyos_adapter_postgres::json::{payload_text, PayloadValue};

#[test]
fn challenge_use_routes_the_command() {
    assert_eq!(route_challenge_use(ProjectCommandChallengeUse::FirstUse), CommandRoute::Persist);
    assert_eq!(
        route_challenge_use(ProjectCommandChallengeUse::ExactRetrySettled { result_reference: "r1".to_owned() }),
        CommandRoute::Replay { receipt_id: "r1".to_owned() }
    );
    assert_eq!(route_challenge_use(ProjectCommandChallengeUse::ExactRetryInProgress), CommandRoute::RefuseInProgress);
}

#[test]
fn project_lifecycle_texts() {
    assert_eq!(project_lifecycle("active"), Some(ProjectLifecycle::Active));
    assert_eq!(project_lifecycle("archived"), Some(ProjectLifecycle::Archived));
    assert_eq!(project_lifecycle("deleted"), None);
    assert!(is_active_lifecycle("active"));
    assert!(!is_active_lifecycle("Active"));
}

#[test]
fn receipt_payload_records_reason() {
    let payload = receipt_payload(&receipt_outcome("refused", Some("archived_project")));
    let value: serde_json::Value = serde_json::from_str(&payload).unwrap();
    assert_eq!(value["reason"], "archived_project");
    let empty = receipt_payload(&receipt_outcome("authoritative_applied", None));
    assert_eq!(empty, "{}");
}

#[test]
fn replayed_activity_defaults_to_zero() {
    assert_eq!(replay_activity(None, None), Some((0, String::new())));
    assert_eq!(replay_activity(Some("12".to_owned()), Some("e1".to_owned())), Some((12, "e1".to_owned())));
    assert_eq!(replay_activity(Some("x".to_owned()), None), None);
}

#[test]
fn payload_text_writes_members_in_order() {
    let fields = vec![
        ("kind".to_owned(), PayloadValue::Text("chapter_updated".to_owned())),
        ("prior".to_owned(), PayloadValue::Null),
        ("heads".to_owned(), PayloadValue::TextList(vec!["h1".to_owned(), "h2".to_owned()])),
        ("kind".to_owned(), PayloadValue::Text("later".to_owned())),
    ];
    let value: serde_json::Value = serde_json::from_str(&payload_text(&fields)).unwrap();
    assert_eq!(value["kind"], "later");
    assert!(value["prior"].is_null());
    assert_eq!(value["heads"], serde_json::Value::Array(vec!["h1".into(), "h2".into()]));
}
