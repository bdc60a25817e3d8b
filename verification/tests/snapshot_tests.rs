use storyos_adapter_postgres::snapshot::{
    activity_event, canonical_snapshot_from_row, canonical_snapshot_query, eligible_snapshot, payload_aggregate,
    project_activity_events, resume_snapshot, ActivityRow, CanonicalSnapshotQuery, ProjectActivityKind,
    SnapshotEligibility, SnapshotReadError, SnapshotRow,
};

fn row(position: &str) -> SnapshotRow {
    SnapshotRow {
        snapshot_id: "snap".to_owned(),
        project_activity_position: position.to_owned(),
        replay_generation: "1".to_owned(),
        redaction_profile: "storyos.author.v1".to_owned(),
        schema_profile: "storyos.public.release.1".to_owned(),
        created_at: "2024-01-01T00:00:00.000Z".to_owned(),
        expires_at: None,
        floor_position: "0".to_owned(),
    }
}

#[test]
fn snapshot_rows_read_back() {
    let snapshot = canonical_snapshot_from_row(row("12")).unwrap();
    assert_eq!(snapshot.project_activity_position, 12);
    assert_eq!(snapshot.replay_generation, 1);
    assert_eq!(snapshot.floor_position, 0);
    assert!(canonical_snapshot_from_row(row("-1")).is_none());
}

#[test]
fn latest_snapshot_query() {
    assert_eq!(canonical_snapshot_query(None), Some(CanonicalSnapshotQuery::Missing));
    assert_eq!(canonical_snapshot_query(Some((row("3"), true))), Some(CanonicalSnapshotQuery::Expired));
    match canonical_snapshot_query(Some((row("3"), false))) {
        Some(CanonicalSnapshotQuery::Available(s)) => assert_eq!(s.project_activity_position, 3),
        other => panic!("unexpected {other:?}"),
    }
    assert_eq!(canonical_snapshot_query(Some((row("x"), false))), None);
}

#[test]
fn snapshot_eligibility() {
    assert_eq!(eligible_snapshot(None, false, false, SnapshotEligibility::ActivityResume), Ok(None));
    assert_eq!(eligible_snapshot(Some(row("3")), true, false, SnapshotEligibility::CanonicalQuery), Err(SnapshotReadError::Expired));
    assert_eq!(eligible_snapshot(Some(row("3")), false, true, SnapshotEligibility::ActivityResume), Err(SnapshotReadError::CursorTooOld));
    assert!(eligible_snapshot(Some(row("3")), false, true, SnapshotEligibility::CanonicalQuery).unwrap().is_some());
    assert!(matches!(
        eligible_snapshot(Some(row("x")), false, false, SnapshotEligibility::CanonicalQuery),
        Err(SnapshotReadError::Unavailable(_))
    ));
    assert!(matches!(resume_snapshot(None), Err(SnapshotReadError::Unavailable(_))));
}

#[test]
fn persisted_activity_kinds() {
    assert_eq!(ProjectActivityKind::from_persisted("chapter_updated"), Some(ProjectActivityKind::ChapterUpdated));
    assert_eq!(ProjectActivityKind::from_persisted("writer_takeover_applied"), Some(ProjectActivityKind::WriterTakeoverApplied));
    assert_eq!(ProjectActivityKind::from_persisted("project_assistance_updated"), None);
}

#[test]
fn aggregates_of_activity() {
    let chapter = payload_aggregate(ProjectActivityKind::ChapterUpdated, r#"{"chapter_id":"c1"}"#, "p1").unwrap();
    assert_eq!((chapter.kind.as_str(), chapter.id.as_str()), ("chapter", "c1"));
    let current = payload_aggregate(ProjectActivityKind::CurrentChapterSet, r#"{"current_chapter_id":"c2"}"#, "p1").unwrap();
    assert_eq!(current.id, "c2");
    let project = payload_aggregate(ProjectActivityKind::ProjectUpdated, "{}", "p1").unwrap();
    assert_eq!((project.kind.as_str(), project.id.as_str()), ("project", "p1"));
    let session = payload_aggregate(ProjectActivityKind::WriterTakeoverApplied, r#"{"resulting_editor_session_id":"s"}"#, "p1").unwrap();
    assert_eq!(session.kind, "editor_session");
    assert!(payload_aggregate(ProjectActivityKind::VolumeUpdated, r#"{"volume_id":""}"#, "p1").is_err());
    assert!(payload_aggregate(ProjectActivityKind::ProjectExportSettled, "{}", "p1").is_err());
}

fn activity(position: &str, kind: &str, payload: &str) -> ActivityRow {
    ActivityRow {
        event_id: "e".to_owned(),
        project_activity_position: position.to_owned(),
        event_kind: kind.to_owned(),
        command_id: "cmd".to_owned(),
        correlation_id: "corr".to_owned(),
        receipt_id: "rcpt".to_owned(),
        occurred_at: "t".to_owned(),
        payload_json: payload.to_owned(),
    }
}

#[test]
fn activity_stream_projects_rows() {
    let event = activity_event(&activity("7", "volume_updated", r#"{"volume_id":"v1"}"#), "p1").unwrap();
    assert_eq!(event.project_sequence, 7);
    assert_eq!(event.stream_sequence, 7);
    assert_eq!(event.aggregate.id, "v1");
    let rows = vec![activity("1", "project_created", "{}"), activity("2", "chapter_created", r#"{"chapter_id":"c"}"#)];
    let events = project_activity_events(&rows, "p1").unwrap();
    assert_eq!(events.len(), 2);
    assert_eq!(events[1].kind, ProjectActivityKind::ChapterCreated);
    let broken = vec![activity("1", "project_created", "{}"), activity("2", "mystery", "{}")];
    assert!(matches!(project_activity_events(&broken, "p1"), Err(SnapshotReadError::Unavailable(_))));
    assert!(activity_event(&activity("1", "project_created", "not json"), "p1").is_err());
}
