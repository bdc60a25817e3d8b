use storyos_adapter_postgres::command::{AuthorCommandAdmissionIds, ChapterJoin, ProjectCommandChallengeError, ProjectLifecycle, UnavailableCause};
use storyos_adapter_postgres::set_current_chapter::{
    admission_targets, check_set_current_chapter_write, replayed_set_current_chapter_settlement,
    set_current_chapter_input, CurrentChapterReceiptRow, CurrentChapterRow, SetCurrentChapterSettlement,
    SetCurrentChapterWrite, current_chapter_set_payload, read_set_current_chapter_effect, resulting_head,
    set_current_chapter_challenge_error, set_current_chapter_outcome, settlement_effect as current_effect,
    SetCurrentChapterConflict, SetCurrentChapterError, SetCurrentChapterNoEffect, SetCurrentChapterRefusal,
    SetCurrentChapterResult, SetCurrentChapterSettlementEffect, CurrentChapterAuthority,
};
use storyos_adapter_postgres::update_chapter::{
    chapter_placement, chapter_updated_payload, read_update_chapter_authority, read_update_chapter_effect,
    settlement_effect as chapter_effect, update_chapter_challenge_error, update_chapter_input, update_chapter_outcome,
    update_chapter_project, check_update_chapter_write, ChapterRow, UpdateChapterWrite,
    UpdateChapterConflict, UpdateChapterError, UpdateChapterNoEffect, UpdateChapterRefusal,
    UpdateChapterResult, UpdateChapterSettlementEffect, first_use_update_chapter_settlement, UpdateChapterAuthority,
};
use storyos_adapter_postgres::update_volume::{
    settlement_effect as volume_effect, update_volume_input, update_volume_outcome, update_volume_project,
    volume_placement, volume_updated_payload, check_update_volume_write, UpdateVolumeWrite,
    UpdateVolumeConflict, UpdateVolumeError, UpdateVolumeRefusal, UpdateVolumeResult,
    UpdateVolumeSettlementEffect, VolumeJoin, VolumeRow, first_use_update_volume_settlement, UpdateVolumeAuthority,
};
use storyos_adapter_postgres::structural_authority::StructureTransitionSequences;

fn json(text: &str) -> serde_json::Value {
    serde_json::from_str(text).unwrap()
}

#[test]
fn set_current_chapter_applied_gets_fresh_snapshot() {
    match current_effect(SetCurrentChapterResult::Applied { current_chapter_id: "c2".to_owned() }).unwrap() {
        SetCurrentChapterSettlementEffect::Applied { current_chapter_id, base_snapshot_id } => {
            assert_eq!(current_chapter_id, "c2");
            assert_eq!(base_snapshot_id.len(), 36);
        }
        other => panic!("unexpected {other:?}"),
    }
    assert_eq!(
        current_effect(SetCurrentChapterResult::Refused { reason: SetCurrentChapterRefusal::MissingProject }),
        Err(SetCurrentChapterError::MissingProject)
    );
}

#[test]
fn set_current_chapter_receipts_and_replay() {
    let conflicted = SetCurrentChapterSettlementEffect::Conflicted {
        reason: SetCurrentChapterConflict::WrongTargetHead,
    };
    let outcome = set_current_chapter_outcome(&conflicted).unwrap();
    assert_eq!(outcome.result_kind, "conflicted");
    assert_eq!(outcome.reason.as_deref(), Some("wrong_target_head"));
    assert_eq!(
        read_set_current_chapter_effect("conflicted", outcome.reason.as_deref(), None, None),
        Ok(conflicted)
    );
    let noop = SetCurrentChapterSettlementEffect::NoEffect { reason: SetCurrentChapterNoEffect::AlreadyCurrent };
    let outcome = set_current_chapter_outcome(&noop).unwrap();
    assert_eq!(outcome.reason.as_deref(), Some("already_current"));
    assert_eq!(read_set_current_chapter_effect("no_effect", Some("already_current"), None, None), Ok(noop));
    assert_eq!(
        read_set_current_chapter_effect("authoritative_applied", None, Some("c2".to_owned()), Some("s1".to_owned())),
        Ok(SetCurrentChapterSettlementEffect::Applied {
            current_chapter_id: "c2".to_owned(),
            base_snapshot_id: "s1".to_owned()
        })
    );
    assert_eq!(
        read_set_current_chapter_effect("authoritative_applied", None, None, Some("s1".to_owned())),
        Err(SetCurrentChapterError::BindingConflict)
    );
    assert_eq!(
        read_set_current_chapter_effect("refused", Some("unknown"), None, None),
        Err(SetCurrentChapterError::BindingConflict)
    );
}

#[test]
fn set_current_chapter_targets_and_heads() {
    assert_eq!(
        admission_targets(ChapterJoin::ExactScope, false, "c1", "r-expected", "r-current"),
        (Some("c1".to_owned()), Some("r-current".to_owned()))
    );
    assert_eq!(
        admission_targets(ChapterJoin::ExactScope, true, "c1", "r-expected", "r-current"),
        (Some("c1".to_owned()), Some("r-expected".to_owned()))
    );
    assert_eq!(admission_targets(ChapterJoin::Invalid, true, "c1", "a", "b"), (None, None));
    assert_eq!(resulting_head("", "r-expected"), "r-expected");
    assert_eq!(resulting_head("r-current", "r-expected"), "r-current");
    let payload = json(&current_chapter_set_payload(&None, "c2", "s1"));
    assert_eq!(payload["kind"], "current_chapter_set");
    assert!(payload["prior_chapter_id"].is_null());
    assert_eq!(payload["current_chapter_id"], "c2");
    assert_eq!(payload["base_snapshot_id"], "s1");
}

#[test]
fn challenge_failures_answer_chapter_commands() {
    assert_eq!(
        set_current_chapter_challenge_error(ProjectCommandChallengeError::InvalidOrExpired),
        SetCurrentChapterError::InvalidChallenge
    );
    assert_eq!(
        update_chapter_challenge_error(ProjectCommandChallengeError::RateLimited { retry_after_seconds: 3 }),
        UpdateChapterError::Unavailable(UnavailableCause::Challenge(ProjectCommandChallengeError::RateLimited {
            retry_after_seconds: 3
        }))
    );
}

fn chapter(id: &str, title: &str, order: &str, parent: &str) -> ChapterRow {
    ChapterRow { id: id.to_owned(), title: title.to_owned(), tree_order: order.to_owned(), parent_volume_id: parent.to_owned() }
}

#[test]
fn chapter_placement_lists_siblings() {
    let rows = vec![
        chapter("a", "A", "1", "v1"),
        chapter("b", "B", "1", "v2"),
        chapter("c", "C", "2", "v2"),
    ];
    let placement = chapter_placement(&rows, "c").unwrap();
    assert_eq!(placement.chapter_join, ChapterJoin::ExactScope);
    assert_eq!(placement.current_title, "C");
    assert_eq!(placement.current_order, 2);
    assert_eq!(placement.parent_volume_id, "v2");
    assert_eq!(placement.ordered_ids, vec!["b".to_owned(), "c".to_owned()]);
    let missing = chapter_placement(&rows, "z").unwrap();
    assert_eq!(missing.chapter_join, ChapterJoin::Invalid);
    assert_eq!(missing.current_order, 1);
    let damaged = vec![chapter("a", "A", "one", "v1")];
    assert!(matches!(chapter_placement(&damaged, "a"), Err(UpdateChapterError::Unavailable(_))));
}

#[test]
fn update_chapter_receipts_and_replay() {
    let applied = chapter_effect(UpdateChapterResult::Applied { title: "T".to_owned(), order: 2, tree_revision: 9 }).unwrap();
    let outcome = update_chapter_outcome(&applied).unwrap();
    assert_eq!(outcome.result_kind, "authoritative_applied");
    assert_eq!(outcome.reason, None);
    let payload = chapter_updated_payload("c1", "T", 9, 2, "Chapter A", 1);
    let value = json(&payload);
    assert_eq!(value["tree_revision"], "9");
    assert_eq!(value["order"], "2");
    assert_eq!(value["prior_title"], "Chapter A");
    assert_eq!(value["prior_order"], "1");
    let replay = read_update_chapter_effect(
        "authoritative_applied",
        None,
        Some(value["tree_revision"].as_str().unwrap().to_owned()),
        Some(value["title"].as_str().unwrap().to_owned()),
        Some(value["order"].as_str().unwrap().to_owned()),
    );
    assert_eq!(replay, Ok(applied));
    let refused = UpdateChapterSettlementEffect::Refused { reason: UpdateChapterRefusal::InvalidOrder };
    assert_eq!(update_chapter_outcome(&refused).unwrap().reason.as_deref(), Some("invalid_order"));
    assert_eq!(read_update_chapter_effect("refused", Some("invalid_order"), None, None, None), Ok(refused));
    let noop = UpdateChapterSettlementEffect::NoEffect { reason: UpdateChapterNoEffect::Unchanged };
    assert_eq!(read_update_chapter_effect("no_effect", Some("unchanged"), None, None, None), Ok(noop));
    assert_eq!(
        chapter_effect(UpdateChapterResult::Refused { reason: UpdateChapterRefusal::MissingProject }),
        Err(UpdateChapterError::MissingProject)
    );
}

#[test]
fn update_chapter_conflict_replays_as_the_conflict() {
    let conflicted = UpdateChapterSettlementEffect::Conflicted { reason: UpdateChapterConflict::StaleTreeRevision };
    let outcome = update_chapter_outcome(&conflicted).unwrap();
    assert_eq!(outcome.reason.as_deref(), Some("stale_tree_revision"));
    assert_eq!(read_update_chapter_effect("conflicted", outcome.reason.as_deref(), None, None, None), Ok(conflicted));
    assert_eq!(
        read_update_chapter_effect("conflicted", Some("stale_chapter_revision"), None, None, None),
        Err(UpdateChapterError::BindingConflict)
    );
}

#[test]
fn update_chapter_damaged_counters() {
    assert!(matches!(
        read_update_chapter_effect("authoritative_applied", None, Some("x".to_owned()), Some("T".to_owned()), Some("1".to_owned())),
        Err(UpdateChapterError::Unavailable(_))
    ));
    assert_eq!(
        read_update_chapter_effect("authoritative_applied", None, Some("1".to_owned()), None, Some("1".to_owned())),
        Err(UpdateChapterError::BindingConflict)
    );
    let authority = read_update_chapter_authority(
        Some("commit".to_owned()),
        Some("4".to_owned()),
        Some("snap".to_owned()),
        Some("7".to_owned()),
        Some("8".to_owned()),
    )
    .unwrap()
    .unwrap();
    assert_eq!(authority.author_action_sequence, 4);
    assert_eq!(authority.resulting_manuscript_tree_revision, 8);
    assert_eq!(read_update_chapter_authority(None, None, None, None, None), Ok(None));
    assert!(read_update_chapter_authority(
        Some("commit".to_owned()),
        Some("x".to_owned()),
        Some("snap".to_owned()),
        Some("7".to_owned()),
        Some("8".to_owned())
    )
    .is_err());
}

fn volume(id: &str, title: &str, order: &str) -> VolumeRow {
    VolumeRow { id: id.to_owned(), title: title.to_owned(), tree_order: order.to_owned() }
}

#[test]
fn update_volume_placement_and_receipts() {
    let rows = vec![volume("v1", "One", "1"), volume("v2", "Two", "2")];
    let placement = volume_placement(&rows, "v2").unwrap();
    assert_eq!(placement.volume_join, VolumeJoin::ExactScope);
    assert_eq!(placement.current_order, 2);
    assert_eq!(placement.volume_count, 2);
    assert_eq!(placement.ordered_ids, vec!["v1".to_owned(), "v2".to_owned()]);
    assert_eq!(volume_placement(&rows, "v9").unwrap().volume_join, VolumeJoin::Invalid);
    let conflicted = volume_effect(UpdateVolumeResult::Conflicted { reason: UpdateVolumeConflict::StaleVolumeRevision }).unwrap();
    assert_eq!(update_volume_outcome(&conflicted).unwrap().reason.as_deref(), Some("stale_volume_revision"));
    let refused = UpdateVolumeSettlementEffect::Refused { reason: UpdateVolumeRefusal::InvalidVolumeJoin };
    assert_eq!(update_volume_outcome(&refused).unwrap().reason.as_deref(), Some("invalid_volume_join"));
    assert_eq!(
        volume_effect(UpdateVolumeResult::Refused { reason: UpdateVolumeRefusal::MissingProject }),
        Err(UpdateVolumeError::MissingProject)
    );
    let value = json(&volume_updated_payload("v2", "Two", 3, 1, "Volume A", 2));
    assert_eq!(value["kind"], "volume_updated");
    assert_eq!(value["prior_title"], "Volume A");
    assert_eq!(value["prior_order"], "2");
    assert_eq!(value["volume_id"], "v2");
    assert_eq!(value["tree_revision"], "3");
}

#[test]
fn set_current_chapter_classification_input() {
    let row = CurrentChapterRow {
        lifecycle_state: "active".to_owned(),
        current_chapter_id: Some("c1".to_owned()),
        target_chapter_id: Some("c2".to_owned()),
        target_head_revision_id: None,
        expected_revision_id: Some("r5".to_owned()),
    };
    let input = set_current_chapter_input(Some(row), "c2", Some("c1".to_owned()), "r5").unwrap();
    assert_eq!(input.chapter_join, ChapterJoin::ExactScope);
    assert_eq!(input.current_lifecycle, ProjectLifecycle::Active);
    assert_eq!(input.current_target_revision_id, "");
    assert!(input.expected_revision_exists);
    assert_eq!(set_current_chapter_input(None, "c2", None, "r5"), Err(SetCurrentChapterError::MissingProject));
    let odd = CurrentChapterRow {
        lifecycle_state: "frozen".to_owned(),
        current_chapter_id: None,
        target_chapter_id: None,
        target_head_revision_id: None,
        expected_revision_id: None,
    };
    assert!(matches!(set_current_chapter_input(Some(odd), "c2", None, "r5"), Err(SetCurrentChapterError::Unavailable(_))));
}

#[test]
fn update_classification_inputs() {
    assert_eq!(update_chapter_project(Some(("archived".to_owned(), "4".to_owned()))), Ok((ProjectLifecycle::Archived, 4)));
    assert_eq!(update_chapter_project(None), Err(UpdateChapterError::MissingProject));
    assert!(matches!(update_chapter_project(Some(("active".to_owned(), "x".to_owned()))), Err(UpdateChapterError::Unavailable(_))));
    let rows = vec![chapter("a", "A", "1", "v1"), chapter("b", "B", "2", "v1")];
    let placement = chapter_placement(&rows, "b").unwrap();
    let input = update_chapter_input(ProjectLifecycle::Active, 4, &placement, 4, "New", 1);
    assert_eq!((input.current_order, input.order, input.chapter_count), (2, 1, 2));
    assert_eq!(input.current_title, "B");
    assert_eq!(update_volume_project(None), Err(UpdateVolumeError::MissingProject));
    let volumes = vec![volume("v1", "One", "1")];
    let placement = volume_placement(&volumes, "v1").unwrap();
    let input = update_volume_input(ProjectLifecycle::Archived, 2, &placement, 1, "Uno", 1);
    assert_eq!((input.volume_count, input.current_volume_revision, input.expected_volume_revision), (1, 2, 1));
}

#[test]
fn row_count_checks_of_chapter_commands() {
    assert_eq!(check_set_current_chapter_write(SetCurrentChapterWrite::ProjectUpdated, 1), Ok(()));
    assert_eq!(
        check_set_current_chapter_write(SetCurrentChapterWrite::ProjectUpdated, 0),
        Err(SetCurrentChapterError::Unavailable(UnavailableCause::Message("current Chapter changed under FOR UPDATE".to_owned())))
    );
    assert_eq!(check_set_current_chapter_write(SetCurrentChapterWrite::BaseSnapshotMoved, 2), Err(SetCurrentChapterError::BindingConflict));
    assert_eq!(check_set_current_chapter_write(SetCurrentChapterWrite::AdmissionInserted, 0), Err(SetCurrentChapterError::InvalidChallenge));
    assert_eq!(
        check_update_chapter_write(UpdateChapterWrite::TreeRevisionBumped, 0),
        Err(UpdateChapterError::Unavailable(UnavailableCause::Message("tree revision changed under FOR UPDATE".to_owned())))
    );
    assert_eq!(
        check_update_chapter_write(UpdateChapterWrite::ChapterUpdated, 0),
        Err(UpdateChapterError::Unavailable(UnavailableCause::Message("Chapter row changed under FOR UPDATE".to_owned())))
    );
    assert_eq!(check_update_chapter_write(UpdateChapterWrite::AdmissionInserted, 0), Err(UpdateChapterError::InvalidChallenge));
    assert_eq!(
        check_update_volume_write(UpdateVolumeWrite::VolumeUpdated, 3),
        Err(UpdateVolumeError::Unavailable(UnavailableCause::Message("Volume row changed under FOR UPDATE".to_owned())))
    );
    assert_eq!(check_update_volume_write(UpdateVolumeWrite::AdmissionInserted, 0), Err(UpdateVolumeError::InvalidChallenge));
    assert_eq!(check_update_volume_write(UpdateVolumeWrite::TreeRevisionBumped, 1), Ok(()));
}

fn ids() -> AuthorCommandAdmissionIds {
    AuthorCommandAdmissionIds { command_id: "cmd".to_owned(), author_command_admission_id: "adm".to_owned(), receipt_id: "rcpt".to_owned() }
}

fn receipt(kind: &str, reason: Option<&str>, chapter: Option<&str>, snapshot: Option<&str>, position: Option<&str>, event: Option<&str>, action: Option<&str>) -> CurrentChapterReceiptRow {
    let own = |t: Option<&str>| t.map(|v| v.to_owned());
    CurrentChapterReceiptRow {
        command_id: "cmd".to_owned(),
        author_command_admission_id: "adm".to_owned(),
        receipt_id: "rcpt".to_owned(),
        receipt_created_at: "2024-01-01T00:00:00.000Z".to_owned(),
        result_kind: kind.to_owned(),
        reason: own(reason),
        current_chapter_id: own(chapter),
        base_snapshot_id: own(snapshot),
        project_activity_position: own(position),
        project_activity_event_id: own(event),
        author_action_sequence: own(action),
        manuscript_tree_revision: action.map(|_| "4".to_owned()),
    }
}

#[test]
fn set_current_chapter_replay_answers_with_the_first_settlement() {
    let first = SetCurrentChapterSettlement {
        ids: ids(),
        effect: SetCurrentChapterSettlementEffect::Applied { current_chapter_id: "c2".to_owned(), base_snapshot_id: "s1".to_owned() },
        receipt_created_at: "2024-01-01T00:00:00.000Z".to_owned(),
        project_activity_position: 14,
        project_activity_event_id: "ev".to_owned(),
        authority: Some(CurrentChapterAuthority { author_action_sequence: 4, manuscript_tree_revision: 4, snapshot_id: "s1".to_owned() }),
    };
    let row = receipt("authoritative_applied", None, Some("c2"), Some("s1"), Some("14"), Some("ev"), Some("4"));
    assert_eq!(replayed_set_current_chapter_settlement(row), Ok(first));
    let stale = SetCurrentChapterSettlement {
        ids: ids(),
        effect: SetCurrentChapterSettlementEffect::Conflicted { reason: SetCurrentChapterConflict::StaleCurrentChapter },
        receipt_created_at: "2024-01-01T00:00:00.000Z".to_owned(),
        project_activity_position: 0,
        project_activity_event_id: String::new(),
        authority: None,
    };
    let row = receipt("conflicted", Some("stale_current_chapter"), None, None, None, None, None);
    assert_eq!(replayed_set_current_chapter_settlement(row), Ok(stale));
    let foreign = receipt("refused", Some("nope"), None, None, None, None, None);
    assert_eq!(replayed_set_current_chapter_settlement(foreign), Err(SetCurrentChapterError::BindingConflict));
    let damaged = receipt("authoritative_applied", None, Some("c2"), Some("s1"), Some("x"), Some("ev"), Some("4"));
    assert!(matches!(replayed_set_current_chapter_settlement(damaged), Err(SetCurrentChapterError::Unavailable(_))));
    let damaged = receipt("authoritative_applied", None, Some("c2"), Some("s1"), Some("14"), Some("ev"), Some("four"));
    assert!(matches!(replayed_set_current_chapter_settlement(damaged), Err(SetCurrentChapterError::Unavailable(_))));
}

fn transition() -> StructureTransitionSequences {
    StructureTransitionSequences {
        author_action_sequence: 4,
        authoritative_commit_sequence: 2,
        project_activity_position: 9,
        authoritative_commit_id: "commit".to_owned(),
        project_activity_event_id: "event".to_owned(),
        snapshot_id: "snap".to_owned(),
    }
}

#[test]
fn applied_update_chapter_settles_with_its_structural_authority() {
    let applied = UpdateChapterSettlementEffect::Applied { title: "Chapter B".to_owned(), order: 2, tree_revision: 5 };
    let settlement = first_use_update_chapter_settlement(ids(), applied.clone(), "t".to_owned(), Some(transition()), 4);
    assert_eq!(settlement.effect, applied);
    assert_eq!(settlement.project_activity_position, 9);
    assert_eq!(settlement.project_activity_event_id, "event");
    assert_eq!(
        settlement.authority,
        Some(UpdateChapterAuthority {
            authoritative_commit_id: "commit".to_owned(),
            author_action_sequence: 4,
            snapshot_id: "snap".to_owned(),
            prior_manuscript_tree_revision: 4,
            resulting_manuscript_tree_revision: 5,
        })
    );
    let unchanged = UpdateChapterSettlementEffect::NoEffect { reason: UpdateChapterNoEffect::Unchanged };
    let settlement = first_use_update_chapter_settlement(ids(), unchanged, "t".to_owned(), None, 4);
    assert_eq!(settlement.project_activity_position, 0);
    assert_eq!(settlement.project_activity_event_id, "");
    assert_eq!(settlement.authority, None);
}

#[test]
fn applied_update_volume_settles_with_its_structural_authority() {
    let applied = UpdateVolumeSettlementEffect::Applied { title: "Volume B".to_owned(), order: 2, tree_revision: 4 };
    let settlement = first_use_update_volume_settlement(ids(), applied, "t".to_owned(), Some(transition()), 3);
    assert_eq!(
        settlement.authority,
        Some(UpdateVolumeAuthority {
            authoritative_commit_id: "commit".to_owned(),
            author_action_sequence: 4,
            snapshot_id: "snap".to_owned(),
            prior_manuscript_tree_revision: 3,
            resulting_manuscript_tree_revision: 4,
        })
    );
    let stale = UpdateVolumeSettlementEffect::Conflicted { reason: UpdateVolumeConflict::StaleVolumeRevision };
    let settlement = first_use_update_volume_settlement(ids(), stale, "t".to_owned(), None, 3);
    assert_eq!(settlement.project_activity_position, 0);
    assert_eq!(settlement.authority, None);
}
