use storyos_adapter_postgres::command::{AuthorCommandAdmissionIds, ChapterJoin, StoreEvent, UnavailableCause};
use storyos_adapter_postgres::set_current_chapter::{
    begin_set_current_chapter, set_current_chapter_step, CurrentChapterAction, CurrentChapterAuthority,
    CurrentChapterStage, CurrentChapterStep, SetCurrentChapterConflict, SetCurrentChapterError,
    SetCurrentChapterSettlementEffect,
};

fn step_ids() -> AuthorCommandAdmissionIds {
    AuthorCommandAdmissionIds { command_id: "cmd".to_owned(), author_command_admission_id: "adm".to_owned(), receipt_id: "rcpt".to_owned() }
}

fn begin(effect: SetCurrentChapterSettlementEffect) -> (CurrentChapterStep, CurrentChapterAction) {
    begin_set_current_chapter(
        step_ids(),
        effect,
        Some("chapter-a".to_owned()),
        ChapterJoin::ExactScope,
        true,
        "chapter-b",
        "rev-b",
        "rev-b",
        4,
    )
}

fn rows(n: u64) -> StoreEvent {
    StoreEvent::Rows(n)
}

fn returned(texts: &[&str]) -> StoreEvent {
    StoreEvent::Returned(texts.iter().map(|t| t.to_owned().to_owned()).collect())
}

#[test]
fn applied_switch_writes_a_forward_author_action_and_settles_with_its_authority() {
    let applied = SetCurrentChapterSettlementEffect::Applied {
        current_chapter_id: "chapter-b".to_owned(),
        base_snapshot_id: "snap".to_owned(),
    };
    let (state, action) = begin(applied.clone());
    assert_eq!(
        action,
        CurrentChapterAction::InsertAdmission { chapter_object_id: Some("chapter-b".to_owned()), expected_revision_id: Some("rev-b".to_owned()) }
    );
    let (state, action) = set_current_chapter_step(state, rows(1));
    match action {
        CurrentChapterAction::InsertReceipt { outcome, expected_head, resulting_head } => {
            assert_eq!(outcome.result_kind, "authoritative_applied");
            assert_eq!(outcome.reason, None);
            assert_eq!(expected_head, "rev-b");
            assert_eq!(resulting_head, "rev-b");
        }
        other => panic!("unexpected {other:?}"),
    }
    let (state, action) = set_current_chapter_step(state, returned(&["2024-01-01T00:00:00.000Z"]));
    assert_eq!(action, CurrentChapterAction::InsertSettlement);
    let (state, action) = set_current_chapter_step(state, rows(1));
    assert_eq!(
        action,
        CurrentChapterAction::UpdateProject { current_chapter_id: "chapter-b".to_owned(), expected_current_chapter_id: Some("chapter-a".to_owned()) }
    );
    let (state, action) = set_current_chapter_step(state, rows(1));
    assert_eq!(action, CurrentChapterAction::AllocateCounters);
    let (state, action) = set_current_chapter_step(state, returned(&["4", "12"]));
    assert_eq!(action, CurrentChapterAction::InsertForwardAuthorAction { author_action_sequence: 4 });
    let (state, action) = set_current_chapter_step(state, rows(1));
    assert_eq!(action, CurrentChapterAction::PersistSnapshot { snapshot_id: "snap".to_owned(), project_activity_position: 12 });
    let (state, action) = set_current_chapter_step(state, rows(1));
    assert_eq!(
        action,
        CurrentChapterAction::MoveBaseSnapshot {
            snapshot_id: "snap".to_owned(),
            chapter_id: "chapter-b".to_owned(),
            revision_id: "rev-b".to_owned(),
            project_activity_position: 12,
        }
    );
    let (state, action) = set_current_chapter_step(state, rows(1));
    let event_id = match action {
        CurrentChapterAction::InsertActivity { project_activity_position, project_activity_event_id, payload } => {
            assert_eq!(project_activity_position, 12);
            assert_eq!(project_activity_event_id.len(), 36);
            let value: serde_json::Value = serde_json::from_str(&payload).unwrap();
            assert_eq!(value["kind"], "current_chapter_set");
            assert_eq!(value["prior_chapter_id"], "chapter-a");
            assert_eq!(value["current_chapter_id"], "chapter-b");
            assert_eq!(value["base_snapshot_id"], "snap");
            project_activity_event_id
        }
        other => panic!("unexpected {other:?}"),
    };
    let (state, action) = set_current_chapter_step(state, rows(1));
    assert_eq!(action, CurrentChapterAction::SettleIdempotency);
    let (state, action) = set_current_chapter_step(state, rows(1));
    assert_eq!(state.stage, CurrentChapterStage::Done);
    match action {
        CurrentChapterAction::Settle(settlement) => {
            assert_eq!(settlement.ids, step_ids());
            assert_eq!(settlement.effect, applied);
            assert_eq!(settlement.receipt_created_at, "2024-01-01T00:00:00.000Z");
            assert_eq!(settlement.project_activity_position, 12);
            assert_eq!(settlement.project_activity_event_id, event_id);
            assert_eq!(
                settlement.authority,
                Some(CurrentChapterAuthority { author_action_sequence: 4, manuscript_tree_revision: 4, snapshot_id: "snap".to_owned() })
            );
        }
        other => panic!("unexpected {other:?}"),
    }
}

#[test]
fn a_conflicted_switch_settles_without_activity_or_authority() {
    let conflicted = SetCurrentChapterSettlementEffect::Conflicted { reason: SetCurrentChapterConflict::StaleCurrentChapter };
    let (state, _) = begin(conflicted.clone());
    let (state, action) = set_current_chapter_step(state, rows(1));
    match action {
        CurrentChapterAction::InsertReceipt { outcome, .. } => {
            assert_eq!(outcome.result_kind, "conflicted");
            assert_eq!(outcome.reason.as_deref(), Some("stale_current_chapter"));
        }
        other => panic!("unexpected {other:?}"),
    }
    let (state, _) = set_current_chapter_step(state, returned(&["t"]));
    let (state, action) = set_current_chapter_step(state, rows(1));
    assert_eq!(action, CurrentChapterAction::SettleIdempotency);
    let (_, action) = set_current_chapter_step(state, rows(1));
    match action {
        CurrentChapterAction::Settle(settlement) => {
            assert_eq!(settlement.effect, conflicted);
            assert_eq!(settlement.project_activity_position, 0);
            assert_eq!(settlement.project_activity_event_id, "");
            assert_eq!(settlement.authority, None);
        }
        other => panic!("unexpected {other:?}"),
    }
}

#[test]
fn a_switch_fails_on_the_row_counts_it_checks() {
    let applied = SetCurrentChapterSettlementEffect::Applied { current_chapter_id: "chapter-b".to_owned(), base_snapshot_id: "snap".to_owned() };
    let (state, _) = begin(applied.clone());
    let (failed, action) = set_current_chapter_step(state.clone(), rows(0));
    assert_eq!(action, CurrentChapterAction::Fail(SetCurrentChapterError::InvalidChallenge));
    assert_eq!(failed.stage, CurrentChapterStage::Done);
    let (state, _) = set_current_chapter_step(state, rows(1));
    let (state, _) = set_current_chapter_step(state, returned(&["t"]));
    let (state, _) = set_current_chapter_step(state, rows(1));
    let (_, action) = set_current_chapter_step(state.clone(), rows(0));
    assert_eq!(
        action,
        CurrentChapterAction::Fail(SetCurrentChapterError::Unavailable(UnavailableCause::Message(
            "current Chapter changed under FOR UPDATE".to_owned()
        )))
    );
    let (state, _) = set_current_chapter_step(state, rows(1));
    let (_, action) = set_current_chapter_step(state.clone(), returned(&["four", "12"]));
    assert!(matches!(action, CurrentChapterAction::Fail(SetCurrentChapterError::Unavailable(_))));
    let (state, _) = set_current_chapter_step(state, returned(&["4", "12"]));
    let (state, _) = set_current_chapter_step(state, rows(1));
    let (state, _) = set_current_chapter_step(state, rows(1));
    let (_, action) = set_current_chapter_step(state, rows(0));
    assert_eq!(action, CurrentChapterAction::Fail(SetCurrentChapterError::BindingConflict));
}
