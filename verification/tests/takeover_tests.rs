use storyos_adapter_postgres::command::{AuthorCommandAdmissionIds, ProjectCommandChallengeError, UnavailableCause};
use storyos_adapter_postgres::command::StoreEvent;
use storyos_adapter_postgres::takeover::{
    begin_takeover, takeover_step, TakeoverAction, TakeoverStage,
    read_takeover_effect, replayed_takeover_settlement, require_single_row, takeover_activity_payload,
    takeover_challenge_error, takeover_generations, takeover_receipt_payload, takeover_settlement,
    TakeOverProjectWriterEffect, TakeOverProjectWriterError, WriterGenerations, takeover_applied, takeover_receipt_outcome,
};

fn ids() -> AuthorCommandAdmissionIds {
    AuthorCommandAdmissionIds {
        command_id: "cmd".to_owned(),
        author_command_admission_id: "adm".to_owned(),
        receipt_id: "rcpt".to_owned(),
    }
}

fn effect() -> TakeOverProjectWriterEffect {
    TakeOverProjectWriterEffect::TakeoverApplied {
        prior_editor_session_id: "s-old".to_owned(),
        prior_writer_generation: 4,
        resulting_editor_session_id: "s-new".to_owned(),
        resulting_writer_generation: 5,
        resulting_snapshot_id: "snap".to_owned(),
        resulting_snapshot_activity_position: 17,
    }
}

#[test]
fn takeover_advances_the_generation() {
    assert_eq!(
        takeover_generations(Some(("4".to_owned(), "s-old".to_owned())), 4, "s-new"),
        Ok(WriterGenerations { prior: 4, resulting: 5 })
    );
    assert_eq!(takeover_generations(None, 4, "s-new"), Err(TakeOverProjectWriterError::BindingConflict));
    assert_eq!(
        takeover_generations(Some(("3".to_owned(), "s-old".to_owned())), 4, "s-new"),
        Err(TakeOverProjectWriterError::BindingConflict)
    );
    assert_eq!(
        takeover_generations(Some(("4".to_owned(), "s-new".to_owned())), 4, "s-new"),
        Err(TakeOverProjectWriterError::BindingConflict)
    );
    assert_eq!(
        takeover_generations(Some(("18446744073709551615".to_owned(), "s-old".to_owned())), u64::MAX, "s-new"),
        Err(TakeOverProjectWriterError::BindingConflict)
    );
    assert!(matches!(
        takeover_generations(Some(("four".to_owned(), "s-old".to_owned())), 4, "s-new"),
        Err(TakeOverProjectWriterError::Unavailable(_))
    ));
}

#[test]
fn takeover_payload_reads_back_as_the_takeover() {
    let payload = takeover_activity_payload(&effect(), "head-1");
    let value: serde_json::Value = serde_json::from_str(&payload).unwrap();
    assert_eq!(value["kind"], "takeover_applied");
    assert_eq!(value["prior_writer_generation"], "4");
    assert_eq!(value["resulting_heads"], serde_json::Value::Array(vec!["head-1".into()]));
    assert_eq!(read_takeover_effect(&payload), Ok(effect()));
    let first = takeover_settlement(ids(), "2024-01-01T00:00:00.000Z".to_owned(), "head-1".to_owned(), effect());
    let replayed = replayed_takeover_settlement(
        ids(),
        "2024-01-01T00:00:00.000Z".to_owned(),
        "head-1".to_owned(),
        "head-1".to_owned(),
        "head-1".to_owned(),
        &payload,
    );
    assert_eq!(replayed, Ok(first));
}

#[test]
fn takeover_read_back_defects() {
    assert!(matches!(read_takeover_effect("not json"), Err(TakeOverProjectWriterError::Unavailable(_))));
    assert_eq!(
        read_takeover_effect(r#"{"prior_editor_session_id":"s"}"#),
        Err(TakeOverProjectWriterError::BindingConflict)
    );
    assert!(matches!(
        read_takeover_effect(r#"{"prior_editor_session_id":"s","prior_writer_generation":"x"}"#),
        Err(TakeOverProjectWriterError::Unavailable(_))
    ));
}

#[test]
fn takeover_receipt_and_checks() {
    let value: serde_json::Value = serde_json::from_str(&takeover_receipt_payload()).unwrap();
    assert_eq!(value["reason"], "writer_takeover_applied");
    assert_eq!(require_single_row(1), Ok(()));
    assert_eq!(require_single_row(0), Err(TakeOverProjectWriterError::BindingConflict));
    assert_eq!(
        takeover_challenge_error(ProjectCommandChallengeError::RateLimited { retry_after_seconds: 9 }),
        TakeOverProjectWriterError::InvalidChallenge
    );
    assert_eq!(
        takeover_challenge_error(ProjectCommandChallengeError::Unavailable("down".to_owned())),
        TakeOverProjectWriterError::Unavailable(UnavailableCause::Message("down".to_owned()))
    );
}

#[test]
fn takeover_effect_names_both_writers_and_the_new_snapshot() {
    let generations = takeover_generations(Some(("3".to_owned(), "old-session".to_owned())), 3, "new-session").unwrap();
    let effect = takeover_applied("old-session".to_owned(), generations, "new-session", "snap".to_owned(), 11);
    assert_eq!(
        effect,
        TakeOverProjectWriterEffect::TakeoverApplied {
            prior_editor_session_id: "old-session".to_owned(),
            prior_writer_generation: 3,
            resulting_editor_session_id: "new-session".to_owned(),
            resulting_writer_generation: 4,
            resulting_snapshot_id: "snap".to_owned(),
            resulting_snapshot_activity_position: 11,
        }
    );
}

#[test]
fn takeover_receipt_records_no_effect() {
    let outcome = takeover_receipt_outcome();
    assert_eq!(outcome.result_kind, "no_effect");
    assert_eq!(outcome.reason.as_deref(), Some("writer_takeover_applied"));
}

fn answer(values: &[&str]) -> StoreEvent {
    StoreEvent::Returned(values.iter().map(|v| v.to_string()).collect())
}

#[test]
fn takeover_steps_through_its_writes_and_settles() {
    let (state, action) = begin_takeover(ids(), "new-session", 3);
    assert_eq!(action, TakeoverAction::InsertAdmission);
    let (state, action) = takeover_step(state, StoreEvent::Rows(1));
    assert_eq!(action, TakeoverAction::ReadWriter);
    let (state, action) = takeover_step(state, answer(&["3", "old-session"]));
    assert_eq!(action, TakeoverAction::ReadHead);
    let (state, action) = takeover_step(state, answer(&["head-1"]));
    assert_eq!(action, TakeoverAction::InsertGeneration { writer_generation: 4, editor_session_id: "new-session".to_owned() });
    let (state, action) = takeover_step(state, StoreEvent::Rows(1));
    assert_eq!(action, TakeoverAction::AllocatePosition);
    let (state, action) = takeover_step(state, answer(&["11"]));
    let snapshot_id = match action {
        TakeoverAction::PersistSnapshot { snapshot_id, project_activity_position } => {
            assert_eq!(project_activity_position, 11);
            assert_eq!(snapshot_id.len(), 36);
            snapshot_id
        }
        other => panic!("unexpected {other:?}"),
    };
    let (state, action) = takeover_step(state, StoreEvent::Rows(1));
    match action {
        TakeoverAction::InsertReceipt { outcome, head, result_payload } => {
            assert_eq!(outcome.result_kind, "no_effect");
            assert_eq!(outcome.reason.as_deref(), Some("writer_takeover_applied"));
            assert_eq!(head, "head-1");
            let value: serde_json::Value = serde_json::from_str(&result_payload).unwrap();
            assert_eq!(value["reason"], "writer_takeover_applied");
        }
        other => panic!("unexpected {other:?}"),
    }
    let (state, action) = takeover_step(state, answer(&["2024-01-01T00:00:00.000Z"]));
    assert_eq!(action, TakeoverAction::InsertSettlement);
    let (state, action) = takeover_step(state, StoreEvent::Rows(1));
    match action {
        TakeoverAction::InsertActivity { project_activity_position, payload, .. } => {
            assert_eq!(project_activity_position, 11);
            let value: serde_json::Value = serde_json::from_str(&payload).unwrap();
            assert_eq!(value["kind"], "takeover_applied");
            assert_eq!(value["prior_editor_session_id"], "old-session");
            assert_eq!(value["resulting_writer_generation"], "4");
            assert_eq!(value["resulting_heads"][0], "head-1");
        }
        other => panic!("unexpected {other:?}"),
    }
    let (state, action) = takeover_step(state, StoreEvent::Rows(1));
    assert_eq!(action, TakeoverAction::SettleIdempotency);
    let (state, action) = takeover_step(state, StoreEvent::Rows(1));
    assert_eq!(state.stage, TakeoverStage::Done);
    match action {
        TakeoverAction::Settle(settlement) => {
            assert_eq!(settlement.receipt_created_at, "2024-01-01T00:00:00.000Z");
            assert_eq!(settlement.resulting_heads, vec!["head-1".to_owned()]);
            assert_eq!(
                settlement.effect,
                TakeOverProjectWriterEffect::TakeoverApplied {
                    prior_editor_session_id: "old-session".to_owned(),
                    prior_writer_generation: 3,
                    resulting_editor_session_id: "new-session".to_owned(),
                    resulting_writer_generation: 4,
                    resulting_snapshot_id: snapshot_id,
                    resulting_snapshot_activity_position: 11,
                }
            );
        }
        other => panic!("unexpected {other:?}"),
    }
}

#[test]
fn takeover_without_a_writer_row_is_a_binding_conflict() {
    let (state, _) = begin_takeover(ids(), "new-session", 3);
    let (state, _) = takeover_step(state, StoreEvent::Rows(1));
    let (done, action) = takeover_step(state.clone(), answer(&[]));
    assert_eq!(action, TakeoverAction::Fail(TakeOverProjectWriterError::BindingConflict));
    assert_eq!(done.stage, TakeoverStage::Done);
    let (_, action) = takeover_step(state, answer(&["3", "new-session"]));
    assert_eq!(action, TakeoverAction::Fail(TakeOverProjectWriterError::BindingConflict));
}
