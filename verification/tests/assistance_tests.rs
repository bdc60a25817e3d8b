use storyos_adapter_postgres::command::{AuthorCommandAdmissionIds, ProjectCommandChallengeError, StoreEvent};
use storyos_adapter_postgres::update_project_assistance::{
    admit_assistance_project, assistance_challenge_error, assistance_classification_input, assistance_record, assistance_updated_payload,
    availability_text, binding_presence, host_fake_binding_ids, parse_availability,
    read_update_project_assistance_effect, require_single_admission, settlement_effect,
    update_project_assistance_outcome, AssistanceAvailability, AssistanceBindingPresence,
    UpdateProjectAssistanceConflict, UpdateProjectAssistanceError, UpdateProjectAssistanceNoEffect,
    UpdateProjectAssistanceRefusal, UpdateProjectAssistanceResult, UpdateProjectAssistanceSettlementEffect,
    HOST_FAKE_MODEL_REGISTRATION_REVISION, begin_update_project_assistance, update_project_assistance_step,
    AssistanceAction, AssistanceStage,
};

fn replay(effect: UpdateProjectAssistanceSettlementEffect, expected_revision: u64) -> Result<UpdateProjectAssistanceSettlementEffect, UpdateProjectAssistanceError> {
    let outcome = update_project_assistance_outcome(&effect).unwrap();
    let (availability, revision) = match effect {
        UpdateProjectAssistanceSettlementEffect::Initialized { availability, revision }
        | UpdateProjectAssistanceSettlementEffect::Applied { availability, revision } => {
            let payload: serde_json::Value = serde_json::from_str(&assistance_updated_payload(availability, revision)).unwrap();
            (
                Some(payload["availability"].as_str().unwrap().to_owned()),
                Some(payload["revision"].as_str().unwrap().to_owned()),
            )
        }
        _ => (None, None),
    };
    read_update_project_assistance_effect(&outcome.result_kind, outcome.reason.as_deref(), availability, revision, expected_revision)
}

#[test]
fn availability_texts_round_trip() {
    assert_eq!(availability_text(AssistanceAvailability::Available), "available");
    assert_eq!(availability_text(AssistanceAvailability::Unavailable), "unavailable");
    assert_eq!(parse_availability("available"), Some(AssistanceAvailability::Available));
    assert_eq!(parse_availability("unavailable"), Some(AssistanceAvailability::Unavailable));
    assert_eq!(parse_availability("Available"), None);
}

#[test]
fn initialize_then_toggle_replays_each_settlement() {
    let first = settlement_effect(UpdateProjectAssistanceResult::Initialized {
        availability: AssistanceAvailability::Available,
        revision: 1,
    })
    .unwrap();
    assert_eq!(replay(first, 0), Ok(first));
    let same = UpdateProjectAssistanceSettlementEffect::NoEffect {
        reason: UpdateProjectAssistanceNoEffect::AvailabilityUnchanged,
    };
    assert_eq!(replay(same, 1), Ok(same));
    let stale = UpdateProjectAssistanceSettlementEffect::Conflicted {
        reason: UpdateProjectAssistanceConflict::StaleAssistanceRevision,
    };
    assert_eq!(replay(stale, 0), Ok(stale));
    let toggle = UpdateProjectAssistanceSettlementEffect::Applied {
        availability: AssistanceAvailability::Unavailable,
        revision: 2,
    };
    assert_eq!(replay(toggle, 1), Ok(toggle));
}

#[test]
fn receipt_outcomes_of_assistance() {
    let stale = UpdateProjectAssistanceSettlementEffect::Conflicted {
        reason: UpdateProjectAssistanceConflict::StaleAssistanceRevision,
    };
    let outcome = update_project_assistance_outcome(&stale).unwrap();
    assert_eq!(outcome.result_kind, "conflicted");
    assert_eq!(outcome.reason.as_deref(), Some("stale_assistance_revision"));
    let refused = UpdateProjectAssistanceSettlementEffect::Refused { reason: UpdateProjectAssistanceRefusal::MissingProject };
    assert_eq!(update_project_assistance_outcome(&refused), Err(UpdateProjectAssistanceError::BindingConflict));
    assert_eq!(
        settlement_effect(UpdateProjectAssistanceResult::Refused { reason: UpdateProjectAssistanceRefusal::MissingProject }),
        Err(UpdateProjectAssistanceError::MissingProject)
    );
}

#[test]
fn replay_of_damaged_or_foreign_receipts() {
    assert!(matches!(
        read_update_project_assistance_effect("authoritative_applied", None, Some("maybe".to_owned()), Some("1".to_owned()), 0),
        Err(UpdateProjectAssistanceError::Unavailable(_))
    ));
    assert_eq!(
        read_update_project_assistance_effect("authoritative_applied", None, None, Some("1".to_owned()), 0),
        Err(UpdateProjectAssistanceError::BindingConflict)
    );
    assert_eq!(
        read_update_project_assistance_effect("refused", Some("x"), None, None, 0),
        Err(UpdateProjectAssistanceError::BindingConflict)
    );
    assert_eq!(
        read_update_project_assistance_effect("authoritative_applied", None, Some("available".to_owned()), Some("1".to_owned()), 3),
        Ok(UpdateProjectAssistanceSettlementEffect::Applied { availability: AssistanceAvailability::Available, revision: 1 })
    );
}

#[test]
fn assistance_records_and_presence() {
    let record = assistance_record("unavailable", "2", HOST_FAKE_MODEL_REGISTRATION_REVISION.to_owned(), "id".to_owned(), "1", "b".to_owned(), "d".to_owned()).unwrap();
    assert_eq!(record.availability, AssistanceAvailability::Unavailable);
    assert_eq!(record.revision, 2);
    assert_eq!(record.processing_destination_identity_evidence_revision, 1);
    assert_eq!(
        binding_presence(&Some(record)),
        AssistanceBindingPresence::Initialized { availability: AssistanceAvailability::Unavailable, revision: 2 }
    );
    assert_eq!(binding_presence(&None), AssistanceBindingPresence::Uninitialized);
    assert!(assistance_record("available", "two", String::new(), String::new(), "1", String::new(), String::new()).is_none());
}

#[test]
fn assistance_command_checks() {
    assert_eq!(admit_assistance_project(None), Err(UpdateProjectAssistanceError::MissingProject));
    assert_eq!(admit_assistance_project(Some("archived")), Err(UpdateProjectAssistanceError::BindingConflict));
    assert_eq!(admit_assistance_project(Some("active")), Ok(()));
    assert_eq!(require_single_admission(0), Err(UpdateProjectAssistanceError::InvalidChallenge));
    assert_eq!(require_single_admission(1), Ok(()));
    assert_eq!(assistance_challenge_error(ProjectCommandChallengeError::BindingConflict), UpdateProjectAssistanceError::BindingConflict);
    let ids = host_fake_binding_ids();
    assert_eq!(ids.grant_id.len(), 36);
    assert_ne!(ids.grant_id, ids.processing_destination_identity);
}

#[test]
fn assistance_classification_input_reads_binding() {
    let input = assistance_classification_input(&None, 0, AssistanceAvailability::Available);
    assert_eq!(input.binding, AssistanceBindingPresence::Uninitialized);
    assert_eq!(input.requested, AssistanceAvailability::Available);
}

fn assistance_ids() -> AuthorCommandAdmissionIds {
    AuthorCommandAdmissionIds { command_id: "cmd".to_owned(), author_command_admission_id: "adm".to_owned(), receipt_id: "rcpt".to_owned() }
}

fn answer(text: &str) -> StoreEvent {
    StoreEvent::Returned(vec![text.to_owned()])
}

#[test]
fn initializing_assistance_writes_binding_policy_and_activity() {
    let effect = UpdateProjectAssistanceSettlementEffect::Initialized { availability: AssistanceAvailability::Available, revision: 1 };
    let (state, action) = begin_update_project_assistance(assistance_ids(), effect);
    assert_eq!(action, AssistanceAction::InsertAdmission);
    let (state, action) = update_project_assistance_step(state, StoreEvent::Rows(1));
    assert!(matches!(action, AssistanceAction::InsertReceipt { ref outcome } if outcome.result_kind == "authoritative_applied"));
    let (state, action) = update_project_assistance_step(state, answer("t"));
    assert_eq!(action, AssistanceAction::InsertSettlement);
    let (state, action) = update_project_assistance_step(state, StoreEvent::Rows(1));
    assert!(matches!(action, AssistanceAction::InitializeHostFakeBinding { ref ids } if ids.grant_id.len() == 36));
    let (state, action) = update_project_assistance_step(state, StoreEvent::Rows(1));
    assert_eq!(action, AssistanceAction::InsertPolicyRevision { availability: AssistanceAvailability::Available, revision: 1 });
    let (state, action) = update_project_assistance_step(state, StoreEvent::Rows(1));
    assert_eq!(action, AssistanceAction::AllocatePosition);
    let (state, action) = update_project_assistance_step(state, answer("7"));
    let event_id = match action {
        AssistanceAction::InsertActivity { project_activity_position, project_activity_event_id, payload } => {
            assert_eq!(project_activity_position, 7);
            let value: serde_json::Value = serde_json::from_str(&payload).unwrap();
            assert_eq!(value["kind"], "project_assistance_updated");
            assert_eq!(value["availability"], "available");
            assert_eq!(value["revision"], "1");
            project_activity_event_id
        }
        other => panic!("unexpected {other:?}"),
    };
    let (state, action) = update_project_assistance_step(state, StoreEvent::Rows(1));
    assert_eq!(action, AssistanceAction::SettleIdempotency);
    let (state, action) = update_project_assistance_step(state, StoreEvent::Rows(1));
    assert_eq!(state.stage, AssistanceStage::Done);
    match action {
        AssistanceAction::Settle(first) => {
            assert_eq!(first.effect, effect);
            assert_eq!(first.project_activity_position, 7);
            assert_eq!(first.project_activity_event_id, event_id);
            assert_eq!(first.receipt_created_at, "t");
        }
        other => panic!("unexpected {other:?}"),
    }
}

#[test]
fn refused_or_unchanged_assistance_writes_no_activity() {
    let refused = UpdateProjectAssistanceSettlementEffect::Refused { reason: UpdateProjectAssistanceRefusal::MissingProject };
    let (state, _) = begin_update_project_assistance(assistance_ids(), refused);
    let (_, action) = update_project_assistance_step(state, StoreEvent::Rows(1));
    assert_eq!(action, AssistanceAction::Fail(UpdateProjectAssistanceError::BindingConflict));
    let unchanged = UpdateProjectAssistanceSettlementEffect::NoEffect { reason: UpdateProjectAssistanceNoEffect::AvailabilityUnchanged };
    let (state, _) = begin_update_project_assistance(assistance_ids(), unchanged);
    let (state, _) = update_project_assistance_step(state, StoreEvent::Rows(1));
    let (state, _) = update_project_assistance_step(state, answer("t"));
    let (state, action) = update_project_assistance_step(state, StoreEvent::Rows(1));
    assert_eq!(action, AssistanceAction::SettleIdempotency);
    let (_, action) = update_project_assistance_step(state, StoreEvent::Rows(1));
    match action {
        AssistanceAction::Settle(first) => {
            assert_eq!(first.project_activity_position, 0);
            assert_eq!(first.project_activity_event_id, "");
        }
        other => panic!("unexpected {other:?}"),
    }
}
