use storyos_adapter_postgres::command::{AuthorCommandAdmissionIds, StoreEvent, UnavailableCause};
use storyos_adapter_postgres::structural_authority::{StructureAffectedIdentity, StructureCommitBinding};
use storyos_adapter_postgres::update_chapter::{
    begin_update_chapter, update_chapter_step, UpdateChapterAction, UpdateChapterAuthority, UpdateChapterError,
    UpdateChapterNoEffect, UpdateChapterSettlementEffect, UpdateChapterStage,
};
use storyos_adapter_postgres::update_volume::{
    begin_update_volume, update_volume_step, UpdateVolumeAction, UpdateVolumeAuthority, UpdateVolumeSettlementEffect,
};

fn admission_ids() -> AuthorCommandAdmissionIds {
    AuthorCommandAdmissionIds { command_id: "cmd".to_owned(), author_command_admission_id: "adm".to_owned(), receipt_id: "rcpt".to_owned() }
}

fn texts(values: &[&str]) -> StoreEvent {
    StoreEvent::Returned(values.iter().map(|v| v.to_string()).collect())
}

#[test]
fn applied_update_chapter_moves_writes_authority_and_records_prior_values() {
    let applied = UpdateChapterSettlementEffect::Applied { title: "Chapter B".to_owned(), order: 2, tree_revision: 5 };
    let siblings = vec!["a".to_owned(), "b".to_owned()];
    let (state, action) = begin_update_chapter(admission_ids(), applied.clone(), "a", "v", &siblings, "Chapter A", 1, 4);
    assert_eq!(action, UpdateChapterAction::InsertAdmission);
    let (state, action) = update_chapter_step(state, StoreEvent::Rows(1));
    assert!(matches!(action, UpdateChapterAction::InsertReceipt { ref outcome } if outcome.result_kind == "authoritative_applied"));
    let (state, action) = update_chapter_step(state, texts(&["2024-01-01T00:00:00.000Z"]));
    assert_eq!(action, UpdateChapterAction::InsertSettlement);
    let (state, action) = update_chapter_step(state, StoreEvent::Rows(1));
    assert_eq!(action, UpdateChapterAction::UpdateTitle { chapter_id: "a".to_owned(), title: "Chapter B".to_owned() });
    let (state, action) = update_chapter_step(state, StoreEvent::Rows(1));
    assert_eq!(
        action,
        UpdateChapterAction::RewriteRanks { parent_volume_id: "v".to_owned(), ranks: vec![("b".to_owned(), 1), ("a".to_owned(), 2)] }
    );
    let (state, action) = update_chapter_step(state, StoreEvent::Rows(2));
    assert_eq!(action, UpdateChapterAction::BumpTreeRevision { tree_revision: 5, expected_tree_revision: 4 });
    let (state, action) = update_chapter_step(state, StoreEvent::Rows(1));
    assert_eq!(action, UpdateChapterAction::AllocateCounters);
    let (state, action) = update_chapter_step(state, texts(&["4", "3", "11"]));
    let commit_id = match action {
        UpdateChapterAction::InsertCommit { sequences, binding } => {
            assert_eq!(sequences.author_action_sequence, 4);
            assert_eq!(sequences.authoritative_commit_sequence, 3);
            assert_eq!(sequences.project_activity_position, 11);
            assert_eq!(
                binding,
                StructureCommitBinding {
                    prior_manuscript_tree_revision: 4,
                    resulting_manuscript_tree_revision: 5,
                    identity: StructureAffectedIdentity::Chapter { chapter_id: "a".to_owned() },
                }
            );
            sequences.authoritative_commit_id
        }
        other => panic!("unexpected {other:?}"),
    };
    let (state, action) = update_chapter_step(state, StoreEvent::Rows(1));
    assert_eq!(action, UpdateChapterAction::InsertForwardAuthorAction { author_action_sequence: 4, authoritative_commit_id: commit_id.clone() });
    let (state, action) = update_chapter_step(state, StoreEvent::Rows(1));
    let snapshot_id = match action {
        UpdateChapterAction::PersistSnapshot { snapshot_id, project_activity_position } => {
            assert_eq!(project_activity_position, 11);
            snapshot_id
        }
        other => panic!("unexpected {other:?}"),
    };
    let (state, action) = update_chapter_step(state, StoreEvent::Rows(1));
    match action {
        UpdateChapterAction::InsertActivity { project_activity_position, payload, .. } => {
            assert_eq!(project_activity_position, 11);
            let value: serde_json::Value = serde_json::from_str(&payload).unwrap();
            assert_eq!(value["kind"], "chapter_updated");
            assert_eq!(value["title"], "Chapter B");
            assert_eq!(value["order"], "2");
            assert_eq!(value["tree_revision"], "5");
            assert_eq!(value["prior_title"], "Chapter A");
            assert_eq!(value["prior_order"], "1");
        }
        other => panic!("unexpected {other:?}"),
    }
    let (state, action) = update_chapter_step(state, StoreEvent::Rows(1));
    assert_eq!(action, UpdateChapterAction::SettleIdempotency);
    let (state, action) = update_chapter_step(state, StoreEvent::Rows(1));
    assert_eq!(state.stage, UpdateChapterStage::Done);
    match action {
        UpdateChapterAction::Settle(settlement) => {
            assert_eq!(settlement.effect, applied);
            assert_eq!(settlement.project_activity_position, 11);
            assert_eq!(
                settlement.authority,
                Some(UpdateChapterAuthority {
                    authoritative_commit_id: commit_id,
                    author_action_sequence: 4,
                    snapshot_id,
                    prior_manuscript_tree_revision: 4,
                    resulting_manuscript_tree_revision: 5,
                })
            );
        }
        other => panic!("unexpected {other:?}"),
    }
}

#[test]
fn unchanged_update_chapter_settles_without_writes() {
    let unchanged = UpdateChapterSettlementEffect::NoEffect { reason: UpdateChapterNoEffect::Unchanged };
    let siblings = vec!["a".to_owned()];
    let (state, _) = begin_update_chapter(admission_ids(), unchanged, "a", "v", &siblings, "Chapter A", 1, 4);
    let (state, _) = update_chapter_step(state, StoreEvent::Rows(1));
    let (state, _) = update_chapter_step(state, texts(&["t"]));
    let (state, action) = update_chapter_step(state, StoreEvent::Rows(1));
    assert_eq!(action, UpdateChapterAction::SettleIdempotency);
    let (_, action) = update_chapter_step(state, StoreEvent::Rows(1));
    match action {
        UpdateChapterAction::Settle(settlement) => {
            assert_eq!(settlement.project_activity_position, 0);
            assert_eq!(settlement.project_activity_event_id, "");
            assert_eq!(settlement.authority, None);
        }
        other => panic!("unexpected {other:?}"),
    }
}

#[test]
fn update_chapter_fails_when_the_tree_revision_moved() {
    let applied = UpdateChapterSettlementEffect::Applied { title: "T".to_owned(), order: 1, tree_revision: 5 };
    let siblings = vec!["a".to_owned()];
    let (state, _) = begin_update_chapter(admission_ids(), applied, "a", "v", &siblings, "T0", 1, 4);
    let (state, _) = update_chapter_step(state, StoreEvent::Rows(1));
    let (state, _) = update_chapter_step(state, texts(&["t"]));
    let (state, _) = update_chapter_step(state, StoreEvent::Rows(1));
    let (state, action) = update_chapter_step(state, StoreEvent::Rows(1));
    assert_eq!(action, UpdateChapterAction::BumpTreeRevision { tree_revision: 5, expected_tree_revision: 4 });
    let (_, action) = update_chapter_step(state, StoreEvent::Rows(0));
    assert_eq!(
        action,
        UpdateChapterAction::Fail(UpdateChapterError::Unavailable(UnavailableCause::Message(
            "tree revision changed under FOR UPDATE".to_owned()
        )))
    );
}

#[test]
fn applied_update_volume_writes_its_commit_and_settles_with_authority() {
    let applied = UpdateVolumeSettlementEffect::Applied { title: "Volume B".to_owned(), order: 2, tree_revision: 4 };
    let volumes = vec!["va".to_owned(), "vb".to_owned()];
    let (state, _) = begin_update_volume(admission_ids(), applied, "va", &volumes, "Volume A", 1, 3);
    let (state, _) = update_volume_step(state, StoreEvent::Rows(1));
    let (state, _) = update_volume_step(state, texts(&["t"]));
    let (state, action) = update_volume_step(state, StoreEvent::Rows(1));
    assert_eq!(action, UpdateVolumeAction::UpdateTitle { volume_id: "va".to_owned(), title: "Volume B".to_owned() });
    let (state, action) = update_volume_step(state, StoreEvent::Rows(1));
    assert_eq!(action, UpdateVolumeAction::RewriteRanks { ranks: vec![("vb".to_owned(), 1), ("va".to_owned(), 2)] });
    let (state, _) = update_volume_step(state, StoreEvent::Rows(2));
    let (state, _) = update_volume_step(state, StoreEvent::Rows(1));
    let (state, action) = update_volume_step(state, texts(&["3", "2", "7"]));
    let binding = match action {
        UpdateVolumeAction::InsertCommit { binding, .. } => binding,
        other => panic!("unexpected {other:?}"),
    };
    assert_eq!(binding.identity, StructureAffectedIdentity::Volume { volume_id: "va".to_owned() });
    let (state, _) = update_volume_step(state, StoreEvent::Rows(1));
    let (state, _) = update_volume_step(state, StoreEvent::Rows(1));
    let (state, action) = update_volume_step(state, StoreEvent::Rows(1));
    match action {
        UpdateVolumeAction::InsertActivity { payload, .. } => {
            let value: serde_json::Value = serde_json::from_str(&payload).unwrap();
            assert_eq!(value["kind"], "volume_updated");
            assert_eq!(value["prior_title"], "Volume A");
            assert_eq!(value["prior_order"], "1");
        }
        other => panic!("unexpected {other:?}"),
    }
    let (state, _) = update_volume_step(state, StoreEvent::Rows(1));
    let (_, action) = update_volume_step(state, StoreEvent::Rows(1));
    match action {
        UpdateVolumeAction::Settle(settlement) => {
            let authority: UpdateVolumeAuthority = settlement.authority.unwrap();
            assert_eq!(authority.author_action_sequence, 3);
            assert_eq!(authority.prior_manuscript_tree_revision, 3);
            assert_eq!(authority.resulting_manuscript_tree_revision, 4);
        }
        other => panic!("unexpected {other:?}"),
    }
}
