use storyos_adapter_postgres::command::ProjectCommandChallengeError;
use storyos_adapter_postgres::digest::hex_sha256;
use storyos_adapter_postgres::structural_authority::StructureAffectedIdentity;
use storyos_adapter_postgres::undo::{
    admit_undo_project, check_undo_write, current_chapter_compensation, ObservedCurrentChapterFrontier, draft_close_kind, draft_reopen_frontier, draft_reopen_receipt_payload, observed_frontier, prose_compensation,
    prose_compensation_sequences, read_undo_effect, replayed_activity_position, route_undo,
    structure_compensation_binding, undo_admission_targets, undo_challenge_error, undo_classification_input,
    undo_from_session, AuthorUndoFrontierKind, DraftCloseRow, EditorSessionError, FrontierRow,
    ObservedFrontier, ObservedProseFrontier, ObservedStructureFrontier, ObservedStructureIdentity,
    UndoLatestAuthorActionConflict, UndoLatestAuthorActionError, UndoLatestAuthorActionResult,
    UndoLatestAuthorActionSettlementEffect, UndoLatestAuthorActionUnavailable, UndoRoute, UndoWrite,
    current_chapter_compensated_effect, prose_compensated_effect, restored_sibling_ranks, structure_compensated_effect,
    structure_restore, StructureRestore, begin_undo_compensation, undo_compensation_step, UndoAction, UndoCompensationTarget, UndoStage,
};
use storyos_adapter_postgres::command::{AuthorCommandAdmissionIds, StoreEvent};
use storyos_adapter_postgres::structural_authority::{CurrentChapterSequences, StructureTransitionSequences};

fn s(text: &str) -> Option<String> {
    Some(text.to_owned())
}

fn empty_row(sequence: Option<String>) -> FrontierRow {
    FrontierRow {
        author_action_sequence: sequence,
        manuscript_object_id: None,
        resulting_revision_id: None,
        prior_revision_id: None,
        prior_payload: None,
        current_head_revision_id: None,
        prior_manuscript_tree_revision: None,
        resulting_manuscript_tree_revision: None,
        affected_volume_id: None,
        affected_chapter_id: None,
        command_kind: None,
        prior_title: None,
        prior_order: None,
        prior_current_chapter_id: None,
        current_chapter_id: None,
    }
}

fn prose() -> ObservedProseFrontier {
    ObservedProseFrontier {
        sequence: 4,
        chapter_id: "c1".to_owned(),
        resulting_revision_id: "r2".to_owned(),
        prior_revision_id: "r1".to_owned(),
        prior_payload: "{\"body\":\"old\"}".to_owned(),
        current_head_revision_id: "r2".to_owned(),
    }
}

#[test]
fn frontier_without_sequence_is_absent() {
    assert_eq!(observed_frontier(empty_row(None)), Ok(None));
    assert!(matches!(observed_frontier(empty_row(s("x"))), Err(UndoLatestAuthorActionError::Unavailable(_))));
    assert_eq!(observed_frontier(empty_row(s("9"))), Ok(Some(ObservedFrontier::Barrier { sequence: 9 })));
}

#[test]
fn prose_frontier() {
    let mut row = empty_row(s("4"));
    row.manuscript_object_id = s("c1");
    row.resulting_revision_id = s("r2");
    row.prior_revision_id = s("r1");
    row.prior_payload = s("{\"body\":\"old\"}");
    row.current_head_revision_id = s("r2");
    assert_eq!(observed_frontier(row), Ok(Some(ObservedFrontier::Prose(prose()))));
}

#[test]
fn structural_frontiers() {
    let mut volume = empty_row(s("5"));
    volume.prior_manuscript_tree_revision = s("2");
    volume.resulting_manuscript_tree_revision = s("3");
    volume.affected_volume_id = s("v1");
    volume.command_kind = s("createVolume");
    assert_eq!(
        observed_frontier(volume),
        Ok(Some(ObservedFrontier::Structure(ObservedStructureFrontier {
            sequence: 5,
            prior_manuscript_tree_revision: 2,
            resulting_manuscript_tree_revision: 3,
            identity: ObservedStructureIdentity::Volume { volume_id: "v1".to_owned() },
        })))
    );
    let mut update = empty_row(s("6"));
    update.prior_manuscript_tree_revision = s("3");
    update.resulting_manuscript_tree_revision = s("4");
    update.affected_chapter_id = s("c1");
    update.command_kind = s("updateChapter");
    update.prior_title = s("Old");
    update.prior_order = s("2");
    match observed_frontier(update) {
        Ok(Some(ObservedFrontier::Structure(f))) => assert_eq!(
            f.identity,
            ObservedStructureIdentity::ChapterUpdate { chapter_id: "c1".to_owned(), prior_title: "Old".to_owned(), prior_order: 2 }
        ),
        other => panic!("unexpected {other:?}"),
    }
    let mut delete = empty_row(s("7"));
    delete.prior_manuscript_tree_revision = s("3");
    delete.resulting_manuscript_tree_revision = s("4");
    delete.affected_chapter_id = s("c1");
    delete.command_kind = s("deleteChapter");
    delete.prior_current_chapter_id = s("c1");
    match observed_frontier(delete) {
        Ok(Some(ObservedFrontier::Structure(f))) => assert_eq!(
            f.identity,
            ObservedStructureIdentity::ChapterDelete { chapter_id: "c1".to_owned(), prior_current_chapter_id: s("c1") }
        ),
        other => panic!("unexpected {other:?}"),
    }
    let mut created = empty_row(s("8"));
    created.manuscript_object_id = s("c9");
    created.resulting_revision_id = s("r0");
    created.current_head_revision_id = s("r0");
    created.prior_manuscript_tree_revision = s("1");
    created.resulting_manuscript_tree_revision = s("2");
    created.affected_chapter_id = s("c9");
    match observed_frontier(created) {
        Ok(Some(ObservedFrontier::Structure(f))) => {
            assert_eq!(f.identity, ObservedStructureIdentity::Chapter { chapter_id: "c9".to_owned() })
        }
        other => panic!("unexpected {other:?}"),
    }
    let mut damaged = empty_row(s("5"));
    damaged.prior_manuscript_tree_revision = s("two");
    damaged.resulting_manuscript_tree_revision = s("3");
    damaged.affected_volume_id = s("v1");
    damaged.command_kind = s("createVolume");
    assert!(matches!(observed_frontier(damaged), Err(UndoLatestAuthorActionError::Unavailable(_))));
    let mut unknown = empty_row(s("5"));
    unknown.prior_manuscript_tree_revision = s("2");
    unknown.resulting_manuscript_tree_revision = s("3");
    unknown.affected_volume_id = s("v1");
    unknown.command_kind = s("archiveProject");
    assert_eq!(observed_frontier(unknown), Ok(Some(ObservedFrontier::Barrier { sequence: 5 })));
}

#[test]
fn frontier_accessors_and_classification_input() {
    let frontier = ObservedFrontier::Prose(prose());
    assert_eq!(frontier.sequence(), 4);
    assert_eq!(frontier.kind(), AuthorUndoFrontierKind::ReversibleDirectAuthorAction { resulting_revision_id: "r2".to_owned() });
    assert_eq!(frontier.prose_head(), Some("r2"));
    assert_eq!(ObservedFrontier::Barrier { sequence: 2 }.prose_head(), None);
    let input = undo_classification_input(4, &Some(frontier.clone()), "r2");
    assert_eq!(input.current_head_revision_id, "r2");
    assert_eq!(input.current_author_undo_frontier.unwrap().sequence, 4);
    let none = undo_classification_input(4, &None, "r2");
    assert_eq!(none.current_head_revision_id, "");
    assert_eq!(undo_admission_targets(&Some(frontier)), (s("c1"), s("r2")));
    assert_eq!(undo_admission_targets(&None), (None, None));
}

#[test]
fn routing_and_zero_authority_replay() {
    let frontier = Some(ObservedFrontier::Prose(prose()));
    assert_eq!(
        route_undo(UndoLatestAuthorActionResult::Compensated { source_sequence: 4 }, &frontier, "r9"),
        Ok(UndoRoute::Compensate { source_sequence: 4 })
    );
    assert_eq!(
        route_undo(UndoLatestAuthorActionResult::Compensated { source_sequence: 4 }, &None, "r9"),
        Err(UndoLatestAuthorActionError::BindingConflict)
    );
    let mismatch = UndoLatestAuthorActionResult::Conflicted {
        reason: UndoLatestAuthorActionConflict::FrontierMismatch { current_author_undo_frontier_sequence: Some(4) },
    };
    match route_undo(mismatch, &frontier, "r9").unwrap() {
        UndoRoute::ZeroAuthority { outcome, head, effect } => {
            assert_eq!(outcome.result_kind, "conflicted");
            assert_eq!(outcome.reason.as_deref(), Some("frontier_mismatch"));
            assert_eq!(head, "r2");
            let replay = read_undo_effect(&outcome.result_kind, outcome.reason.as_deref(), None, None, None, None, None, None, Some(4));
            assert_eq!(replay, Ok(effect));
        }
        other => panic!("unexpected {other:?}"),
    }
    match route_undo(UndoLatestAuthorActionResult::Unavailable { reason: UndoLatestAuthorActionUnavailable::NoFrontier }, &None, "r9").unwrap() {
        UndoRoute::ZeroAuthority { outcome, head, effect } => {
            assert_eq!(outcome.reason.as_deref(), Some("no_frontier"));
            assert_eq!(head, "r9");
            assert_eq!(
                effect,
                UndoLatestAuthorActionSettlementEffect::Unavailable { reason: UndoLatestAuthorActionUnavailable::NoFrontier }
            );
        }
        other => panic!("unexpected {other:?}"),
    }
}

#[test]
fn compensated_receipts_read_back() {
    let effect = read_undo_effect(
        "authoritative_applied",
        None,
        s("4"),
        s("11"),
        s("commit"),
        s("r3"),
        s("{}"),
        s("c1"),
        None,
    );
    assert_eq!(
        effect,
        Ok(UndoLatestAuthorActionSettlementEffect::Compensated {
            source_sequence: 4,
            author_action_sequence: 11,
            authoritative_commit_id: "commit".to_owned(),
            revision_id: "r3".to_owned(),
            author_undo_frontier_sequence: None,
        })
    );
    assert_eq!(
        read_undo_effect("authoritative_applied", None, s("4"), s("11"), s("commit"), None, s("{}"), s("c1"), None),
        Err(UndoLatestAuthorActionError::BindingConflict)
    );
    assert!(matches!(
        read_undo_effect("authoritative_applied", None, s("four"), s("11"), s("commit"), s("r3"), s("{}"), s("c1"), None),
        Err(UndoLatestAuthorActionError::Unavailable(_))
    ));
    assert_eq!(
        read_undo_effect("refused", Some("barrier"), None, None, None, None, None, None, None),
        Ok(UndoLatestAuthorActionSettlementEffect::Unavailable { reason: UndoLatestAuthorActionUnavailable::Barrier })
    );
    assert_eq!(
        read_undo_effect("refused", Some("other"), None, None, None, None, None, None, None),
        Err(UndoLatestAuthorActionError::BindingConflict)
    );
    assert_eq!(replayed_activity_position(None), Ok(0));
    assert_eq!(replayed_activity_position(s("5")), Ok(5));
}

#[test]
fn structural_compensation_runs_backwards() {
    let frontier = ObservedStructureFrontier {
        sequence: 5,
        prior_manuscript_tree_revision: 2,
        resulting_manuscript_tree_revision: 3,
        identity: ObservedStructureIdentity::VolumeUpdate { volume_id: "v1".to_owned(), prior_title: "Old".to_owned(), prior_order: 1 },
    };
    let binding = structure_compensation_binding(&frontier);
    assert_eq!(binding.prior_manuscript_tree_revision, 3);
    assert_eq!(binding.resulting_manuscript_tree_revision, 2);
    assert_eq!(binding.identity, StructureAffectedIdentity::Volume { volume_id: "v1".to_owned() });
}

#[test]
fn prose_compensation_restores_prior_payload() {
    let compensation = prose_compensation(&prose(), "r3");
    assert_eq!(compensation.restored_payload, "{\"body\":\"old\"}");
    assert_eq!(compensation.parent_revision_id, "r2");
    assert_eq!(compensation.receipt_prior_head, "r2");
    assert_eq!(compensation.receipt_resulting_head, "r3");
    let sequences = prose_compensation_sequences("11", "6", "30").unwrap();
    assert_eq!((sequences.author_action_sequence, sequences.authoritative_commit_sequence, sequences.project_activity_position), (11, 6, 30));
    assert_eq!(sequences.revision_id.len(), 36);
    assert!(prose_compensation_sequences("11", "x", "30").is_err());
}

#[test]
fn undo_checks_and_errors() {
    assert_eq!(admit_undo_project(None), Err(UndoLatestAuthorActionError::MissingProject));
    assert_eq!(admit_undo_project(Some("archived")), Err(UndoLatestAuthorActionError::BindingConflict));
    assert_eq!(check_undo_write(UndoWrite::MembersCopied, 3), Ok(()));
    assert!(matches!(check_undo_write(UndoWrite::MembersCopied, 0), Err(UndoLatestAuthorActionError::Unavailable(_))));
    assert_eq!(check_undo_write(UndoWrite::HeadAdvanced, 0), Err(UndoLatestAuthorActionError::BindingConflict));
    assert!(matches!(check_undo_write(UndoWrite::TreeRestored, 2), Err(UndoLatestAuthorActionError::Unavailable(_))));
    assert_eq!(check_undo_write(UndoWrite::CurrentChapterRestored, 1), Ok(()));
    assert_eq!(undo_challenge_error(ProjectCommandChallengeError::RateLimited { retry_after_seconds: 1 }), UndoLatestAuthorActionError::InvalidChallenge);
    assert_eq!(undo_from_session(EditorSessionError::InvalidChallenge), UndoLatestAuthorActionError::BindingConflict);
}

#[test]
fn draft_close_frontier_kinds() {
    let canonical = "{\"body\":\"draft\"}";
    let digest = hex_sha256(canonical);
    let row = DraftCloseRow {
        revision_id: "d1".to_owned(),
        digest: digest.clone(),
        close_event_id: "close".to_owned(),
        draft_current_revision_id: "d1".to_owned(),
        current_payload_digest: digest.clone(),
        closure: "closed".to_owned(),
        retention_state: "retained".to_owned(),
        draft_close_event_id: s("close"),
    };
    assert_eq!(draft_close_kind(&row, canonical), AuthorUndoFrontierKind::ReversibleDraftClose);
    assert_eq!(draft_close_kind(&row, "{}"), AuthorUndoFrontierKind::DraftBindingChanged);
    let reopened = DraftCloseRow { closure: "open".to_owned(), ..row };
    assert_eq!(draft_close_kind(&reopened, canonical), AuthorUndoFrontierKind::DraftBindingChanged);
    let purged = DraftCloseRow { retention_state: "purged".to_owned(), ..reopened };
    assert_eq!(draft_close_kind(&purged, canonical), AuthorUndoFrontierKind::DraftSourceUnavailable);
}

#[test]
fn draft_reopen_payload_and_frontier() {
    let value: serde_json::Value = serde_json::from_str(&draft_reopen_receipt_payload("ev", "hr", &None)).unwrap();
    assert_eq!(value["event_id"], "ev");
    assert_eq!(value["handler_receipt_id"], "hr");
    assert!(value["author_undo_frontier_sequence"].is_null());
    let value: serde_json::Value = serde_json::from_str(&draft_reopen_receipt_payload("ev", "hr", &s("12"))).unwrap();
    assert_eq!(value["author_undo_frontier_sequence"], "12");
    assert_eq!(draft_reopen_frontier(None), Ok(None));
    assert_eq!(draft_reopen_frontier(s("12")), Ok(Some(12)));
    assert!(draft_reopen_frontier(s("x")).is_err());
}

#[test]
fn current_chapter_compensation_switches_back() {
    let frontier = ObservedCurrentChapterFrontier {
        sequence: 3,
        prior_chapter_id: "c1".to_owned(),
        resulting_chapter_id: "c2".to_owned(),
    };
    assert_eq!(current_chapter_compensation(&frontier), ("c2".to_owned(), "c1".to_owned()));
}

#[test]
fn current_chapter_switch_is_an_undo_frontier() {
    let mut row = empty_row(s("6"));
    row.command_kind = s("setCurrentChapter");
    row.prior_current_chapter_id = s("chapter-a");
    row.current_chapter_id = s("chapter-b");
    let observed = observed_frontier(row).unwrap().unwrap();
    let ObservedFrontier::CurrentChapter(frontier) = observed.clone() else {
        panic!("a switch is a Current Chapter frontier");
    };
    assert_eq!(
        frontier,
        ObservedCurrentChapterFrontier { sequence: 6, prior_chapter_id: "chapter-a".to_owned(), resulting_chapter_id: "chapter-b".to_owned() }
    );
    assert_eq!(observed.sequence(), 6);
    assert_eq!(observed.kind(), AuthorUndoFrontierKind::ReversibleStructureTransition);
    assert_eq!(current_chapter_compensation(&frontier), ("chapter-b".to_owned(), "chapter-a".to_owned()));
    let mut without_current = empty_row(s("6"));
    without_current.command_kind = s("setCurrentChapter");
    without_current.prior_current_chapter_id = s("chapter-a");
    assert_eq!(observed_frontier(without_current), Ok(Some(ObservedFrontier::Barrier { sequence: 6 })));
}

#[test]
fn deleted_volume_is_an_undo_frontier() {
    let mut row = empty_row(s("5"));
    row.command_kind = s("deleteVolume");
    row.prior_manuscript_tree_revision = s("3");
    row.resulting_manuscript_tree_revision = s("4");
    row.affected_volume_id = s("v2");
    let observed = observed_frontier(row).unwrap().unwrap();
    let ObservedFrontier::Structure(frontier) = observed else {
        panic!("a deleted Volume is a structural frontier");
    };
    assert_eq!(frontier.identity, ObservedStructureIdentity::VolumeDelete { volume_id: "v2".to_owned() });
    assert_eq!(structure_restore(&frontier), StructureRestore::ReviveVolume { volume_id: "v2".to_owned() });
    let binding = structure_compensation_binding(&frontier);
    assert_eq!(binding.prior_manuscript_tree_revision, 4);
    assert_eq!(binding.resulting_manuscript_tree_revision, 3);
}

fn structure(identity: ObservedStructureIdentity) -> ObservedStructureFrontier {
    ObservedStructureFrontier { sequence: 9, prior_manuscript_tree_revision: 4, resulting_manuscript_tree_revision: 5, identity }
}

#[test]
fn undo_restores_what_each_structural_action_changed() {
    assert_eq!(
        structure_restore(&structure(ObservedStructureIdentity::ChapterUpdate { chapter_id: "a".to_owned(), prior_title: "Chapter A".to_owned(), prior_order: 1 })),
        StructureRestore::RestoreChapter { chapter_id: "a".to_owned(), title: "Chapter A".to_owned(), order: 1 }
    );
    assert_eq!(
        structure_restore(&structure(ObservedStructureIdentity::VolumeUpdate { volume_id: "v".to_owned(), prior_title: "Volume A".to_owned(), prior_order: 1 })),
        StructureRestore::RestoreVolume { volume_id: "v".to_owned(), title: "Volume A".to_owned(), order: 1 }
    );
    assert_eq!(
        structure_restore(&structure(ObservedStructureIdentity::Volume { volume_id: "v".to_owned() })),
        StructureRestore::RemoveVolume { volume_id: "v".to_owned(), tree_revision: 4 }
    );
    assert_eq!(
        structure_restore(&structure(ObservedStructureIdentity::Chapter { chapter_id: "c".to_owned() })),
        StructureRestore::RemoveChapter { chapter_id: "c".to_owned(), tree_revision: 4 }
    );
    assert_eq!(
        structure_restore(&structure(ObservedStructureIdentity::ChapterDelete { chapter_id: "c".to_owned(), prior_current_chapter_id: s("c") })),
        StructureRestore::ReviveChapter { chapter_id: "c".to_owned(), current_chapter_id: s("c") }
    );
}

#[test]
fn restoring_a_sibling_puts_it_back_in_its_prior_place() {
    let moved = vec!["b".to_owned(), "a".to_owned()];
    assert_eq!(
        restored_sibling_ranks(&moved, "a", 1),
        Ok(Some(vec![("a".to_owned(), 1), ("b".to_owned(), 2)]))
    );
    assert_eq!(restored_sibling_ranks(&moved, "a", 2), Ok(None));
    let four = vec!["v4".to_owned(), "v1".to_owned(), "v2".to_owned(), "v3".to_owned()];
    assert_eq!(
        restored_sibling_ranks(&four, "v4", 4),
        Ok(Some(vec![("v1".to_owned(), 1), ("v2".to_owned(), 2), ("v3".to_owned(), 3), ("v4".to_owned(), 4)]))
    );
    assert!(matches!(restored_sibling_ranks(&moved, "z", 1), Err(UndoLatestAuthorActionError::Unavailable(_))));
    assert!(matches!(restored_sibling_ranks(&moved, "a", 3), Err(UndoLatestAuthorActionError::Unavailable(_))));
}

#[test]
fn compensation_effects_report_what_the_compensation_allocated() {
    let sequences = prose_compensation_sequences("7", "3", "12").unwrap();
    let effect = prose_compensated_effect(5, &sequences, Some(4));
    assert_eq!(
        effect,
        UndoLatestAuthorActionSettlementEffect::Compensated {
            source_sequence: 5,
            author_action_sequence: 7,
            authoritative_commit_id: sequences.authoritative_commit_id.clone(),
            revision_id: sequences.revision_id.clone(),
            author_undo_frontier_sequence: Some(4),
        }
    );
    let transition = StructureTransitionSequences {
        author_action_sequence: 8,
        authoritative_commit_sequence: 4,
        project_activity_position: 13,
        authoritative_commit_id: "commit".to_owned(),
        project_activity_event_id: "event".to_owned(),
        snapshot_id: "snap".to_owned(),
    };
    assert_eq!(
        structure_compensated_effect(6, &transition, None),
        UndoLatestAuthorActionSettlementEffect::CompensatedStructure {
            source_sequence: 6,
            author_action_sequence: 8,
            authoritative_commit_id: "commit".to_owned(),
            snapshot_id: "snap".to_owned(),
            author_undo_frontier_sequence: None,
        }
    );
    let switch = CurrentChapterSequences {
        author_action_sequence: 9,
        project_activity_position: 14,
        project_activity_event_id: "event".to_owned(),
        snapshot_id: "snap2".to_owned(),
    };
    assert_eq!(
        current_chapter_compensated_effect(4, &switch, Some(3)),
        UndoLatestAuthorActionSettlementEffect::CompensatedCurrentChapter {
            source_sequence: 4,
            author_action_sequence: 9,
            snapshot_id: "snap2".to_owned(),
            author_undo_frontier_sequence: Some(3),
        }
    );
}

fn undo_ids() -> AuthorCommandAdmissionIds {
    AuthorCommandAdmissionIds { command_id: "cmd".to_owned(), author_command_admission_id: "adm".to_owned(), receipt_id: "rcpt".to_owned() }
}

fn returned(values: &[&str]) -> StoreEvent {
    StoreEvent::Returned(values.iter().map(|v| v.to_string()).collect())
}

#[test]
fn structural_compensation_steps_restore_and_settle() {
    let frontier = structure(ObservedStructureIdentity::ChapterUpdate { chapter_id: "a".to_owned(), prior_title: "Chapter A".to_owned(), prior_order: 1 });
    let (state, action) = begin_undo_compensation(undo_ids(), UndoCompensationTarget::Structure(frontier.clone()));
    assert_eq!(action, UndoAction::AllocateStructureCounters);
    let (state, action) = undo_compensation_step(state, returned(&["6", "4", "20"]));
    assert_eq!(action, UndoAction::RestoreTreeRevision { tree_revision: 4, expected_tree_revision: 5 });
    let (state, action) = undo_compensation_step(state, StoreEvent::Rows(1));
    let commit_id = match action {
        UndoAction::InsertReceipt { authoritative_commit_id: Some(id), authoritative_revision_id: None, heads: None } => id,
        other => panic!("unexpected {other:?}"),
    };
    let (state, action) = undo_compensation_step(state, returned(&["t"]));
    assert_eq!(
        action,
        UndoAction::Restore(StructureRestore::RestoreChapter { chapter_id: "a".to_owned(), title: "Chapter A".to_owned(), order: 1 })
    );
    let (state, action) = undo_compensation_step(state, StoreEvent::Rows(1));
    match action {
        UndoAction::InsertCommit { binding, .. } => {
            assert_eq!(binding.prior_manuscript_tree_revision, 5);
            assert_eq!(binding.resulting_manuscript_tree_revision, 4);
        }
        other => panic!("unexpected {other:?}"),
    }
    let (state, action) = undo_compensation_step(state, StoreEvent::Rows(1));
    assert_eq!(
        action,
        UndoAction::InsertCompensationAuthorAction { author_action_sequence: 6, source_sequence: 9, authoritative_commit_id: Some(commit_id.clone()) }
    );
    let (state, action) = undo_compensation_step(state, StoreEvent::Rows(1));
    assert!(matches!(action, UndoAction::PersistSnapshot { project_activity_position: 20, .. }));
    let (state, action) = undo_compensation_step(state, StoreEvent::Rows(1));
    assert_eq!(action, UndoAction::SettleIdempotency);
    let (state, action) = undo_compensation_step(state, StoreEvent::Rows(1));
    assert_eq!(action, UndoAction::ReadFrontier);
    let (state, action) = undo_compensation_step(state, returned(&["8"]));
    assert_eq!(state.stage, UndoStage::Done);
    match action {
        UndoAction::Settle(settlement) => {
            assert_eq!(settlement.project_activity_position, 20);
            assert!(matches!(
                settlement.effect,
                UndoLatestAuthorActionSettlementEffect::CompensatedStructure { source_sequence: 9, author_action_sequence: 6, author_undo_frontier_sequence: Some(8), .. }
            ));
        }
        other => panic!("unexpected {other:?}"),
    }
}

#[test]
fn current_chapter_compensation_steps_switch_back_and_settle() {
    let frontier = ObservedCurrentChapterFrontier { sequence: 4, prior_chapter_id: "a".to_owned(), resulting_chapter_id: "b".to_owned() };
    let (state, action) = begin_undo_compensation(undo_ids(), UndoCompensationTarget::CurrentChapter(frontier));
    assert_eq!(action, UndoAction::AllocateCurrentChapterCounters);
    let (state, action) = undo_compensation_step(state, returned(&["5", "17"]));
    assert_eq!(action, UndoAction::RestoreCurrentChapter { current_chapter_id: "a".to_owned(), expected_current_chapter_id: "b".to_owned() });
    let (failed, action) = undo_compensation_step(state.clone(), StoreEvent::Rows(0));
    assert!(matches!(action, UndoAction::Fail(UndoLatestAuthorActionError::Unavailable(_))));
    assert_eq!(failed.stage, UndoStage::Done);
    let (state, action) = undo_compensation_step(state, StoreEvent::Rows(1));
    assert_eq!(action, UndoAction::ReadHead { chapter_id: "a".to_owned() });
    let (state, action) = undo_compensation_step(state, returned(&["head-a"]));
    assert_eq!(action, UndoAction::InsertReceipt { authoritative_commit_id: None, authoritative_revision_id: None, heads: None });
    let (state, action) = undo_compensation_step(state, returned(&["t"]));
    assert_eq!(action, UndoAction::InsertCompensationAuthorAction { author_action_sequence: 5, source_sequence: 4, authoritative_commit_id: None });
    let (state, action) = undo_compensation_step(state, StoreEvent::Rows(1));
    let snapshot_id = match action {
        UndoAction::PersistSnapshot { snapshot_id, project_activity_position: 17 } => snapshot_id,
        other => panic!("unexpected {other:?}"),
    };
    let (state, action) = undo_compensation_step(state, StoreEvent::Rows(1));
    assert_eq!(
        action,
        UndoAction::MoveBaseSnapshot { snapshot_id: snapshot_id.clone(), chapter_id: "a".to_owned(), revision_id: "head-a".to_owned(), project_activity_position: 17 }
    );
    let (state, action) = undo_compensation_step(state, StoreEvent::Rows(1));
    assert_eq!(action, UndoAction::SettleIdempotency);
    let (state, _) = undo_compensation_step(state, StoreEvent::Rows(1));
    let (_, action) = undo_compensation_step(state, returned(&[]));
    match action {
        UndoAction::Settle(settlement) => assert_eq!(
            settlement.effect,
            UndoLatestAuthorActionSettlementEffect::CompensatedCurrentChapter {
                source_sequence: 4,
                author_action_sequence: 5,
                snapshot_id,
                author_undo_frontier_sequence: None,
            }
        ),
        other => panic!("unexpected {other:?}"),
    }
}

#[test]
fn prose_compensation_steps_restore_the_prior_payload_and_settle() {
    let (state, action) = begin_undo_compensation(undo_ids(), UndoCompensationTarget::Prose(prose()));
    assert_eq!(action, UndoAction::AllocateProseCounters);
    let (state, action) = undo_compensation_step(state, returned(&["7", "3", "12"]));
    let payload_id = match action {
        UndoAction::InsertPayload { payload_id, canonical_payload } => {
            assert_eq!(canonical_payload, prose().prior_payload);
            payload_id
        }
        other => panic!("unexpected {other:?}"),
    };
    let (state, action) = undo_compensation_step(state, StoreEvent::Rows(1));
    let revision_id = match action {
        UndoAction::InsertRevision { chapter_id, revision_id, payload_id: used } => {
            assert_eq!(chapter_id, "c1");
            assert_eq!(used, payload_id);
            revision_id
        }
        other => panic!("unexpected {other:?}"),
    };
    let (state, action) = undo_compensation_step(state, StoreEvent::Rows(1));
    assert_eq!(
        action,
        UndoAction::CopyMembers { chapter_id: "c1".to_owned(), prior_revision_id: prose().prior_revision_id, revision_id: revision_id.clone() }
    );
    let (failed, action) = undo_compensation_step(state.clone(), StoreEvent::Rows(0));
    assert!(matches!(action, UndoAction::Fail(UndoLatestAuthorActionError::Unavailable(_))));
    assert_eq!(failed.stage, UndoStage::Done);
    let (state, action) = undo_compensation_step(state, StoreEvent::Rows(3));
    match action {
        UndoAction::InsertEnvelope { parent_revision_id, payload_digest, .. } => {
            assert_eq!(parent_revision_id, prose().current_head_revision_id);
            assert_eq!(payload_digest, hex_sha256(&prose().prior_payload));
        }
        other => panic!("unexpected {other:?}"),
    }
    let (state, action) = undo_compensation_step(state, StoreEvent::Rows(1));
    assert_eq!(
        action,
        UndoAction::AdvanceHead {
            chapter_id: "c1".to_owned(),
            revision_id: revision_id.clone(),
            expected_head_revision_id: prose().current_head_revision_id,
        }
    );
    let (state, action) = undo_compensation_step(state, StoreEvent::Rows(1));
    assert!(matches!(action, UndoAction::InsertProseCommit { authoritative_commit_sequence: 3, .. }));
    let (state, action) = undo_compensation_step(state, StoreEvent::Rows(1));
    assert!(matches!(action, UndoAction::InsertReceipt { heads: Some(_), authoritative_revision_id: Some(_), .. }));
    let (state, action) = undo_compensation_step(state, returned(&["t"]));
    assert!(matches!(action, UndoAction::InsertCompensationAuthorAction { author_action_sequence: 7, source_sequence: 4, .. }));
    let (state, action) = undo_compensation_step(state, StoreEvent::Rows(1));
    assert!(matches!(action, UndoAction::InsertProseActivity { project_activity_position: 12, author_action_sequence: 7, .. }));
    let (state, action) = undo_compensation_step(state, StoreEvent::Rows(1));
    assert!(matches!(action, UndoAction::MoveProseBaseSnapshot { project_activity_position: 12, .. }));
    let (state, action) = undo_compensation_step(state, StoreEvent::Rows(1));
    assert!(matches!(action, UndoAction::PersistSnapshot { project_activity_position: 12, .. }));
    let (state, action) = undo_compensation_step(state, StoreEvent::Rows(1));
    assert_eq!(action, UndoAction::SettleIdempotency);
    let (state, _) = undo_compensation_step(state, StoreEvent::Rows(1));
    let (_, action) = undo_compensation_step(state, returned(&["3"]));
    match action {
        UndoAction::Settle(settlement) => {
            assert_eq!(settlement.project_activity_position, 12);
            match settlement.effect {
                UndoLatestAuthorActionSettlementEffect::Compensated { source_sequence, author_action_sequence, revision_id: settled, author_undo_frontier_sequence, .. } => {
                    assert_eq!(source_sequence, 4);
                    assert_eq!(author_action_sequence, 7);
                    assert_eq!(settled, revision_id);
                    assert_eq!(author_undo_frontier_sequence, Some(3));
                }
                other => panic!("unexpected {other:?}"),
            }
        }
        other => panic!("unexpected {other:?}"),
    }
}
