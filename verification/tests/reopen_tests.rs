use storyos_adapter_postgres::command::ProjectCommandChallengeError;
use storyos_adapter_postgres::reopen::{
    read_reopen_effect, refuse_reason, reopen_challenge_error, reopen_classification_input, reopen_zero_outcome,
    LoadedProposal, ReopenRejectedOperationsConflict, ReopenRejectedOperationsError,
    ReopenRejectedOperationsRefusal, ReopenRejectedOperationsResult, ReopenRejectedOperationsSettlementEffect,
};
use storyos_adapter_postgres::structural_authority::{
    commit_identity_columns, current_chapter_sequences, structure_transition_sequences, StructureAffectedIdentity,
};

fn loaded() -> LoadedProposal {
    LoadedProposal {
        current_revision_id: "pr2".to_owned(),
        generation: "ready".to_owned(),
        closure: "open".to_owned(),
        chapter_id: "c1".to_owned(),
        operation_id: "op1".to_owned(),
        operation_resolution: "rejected".to_owned(),
        candidate_text: "text".to_owned(),
        base_authoritative_revision_id: "r1".to_owned(),
        current_head_revision_id: Some("r1".to_owned()),
        rejection_event_matches: true,
        reservation_available: false,
    }
}

#[test]
fn refusal_reasons() {
    assert_eq!(refuse_reason(&ReopenRejectedOperationsRefusal::WrongScope), "wrong_scope");
    assert_eq!(refuse_reason(&ReopenRejectedOperationsRefusal::StaleProposalRevision), "stale_proposal_revision");
    assert_eq!(refuse_reason(&ReopenRejectedOperationsRefusal::UnavailableProof), "unavailable_proof");
}

#[test]
fn classification_input_of_a_reopen() {
    let input = reopen_classification_input(&loaded(), "pr2", "op1", "r1");
    assert!(input.scope_matches && input.admission_valid);
    assert!(input.proposal_revision_current && input.closure_open && input.selected_operations_rejected);
    assert!(input.rejection_event_matches && !input.reservation_available && input.expected_target_matches_head);
    let stale = reopen_classification_input(&loaded(), "pr1", "op2", "r0");
    assert!(!stale.proposal_revision_current && !stale.selected_operations_rejected && !stale.expected_target_matches_head);
}

#[test]
fn zero_outcomes_replay() {
    for reason in [
        ReopenRejectedOperationsRefusal::WrongScope,
        ReopenRejectedOperationsRefusal::WrongAdmission,
        ReopenRejectedOperationsRefusal::StaleProposalRevision,
        ReopenRejectedOperationsRefusal::NotEligible,
        ReopenRejectedOperationsRefusal::OperationNotRejected,
        ReopenRejectedOperationsRefusal::UnavailableProof,
    ] {
        let outcome = reopen_zero_outcome(ReopenRejectedOperationsResult::Refused { reason }).unwrap();
        assert_eq!(outcome.result_kind, "refused");
        let replay = read_reopen_effect(&outcome.result_kind, outcome.reason.as_deref(), "op1", "ev1", None, None, None, None, None);
        assert_eq!(replay, Ok(ReopenRejectedOperationsSettlementEffect::Refused { reason }));
    }
    let conflict = ReopenRejectedOperationsResult::Conflicted { reason: ReopenRejectedOperationsConflict::ChangedHead };
    let outcome = reopen_zero_outcome(conflict).unwrap();
    assert_eq!(outcome.reason.as_deref(), Some("changed_head"));
    assert_eq!(reopen_zero_outcome(ReopenRejectedOperationsResult::Resolved), None);
}

#[test]
fn resolved_reopen_reads_back() {
    let effect = read_reopen_effect(
        "proposal_revised",
        None,
        "op1",
        "ev1",
        Some("12".to_owned()),
        Some("state".to_owned()),
        Some("pr3".to_owned()),
        Some("ready".to_owned()),
        Some("open".to_owned()),
    );
    assert_eq!(
        effect,
        Ok(ReopenRejectedOperationsSettlementEffect::Resolved {
            author_action_sequence: 12,
            operation_id: "op1".to_owned(),
            rejection_event_id: "ev1".to_owned(),
            resulting_proposal_revision_id: "pr3".to_owned(),
            preserved_generation: "ready".to_owned(),
            preserved_closure: "open".to_owned(),
            state_event_id: "state".to_owned(),
        })
    );
    assert!(matches!(
        read_reopen_effect("proposal_revised", None, "op1", "ev1", Some("x".to_owned()), Some("s".to_owned()), Some("p".to_owned()), Some("g".to_owned()), Some("c".to_owned())),
        Err(ReopenRejectedOperationsError::Unavailable(_))
    ));
    assert_eq!(
        read_reopen_effect("refused", Some("nope"), "op1", "ev1", None, None, None, None, None),
        Err(ReopenRejectedOperationsError::HistoricalAcknowledgementUnavailable)
    );
    assert_eq!(
        reopen_challenge_error(ProjectCommandChallengeError::InvalidOrExpired),
        ReopenRejectedOperationsError::InvalidChallenge
    );
}

#[test]
fn structural_sequences_and_commit_columns() {
    let sequences = structure_transition_sequences("3", "2", "9").unwrap();
    assert_eq!((sequences.author_action_sequence, sequences.authoritative_commit_sequence, sequences.project_activity_position), (3, 2, 9));
    assert_eq!(sequences.authoritative_commit_id.len(), 36);
    assert!(structure_transition_sequences("3", "", "9").is_none());
    let current = current_chapter_sequences("4", "10").unwrap();
    assert_eq!((current.author_action_sequence, current.project_activity_position), (4, 10));
    assert!(current_chapter_sequences("a", "10").is_none());
    let genesis = commit_identity_columns(&StructureAffectedIdentity::ChapterInitialRevision {
        chapter_id: "c1".to_owned(),
        resulting_revision_id: "r0".to_owned(),
    });
    assert_eq!(genesis.affected_chapter_id.as_deref(), Some("c1"));
    assert_eq!(genesis.manuscript_object_id.as_deref(), Some("c1"));
    assert_eq!(genesis.resulting_revision_id.as_deref(), Some("r0"));
    assert_eq!(genesis.affected_volume_id, None);
    let volume = commit_identity_columns(&StructureAffectedIdentity::Volume { volume_id: "v1".to_owned() });
    assert_eq!(volume.affected_volume_id.as_deref(), Some("v1"));
    assert_eq!(volume.manuscript_object_id, None);
}
