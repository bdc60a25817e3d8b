//! Reopen Rejected Operations: what the classification is told about the
//! Proposal, the receipt a refusal or conflict records, and the replay that
//! reads the settlement back.

use crate::command::{
    outcome_view, reason_is, receipt_outcome, same_text, str_view, ProjectCommandChallengeError,
    ReceiptOutcome, UnavailableCause,
};
use crate::text::{parse_u64, u64_text_value};
use vstd::prelude::*;

verus! {

#[derive(Debug, Clone, PartialEq, Eq)]
pub enum ReopenRejectedOperationsError {
    MissingProject,
    BindingConflict,
    InvalidChallenge,
    HistoricalAcknowledgementUnavailable,
    Unavailable(UnavailableCause),
}

/// How a challenge failure answers a reopen: a rate limit counts as an
/// invalid challenge, an unavailable store passes its text on.
pub fn reopen_challenge_error(error: ProjectCommandChallengeError) -> (mapped:
    ReopenRejectedOperationsError)
    ensures
        mapped == (match error {
            ProjectCommandChallengeError::BindingConflict => ReopenRejectedOperationsError::BindingConflict,
            ProjectCommandChallengeError::InvalidOrExpired => ReopenRejectedOperationsError::InvalidChallenge,
            ProjectCommandChallengeError::RateLimited { .. } => ReopenRejectedOperationsError::InvalidChallenge,
            ProjectCommandChallengeError::Unavailable(source) => ReopenRejectedOperationsError::Unavailable(
                UnavailableCause::Message(source),
            ),
        }),
{
    match error {
        ProjectCommandChallengeError::BindingConflict => ReopenRejectedOperationsError::BindingConflict,
        ProjectCommandChallengeError::InvalidOrExpired => ReopenRejectedOperationsError::InvalidChallenge,
        ProjectCommandChallengeError::RateLimited { .. } => ReopenRejectedOperationsError::InvalidChallenge,
        ProjectCommandChallengeError::Unavailable(source) => ReopenRejectedOperationsError::Unavailable(
            UnavailableCause::Message(source),
        ),
    }
}

/// The Proposal that a reopen names, as stored: its current revision,
/// generation and closure, its Chapter, the selected operation and its
/// resolution, the candidate, the Chapter's current head, and whether the
/// rejection event and the block reservation still allow the reopen.
pub struct LoadedProposal {
    pub current_revision_id: String,
    pub generation: String,
    pub closure: String,
    pub chapter_id: String,
    pub operation_id: String,
    pub operation_resolution: String,
    pub candidate_text: String,
    pub base_authoritative_revision_id: String,
    pub current_head_revision_id: Option<String>,
    pub rejection_event_matches: bool,
    pub reservation_available: bool,
}

/// What the reopen classification is told.
#[derive(Debug, Clone, Copy, PartialEq, Eq)]
pub struct ReopenClassificationInput {
    pub scope_matches: bool,
    pub admission_valid: bool,
    pub proposal_revision_current: bool,
    pub closure_open: bool,
    pub selected_operations_rejected: bool,
    pub rejection_event_matches: bool,
    pub reservation_available: bool,
    pub expected_target_matches_head: bool,
}

/// The classification input of a reopen: the scope and admission hold (the
/// admission was just inserted); the command names the Proposal's current
/// revision; the Proposal is open; the selected operation is the stored one
/// and rejected; and the expected head is the Chapter's current head.
pub fn reopen_classification_input(
    loaded: &LoadedProposal,
    proposal_revision_id: &str,
    selected_rejected_operation_id: &str,
    expected_authoritative_revision_id: &str,
) -> (input: ReopenClassificationInput)
    ensures
        input.scope_matches,
        input.admission_valid,
        input.proposal_revision_current == (loaded.current_revision_id@ == proposal_revision_id@),
        input.closure_open == (loaded.closure@ == "open"@),
        input.selected_operations_rejected == (loaded.operation_id@ == selected_rejected_operation_id@
            && loaded.operation_resolution@ == "rejected"@),
        input.rejection_event_matches == loaded.rejection_event_matches,
        input.reservation_available == loaded.reservation_available,
        input.expected_target_matches_head == (loaded.current_head_revision_id is Some
            && loaded.current_head_revision_id->0@ == expected_authoritative_revision_id@),
{
    let head_matches = match &loaded.current_head_revision_id {
        Some(head) => same_text(head.as_str(), expected_authoritative_revision_id),
        None => false,
    };
    ReopenClassificationInput {
        scope_matches: true,
        admission_valid: true,
        proposal_revision_current: same_text(loaded.current_revision_id.as_str(), proposal_revision_id),
        closure_open: same_text(loaded.closure.as_str(), "open"),
        selected_operations_rejected: same_text(loaded.operation_id.as_str(), selected_rejected_operation_id)
            && same_text(loaded.operation_resolution.as_str(), "rejected"),
        rejection_event_matches: loaded.rejection_event_matches,
        reservation_available: loaded.reservation_available,
        expected_target_matches_head: head_matches,
    }
}

#[derive(Debug, Clone, Copy, PartialEq, Eq)]
pub enum ReopenRejectedOperationsRefusal {
    WrongScope,
    WrongAdmission,
    StaleProposalRevision,
    NotEligible,
    OperationNotRejected,
    UnavailableProof,
}

#[derive(Debug, Clone, Copy, PartialEq, Eq)]
pub enum ReopenRejectedOperationsConflict {
    ChangedHead,
}

/// The classification of a reopen.
#[derive(Debug, Clone, Copy, PartialEq, Eq)]
pub enum ReopenRejectedOperationsResult {
    Resolved,
    Conflicted { reason: ReopenRejectedOperationsConflict },
    Refused { reason: ReopenRejectedOperationsRefusal },
}

/// The stored reason of a refusal.
pub open spec fn refusal_text(reason: ReopenRejectedOperationsRefusal) -> Seq<char> {
    match reason {
        ReopenRejectedOperationsRefusal::WrongScope => "wrong_scope"@,
        ReopenRejectedOperationsRefusal::WrongAdmission => "wrong_admission"@,
        ReopenRejectedOperationsRefusal::StaleProposalRevision => "stale_proposal_revision"@,
        ReopenRejectedOperationsRefusal::NotEligible => "not_eligible"@,
        ReopenRejectedOperationsRefusal::OperationNotRejected => "operation_not_rejected"@,
        ReopenRejectedOperationsRefusal::UnavailableProof => "unavailable_proof"@,
    }
}

/// The stored reason of a refusal.
pub fn refuse_reason(reason: &ReopenRejectedOperationsRefusal) -> (text: &'static str)
    ensures
        text@ == refusal_text(*reason),
{
    match reason {
        ReopenRejectedOperationsRefusal::WrongScope => "wrong_scope",
        ReopenRejectedOperationsRefusal::WrongAdmission => "wrong_admission",
        ReopenRejectedOperationsRefusal::StaleProposalRevision => "stale_proposal_revision",
        ReopenRejectedOperationsRefusal::NotEligible => "not_eligible",
        ReopenRejectedOperationsRefusal::OperationNotRejected => "operation_not_rejected",
        ReopenRejectedOperationsRefusal::UnavailableProof => "unavailable_proof",
    }
}

/// The result kind and reason that a reopen without effect records; a
/// resolved reopen records its own receipt.
pub open spec fn zero_outcome(classified: ReopenRejectedOperationsResult) -> Option<
    (Seq<char>, Option<Seq<char>>),
> {
    match classified {
        ReopenRejectedOperationsResult::Resolved => None,
        ReopenRejectedOperationsResult::Conflicted { .. } => Some(("conflicted"@, Some("changed_head"@))),
        ReopenRejectedOperationsResult::Refused { reason } => Some(("refused"@, Some(refusal_text(reason)))),
    }
}

/// The receipt outcome of a conflicted or refused reopen.
pub fn reopen_zero_outcome(classified: ReopenRejectedOperationsResult) -> (outcome: Option<ReceiptOutcome>)
    ensures
        match outcome {
            Some(o) => zero_outcome(classified) == Some(outcome_view(o)),
            None => zero_outcome(classified) is None,
        },
{
    match classified {
        ReopenRejectedOperationsResult::Resolved => None,
        ReopenRejectedOperationsResult::Conflicted { .. } => Some(
            receipt_outcome("conflicted", Some("changed_head")),
        ),
        ReopenRejectedOperationsResult::Refused { reason } => Some(
            receipt_outcome("refused", Some(refuse_reason(&reason))),
        ),
    }
}

/// What a settled reopen did.
#[derive(Debug, Clone, PartialEq, Eq)]
pub enum ReopenRejectedOperationsSettlementEffect {
    Resolved {
        author_action_sequence: u64,
        operation_id: String,
        rejection_event_id: String,
        resulting_proposal_revision_id: String,
        preserved_generation: String,
        preserved_closure: String,
        state_event_id: String,
    },
    Conflicted { reason: ReopenRejectedOperationsConflict },
    Refused { reason: ReopenRejectedOperationsRefusal },
}

/// The refusal that a stored reason names.
pub open spec fn refusal_of_text(text: Seq<char>) -> Option<ReopenRejectedOperationsRefusal> {
    if text == "wrong_scope"@ {
        Some(ReopenRejectedOperationsRefusal::WrongScope)
    } else if text == "wrong_admission"@ {
        Some(ReopenRejectedOperationsRefusal::WrongAdmission)
    } else if text == "stale_proposal_revision"@ {
        Some(ReopenRejectedOperationsRefusal::StaleProposalRevision)
    } else if text == "not_eligible"@ {
        Some(ReopenRejectedOperationsRefusal::NotEligible)
    } else if text == "operation_not_rejected"@ {
        Some(ReopenRejectedOperationsRefusal::OperationNotRejected)
    } else if text == "unavailable_proof"@ {
        Some(ReopenRejectedOperationsRefusal::UnavailableProof)
    } else {
        None
    }
}

/// What a stored reopen receipt stands for, when it is no resolution: a
/// conflict on a changed head, a refusal, or no effect of a reopen at all.
pub open spec fn zero_effect_of_receipt(result_kind: Seq<char>, reason: Option<Seq<char>>) -> Option<
    ReopenRejectedOperationsResult,
> {
    if result_kind == "conflicted"@ && reason == Some("changed_head"@) {
        Some(ReopenRejectedOperationsResult::Conflicted { reason: ReopenRejectedOperationsConflict::ChangedHead })
    } else if result_kind == "refused"@ && reason is Some && refusal_of_text(reason->0) is Some {
        Some(ReopenRejectedOperationsResult::Refused { reason: refusal_of_text(reason->0)->0 })
    } else {
        None
    }
}

/// Reads back the effect of a settled reopen receipt. A revised Proposal
/// reads back as resolved for the command's operation and rejection event,
/// with the stored Author Action sequence (damage makes the replay
/// unavailable), reopening event and resulting revision; a conflict or
/// refusal reads back from its reason; anything else leaves the historical
/// acknowledgement unavailable.
pub fn read_reopen_effect(
    result_kind: &str,
    reason: Option<&str>,
    operation_id: &str,
    rejection_event_id: &str,
    author_action_sequence: Option<String>,
    state_event_id: Option<String>,
    resulting_proposal_revision_id: Option<String>,
    preserved_generation: Option<String>,
    preserved_closure: Option<String>,
) -> (effect: Result<ReopenRejectedOperationsSettlementEffect, ReopenRejectedOperationsError>)
    requires
        result_kind@ == "proposal_revised"@ ==> author_action_sequence is Some && state_event_id is Some
            && resulting_proposal_revision_id is Some && preserved_generation is Some
            && preserved_closure is Some,
    ensures
        result_kind@ == "proposal_revised"@ ==> match u64_text_value(author_action_sequence->0@) {
            Some(n) => effect matches Ok(ReopenRejectedOperationsSettlementEffect::Resolved {
                author_action_sequence: a,
                operation_id: o,
                rejection_event_id: r,
                resulting_proposal_revision_id: p,
                preserved_generation: g,
                preserved_closure: c,
                state_event_id: s,
            }) && a == n && o@ == operation_id@ && r@ == rejection_event_id@ && p
                == resulting_proposal_revision_id->0 && g == preserved_generation->0 && c
                == preserved_closure->0 && s == state_event_id->0,
            None => effect matches Err(e) && e is Unavailable,
        },
        result_kind@ != "proposal_revised"@ ==> match zero_effect_of_receipt(result_kind@, str_view(reason)) {
            Some(ReopenRejectedOperationsResult::Conflicted { reason }) => effect matches Ok(e) && e
                == ReopenRejectedOperationsSettlementEffect::Conflicted { reason },
            Some(ReopenRejectedOperationsResult::Refused { reason }) => effect matches Ok(e) && e
                == ReopenRejectedOperationsSettlementEffect::Refused { reason },
            _ => effect matches Err(e) && e == ReopenRejectedOperationsError::HistoricalAcknowledgementUnavailable,
        },
{
    if same_text(result_kind, "proposal_revised") {
        let sequence = match author_action_sequence {
            Some(text) => match parse_u64(text.as_str()) {
                Some(n) => n,
                None => {
                    return Err(
                        ReopenRejectedOperationsError::Unavailable(
                            UnavailableCause::Message(String::from_str("stored counter is not a decimal u64")),
                        ),
                    );
                },
            },
            None => {
                return Err(ReopenRejectedOperationsError::HistoricalAcknowledgementUnavailable);
            },
        };
        match (state_event_id, resulting_proposal_revision_id, preserved_generation, preserved_closure) {
            (Some(state_event_id), Some(revision), Some(generation), Some(closure)) => Ok(
                ReopenRejectedOperationsSettlementEffect::Resolved {
                    author_action_sequence: sequence,
                    operation_id: String::from_str(operation_id),
                    rejection_event_id: String::from_str(rejection_event_id),
                    resulting_proposal_revision_id: revision,
                    preserved_generation: generation,
                    preserved_closure: closure,
                    state_event_id,
                },
            ),
            _ => Err(ReopenRejectedOperationsError::HistoricalAcknowledgementUnavailable),
        }
    } else if same_text(result_kind, "conflicted") && reason_is(reason, "changed_head") {
        Ok(
            ReopenRejectedOperationsSettlementEffect::Conflicted {
                reason: ReopenRejectedOperationsConflict::ChangedHead,
            },
        )
    } else if same_text(result_kind, "refused") {
        let refusal = match reason {
            Some(text) => refusal_named(text),
            None => None,
        };
        match refusal {
            Some(reason) => Ok(ReopenRejectedOperationsSettlementEffect::Refused { reason }),
            None => Err(ReopenRejectedOperationsError::HistoricalAcknowledgementUnavailable),
        }
    } else {
        Err(ReopenRejectedOperationsError::HistoricalAcknowledgementUnavailable)
    }
}

/// The refusal that a stored reason names.
fn refusal_named(text: &str) -> (reason: Option<ReopenRejectedOperationsRefusal>)
    ensures
        reason == refusal_of_text(text@),
{
    if same_text(text, "wrong_scope") {
        Some(ReopenRejectedOperationsRefusal::WrongScope)
    } else if same_text(text, "wrong_admission") {
        Some(ReopenRejectedOperationsRefusal::WrongAdmission)
    } else if same_text(text, "stale_proposal_revision") {
        Some(ReopenRejectedOperationsRefusal::StaleProposalRevision)
    } else if same_text(text, "not_eligible") {
        Some(ReopenRejectedOperationsRefusal::NotEligible)
    } else if same_text(text, "operation_not_rejected") {
        Some(ReopenRejectedOperationsRefusal::OperationNotRejected)
    } else if same_text(text, "unavailable_proof") {
        Some(ReopenRejectedOperationsRefusal::UnavailableProof)
    } else {
        None
    }
}

/// Law: a conflicted or refused reopen reads back as itself, so its replay
/// answers with the effect of the first use; in particular no two refusals
/// share a stored reason.
pub proof fn lemma_reopen_zero_replay(classified: ReopenRejectedOperationsResult)
    requires
        zero_outcome(classified) is Some,
    ensures
        ({
            let (kind, reason) = zero_outcome(classified)->0;
            zero_effect_of_receipt(kind, reason) == Some(classified)
        }),
{
    reveal_strlit("conflicted");
    assert("conflicted"@.len() == 10);
    reveal_strlit("refused");
    assert("refused"@.len() == 7);
    reveal_strlit("wrong_scope");
    assert("wrong_scope"@.len() == 11);
    reveal_strlit("wrong_admission");
    assert("wrong_admission"@.len() == 15);
    reveal_strlit("stale_proposal_revision");
    assert("stale_proposal_revision"@.len() == 23);
    reveal_strlit("not_eligible");
    assert("not_eligible"@.len() == 12);
    reveal_strlit("operation_not_rejected");
    assert("operation_not_rejected"@.len() == 22);
    reveal_strlit("unavailable_proof");
    assert("unavailable_proof"@.len() == 17);
}

} // verus!
