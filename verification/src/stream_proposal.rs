//! Streamed Proposal generation: which planned batch a generation takes
//! next, what each classification of a batch leads to, and whether the run
//! holds for more batches or continues.

use crate::command::same_text;
use crate::digest::{hex_lower, hex_sha256, sha256_of};
use vstd::prelude::*;

verus! {

/// Why streaming a Proposal could not go on.
#[derive(Debug, Clone, PartialEq, Eq)]
pub enum ProposalStreamError {
    Unavailable(String),
}

/// What the agent run does after a streaming step: hold for the next batch,
/// or continue with the rest of its work.
#[derive(Debug, Clone, Copy, PartialEq, Eq)]
pub enum StreamWork {
    Hold,
    Continue,
}

/// The position of the first planned batch whose sequence number is past
/// `last_seq`.
pub open spec fn first_batch_after(batches: Seq<(u64, String)>, last_seq: u64) -> Option<int>
    decreases batches.len(),
{
    if batches.len() == 0 {
        None
    } else {
        match first_batch_after(batches.drop_last(), last_seq) {
            Some(i) => Some(i),
            None => if batches.last().0 > last_seq {
                Some(batches.len() - 1)
            } else {
                None
            },
        }
    }
}

/// Some planned batch has a sequence number past `seq`.
pub open spec fn later_batch(batches: Seq<(u64, String)>, seq: u64) -> bool {
    exists|i: int| 0 <= i < batches.len() && (#[trigger] batches[i]).0 > seq
}

proof fn lemma_first_batch_after(batches: Seq<(u64, String)>, last_seq: u64)
    ensures
        first_batch_after(batches, last_seq) matches Some(i) ==> 0 <= i < batches.len()
            && batches[i].0 > last_seq && forall|j: int| 0 <= j < i ==> (#[trigger] batches[j]).0
            <= last_seq,
        first_batch_after(batches, last_seq) is None ==> forall|j: int|
            0 <= j < batches.len() ==> (#[trigger] batches[j]).0 <= last_seq,
    decreases batches.len(),
{
    if batches.len() > 0 {
        let rest = batches.drop_last();
        lemma_first_batch_after(rest, last_seq);
        match first_batch_after(rest, last_seq) {
            Some(i) => {
                assert(rest[i] == batches[i]);
                assert forall|j: int| 0 <= j < i implies (#[trigger] batches[j]).0 <= last_seq by {
                    assert(rest[j] == batches[j]);
                }
            },
            None => {
                assert forall|j: int| 0 <= j < batches.len() - 1 implies (#[trigger] batches[j]).0
                    <= last_seq by {
                    assert(rest[j] == batches[j]);
                }
            },
        }
    }
}

/// The next planned batch of a generation that has applied batches through
/// `last_seq`: the first one past it.
pub fn next_stream_batch(batches: &Vec<(u64, String)>, last_seq: u64) -> (next: Option<usize>)
    ensures
        match next {
            Some(i) => first_batch_after(batches@, last_seq) == Some(i as int),
            None => first_batch_after(batches@, last_seq) is None,
        },
{
    let mut i: usize = 0;
    while i < batches.len()
        invariant
            i <= batches@.len(),
            first_batch_after(batches@.take(i as int), last_seq) is None,
        decreases batches@.len() - i,
    {
        assert(batches@.take(i + 1).drop_last() =~= batches@.take(i as int));
        if batches[i].0 > last_seq {
            proof {
                lemma_first_batch_prefix(batches@, i as int, last_seq);
            }
            return Some(i);
        }
        i = i + 1;
    }
    assert(batches@.take(batches@.len() as int) =~= batches@);
    None
}

/// A batch found past `last_seq` in a prefix, with none before it, is the
/// first one past it in the whole plan.
proof fn lemma_first_batch_prefix(batches: Seq<(u64, String)>, i: int, last_seq: u64)
    requires
        0 <= i < batches.len(),
        batches[i].0 > last_seq,
        first_batch_after(batches.take(i), last_seq) is None,
    ensures
        first_batch_after(batches, last_seq) == Some(i),
    decreases batches.len(),
{
    if batches.len() - 1 == i {
        assert(batches.drop_last() =~= batches.take(i));
    } else {
        assert(batches.drop_last().take(i) =~= batches.take(i));
        lemma_first_batch_prefix(batches.drop_last(), i, last_seq);
    }
}

/// Whether some planned batch comes after sequence number `seq`.
pub fn has_later_batch(batches: &Vec<(u64, String)>, seq: u64) -> (later: bool)
    ensures
        later == later_batch(batches@, seq),
{
    let mut i: usize = 0;
    while i < batches.len()
        invariant
            i <= batches@.len(),
            forall|j: int| 0 <= j < i ==> (#[trigger] batches@[j]).0 <= seq,
        decreases batches@.len() - i,
    {
        if batches[i].0 > seq {
            assert(batches@[i as int].0 > seq);
            return true;
        }
        i = i + 1;
    }
    false
}

/// A generation takes batches only while it is generating and no editor
/// input fence stops it.
pub fn generation_accepts_batches(generation_state: &str, existing_fence: bool) -> (accepts: bool)
    ensures
        accepts == (generation_state@ == "generating"@ && !existing_fence),
{
    same_text(generation_state, "generating") && !existing_fence
}

/// The first streaming decision of a run.
#[derive(Debug, Clone, Copy, PartialEq, Eq)]
pub enum StreamPlan {
    Continue,
    Batch { index: usize },
}

/// When the generation takes no batches, or no planned batch is past the
/// ones applied, the run continues; else it takes the next batch.
pub fn plan_stream_batch(
    generation_state: &str,
    existing_fence: bool,
    batches: &Vec<(u64, String)>,
    last_seq: u64,
) -> (plan: StreamPlan)
    ensures
        !(generation_state@ == "generating"@ && !existing_fence) ==> plan == StreamPlan::Continue,
        (generation_state@ == "generating"@ && !existing_fence) ==> match first_batch_after(
            batches@,
            last_seq,
        ) {
            Some(i) => plan == StreamPlan::Batch { index: i as usize },
            None => plan == StreamPlan::Continue,
        },
{
    if !generation_accepts_batches(generation_state, existing_fence) {
        return StreamPlan::Continue;
    }
    match next_stream_batch(batches, last_seq) {
        Some(index) => StreamPlan::Batch { index },
        None => StreamPlan::Continue,
    }
}

/// How the classification of a batch came out.
#[derive(Debug, Clone, Copy, PartialEq, Eq)]
pub enum AppendBatchResult {
    Applied,
    Duplicate,
    Wait,
    Refused,
    Conflicted,
}

/// What a classified batch leads to.
#[derive(Debug, Clone, Copy, PartialEq, Eq)]
pub enum BatchAction {
    /// Persist the batch; a complete one closes the generation.
    Persist { complete: bool },
    /// The batch was already stored: remember its sequence number.
    RememberDuplicate,
    /// Nothing is written and the run continues.
    Stop,
}

/// The action and the next work after a batch at `stream_seq` was
/// classified: an applied batch is persisted, complete when no planned batch
/// follows it; a duplicate is remembered; after either the run holds while a
/// planned batch follows. Any other classification stops streaming.
pub fn batch_outcome(result: AppendBatchResult, batches: &Vec<(u64, String)>, stream_seq: u64) -> (outcome: (
    BatchAction,
    StreamWork,
))
    ensures
        match result {
            AppendBatchResult::Applied => outcome.0 == BatchAction::Persist {
                complete: !later_batch(batches@, stream_seq),
            },
            AppendBatchResult::Duplicate => outcome.0 == BatchAction::RememberDuplicate,
            _ => outcome.0 == BatchAction::Stop,
        },
        (result == AppendBatchResult::Applied || result == AppendBatchResult::Duplicate) ==> (
        outcome.1 == StreamWork::Hold <==> later_batch(batches@, stream_seq)),
        !(result == AppendBatchResult::Applied || result == AppendBatchResult::Duplicate) ==> outcome.1
            == StreamWork::Continue,
{
    let later = has_later_batch(batches, stream_seq);
    let work = if later {
        StreamWork::Hold
    } else {
        StreamWork::Continue
    };
    match result {
        AppendBatchResult::Applied => (BatchAction::Persist { complete: !later }, work),
        AppendBatchResult::Duplicate => (BatchAction::RememberDuplicate, work),
        _ => (BatchAction::Stop, StreamWork::Continue),
    }
}

/// The generation and validation states of the revision that a persisted
/// batch appends: a complete batch is ready and valid, any other still
/// generating and pending.
pub fn batch_revision_states(complete: bool) -> (states: (&'static str, &'static str))
    ensures
        complete ==> states.0@ == "ready"@ && states.1@ == "valid"@,
        !complete ==> states.0@ == "generating"@ && states.1@ == "pending"@,
{
    if complete {
        ("ready", "valid")
    } else {
        ("generating", "pending")
    }
}

/// The generation and validation states of the revision that pausing a
/// generation appends.
pub fn pause_revision_states() -> (states: (&'static str, &'static str))
    ensures
        states.0@ == "ready_partial"@ && states.1@ == "pending"@,
{
    ("ready_partial", "pending")
}

/// The digest by which candidates and batches are compared: the lowercase
/// hex SHA-256 of the text's UTF-8 bytes.
pub fn digest(text: &str) -> (digest: String)
    ensures
        digest@ == hex_lower(sha256_of(vstd::utf8::encode_utf8(text@))),
{
    hex_sha256(text)
}

/// A sequence number or counter as the store's signed 64-bit integer; one
/// past `i64::MAX` cannot be stored.
pub fn stored_counter(value: u64) -> (stored: Result<i64, ProposalStreamError>)
    ensures
        value <= i64::MAX ==> stored == Ok::<i64, ProposalStreamError>(value as i64),
        value > i64::MAX ==> stored is Err,
{
    if value <= 9223372036854775807u64 {
        Ok(value as i64)
    } else {
        Err(ProposalStreamError::Unavailable(String::from_str("counter is out of the stored range")))
    }
}

/// A stored signed counter as a sequence number; a negative one is damage.
pub fn loaded_counter(value: i64) -> (loaded: Result<u64, ProposalStreamError>)
    ensures
        value >= 0 ==> loaded == Ok::<u64, ProposalStreamError>(value as u64),
        value < 0 ==> loaded is Err,
{
    if value >= 0 {
        Ok(value as u64)
    } else {
        Err(ProposalStreamError::Unavailable(String::from_str("stored counter is negative")))
    }
}

/// Appending a revision must insert exactly one revision and advance exactly
/// one head.
pub fn require_revision_appended(inserted: u64, updated: u64) -> (checked: Result<
    (),
    ProposalStreamError,
>)
    ensures
        (inserted == 1 && updated == 1) <==> checked is Ok,
{
    if inserted != 1 {
        return Err(ProposalStreamError::Unavailable(String::from_str("Streamed Proposal revision was not appended")));
    }
    if updated != 1 {
        return Err(ProposalStreamError::Unavailable(String::from_str("Streamed Proposal head did not advance")));
    }
    Ok(())
}

/// The streaming generation of a Proposal as stored.
#[derive(Debug, Clone, PartialEq, Eq)]
pub struct LoadedGeneration {
    pub proposal_id: String,
    pub generation_id: String,
    pub revision_id: String,
    pub candidate_text: String,
    pub last_seq: u64,
    pub generation_state: String,
    pub existing_fence: bool,
    pub block_id: String,
    pub base_revision_id: String,
}

/// A block that an admitted target names, with the revision it was admitted
/// against.
#[derive(Debug, Clone, PartialEq, Eq)]
pub struct AdmittedTarget {
    pub block_id: String,
    pub revision_id: String,
}

/// The generation that opening a Proposal on `first` starts: generating, no
/// batch applied, an empty candidate, no fence, on the admitted block and
/// revision.
pub fn opened_generation(
    proposal_id: String,
    generation_id: String,
    revision_id: String,
    first: &AdmittedTarget,
) -> (loaded: LoadedGeneration)
    ensures
        loaded.proposal_id == proposal_id,
        loaded.generation_id == generation_id,
        loaded.revision_id == revision_id,
        loaded.candidate_text@.len() == 0,
        loaded.last_seq == 0,
        loaded.generation_state@ == "generating"@,
        !loaded.existing_fence,
        loaded.block_id == first.block_id,
        loaded.base_revision_id == first.revision_id,
{
    LoadedGeneration {
        proposal_id,
        generation_id,
        revision_id,
        candidate_text: String::new(),
        last_seq: 0,
        generation_state: String::from_str("generating"),
        existing_fence: false,
        block_id: first.block_id.clone(),
        base_revision_id: first.revision_id.clone(),
    }
}

/// What opening a block Proposal is classified on.
#[derive(Debug, Clone, PartialEq, Eq)]
pub struct OpenBlockProposalInput {
    pub scope_matches: bool,
    pub target_block_present: bool,
    pub expected_base_revision_id: String,
    pub current_base_revision_id: Option<String>,
    pub conflicting_reservation: bool,
}

/// The classification input of opening a Proposal on the first admitted
/// target: the block is present when it has a current revision, which must
/// be the admitted one, and no other Proposal may hold it.
pub fn open_proposal_input(
    first: &AdmittedTarget,
    current_revision_id: Option<String>,
    reserved: bool,
) -> (input: OpenBlockProposalInput)
    ensures
        input.scope_matches,
        input.target_block_present == current_revision_id is Some,
        input.expected_base_revision_id == first.revision_id,
        input.current_base_revision_id == current_revision_id,
        input.conflicting_reservation == reserved,
{
    OpenBlockProposalInput {
        scope_matches: true,
        target_block_present: current_revision_id.is_some(),
        expected_base_revision_id: first.revision_id.clone(),
        current_base_revision_id: current_revision_id,
        conflicting_reservation: reserved,
    }
}

/// What appending a batch is classified on.
#[derive(Debug, Clone, PartialEq, Eq)]
pub struct AppendBatchInput {
    pub scope_matches: bool,
    pub generation_state: String,
    pub last_applied_stream_seq: u64,
    pub stream_seq: u64,
    pub expected_previous_stream_seq: u64,
    pub expected_proposal_revision_id: String,
    pub current_proposal_revision_id: String,
    pub expected_candidate_digest: String,
    pub current_candidate_digest: String,
    pub batch_digest: String,
    pub existing_batch_digest: Option<String>,
    pub reservation_owns_target: bool,
}

/// The classification input of appending the batch `text` at `stream_seq`
/// to a loaded generation: the generation expects its own last batch, head
/// revision and candidate; the batch and the candidate are compared by
/// digest, against the digest already stored for that sequence number, if
/// any.
pub fn append_batch_input(
    loaded: &LoadedGeneration,
    stream_seq: u64,
    text: &str,
    existing_batch_digest: Option<String>,
) -> (input: AppendBatchInput)
    ensures
        input.scope_matches,
        input.generation_state == loaded.generation_state,
        input.last_applied_stream_seq == loaded.last_seq,
        input.stream_seq == stream_seq,
        input.expected_previous_stream_seq == loaded.last_seq,
        input.expected_proposal_revision_id == loaded.revision_id,
        input.current_proposal_revision_id == loaded.revision_id,
        input.expected_candidate_digest@ == hex_lower(
            sha256_of(vstd::utf8::encode_utf8(loaded.candidate_text@)),
        ),
        input.current_candidate_digest@ == input.expected_candidate_digest@,
        input.batch_digest@ == hex_lower(sha256_of(vstd::utf8::encode_utf8(text@))),
        input.existing_batch_digest == existing_batch_digest,
        input.reservation_owns_target,
{
    AppendBatchInput {
        scope_matches: true,
        generation_state: loaded.generation_state.clone(),
        last_applied_stream_seq: loaded.last_seq,
        stream_seq,
        expected_previous_stream_seq: loaded.last_seq,
        expected_proposal_revision_id: loaded.revision_id.clone(),
        current_proposal_revision_id: loaded.revision_id.clone(),
        expected_candidate_digest: digest(loaded.candidate_text.as_str()),
        current_candidate_digest: digest(loaded.candidate_text.as_str()),
        batch_digest: digest(text),
        existing_batch_digest,
        reservation_owns_target: true,
    }
}

/// What pausing a generation is classified on.
#[derive(Debug, Clone, PartialEq, Eq)]
pub struct PauseGenerationInput {
    pub scope_matches: bool,
    pub generation_state: String,
    pub expected_proposal_revision_id: String,
    pub current_proposal_revision_id: String,
    pub expected_candidate_digest: String,
    pub current_candidate_digest: String,
    pub last_applied_stream_seq: u64,
    pub admitted_through_seq: u64,
    pub existing_fence: bool,
}

/// The classification input of pausing a generation at an author edit: the
/// generation is paused where it stands, admitted through its last applied
/// batch, unless a fence already stops it.
pub fn pause_generation_input(loaded: &LoadedGeneration) -> (input: PauseGenerationInput)
    ensures
        input.scope_matches,
        input.generation_state == loaded.generation_state,
        input.expected_proposal_revision_id == loaded.revision_id,
        input.current_proposal_revision_id == loaded.revision_id,
        input.expected_candidate_digest@ == hex_lower(
            sha256_of(vstd::utf8::encode_utf8(loaded.candidate_text@)),
        ),
        input.current_candidate_digest@ == input.expected_candidate_digest@,
        input.last_applied_stream_seq == loaded.last_seq,
        input.admitted_through_seq == loaded.last_seq,
        input.existing_fence == loaded.existing_fence,
{
    PauseGenerationInput {
        scope_matches: true,
        generation_state: loaded.generation_state.clone(),
        expected_proposal_revision_id: loaded.revision_id.clone(),
        current_proposal_revision_id: loaded.revision_id.clone(),
        expected_candidate_digest: digest(loaded.candidate_text.as_str()),
        current_candidate_digest: digest(loaded.candidate_text.as_str()),
        last_applied_stream_seq: loaded.last_seq,
        admitted_through_seq: loaded.last_seq,
        existing_fence: loaded.existing_fence,
    }
}

/// Law: after a batch at `stream_seq` is persisted, the run holds exactly
/// when the next streaming step finds another batch, and that batch comes
/// after the persisted one; the batch is complete exactly when none is left.
pub proof fn lemma_stream_progress(batches: Seq<(u64, String)>, stream_seq: u64)
    ensures
        later_batch(batches, stream_seq) <==> first_batch_after(batches, stream_seq) is Some,
        first_batch_after(batches, stream_seq) matches Some(i) ==> batches[i].0 > stream_seq,
{
    lemma_first_batch_after(batches, stream_seq);
    if later_batch(batches, stream_seq) {
        let i = choose|i: int| 0 <= i < batches.len() && (#[trigger] batches[i]).0 > stream_seq;
        assert(batches[i].0 > stream_seq);
    }
}

} // verus!
