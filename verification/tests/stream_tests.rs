use storyos_adapter_postgres::stream_proposal::{
    batch_outcome, batch_revision_states, digest, generation_accepts_batches, has_later_batch, loaded_counter,
    next_stream_batch, pause_revision_states, plan_stream_batch, require_revision_appended, stored_counter,
    append_batch_input, open_proposal_input, opened_generation, pause_generation_input, AdmittedTarget,
    AppendBatchResult, BatchAction, StreamPlan, StreamWork,
};

fn plan() -> Vec<(u64, String)> {
    vec![(1, "One".to_owned()), (2, "One two".to_owned()), (3, "One two three".to_owned())]
}

#[test]
fn next_batch_is_the_first_after_the_applied_ones() {
    assert_eq!(next_stream_batch(&plan(), 0), Some(0));
    assert_eq!(next_stream_batch(&plan(), 2), Some(2));
    assert_eq!(next_stream_batch(&plan(), 3), None);
    assert!(has_later_batch(&plan(), 2));
    assert!(!has_later_batch(&plan(), 3));
}

#[test]
fn streaming_plan_respects_the_generation() {
    assert!(generation_accepts_batches("generating", false));
    assert!(!generation_accepts_batches("generating", true));
    assert!(!generation_accepts_batches("ready", false));
    assert_eq!(plan_stream_batch("generating", false, &plan(), 1), StreamPlan::Batch { index: 1 });
    assert_eq!(plan_stream_batch("generating", true, &plan(), 1), StreamPlan::Continue);
    assert_eq!(plan_stream_batch("generating", false, &plan(), 3), StreamPlan::Continue);
}

#[test]
fn batch_outcomes() {
    assert_eq!(batch_outcome(AppendBatchResult::Applied, &plan(), 1), (BatchAction::Persist { complete: false }, StreamWork::Hold));
    assert_eq!(batch_outcome(AppendBatchResult::Applied, &plan(), 3), (BatchAction::Persist { complete: true }, StreamWork::Continue));
    assert_eq!(batch_outcome(AppendBatchResult::Duplicate, &plan(), 2), (BatchAction::RememberDuplicate, StreamWork::Hold));
    assert_eq!(batch_outcome(AppendBatchResult::Wait, &plan(), 1), (BatchAction::Stop, StreamWork::Continue));
    assert_eq!(batch_revision_states(true), ("ready", "valid"));
    assert_eq!(batch_revision_states(false), ("generating", "pending"));
    assert_eq!(pause_revision_states(), ("ready_partial", "pending"));
}

#[test]
fn stream_counters_and_digests() {
    assert_eq!(stored_counter(5), Ok(5));
    assert!(stored_counter(u64::MAX).is_err());
    assert_eq!(loaded_counter(9), Ok(9));
    assert!(loaded_counter(-1).is_err());
    assert!(require_revision_appended(1, 1).is_ok());
    assert!(require_revision_appended(0, 1).is_err());
    assert!(require_revision_appended(1, 0).is_err());
    assert_eq!(digest(""), "e3b0c44298fc1c149afbf4c8996fb92427ae41e4649b934ca495991b7852b855");
}

#[test]
fn classification_inputs_of_streaming() {
    let first = AdmittedTarget { block_id: "b1".to_owned(), revision_id: "r1".to_owned() };
    let opened = opened_generation("p1".to_owned(), "g1".to_owned(), "pr1".to_owned(), &first);
    assert_eq!(opened.last_seq, 0);
    assert_eq!(opened.generation_state, "generating");
    assert_eq!(opened.base_revision_id, "r1");
    let input = append_batch_input(&opened, 1, "One", None);
    assert_eq!(input.expected_candidate_digest, digest(""));
    assert_eq!(input.batch_digest, digest("One"));
    assert_eq!((input.last_applied_stream_seq, input.stream_seq, input.expected_previous_stream_seq), (0, 1, 0));
    let pause = pause_generation_input(&opened);
    assert_eq!(pause.admitted_through_seq, 0);
    assert!(!pause.existing_fence);
    let open = open_proposal_input(&first, None, true);
    assert!(!open.target_block_present && open.conflicting_reservation);
    assert_eq!(open.expected_base_revision_id, "r1");
}
