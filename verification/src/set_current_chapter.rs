//! Set Current Chapter: the settlement that the classification gives, the
//! admission it records, the receipt it writes, and the replay that reads it.

use crate::command::{
    lifecycle_of_text, outcome_view, project_lifecycle, reason_is, receipt_outcome, replay_activity,
    replayed_activity, same_text, text_view, AuthorCommandAdmissionIds, ChapterJoin, ProjectCommandChallengeError,
    ProjectLifecycle, ReadBack, ReceiptOutcome, StoreEvent, UnavailableCause,
};
use crate::text::{decimal_text, parse_u64, u64_text_value};
use crate::ids::new_object_id;
use crate::json::{json_text_field, json_text_parses, payload_text, PayloadValue};
use vstd::prelude::*;

verus! {

#[derive(Debug, Clone, Copy, PartialEq, Eq)]
pub enum SetCurrentChapterNoEffect {
    AlreadyCurrent,
}

#[derive(Debug, Clone, Copy, PartialEq, Eq)]
pub enum SetCurrentChapterConflict {
    StaleCurrentChapter,
    WrongTargetHead,
}

#[derive(Debug, Clone, Copy, PartialEq, Eq)]
pub enum SetCurrentChapterRefusal {
    ArchivedProject,
    InvalidChapterJoin,
    EmptyProject,
    MissingProject,
}

/// The classification of a Set Current Chapter command.
#[derive(Debug, Clone, PartialEq, Eq)]
pub enum SetCurrentChapterResult {
    Applied { current_chapter_id: String },
    NoEffect { reason: SetCurrentChapterNoEffect },
    Conflicted { reason: SetCurrentChapterConflict },
    Refused { reason: SetCurrentChapterRefusal },
}

/// What a settled Set Current Chapter command did.
#[derive(Debug, Clone, PartialEq, Eq)]
pub enum SetCurrentChapterSettlementEffect {
    Applied { current_chapter_id: String, base_snapshot_id: String },
    NoEffect { reason: SetCurrentChapterNoEffect },
    Conflicted { reason: SetCurrentChapterConflict },
    Refused { reason: SetCurrentChapterRefusal },
}

/// A settlement effect with its identities as texts.
pub enum CurrentChapterEffectView {
    Applied { current_chapter_id: Seq<char>, base_snapshot_id: Seq<char> },
    NoEffect { reason: SetCurrentChapterNoEffect },
    Conflicted { reason: SetCurrentChapterConflict },
    Refused { reason: SetCurrentChapterRefusal },
}

pub open spec fn effect_view(effect: SetCurrentChapterSettlementEffect) -> CurrentChapterEffectView {
    match effect {
        SetCurrentChapterSettlementEffect::Applied { current_chapter_id, base_snapshot_id } =>
            CurrentChapterEffectView::Applied {
            current_chapter_id: current_chapter_id@,
            base_snapshot_id: base_snapshot_id@,
        },
        SetCurrentChapterSettlementEffect::NoEffect { reason } =>
            CurrentChapterEffectView::NoEffect { reason },
        SetCurrentChapterSettlementEffect::Conflicted { reason } =>
            CurrentChapterEffectView::Conflicted { reason },
        SetCurrentChapterSettlementEffect::Refused { reason } =>
            CurrentChapterEffectView::Refused { reason },
    }
}

#[derive(Debug, Clone, PartialEq, Eq)]
pub enum SetCurrentChapterError {
    MissingProject,
    BindingConflict,
    InvalidChallenge,
    Unavailable(UnavailableCause),
}

/// How a challenge failure answers a Set Current Chapter command.
pub fn set_current_chapter_challenge_error(error: ProjectCommandChallengeError) -> (mapped:
    SetCurrentChapterError)
    ensures
        mapped == (match error {
            ProjectCommandChallengeError::BindingConflict => SetCurrentChapterError::BindingConflict,
            ProjectCommandChallengeError::InvalidOrExpired =>
                SetCurrentChapterError::InvalidChallenge,
            other => SetCurrentChapterError::Unavailable(UnavailableCause::Challenge(other)),
        }),
{
    match error {
        ProjectCommandChallengeError::BindingConflict => SetCurrentChapterError::BindingConflict,
        ProjectCommandChallengeError::InvalidOrExpired => SetCurrentChapterError::InvalidChallenge,
        other => SetCurrentChapterError::Unavailable(UnavailableCause::Challenge(other)),
    }
}

/// The Project row that a Set Current Chapter command reads: its lifecycle
/// and Current Chapter, the target Chapter if it is live in the Project, the
/// target's current head, and the expected revision if it is one of the
/// target's.
pub struct CurrentChapterRow {
    pub lifecycle_state: String,
    pub current_chapter_id: Option<String>,
    pub target_chapter_id: Option<String>,
    pub target_head_revision_id: Option<String>,
    pub expected_revision_id: Option<String>,
}

/// What the Set Current Chapter classification is given, and whether the
/// expected revision is one of the target's.
#[derive(Debug, Clone, PartialEq, Eq)]
pub struct SetCurrentChapterInput {
    pub chapter_join: ChapterJoin,
    pub current_lifecycle: ProjectLifecycle,
    pub current_chapter_id: Option<String>,
    pub expected_current_chapter_id: Option<String>,
    pub target_chapter_id: String,
    pub expected_target_revision_id: String,
    pub current_target_revision_id: String,
    pub expected_revision_exists: bool,
}

/// The classification input of a Set Current Chapter command from the
/// Project row: no row is a missing Project, a lifecycle other than active
/// or archived makes the command unavailable; the target joins the Project
/// when it is live in it, and its current head is empty without one.
pub fn set_current_chapter_input(
    row: Option<CurrentChapterRow>,
    chapter_id: &str,
    expected_current_chapter_id: Option<String>,
    expected_target_revision_id: &str,
) -> (input: Result<SetCurrentChapterInput, SetCurrentChapterError>)
    ensures
        match row {
            None => input matches Err(e) && e == SetCurrentChapterError::MissingProject,
            Some(r) => match lifecycle_of_text(r.lifecycle_state@) {
                None => input matches Err(e) && e is Unavailable,
                Some(lifecycle) => input matches Ok(i) && i.current_lifecycle == lifecycle
                    && i.chapter_join == (if r.target_chapter_id is Some {
                    ChapterJoin::ExactScope
                } else {
                    ChapterJoin::Invalid
                }) && i.current_chapter_id == r.current_chapter_id && i.expected_current_chapter_id
                    == expected_current_chapter_id && i.target_chapter_id@ == chapter_id@
                    && i.expected_target_revision_id@ == expected_target_revision_id@
                    && i.current_target_revision_id@ == (match r.target_head_revision_id {
                    Some(head) => head@,
                    None => Seq::<char>::empty(),
                }) && i.expected_revision_exists == r.expected_revision_id is Some,
            },
        },
{
    let row = match row {
        Some(row) => row,
        None => {
            return Err(SetCurrentChapterError::MissingProject);
        },
    };
    let current_lifecycle = match project_lifecycle(row.lifecycle_state.as_str()) {
        Some(lifecycle) => lifecycle,
        None => {
            return Err(
                SetCurrentChapterError::Unavailable(
                    UnavailableCause::Message(String::from_str("unsupported Project lifecycle")),
                ),
            );
        },
    };
    let chapter_join = if row.target_chapter_id.is_some() {
        ChapterJoin::ExactScope
    } else {
        ChapterJoin::Invalid
    };
    let current_target_revision_id = match row.target_head_revision_id {
        Some(head) => head,
        None => String::new(),
    };
    Ok(
        SetCurrentChapterInput {
            chapter_join,
            current_lifecycle,
            current_chapter_id: row.current_chapter_id,
            expected_current_chapter_id,
            target_chapter_id: String::from_str(chapter_id),
            expected_target_revision_id: String::from_str(expected_target_revision_id),
            current_target_revision_id,
            expected_revision_exists: row.expected_revision_id.is_some(),
        },
    )
}

/// The settlement effect of a classification: an applied switch gets a
/// fresh base snapshot id; a missing Project is no settlement at all.
pub fn settlement_effect(classified: SetCurrentChapterResult) -> (effect: Result<
    SetCurrentChapterSettlementEffect,
    SetCurrentChapterError,
>)
    ensures
        match classified {
            SetCurrentChapterResult::Applied { current_chapter_id } => effect matches Ok(
                SetCurrentChapterSettlementEffect::Applied { current_chapter_id: c, base_snapshot_id: b },
            ) && c == current_chapter_id && b@.len() == 36,
            SetCurrentChapterResult::NoEffect { reason } => effect == Ok::<
                SetCurrentChapterSettlementEffect,
                SetCurrentChapterError,
            >(SetCurrentChapterSettlementEffect::NoEffect { reason }),
            SetCurrentChapterResult::Conflicted { reason } => effect == Ok::<
                SetCurrentChapterSettlementEffect,
                SetCurrentChapterError,
            >(SetCurrentChapterSettlementEffect::Conflicted { reason }),
            SetCurrentChapterResult::Refused { reason } => if reason
                == SetCurrentChapterRefusal::MissingProject {
                effect == Err::<SetCurrentChapterSettlementEffect, SetCurrentChapterError>(
                    SetCurrentChapterError::MissingProject,
                )
            } else {
                effect == Ok::<SetCurrentChapterSettlementEffect, SetCurrentChapterError>(
                    SetCurrentChapterSettlementEffect::Refused { reason },
                )
            },
        },
{
    match classified {
        SetCurrentChapterResult::Applied { current_chapter_id } => Ok(
            SetCurrentChapterSettlementEffect::Applied {
                current_chapter_id,
                base_snapshot_id: new_object_id(),
            },
        ),
        SetCurrentChapterResult::NoEffect { reason } => Ok(
            SetCurrentChapterSettlementEffect::NoEffect { reason },
        ),
        SetCurrentChapterResult::Conflicted { reason } => Ok(
            SetCurrentChapterSettlementEffect::Conflicted { reason },
        ),
        SetCurrentChapterResult::Refused { reason: SetCurrentChapterRefusal::MissingProject } => Err(
            SetCurrentChapterError::MissingProject,
        ),
        SetCurrentChapterResult::Refused { reason } => Ok(
            SetCurrentChapterSettlementEffect::Refused { reason },
        ),
    }
}

/// The Chapter and expected head that the admission records: the target
/// Chapter only when it joins the Project, and then the expected revision
/// when it is one of the Chapter's, else the Chapter's current head.
pub fn admission_targets(
    chapter_join: ChapterJoin,
    expected_revision_exists: bool,
    chapter_id: &str,
    expected_target_revision_id: &str,
    current_target_revision_id: &str,
) -> (targets: (Option<String>, Option<String>))
    ensures
        text_view(targets.0) == (match chapter_join {
            ChapterJoin::ExactScope => Some(chapter_id@),
            ChapterJoin::Invalid => None::<Seq<char>>,
        }),
        text_view(targets.1) == (match chapter_join {
            ChapterJoin::ExactScope => if expected_revision_exists {
                Some(expected_target_revision_id@)
            } else {
                Some(current_target_revision_id@)
            },
            ChapterJoin::Invalid => None::<Seq<char>>,
        }),
{
    match chapter_join {
        ChapterJoin::ExactScope => (
            Some(String::from_str(chapter_id)),
            if expected_revision_exists {
                Some(String::from_str(expected_target_revision_id))
            } else {
                Some(String::from_str(current_target_revision_id))
            },
        ),
        ChapterJoin::Invalid => (None, None),
    }
}

/// The head that the receipt records as prior and resulting: the target's
/// current head, or the expected revision when the target has none.
pub fn resulting_head(current_target_revision_id: &str, expected_target_revision_id: &str) -> (head:
    String)
    ensures
        head@ == (if current_target_revision_id@.len() == 0 {
            expected_target_revision_id@
        } else {
            current_target_revision_id@
        }),
{
    if current_target_revision_id.is_empty() {
        String::from_str(expected_target_revision_id)
    } else {
        String::from_str(current_target_revision_id)
    }
}

/// The result kind and reason that the receipt of an effect records.
pub open spec fn effect_outcome(effect: CurrentChapterEffectView) -> Option<
    (Seq<char>, Option<Seq<char>>),
> {
    match effect {
        CurrentChapterEffectView::Applied { .. } => Some(("authoritative_applied"@, None)),
        CurrentChapterEffectView::NoEffect { .. } => Some(("no_effect"@, Some("already_current"@))),
        CurrentChapterEffectView::Conflicted { reason } => Some(
            (
                "conflicted"@,
                Some(
                    match reason {
                        SetCurrentChapterConflict::StaleCurrentChapter => "stale_current_chapter"@,
                        SetCurrentChapterConflict::WrongTargetHead => "wrong_target_head"@,
                    },
                ),
            ),
        ),
        CurrentChapterEffectView::Refused { reason } => match reason {
            SetCurrentChapterRefusal::ArchivedProject => Some(
                ("refused"@, Some("archived_project"@)),
            ),
            SetCurrentChapterRefusal::InvalidChapterJoin => Some(
                ("refused"@, Some("invalid_chapter_join"@)),
            ),
            SetCurrentChapterRefusal::EmptyProject => Some(("refused"@, Some("empty_project"@))),
            SetCurrentChapterRefusal::MissingProject => None,
        },
    }
}

/// The receipt outcome of a settlement effect; a missing Project records none.
pub fn set_current_chapter_outcome(effect: &SetCurrentChapterSettlementEffect) -> (outcome: Result<
    ReceiptOutcome,
    SetCurrentChapterError,
>)
    ensures
        match outcome {
            Ok(o) => effect_outcome(effect_view(*effect)) == Some(outcome_view(o)),
            Err(e) => effect_outcome(effect_view(*effect)) is None && e
                == SetCurrentChapterError::MissingProject,
        },
{
    match effect {
        SetCurrentChapterSettlementEffect::Applied { .. } => Ok(
            receipt_outcome("authoritative_applied", None),
        ),
        SetCurrentChapterSettlementEffect::NoEffect { .. } => Ok(
            receipt_outcome("no_effect", Some("already_current")),
        ),
        SetCurrentChapterSettlementEffect::Conflicted { reason } => Ok(
            receipt_outcome(
                "conflicted",
                Some(
                    match reason {
                        SetCurrentChapterConflict::StaleCurrentChapter => "stale_current_chapter",
                        SetCurrentChapterConflict::WrongTargetHead => "wrong_target_head",
                    },
                ),
            ),
        ),
        SetCurrentChapterSettlementEffect::Refused { reason } => match reason {
            SetCurrentChapterRefusal::ArchivedProject => Ok(
                receipt_outcome("refused", Some("archived_project")),
            ),
            SetCurrentChapterRefusal::InvalidChapterJoin => Ok(
                receipt_outcome("refused", Some("invalid_chapter_join")),
            ),
            SetCurrentChapterRefusal::EmptyProject => Ok(
                receipt_outcome("refused", Some("empty_project")),
            ),
            SetCurrentChapterRefusal::MissingProject => Err(SetCurrentChapterError::MissingProject),
        },
    }
}

/// The Project Activity payload of an applied switch.
pub fn current_chapter_set_payload(
    prior_chapter_id: &Option<String>,
    current_chapter_id: &str,
    base_snapshot_id: &str,
) -> (payload: String)
    ensures
        json_text_parses(payload@),
        json_text_field(payload@, "kind"@) == Some("current_chapter_set"@),
        json_text_field(payload@, "prior_chapter_id"@) == text_view(*prior_chapter_id),
        json_text_field(payload@, "current_chapter_id"@) == Some(current_chapter_id@),
        json_text_field(payload@, "base_snapshot_id"@) == Some(base_snapshot_id@),
{
    let mut fields: Vec<(String, PayloadValue)> = Vec::new();
    fields.push((String::from_str("kind"), PayloadValue::Text(String::from_str("current_chapter_set"))));
    fields.push(
        (
            String::from_str("prior_chapter_id"),
            match prior_chapter_id {
                Some(prior) => PayloadValue::Text(prior.clone()),
                None => PayloadValue::Null,
            },
        ),
    );
    fields.push((String::from_str("current_chapter_id"), PayloadValue::Text(String::from_str(current_chapter_id))));
    fields.push((String::from_str("base_snapshot_id"), PayloadValue::Text(String::from_str(base_snapshot_id))));
    let payload = payload_text(&fields);
    proof {
        reveal_strlit("kind");
        assert("kind"@.len() == 4);
        reveal_strlit("prior_chapter_id");
        assert("prior_chapter_id"@.len() == 16);
        reveal_strlit("current_chapter_id");
        assert("current_chapter_id"@.len() == 18);
        reveal_strlit("base_snapshot_id");
        assert("base_snapshot_id"@.len() == 16);
        let f = fields@;
        assert(f[1].0@[0] != f[3].0@[0]);
        assert(f[1].0@ != f[3].0@);
        assert(crate::json::sole_member(f, 0));
        assert(crate::json::sole_member(f, 1));
        assert(crate::json::sole_member(f, 2));
        assert(crate::json::sole_member(f, 3));
        assert(json_text_field(payload@, f[0].0@) == crate::json::payload_member(f[0]).1);
        assert(json_text_field(payload@, f[1].0@) == crate::json::payload_member(f[1]).1);
        assert(json_text_field(payload@, f[2].0@) == crate::json::payload_member(f[2]).1);
        assert(json_text_field(payload@, f[3].0@) == crate::json::payload_member(f[3]).1);
    }
    payload
}

/// The effect that a stored receipt stands for, from its result kind, its
/// reason, and the identities of its activity payload.
pub open spec fn effect_of_receipt(
    result_kind: Seq<char>,
    reason: Option<Seq<char>>,
    current_chapter_id: Option<Seq<char>>,
    base_snapshot_id: Option<Seq<char>>,
) -> Option<CurrentChapterEffectView> {
    if result_kind == "authoritative_applied"@ && reason is None {
        if current_chapter_id is Some && base_snapshot_id is Some {
            Some(
                CurrentChapterEffectView::Applied {
                    current_chapter_id: current_chapter_id->0,
                    base_snapshot_id: base_snapshot_id->0,
                },
            )
        } else {
            None
        }
    } else if result_kind == "no_effect"@ && reason == Some("already_current"@) {
        Some(CurrentChapterEffectView::NoEffect { reason: SetCurrentChapterNoEffect::AlreadyCurrent })
    } else if result_kind == "conflicted"@ && reason == Some("stale_current_chapter"@) {
        Some(
            CurrentChapterEffectView::Conflicted {
                reason: SetCurrentChapterConflict::StaleCurrentChapter,
            },
        )
    } else if result_kind == "conflicted"@ && reason == Some("wrong_target_head"@) {
        Some(
            CurrentChapterEffectView::Conflicted { reason: SetCurrentChapterConflict::WrongTargetHead },
        )
    } else if result_kind == "refused"@ && reason == Some("archived_project"@) {
        Some(CurrentChapterEffectView::Refused { reason: SetCurrentChapterRefusal::ArchivedProject })
    } else if result_kind == "refused"@ && reason == Some("invalid_chapter_join"@) {
        Some(
            CurrentChapterEffectView::Refused { reason: SetCurrentChapterRefusal::InvalidChapterJoin },
        )
    } else if result_kind == "refused"@ && reason == Some("empty_project"@) {
        Some(CurrentChapterEffectView::Refused { reason: SetCurrentChapterRefusal::EmptyProject })
    } else {
        None
    }
}

/// Reads back the effect of a settled receipt; a receipt that stands for no
/// effect is a binding conflict.
pub fn read_set_current_chapter_effect(
    result_kind: &str,
    reason: Option<&str>,
    current_chapter_id: Option<String>,
    base_snapshot_id: Option<String>,
) -> (effect: Result<SetCurrentChapterSettlementEffect, SetCurrentChapterError>)
    ensures
        match effect {
            Ok(e) => effect_of_receipt(
                result_kind@,
                match reason {
                    Some(r) => Some(r@),
                    None => None,
                },
                text_view(current_chapter_id),
                text_view(base_snapshot_id),
            ) == Some(effect_view(e)),
            Err(e) => e == SetCurrentChapterError::BindingConflict && effect_of_receipt(
                result_kind@,
                match reason {
                    Some(r) => Some(r@),
                    None => None,
                },
                text_view(current_chapter_id),
                text_view(base_snapshot_id),
            ) is None,
        },
{
    if same_text(result_kind, "authoritative_applied") && reason.is_none() {
        match (current_chapter_id, base_snapshot_id) {
            (Some(current_chapter_id), Some(base_snapshot_id)) => Ok(
                SetCurrentChapterSettlementEffect::Applied { current_chapter_id, base_snapshot_id },
            ),
            _ => Err(SetCurrentChapterError::BindingConflict),
        }
    } else if same_text(result_kind, "no_effect") && reason_is(reason, "already_current") {
        Ok(SetCurrentChapterSettlementEffect::NoEffect { reason: SetCurrentChapterNoEffect::AlreadyCurrent })
    } else if same_text(result_kind, "conflicted") && reason_is(reason, "stale_current_chapter") {
        Ok(
            SetCurrentChapterSettlementEffect::Conflicted {
                reason: SetCurrentChapterConflict::StaleCurrentChapter,
            },
        )
    } else if same_text(result_kind, "conflicted") && reason_is(reason, "wrong_target_head") {
        Ok(SetCurrentChapterSettlementEffect::Conflicted { reason: SetCurrentChapterConflict::WrongTargetHead })
    } else if same_text(result_kind, "refused") && reason_is(reason, "archived_project") {
        Ok(SetCurrentChapterSettlementEffect::Refused { reason: SetCurrentChapterRefusal::ArchivedProject })
    } else if same_text(result_kind, "refused") && reason_is(reason, "invalid_chapter_join") {
        Ok(SetCurrentChapterSettlementEffect::Refused { reason: SetCurrentChapterRefusal::InvalidChapterJoin })
    } else if same_text(result_kind, "refused") && reason_is(reason, "empty_project") {
        Ok(SetCurrentChapterSettlementEffect::Refused { reason: SetCurrentChapterRefusal::EmptyProject })
    } else {
        Err(SetCurrentChapterError::BindingConflict)
    }
}

/// Law: a replay reads back exactly the effect that the first use settled.
/// The receipt records the effect's outcome, and an applied switch's
/// activity payload records its identities; reading those back gives the
/// same effect.
pub proof fn lemma_set_current_chapter_replay(effect: SetCurrentChapterSettlementEffect)
    requires
        effect_outcome(effect_view(effect)) is Some,
    ensures
        ({
            let (kind, reason) = effect_outcome(effect_view(effect))->0;
            let (current, snapshot) = match effect {
                SetCurrentChapterSettlementEffect::Applied { current_chapter_id, base_snapshot_id } =>
                    (Some(current_chapter_id@), Some(base_snapshot_id@)),
                _ => (None, None),
            };
            effect_of_receipt(kind, reason, current, snapshot) == Some(effect_view(effect))
        }),
{
    reveal_strlit("authoritative_applied");
    assert("authoritative_applied"@.len() == 21);
    reveal_strlit("no_effect");
    assert("no_effect"@.len() == 9);
    reveal_strlit("conflicted");
    assert("conflicted"@.len() == 10);
    reveal_strlit("refused");
    assert("refused"@.len() == 7);
    reveal_strlit("already_current");
    assert("already_current"@.len() == 15);
    reveal_strlit("stale_current_chapter");
    assert("stale_current_chapter"@.len() == 21);
    reveal_strlit("wrong_target_head");
    assert("wrong_target_head"@.len() == 17);
    reveal_strlit("archived_project");
    assert("archived_project"@.len() == 16);
    reveal_strlit("invalid_chapter_join");
    assert("invalid_chapter_join"@.len() == 20);
    reveal_strlit("empty_project");
    assert("empty_project"@.len() == 13);
    match effect {
        SetCurrentChapterSettlementEffect::Applied { .. } => {},
        SetCurrentChapterSettlementEffect::NoEffect { .. } => {
            assert("no_effect"@ != "authoritative_applied"@);
        },
        SetCurrentChapterSettlementEffect::Conflicted { reason } => {
            assert("conflicted"@ != "authoritative_applied"@);
            assert("conflicted"@ != "no_effect"@);
            assert("stale_current_chapter"@ != "wrong_target_head"@);
        },
        SetCurrentChapterSettlementEffect::Refused { reason } => {
            assert("refused"@ != "authoritative_applied"@);
            assert("refused"@ != "no_effect"@);
            assert("refused"@ != "conflicted"@);
            assert("archived_project"@ != "invalid_chapter_join"@);
            assert("archived_project"@ != "empty_project"@);
            assert("invalid_chapter_join"@ != "empty_project"@);
        },
    }
}

/// A write of an applied Set Current Chapter command whose row count is checked.
#[derive(Debug, Clone, Copy, PartialEq, Eq)]
pub enum SetCurrentChapterWrite {
    /// The Project's Current Chapter moved from the expected one.
    ProjectUpdated,
    /// The current writer's base snapshot moved to the new Chapter.
    BaseSnapshotMoved,
    /// The admission of the command was recorded.
    AdmissionInserted,
}

/// Checks the row count of a write: each must touch exactly one row. A Project
/// that no longer has the expected Current Chapter makes the command
/// unavailable; a base snapshot that the session no longer holds as writer is
/// a binding conflict; an admission without its consumed challenge is an
/// invalid challenge.
pub fn check_set_current_chapter_write(write: SetCurrentChapterWrite, count: u64) -> (checked: Result<(), SetCurrentChapterError>)
    ensures
        count == 1 ==> checked is Ok,
        count != 1 ==> match write {
            SetCurrentChapterWrite::ProjectUpdated => checked matches Err(SetCurrentChapterError::Unavailable(
                UnavailableCause::Message(message),
            )) && message@ == "current Chapter changed under FOR UPDATE"@,
            SetCurrentChapterWrite::BaseSnapshotMoved => checked matches Err(e) && e == SetCurrentChapterError::BindingConflict,
            SetCurrentChapterWrite::AdmissionInserted => checked matches Err(e) && e == SetCurrentChapterError::InvalidChallenge,
        },
{
    if count == 1 {
        return Ok(());
    }
    match write {
        SetCurrentChapterWrite::ProjectUpdated => Err(
            SetCurrentChapterError::Unavailable(UnavailableCause::Message(String::from_str("current Chapter changed under FOR UPDATE"))),
        ),
        SetCurrentChapterWrite::BaseSnapshotMoved => Err(SetCurrentChapterError::BindingConflict),
        SetCurrentChapterWrite::AdmissionInserted => Err(SetCurrentChapterError::InvalidChallenge),
    }
}


/// The authority of an applied switch: the sequence of its Forward Author
/// Action, the Manuscript Tree revision (which a switch leaves as it is), and
/// the canonical tree snapshot it wrote.
#[derive(Debug, Clone, PartialEq, Eq)]
pub struct CurrentChapterAuthority {
    pub author_action_sequence: u64,
    pub manuscript_tree_revision: u64,
    pub snapshot_id: String,
}

/// An authority with its snapshot id as characters.
pub struct CurrentChapterAuthorityView {
    pub author_action_sequence: u64,
    pub manuscript_tree_revision: u64,
    pub snapshot_id: Seq<char>,
}

pub open spec fn authority_view(authority: Option<CurrentChapterAuthority>) -> Option<CurrentChapterAuthorityView> {
    match authority {
        Some(a) => Some(
            CurrentChapterAuthorityView {
                author_action_sequence: a.author_action_sequence,
                manuscript_tree_revision: a.manuscript_tree_revision,
                snapshot_id: a.snapshot_id@,
            },
        ),
        None => None,
    }
}

/// A settled Set Current Chapter command: its identities, the receipt time,
/// the effect, the Project Activity it wrote (position `0` and an empty
/// event id when it wrote none), and the authority of an applied switch.
#[derive(Debug, Clone, PartialEq, Eq)]
pub struct SetCurrentChapterSettlement {
    pub ids: AuthorCommandAdmissionIds,
    pub effect: SetCurrentChapterSettlementEffect,
    pub receipt_created_at: String,
    pub project_activity_position: u64,
    pub project_activity_event_id: String,
    pub authority: Option<CurrentChapterAuthority>,
}

/// A settlement with its texts as characters.
pub struct CurrentChapterSettlementView {
    pub command_id: Seq<char>,
    pub author_command_admission_id: Seq<char>,
    pub receipt_id: Seq<char>,
    pub effect: CurrentChapterEffectView,
    pub receipt_created_at: Seq<char>,
    pub project_activity_position: u64,
    pub project_activity_event_id: Seq<char>,
    pub authority: Option<CurrentChapterAuthorityView>,
}

pub open spec fn settlement_view(settlement: SetCurrentChapterSettlement) -> CurrentChapterSettlementView {
    CurrentChapterSettlementView {
        command_id: settlement.ids.command_id@,
        author_command_admission_id: settlement.ids.author_command_admission_id@,
        receipt_id: settlement.ids.receipt_id@,
        effect: effect_view(settlement.effect),
        receipt_created_at: settlement.receipt_created_at@,
        project_activity_position: settlement.project_activity_position,
        project_activity_event_id: settlement.project_activity_event_id@,
        authority: authority_view(settlement.authority),
    }
}

/// The authority that a replay reports: for an applied switch, the stored
/// Author Action sequence and tree revision with the switch's snapshot
/// (`None` inside when one of them is no counter, a damaged receipt); no
/// authority for any other effect.
pub open spec fn replayed_authority(
    effect: CurrentChapterEffectView,
    author_action_sequence: Option<Seq<char>>,
    manuscript_tree_revision: Option<Seq<char>>,
) -> Option<Option<CurrentChapterAuthorityView>> {
    match effect {
        CurrentChapterEffectView::Applied { base_snapshot_id, .. } => match (
            author_action_sequence,
            manuscript_tree_revision,
        ) {
            (Some(a), Some(r)) => match (u64_text_value(a), u64_text_value(r)) {
                (Some(sequence), Some(revision)) => Some(
                    Some(
                        CurrentChapterAuthorityView {
                            author_action_sequence: sequence,
                            manuscript_tree_revision: revision,
                            snapshot_id: base_snapshot_id,
                        },
                    ),
                ),
                _ => None,
            },
            _ => None,
        },
        _ => Some(None),
    }
}

/// Reads the authority of a replayed receipt; `None` when it is damaged.
fn replay_authority(
    effect: &SetCurrentChapterSettlementEffect,
    author_action_sequence: Option<String>,
    manuscript_tree_revision: Option<String>,
) -> (authority: Option<Option<CurrentChapterAuthority>>)
    ensures
        match authority {
            Some(a) => replayed_authority(
                effect_view(*effect),
                text_view(author_action_sequence),
                text_view(manuscript_tree_revision),
            ) == Some(authority_view(a)),
            None => replayed_authority(
                effect_view(*effect),
                text_view(author_action_sequence),
                text_view(manuscript_tree_revision),
            ) is None,
        },
{
    match effect {
        SetCurrentChapterSettlementEffect::Applied { base_snapshot_id, .. } => match (
            author_action_sequence,
            manuscript_tree_revision,
        ) {
            (Some(a), Some(r)) => match (parse_u64(a.as_str()), parse_u64(r.as_str())) {
                (Some(sequence), Some(revision)) => Some(
                    Some(
                        CurrentChapterAuthority {
                            author_action_sequence: sequence,
                            manuscript_tree_revision: revision,
                            snapshot_id: base_snapshot_id.clone(),
                        },
                    ),
                ),
                _ => None,
            },
            _ => None,
        },
        _ => Some(None),
    }
}

/// The stored receipt of a settled command as a replay reads it: the
/// receipt's identities, time, result kind and reason, and the members,
/// position and event id of its activity payload, if it has one.
pub struct CurrentChapterReceiptRow {
    pub command_id: String,
    pub author_command_admission_id: String,
    pub receipt_id: String,
    pub receipt_created_at: String,
    pub result_kind: String,
    pub reason: Option<String>,
    pub current_chapter_id: Option<String>,
    pub base_snapshot_id: Option<String>,
    pub project_activity_position: Option<String>,
    pub project_activity_event_id: Option<String>,
    pub author_action_sequence: Option<String>,
    pub manuscript_tree_revision: Option<String>,
}

/// The settlement that a stored receipt stands for: a receipt that stands
/// for no effect is a binding conflict, a damaged activity position or
/// authority is damage.
pub open spec fn settlement_of_row(row: CurrentChapterReceiptRow) -> ReadBack<CurrentChapterSettlementView> {
    match effect_of_receipt(
        row.result_kind@,
        text_view(row.reason),
        text_view(row.current_chapter_id),
        text_view(row.base_snapshot_id),
    ) {
        None => ReadBack::BindingConflict,
        Some(effect) => match replayed_activity(
            text_view(row.project_activity_position),
            text_view(row.project_activity_event_id),
        ) {
            None => ReadBack::Damaged,
            Some((position, event_id)) => match replayed_authority(
                effect,
                text_view(row.author_action_sequence),
                text_view(row.manuscript_tree_revision),
            ) {
                None => ReadBack::Damaged,
                Some(authority) => ReadBack::Effect(
                    CurrentChapterSettlementView {
                        command_id: row.command_id@,
                        author_command_admission_id: row.author_command_admission_id@,
                        receipt_id: row.receipt_id@,
                        effect,
                        receipt_created_at: row.receipt_created_at@,
                        project_activity_position: position,
                        project_activity_event_id: event_id,
                        authority,
                    },
                ),
            },
        },
    }
}

/// Reads back the settlement of a replayed command from its stored receipt.
pub fn replayed_set_current_chapter_settlement(row: CurrentChapterReceiptRow) -> (settlement: Result<
    SetCurrentChapterSettlement,
    SetCurrentChapterError,
>)
    ensures
        match settlement_of_row(row) {
            ReadBack::Effect(v) => settlement matches Ok(s) && settlement_view(s) == v,
            ReadBack::BindingConflict => settlement matches Err(e) && e
                == SetCurrentChapterError::BindingConflict,
            ReadBack::Damaged => settlement matches Err(e) && e is Unavailable,
        },
{
    let ghost stored = row;
    let CurrentChapterReceiptRow {
        command_id,
        author_command_admission_id,
        receipt_id,
        receipt_created_at,
        result_kind,
        reason,
        current_chapter_id,
        base_snapshot_id,
        project_activity_position,
        project_activity_event_id,
        author_action_sequence,
        manuscript_tree_revision,
    } = row;
    let reason_text: Option<&str> = match &reason {
        Some(r) => Some(r.as_str()),
        None => None,
    };
    let effect = read_set_current_chapter_effect(
        result_kind.as_str(),
        reason_text,
        current_chapter_id,
        base_snapshot_id,
    )?;
    let (position, event_id) = match replay_activity(project_activity_position, project_activity_event_id) {
        Some(activity) => activity,
        None => {
            return Err(
                SetCurrentChapterError::Unavailable(
                    UnavailableCause::Message(String::from_str("stored counter is not a decimal u64")),
                ),
            );
        },
    };
    let authority = match replay_authority(&effect, author_action_sequence, manuscript_tree_revision) {
        Some(authority) => authority,
        None => {
            return Err(
                SetCurrentChapterError::Unavailable(
                    UnavailableCause::Message(String::from_str("stored counter is not a decimal u64")),
                ),
            );
        },
    };
    Ok(
        SetCurrentChapterSettlement {
            ids: AuthorCommandAdmissionIds { command_id, author_command_admission_id, receipt_id },
            effect,
            receipt_created_at,
            project_activity_position: position,
            project_activity_event_id: event_id,
            authority,
        },
    )
}

/// The stored receipt holds what the first use of a command wrote: its
/// identities and time, the outcome of its effect, and, for an applied
/// switch, the activity payload with the new Current Chapter, the base
/// snapshot, the position in decimal and the event id, and its Author
/// Action sequence and tree revision in decimal; any other effect wrote no
/// activity and no Author Action.
pub open spec fn receipt_records(row: CurrentChapterReceiptRow, first: SetCurrentChapterSettlement) -> bool {
    &&& row.command_id@ == first.ids.command_id@
    &&& row.author_command_admission_id@ == first.ids.author_command_admission_id@
    &&& row.receipt_id@ == first.ids.receipt_id@
    &&& row.receipt_created_at@ == first.receipt_created_at@
    &&& effect_outcome(effect_view(first.effect)) == Some((row.result_kind@, text_view(row.reason)))
    &&& match first.effect {
        SetCurrentChapterSettlementEffect::Applied { current_chapter_id, base_snapshot_id } => {
            &&& text_view(row.current_chapter_id) == Some(current_chapter_id@)
            &&& text_view(row.base_snapshot_id) == Some(base_snapshot_id@)
            &&& text_view(row.project_activity_position) == Some(
                decimal_text(first.project_activity_position as nat),
            )
            &&& text_view(row.project_activity_event_id) == Some(first.project_activity_event_id@)
            &&& first.authority matches Some(a)
            &&& a.snapshot_id@ == base_snapshot_id@
            &&& text_view(row.author_action_sequence) == Some(decimal_text(a.author_action_sequence as nat))
            &&& text_view(row.manuscript_tree_revision) == Some(decimal_text(a.manuscript_tree_revision as nat))
        },
        _ => {
            &&& row.current_chapter_id is None
            &&& row.base_snapshot_id is None
            &&& row.project_activity_position is None
            &&& row.project_activity_event_id is None
            &&& first.project_activity_position == 0
            &&& first.project_activity_event_id@.len() == 0
            &&& first.authority is None
        },
    }
}

/// Law: an exact retry of a settled command answers with the settlement of
/// its first use, identities, receipt time, effect, activity position and
/// event id alike, when its receipt holds what the first use wrote.
pub proof fn lemma_set_current_chapter_settlement_replay(
    row: CurrentChapterReceiptRow,
    first: SetCurrentChapterSettlement,
)
    requires
        receipt_records(row, first),
    ensures
        settlement_of_row(row) == ReadBack::Effect(settlement_view(first)),
{
    lemma_set_current_chapter_replay(first.effect);
    match first.effect {
        SetCurrentChapterSettlementEffect::Applied { .. } => {
            crate::text::lemma_decimal_text_round_trip(first.project_activity_position);
            let a = first.authority->0;
            crate::text::lemma_decimal_text_round_trip(a.author_action_sequence);
            crate::text::lemma_decimal_text_round_trip(a.manuscript_tree_revision);
        },
        _ => {
            reveal_strlit("0");
            assert("0"@ =~= decimal_text(0));
            crate::text::lemma_decimal_text_round_trip(0);
            assert(first.project_activity_event_id@ =~= Seq::<char>::empty());
        },
    }
}



/// Which answer of the store a first use of Set Current Chapter awaits: the
/// answer to the action it issued last, or none once it has settled or failed.
#[derive(Debug, Clone, Copy, PartialEq, Eq)]
pub enum CurrentChapterStage {
    Admission,
    Receipt,
    Settlement,
    Project,
    Counters,
    AuthorAction,
    Snapshot,
    BaseSnapshot,
    Activity,
    Idempotency,
    Done,
}

/// The state of a first use of Set Current Chapter inside its serializable
/// transaction: the stage, what the command and its classification fixed,
/// and what the store has answered so far.
#[derive(Debug, Clone, PartialEq, Eq)]
pub struct CurrentChapterStep {
    pub stage: CurrentChapterStage,
    pub ids: AuthorCommandAdmissionIds,
    pub effect: SetCurrentChapterSettlementEffect,
    pub expected_current_chapter_id: Option<String>,
    pub expected_target_revision_id: String,
    pub resulting_head: String,
    pub manuscript_tree_revision: u64,
    pub receipt_created_at: String,
    pub author_action_sequence: u64,
    pub project_activity_position: u64,
    pub project_activity_event_id: String,
}

/// What a first use of Set Current Chapter asks the store to do next, or how
/// it ends: with its settlement (the transaction commits) or an error (it
/// rolls back).
#[derive(Debug, Clone, PartialEq, Eq)]
pub enum CurrentChapterAction {
    InsertAdmission { chapter_object_id: Option<String>, expected_revision_id: Option<String> },
    InsertReceipt { outcome: ReceiptOutcome, expected_head: String, resulting_head: String },
    InsertSettlement,
    UpdateProject { current_chapter_id: String, expected_current_chapter_id: Option<String> },
    AllocateCounters,
    InsertForwardAuthorAction { author_action_sequence: u64 },
    PersistSnapshot { snapshot_id: String, project_activity_position: u64 },
    MoveBaseSnapshot {
        snapshot_id: String,
        chapter_id: String,
        revision_id: String,
        project_activity_position: u64,
    },
    InsertActivity { project_activity_position: u64, project_activity_event_id: String, payload: String },
    SettleIdempotency,
    Settle(SetCurrentChapterSettlement),
    Fail(SetCurrentChapterError),
}

/// A step state that can go on: its effect records an outcome, and only an
/// applied switch reaches the stages that write the switch.
pub open spec fn current_chapter_step_wf(state: CurrentChapterStep) -> bool {
    &&& effect_outcome(effect_view(state.effect)) is Some
    &&& state.stage != CurrentChapterStage::Done
    &&& match state.stage {
        CurrentChapterStage::Project | CurrentChapterStage::Counters | CurrentChapterStage::AuthorAction
        | CurrentChapterStage::Snapshot | CurrentChapterStage::BaseSnapshot
        | CurrentChapterStage::Activity => state.effect is Applied,
        _ => true,
    }
}

/// The answer that the store gives at a stage: the time of the receipt, the
/// two counters, or else a row count.
pub open spec fn answers_stage(stage: CurrentChapterStage, event: StoreEvent) -> bool {
    match stage {
        CurrentChapterStage::Receipt => event matches StoreEvent::Returned(v) && v.len() == 1,
        CurrentChapterStage::Counters => event matches StoreEvent::Returned(v) && v.len() == 2,
        _ => event is Rows,
    }
}

/// The settlement that a first use returns once every write has answered.
pub open spec fn first_use_settlement(state: CurrentChapterStep) -> CurrentChapterSettlementView {
    let applied = state.effect is Applied;
    CurrentChapterSettlementView {
        command_id: state.ids.command_id@,
        author_command_admission_id: state.ids.author_command_admission_id@,
        receipt_id: state.ids.receipt_id@,
        effect: effect_view(state.effect),
        receipt_created_at: state.receipt_created_at@,
        project_activity_position: if applied { state.project_activity_position } else { 0 },
        project_activity_event_id: if applied { state.project_activity_event_id@ } else { Seq::empty() },
        authority: match state.effect {
            SetCurrentChapterSettlementEffect::Applied { base_snapshot_id, .. } => Some(
                CurrentChapterAuthorityView {
                    author_action_sequence: state.author_action_sequence,
                    manuscript_tree_revision: state.manuscript_tree_revision,
                    snapshot_id: base_snapshot_id@,
                },
            ),
            _ => None,
        },
    }
}

/// Starts the first use of a classified Set Current Chapter command: it
/// records the admission first, with the targets that `admission_targets`
/// gives.
pub fn begin_set_current_chapter(
    ids: AuthorCommandAdmissionIds,
    effect: SetCurrentChapterSettlementEffect,
    expected_current_chapter_id: Option<String>,
    chapter_join: ChapterJoin,
    expected_revision_exists: bool,
    chapter_id: &str,
    expected_target_revision_id: &str,
    current_target_revision_id: &str,
    manuscript_tree_revision: u64,
) -> (begun: (CurrentChapterStep, CurrentChapterAction))
    requires
        effect_outcome(effect_view(effect)) is Some,
    ensures
        current_chapter_step_wf(begun.0),
        begun.0.stage == CurrentChapterStage::Admission,
        begun.0.ids == ids,
        begun.0.effect == effect,
        begun.0.expected_current_chapter_id == expected_current_chapter_id,
        begun.0.expected_target_revision_id@ == expected_target_revision_id@,
        begun.0.resulting_head@ == (if current_target_revision_id@.len() == 0 {
            expected_target_revision_id@
        } else {
            current_target_revision_id@
        }),
        begun.0.manuscript_tree_revision == manuscript_tree_revision,
        begun.1 matches CurrentChapterAction::InsertAdmission { chapter_object_id, expected_revision_id }
            && text_view(chapter_object_id) == (match chapter_join {
            ChapterJoin::ExactScope => Some(chapter_id@),
            ChapterJoin::Invalid => None::<Seq<char>>,
        }) && text_view(expected_revision_id) == (match chapter_join {
            ChapterJoin::ExactScope => if expected_revision_exists {
                Some(expected_target_revision_id@)
            } else {
                Some(current_target_revision_id@)
            },
            ChapterJoin::Invalid => None::<Seq<char>>,
        }),
{
    let (chapter_object_id, expected_revision_id) = admission_targets(
        chapter_join,
        expected_revision_exists,
        chapter_id,
        expected_target_revision_id,
        current_target_revision_id,
    );
    let state = CurrentChapterStep {
        stage: CurrentChapterStage::Admission,
        ids,
        effect,
        expected_current_chapter_id,
        expected_target_revision_id: String::from_str(expected_target_revision_id),
        resulting_head: resulting_head(current_target_revision_id, expected_target_revision_id),
        manuscript_tree_revision,
        receipt_created_at: String::new(),
        author_action_sequence: 0,
        project_activity_position: 0,
        project_activity_event_id: String::new(),
    };
    (state, CurrentChapterAction::InsertAdmission { chapter_object_id, expected_revision_id })
}

/// A copy of a settlement effect.
fn copy_effect(effect: &SetCurrentChapterSettlementEffect) -> (copy: SetCurrentChapterSettlementEffect)
    ensures
        copy == *effect,
{
    match effect {
        SetCurrentChapterSettlementEffect::Applied { current_chapter_id, base_snapshot_id } =>
            SetCurrentChapterSettlementEffect::Applied {
            current_chapter_id: current_chapter_id.clone(),
            base_snapshot_id: base_snapshot_id.clone(),
        },
        SetCurrentChapterSettlementEffect::NoEffect { reason } => SetCurrentChapterSettlementEffect::NoEffect {
            reason: *reason,
        },
        SetCurrentChapterSettlementEffect::Conflicted { reason } =>
            SetCurrentChapterSettlementEffect::Conflicted { reason: *reason },
        SetCurrentChapterSettlementEffect::Refused { reason } => SetCurrentChapterSettlementEffect::Refused {
            reason: *reason,
        },
    }
}

/// An optional text, copied.
fn copy_text_option(text: &Option<String>) -> (copy: Option<String>)
    ensures
        copy == *text,
{
    match text {
        Some(t) => Some(t.clone()),
        None => None,
    }
}

/// Takes the store's answer to the last action of a first use and gives the
/// next state and action. The admission must insert one row; the receipt
/// returns its time; an applied switch then moves the Project's Current
/// Chapter from the expected one (one row), allocates the Author Action
/// sequence and activity position, writes the Forward Author Action and the
/// canonical tree snapshot, moves the writer's base snapshot (one row) and
/// writes the activity payload; every effect then settles the idempotency
/// row and returns its settlement.
pub fn set_current_chapter_step(state: CurrentChapterStep, event: StoreEvent) -> (next: (
    CurrentChapterStep,
    CurrentChapterAction,
))
    requires
        current_chapter_step_wf(state),
        answers_stage(state.stage, event),
    ensures
        next.0.ids == state.ids,
        next.0.effect == state.effect,
        next.0.expected_current_chapter_id == state.expected_current_chapter_id,
        next.0.expected_target_revision_id == state.expected_target_revision_id,
        next.0.resulting_head == state.resulting_head,
        next.0.manuscript_tree_revision == state.manuscript_tree_revision,
        state.stage != CurrentChapterStage::Receipt ==> next.0.receipt_created_at
            == state.receipt_created_at,
        state.stage != CurrentChapterStage::Counters ==> next.0.author_action_sequence
            == state.author_action_sequence && next.0.project_activity_position
            == state.project_activity_position && next.0.project_activity_event_id
            == state.project_activity_event_id,
        next.0.stage == CurrentChapterStage::Done <==> (next.1 is Settle || next.1 is Fail),
        next.0.stage != CurrentChapterStage::Done ==> current_chapter_step_wf(next.0),
        match (state.stage, event) {
            (CurrentChapterStage::Admission, StoreEvent::Rows(n)) => if n == 1 {
                &&& next.0.stage == CurrentChapterStage::Receipt
                &&& next.1 matches CurrentChapterAction::InsertReceipt { outcome, expected_head, resulting_head }
                &&& effect_outcome(effect_view(state.effect)) == Some(outcome_view(outcome))
                &&& expected_head@ == state.expected_target_revision_id@
                &&& resulting_head@ == state.resulting_head@
            } else {
                next.1 == CurrentChapterAction::Fail(SetCurrentChapterError::InvalidChallenge)
            },
            (CurrentChapterStage::Receipt, StoreEvent::Returned(v)) => {
                &&& next.0.stage == CurrentChapterStage::Settlement
                &&& next.0.receipt_created_at@ == v@[0]@
                &&& next.1 == CurrentChapterAction::InsertSettlement
            },
            (CurrentChapterStage::Settlement, StoreEvent::Rows(_)) => match state.effect {
                SetCurrentChapterSettlementEffect::Applied { current_chapter_id, .. } => {
                    &&& next.0.stage == CurrentChapterStage::Project
                    &&& next.1 == CurrentChapterAction::UpdateProject {
                        current_chapter_id,
                        expected_current_chapter_id: state.expected_current_chapter_id,
                    }
                },
                _ => next.0.stage == CurrentChapterStage::Idempotency && next.1
                    == CurrentChapterAction::SettleIdempotency,
            },
            (CurrentChapterStage::Project, StoreEvent::Rows(n)) => if n == 1 {
                next.0.stage == CurrentChapterStage::Counters && next.1 == CurrentChapterAction::AllocateCounters
            } else {
                next.1 matches CurrentChapterAction::Fail(
                    SetCurrentChapterError::Unavailable(UnavailableCause::Message(m)),
                ) && m@ == "current Chapter changed under FOR UPDATE"@
            },
            (CurrentChapterStage::Counters, StoreEvent::Returned(v)) => match (
                u64_text_value(v@[0]@),
                u64_text_value(v@[1]@),
            ) {
                (Some(sequence), Some(position)) => {
                    &&& next.0.stage == CurrentChapterStage::AuthorAction
                    &&& next.0.author_action_sequence == sequence
                    &&& next.0.project_activity_position == position
                    &&& next.0.project_activity_event_id@.len() == 36
                    &&& next.1 == CurrentChapterAction::InsertForwardAuthorAction {
                        author_action_sequence: sequence,
                    }
                },
                _ => next.1 matches CurrentChapterAction::Fail(e) && e is Unavailable,
            },
            (CurrentChapterStage::AuthorAction, StoreEvent::Rows(_)) => {
                &&& next.0.stage == CurrentChapterStage::Snapshot
                &&& state.effect matches SetCurrentChapterSettlementEffect::Applied { base_snapshot_id, .. }
                &&& next.1 == CurrentChapterAction::PersistSnapshot {
                    snapshot_id: base_snapshot_id,
                    project_activity_position: state.project_activity_position,
                }
            },
            (CurrentChapterStage::Snapshot, StoreEvent::Rows(_)) => {
                &&& next.0.stage == CurrentChapterStage::BaseSnapshot
                &&& state.effect matches SetCurrentChapterSettlementEffect::Applied {
                    current_chapter_id,
                    base_snapshot_id,
                }
                &&& next.1 == CurrentChapterAction::MoveBaseSnapshot {
                    snapshot_id: base_snapshot_id,
                    chapter_id: current_chapter_id,
                    revision_id: state.resulting_head,
                    project_activity_position: state.project_activity_position,
                }
            },
            (CurrentChapterStage::BaseSnapshot, StoreEvent::Rows(n)) => if n == 1 {
                &&& next.0.stage == CurrentChapterStage::Activity
                &&& state.effect matches SetCurrentChapterSettlementEffect::Applied {
                    current_chapter_id,
                    base_snapshot_id,
                }
                &&& next.1 matches CurrentChapterAction::InsertActivity {
                    project_activity_position,
                    project_activity_event_id,
                    payload,
                }
                &&& project_activity_position == state.project_activity_position
                &&& project_activity_event_id == state.project_activity_event_id
                &&& json_text_parses(payload@)
                &&& json_text_field(payload@, "kind"@) == Some("current_chapter_set"@)
                &&& json_text_field(payload@, "prior_chapter_id"@) == text_view(
                    state.expected_current_chapter_id,
                )
                &&& json_text_field(payload@, "current_chapter_id"@) == Some(current_chapter_id@)
                &&& json_text_field(payload@, "base_snapshot_id"@) == Some(base_snapshot_id@)
            } else {
                next.1 == CurrentChapterAction::Fail(SetCurrentChapterError::BindingConflict)
            },
            (CurrentChapterStage::Activity, StoreEvent::Rows(_)) => next.0.stage
                == CurrentChapterStage::Idempotency && next.1 == CurrentChapterAction::SettleIdempotency,
            (CurrentChapterStage::Idempotency, StoreEvent::Rows(_)) => next.1 matches CurrentChapterAction::Settle(
                settlement,
            ) && settlement_view(settlement) == first_use_settlement(state),
            _ => false,
        },
{
    let CurrentChapterStep {
        stage,
        ids,
        effect,
        expected_current_chapter_id,
        expected_target_revision_id,
        resulting_head,
        manuscript_tree_revision,
        receipt_created_at,
        author_action_sequence,
        project_activity_position,
        project_activity_event_id,
    } = state;
    let ghost before = state;
    let mut next_stage = CurrentChapterStage::Done;
    let mut created_at = receipt_created_at;
    let mut sequence = author_action_sequence;
    let mut position = project_activity_position;
    let mut event_id = project_activity_event_id;
    let action = match (stage, event) {
        (CurrentChapterStage::Admission, StoreEvent::Rows(n)) => match check_set_current_chapter_write(
            SetCurrentChapterWrite::AdmissionInserted,
            n,
        ) {
            Err(e) => CurrentChapterAction::Fail(e),
            Ok(()) => match set_current_chapter_outcome(&effect) {
                Ok(outcome) => {
                    next_stage = CurrentChapterStage::Receipt;
                    CurrentChapterAction::InsertReceipt {
                        outcome,
                        expected_head: expected_target_revision_id.clone(),
                        resulting_head: resulting_head.clone(),
                    }
                },
                Err(e) => CurrentChapterAction::Fail(e),
            },
        },
        (CurrentChapterStage::Receipt, StoreEvent::Returned(v)) => {
            created_at = v[0].clone();
            next_stage = CurrentChapterStage::Settlement;
            CurrentChapterAction::InsertSettlement
        },
        (CurrentChapterStage::Settlement, StoreEvent::Rows(_)) => match &effect {
            SetCurrentChapterSettlementEffect::Applied { current_chapter_id, .. } => {
                next_stage = CurrentChapterStage::Project;
                CurrentChapterAction::UpdateProject {
                    current_chapter_id: current_chapter_id.clone(),
                    expected_current_chapter_id: copy_text_option(&expected_current_chapter_id),
                }
            },
            _ => {
                next_stage = CurrentChapterStage::Idempotency;
                CurrentChapterAction::SettleIdempotency
            },
        },
        (CurrentChapterStage::Project, StoreEvent::Rows(n)) => match check_set_current_chapter_write(
            SetCurrentChapterWrite::ProjectUpdated,
            n,
        ) {
            Err(e) => CurrentChapterAction::Fail(e),
            Ok(()) => {
                next_stage = CurrentChapterStage::Counters;
                CurrentChapterAction::AllocateCounters
            },
        },
        (CurrentChapterStage::Counters, StoreEvent::Returned(v)) => match crate::structural_authority::current_chapter_sequences(
            v[0].as_str(),
            v[1].as_str(),
        ) {
            Some(sequences) => {
                sequence = sequences.author_action_sequence;
                position = sequences.project_activity_position;
                event_id = sequences.project_activity_event_id;
                next_stage = CurrentChapterStage::AuthorAction;
                CurrentChapterAction::InsertForwardAuthorAction { author_action_sequence: sequence }
            },
            None => CurrentChapterAction::Fail(
                SetCurrentChapterError::Unavailable(
                    UnavailableCause::Message(String::from_str("stored counter is not a decimal u64")),
                ),
            ),
        },
        (CurrentChapterStage::AuthorAction, StoreEvent::Rows(_)) => match &effect {
            SetCurrentChapterSettlementEffect::Applied { base_snapshot_id, .. } => {
                next_stage = CurrentChapterStage::Snapshot;
                CurrentChapterAction::PersistSnapshot {
                    snapshot_id: base_snapshot_id.clone(),
                    project_activity_position: position,
                }
            },
            _ => CurrentChapterAction::Fail(SetCurrentChapterError::BindingConflict),
        },
        (CurrentChapterStage::Snapshot, StoreEvent::Rows(_)) => match &effect {
            SetCurrentChapterSettlementEffect::Applied { current_chapter_id, base_snapshot_id } => {
                next_stage = CurrentChapterStage::BaseSnapshot;
                CurrentChapterAction::MoveBaseSnapshot {
                    snapshot_id: base_snapshot_id.clone(),
                    chapter_id: current_chapter_id.clone(),
                    revision_id: resulting_head.clone(),
                    project_activity_position: position,
                }
            },
            _ => CurrentChapterAction::Fail(SetCurrentChapterError::BindingConflict),
        },
        (CurrentChapterStage::BaseSnapshot, StoreEvent::Rows(n)) => match check_set_current_chapter_write(
            SetCurrentChapterWrite::BaseSnapshotMoved,
            n,
        ) {
            Err(e) => CurrentChapterAction::Fail(e),
            Ok(()) => match &effect {
                SetCurrentChapterSettlementEffect::Applied { current_chapter_id, base_snapshot_id } => {
                    next_stage = CurrentChapterStage::Activity;
                    CurrentChapterAction::InsertActivity {
                        project_activity_position: position,
                        project_activity_event_id: event_id.clone(),
                        payload: current_chapter_set_payload(
                            &expected_current_chapter_id,
                            current_chapter_id.as_str(),
                            base_snapshot_id.as_str(),
                        ),
                    }
                },
                _ => CurrentChapterAction::Fail(SetCurrentChapterError::BindingConflict),
            },
        },
        (CurrentChapterStage::Activity, StoreEvent::Rows(_)) => {
            next_stage = CurrentChapterStage::Idempotency;
            CurrentChapterAction::SettleIdempotency
        },
        (CurrentChapterStage::Idempotency, StoreEvent::Rows(_)) => {
            let (settled_position, settled_event_id, authority) = match &effect {
                SetCurrentChapterSettlementEffect::Applied { base_snapshot_id, .. } => (
                    position,
                    event_id.clone(),
                    Some(
                        CurrentChapterAuthority {
                            author_action_sequence: sequence,
                            manuscript_tree_revision,
                            snapshot_id: base_snapshot_id.clone(),
                        },
                    ),
                ),
                _ => (0, String::new(), None),
            };
            CurrentChapterAction::Settle(
                SetCurrentChapterSettlement {
                    ids: ids.copied(),
                    effect: copy_effect(&effect),
                    receipt_created_at: created_at.clone(),
                    project_activity_position: settled_position,
                    project_activity_event_id: settled_event_id,
                    authority,
                },
            )
        },
        _ => CurrentChapterAction::Fail(SetCurrentChapterError::BindingConflict),
    };
    let next = CurrentChapterStep {
        stage: next_stage,
        ids,
        effect,
        expected_current_chapter_id,
        expected_target_revision_id,
        resulting_head,
        manuscript_tree_revision,
        receipt_created_at: created_at,
        author_action_sequence: sequence,
        project_activity_position: position,
        project_activity_event_id: event_id,
    };
    (next, action)
}

} // verus!
