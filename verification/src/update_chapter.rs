//! Update Chapter: where the Chapter stands among its siblings, the settlement
//! that the classification gives, the receipt and activity it writes, and the
//! replay that reads them.

use crate::command::{
    AuthorCommandAdmissionIds,
    lifecycle_of_text, project_lifecycle, ProjectLifecycle, outcome_view, reason_is, receipt_outcome, same_text, str_view, text_view, ChapterJoin, ProjectCommandChallengeError,
    ReadBack, ReceiptOutcome, StoreEvent, UnavailableCause,
};
use crate::structural_authority::{StructureAffectedIdentity, StructureCommitBinding, StructureTransitionSequences};
use crate::json::{json_text_field, json_text_parses, payload_text, PayloadValue};
use crate::text::{decimal_text, format_u64, parse_u64, u64_text_value};
use vstd::prelude::*;

verus! {

#[derive(Debug, Clone, Copy, PartialEq, Eq)]
pub enum UpdateChapterNoEffect {
    Unchanged,
}

#[derive(Debug, Clone, Copy, PartialEq, Eq)]
pub enum UpdateChapterConflict {
    StaleTreeRevision,
}

#[derive(Debug, Clone, Copy, PartialEq, Eq)]
pub enum UpdateChapterRefusal {
    ArchivedProject,
    InvalidTitle,
    InvalidOrder,
    InvalidChapterJoin,
    MissingProject,
}

/// The classification of an Update Chapter command.
#[derive(Debug, Clone, PartialEq, Eq)]
pub enum UpdateChapterResult {
    Applied { title: String, order: u64, tree_revision: u64 },
    NoEffect { reason: UpdateChapterNoEffect },
    Conflicted { reason: UpdateChapterConflict },
    Refused { reason: UpdateChapterRefusal },
}

/// What a settled Update Chapter command did.
#[derive(Debug, Clone, PartialEq, Eq)]
pub enum UpdateChapterSettlementEffect {
    Applied { title: String, order: u64, tree_revision: u64 },
    NoEffect { reason: UpdateChapterNoEffect },
    Conflicted { reason: UpdateChapterConflict },
    Refused { reason: UpdateChapterRefusal },
}

/// A settlement effect with its title as text.
pub enum UpdateChapterEffectView {
    Applied { title: Seq<char>, order: u64, tree_revision: u64 },
    NoEffect { reason: UpdateChapterNoEffect },
    Conflicted { reason: UpdateChapterConflict },
    Refused { reason: UpdateChapterRefusal },
}

pub open spec fn effect_view(effect: UpdateChapterSettlementEffect) -> UpdateChapterEffectView {
    match effect {
        UpdateChapterSettlementEffect::Applied { title, order, tree_revision } =>
            UpdateChapterEffectView::Applied { title: title@, order, tree_revision },
        UpdateChapterSettlementEffect::NoEffect { reason } => UpdateChapterEffectView::NoEffect {
            reason,
        },
        UpdateChapterSettlementEffect::Conflicted { reason } => UpdateChapterEffectView::Conflicted {
            reason,
        },
        UpdateChapterSettlementEffect::Refused { reason } => UpdateChapterEffectView::Refused {
            reason,
        },
    }
}

#[derive(Debug, Clone, PartialEq, Eq)]
pub enum UpdateChapterError {
    MissingProject,
    BindingConflict,
    InvalidChallenge,
    HistoricalAcknowledgementUnavailable,
    Unavailable(UnavailableCause),
}

/// How a challenge failure answers an Update Chapter command.
pub fn update_chapter_challenge_error(error: ProjectCommandChallengeError) -> (mapped:
    UpdateChapterError)
    ensures
        mapped == (match error {
            ProjectCommandChallengeError::BindingConflict => UpdateChapterError::BindingConflict,
            ProjectCommandChallengeError::InvalidOrExpired => UpdateChapterError::InvalidChallenge,
            other => UpdateChapterError::Unavailable(UnavailableCause::Challenge(other)),
        }),
{
    match error {
        ProjectCommandChallengeError::BindingConflict => UpdateChapterError::BindingConflict,
        ProjectCommandChallengeError::InvalidOrExpired => UpdateChapterError::InvalidChallenge,
        other => UpdateChapterError::Unavailable(UnavailableCause::Challenge(other)),
    }
}

/// A damaged stored counter.
fn damaged_counter() -> (error: UpdateChapterError)
    ensures
        error is Unavailable,
{
    UpdateChapterError::Unavailable(
        UnavailableCause::Message(String::from_str("stored counter is not a decimal u64")),
    )
}

/// One Chapter of the Project as the tree lists it: id, title, stored order
/// and parent Volume, ordered by parent and order.
pub struct ChapterRow {
    pub id: String,
    pub title: String,
    pub tree_order: String,
    pub parent_volume_id: String,
}

/// The position of the first row whose id is `id`.
pub open spec fn first_row_with_id(rows: Seq<ChapterRow>, id: Seq<char>) -> Option<int>
    decreases rows.len(),
{
    if rows.len() == 0 {
        None
    } else {
        match first_row_with_id(rows.drop_last(), id) {
            Some(i) => Some(i),
            None => if rows.last().id@ == id {
                Some(rows.len() - 1)
            } else {
                None
            },
        }
    }
}

/// The ids of the rows under the parent Volume `parent`, in row order.
pub open spec fn sibling_ids(rows: Seq<ChapterRow>, parent: Seq<char>) -> Seq<Seq<char>>
    decreases rows.len(),
{
    if rows.len() == 0 {
        Seq::empty()
    } else if rows.last().parent_volume_id@ == parent {
        sibling_ids(rows.drop_last(), parent).push(rows.last().id@)
    } else {
        sibling_ids(rows.drop_last(), parent)
    }
}

/// The texts of a list of ids.
pub open spec fn ids_view(ids: Seq<String>) -> Seq<Seq<char>> {
    ids.map_values(|id: String| id@)
}

/// Where the updated Chapter stands.
pub struct ChapterPlacement {
    pub chapter_join: ChapterJoin,
    pub current_title: String,
    pub current_order: u64,
    pub ordered_ids: Vec<String>,
    pub parent_volume_id: String,
}

proof fn lemma_first_row_prefix(rows: Seq<ChapterRow>, id: Seq<char>, i: int)
    requires
        0 <= i < rows.len(),
        first_row_with_id(rows.take(i), id) is None,
        rows[i].id@ == id,
    ensures
        first_row_with_id(rows.take(i + 1), id) == Some(i),
{
    assert(rows.take(i + 1).drop_last() =~= rows.take(i));
}

proof fn lemma_first_row_extends(rows: Seq<ChapterRow>, id: Seq<char>, i: int, k: int)
    requires
        0 <= i < rows.len(),
        first_row_with_id(rows.take(i), id) == Some(k),
    ensures
        first_row_with_id(rows.take(i + 1), id) == Some(k),
{
    assert(rows.take(i + 1).drop_last() =~= rows.take(i));
}

/// Finds the updated Chapter among the Project's Chapters (the first row with
/// its id) and lists the ids of its siblings under the same Volume in order.
/// A Chapter that is not found does not join the Project: no title, order 1,
/// no siblings. A stored order that is no counter makes the command
/// unavailable.
pub fn chapter_placement(rows: &Vec<ChapterRow>, chapter_id: &str) -> (placement: Result<
    ChapterPlacement,
    UpdateChapterError,
>)
    ensures
        match first_row_with_id(rows@, chapter_id@) {
            None => placement matches Ok(p) && p.chapter_join == ChapterJoin::Invalid
                && p.current_title@.len() == 0 && p.current_order == 1 && p.ordered_ids@.len() == 0
                && p.parent_volume_id@.len() == 0,
            Some(i) => match u64_text_value(rows@[i].tree_order@) {
                Some(order) => placement matches Ok(p) && p.chapter_join == ChapterJoin::ExactScope
                    && p.current_title@ == rows@[i].title@ && p.current_order == order
                    && p.parent_volume_id@ == rows@[i].parent_volume_id@ && ids_view(p.ordered_ids@)
                    == sibling_ids(rows@, rows@[i].parent_volume_id@),
                None => placement matches Err(e) && e is Unavailable,
            },
        },
{
    let mut found: Option<usize> = None;
    let mut i: usize = 0;
    while i < rows.len()
        invariant
            i <= rows@.len(),
            found is None ==> first_row_with_id(rows@.take(i as int), chapter_id@) is None,
            found matches Some(k) ==> k < i && first_row_with_id(rows@.take(i as int), chapter_id@)
                == Some(k as int),
        decreases rows@.len() - i,
    {
        match found {
            None => {
                if same_text(rows[i].id.as_str(), chapter_id) {
                    proof {
                        lemma_first_row_prefix(rows@, chapter_id@, i as int);
                    }
                    found = Some(i);
                } else {
                    assert(rows@.take(i + 1).drop_last() =~= rows@.take(i as int));
                }
            },
            Some(k) => {
                proof {
                    lemma_first_row_extends(rows@, chapter_id@, i as int, k as int);
                }
            },
        }
        i = i + 1;
    }
    assert(rows@.take(rows@.len() as int) =~= rows@);
    match found {
        None => Ok(
            ChapterPlacement {
                chapter_join: ChapterJoin::Invalid,
                current_title: String::new(),
                current_order: 1,
                ordered_ids: Vec::new(),
                parent_volume_id: String::new(),
            },
        ),
        Some(k) => {
            let row = &rows[k];
            let current_order = match parse_u64(row.tree_order.as_str()) {
                Some(order) => order,
                None => {
                    return Err(damaged_counter());
                },
            };
            let parent = row.parent_volume_id.clone();
            let mut ordered_ids: Vec<String> = Vec::new();
            let mut j: usize = 0;
            while j < rows.len()
                invariant
                    j <= rows@.len(),
                    ids_view(ordered_ids@) == sibling_ids(rows@.take(j as int), parent@),
                decreases rows@.len() - j,
            {
                assert(rows@.take(j + 1).drop_last() =~= rows@.take(j as int));
                if rows[j].parent_volume_id == parent {
                    ordered_ids.push(rows[j].id.clone());
                }
                assert(ids_view(ordered_ids@) =~= sibling_ids(rows@.take(j + 1), parent@));
                j = j + 1;
            }
            assert(rows@.take(rows@.len() as int) =~= rows@);
            Ok(
                ChapterPlacement {
                    chapter_join: ChapterJoin::ExactScope,
                    current_title: row.title.clone(),
                    current_order,
                    ordered_ids,
                    parent_volume_id: parent,
                },
            )
        },
    }
}

/// What the Update Chapter classification is given.
#[derive(Debug, Clone, PartialEq, Eq)]
pub struct UpdateChapterInput {
    pub chapter_join: ChapterJoin,
    pub expected_chapter_revision: u64,
    pub current_chapter_revision: u64,
    pub current_lifecycle: ProjectLifecycle,
    pub title: String,
    pub current_title: String,
    pub order: u64,
    pub current_order: u64,
    pub chapter_count: u64,
}

/// The Project's lifecycle and Chapter revision as an Update Chapter command
/// reads them: no Project row is a missing Project; a lifecycle other than
/// active or archived, or a damaged revision, makes the command unavailable.
pub fn update_chapter_project(project: Option<(String, String)>) -> (read: Result<
    (ProjectLifecycle, u64),
    UpdateChapterError,
>)
    ensures
        match project {
            None => read matches Err(e) && e == UpdateChapterError::MissingProject,
            Some((lifecycle, revision)) => match (lifecycle_of_text(lifecycle@), u64_text_value(revision@)) {
                (Some(l), Some(r)) => read matches Ok((rl, rr)) && rl == l && rr == r,
                _ => read matches Err(e) && e is Unavailable,
            },
        },
{
    let (lifecycle, revision) = match project {
        Some(row) => row,
        None => {
            return Err(UpdateChapterError::MissingProject);
        },
    };
    let current_lifecycle = match project_lifecycle(lifecycle.as_str()) {
        Some(l) => l,
        None => {
            return Err(
                UpdateChapterError::Unavailable(
                    UnavailableCause::Message(String::from_str("unsupported Project lifecycle")),
                ),
            );
        },
    };
    match parse_u64(revision.as_str()) {
        Some(r) => Ok((current_lifecycle, r)),
        None => Err(damaged_counter()),
    }
}

/// The classification input of an Update Chapter command: the Project's
/// lifecycle and revision, the command's expectation, title and order, and
/// where the Chapter stands among its siblings, whose number is the count.
pub fn update_chapter_input(
    current_lifecycle: ProjectLifecycle,
    current_chapter_revision: u64,
    placement: &ChapterPlacement,
    expected_chapter_revision: u64,
    title: &str,
    order: u64,
) -> (input: UpdateChapterInput)
    ensures
        input.chapter_join == placement.chapter_join,
        input.expected_chapter_revision == expected_chapter_revision,
        input.current_chapter_revision == current_chapter_revision,
        input.current_lifecycle == current_lifecycle,
        input.title@ == title@,
        input.current_title@ == placement.current_title@,
        input.order == order,
        input.current_order == placement.current_order,
        input.chapter_count == placement.ordered_ids@.len(),
{
    UpdateChapterInput {
        chapter_join: placement.chapter_join,
        expected_chapter_revision,
        current_chapter_revision,
        current_lifecycle,
        title: String::from_str(title),
        current_title: placement.current_title.clone(),
        order,
        current_order: placement.current_order,
        chapter_count: placement.ordered_ids.len() as u64,
    }
}

/// The settlement effect of a classification; a missing Project is no
/// settlement at all.
pub fn settlement_effect(classified: UpdateChapterResult) -> (effect: Result<
    UpdateChapterSettlementEffect,
    UpdateChapterError,
>)
    ensures
        match classified {
            UpdateChapterResult::Applied { title, order, tree_revision } => effect == Ok::<
                UpdateChapterSettlementEffect,
                UpdateChapterError,
            >(UpdateChapterSettlementEffect::Applied { title, order, tree_revision }),
            UpdateChapterResult::NoEffect { reason } => effect == Ok::<
                UpdateChapterSettlementEffect,
                UpdateChapterError,
            >(UpdateChapterSettlementEffect::NoEffect { reason }),
            UpdateChapterResult::Conflicted { reason } => effect == Ok::<
                UpdateChapterSettlementEffect,
                UpdateChapterError,
            >(UpdateChapterSettlementEffect::Conflicted { reason }),
            UpdateChapterResult::Refused { reason } => if reason
                == UpdateChapterRefusal::MissingProject {
                effect == Err::<UpdateChapterSettlementEffect, UpdateChapterError>(
                    UpdateChapterError::MissingProject,
                )
            } else {
                effect == Ok::<UpdateChapterSettlementEffect, UpdateChapterError>(
                    UpdateChapterSettlementEffect::Refused { reason },
                )
            },
        },
{
    match classified {
        UpdateChapterResult::Applied { title, order, tree_revision } => Ok(
            UpdateChapterSettlementEffect::Applied { title, order, tree_revision },
        ),
        UpdateChapterResult::NoEffect { reason } => Ok(
            UpdateChapterSettlementEffect::NoEffect { reason },
        ),
        UpdateChapterResult::Conflicted { reason } => Ok(
            UpdateChapterSettlementEffect::Conflicted { reason },
        ),
        UpdateChapterResult::Refused { reason: UpdateChapterRefusal::MissingProject } => Err(
            UpdateChapterError::MissingProject,
        ),
        UpdateChapterResult::Refused { reason } => Ok(
            UpdateChapterSettlementEffect::Refused { reason },
        ),
    }
}

/// The reason code of a refusal that settles.
pub open spec fn refusal_reason(reason: UpdateChapterRefusal) -> Option<Seq<char>> {
    match reason {
        UpdateChapterRefusal::ArchivedProject => Some("archived_project"@),
        UpdateChapterRefusal::InvalidTitle => Some("invalid_title"@),
        UpdateChapterRefusal::InvalidOrder => Some("invalid_order"@),
        UpdateChapterRefusal::InvalidChapterJoin => Some("invalid_chapter_join"@),
        UpdateChapterRefusal::MissingProject => None,
    }
}

/// The result kind and reason that the receipt of an effect records; a
/// conflict records `stale_tree_revision`, the reason a replay reads back.
pub open spec fn effect_outcome(effect: UpdateChapterEffectView) -> Option<
    (Seq<char>, Option<Seq<char>>),
> {
    match effect {
        UpdateChapterEffectView::Applied { .. } => Some(("authoritative_applied"@, None)),
        UpdateChapterEffectView::NoEffect { .. } => Some(("no_effect"@, Some("unchanged"@))),
        UpdateChapterEffectView::Conflicted { .. } => Some(
            ("conflicted"@, Some("stale_tree_revision"@)),
        ),
        UpdateChapterEffectView::Refused { reason } => match refusal_reason(reason) {
            Some(code) => Some(("refused"@, Some(code))),
            None => None,
        },
    }
}

/// The receipt outcome of a settlement effect; a missing Project records none.
pub fn update_chapter_outcome(effect: &UpdateChapterSettlementEffect) -> (outcome: Result<
    ReceiptOutcome,
    UpdateChapterError,
>)
    ensures
        match outcome {
            Ok(o) => effect_outcome(effect_view(*effect)) == Some(outcome_view(o)),
            Err(e) => effect_outcome(effect_view(*effect)) is None && e
                == UpdateChapterError::MissingProject,
        },
{
    match effect {
        UpdateChapterSettlementEffect::Applied { .. } => Ok(
            receipt_outcome("authoritative_applied", None),
        ),
        UpdateChapterSettlementEffect::NoEffect { .. } => Ok(
            receipt_outcome("no_effect", Some("unchanged")),
        ),
        UpdateChapterSettlementEffect::Conflicted { .. } => Ok(
            receipt_outcome("conflicted", Some("stale_tree_revision")),
        ),
        UpdateChapterSettlementEffect::Refused { reason } => match reason {
            UpdateChapterRefusal::ArchivedProject => Ok(
                receipt_outcome("refused", Some("archived_project")),
            ),
            UpdateChapterRefusal::InvalidTitle => Ok(receipt_outcome("refused", Some("invalid_title"))),
            UpdateChapterRefusal::InvalidOrder => Ok(receipt_outcome("refused", Some("invalid_order"))),
            UpdateChapterRefusal::InvalidChapterJoin => Ok(
                receipt_outcome("refused", Some("invalid_chapter_join")),
            ),
            UpdateChapterRefusal::MissingProject => Err(UpdateChapterError::MissingProject),
        },
    }
}

/// The Project Activity payload of an applied update, with the title and
/// order it replaced, which undo restores; the tree revision and the orders
/// are written as decimal text.
pub fn chapter_updated_payload(
    chapter_id: &str,
    title: &str,
    tree_revision: u64,
    order: u64,
    prior_title: &str,
    prior_order: u64,
) -> (payload: String)
    ensures
        json_text_parses(payload@),
        json_text_field(payload@, "kind"@) == Some("chapter_updated"@),
        json_text_field(payload@, "chapter_id"@) == Some(chapter_id@),
        json_text_field(payload@, "title"@) == Some(title@),
        json_text_field(payload@, "tree_revision"@) == Some(decimal_text(tree_revision as nat)),
        json_text_field(payload@, "order"@) == Some(decimal_text(order as nat)),
        json_text_field(payload@, "prior_title"@) == Some(prior_title@),
        json_text_field(payload@, "prior_order"@) == Some(decimal_text(prior_order as nat)),
{
    let mut fields: Vec<(String, PayloadValue)> = Vec::new();
    fields.push((String::from_str("kind"), PayloadValue::Text(String::from_str("chapter_updated"))));
    fields.push((String::from_str("chapter_id"), PayloadValue::Text(String::from_str(chapter_id))));
    fields.push((String::from_str("title"), PayloadValue::Text(String::from_str(title))));
    fields.push((String::from_str("tree_revision"), PayloadValue::Text(format_u64(tree_revision))));
    fields.push((String::from_str("order"), PayloadValue::Text(format_u64(order))));
    fields.push((String::from_str("prior_title"), PayloadValue::Text(String::from_str(prior_title))));
    fields.push((String::from_str("prior_order"), PayloadValue::Text(format_u64(prior_order))));
    let payload = payload_text(&fields);
    proof {
        reveal_strlit("kind");
        assert("kind"@.len() == 4);
        reveal_strlit("chapter_id");
        assert("chapter_id"@.len() == 10);
        reveal_strlit("title");
        assert("title"@.len() == 5);
        reveal_strlit("tree_revision");
        assert("tree_revision"@.len() == 13);
        reveal_strlit("order");
        assert("order"@.len() == 5);
        reveal_strlit("prior_title");
        reveal_strlit("prior_order");
        assert("prior_title"@.len() == 11);
        assert("prior_order"@.len() == 11);
        let f = fields@;
        assert(f[2].0@[0] != f[4].0@[0]);
        assert(f[5].0@[6] != f[6].0@[6]);
        assert(f[2].0@[0] != f[5].0@[0]);
        assert(f[4].0@[0] != f[6].0@[0]);
        assert(crate::json::sole_member(f, 0));
        assert(crate::json::sole_member(f, 1));
        assert(crate::json::sole_member(f, 2));
        assert(crate::json::sole_member(f, 3));
        assert(crate::json::sole_member(f, 4));
        assert(crate::json::sole_member(f, 5));
        assert(crate::json::sole_member(f, 6));
        assert(json_text_field(payload@, f[0].0@) == crate::json::payload_member(f[0]).1);
        assert(json_text_field(payload@, f[1].0@) == crate::json::payload_member(f[1]).1);
        assert(json_text_field(payload@, f[2].0@) == crate::json::payload_member(f[2]).1);
        assert(json_text_field(payload@, f[3].0@) == crate::json::payload_member(f[3]).1);
        assert(json_text_field(payload@, f[4].0@) == crate::json::payload_member(f[4]).1);
        assert(json_text_field(payload@, f[5].0@) == crate::json::payload_member(f[5]).1);
        assert(json_text_field(payload@, f[6].0@) == crate::json::payload_member(f[6]).1);
    }
    payload
}

/// The effect that a stored receipt stands for, from its result kind, its
/// reason, and the title, order and tree revision of its activity payload.
/// A conflict reads back only under the reason `stale_tree_revision`.
pub open spec fn effect_of_receipt(
    result_kind: Seq<char>,
    reason: Option<Seq<char>>,
    tree_revision: Option<Seq<char>>,
    title: Option<Seq<char>>,
    order: Option<Seq<char>>,
) -> ReadBack<UpdateChapterEffectView> {
    if result_kind == "authoritative_applied"@ && reason is None {
        match tree_revision {
            None => ReadBack::BindingConflict,
            Some(revision_text) => match u64_text_value(revision_text) {
                None => ReadBack::Damaged,
                Some(revision) => match title {
                    None => ReadBack::BindingConflict,
                    Some(t) => match order {
                        None => ReadBack::BindingConflict,
                        Some(order_text) => match u64_text_value(order_text) {
                            None => ReadBack::Damaged,
                            Some(o) => ReadBack::Effect(
                                UpdateChapterEffectView::Applied {
                                    title: t,
                                    order: o,
                                    tree_revision: revision,
                                },
                            ),
                        },
                    },
                },
            },
        }
    } else if result_kind == "no_effect"@ && reason == Some("unchanged"@) {
        ReadBack::Effect(UpdateChapterEffectView::NoEffect { reason: UpdateChapterNoEffect::Unchanged })
    } else if result_kind == "conflicted"@ && reason == Some("stale_tree_revision"@) {
        ReadBack::Effect(
            UpdateChapterEffectView::Conflicted { reason: UpdateChapterConflict::StaleTreeRevision },
        )
    } else if result_kind == "refused"@ && reason == Some("archived_project"@) {
        ReadBack::Effect(UpdateChapterEffectView::Refused { reason: UpdateChapterRefusal::ArchivedProject })
    } else if result_kind == "refused"@ && reason == Some("invalid_title"@) {
        ReadBack::Effect(UpdateChapterEffectView::Refused { reason: UpdateChapterRefusal::InvalidTitle })
    } else if result_kind == "refused"@ && reason == Some("invalid_order"@) {
        ReadBack::Effect(UpdateChapterEffectView::Refused { reason: UpdateChapterRefusal::InvalidOrder })
    } else if result_kind == "refused"@ && reason == Some("invalid_chapter_join"@) {
        ReadBack::Effect(
            UpdateChapterEffectView::Refused { reason: UpdateChapterRefusal::InvalidChapterJoin },
        )
    } else {
        ReadBack::BindingConflict
    }
}

/// Reads back the effect of a settled receipt: a receipt that stands for no
/// effect is a binding conflict, a damaged counter makes the replay
/// unavailable.
pub fn read_update_chapter_effect(
    result_kind: &str,
    reason: Option<&str>,
    tree_revision: Option<String>,
    title: Option<String>,
    order: Option<String>,
) -> (effect: Result<UpdateChapterSettlementEffect, UpdateChapterError>)
    ensures
        match effect_of_receipt(
            result_kind@,
            str_view(reason),
            text_view(tree_revision),
            text_view(title),
            text_view(order),
        ) {
            ReadBack::Effect(v) => effect matches Ok(e) && effect_view(e) == v,
            ReadBack::BindingConflict => effect == Err::<UpdateChapterSettlementEffect, UpdateChapterError>(
                UpdateChapterError::BindingConflict,
            ),
            ReadBack::Damaged => effect matches Err(e) && e is Unavailable,
        },
{
    if same_text(result_kind, "authoritative_applied") && reason.is_none() {
        let tree_revision = match tree_revision {
            Some(text) => match parse_u64(text.as_str()) {
                Some(value) => value,
                None => {
                    return Err(damaged_counter());
                },
            },
            None => {
                return Err(UpdateChapterError::BindingConflict);
            },
        };
        let title = match title {
            Some(title) => title,
            None => {
                return Err(UpdateChapterError::BindingConflict);
            },
        };
        let order = match order {
            Some(text) => match parse_u64(text.as_str()) {
                Some(value) => value,
                None => {
                    return Err(damaged_counter());
                },
            },
            None => {
                return Err(UpdateChapterError::BindingConflict);
            },
        };
        Ok(UpdateChapterSettlementEffect::Applied { title, order, tree_revision })
    } else if same_text(result_kind, "no_effect") && reason_is(reason, "unchanged") {
        Ok(UpdateChapterSettlementEffect::NoEffect { reason: UpdateChapterNoEffect::Unchanged })
    } else if same_text(result_kind, "conflicted") && reason_is(reason, "stale_tree_revision") {
        Ok(UpdateChapterSettlementEffect::Conflicted { reason: UpdateChapterConflict::StaleTreeRevision })
    } else if same_text(result_kind, "refused") && reason_is(reason, "archived_project") {
        Ok(UpdateChapterSettlementEffect::Refused { reason: UpdateChapterRefusal::ArchivedProject })
    } else if same_text(result_kind, "refused") && reason_is(reason, "invalid_title") {
        Ok(UpdateChapterSettlementEffect::Refused { reason: UpdateChapterRefusal::InvalidTitle })
    } else if same_text(result_kind, "refused") && reason_is(reason, "invalid_order") {
        Ok(UpdateChapterSettlementEffect::Refused { reason: UpdateChapterRefusal::InvalidOrder })
    } else if same_text(result_kind, "refused") && reason_is(reason, "invalid_chapter_join") {
        Ok(UpdateChapterSettlementEffect::Refused { reason: UpdateChapterRefusal::InvalidChapterJoin })
    } else {
        Err(UpdateChapterError::BindingConflict)
    }
}

/// The structural authority that an applied update wrote.
#[derive(Debug, Clone, PartialEq, Eq)]
pub struct UpdateChapterAuthority {
    pub authoritative_commit_id: String,
    pub author_action_sequence: u64,
    pub snapshot_id: String,
    pub prior_manuscript_tree_revision: u64,
    pub resulting_manuscript_tree_revision: u64,
}

/// Reads back the structural authority of a receipt: present only when the
/// Commit, the Author Action, the snapshot and both tree revisions are
/// present; a damaged counter makes the replay unavailable.
pub fn read_update_chapter_authority(
    authoritative_commit_id: Option<String>,
    author_action_sequence: Option<String>,
    snapshot_id: Option<String>,
    prior_manuscript_tree_revision: Option<String>,
    resulting_manuscript_tree_revision: Option<String>,
) -> (authority: Result<Option<UpdateChapterAuthority>, UpdateChapterError>)
    ensures
        !(authoritative_commit_id is Some && author_action_sequence is Some && snapshot_id is Some
            && prior_manuscript_tree_revision is Some && resulting_manuscript_tree_revision is Some)
            ==> authority matches Ok(None),
        (authoritative_commit_id is Some && author_action_sequence is Some && snapshot_id is Some
            && prior_manuscript_tree_revision is Some && resulting_manuscript_tree_revision is Some)
            ==> {
            let sequence = u64_text_value(author_action_sequence->0@);
            let prior = u64_text_value(prior_manuscript_tree_revision->0@);
            let resulting = u64_text_value(resulting_manuscript_tree_revision->0@);
            if sequence is Some && prior is Some && resulting is Some {
                authority matches Ok(Some(a)) && a.authoritative_commit_id
                    == authoritative_commit_id->0 && a.snapshot_id == snapshot_id->0
                    && a.author_action_sequence == sequence->0
                    && a.prior_manuscript_tree_revision == prior->0
                    && a.resulting_manuscript_tree_revision == resulting->0
            } else {
                authority matches Err(e) && e is Unavailable
            }
        },
{
    match (
        authoritative_commit_id,
        author_action_sequence,
        snapshot_id,
        prior_manuscript_tree_revision,
        resulting_manuscript_tree_revision,
    ) {
        (Some(commit_id), Some(sequence), Some(snapshot_id), Some(prior), Some(resulting)) => {
            let author_action_sequence = match parse_u64(sequence.as_str()) {
                Some(value) => value,
                None => {
                    return Err(damaged_counter());
                },
            };
            let prior_manuscript_tree_revision = match parse_u64(prior.as_str()) {
                Some(value) => value,
                None => {
                    return Err(damaged_counter());
                },
            };
            let resulting_manuscript_tree_revision = match parse_u64(resulting.as_str()) {
                Some(value) => value,
                None => {
                    return Err(damaged_counter());
                },
            };
            Ok(
                Some(
                    UpdateChapterAuthority {
                        authoritative_commit_id: commit_id,
                        author_action_sequence,
                        snapshot_id,
                        prior_manuscript_tree_revision,
                        resulting_manuscript_tree_revision,
                    },
                ),
            )
        },
        _ => Ok(None),
    }
}

/// Law: a replay reads back exactly the effect that the first use settled,
/// for every effect that settles. The receipt records the effect's outcome,
/// and an applied update's activity payload records its title, order and
/// tree revision as decimal text; reading those back gives the same effect.
pub proof fn lemma_update_chapter_replay(effect: UpdateChapterSettlementEffect)
    requires
        effect_outcome(effect_view(effect)) is Some,
    ensures
        ({
            let (kind, reason) = effect_outcome(effect_view(effect))->0;
            let (revision, title, order) = match effect {
                UpdateChapterSettlementEffect::Applied { title, order, tree_revision } => (
                    Some(decimal_text(tree_revision as nat)),
                    Some(title@),
                    Some(decimal_text(order as nat)),
                ),
                _ => (None, None, None),
            };
            effect_of_receipt(kind, reason, revision, title, order) == ReadBack::Effect(
                effect_view(effect),
            )
        }),
{
    reveal_strlit("authoritative_applied");
    assert("authoritative_applied"@.len() == 21);
    reveal_strlit("no_effect");
    assert("no_effect"@.len() == 9);
    reveal_strlit("conflicted");
    assert("conflicted"@.len() == 10);
    reveal_strlit("refused");
    assert("refused"@.len() == 7);
    reveal_strlit("unchanged");
    assert("unchanged"@.len() == 9);
    reveal_strlit("archived_project");
    assert("archived_project"@.len() == 16);
    reveal_strlit("invalid_title");
    assert("invalid_title"@.len() == 13);
    reveal_strlit("invalid_order");
    assert("invalid_order"@.len() == 13);
    reveal_strlit("invalid_chapter_join");
    assert("invalid_chapter_join"@.len() == 20);
    match effect {
        UpdateChapterSettlementEffect::Applied { title, order, tree_revision } => {
            crate::text::lemma_decimal_text_round_trip(tree_revision);
            crate::text::lemma_decimal_text_round_trip(order);
        },
        UpdateChapterSettlementEffect::Refused { reason } => {
            assert("invalid_title"@[8] != "invalid_order"@[8]);
            assert("invalid_title"@ != "invalid_order"@);
        },
        _ => {},
    }
}


/// A write of an Update Chapter command whose row count is checked.
#[derive(Debug, Clone, Copy, PartialEq, Eq)]
pub enum UpdateChapterWrite {
    /// The Chapter row took the new title.
    ChapterUpdated,
    /// The Project's tree revision advanced.
    TreeRevisionBumped,
    /// The admission of the command was recorded.
    AdmissionInserted,
}

/// Checks the row count of a write: each must touch exactly one row. A Chapter
/// row or tree revision that changed under the lock makes the command
/// unavailable; an admission without its consumed challenge is an invalid
/// challenge.
pub fn check_update_chapter_write(write: UpdateChapterWrite, count: u64) -> (checked: Result<(), UpdateChapterError>)
    ensures
        count == 1 ==> checked is Ok,
        count != 1 ==> match write {
            UpdateChapterWrite::ChapterUpdated => checked matches Err(UpdateChapterError::Unavailable(
                UnavailableCause::Message(message),
            )) && message@ == "Chapter row changed under FOR UPDATE"@,
            UpdateChapterWrite::TreeRevisionBumped => checked matches Err(UpdateChapterError::Unavailable(
                UnavailableCause::Message(message),
            )) && message@ == "tree revision changed under FOR UPDATE"@,
            UpdateChapterWrite::AdmissionInserted => checked matches Err(e) && e == UpdateChapterError::InvalidChallenge,
        },
{
    if count == 1 {
        return Ok(());
    }
    match write {
        UpdateChapterWrite::ChapterUpdated => Err(
            UpdateChapterError::Unavailable(UnavailableCause::Message(String::from_str("Chapter row changed under FOR UPDATE"))),
        ),
        UpdateChapterWrite::TreeRevisionBumped => Err(
            UpdateChapterError::Unavailable(UnavailableCause::Message(String::from_str("tree revision changed under FOR UPDATE"))),
        ),
        UpdateChapterWrite::AdmissionInserted => Err(UpdateChapterError::InvalidChallenge),
    }
}



/// A settled Update Chapter command: its identities, the receipt time, the
/// effect, the Project Activity it wrote (position `0` and an empty event id
/// when it wrote none), and the structural authority of an applied update.
#[derive(Debug, Clone, PartialEq, Eq)]
pub struct UpdateChapterSettlement {
    pub ids: AuthorCommandAdmissionIds,
    pub effect: UpdateChapterSettlementEffect,
    pub receipt_created_at: String,
    pub project_activity_position: u64,
    pub project_activity_event_id: String,
    pub authority: Option<UpdateChapterAuthority>,
}

/// The settlement of a first use. An applied update reports the activity
/// position and event id of the structural transition it allocated, and as
/// authority that transition's Commit, Author Action and snapshot, from the
/// tree revision it expected to the one it produced; any other effect
/// reports position `0`, an empty event id and no authority.
pub fn first_use_update_chapter_settlement(
    ids: AuthorCommandAdmissionIds,
    effect: UpdateChapterSettlementEffect,
    receipt_created_at: String,
    transition: Option<StructureTransitionSequences>,
    expected_tree_revision: u64,
) -> (settlement: UpdateChapterSettlement)
    requires
        effect is Applied ==> transition is Some,
    ensures
        settlement.ids == ids,
        settlement.effect == effect,
        settlement.receipt_created_at == receipt_created_at,
        match effect {
            UpdateChapterSettlementEffect::Applied { tree_revision, .. } => {
                let t = transition->0;
                &&& settlement.project_activity_position == t.project_activity_position
                &&& settlement.project_activity_event_id == t.project_activity_event_id
                &&& settlement.authority == Some(
                    UpdateChapterAuthority {
                        authoritative_commit_id: t.authoritative_commit_id,
                        author_action_sequence: t.author_action_sequence,
                        snapshot_id: t.snapshot_id,
                        prior_manuscript_tree_revision: expected_tree_revision,
                        resulting_manuscript_tree_revision: tree_revision,
                    },
                )
            },
            _ => {
                &&& settlement.project_activity_position == 0
                &&& settlement.project_activity_event_id@.len() == 0
                &&& settlement.authority is None
            },
        },
{
    let (position, event_id, authority) = match (&effect, transition) {
        (UpdateChapterSettlementEffect::Applied { tree_revision, .. }, Some(t)) => (
            t.project_activity_position,
            t.project_activity_event_id,
            Some(
                UpdateChapterAuthority {
                    authoritative_commit_id: t.authoritative_commit_id,
                    author_action_sequence: t.author_action_sequence,
                    snapshot_id: t.snapshot_id,
                    prior_manuscript_tree_revision: expected_tree_revision,
                    resulting_manuscript_tree_revision: *tree_revision,
                },
            ),
        ),
        _ => (0, String::new(), None),
    };
    UpdateChapterSettlement {
        ids,
        effect,
        receipt_created_at,
        project_activity_position: position,
        project_activity_event_id: event_id,
        authority,
    }
}


/// Which answer of the store a first use of Update Chapter awaits: the
/// answer to the action it issued last, or none once it has settled or failed.
#[derive(Debug, Clone, Copy, PartialEq, Eq)]
pub enum UpdateChapterStage {
    Admission,
    Receipt,
    Settlement,
    Title,
    Ranks,
    TreeRevision,
    Counters,
    Commit,
    AuthorAction,
    Snapshot,
    Activity,
    Idempotency,
    Done,
}

/// The state of a first use of Update Chapter inside its serializable
/// transaction: the stage, what the command and its classification fixed,
/// and what the store has answered so far.
#[derive(Debug, Clone, PartialEq, Eq)]
pub struct UpdateChapterStep {
    pub stage: UpdateChapterStage,
    pub ids: AuthorCommandAdmissionIds,
    pub effect: UpdateChapterSettlementEffect,
    pub chapter_id: String,
    pub parent_volume_id: String,
    pub ranks: Option<Vec<(String, u64)>>,
    pub prior_title: String,
    pub prior_order: u64,
    pub expected_tree_revision: u64,
    pub receipt_created_at: String,
    pub transition: Option<StructureTransitionSequences>,
}

/// What a first use of Update Chapter asks the store to do next, or how it
/// ends: with its settlement (the transaction commits) or an error (it
/// rolls back).
#[derive(Debug, Clone, PartialEq, Eq)]
pub enum UpdateChapterAction {
    InsertAdmission,
    InsertReceipt { outcome: ReceiptOutcome },
    InsertSettlement,
    UpdateTitle { chapter_id: String, title: String },
    RewriteRanks { parent_volume_id: String, ranks: Vec<(String, u64)> },
    BumpTreeRevision { tree_revision: u64, expected_tree_revision: u64 },
    AllocateCounters,
    InsertCommit { sequences: StructureTransitionSequences, binding: StructureCommitBinding },
    InsertForwardAuthorAction { author_action_sequence: u64, authoritative_commit_id: String },
    PersistSnapshot { snapshot_id: String, project_activity_position: u64 },
    InsertActivity { project_activity_position: u64, project_activity_event_id: String, payload: String },
    SettleIdempotency,
    Settle(UpdateChapterSettlement),
    Fail(UpdateChapterError),
}

/// A step state that can go on: its effect records an outcome, only an
/// applied update reaches the stages that write it, and from the Commit on
/// the transition is allocated.
pub open spec fn update_chapter_step_wf(state: UpdateChapterStep) -> bool {
    &&& effect_outcome(effect_view(state.effect)) is Some
    &&& state.stage != UpdateChapterStage::Done
    &&& match state.stage {
        UpdateChapterStage::Admission | UpdateChapterStage::Receipt | UpdateChapterStage::Settlement
        | UpdateChapterStage::Idempotency => true,
        UpdateChapterStage::Commit | UpdateChapterStage::AuthorAction | UpdateChapterStage::Snapshot
        | UpdateChapterStage::Activity => state.effect is Applied && state.transition is Some,
        _ => state.effect is Applied,
    }
    &&& (state.effect is Applied && state.stage == UpdateChapterStage::Idempotency) ==> state.transition is Some
}

/// The answer that the store gives at a stage: the time of the receipt, the
/// three counters, or else a row count.
pub open spec fn answers_update_chapter(stage: UpdateChapterStage, event: StoreEvent) -> bool {
    match stage {
        UpdateChapterStage::Receipt => event matches StoreEvent::Returned(v) && v.len() == 1,
        UpdateChapterStage::Counters => event matches StoreEvent::Returned(v) && v.len() == 3,
        _ => event is Rows,
    }
}

/// Starts the first use of a classified Update Chapter command. An applied
/// update that moves the Chapter rewrites the ranks of its siblings, as
/// `reordered_sibling_ranks` gives them for a move from `current_order` to
/// the new order.
pub fn begin_update_chapter(
    ids: AuthorCommandAdmissionIds,
    effect: UpdateChapterSettlementEffect,
    chapter_id: &str,
    parent_volume_id: &str,
    ordered_ids: &Vec<String>,
    current_title: &str,
    current_order: u64,
    expected_tree_revision: u64,
) -> (begun: (UpdateChapterStep, UpdateChapterAction))
    requires
        effect_outcome(effect_view(effect)) is Some,
        effect matches UpdateChapterSettlementEffect::Applied { order, .. } ==> 1 <= current_order
            <= ordered_ids@.len() && 1 <= order <= ordered_ids@.len(),
    ensures
        update_chapter_step_wf(begun.0),
        begun.0.stage == UpdateChapterStage::Admission,
        begun.0.ids == ids,
        begun.0.effect == effect,
        begun.0.chapter_id@ == chapter_id@,
        begun.0.parent_volume_id@ == parent_volume_id@,
        begun.0.prior_title@ == current_title@,
        begun.0.prior_order == current_order,
        begun.0.expected_tree_revision == expected_tree_revision,
        begun.0.transition is None,
        match effect {
            UpdateChapterSettlementEffect::Applied { order, .. } => {
                &&& (current_order == order <==> begun.0.ranks is None)
                &&& begun.0.ranks matches Some(r) ==> {
                    &&& r@.len() == ordered_ids@.len()
                    &&& forall|i: int|
                        0 <= i < r@.len() ==> #[trigger] r@[i] == (
                            crate::tree_order::moved_order(ordered_ids@, current_order - 1, order - 1)[i],
                            (i + 1) as u64,
                        )
                }
            },
            _ => begun.0.ranks is None,
        },
        begun.1 == UpdateChapterAction::InsertAdmission,
{
    let ranks = match &effect {
        UpdateChapterSettlementEffect::Applied { order, .. } => crate::tree_order::reordered_sibling_ranks(
            ordered_ids,
            current_order,
            *order,
        ),
        _ => None,
    };
    let state = UpdateChapterStep {
        stage: UpdateChapterStage::Admission,
        ids,
        effect,
        chapter_id: String::from_str(chapter_id),
        parent_volume_id: String::from_str(parent_volume_id),
        ranks,
        prior_title: String::from_str(current_title),
        prior_order: current_order,
        expected_tree_revision,
        receipt_created_at: String::new(),
        transition: None,
    };
    (state, UpdateChapterAction::InsertAdmission)
}

/// A copy of a settlement effect.
fn copy_chapter_effect(effect: &UpdateChapterSettlementEffect) -> (copy: UpdateChapterSettlementEffect)
    ensures
        copy == *effect,
{
    match effect {
        UpdateChapterSettlementEffect::Applied { title, order, tree_revision } =>
            UpdateChapterSettlementEffect::Applied { title: title.clone(), order: *order, tree_revision: *tree_revision },
        UpdateChapterSettlementEffect::NoEffect { reason } => UpdateChapterSettlementEffect::NoEffect { reason: *reason },
        UpdateChapterSettlementEffect::Conflicted { reason } => UpdateChapterSettlementEffect::Conflicted {
            reason: *reason,
        },
        UpdateChapterSettlementEffect::Refused { reason } => UpdateChapterSettlementEffect::Refused { reason: *reason },
    }
}

/// A copy of allocated sequences.
fn copy_sequences(s: &StructureTransitionSequences) -> (copy: StructureTransitionSequences)
    ensures
        copy == *s,
{
    StructureTransitionSequences {
        author_action_sequence: s.author_action_sequence,
        authoritative_commit_sequence: s.authoritative_commit_sequence,
        project_activity_position: s.project_activity_position,
        authoritative_commit_id: s.authoritative_commit_id.clone(),
        project_activity_event_id: s.project_activity_event_id.clone(),
        snapshot_id: s.snapshot_id.clone(),
    }
}

/// Takes the store's answer to the last action of a first use and gives the
/// next state and action. The admission must insert one row; the receipt
/// returns its time. An applied update then retitles the Chapter (one row),
/// rewrites its siblings' ranks when it moves, advances the tree revision
/// from the expected one (one row), allocates its structural transition,
/// and writes the Commit (from the expected tree revision to the new one,
/// about the Chapter), the Forward Author Action, the canonical tree
/// snapshot and the activity payload with the prior title and order. Every
/// effect then settles the idempotency row and returns its settlement.
pub fn update_chapter_step(state: UpdateChapterStep, event: StoreEvent) -> (next: (
    UpdateChapterStep,
    UpdateChapterAction,
))
    requires
        update_chapter_step_wf(state),
        answers_update_chapter(state.stage, event),
    ensures
        next.0.ids == state.ids,
        next.0.effect == state.effect,
        next.0.chapter_id == state.chapter_id,
        next.0.parent_volume_id == state.parent_volume_id,
        next.0.prior_title == state.prior_title,
        next.0.prior_order == state.prior_order,
        next.0.expected_tree_revision == state.expected_tree_revision,
        state.stage != UpdateChapterStage::Receipt ==> next.0.receipt_created_at == state.receipt_created_at,
        state.stage != UpdateChapterStage::Counters ==> next.0.transition == state.transition,
        next.0.stage == UpdateChapterStage::Done <==> (next.1 is Settle || next.1 is Fail),
        next.0.stage != UpdateChapterStage::Done ==> update_chapter_step_wf(next.0),
        match (state.stage, event) {
            (UpdateChapterStage::Admission, StoreEvent::Rows(n)) => if n == 1 {
                &&& next.0.stage == UpdateChapterStage::Receipt
                &&& next.1 matches UpdateChapterAction::InsertReceipt { outcome }
                &&& effect_outcome(effect_view(state.effect)) == Some(outcome_view(outcome))
            } else {
                next.1 == UpdateChapterAction::Fail(UpdateChapterError::InvalidChallenge)
            },
            (UpdateChapterStage::Receipt, StoreEvent::Returned(v)) => {
                &&& next.0.stage == UpdateChapterStage::Settlement
                &&& next.0.receipt_created_at@ == v@[0]@
                &&& next.1 == UpdateChapterAction::InsertSettlement
            },
            (UpdateChapterStage::Settlement, StoreEvent::Rows(_)) => match state.effect {
                UpdateChapterSettlementEffect::Applied { title, .. } => next.0.stage == UpdateChapterStage::Title
                    && next.1 == UpdateChapterAction::UpdateTitle { chapter_id: state.chapter_id, title },
                _ => next.0.stage == UpdateChapterStage::Idempotency && next.1
                    == UpdateChapterAction::SettleIdempotency,
            },
            (UpdateChapterStage::Title, StoreEvent::Rows(n)) => if n == 1 {
                match state.ranks {
                    Some(ranks) => next.0.stage == UpdateChapterStage::Ranks && next.1
                        == UpdateChapterAction::RewriteRanks { parent_volume_id: state.parent_volume_id, ranks },
                    None => {
                        &&& next.0.stage == UpdateChapterStage::TreeRevision
                        &&& state.effect matches UpdateChapterSettlementEffect::Applied { tree_revision, .. }
                        &&& next.1 == UpdateChapterAction::BumpTreeRevision {
                            tree_revision,
                            expected_tree_revision: state.expected_tree_revision,
                        }
                    },
                }
            } else {
                next.1 matches UpdateChapterAction::Fail(UpdateChapterError::Unavailable(UnavailableCause::Message(m)))
                    && m@ == "Chapter row changed under FOR UPDATE"@
            },
            (UpdateChapterStage::Ranks, StoreEvent::Rows(_)) => {
                &&& next.0.stage == UpdateChapterStage::TreeRevision
                &&& state.effect matches UpdateChapterSettlementEffect::Applied { tree_revision, .. }
                &&& next.1 == UpdateChapterAction::BumpTreeRevision {
                    tree_revision,
                    expected_tree_revision: state.expected_tree_revision,
                }
            },
            (UpdateChapterStage::TreeRevision, StoreEvent::Rows(n)) => if n == 1 {
                next.0.stage == UpdateChapterStage::Counters && next.1 == UpdateChapterAction::AllocateCounters
            } else {
                next.1 matches UpdateChapterAction::Fail(UpdateChapterError::Unavailable(UnavailableCause::Message(m)))
                    && m@ == "tree revision changed under FOR UPDATE"@
            },
            (UpdateChapterStage::Counters, StoreEvent::Returned(v)) => match (
                u64_text_value(v@[0]@),
                u64_text_value(v@[1]@),
                u64_text_value(v@[2]@),
            ) {
                (Some(action), Some(commit), Some(position)) => {
                    &&& next.0.stage == UpdateChapterStage::Commit
                    &&& next.0.transition matches Some(t)
                    &&& t.author_action_sequence == action
                    &&& t.authoritative_commit_sequence == commit
                    &&& t.project_activity_position == position
                    &&& state.effect matches UpdateChapterSettlementEffect::Applied { tree_revision, .. }
                    &&& next.1 == UpdateChapterAction::InsertCommit {
                        sequences: t,
                        binding: StructureCommitBinding {
                            prior_manuscript_tree_revision: state.expected_tree_revision,
                            resulting_manuscript_tree_revision: tree_revision,
                            identity: StructureAffectedIdentity::Chapter { chapter_id: state.chapter_id },
                        },
                    }
                },
                _ => next.1 matches UpdateChapterAction::Fail(e) && e is Unavailable,
            },
            (UpdateChapterStage::Commit, StoreEvent::Rows(_)) => next.0.stage == UpdateChapterStage::AuthorAction
                && next.1 == UpdateChapterAction::InsertForwardAuthorAction {
                author_action_sequence: state.transition->0.author_action_sequence,
                authoritative_commit_id: state.transition->0.authoritative_commit_id,
            },
            (UpdateChapterStage::AuthorAction, StoreEvent::Rows(_)) => next.0.stage == UpdateChapterStage::Snapshot
                && next.1 == UpdateChapterAction::PersistSnapshot {
                snapshot_id: state.transition->0.snapshot_id,
                project_activity_position: state.transition->0.project_activity_position,
            },
            (UpdateChapterStage::Snapshot, StoreEvent::Rows(_)) => {
                &&& next.0.stage == UpdateChapterStage::Activity
                &&& state.effect matches UpdateChapterSettlementEffect::Applied { title, order, tree_revision }
                &&& next.1 matches UpdateChapterAction::InsertActivity {
                    project_activity_position,
                    project_activity_event_id,
                    payload,
                }
                &&& project_activity_position == state.transition->0.project_activity_position
                &&& project_activity_event_id == state.transition->0.project_activity_event_id
                &&& json_text_parses(payload@)
                &&& json_text_field(payload@, "kind"@) == Some("chapter_updated"@)
                &&& json_text_field(payload@, "chapter_id"@) == Some(state.chapter_id@)
                &&& json_text_field(payload@, "title"@) == Some(title@)
                &&& json_text_field(payload@, "tree_revision"@) == Some(decimal_text(tree_revision as nat))
                &&& json_text_field(payload@, "order"@) == Some(decimal_text(order as nat))
                &&& json_text_field(payload@, "prior_title"@) == Some(state.prior_title@)
                &&& json_text_field(payload@, "prior_order"@) == Some(decimal_text(state.prior_order as nat))
            },
            (UpdateChapterStage::Activity, StoreEvent::Rows(_)) => next.0.stage == UpdateChapterStage::Idempotency
                && next.1 == UpdateChapterAction::SettleIdempotency,
            (UpdateChapterStage::Idempotency, StoreEvent::Rows(_)) => next.1 matches UpdateChapterAction::Settle(
                settlement,
            ) && settlement.ids == state.ids && settlement.effect == state.effect && settlement.receipt_created_at
                == state.receipt_created_at && match state.effect {
                UpdateChapterSettlementEffect::Applied { tree_revision, .. } => {
                    let t = state.transition->0;
                    &&& settlement.project_activity_position == t.project_activity_position
                    &&& settlement.project_activity_event_id == t.project_activity_event_id
                    &&& settlement.authority == Some(
                        UpdateChapterAuthority {
                            authoritative_commit_id: t.authoritative_commit_id,
                            author_action_sequence: t.author_action_sequence,
                            snapshot_id: t.snapshot_id,
                            prior_manuscript_tree_revision: state.expected_tree_revision,
                            resulting_manuscript_tree_revision: tree_revision,
                        },
                    )
                },
                _ => settlement.project_activity_position == 0 && settlement.project_activity_event_id@.len() == 0
                    && settlement.authority is None,
            },
            _ => false,
        },
{
    let UpdateChapterStep {
        stage,
        ids,
        effect,
        chapter_id,
        parent_volume_id,
        ranks,
        prior_title,
        prior_order,
        expected_tree_revision,
        receipt_created_at,
        transition,
    } = state;
    let mut next_stage = UpdateChapterStage::Done;
    let mut created_at = receipt_created_at;
    let mut allocated = transition;
    let mut kept_ranks = ranks;
    let action = match (stage, event) {
        (UpdateChapterStage::Admission, StoreEvent::Rows(n)) => match check_update_chapter_write(
            UpdateChapterWrite::AdmissionInserted,
            n,
        ) {
            Err(e) => UpdateChapterAction::Fail(e),
            Ok(()) => match update_chapter_outcome(&effect) {
                Ok(outcome) => {
                    next_stage = UpdateChapterStage::Receipt;
                    UpdateChapterAction::InsertReceipt { outcome }
                },
                Err(e) => UpdateChapterAction::Fail(e),
            },
        },
        (UpdateChapterStage::Receipt, StoreEvent::Returned(v)) => {
            created_at = v[0].clone();
            next_stage = UpdateChapterStage::Settlement;
            UpdateChapterAction::InsertSettlement
        },
        (UpdateChapterStage::Settlement, StoreEvent::Rows(_)) => match &effect {
            UpdateChapterSettlementEffect::Applied { title, .. } => {
                next_stage = UpdateChapterStage::Title;
                UpdateChapterAction::UpdateTitle { chapter_id: chapter_id.clone(), title: title.clone() }
            },
            _ => {
                next_stage = UpdateChapterStage::Idempotency;
                UpdateChapterAction::SettleIdempotency
            },
        },
        (UpdateChapterStage::Title, StoreEvent::Rows(n)) => match check_update_chapter_write(
            UpdateChapterWrite::ChapterUpdated,
            n,
        ) {
            Err(e) => UpdateChapterAction::Fail(e),
            Ok(()) => match kept_ranks {
                Some(r) => {
                    next_stage = UpdateChapterStage::Ranks;
                    kept_ranks = Some(r.clone());
                    UpdateChapterAction::RewriteRanks { parent_volume_id: parent_volume_id.clone(), ranks: r }
                },
                None => match &effect {
                    UpdateChapterSettlementEffect::Applied { tree_revision, .. } => {
                        next_stage = UpdateChapterStage::TreeRevision;
                        UpdateChapterAction::BumpTreeRevision {
                            tree_revision: *tree_revision,
                            expected_tree_revision,
                        }
                    },
                    _ => UpdateChapterAction::Fail(UpdateChapterError::BindingConflict),
                },
            },
        },
        (UpdateChapterStage::Ranks, StoreEvent::Rows(_)) => match &effect {
            UpdateChapterSettlementEffect::Applied { tree_revision, .. } => {
                next_stage = UpdateChapterStage::TreeRevision;
                UpdateChapterAction::BumpTreeRevision { tree_revision: *tree_revision, expected_tree_revision }
            },
            _ => UpdateChapterAction::Fail(UpdateChapterError::BindingConflict),
        },
        (UpdateChapterStage::TreeRevision, StoreEvent::Rows(n)) => match check_update_chapter_write(
            UpdateChapterWrite::TreeRevisionBumped,
            n,
        ) {
            Err(e) => UpdateChapterAction::Fail(e),
            Ok(()) => {
                next_stage = UpdateChapterStage::Counters;
                UpdateChapterAction::AllocateCounters
            },
        },
        (UpdateChapterStage::Counters, StoreEvent::Returned(v)) => match crate::structural_authority::structure_transition_sequences(
            v[0].as_str(),
            v[1].as_str(),
            v[2].as_str(),
        ) {
            Some(t) => match &effect {
                UpdateChapterSettlementEffect::Applied { tree_revision, .. } => {
                    next_stage = UpdateChapterStage::Commit;
                    let binding = StructureCommitBinding {
                        prior_manuscript_tree_revision: expected_tree_revision,
                        resulting_manuscript_tree_revision: *tree_revision,
                        identity: StructureAffectedIdentity::Chapter { chapter_id: chapter_id.clone() },
                    };
                    let sequences = copy_sequences(&t);
                    allocated = Some(t);
                    UpdateChapterAction::InsertCommit { sequences, binding }
                },
                _ => UpdateChapterAction::Fail(UpdateChapterError::BindingConflict),
            },
            None => UpdateChapterAction::Fail(damaged_counter()),
        },
        (UpdateChapterStage::Commit, StoreEvent::Rows(_)) => match &allocated {
            Some(t) => {
                next_stage = UpdateChapterStage::AuthorAction;
                UpdateChapterAction::InsertForwardAuthorAction {
                    author_action_sequence: t.author_action_sequence,
                    authoritative_commit_id: t.authoritative_commit_id.clone(),
                }
            },
            None => UpdateChapterAction::Fail(UpdateChapterError::BindingConflict),
        },
        (UpdateChapterStage::AuthorAction, StoreEvent::Rows(_)) => match &allocated {
            Some(t) => {
                next_stage = UpdateChapterStage::Snapshot;
                UpdateChapterAction::PersistSnapshot {
                    snapshot_id: t.snapshot_id.clone(),
                    project_activity_position: t.project_activity_position,
                }
            },
            None => UpdateChapterAction::Fail(UpdateChapterError::BindingConflict),
        },
        (UpdateChapterStage::Snapshot, StoreEvent::Rows(_)) => match (&effect, &allocated) {
            (UpdateChapterSettlementEffect::Applied { title, order, tree_revision }, Some(t)) => {
                next_stage = UpdateChapterStage::Activity;
                UpdateChapterAction::InsertActivity {
                    project_activity_position: t.project_activity_position,
                    project_activity_event_id: t.project_activity_event_id.clone(),
                    payload: chapter_updated_payload(
                        chapter_id.as_str(),
                        title.as_str(),
                        *tree_revision,
                        *order,
                        prior_title.as_str(),
                        prior_order,
                    ),
                }
            },
            _ => UpdateChapterAction::Fail(UpdateChapterError::BindingConflict),
        },
        (UpdateChapterStage::Activity, StoreEvent::Rows(_)) => {
            next_stage = UpdateChapterStage::Idempotency;
            UpdateChapterAction::SettleIdempotency
        },
        (UpdateChapterStage::Idempotency, StoreEvent::Rows(_)) => {
            let transition_copy = match &allocated {
                Some(t) => Some(copy_sequences(t)),
                None => None,
            };
            UpdateChapterAction::Settle(
                first_use_update_chapter_settlement(
                    ids.copied(),
                    copy_chapter_effect(&effect),
                    created_at.clone(),
                    transition_copy,
                    expected_tree_revision,
                ),
            )
        },
        _ => UpdateChapterAction::Fail(UpdateChapterError::BindingConflict),
    };
    let next = UpdateChapterStep {
        stage: next_stage,
        ids,
        effect,
        chapter_id,
        parent_volume_id,
        ranks: kept_ranks,
        prior_title,
        prior_order,
        expected_tree_revision,
        receipt_created_at: created_at,
        transition: allocated,
    };
    (next, action)
}

} // verus!
