//! Update Volume: where the Volume stands in the tree, the settlement that the
//! classification gives, and the receipt and activity it writes.

use crate::command::{
    AuthorCommandAdmissionIds,
    lifecycle_of_text, outcome_view, project_lifecycle, receipt_outcome, same_text, ProjectLifecycle, ReceiptOutcome,
    StoreEvent, UnavailableCause,
};
use crate::structural_authority::{StructureAffectedIdentity, StructureCommitBinding, StructureTransitionSequences};
use crate::json::{json_text_field, json_text_parses, payload_text, PayloadValue};
use crate::text::{decimal_text, format_u64, parse_u64, u64_text_value};
use vstd::prelude::*;

verus! {

#[derive(Debug, Clone, Copy, PartialEq, Eq)]
pub enum UpdateVolumeNoEffect {
    Unchanged,
}

#[derive(Debug, Clone, Copy, PartialEq, Eq)]
pub enum UpdateVolumeConflict {
    StaleVolumeRevision,
}

#[derive(Debug, Clone, Copy, PartialEq, Eq)]
pub enum UpdateVolumeRefusal {
    ArchivedProject,
    InvalidTitle,
    InvalidOrder,
    InvalidVolumeJoin,
    MissingProject,
}

/// How a Volume named by a command joins the Project.
#[derive(Debug, Clone, Copy, PartialEq, Eq)]
pub enum VolumeJoin {
    ExactScope,
    Invalid,
}

/// The classification of an Update Volume command.
#[derive(Debug, Clone, PartialEq, Eq)]
pub enum UpdateVolumeResult {
    Applied { title: String, order: u64, tree_revision: u64 },
    NoEffect { reason: UpdateVolumeNoEffect },
    Conflicted { reason: UpdateVolumeConflict },
    Refused { reason: UpdateVolumeRefusal },
}

/// What a settled Update Volume command did.
#[derive(Debug, Clone, PartialEq, Eq)]
pub enum UpdateVolumeSettlementEffect {
    Applied { title: String, order: u64, tree_revision: u64 },
    NoEffect { reason: UpdateVolumeNoEffect },
    Conflicted { reason: UpdateVolumeConflict },
    Refused { reason: UpdateVolumeRefusal },
}

#[derive(Debug, Clone, PartialEq, Eq)]
pub enum UpdateVolumeError {
    MissingProject,
    BindingConflict,
    InvalidChallenge,
    Unavailable(UnavailableCause),
}

/// One Volume of the Project as the tree lists it, in stored order.
pub struct VolumeRow {
    pub id: String,
    pub title: String,
    pub tree_order: String,
}

/// The position of the first row whose id is `id`.
pub open spec fn first_volume_with_id(rows: Seq<VolumeRow>, id: Seq<char>) -> Option<int>
    decreases rows.len(),
{
    if rows.len() == 0 {
        None
    } else {
        match first_volume_with_id(rows.drop_last(), id) {
            Some(i) => Some(i),
            None => if rows.last().id@ == id {
                Some(rows.len() - 1)
            } else {
                None
            },
        }
    }
}

/// Where the updated Volume stands: all Volumes are its siblings.
pub struct VolumePlacement {
    pub volume_join: VolumeJoin,
    pub current_title: String,
    pub current_order: u64,
    pub ordered_ids: Vec<String>,
    pub volume_count: u64,
}

/// Finds the updated Volume among the Project's Volumes (the first row with
/// its id) and lists the ids of all Volumes in order. A Volume that is not
/// found does not join the Project: no title, order 1, no siblings. A stored
/// order that is no counter makes the command unavailable.
pub fn volume_placement(rows: &Vec<VolumeRow>, volume_id: &str) -> (placement: Result<
    VolumePlacement,
    UpdateVolumeError,
>)
    requires
        rows@.len() <= u64::MAX,
    ensures
        match first_volume_with_id(rows@, volume_id@) {
            None => placement matches Ok(p) && p.volume_join == VolumeJoin::Invalid
                && p.current_title@.len() == 0 && p.current_order == 1 && p.ordered_ids@.len() == 0
                && p.volume_count == rows@.len(),
            Some(i) => match u64_text_value(rows@[i].tree_order@) {
                Some(order) => placement matches Ok(p) && p.volume_join == VolumeJoin::ExactScope
                    && p.current_title@ == rows@[i].title@ && p.current_order == order
                    && p.volume_count == rows@.len() && p.ordered_ids@.len() == rows@.len()
                    && forall|k: int| 0 <= k < rows@.len() ==> (#[trigger] p.ordered_ids@[k])@ == rows@[k].id@,
                None => placement matches Err(e) && e is Unavailable,
            },
        },
{
    let mut found: Option<usize> = None;
    let mut i: usize = 0;
    while i < rows.len()
        invariant
            i <= rows@.len(),
            found is None ==> first_volume_with_id(rows@.take(i as int), volume_id@) is None,
            found matches Some(k) ==> k < i && first_volume_with_id(rows@.take(i as int), volume_id@)
                == Some(k as int),
        decreases rows@.len() - i,
    {
        assert(rows@.take(i + 1).drop_last() =~= rows@.take(i as int));
        if found.is_none() && same_text(rows[i].id.as_str(), volume_id) {
            found = Some(i);
        }
        i = i + 1;
    }
    assert(rows@.take(rows@.len() as int) =~= rows@);
    let volume_count = rows.len() as u64;
    match found {
        None => Ok(
            VolumePlacement {
                volume_join: VolumeJoin::Invalid,
                current_title: String::new(),
                current_order: 1,
                ordered_ids: Vec::new(),
                volume_count,
            },
        ),
        Some(k) => {
            let row = &rows[k];
            let current_order = match parse_u64(row.tree_order.as_str()) {
                Some(order) => order,
                None => {
                    return Err(
                        UpdateVolumeError::Unavailable(
                            UnavailableCause::Message(
                                String::from_str("stored counter is not a decimal u64"),
                            ),
                        ),
                    );
                },
            };
            let mut ordered_ids: Vec<String> = Vec::new();
            let mut j: usize = 0;
            while j < rows.len()
                invariant
                    j <= rows@.len(),
                    ordered_ids@.len() == j,
                    forall|m: int| 0 <= m < j ==> (#[trigger] ordered_ids@[m])@ == rows@[m].id@,
                decreases rows@.len() - j,
            {
                ordered_ids.push(rows[j].id.clone());
                j = j + 1;
            }
            Ok(
                VolumePlacement {
                    volume_join: VolumeJoin::ExactScope,
                    current_title: row.title.clone(),
                    current_order,
                    ordered_ids,
                    volume_count,
                },
            )
        },
    }
}

/// What the Update Volume classification is given.
#[derive(Debug, Clone, PartialEq, Eq)]
pub struct UpdateVolumeInput {
    pub volume_join: VolumeJoin,
    pub expected_volume_revision: u64,
    pub current_volume_revision: u64,
    pub current_lifecycle: ProjectLifecycle,
    pub title: String,
    pub current_title: String,
    pub order: u64,
    pub current_order: u64,
    pub volume_count: u64,
}

/// The Project's lifecycle and Volume revision as an Update Volume command
/// reads them: no Project row is a missing Project; a lifecycle other than
/// active or archived, or a damaged revision, makes the command unavailable.
pub fn update_volume_project(project: Option<(String, String)>) -> (read: Result<
    (ProjectLifecycle, u64),
    UpdateVolumeError,
>)
    ensures
        match project {
            None => read matches Err(e) && e == UpdateVolumeError::MissingProject,
            Some((lifecycle, revision)) => match (lifecycle_of_text(lifecycle@), u64_text_value(revision@)) {
                (Some(l), Some(r)) => read matches Ok((rl, rr)) && rl == l && rr == r,
                _ => read matches Err(e) && e is Unavailable,
            },
        },
{
    let (lifecycle, revision) = match project {
        Some(row) => row,
        None => {
            return Err(UpdateVolumeError::MissingProject);
        },
    };
    let current_lifecycle = match project_lifecycle(lifecycle.as_str()) {
        Some(l) => l,
        None => {
            return Err(
                UpdateVolumeError::Unavailable(
                    UnavailableCause::Message(String::from_str("unsupported Project lifecycle")),
                ),
            );
        },
    };
    match parse_u64(revision.as_str()) {
        Some(r) => Ok((current_lifecycle, r)),
        None => Err(
            UpdateVolumeError::Unavailable(
                UnavailableCause::Message(String::from_str("stored counter is not a decimal u64")),
            ),
        ),
    }
}

/// The classification input of an Update Volume command: the Project's
/// lifecycle and revision, the command's expectation, title and order, and
/// where the Volume stands among all Volumes.
pub fn update_volume_input(
    current_lifecycle: ProjectLifecycle,
    current_volume_revision: u64,
    placement: &VolumePlacement,
    expected_volume_revision: u64,
    title: &str,
    order: u64,
) -> (input: UpdateVolumeInput)
    ensures
        input.volume_join == placement.volume_join,
        input.expected_volume_revision == expected_volume_revision,
        input.current_volume_revision == current_volume_revision,
        input.current_lifecycle == current_lifecycle,
        input.title@ == title@,
        input.current_title@ == placement.current_title@,
        input.order == order,
        input.current_order == placement.current_order,
        input.volume_count == placement.volume_count,
{
    UpdateVolumeInput {
        volume_join: placement.volume_join,
        expected_volume_revision,
        current_volume_revision,
        current_lifecycle,
        title: String::from_str(title),
        current_title: placement.current_title.clone(),
        order,
        current_order: placement.current_order,
        volume_count: placement.volume_count,
    }
}

/// The settlement effect of a classification; a missing Project is no
/// settlement at all.
pub fn settlement_effect(classified: UpdateVolumeResult) -> (effect: Result<
    UpdateVolumeSettlementEffect,
    UpdateVolumeError,
>)
    ensures
        match classified {
            UpdateVolumeResult::Applied { title, order, tree_revision } => effect == Ok::<
                UpdateVolumeSettlementEffect,
                UpdateVolumeError,
            >(UpdateVolumeSettlementEffect::Applied { title, order, tree_revision }),
            UpdateVolumeResult::NoEffect { reason } => effect == Ok::<
                UpdateVolumeSettlementEffect,
                UpdateVolumeError,
            >(UpdateVolumeSettlementEffect::NoEffect { reason }),
            UpdateVolumeResult::Conflicted { reason } => effect == Ok::<
                UpdateVolumeSettlementEffect,
                UpdateVolumeError,
            >(UpdateVolumeSettlementEffect::Conflicted { reason }),
            UpdateVolumeResult::Refused { reason } => if reason == UpdateVolumeRefusal::MissingProject {
                effect == Err::<UpdateVolumeSettlementEffect, UpdateVolumeError>(
                    UpdateVolumeError::MissingProject,
                )
            } else {
                effect == Ok::<UpdateVolumeSettlementEffect, UpdateVolumeError>(
                    UpdateVolumeSettlementEffect::Refused { reason },
                )
            },
        },
{
    match classified {
        UpdateVolumeResult::Applied { title, order, tree_revision } => Ok(
            UpdateVolumeSettlementEffect::Applied { title, order, tree_revision },
        ),
        UpdateVolumeResult::NoEffect { reason } => Ok(UpdateVolumeSettlementEffect::NoEffect { reason }),
        UpdateVolumeResult::Conflicted { reason } => Ok(
            UpdateVolumeSettlementEffect::Conflicted { reason },
        ),
        UpdateVolumeResult::Refused { reason: UpdateVolumeRefusal::MissingProject } => Err(
            UpdateVolumeError::MissingProject,
        ),
        UpdateVolumeResult::Refused { reason } => Ok(UpdateVolumeSettlementEffect::Refused { reason }),
    }
}

/// The result kind and reason that the receipt of an effect records.
pub open spec fn effect_outcome(effect: UpdateVolumeSettlementEffect) -> Option<
    (Seq<char>, Option<Seq<char>>),
> {
    match effect {
        UpdateVolumeSettlementEffect::Applied { .. } => Some(("authoritative_applied"@, None)),
        UpdateVolumeSettlementEffect::NoEffect { .. } => Some(("no_effect"@, Some("unchanged"@))),
        UpdateVolumeSettlementEffect::Conflicted { .. } => Some(
            ("conflicted"@, Some("stale_volume_revision"@)),
        ),
        UpdateVolumeSettlementEffect::Refused { reason } => match reason {
            UpdateVolumeRefusal::ArchivedProject => Some(("refused"@, Some("archived_project"@))),
            UpdateVolumeRefusal::InvalidTitle => Some(("refused"@, Some("invalid_title"@))),
            UpdateVolumeRefusal::InvalidOrder => Some(("refused"@, Some("invalid_order"@))),
            UpdateVolumeRefusal::InvalidVolumeJoin => Some(
                ("refused"@, Some("invalid_volume_join"@)),
            ),
            UpdateVolumeRefusal::MissingProject => None,
        },
    }
}

/// The Update Chapter refusal that an Update Volume refusal shares its
/// reason with: a refusal that is not about the joined object is the same
/// refusal in both commands.
pub open spec fn shared_chapter_refusal(reason: UpdateVolumeRefusal) -> Option<
    crate::update_chapter::UpdateChapterRefusal,
> {
    match reason {
        UpdateVolumeRefusal::ArchivedProject => Some(crate::update_chapter::UpdateChapterRefusal::ArchivedProject),
        UpdateVolumeRefusal::InvalidTitle => Some(crate::update_chapter::UpdateChapterRefusal::InvalidTitle),
        UpdateVolumeRefusal::InvalidOrder => Some(crate::update_chapter::UpdateChapterRefusal::InvalidOrder),
        _ => None,
    }
}

/// Law: an Update Volume receipt tells its effects apart. Two effects that
/// carry no new title and record the same result kind and reason are the
/// same effect, so distinct refusals record distinct reasons.
pub proof fn lemma_update_volume_outcome_distinguishes(a: UpdateVolumeSettlementEffect, b: UpdateVolumeSettlementEffect)
    requires
        !(a is Applied),
        !(b is Applied),
        effect_outcome(a) is Some,
        effect_outcome(a) == effect_outcome(b),
    ensures
        a == b,
{
    reveal_strlit("archived_project");
    reveal_strlit("conflicted");
    reveal_strlit("invalid_order");
    reveal_strlit("invalid_title");
    reveal_strlit("invalid_volume_join");
    reveal_strlit("no_effect");
    reveal_strlit("refused");
    reveal_strlit("stale_volume_revision");
    reveal_strlit("unchanged");
    if a == (UpdateVolumeSettlementEffect::NoEffect { reason: UpdateVolumeNoEffect::Unchanged })
        && b == (UpdateVolumeSettlementEffect::Conflicted { reason: UpdateVolumeConflict::StaleVolumeRevision }) {
        assert("no_effect"@.len() != "conflicted"@.len());
    }
    if a == (UpdateVolumeSettlementEffect::NoEffect { reason: UpdateVolumeNoEffect::Unchanged })
        && b == (UpdateVolumeSettlementEffect::Refused { reason: UpdateVolumeRefusal::ArchivedProject }) {
        assert("no_effect"@.len() != "refused"@.len());
    }
    if a == (UpdateVolumeSettlementEffect::NoEffect { reason: UpdateVolumeNoEffect::Unchanged })
        && b == (UpdateVolumeSettlementEffect::Refused { reason: UpdateVolumeRefusal::InvalidTitle }) {
        assert("no_effect"@.len() != "refused"@.len());
    }
    if a == (UpdateVolumeSettlementEffect::NoEffect { reason: UpdateVolumeNoEffect::Unchanged })
        && b == (UpdateVolumeSettlementEffect::Refused { reason: UpdateVolumeRefusal::InvalidOrder }) {
        assert("no_effect"@.len() != "refused"@.len());
    }
    if a == (UpdateVolumeSettlementEffect::NoEffect { reason: UpdateVolumeNoEffect::Unchanged })
        && b == (UpdateVolumeSettlementEffect::Refused { reason: UpdateVolumeRefusal::InvalidVolumeJoin }) {
        assert("no_effect"@.len() != "refused"@.len());
    }
    if a == (UpdateVolumeSettlementEffect::Conflicted { reason: UpdateVolumeConflict::StaleVolumeRevision })
        && b == (UpdateVolumeSettlementEffect::NoEffect { reason: UpdateVolumeNoEffect::Unchanged }) {
        assert("conflicted"@.len() != "no_effect"@.len());
    }
    if a == (UpdateVolumeSettlementEffect::Conflicted { reason: UpdateVolumeConflict::StaleVolumeRevision })
        && b == (UpdateVolumeSettlementEffect::Refused { reason: UpdateVolumeRefusal::ArchivedProject }) {
        assert("conflicted"@.len() != "refused"@.len());
    }
    if a == (UpdateVolumeSettlementEffect::Conflicted { reason: UpdateVolumeConflict::StaleVolumeRevision })
        && b == (UpdateVolumeSettlementEffect::Refused { reason: UpdateVolumeRefusal::InvalidTitle }) {
        assert("conflicted"@.len() != "refused"@.len());
    }
    if a == (UpdateVolumeSettlementEffect::Conflicted { reason: UpdateVolumeConflict::StaleVolumeRevision })
        && b == (UpdateVolumeSettlementEffect::Refused { reason: UpdateVolumeRefusal::InvalidOrder }) {
        assert("conflicted"@.len() != "refused"@.len());
    }
    if a == (UpdateVolumeSettlementEffect::Conflicted { reason: UpdateVolumeConflict::StaleVolumeRevision })
        && b == (UpdateVolumeSettlementEffect::Refused { reason: UpdateVolumeRefusal::InvalidVolumeJoin }) {
        assert("conflicted"@.len() != "refused"@.len());
    }
    if a == (UpdateVolumeSettlementEffect::Refused { reason: UpdateVolumeRefusal::ArchivedProject })
        && b == (UpdateVolumeSettlementEffect::NoEffect { reason: UpdateVolumeNoEffect::Unchanged }) {
        assert("refused"@.len() != "no_effect"@.len());
    }
    if a == (UpdateVolumeSettlementEffect::Refused { reason: UpdateVolumeRefusal::ArchivedProject })
        && b == (UpdateVolumeSettlementEffect::Conflicted { reason: UpdateVolumeConflict::StaleVolumeRevision }) {
        assert("refused"@.len() != "conflicted"@.len());
    }
    if a == (UpdateVolumeSettlementEffect::Refused { reason: UpdateVolumeRefusal::ArchivedProject })
        && b == (UpdateVolumeSettlementEffect::Refused { reason: UpdateVolumeRefusal::InvalidTitle }) {
        assert("archived_project"@.len() != "invalid_title"@.len());
    }
    if a == (UpdateVolumeSettlementEffect::Refused { reason: UpdateVolumeRefusal::ArchivedProject })
        && b == (UpdateVolumeSettlementEffect::Refused { reason: UpdateVolumeRefusal::InvalidOrder }) {
        assert("archived_project"@.len() != "invalid_order"@.len());
    }
    if a == (UpdateVolumeSettlementEffect::Refused { reason: UpdateVolumeRefusal::ArchivedProject })
        && b == (UpdateVolumeSettlementEffect::Refused { reason: UpdateVolumeRefusal::InvalidVolumeJoin }) {
        assert("archived_project"@.len() != "invalid_volume_join"@.len());
    }
    if a == (UpdateVolumeSettlementEffect::Refused { reason: UpdateVolumeRefusal::InvalidTitle })
        && b == (UpdateVolumeSettlementEffect::NoEffect { reason: UpdateVolumeNoEffect::Unchanged }) {
        assert("refused"@.len() != "no_effect"@.len());
    }
    if a == (UpdateVolumeSettlementEffect::Refused { reason: UpdateVolumeRefusal::InvalidTitle })
        && b == (UpdateVolumeSettlementEffect::Conflicted { reason: UpdateVolumeConflict::StaleVolumeRevision }) {
        assert("refused"@.len() != "conflicted"@.len());
    }
    if a == (UpdateVolumeSettlementEffect::Refused { reason: UpdateVolumeRefusal::InvalidTitle })
        && b == (UpdateVolumeSettlementEffect::Refused { reason: UpdateVolumeRefusal::ArchivedProject }) {
        assert("invalid_title"@.len() != "archived_project"@.len());
    }
    if a == (UpdateVolumeSettlementEffect::Refused { reason: UpdateVolumeRefusal::InvalidTitle })
        && b == (UpdateVolumeSettlementEffect::Refused { reason: UpdateVolumeRefusal::InvalidOrder }) {
        assert("invalid_title"@[8] != "invalid_order"@[8]);
    }
    if a == (UpdateVolumeSettlementEffect::Refused { reason: UpdateVolumeRefusal::InvalidTitle })
        && b == (UpdateVolumeSettlementEffect::Refused { reason: UpdateVolumeRefusal::InvalidVolumeJoin }) {
        assert("invalid_title"@.len() != "invalid_volume_join"@.len());
    }
    if a == (UpdateVolumeSettlementEffect::Refused { reason: UpdateVolumeRefusal::InvalidOrder })
        && b == (UpdateVolumeSettlementEffect::NoEffect { reason: UpdateVolumeNoEffect::Unchanged }) {
        assert("refused"@.len() != "no_effect"@.len());
    }
    if a == (UpdateVolumeSettlementEffect::Refused { reason: UpdateVolumeRefusal::InvalidOrder })
        && b == (UpdateVolumeSettlementEffect::Conflicted { reason: UpdateVolumeConflict::StaleVolumeRevision }) {
        assert("refused"@.len() != "conflicted"@.len());
    }
    if a == (UpdateVolumeSettlementEffect::Refused { reason: UpdateVolumeRefusal::InvalidOrder })
        && b == (UpdateVolumeSettlementEffect::Refused { reason: UpdateVolumeRefusal::ArchivedProject }) {
        assert("invalid_order"@.len() != "archived_project"@.len());
    }
    if a == (UpdateVolumeSettlementEffect::Refused { reason: UpdateVolumeRefusal::InvalidOrder })
        && b == (UpdateVolumeSettlementEffect::Refused { reason: UpdateVolumeRefusal::InvalidTitle }) {
        assert("invalid_order"@[8] != "invalid_title"@[8]);
    }
    if a == (UpdateVolumeSettlementEffect::Refused { reason: UpdateVolumeRefusal::InvalidOrder })
        && b == (UpdateVolumeSettlementEffect::Refused { reason: UpdateVolumeRefusal::InvalidVolumeJoin }) {
        assert("invalid_order"@.len() != "invalid_volume_join"@.len());
    }
    if a == (UpdateVolumeSettlementEffect::Refused { reason: UpdateVolumeRefusal::InvalidVolumeJoin })
        && b == (UpdateVolumeSettlementEffect::NoEffect { reason: UpdateVolumeNoEffect::Unchanged }) {
        assert("refused"@.len() != "no_effect"@.len());
    }
    if a == (UpdateVolumeSettlementEffect::Refused { reason: UpdateVolumeRefusal::InvalidVolumeJoin })
        && b == (UpdateVolumeSettlementEffect::Conflicted { reason: UpdateVolumeConflict::StaleVolumeRevision }) {
        assert("refused"@.len() != "conflicted"@.len());
    }
    if a == (UpdateVolumeSettlementEffect::Refused { reason: UpdateVolumeRefusal::InvalidVolumeJoin })
        && b == (UpdateVolumeSettlementEffect::Refused { reason: UpdateVolumeRefusal::ArchivedProject }) {
        assert("invalid_volume_join"@.len() != "archived_project"@.len());
    }
    if a == (UpdateVolumeSettlementEffect::Refused { reason: UpdateVolumeRefusal::InvalidVolumeJoin })
        && b == (UpdateVolumeSettlementEffect::Refused { reason: UpdateVolumeRefusal::InvalidTitle }) {
        assert("invalid_volume_join"@.len() != "invalid_title"@.len());
    }
    if a == (UpdateVolumeSettlementEffect::Refused { reason: UpdateVolumeRefusal::InvalidVolumeJoin })
        && b == (UpdateVolumeSettlementEffect::Refused { reason: UpdateVolumeRefusal::InvalidOrder }) {
        assert("invalid_volume_join"@.len() != "invalid_order"@.len());
    }
}

/// Law: a refusal that Update Volume shares with Update Chapter records the
/// same reason code that Update Chapter records for it.
pub proof fn lemma_update_volume_refusals_agree_with_update_chapter(reason: UpdateVolumeRefusal)
    ensures
        shared_chapter_refusal(reason) matches Some(chapter) ==> effect_outcome(
            UpdateVolumeSettlementEffect::Refused { reason },
        ) == Some(("refused"@, crate::update_chapter::refusal_reason(chapter))),
{
}

/// The receipt outcome of a settlement effect; a missing Project records none.
pub fn update_volume_outcome(effect: &UpdateVolumeSettlementEffect) -> (outcome: Result<
    ReceiptOutcome,
    UpdateVolumeError,
>)
    ensures
        match outcome {
            Ok(o) => effect_outcome(*effect) == Some(outcome_view(o)),
            Err(e) => effect_outcome(*effect) is None && e == UpdateVolumeError::MissingProject,
        },
{
    match effect {
        UpdateVolumeSettlementEffect::Applied { .. } => Ok(
            receipt_outcome("authoritative_applied", None),
        ),
        UpdateVolumeSettlementEffect::NoEffect { .. } => Ok(
            receipt_outcome("no_effect", Some("unchanged")),
        ),
        UpdateVolumeSettlementEffect::Conflicted { .. } => Ok(
            receipt_outcome("conflicted", Some("stale_volume_revision")),
        ),
        UpdateVolumeSettlementEffect::Refused { reason } => match reason {
            UpdateVolumeRefusal::ArchivedProject => Ok(
                receipt_outcome("refused", Some("archived_project")),
            ),
            UpdateVolumeRefusal::InvalidTitle => Ok(receipt_outcome("refused", Some("invalid_title"))),
            UpdateVolumeRefusal::InvalidOrder => Ok(receipt_outcome("refused", Some("invalid_order"))),
            UpdateVolumeRefusal::InvalidVolumeJoin => Ok(
                receipt_outcome("refused", Some("invalid_volume_join")),
            ),
            UpdateVolumeRefusal::MissingProject => Err(UpdateVolumeError::MissingProject),
        },
    }
}

/// The Project Activity payload of an applied update, with the title and
/// order it replaced, which undo restores; the tree revision and the orders
/// are written as decimal text.
pub fn volume_updated_payload(
    volume_id: &str,
    title: &str,
    tree_revision: u64,
    order: u64,
    prior_title: &str,
    prior_order: u64,
) -> (payload: String)
    ensures
        json_text_parses(payload@),
        json_text_field(payload@, "kind"@) == Some("volume_updated"@),
        json_text_field(payload@, "volume_id"@) == Some(volume_id@),
        json_text_field(payload@, "title"@) == Some(title@),
        json_text_field(payload@, "tree_revision"@) == Some(decimal_text(tree_revision as nat)),
        json_text_field(payload@, "order"@) == Some(decimal_text(order as nat)),
        json_text_field(payload@, "prior_title"@) == Some(prior_title@),
        json_text_field(payload@, "prior_order"@) == Some(decimal_text(prior_order as nat)),
{
    let mut fields: Vec<(String, PayloadValue)> = Vec::new();
    fields.push((String::from_str("kind"), PayloadValue::Text(String::from_str("volume_updated"))));
    fields.push((String::from_str("volume_id"), PayloadValue::Text(String::from_str(volume_id))));
    fields.push((String::from_str("title"), PayloadValue::Text(String::from_str(title))));
    fields.push((String::from_str("tree_revision"), PayloadValue::Text(format_u64(tree_revision))));
    fields.push((String::from_str("order"), PayloadValue::Text(format_u64(order))));
    fields.push((String::from_str("prior_title"), PayloadValue::Text(String::from_str(prior_title))));
    fields.push((String::from_str("prior_order"), PayloadValue::Text(format_u64(prior_order))));
    let payload = payload_text(&fields);
    proof {
        reveal_strlit("kind");
        assert("kind"@.len() == 4);
        reveal_strlit("volume_id");
        assert("volume_id"@.len() == 9);
        reveal_strlit("title");
        assert("title"@.len() == 5);
        reveal_strlit("tree_revision");
        assert("tree_revision"@.len() == 13);
        reveal_strlit("order");
        assert("order"@.len() == 5);
        reveal_strlit("prior_title");
        reveal_strlit("prior_order");
        assert("prior_title"@.len() == 11);
        assert("prior_order"@.len() == 11);
        let f = fields@;
        assert(f[2].0@[0] != f[4].0@[0]);
        assert(f[5].0@[6] != f[6].0@[6]);
        assert(f[2].0@[0] != f[5].0@[0]);
        assert(f[4].0@[0] != f[6].0@[0]);
        assert(crate::json::sole_member(f, 0));
        assert(crate::json::sole_member(f, 1));
        assert(crate::json::sole_member(f, 2));
        assert(crate::json::sole_member(f, 3));
        assert(crate::json::sole_member(f, 4));
        assert(crate::json::sole_member(f, 5));
        assert(crate::json::sole_member(f, 6));
        assert(json_text_field(payload@, f[0].0@) == crate::json::payload_member(f[0]).1);
        assert(json_text_field(payload@, f[1].0@) == crate::json::payload_member(f[1]).1);
        assert(json_text_field(payload@, f[2].0@) == crate::json::payload_member(f[2]).1);
        assert(json_text_field(payload@, f[3].0@) == crate::json::payload_member(f[3]).1);
        assert(json_text_field(payload@, f[4].0@) == crate::json::payload_member(f[4]).1);
        assert(json_text_field(payload@, f[5].0@) == crate::json::payload_member(f[5]).1);
        assert(json_text_field(payload@, f[6].0@) == crate::json::payload_member(f[6]).1);
    }
    payload
}

/// A write of an Update Volume command whose row count is checked.
#[derive(Debug, Clone, Copy, PartialEq, Eq)]
pub enum UpdateVolumeWrite {
    /// The Volume row took the new title.
    VolumeUpdated,
    /// The Project's tree revision advanced.
    TreeRevisionBumped,
    /// The admission of the command was recorded.
    AdmissionInserted,
}

/// Checks the row count of a write: each must touch exactly one row. A Volume
/// row or tree revision that changed under the lock makes the command
/// unavailable; an admission without its consumed challenge is an invalid
/// challenge.
pub fn check_update_volume_write(write: UpdateVolumeWrite, count: u64) -> (checked: Result<(), UpdateVolumeError>)
    ensures
        count == 1 ==> checked is Ok,
        count != 1 ==> match write {
            UpdateVolumeWrite::VolumeUpdated => checked matches Err(UpdateVolumeError::Unavailable(
                UnavailableCause::Message(message),
            )) && message@ == "Volume row changed under FOR UPDATE"@,
            UpdateVolumeWrite::TreeRevisionBumped => checked matches Err(UpdateVolumeError::Unavailable(
                UnavailableCause::Message(message),
            )) && message@ == "tree revision changed under FOR UPDATE"@,
            UpdateVolumeWrite::AdmissionInserted => checked matches Err(e) && e == UpdateVolumeError::InvalidChallenge,
        },
{
    if count == 1 {
        return Ok(());
    }
    match write {
        UpdateVolumeWrite::VolumeUpdated => Err(
            UpdateVolumeError::Unavailable(UnavailableCause::Message(String::from_str("Volume row changed under FOR UPDATE"))),
        ),
        UpdateVolumeWrite::TreeRevisionBumped => Err(
            UpdateVolumeError::Unavailable(UnavailableCause::Message(String::from_str("tree revision changed under FOR UPDATE"))),
        ),
        UpdateVolumeWrite::AdmissionInserted => Err(UpdateVolumeError::InvalidChallenge),
    }
}



/// The structural authority that an applied update wrote.
#[derive(Debug, Clone, PartialEq, Eq)]
pub struct UpdateVolumeAuthority {
    pub authoritative_commit_id: String,
    pub author_action_sequence: u64,
    pub snapshot_id: String,
    pub prior_manuscript_tree_revision: u64,
    pub resulting_manuscript_tree_revision: u64,
}

/// A settled Update Volume command: its identities, the receipt time, the
/// effect, the Project Activity it wrote (position `0` and an empty event id
/// when it wrote none), and the structural authority of an applied update.
#[derive(Debug, Clone, PartialEq, Eq)]
pub struct UpdateVolumeSettlement {
    pub ids: AuthorCommandAdmissionIds,
    pub effect: UpdateVolumeSettlementEffect,
    pub receipt_created_at: String,
    pub project_activity_position: u64,
    pub project_activity_event_id: String,
    pub authority: Option<UpdateVolumeAuthority>,
}

/// The settlement of a first use. An applied update reports the activity
/// position and event id of the structural transition it allocated, and as
/// authority that transition's Commit, Author Action and snapshot, from the
/// tree revision it expected to the one it produced; any other effect
/// reports position `0`, an empty event id and no authority.
pub fn first_use_update_volume_settlement(
    ids: AuthorCommandAdmissionIds,
    effect: UpdateVolumeSettlementEffect,
    receipt_created_at: String,
    transition: Option<StructureTransitionSequences>,
    expected_tree_revision: u64,
) -> (settlement: UpdateVolumeSettlement)
    requires
        effect is Applied ==> transition is Some,
    ensures
        settlement.ids == ids,
        settlement.effect == effect,
        settlement.receipt_created_at == receipt_created_at,
        match effect {
            UpdateVolumeSettlementEffect::Applied { tree_revision, .. } => {
                let t = transition->0;
                &&& settlement.project_activity_position == t.project_activity_position
                &&& settlement.project_activity_event_id == t.project_activity_event_id
                &&& settlement.authority == Some(
                    UpdateVolumeAuthority {
                        authoritative_commit_id: t.authoritative_commit_id,
                        author_action_sequence: t.author_action_sequence,
                        snapshot_id: t.snapshot_id,
                        prior_manuscript_tree_revision: expected_tree_revision,
                        resulting_manuscript_tree_revision: tree_revision,
                    },
                )
            },
            _ => {
                &&& settlement.project_activity_position == 0
                &&& settlement.project_activity_event_id@.len() == 0
                &&& settlement.authority is None
            },
        },
{
    let (position, event_id, authority) = match (&effect, transition) {
        (UpdateVolumeSettlementEffect::Applied { tree_revision, .. }, Some(t)) => (
            t.project_activity_position,
            t.project_activity_event_id,
            Some(
                UpdateVolumeAuthority {
                    authoritative_commit_id: t.authoritative_commit_id,
                    author_action_sequence: t.author_action_sequence,
                    snapshot_id: t.snapshot_id,
                    prior_manuscript_tree_revision: expected_tree_revision,
                    resulting_manuscript_tree_revision: *tree_revision,
                },
            ),
        ),
        _ => (0, String::new(), None),
    };
    UpdateVolumeSettlement {
        ids,
        effect,
        receipt_created_at,
        project_activity_position: position,
        project_activity_event_id: event_id,
        authority,
    }
}

/// Which answer of the store a first use of Update Volume awaits: the
/// answer to the action it issued last, or none once it has settled or failed.
#[derive(Debug, Clone, Copy, PartialEq, Eq)]
pub enum UpdateVolumeStage {
    Admission,
    Receipt,
    Settlement,
    Title,
    Ranks,
    TreeRevision,
    Counters,
    Commit,
    AuthorAction,
    Snapshot,
    Activity,
    Idempotency,
    Done,
}

/// The state of a first use of Update Volume inside its serializable
/// transaction: the stage, what the command and its classification fixed,
/// and what the store has answered so far.
#[derive(Debug, Clone, PartialEq, Eq)]
pub struct UpdateVolumeStep {
    pub stage: UpdateVolumeStage,
    pub ids: AuthorCommandAdmissionIds,
    pub effect: UpdateVolumeSettlementEffect,
    pub volume_id: String,
    pub ranks: Option<Vec<(String, u64)>>,
    pub prior_title: String,
    pub prior_order: u64,
    pub expected_tree_revision: u64,
    pub receipt_created_at: String,
    pub transition: Option<StructureTransitionSequences>,
}

/// What a first use of Update Volume asks the store to do next, or how it
/// ends: with its settlement (the transaction commits) or an error (it
/// rolls back).
#[derive(Debug, Clone, PartialEq, Eq)]
pub enum UpdateVolumeAction {
    InsertAdmission,
    InsertReceipt { outcome: ReceiptOutcome },
    InsertSettlement,
    UpdateTitle { volume_id: String, title: String },
    RewriteRanks { ranks: Vec<(String, u64)> },
    BumpTreeRevision { tree_revision: u64, expected_tree_revision: u64 },
    AllocateCounters,
    InsertCommit { sequences: StructureTransitionSequences, binding: StructureCommitBinding },
    InsertForwardAuthorAction { author_action_sequence: u64, authoritative_commit_id: String },
    PersistSnapshot { snapshot_id: String, project_activity_position: u64 },
    InsertActivity { project_activity_position: u64, project_activity_event_id: String, payload: String },
    SettleIdempotency,
    Settle(UpdateVolumeSettlement),
    Fail(UpdateVolumeError),
}

/// A step state that can go on: its effect records an outcome, only an
/// applied update reaches the stages that write it, and from the Commit on
/// the transition is allocated.
pub open spec fn update_volume_step_wf(state: UpdateVolumeStep) -> bool {
    &&& effect_outcome(state.effect) is Some
    &&& state.stage != UpdateVolumeStage::Done
    &&& match state.stage {
        UpdateVolumeStage::Admission | UpdateVolumeStage::Receipt | UpdateVolumeStage::Settlement
        | UpdateVolumeStage::Idempotency => true,
        UpdateVolumeStage::Commit | UpdateVolumeStage::AuthorAction | UpdateVolumeStage::Snapshot
        | UpdateVolumeStage::Activity => state.effect is Applied && state.transition is Some,
        _ => state.effect is Applied,
    }
    &&& (state.effect is Applied && state.stage == UpdateVolumeStage::Idempotency) ==> state.transition is Some
}

/// The answer that the store gives at a stage: the time of the receipt, the
/// three counters, or else a row count.
pub open spec fn answers_update_volume(stage: UpdateVolumeStage, event: StoreEvent) -> bool {
    match stage {
        UpdateVolumeStage::Receipt => event matches StoreEvent::Returned(v) && v.len() == 1,
        UpdateVolumeStage::Counters => event matches StoreEvent::Returned(v) && v.len() == 3,
        _ => event is Rows,
    }
}

/// Starts the first use of a classified Update Volume command. An applied
/// update that moves the Volume rewrites the ranks of the live Volumes, as
/// `reordered_sibling_ranks` gives them for a move from `current_order` to
/// the new order.
pub fn begin_update_volume(
    ids: AuthorCommandAdmissionIds,
    effect: UpdateVolumeSettlementEffect,
    volume_id: &str,
    ordered_ids: &Vec<String>,
    current_title: &str,
    current_order: u64,
    expected_tree_revision: u64,
) -> (begun: (UpdateVolumeStep, UpdateVolumeAction))
    requires
        effect_outcome(effect) is Some,
        effect matches UpdateVolumeSettlementEffect::Applied { order, .. } ==> 1 <= current_order
            <= ordered_ids@.len() && 1 <= order <= ordered_ids@.len(),
    ensures
        update_volume_step_wf(begun.0),
        begun.0.stage == UpdateVolumeStage::Admission,
        begun.0.ids == ids,
        begun.0.effect == effect,
        begun.0.volume_id@ == volume_id@,
        begun.0.prior_title@ == current_title@,
        begun.0.prior_order == current_order,
        begun.0.expected_tree_revision == expected_tree_revision,
        begun.0.transition is None,
        match effect {
            UpdateVolumeSettlementEffect::Applied { order, .. } => {
                &&& (current_order == order <==> begun.0.ranks is None)
                &&& begun.0.ranks matches Some(r) ==> {
                    &&& r@.len() == ordered_ids@.len()
                    &&& forall|i: int|
                        0 <= i < r@.len() ==> #[trigger] r@[i] == (
                            crate::tree_order::moved_order(ordered_ids@, current_order - 1, order - 1)[i],
                            (i + 1) as u64,
                        )
                }
            },
            _ => begun.0.ranks is None,
        },
        begun.1 == UpdateVolumeAction::InsertAdmission,
{
    let ranks = match &effect {
        UpdateVolumeSettlementEffect::Applied { order, .. } => crate::tree_order::reordered_sibling_ranks(
            ordered_ids,
            current_order,
            *order,
        ),
        _ => None,
    };
    let state = UpdateVolumeStep {
        stage: UpdateVolumeStage::Admission,
        ids,
        effect,
        volume_id: String::from_str(volume_id),
        ranks,
        prior_title: String::from_str(current_title),
        prior_order: current_order,
        expected_tree_revision,
        receipt_created_at: String::new(),
        transition: None,
    };
    (state, UpdateVolumeAction::InsertAdmission)
}

/// A copy of a settlement effect.
fn copy_volume_effect(effect: &UpdateVolumeSettlementEffect) -> (copy: UpdateVolumeSettlementEffect)
    ensures
        copy == *effect,
{
    match effect {
        UpdateVolumeSettlementEffect::Applied { title, order, tree_revision } =>
            UpdateVolumeSettlementEffect::Applied { title: title.clone(), order: *order, tree_revision: *tree_revision },
        UpdateVolumeSettlementEffect::NoEffect { reason } => UpdateVolumeSettlementEffect::NoEffect { reason: *reason },
        UpdateVolumeSettlementEffect::Conflicted { reason } => UpdateVolumeSettlementEffect::Conflicted {
            reason: *reason,
        },
        UpdateVolumeSettlementEffect::Refused { reason } => UpdateVolumeSettlementEffect::Refused { reason: *reason },
    }
}

/// A copy of allocated sequences.
fn copy_volume_sequences(s: &StructureTransitionSequences) -> (copy: StructureTransitionSequences)
    ensures
        copy == *s,
{
    StructureTransitionSequences {
        author_action_sequence: s.author_action_sequence,
        authoritative_commit_sequence: s.authoritative_commit_sequence,
        project_activity_position: s.project_activity_position,
        authoritative_commit_id: s.authoritative_commit_id.clone(),
        project_activity_event_id: s.project_activity_event_id.clone(),
        snapshot_id: s.snapshot_id.clone(),
    }
}

/// Takes the store's answer to the last action of a first use and gives the
/// next state and action. The admission must insert one row; the receipt
/// returns its time. An applied update then retitles the Volume (one row),
/// rewrites the Volumes' ranks when it moves, advances the tree revision
/// from the expected one (one row), allocates its structural transition,
/// and writes the Commit (from the expected tree revision to the new one,
/// about the Volume), the Forward Author Action, the canonical tree
/// snapshot and the activity payload with the prior title and order. Every
/// effect then settles the idempotency row and returns its settlement.
pub fn update_volume_step(state: UpdateVolumeStep, event: StoreEvent) -> (next: (
    UpdateVolumeStep,
    UpdateVolumeAction,
))
    requires
        update_volume_step_wf(state),
        answers_update_volume(state.stage, event),
    ensures
        next.0.ids == state.ids,
        next.0.effect == state.effect,
        next.0.volume_id == state.volume_id,
        next.0.prior_title == state.prior_title,
        next.0.prior_order == state.prior_order,
        next.0.expected_tree_revision == state.expected_tree_revision,
        state.stage != UpdateVolumeStage::Receipt ==> next.0.receipt_created_at == state.receipt_created_at,
        state.stage != UpdateVolumeStage::Counters ==> next.0.transition == state.transition,
        next.0.stage == UpdateVolumeStage::Done <==> (next.1 is Settle || next.1 is Fail),
        next.0.stage != UpdateVolumeStage::Done ==> update_volume_step_wf(next.0),
        match (state.stage, event) {
            (UpdateVolumeStage::Admission, StoreEvent::Rows(n)) => if n == 1 {
                &&& next.0.stage == UpdateVolumeStage::Receipt
                &&& next.1 matches UpdateVolumeAction::InsertReceipt { outcome }
                &&& effect_outcome(state.effect) == Some(outcome_view(outcome))
            } else {
                next.1 == UpdateVolumeAction::Fail(UpdateVolumeError::InvalidChallenge)
            },
            (UpdateVolumeStage::Receipt, StoreEvent::Returned(v)) => {
                &&& next.0.stage == UpdateVolumeStage::Settlement
                &&& next.0.receipt_created_at@ == v@[0]@
                &&& next.1 == UpdateVolumeAction::InsertSettlement
            },
            (UpdateVolumeStage::Settlement, StoreEvent::Rows(_)) => match state.effect {
                UpdateVolumeSettlementEffect::Applied { title, .. } => next.0.stage == UpdateVolumeStage::Title
                    && next.1 == UpdateVolumeAction::UpdateTitle { volume_id: state.volume_id, title },
                _ => next.0.stage == UpdateVolumeStage::Idempotency && next.1
                    == UpdateVolumeAction::SettleIdempotency,
            },
            (UpdateVolumeStage::Title, StoreEvent::Rows(n)) => if n == 1 {
                match state.ranks {
                    Some(ranks) => next.0.stage == UpdateVolumeStage::Ranks && next.1
                        == UpdateVolumeAction::RewriteRanks { ranks },
                    None => {
                        &&& next.0.stage == UpdateVolumeStage::TreeRevision
                        &&& state.effect matches UpdateVolumeSettlementEffect::Applied { tree_revision, .. }
                        &&& next.1 == UpdateVolumeAction::BumpTreeRevision {
                            tree_revision,
                            expected_tree_revision: state.expected_tree_revision,
                        }
                    },
                }
            } else {
                next.1 matches UpdateVolumeAction::Fail(UpdateVolumeError::Unavailable(UnavailableCause::Message(m)))
                    && m@ == "Volume row changed under FOR UPDATE"@
            },
            (UpdateVolumeStage::Ranks, StoreEvent::Rows(_)) => {
                &&& next.0.stage == UpdateVolumeStage::TreeRevision
                &&& state.effect matches UpdateVolumeSettlementEffect::Applied { tree_revision, .. }
                &&& next.1 == UpdateVolumeAction::BumpTreeRevision {
                    tree_revision,
                    expected_tree_revision: state.expected_tree_revision,
                }
            },
            (UpdateVolumeStage::TreeRevision, StoreEvent::Rows(n)) => if n == 1 {
                next.0.stage == UpdateVolumeStage::Counters && next.1 == UpdateVolumeAction::AllocateCounters
            } else {
                next.1 matches UpdateVolumeAction::Fail(UpdateVolumeError::Unavailable(UnavailableCause::Message(m)))
                    && m@ == "tree revision changed under FOR UPDATE"@
            },
            (UpdateVolumeStage::Counters, StoreEvent::Returned(v)) => match (
                u64_text_value(v@[0]@),
                u64_text_value(v@[1]@),
                u64_text_value(v@[2]@),
            ) {
                (Some(action), Some(commit), Some(position)) => {
                    &&& next.0.stage == UpdateVolumeStage::Commit
                    &&& next.0.transition matches Some(t)
                    &&& t.author_action_sequence == action
                    &&& t.authoritative_commit_sequence == commit
                    &&& t.project_activity_position == position
                    &&& state.effect matches UpdateVolumeSettlementEffect::Applied { tree_revision, .. }
                    &&& next.1 == UpdateVolumeAction::InsertCommit {
                        sequences: t,
                        binding: StructureCommitBinding {
                            prior_manuscript_tree_revision: state.expected_tree_revision,
                            resulting_manuscript_tree_revision: tree_revision,
                            identity: StructureAffectedIdentity::Volume { volume_id: state.volume_id },
                        },
                    }
                },
                _ => next.1 matches UpdateVolumeAction::Fail(e) && e is Unavailable,
            },
            (UpdateVolumeStage::Commit, StoreEvent::Rows(_)) => next.0.stage == UpdateVolumeStage::AuthorAction
                && next.1 == UpdateVolumeAction::InsertForwardAuthorAction {
                author_action_sequence: state.transition->0.author_action_sequence,
                authoritative_commit_id: state.transition->0.authoritative_commit_id,
            },
            (UpdateVolumeStage::AuthorAction, StoreEvent::Rows(_)) => next.0.stage == UpdateVolumeStage::Snapshot
                && next.1 == UpdateVolumeAction::PersistSnapshot {
                snapshot_id: state.transition->0.snapshot_id,
                project_activity_position: state.transition->0.project_activity_position,
            },
            (UpdateVolumeStage::Snapshot, StoreEvent::Rows(_)) => {
                &&& next.0.stage == UpdateVolumeStage::Activity
                &&& state.effect matches UpdateVolumeSettlementEffect::Applied { title, order, tree_revision }
                &&& next.1 matches UpdateVolumeAction::InsertActivity {
                    project_activity_position,
                    project_activity_event_id,
                    payload,
                }
                &&& project_activity_position == state.transition->0.project_activity_position
                &&& project_activity_event_id == state.transition->0.project_activity_event_id
                &&& json_text_parses(payload@)
                &&& json_text_field(payload@, "kind"@) == Some("volume_updated"@)
                &&& json_text_field(payload@, "volume_id"@) == Some(state.volume_id@)
                &&& json_text_field(payload@, "title"@) == Some(title@)
                &&& json_text_field(payload@, "tree_revision"@) == Some(decimal_text(tree_revision as nat))
                &&& json_text_field(payload@, "order"@) == Some(decimal_text(order as nat))
                &&& json_text_field(payload@, "prior_title"@) == Some(state.prior_title@)
                &&& json_text_field(payload@, "prior_order"@) == Some(decimal_text(state.prior_order as nat))
            },
            (UpdateVolumeStage::Activity, StoreEvent::Rows(_)) => next.0.stage == UpdateVolumeStage::Idempotency
                && next.1 == UpdateVolumeAction::SettleIdempotency,
            (UpdateVolumeStage::Idempotency, StoreEvent::Rows(_)) => next.1 matches UpdateVolumeAction::Settle(
                settlement,
            ) && settlement.ids == state.ids && settlement.effect == state.effect && settlement.receipt_created_at
                == state.receipt_created_at && match state.effect {
                UpdateVolumeSettlementEffect::Applied { tree_revision, .. } => {
                    let t = state.transition->0;
                    &&& settlement.project_activity_position == t.project_activity_position
                    &&& settlement.project_activity_event_id == t.project_activity_event_id
                    &&& settlement.authority == Some(
                        UpdateVolumeAuthority {
                            authoritative_commit_id: t.authoritative_commit_id,
                            author_action_sequence: t.author_action_sequence,
                            snapshot_id: t.snapshot_id,
                            prior_manuscript_tree_revision: state.expected_tree_revision,
                            resulting_manuscript_tree_revision: tree_revision,
                        },
                    )
                },
                _ => settlement.project_activity_position == 0 && settlement.project_activity_event_id@.len() == 0
                    && settlement.authority is None,
            },
            _ => false,
        },
{
    let UpdateVolumeStep {
        stage,
        ids,
        effect,
        volume_id,
        ranks,
        prior_title,
        prior_order,
        expected_tree_revision,
        receipt_created_at,
        transition,
    } = state;
    let mut next_stage = UpdateVolumeStage::Done;
    let mut created_at = receipt_created_at;
    let mut allocated = transition;
    let mut kept_ranks = ranks;
    let action = match (stage, event) {
        (UpdateVolumeStage::Admission, StoreEvent::Rows(n)) => match check_update_volume_write(
            UpdateVolumeWrite::AdmissionInserted,
            n,
        ) {
            Err(e) => UpdateVolumeAction::Fail(e),
            Ok(()) => match update_volume_outcome(&effect) {
                Ok(outcome) => {
                    next_stage = UpdateVolumeStage::Receipt;
                    UpdateVolumeAction::InsertReceipt { outcome }
                },
                Err(e) => UpdateVolumeAction::Fail(e),
            },
        },
        (UpdateVolumeStage::Receipt, StoreEvent::Returned(v)) => {
            created_at = v[0].clone();
            next_stage = UpdateVolumeStage::Settlement;
            UpdateVolumeAction::InsertSettlement
        },
        (UpdateVolumeStage::Settlement, StoreEvent::Rows(_)) => match &effect {
            UpdateVolumeSettlementEffect::Applied { title, .. } => {
                next_stage = UpdateVolumeStage::Title;
                UpdateVolumeAction::UpdateTitle { volume_id: volume_id.clone(), title: title.clone() }
            },
            _ => {
                next_stage = UpdateVolumeStage::Idempotency;
                UpdateVolumeAction::SettleIdempotency
            },
        },
        (UpdateVolumeStage::Title, StoreEvent::Rows(n)) => match check_update_volume_write(
            UpdateVolumeWrite::VolumeUpdated,
            n,
        ) {
            Err(e) => UpdateVolumeAction::Fail(e),
            Ok(()) => match kept_ranks {
                Some(r) => {
                    next_stage = UpdateVolumeStage::Ranks;
                    kept_ranks = Some(r.clone());
                    UpdateVolumeAction::RewriteRanks { ranks: r }
                },
                None => match &effect {
                    UpdateVolumeSettlementEffect::Applied { tree_revision, .. } => {
                        next_stage = UpdateVolumeStage::TreeRevision;
                        UpdateVolumeAction::BumpTreeRevision {
                            tree_revision: *tree_revision,
                            expected_tree_revision,
                        }
                    },
                    _ => UpdateVolumeAction::Fail(UpdateVolumeError::BindingConflict),
                },
            },
        },
        (UpdateVolumeStage::Ranks, StoreEvent::Rows(_)) => match &effect {
            UpdateVolumeSettlementEffect::Applied { tree_revision, .. } => {
                next_stage = UpdateVolumeStage::TreeRevision;
                UpdateVolumeAction::BumpTreeRevision { tree_revision: *tree_revision, expected_tree_revision }
            },
            _ => UpdateVolumeAction::Fail(UpdateVolumeError::BindingConflict),
        },
        (UpdateVolumeStage::TreeRevision, StoreEvent::Rows(n)) => match check_update_volume_write(
            UpdateVolumeWrite::TreeRevisionBumped,
            n,
        ) {
            Err(e) => UpdateVolumeAction::Fail(e),
            Ok(()) => {
                next_stage = UpdateVolumeStage::Counters;
                UpdateVolumeAction::AllocateCounters
            },
        },
        (UpdateVolumeStage::Counters, StoreEvent::Returned(v)) => match crate::structural_authority::structure_transition_sequences(
            v[0].as_str(),
            v[1].as_str(),
            v[2].as_str(),
        ) {
            Some(t) => match &effect {
                UpdateVolumeSettlementEffect::Applied { tree_revision, .. } => {
                    next_stage = UpdateVolumeStage::Commit;
                    let binding = StructureCommitBinding {
                        prior_manuscript_tree_revision: expected_tree_revision,
                        resulting_manuscript_tree_revision: *tree_revision,
                        identity: StructureAffectedIdentity::Volume { volume_id: volume_id.clone() },
                    };
                    let sequences = copy_volume_sequences(&t);
                    allocated = Some(t);
                    UpdateVolumeAction::InsertCommit { sequences, binding }
                },
                _ => UpdateVolumeAction::Fail(UpdateVolumeError::BindingConflict),
            },
            None => UpdateVolumeAction::Fail(
                UpdateVolumeError::Unavailable(
                    UnavailableCause::Message(String::from_str("stored counter is not a decimal u64")),
                ),
            ),
        },
        (UpdateVolumeStage::Commit, StoreEvent::Rows(_)) => match &allocated {
            Some(t) => {
                next_stage = UpdateVolumeStage::AuthorAction;
                UpdateVolumeAction::InsertForwardAuthorAction {
                    author_action_sequence: t.author_action_sequence,
                    authoritative_commit_id: t.authoritative_commit_id.clone(),
                }
            },
            None => UpdateVolumeAction::Fail(UpdateVolumeError::BindingConflict),
        },
        (UpdateVolumeStage::AuthorAction, StoreEvent::Rows(_)) => match &allocated {
            Some(t) => {
                next_stage = UpdateVolumeStage::Snapshot;
                UpdateVolumeAction::PersistSnapshot {
                    snapshot_id: t.snapshot_id.clone(),
                    project_activity_position: t.project_activity_position,
                }
            },
            None => UpdateVolumeAction::Fail(UpdateVolumeError::BindingConflict),
        },
        (UpdateVolumeStage::Snapshot, StoreEvent::Rows(_)) => match (&effect, &allocated) {
            (UpdateVolumeSettlementEffect::Applied { title, order, tree_revision }, Some(t)) => {
                next_stage = UpdateVolumeStage::Activity;
                UpdateVolumeAction::InsertActivity {
                    project_activity_position: t.project_activity_position,
                    project_activity_event_id: t.project_activity_event_id.clone(),
                    payload: volume_updated_payload(
                        volume_id.as_str(),
                        title.as_str(),
                        *tree_revision,
                        *order,
                        prior_title.as_str(),
                        prior_order,
                    ),
                }
            },
            _ => UpdateVolumeAction::Fail(UpdateVolumeError::BindingConflict),
        },
        (UpdateVolumeStage::Activity, StoreEvent::Rows(_)) => {
            next_stage = UpdateVolumeStage::Idempotency;
            UpdateVolumeAction::SettleIdempotency
        },
        (UpdateVolumeStage::Idempotency, StoreEvent::Rows(_)) => {
            let transition_copy = match &allocated {
                Some(t) => Some(copy_volume_sequences(t)),
                None => None,
            };
            UpdateVolumeAction::Settle(
                first_use_update_volume_settlement(
                    ids.copied(),
                    copy_volume_effect(&effect),
                    created_at.clone(),
                    transition_copy,
                    expected_tree_revision,
                ),
            )
        },
        _ => UpdateVolumeAction::Fail(UpdateVolumeError::BindingConflict),
    };
    let next = UpdateVolumeStep {
        stage: next_stage,
        ids,
        effect,
        volume_id,
        ranks: kept_ranks,
        prior_title,
        prior_order,
        expected_tree_revision,
        receipt_created_at: created_at,
        transition: allocated,
    };
    (next, action)
}

} // verus!
