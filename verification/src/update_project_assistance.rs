//! Update Project Assistance: the stored availability and its revision, the
//! settlement that the classification gives, the receipt and activity it
//! writes, and the replay that reads them.

use crate::command::{
    outcome_view, reason_is, receipt_outcome, same_text, str_view, text_view, ProjectCommandChallengeError,
    ReadBack, ReceiptOutcome, StoreEvent, UnavailableCause,
};
use crate::ids::new_object_id;
use crate::json::{json_text_field, json_text_parses, payload_text, PayloadValue};
use crate::text::{decimal_text, format_u64, parse_u64, u64_text_value};
use vstd::prelude::*;

verus! {

/// The model registration revision of the host fake model, the one model
/// that an initialized binding uses.
pub const HOST_FAKE_MODEL_REGISTRATION_REVISION: &'static str = "018f0000-0000-7001-8000-00000000fa01";

/// Whether assistance is available in a Project.
#[derive(Debug, Clone, Copy, PartialEq, Eq)]
pub enum AssistanceAvailability {
    Available,
    Unavailable,
}

/// The stored text of an availability.
pub open spec fn availability_name(availability: AssistanceAvailability) -> Seq<char> {
    match availability {
        AssistanceAvailability::Available => "available"@,
        AssistanceAvailability::Unavailable => "unavailable"@,
    }
}

/// The availability that a stored text names, if any.
pub open spec fn availability_of_text(text: Seq<char>) -> Option<AssistanceAvailability> {
    if text == "available"@ {
        Some(AssistanceAvailability::Available)
    } else if text == "unavailable"@ {
        Some(AssistanceAvailability::Unavailable)
    } else {
        None
    }
}

/// The stored text of an availability.
pub fn availability_text(availability: AssistanceAvailability) -> (text: &'static str)
    ensures
        text@ == availability_name(availability),
{
    match availability {
        AssistanceAvailability::Available => "available",
        AssistanceAvailability::Unavailable => "unavailable",
    }
}

/// Reads a stored availability; any other text is damaged (`None`).
pub fn parse_availability(value: &str) -> (availability: Option<AssistanceAvailability>)
    ensures
        availability == availability_of_text(value@),
{
    if same_text(value, "available") {
        Some(AssistanceAvailability::Available)
    } else if same_text(value, "unavailable") {
        Some(AssistanceAvailability::Unavailable)
    } else {
        None
    }
}

/// Law: an availability reads back from its stored text, and two
/// availabilities never share a text.
pub proof fn lemma_availability_round_trip(availability: AssistanceAvailability)
    ensures
        availability_of_text(availability_name(availability)) == Some(availability),
{
    reveal_strlit("available");
    reveal_strlit("unavailable");
    assert("available"@.len() == 9);
    assert("unavailable"@.len() == 11);
}

/// The current assistance binding of a Project.
#[derive(Debug, Clone, PartialEq, Eq)]
pub struct ProjectAssistanceRecord {
    pub availability: AssistanceAvailability,
    pub revision: u64,
    pub model_registration_revision: String,
    pub processing_destination_identity: String,
    pub processing_destination_identity_evidence_revision: u64,
    pub project_model_use_binding_revision: String,
    pub external_compatibility_decision: String,
}

/// Builds the assistance record of the stored columns: the availability and
/// the two revisions must read back, else the record is damaged (`None`).
pub fn assistance_record(
    availability: &str,
    revision: &str,
    model_registration_revision: String,
    processing_destination_identity: String,
    evidence_revision: &str,
    project_model_use_binding_revision: String,
    external_compatibility_decision: String,
) -> (record: Option<ProjectAssistanceRecord>)
    ensures
        match (
            availability_of_text(availability@),
            u64_text_value(revision@),
            u64_text_value(evidence_revision@),
        ) {
            (Some(a), Some(r), Some(e)) => record matches Some(rec) && rec.availability == a
                && rec.revision == r && rec.processing_destination_identity_evidence_revision == e
                && rec.model_registration_revision == model_registration_revision
                && rec.processing_destination_identity == processing_destination_identity
                && rec.project_model_use_binding_revision == project_model_use_binding_revision
                && rec.external_compatibility_decision == external_compatibility_decision,
            _ => record is None,
        },
{
    let availability = match parse_availability(availability) {
        Some(a) => a,
        None => {
            return None;
        },
    };
    let revision = match parse_u64(revision) {
        Some(r) => r,
        None => {
            return None;
        },
    };
    let evidence = match parse_u64(evidence_revision) {
        Some(e) => e,
        None => {
            return None;
        },
    };
    Some(
        ProjectAssistanceRecord {
            availability,
            revision,
            model_registration_revision,
            processing_destination_identity,
            processing_destination_identity_evidence_revision: evidence,
            project_model_use_binding_revision,
            external_compatibility_decision,
        },
    )
}

/// Whether a Project has an assistance binding, and if so its availability
/// and revision.
#[derive(Debug, Clone, Copy, PartialEq, Eq)]
pub enum AssistanceBindingPresence {
    Uninitialized,
    Initialized { availability: AssistanceAvailability, revision: u64 },
}

/// The binding presence that the classification reads from the current record.
pub fn binding_presence(current: &Option<ProjectAssistanceRecord>) -> (presence:
    AssistanceBindingPresence)
    ensures
        presence == (match current {
            None => AssistanceBindingPresence::Uninitialized,
            Some(record) => AssistanceBindingPresence::Initialized {
                availability: record.availability,
                revision: record.revision,
            },
        }),
{
    match current {
        None => AssistanceBindingPresence::Uninitialized,
        Some(record) => AssistanceBindingPresence::Initialized {
            availability: record.availability,
            revision: record.revision,
        },
    }
}

/// What the Update Project Assistance classification is given.
#[derive(Debug, Clone, Copy, PartialEq, Eq)]
pub struct UpdateProjectAssistanceInput {
    pub binding: AssistanceBindingPresence,
    pub expected_revision: u64,
    pub requested: AssistanceAvailability,
}

/// The classification input of an Update Project Assistance command: the
/// Project's current binding, the revision the command expected and the
/// availability it requests.
pub fn assistance_classification_input(
    current: &Option<ProjectAssistanceRecord>,
    expected_revision: u64,
    requested: AssistanceAvailability,
) -> (input: UpdateProjectAssistanceInput)
    ensures
        input.binding == (match current {
            None => AssistanceBindingPresence::Uninitialized,
            Some(record) => AssistanceBindingPresence::Initialized {
                availability: record.availability,
                revision: record.revision,
            },
        }),
        input.expected_revision == expected_revision,
        input.requested == requested,
{
    UpdateProjectAssistanceInput { binding: binding_presence(current), expected_revision, requested }
}

#[derive(Debug, Clone, Copy, PartialEq, Eq)]
pub enum UpdateProjectAssistanceNoEffect {
    AvailabilityUnchanged,
}

#[derive(Debug, Clone, Copy, PartialEq, Eq)]
pub enum UpdateProjectAssistanceConflict {
    StaleAssistanceRevision,
}

#[derive(Debug, Clone, Copy, PartialEq, Eq)]
pub enum UpdateProjectAssistanceRefusal {
    MissingProject,
}

/// The classification of an Update Project Assistance command.
#[derive(Debug, Clone, Copy, PartialEq, Eq)]
pub enum UpdateProjectAssistanceResult {
    Initialized { availability: AssistanceAvailability, revision: u64 },
    Applied { availability: AssistanceAvailability, revision: u64 },
    NoEffect { reason: UpdateProjectAssistanceNoEffect },
    Conflicted { reason: UpdateProjectAssistanceConflict },
    Refused { reason: UpdateProjectAssistanceRefusal },
}

/// What a settled Update Project Assistance command did.
#[derive(Debug, Clone, Copy, PartialEq, Eq)]
pub enum UpdateProjectAssistanceSettlementEffect {
    Initialized { availability: AssistanceAvailability, revision: u64 },
    Applied { availability: AssistanceAvailability, revision: u64 },
    NoEffect { reason: UpdateProjectAssistanceNoEffect },
    Conflicted { reason: UpdateProjectAssistanceConflict },
    Refused { reason: UpdateProjectAssistanceRefusal },
}

#[derive(Debug, Clone, PartialEq, Eq)]
pub enum UpdateProjectAssistanceError {
    MissingProject,
    BindingConflict,
    InvalidChallenge,
    HistoricalAcknowledgementUnavailable,
    Unavailable(UnavailableCause),
}

/// How a challenge failure answers an Update Project Assistance command.
pub fn assistance_challenge_error(error: ProjectCommandChallengeError) -> (mapped:
    UpdateProjectAssistanceError)
    ensures
        mapped == (match error {
            ProjectCommandChallengeError::BindingConflict => UpdateProjectAssistanceError::BindingConflict,
            ProjectCommandChallengeError::InvalidOrExpired => UpdateProjectAssistanceError::InvalidChallenge,
            other => UpdateProjectAssistanceError::Unavailable(UnavailableCause::Challenge(other)),
        }),
{
    match error {
        ProjectCommandChallengeError::BindingConflict => UpdateProjectAssistanceError::BindingConflict,
        ProjectCommandChallengeError::InvalidOrExpired => UpdateProjectAssistanceError::InvalidChallenge,
        other => UpdateProjectAssistanceError::Unavailable(UnavailableCause::Challenge(other)),
    }
}

/// The Project row decides whether the command may go on: a missing Project
/// is refused as missing, a Project that is not active is a binding
/// conflict.
pub fn admit_assistance_project(lifecycle: Option<&str>) -> (admitted: Result<
    (),
    UpdateProjectAssistanceError,
>)
    ensures
        match lifecycle {
            None => admitted matches Err(e) && e == UpdateProjectAssistanceError::MissingProject,
            Some(state) => if state@ == "active"@ {
                admitted is Ok
            } else {
                admitted matches Err(e) && e == UpdateProjectAssistanceError::BindingConflict
            },
        },
{
    match lifecycle {
        None => Err(UpdateProjectAssistanceError::MissingProject),
        Some(state) => if same_text(state, "active") {
            Ok(())
        } else {
            Err(UpdateProjectAssistanceError::BindingConflict)
        },
    }
}

/// The admission insert must have written exactly one row; none means the
/// challenge was not there to admit the command.
pub fn require_single_admission(inserted: u64) -> (admitted: Result<(), UpdateProjectAssistanceError>)
    ensures
        inserted == 1 ==> admitted is Ok,
        inserted != 1 ==> (admitted matches Err(e) && e == UpdateProjectAssistanceError::InvalidChallenge),
{
    if inserted == 1 {
        Ok(())
    } else {
        Err(UpdateProjectAssistanceError::InvalidChallenge)
    }
}

/// The settlement effect of a classification; a missing Project is no
/// settlement at all.
pub fn settlement_effect(classified: UpdateProjectAssistanceResult) -> (effect: Result<
    UpdateProjectAssistanceSettlementEffect,
    UpdateProjectAssistanceError,
>)
    ensures
        match classified {
            UpdateProjectAssistanceResult::Initialized { availability, revision } => effect matches Ok(e)
                && e == UpdateProjectAssistanceSettlementEffect::Initialized { availability, revision },
            UpdateProjectAssistanceResult::Applied { availability, revision } => effect matches Ok(e)
                && e == UpdateProjectAssistanceSettlementEffect::Applied { availability, revision },
            UpdateProjectAssistanceResult::NoEffect { reason } => effect matches Ok(e)
                && e == UpdateProjectAssistanceSettlementEffect::NoEffect { reason },
            UpdateProjectAssistanceResult::Conflicted { reason } => effect matches Ok(e)
                && e == UpdateProjectAssistanceSettlementEffect::Conflicted { reason },
            UpdateProjectAssistanceResult::Refused { .. } => effect matches Err(e) && e
                == UpdateProjectAssistanceError::MissingProject,
        },
{
    match classified {
        UpdateProjectAssistanceResult::Initialized { availability, revision } => Ok(
            UpdateProjectAssistanceSettlementEffect::Initialized { availability, revision },
        ),
        UpdateProjectAssistanceResult::Applied { availability, revision } => Ok(
            UpdateProjectAssistanceSettlementEffect::Applied { availability, revision },
        ),
        UpdateProjectAssistanceResult::NoEffect { reason } => Ok(
            UpdateProjectAssistanceSettlementEffect::NoEffect { reason },
        ),
        UpdateProjectAssistanceResult::Conflicted { reason } => Ok(
            UpdateProjectAssistanceSettlementEffect::Conflicted { reason },
        ),
        UpdateProjectAssistanceResult::Refused { .. } => Err(UpdateProjectAssistanceError::MissingProject),
    }
}

/// The result kind and reason that the receipt of an effect records; a
/// refused effect records none.
pub open spec fn effect_outcome(effect: UpdateProjectAssistanceSettlementEffect) -> Option<
    (Seq<char>, Option<Seq<char>>),
> {
    match effect {
        UpdateProjectAssistanceSettlementEffect::Initialized { .. } => Some(
            ("authoritative_applied"@, None),
        ),
        UpdateProjectAssistanceSettlementEffect::Applied { .. } => Some(("authoritative_applied"@, None)),
        UpdateProjectAssistanceSettlementEffect::NoEffect { .. } => Some(
            ("no_effect"@, Some("availability_unchanged"@)),
        ),
        UpdateProjectAssistanceSettlementEffect::Conflicted { .. } => Some(
            ("conflicted"@, Some("stale_assistance_revision"@)),
        ),
        UpdateProjectAssistanceSettlementEffect::Refused { .. } => None,
    }
}

/// The receipt outcome of a settlement effect; a refused effect is answered
/// with a binding conflict and records nothing.
pub fn update_project_assistance_outcome(effect: &UpdateProjectAssistanceSettlementEffect) -> (outcome:
    Result<ReceiptOutcome, UpdateProjectAssistanceError>)
    ensures
        match outcome {
            Ok(o) => effect_outcome(*effect) == Some(outcome_view(o)),
            Err(e) => effect_outcome(*effect) is None && e == UpdateProjectAssistanceError::BindingConflict,
        },
{
    match effect {
        UpdateProjectAssistanceSettlementEffect::Initialized { .. } => Ok(
            receipt_outcome("authoritative_applied", None),
        ),
        UpdateProjectAssistanceSettlementEffect::Applied { .. } => Ok(
            receipt_outcome("authoritative_applied", None),
        ),
        UpdateProjectAssistanceSettlementEffect::NoEffect { .. } => Ok(
            receipt_outcome("no_effect", Some("availability_unchanged")),
        ),
        UpdateProjectAssistanceSettlementEffect::Conflicted { .. } => Ok(
            receipt_outcome("conflicted", Some("stale_assistance_revision")),
        ),
        UpdateProjectAssistanceSettlementEffect::Refused { .. } => Err(
            UpdateProjectAssistanceError::BindingConflict,
        ),
    }
}

/// The Project Activity payload of an applied or initialized update; the
/// revision is written as decimal text.
pub fn assistance_updated_payload(availability: AssistanceAvailability, revision: u64) -> (payload:
    String)
    ensures
        json_text_parses(payload@),
        json_text_field(payload@, "kind"@) == Some("project_assistance_updated"@),
        json_text_field(payload@, "availability"@) == Some(availability_name(availability)),
        json_text_field(payload@, "revision"@) == Some(decimal_text(revision as nat)),
{
    let mut fields: Vec<(String, PayloadValue)> = Vec::new();
    fields.push(
        (String::from_str("kind"), PayloadValue::Text(String::from_str("project_assistance_updated"))),
    );
    fields.push(
        (
            String::from_str("availability"),
            PayloadValue::Text(String::from_str(availability_text(availability))),
        ),
    );
    fields.push((String::from_str("revision"), PayloadValue::Text(format_u64(revision))));
    let payload = payload_text(&fields);
    proof {
        reveal_strlit("kind");
        assert("kind"@.len() == 4);
        reveal_strlit("availability");
        assert("availability"@.len() == 12);
        reveal_strlit("revision");
        assert("revision"@.len() == 8);
        let f = fields@;
        assert(crate::json::sole_member(f, 0));
        assert(crate::json::sole_member(f, 1));
        assert(crate::json::sole_member(f, 2));
        assert(json_text_field(payload@, f[0].0@) == crate::json::payload_member(f[0]).1);
        assert(json_text_field(payload@, f[1].0@) == crate::json::payload_member(f[1]).1);
        assert(json_text_field(payload@, f[2].0@) == crate::json::payload_member(f[2]).1);
    }
    payload
}

/// The fresh identities of the host fake binding that initializes assistance.
#[derive(Debug, Clone, PartialEq, Eq)]
pub struct HostFakeBindingIds {
    pub processing_destination_identity: String,
    pub grant_id: String,
    pub project_model_use_binding_revision: String,
    pub external_compatibility_decision: String,
}

/// Draws the fresh identities of a host fake binding.
pub fn host_fake_binding_ids() -> (ids: HostFakeBindingIds)
    ensures
        ids.processing_destination_identity@.len() == 36,
        ids.grant_id@.len() == 36,
        ids.project_model_use_binding_revision@.len() == 36,
        ids.external_compatibility_decision@.len() == 36,
{
    HostFakeBindingIds {
        processing_destination_identity: new_object_id(),
        grant_id: new_object_id(),
        project_model_use_binding_revision: new_object_id(),
        external_compatibility_decision: new_object_id(),
    }
}

/// The effect that a stored receipt stands for, from its result kind, its
/// reason, the availability and revision of its activity payload, and the
/// revision that the replayed command expected: an applied receipt reads
/// back as the initialization exactly when the command expected no binding
/// (revision `0`) and the receipt wrote revision `1`.
pub open spec fn effect_of_receipt(
    result_kind: Seq<char>,
    reason: Option<Seq<char>>,
    availability: Option<Seq<char>>,
    revision: Option<Seq<char>>,
    expected_revision: u64,
) -> ReadBack<UpdateProjectAssistanceSettlementEffect> {
    if result_kind == "authoritative_applied"@ && reason is None {
        match availability {
            None => ReadBack::BindingConflict,
            Some(text) => match availability_of_text(text) {
                None => ReadBack::Damaged,
                Some(a) => match revision {
                    None => ReadBack::BindingConflict,
                    Some(revision_text) => match u64_text_value(revision_text) {
                        None => ReadBack::Damaged,
                        Some(r) => if expected_revision == 0 && r == 1 {
                            ReadBack::Effect(
                                UpdateProjectAssistanceSettlementEffect::Initialized {
                                    availability: a,
                                    revision: r,
                                },
                            )
                        } else {
                            ReadBack::Effect(
                                UpdateProjectAssistanceSettlementEffect::Applied {
                                    availability: a,
                                    revision: r,
                                },
                            )
                        },
                    },
                },
            },
        }
    } else if result_kind == "no_effect"@ && reason == Some("availability_unchanged"@) {
        ReadBack::Effect(
            UpdateProjectAssistanceSettlementEffect::NoEffect {
                reason: UpdateProjectAssistanceNoEffect::AvailabilityUnchanged,
            },
        )
    } else if result_kind == "conflicted"@ && reason == Some("stale_assistance_revision"@) {
        ReadBack::Effect(
            UpdateProjectAssistanceSettlementEffect::Conflicted {
                reason: UpdateProjectAssistanceConflict::StaleAssistanceRevision,
            },
        )
    } else {
        ReadBack::BindingConflict
    }
}

/// A damaged stored value.
fn damaged_value() -> (error: UpdateProjectAssistanceError)
    ensures
        error is Unavailable,
{
    UpdateProjectAssistanceError::Unavailable(
        UnavailableCause::Message(String::from_str("stored assistance value is damaged")),
    )
}

/// Reads back the effect of a settled receipt: a receipt that stands for no
/// effect is a binding conflict, a damaged availability or revision makes
/// the replay unavailable.
pub fn read_update_project_assistance_effect(
    result_kind: &str,
    reason: Option<&str>,
    availability: Option<String>,
    revision: Option<String>,
    expected_revision: u64,
) -> (effect: Result<UpdateProjectAssistanceSettlementEffect, UpdateProjectAssistanceError>)
    ensures
        match effect_of_receipt(
            result_kind@,
            str_view(reason),
            text_view(availability),
            text_view(revision),
            expected_revision,
        ) {
            ReadBack::Effect(v) => effect matches Ok(e) && e == v,
            ReadBack::BindingConflict => effect matches Err(e) && e
                == UpdateProjectAssistanceError::BindingConflict,
            ReadBack::Damaged => effect matches Err(e) && e is Unavailable,
        },
{
    if same_text(result_kind, "authoritative_applied") && reason.is_none() {
        let availability = match availability {
            Some(text) => match parse_availability(text.as_str()) {
                Some(a) => a,
                None => {
                    return Err(damaged_value());
                },
            },
            None => {
                return Err(UpdateProjectAssistanceError::BindingConflict);
            },
        };
        let revision = match revision {
            Some(text) => match parse_u64(text.as_str()) {
                Some(r) => r,
                None => {
                    return Err(damaged_value());
                },
            },
            None => {
                return Err(UpdateProjectAssistanceError::BindingConflict);
            },
        };
        if expected_revision == 0 && revision == 1 {
            Ok(UpdateProjectAssistanceSettlementEffect::Initialized { availability, revision })
        } else {
            Ok(UpdateProjectAssistanceSettlementEffect::Applied { availability, revision })
        }
    } else if same_text(result_kind, "no_effect") && reason_is(reason, "availability_unchanged") {
        Ok(
            UpdateProjectAssistanceSettlementEffect::NoEffect {
                reason: UpdateProjectAssistanceNoEffect::AvailabilityUnchanged,
            },
        )
    } else if same_text(result_kind, "conflicted") && reason_is(reason, "stale_assistance_revision") {
        Ok(
            UpdateProjectAssistanceSettlementEffect::Conflicted {
                reason: UpdateProjectAssistanceConflict::StaleAssistanceRevision,
            },
        )
    } else {
        Err(UpdateProjectAssistanceError::BindingConflict)
    }
}

/// The effect and the expected revision agree as the classification makes
/// them: an initialization answers a command that expected no binding and
/// writes revision `1`; an applied update is any other.
pub open spec fn initialization_agrees(
    effect: UpdateProjectAssistanceSettlementEffect,
    expected_revision: u64,
) -> bool {
    match effect {
        UpdateProjectAssistanceSettlementEffect::Initialized { revision, .. } => expected_revision == 0
            && revision == 1,
        UpdateProjectAssistanceSettlementEffect::Applied { revision, .. } => !(expected_revision == 0
            && revision == 1),
        _ => true,
    }
}

/// Law: a replay of the same command reads back exactly the effect that its
/// first use settled. The receipt records the effect's outcome, and an
/// applied or initialized update's activity payload records its
/// availability and revision; reading those back, with the revision the
/// command expected, gives the same effect.
pub proof fn lemma_update_project_assistance_replay(
    effect: UpdateProjectAssistanceSettlementEffect,
    expected_revision: u64,
)
    requires
        effect_outcome(effect) is Some,
        initialization_agrees(effect, expected_revision),
    ensures
        ({
            let (kind, reason) = effect_outcome(effect)->0;
            let (availability, revision) = match effect {
                UpdateProjectAssistanceSettlementEffect::Initialized { availability, revision } => (
                    Some(availability_name(availability)),
                    Some(decimal_text(revision as nat)),
                ),
                UpdateProjectAssistanceSettlementEffect::Applied { availability, revision } => (
                    Some(availability_name(availability)),
                    Some(decimal_text(revision as nat)),
                ),
                _ => (None, None),
            };
            effect_of_receipt(kind, reason, availability, revision, expected_revision)
                == ReadBack::Effect(effect)
        }),
{
    reveal_strlit("authoritative_applied");
    assert("authoritative_applied"@.len() == 21);
    reveal_strlit("no_effect");
    assert("no_effect"@.len() == 9);
    reveal_strlit("conflicted");
    assert("conflicted"@.len() == 10);
    match effect {
        UpdateProjectAssistanceSettlementEffect::Initialized { availability, revision } => {
            lemma_availability_round_trip(availability);
            crate::text::lemma_decimal_text_round_trip(revision);
        },
        UpdateProjectAssistanceSettlementEffect::Applied { availability, revision } => {
            lemma_availability_round_trip(availability);
            crate::text::lemma_decimal_text_round_trip(revision);
        },
        _ => {},
    }
}


/// Which answer of the store a first use of Update Project Assistance
/// awaits: the answer to the action it issued last, or none once it has
/// settled or failed.
#[derive(Debug, Clone, Copy, PartialEq, Eq)]
pub enum AssistanceStage {
    Admission,
    Receipt,
    Settlement,
    Binding,
    Policy,
    Position,
    Activity,
    Idempotency,
    Done,
}

/// The state of a first use of Update Project Assistance inside its
/// serializable transaction.
#[derive(Debug, Clone, PartialEq, Eq)]
pub struct AssistanceStep {
    pub stage: AssistanceStage,
    pub ids: crate::command::AuthorCommandAdmissionIds,
    pub effect: UpdateProjectAssistanceSettlementEffect,
    pub receipt_created_at: String,
    pub project_activity_position: u64,
    pub project_activity_event_id: String,
}

/// What a first use settles with before the response Project is attached:
/// its identities, effect, receipt time and the Project Activity it wrote
/// (position `0` and an empty event id when it wrote none).
#[derive(Debug, Clone, PartialEq, Eq)]
pub struct AssistanceFirstUse {
    pub ids: crate::command::AuthorCommandAdmissionIds,
    pub effect: UpdateProjectAssistanceSettlementEffect,
    pub receipt_created_at: String,
    pub project_activity_position: u64,
    pub project_activity_event_id: String,
}

/// What a first use of Update Project Assistance asks the store to do next,
/// or how it ends.
#[derive(Debug, Clone, PartialEq, Eq)]
pub enum AssistanceAction {
    InsertAdmission,
    InsertReceipt { outcome: ReceiptOutcome },
    InsertSettlement,
    InitializeHostFakeBinding { ids: HostFakeBindingIds },
    InsertPolicyRevision { availability: AssistanceAvailability, revision: u64 },
    AllocatePosition,
    InsertActivity { project_activity_position: u64, project_activity_event_id: String, payload: String },
    SettleIdempotency,
    Settle(AssistanceFirstUse),
    Fail(UpdateProjectAssistanceError),
}

/// The availability and revision that an initializing or applied effect
/// writes.
pub open spec fn written_policy(effect: UpdateProjectAssistanceSettlementEffect) -> Option<(AssistanceAvailability, u64)> {
    match effect {
        UpdateProjectAssistanceSettlementEffect::Initialized { availability, revision } => Some((availability, revision)),
        UpdateProjectAssistanceSettlementEffect::Applied { availability, revision } => Some((availability, revision)),
        _ => None,
    }
}

/// A step state that can go on: only an effect that writes a policy
/// reaches the stages that write it, and only an initializing one the
/// binding.
pub open spec fn assistance_step_wf(state: AssistanceStep) -> bool {
    &&& state.stage != AssistanceStage::Done
    &&& match state.stage {
        AssistanceStage::Binding => state.effect is Initialized,
        AssistanceStage::Policy | AssistanceStage::Position | AssistanceStage::Activity => written_policy(
            state.effect,
        ) is Some,
        _ => true,
    }
}

/// The answer that the store gives at a stage: the receipt time, the
/// activity position, or else a row count.
pub open spec fn answers_assistance(stage: AssistanceStage, event: StoreEvent) -> bool {
    match stage {
        AssistanceStage::Receipt | AssistanceStage::Position => event matches StoreEvent::Returned(v) && v.len()
            == 1,
        _ => event is Rows,
    }
}

/// Starts the first use of a classified Update Project Assistance command:
/// it records the admission first.
pub fn begin_update_project_assistance(
    ids: crate::command::AuthorCommandAdmissionIds,
    effect: UpdateProjectAssistanceSettlementEffect,
) -> (begun: (AssistanceStep, AssistanceAction))
    ensures
        assistance_step_wf(begun.0),
        begun.0.stage == AssistanceStage::Admission,
        begun.0.ids == ids,
        begun.0.effect == effect,
        begun.1 == AssistanceAction::InsertAdmission,
{
    (
        AssistanceStep {
            stage: AssistanceStage::Admission,
            ids,
            effect,
            receipt_created_at: String::new(),
            project_activity_position: 0,
            project_activity_event_id: String::new(),
        },
        AssistanceAction::InsertAdmission,
    )
}

/// Takes the store's answer to the last action of a first use and gives the
/// next state and action. The admission must insert one row; a refused
/// effect records no receipt and is a binding conflict; the receipt returns
/// its time. An initializing effect then writes the host fake binding under
/// fresh identities, and an initializing or applied one the policy
/// revision, the next activity position and the activity payload; every
/// effect then settles the idempotency row and returns what it settled.
pub fn update_project_assistance_step(state: AssistanceStep, event: StoreEvent) -> (next: (
    AssistanceStep,
    AssistanceAction,
))
    requires
        assistance_step_wf(state),
        answers_assistance(state.stage, event),
    ensures
        next.0.ids == state.ids,
        next.0.effect == state.effect,
        state.stage != AssistanceStage::Receipt ==> next.0.receipt_created_at == state.receipt_created_at,
        state.stage != AssistanceStage::Position ==> next.0.project_activity_position
            == state.project_activity_position && next.0.project_activity_event_id
            == state.project_activity_event_id,
        next.0.stage == AssistanceStage::Done <==> (next.1 is Settle || next.1 is Fail),
        next.0.stage != AssistanceStage::Done ==> assistance_step_wf(next.0),
        match (state.stage, event) {
            (AssistanceStage::Admission, StoreEvent::Rows(n)) => if n != 1 {
                next.1 == AssistanceAction::Fail(UpdateProjectAssistanceError::InvalidChallenge)
            } else {
                match effect_outcome(state.effect) {
                    Some(recorded) => {
                        &&& next.0.stage == AssistanceStage::Receipt
                        &&& next.1 matches AssistanceAction::InsertReceipt { outcome }
                        &&& outcome_view(outcome) == recorded
                    },
                    None => next.1 == AssistanceAction::Fail(UpdateProjectAssistanceError::BindingConflict),
                }
            },
            (AssistanceStage::Receipt, StoreEvent::Returned(v)) => {
                &&& next.0.stage == AssistanceStage::Settlement
                &&& next.0.receipt_created_at@ == v@[0]@
                &&& next.1 == AssistanceAction::InsertSettlement
            },
            (AssistanceStage::Settlement, StoreEvent::Rows(_)) => match state.effect {
                UpdateProjectAssistanceSettlementEffect::Initialized { .. } => {
                    &&& next.0.stage == AssistanceStage::Binding
                    &&& next.1 matches AssistanceAction::InitializeHostFakeBinding { ids }
                    &&& ids.processing_destination_identity@.len() == 36
                    &&& ids.grant_id@.len() == 36
                    &&& ids.project_model_use_binding_revision@.len() == 36
                    &&& ids.external_compatibility_decision@.len() == 36
                },
                UpdateProjectAssistanceSettlementEffect::Applied { availability, revision } => next.0.stage
                    == AssistanceStage::Policy && next.1 == AssistanceAction::InsertPolicyRevision {
                    availability,
                    revision,
                },
                _ => next.0.stage == AssistanceStage::Idempotency && next.1 == AssistanceAction::SettleIdempotency,
            },
            (AssistanceStage::Binding, StoreEvent::Rows(_)) => {
                &&& next.0.stage == AssistanceStage::Policy
                &&& state.effect matches UpdateProjectAssistanceSettlementEffect::Initialized { availability, revision }
                &&& next.1 == AssistanceAction::InsertPolicyRevision { availability, revision }
            },
            (AssistanceStage::Policy, StoreEvent::Rows(_)) => next.0.stage == AssistanceStage::Position && next.1
                == AssistanceAction::AllocatePosition,
            (AssistanceStage::Position, StoreEvent::Returned(v)) => match u64_text_value(v@[0]@) {
                Some(position) => {
                    let (availability, revision) = written_policy(state.effect)->0;
                    &&& next.0.stage == AssistanceStage::Activity
                    &&& next.0.project_activity_position == position
                    &&& next.0.project_activity_event_id@.len() == 36
                    &&& next.1 matches AssistanceAction::InsertActivity {
                        project_activity_position,
                        project_activity_event_id,
                        payload,
                    }
                    &&& project_activity_position == position
                    &&& project_activity_event_id == next.0.project_activity_event_id
                    &&& json_text_parses(payload@)
                    &&& json_text_field(payload@, "kind"@) == Some("project_assistance_updated"@)
                    &&& json_text_field(payload@, "availability"@) == Some(availability_name(availability))
                    &&& json_text_field(payload@, "revision"@) == Some(decimal_text(revision as nat))
                },
                None => next.1 matches AssistanceAction::Fail(e) && e is Unavailable,
            },
            (AssistanceStage::Activity, StoreEvent::Rows(_)) => next.0.stage == AssistanceStage::Idempotency && next.1
                == AssistanceAction::SettleIdempotency,
            (AssistanceStage::Idempotency, StoreEvent::Rows(_)) => next.1 matches AssistanceAction::Settle(first)
                && first.ids == state.ids && first.effect == state.effect && first.receipt_created_at
                == state.receipt_created_at && if written_policy(state.effect) is Some {
                first.project_activity_position == state.project_activity_position && first.project_activity_event_id
                    == state.project_activity_event_id
            } else {
                first.project_activity_position == 0 && first.project_activity_event_id@.len() == 0
            },
            _ => false,
        },
{
    let AssistanceStep { stage, ids, effect, receipt_created_at, project_activity_position, project_activity_event_id } =
        state;
    let mut next_stage = AssistanceStage::Done;
    let mut created_at = receipt_created_at;
    let mut position = project_activity_position;
    let mut event_id = project_activity_event_id;
    let action = match (stage, event) {
        (AssistanceStage::Admission, StoreEvent::Rows(n)) => match require_single_admission(n) {
            Err(e) => AssistanceAction::Fail(e),
            Ok(()) => match update_project_assistance_outcome(&effect) {
                Ok(outcome) => {
                    next_stage = AssistanceStage::Receipt;
                    AssistanceAction::InsertReceipt { outcome }
                },
                Err(e) => AssistanceAction::Fail(e),
            },
        },
        (AssistanceStage::Receipt, StoreEvent::Returned(v)) => {
            created_at = v[0].clone();
            next_stage = AssistanceStage::Settlement;
            AssistanceAction::InsertSettlement
        },
        (AssistanceStage::Settlement, StoreEvent::Rows(_)) => match effect {
            UpdateProjectAssistanceSettlementEffect::Initialized { .. } => {
                next_stage = AssistanceStage::Binding;
                AssistanceAction::InitializeHostFakeBinding { ids: host_fake_binding_ids() }
            },
            UpdateProjectAssistanceSettlementEffect::Applied { availability, revision } => {
                next_stage = AssistanceStage::Policy;
                AssistanceAction::InsertPolicyRevision { availability, revision }
            },
            _ => {
                next_stage = AssistanceStage::Idempotency;
                AssistanceAction::SettleIdempotency
            },
        },
        (AssistanceStage::Binding, StoreEvent::Rows(_)) => match effect {
            UpdateProjectAssistanceSettlementEffect::Initialized { availability, revision } => {
                next_stage = AssistanceStage::Policy;
                AssistanceAction::InsertPolicyRevision { availability, revision }
            },
            _ => AssistanceAction::Fail(UpdateProjectAssistanceError::BindingConflict),
        },
        (AssistanceStage::Policy, StoreEvent::Rows(_)) => {
            next_stage = AssistanceStage::Position;
            AssistanceAction::AllocatePosition
        },
        (AssistanceStage::Position, StoreEvent::Returned(v)) => match parse_u64(v[0].as_str()) {
            Some(p) => {
                let (availability, revision) = match effect {
                    UpdateProjectAssistanceSettlementEffect::Initialized { availability, revision } => (
                        availability,
                        revision,
                    ),
                    UpdateProjectAssistanceSettlementEffect::Applied { availability, revision } => (
                        availability,
                        revision,
                    ),
                    _ => (AssistanceAvailability::Unavailable, 0),
                };
                position = p;
                event_id = new_object_id();
                next_stage = AssistanceStage::Activity;
                AssistanceAction::InsertActivity {
                    project_activity_position: p,
                    project_activity_event_id: event_id.clone(),
                    payload: assistance_updated_payload(availability, revision),
                }
            },
            None => AssistanceAction::Fail(damaged_value()),
        },
        (AssistanceStage::Activity, StoreEvent::Rows(_)) => {
            next_stage = AssistanceStage::Idempotency;
            AssistanceAction::SettleIdempotency
        },
        (AssistanceStage::Idempotency, StoreEvent::Rows(_)) => {
            let (settled_position, settled_event_id) = match effect {
                UpdateProjectAssistanceSettlementEffect::Initialized { .. }
                | UpdateProjectAssistanceSettlementEffect::Applied { .. } => (position, event_id.clone()),
                _ => (0, String::new()),
            };
            AssistanceAction::Settle(
                AssistanceFirstUse {
                    ids: ids.copied(),
                    effect,
                    receipt_created_at: created_at.clone(),
                    project_activity_position: settled_position,
                    project_activity_event_id: settled_event_id,
                },
            )
        },
        _ => AssistanceAction::Fail(UpdateProjectAssistanceError::BindingConflict),
    };
    (
        AssistanceStep {
            stage: next_stage,
            ids,
            effect,
            receipt_created_at: created_at,
            project_activity_position: position,
            project_activity_event_id: event_id,
        },
        action,
    )
}

} // verus!
