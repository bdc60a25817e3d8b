//! Take Over Project Writer: the next writer generation, the receipt and
//! activity that record the takeover, and the replay that reads them.

use crate::command::{
    ProjectCommandChallengeError, ReadBack, AuthorCommandAdmissionIds, StoreEvent, UnavailableCause,
};
use crate::json::{json_string_field, json_text_field, json_text_is_document, json_text_parses, payload_text, PayloadValue};
use crate::text::{decimal_text, format_u64, parse_u64, u64_text_value};
use vstd::prelude::*;

verus! {

#[derive(Debug, Clone, PartialEq, Eq)]
pub enum TakeOverProjectWriterError {
    BindingConflict,
    InvalidChallenge,
    Unavailable(UnavailableCause),
}

/// How a challenge failure answers a takeover: a rate limit counts as an
/// invalid challenge, an unavailable store passes its text on.
pub fn takeover_challenge_error(error: ProjectCommandChallengeError) -> (mapped:
    TakeOverProjectWriterError)
    ensures
        mapped == (match error {
            ProjectCommandChallengeError::BindingConflict => TakeOverProjectWriterError::BindingConflict,
            ProjectCommandChallengeError::InvalidOrExpired => TakeOverProjectWriterError::InvalidChallenge,
            ProjectCommandChallengeError::RateLimited { .. } => TakeOverProjectWriterError::InvalidChallenge,
            ProjectCommandChallengeError::Unavailable(source) => TakeOverProjectWriterError::Unavailable(
                UnavailableCause::Message(source),
            ),
        }),
{
    match error {
        ProjectCommandChallengeError::BindingConflict => TakeOverProjectWriterError::BindingConflict,
        ProjectCommandChallengeError::InvalidOrExpired => TakeOverProjectWriterError::InvalidChallenge,
        ProjectCommandChallengeError::RateLimited { .. } => TakeOverProjectWriterError::InvalidChallenge,
        ProjectCommandChallengeError::Unavailable(source) => TakeOverProjectWriterError::Unavailable(
            UnavailableCause::Message(source),
        ),
    }
}

/// A damaged stored counter: the takeover is unavailable, and the message
/// says that a stored counter is not a decimal `u64`.
fn damaged_counter() -> (error: TakeOverProjectWriterError)
    ensures
        error matches TakeOverProjectWriterError::Unavailable(UnavailableCause::Message(message))
            && message@ == "stored counter is not a decimal u64"@,
{
    TakeOverProjectWriterError::Unavailable(
        UnavailableCause::Message(String::from_str("stored counter is not a decimal u64")),
    )
}

/// Each insert and update of a takeover must touch exactly one row; any
/// other count is a binding conflict.
pub fn require_single_row(count: u64) -> (checked: Result<(), TakeOverProjectWriterError>)
    ensures
        count == 1 ==> checked is Ok,
        count != 1 ==> (checked matches Err(e) && e == TakeOverProjectWriterError::BindingConflict),
{
    if count == 1 {
        Ok(())
    } else {
        Err(TakeOverProjectWriterError::BindingConflict)
    }
}

/// The writer generations of a takeover.
#[derive(Debug, Clone, Copy, PartialEq, Eq)]
pub struct WriterGenerations {
    pub prior: u64,
    pub resulting: u64,
}

/// The next writer generation, from the latest writer row (its generation
/// text and editor session): the takeover needs a writer row whose
/// generation is the observed one and whose session is another than the
/// taking one; the resulting generation is one more, and no generation
/// follows `u64::MAX`. A damaged generation makes the takeover unavailable.
pub fn takeover_generations(
    prior_writer: Option<(String, String)>,
    observed_writer_generation: u64,
    editor_session_id: &str,
) -> (generations: Result<WriterGenerations, TakeOverProjectWriterError>)
    ensures
        match prior_writer {
            None => generations matches Err(e) && e == TakeOverProjectWriterError::BindingConflict,
            Some((generation, session)) => match u64_text_value(generation@) {
                None => generations matches Err(e) && e is Unavailable,
                Some(prior) => if prior != observed_writer_generation || session@ == editor_session_id@
                    || prior == u64::MAX {
                    generations matches Err(e) && e == TakeOverProjectWriterError::BindingConflict
                } else {
                    generations matches Ok(g) && g.prior == prior && g.resulting == prior + 1
                },
            },
        },
{
    let (generation, session) = match prior_writer {
        Some(writer) => writer,
        None => {
            return Err(TakeOverProjectWriterError::BindingConflict);
        },
    };
    let prior = match parse_u64(generation.as_str()) {
        Some(value) => value,
        None => {
            return Err(damaged_counter());
        },
    };
    if prior != observed_writer_generation || crate::command::same_text(session.as_str(), editor_session_id) {
        return Err(TakeOverProjectWriterError::BindingConflict);
    }
    match prior.checked_add(1) {
        Some(resulting) => Ok(WriterGenerations { prior, resulting }),
        None => Err(TakeOverProjectWriterError::BindingConflict),
    }
}

/// What an applied takeover did.
#[derive(Debug, Clone, PartialEq, Eq)]
pub enum TakeOverProjectWriterEffect {
    TakeoverApplied {
        prior_editor_session_id: String,
        prior_writer_generation: u64,
        resulting_editor_session_id: String,
        resulting_writer_generation: u64,
        resulting_snapshot_id: String,
        resulting_snapshot_activity_position: u64,
    },
}

/// An applied takeover with its texts as characters.
pub struct TakeoverView {
    pub prior_editor_session_id: Seq<char>,
    pub prior_writer_generation: u64,
    pub resulting_editor_session_id: Seq<char>,
    pub resulting_writer_generation: u64,
    pub resulting_snapshot_id: Seq<char>,
    pub resulting_snapshot_activity_position: u64,
}

pub open spec fn takeover_view(effect: TakeOverProjectWriterEffect) -> TakeoverView {
    match effect {
        TakeOverProjectWriterEffect::TakeoverApplied {
            prior_editor_session_id,
            prior_writer_generation,
            resulting_editor_session_id,
            resulting_writer_generation,
            resulting_snapshot_id,
            resulting_snapshot_activity_position,
        } => TakeoverView {
            prior_editor_session_id: prior_editor_session_id@,
            prior_writer_generation,
            resulting_editor_session_id: resulting_editor_session_id@,
            resulting_writer_generation,
            resulting_snapshot_id: resulting_snapshot_id@,
            resulting_snapshot_activity_position,
        },
    }
}

/// A settled takeover: its identities, the receipt time, the heads that the
/// receipt records, and the effect.
#[derive(Debug, Clone, PartialEq, Eq)]
pub struct TakeOverProjectWriterSettlement {
    pub ids: AuthorCommandAdmissionIds,
    pub receipt_created_at: String,
    pub expected_heads: Vec<String>,
    pub prior_heads: Vec<String>,
    pub resulting_heads: Vec<String>,
    pub effect: TakeOverProjectWriterEffect,
}

/// The current head as the one-element head list of a receipt.
pub open spec fn single_head(head: Seq<char>) -> Seq<Seq<char>> {
    seq![head]
}

/// The texts of a list of heads.
pub open spec fn heads_view(heads: Vec<String>) -> Seq<Seq<char>> {
    heads@.map_values(|h: String| h@)
}

fn one_head(head: String) -> (heads: Vec<String>)
    ensures
        heads_view(heads) == single_head(head@),
{
    let mut heads: Vec<String> = Vec::new();
    heads.push(head);
    proof {
        assert(heads_view(heads) =~= single_head(head@));
    }
    heads
}

/// The settlement of a first use: the takeover keeps the current head, so
/// it is the expected, prior and resulting head alike.
pub fn takeover_settlement(
    ids: AuthorCommandAdmissionIds,
    receipt_created_at: String,
    current_head: String,
    effect: TakeOverProjectWriterEffect,
) -> (settlement: TakeOverProjectWriterSettlement)
    ensures
        settlement.ids == ids,
        settlement.receipt_created_at == receipt_created_at,
        heads_view(settlement.expected_heads) == single_head(current_head@),
        heads_view(settlement.prior_heads) == single_head(current_head@),
        heads_view(settlement.resulting_heads) == single_head(current_head@),
        settlement.effect == effect,
{
    let expected_heads = one_head(current_head.clone());
    let prior_heads = one_head(current_head.clone());
    let resulting_heads = one_head(current_head);
    TakeOverProjectWriterSettlement {
        ids,
        receipt_created_at,
        expected_heads,
        prior_heads,
        resulting_heads,
        effect,
    }
}

/// The effect of an applied takeover: the writer that held the Project
/// before it (the prior writer row's session and generation), the taking
/// session at the resulting generation, and the snapshot that the taking
/// session starts from at its activity position.
pub fn takeover_applied(
    prior_editor_session_id: String,
    generations: WriterGenerations,
    editor_session_id: &str,
    snapshot_id: String,
    activity_position: u64,
) -> (effect: TakeOverProjectWriterEffect)
    ensures
        takeover_view(effect) == (TakeoverView {
            prior_editor_session_id: prior_editor_session_id@,
            prior_writer_generation: generations.prior,
            resulting_editor_session_id: editor_session_id@,
            resulting_writer_generation: generations.resulting,
            resulting_snapshot_id: snapshot_id@,
            resulting_snapshot_activity_position: activity_position,
        }),
{
    TakeOverProjectWriterEffect::TakeoverApplied {
        prior_editor_session_id,
        prior_writer_generation: generations.prior,
        resulting_editor_session_id: String::from_str(editor_session_id),
        resulting_writer_generation: generations.resulting,
        resulting_snapshot_id: snapshot_id,
        resulting_snapshot_activity_position: activity_position,
    }
}

/// The receipt outcome of a takeover: it leaves every head as it was, so its
/// receipt records no effect, for the reason `writer_takeover_applied`.
pub fn takeover_receipt_outcome() -> (outcome: crate::command::ReceiptOutcome)
    ensures
        crate::command::outcome_view(outcome) == ("no_effect"@, Some("writer_takeover_applied"@)),
{
    crate::command::receipt_outcome("no_effect", Some("writer_takeover_applied"))
}

/// The receipt payload of a takeover: `{"reason": "writer_takeover_applied"}`.
pub fn takeover_receipt_payload() -> (payload: String)
    ensures
        json_text_parses(payload@),
        json_text_field(payload@, "reason"@) == Some("writer_takeover_applied"@),
{
    let outcome = takeover_receipt_outcome();
    crate::command::receipt_payload(&outcome)
}

/// The members that a takeover's activity payload holds as text.
pub open spec fn takeover_payload_fields(text: Seq<char>, view: TakeoverView) -> bool {
    &&& json_text_parses(text)
    &&& json_text_field(text, "kind"@) == Some("takeover_applied"@)
    &&& json_text_field(text, "prior_editor_session_id"@) == Some(view.prior_editor_session_id)
    &&& json_text_field(text, "prior_writer_generation"@) == Some(
        decimal_text(view.prior_writer_generation as nat),
    )
    &&& json_text_field(text, "resulting_editor_session_id"@) == Some(view.resulting_editor_session_id)
    &&& json_text_field(text, "resulting_writer_generation"@) == Some(
        decimal_text(view.resulting_writer_generation as nat),
    )
    &&& json_text_field(text, "resulting_snapshot_id"@) == Some(view.resulting_snapshot_id)
    &&& json_text_field(text, "resulting_snapshot_activity_position"@) == Some(
        decimal_text(view.resulting_snapshot_activity_position as nat),
    )
}

/// The Project Activity payload of an applied takeover: its sessions, its
/// generations and snapshot position as decimal text, its snapshot, and the
/// list of resulting heads, which is the current head alone.
pub fn takeover_activity_payload(effect: &TakeOverProjectWriterEffect, current_head: &str) -> (payload:
    String)
    ensures
        takeover_payload_fields(payload@, takeover_view(*effect)),
        crate::json::json_text_list_field(payload@, "resulting_heads"@) == Some(single_head(current_head@)),
{
    let TakeOverProjectWriterEffect::TakeoverApplied {
        prior_editor_session_id,
        prior_writer_generation,
        resulting_editor_session_id,
        resulting_writer_generation,
        resulting_snapshot_id,
        resulting_snapshot_activity_position,
    } = effect;
    let mut heads: Vec<String> = Vec::new();
    heads.push(String::from_str(current_head));
    let mut fields: Vec<(String, PayloadValue)> = Vec::new();
    fields.push((String::from_str("kind"), PayloadValue::Text(String::from_str("takeover_applied"))));
    fields.push(
        (String::from_str("prior_editor_session_id"), PayloadValue::Text(prior_editor_session_id.clone())),
    );
    fields.push(
        (
            String::from_str("prior_writer_generation"),
            PayloadValue::Text(format_u64(*prior_writer_generation)),
        ),
    );
    fields.push(
        (
            String::from_str("resulting_editor_session_id"),
            PayloadValue::Text(resulting_editor_session_id.clone()),
        ),
    );
    fields.push(
        (
            String::from_str("resulting_writer_generation"),
            PayloadValue::Text(format_u64(*resulting_writer_generation)),
        ),
    );
    fields.push(
        (String::from_str("resulting_snapshot_id"), PayloadValue::Text(resulting_snapshot_id.clone())),
    );
    fields.push(
        (
            String::from_str("resulting_snapshot_activity_position"),
            PayloadValue::Text(format_u64(*resulting_snapshot_activity_position)),
        ),
    );
    fields.push((String::from_str("resulting_heads"), PayloadValue::TextList(heads)));
    let payload = payload_text(&fields);
    proof {
        reveal_strlit("kind");
        assert("kind"@.len() == 4);
        reveal_strlit("prior_editor_session_id");
        assert("prior_editor_session_id"@.len() == 23);
        reveal_strlit("prior_writer_generation");
        assert("prior_writer_generation"@.len() == 23);
        reveal_strlit("resulting_editor_session_id");
        assert("resulting_editor_session_id"@.len() == 27);
        reveal_strlit("resulting_writer_generation");
        assert("resulting_writer_generation"@.len() == 27);
        reveal_strlit("resulting_snapshot_id");
        assert("resulting_snapshot_id"@.len() == 21);
        reveal_strlit("resulting_snapshot_activity_position");
        assert("resulting_snapshot_activity_position"@.len() == 36);
        reveal_strlit("resulting_heads");
        assert("resulting_heads"@.len() == 15);
        let f = fields@;
        assert(f[1].0@[6] != f[2].0@[6]);
        assert(f[3].0@[10] != f[4].0@[10]);
        assert(crate::json::sole_member(f, 0));
        assert(crate::json::sole_member(f, 1));
        assert(crate::json::sole_member(f, 2));
        assert(crate::json::sole_member(f, 3));
        assert(crate::json::sole_member(f, 4));
        assert(crate::json::sole_member(f, 5));
        assert(crate::json::sole_member(f, 6));
        assert(crate::json::sole_member(f, 7));
        assert(crate::json::json_text_list_field(payload@, f[7].0@) == crate::json::payload_list_member(
            f[7],
        ).1);
        assert(f[7].1 matches PayloadValue::TextList(h) && h@.map_values(|v: String| v@) =~= single_head(
            current_head@,
        ));
        assert(json_text_field(payload@, f[0].0@) == crate::json::payload_member(f[0]).1);
        assert(json_text_field(payload@, f[1].0@) == crate::json::payload_member(f[1]).1);
        assert(json_text_field(payload@, f[2].0@) == crate::json::payload_member(f[2]).1);
        assert(json_text_field(payload@, f[3].0@) == crate::json::payload_member(f[3]).1);
        assert(json_text_field(payload@, f[4].0@) == crate::json::payload_member(f[4]).1);
        assert(json_text_field(payload@, f[5].0@) == crate::json::payload_member(f[5]).1);
        assert(json_text_field(payload@, f[6].0@) == crate::json::payload_member(f[6]).1);
    }
    payload
}

/// The counter member `key` of a payload: absent is a binding conflict, no
/// counter is damage.
pub open spec fn payload_counter(text: Seq<char>, key: Seq<char>) -> ReadBack<u64> {
    match json_text_field(text, key) {
        None => ReadBack::BindingConflict,
        Some(value) => match u64_text_value(value) {
            None => ReadBack::Damaged,
            Some(n) => ReadBack::Effect(n),
        },
    }
}

/// The text member `key` of a payload: absent is a binding conflict.
pub open spec fn payload_string(text: Seq<char>, key: Seq<char>) -> ReadBack<Seq<char>> {
    match json_text_field(text, key) {
        None => ReadBack::BindingConflict,
        Some(value) => ReadBack::Effect(value),
    }
}

/// The takeover that a stored activity payload stands for: text that is no
/// JSON document is damage; then its members are read in order, the first
/// missing one a binding conflict and the first damaged counter damage.
pub open spec fn takeover_of_payload(text: Seq<char>) -> ReadBack<TakeoverView> {
    if !json_text_parses(text) {
        ReadBack::Damaged
    } else {
        match payload_string(text, "prior_editor_session_id"@) {
            ReadBack::Effect(prior_session) => match payload_counter(text, "prior_writer_generation"@) {
                ReadBack::Effect(prior_generation) => match payload_string(
                    text,
                    "resulting_editor_session_id"@,
                ) {
                    ReadBack::Effect(resulting_session) => match payload_counter(
                        text,
                        "resulting_writer_generation"@,
                    ) {
                        ReadBack::Effect(resulting_generation) => match payload_string(
                            text,
                            "resulting_snapshot_id"@,
                        ) {
                            ReadBack::Effect(snapshot) => match payload_counter(
                                text,
                                "resulting_snapshot_activity_position"@,
                            ) {
                                ReadBack::Effect(position) => ReadBack::Effect(
                                    TakeoverView {
                                        prior_editor_session_id: prior_session,
                                        prior_writer_generation: prior_generation,
                                        resulting_editor_session_id: resulting_session,
                                        resulting_writer_generation: resulting_generation,
                                        resulting_snapshot_id: snapshot,
                                        resulting_snapshot_activity_position: position,
                                    },
                                ),
                                ReadBack::BindingConflict => ReadBack::BindingConflict,
                                ReadBack::Damaged => ReadBack::Damaged,
                            },
                            _ => ReadBack::BindingConflict,
                        },
                        ReadBack::BindingConflict => ReadBack::BindingConflict,
                        ReadBack::Damaged => ReadBack::Damaged,
                    },
                    _ => ReadBack::BindingConflict,
                },
                ReadBack::BindingConflict => ReadBack::BindingConflict,
                ReadBack::Damaged => ReadBack::Damaged,
            },
            _ => ReadBack::BindingConflict,
        }
    }
}

/// The text member `key` of a payload document.
fn required_payload_string(payload: &str, key: &str) -> (value: Result<String, TakeOverProjectWriterError>)
    ensures
        match payload_string(payload@, key@) {
            ReadBack::Effect(v) => value matches Ok(s) && s@ == v,
            _ => value matches Err(e) && e == TakeOverProjectWriterError::BindingConflict,
        },
{
    match json_string_field(payload, key) {
        Some(value) => Ok(value),
        None => Err(TakeOverProjectWriterError::BindingConflict),
    }
}

/// The counter member `key` of a payload document.
fn required_payload_counter(payload: &str, key: &str) -> (value: Result<u64, TakeOverProjectWriterError>)
    ensures
        match payload_counter(payload@, key@) {
            ReadBack::Effect(n) => value == Ok::<u64, TakeOverProjectWriterError>(n),
            ReadBack::BindingConflict => value matches Err(e) && e == TakeOverProjectWriterError::BindingConflict,
            ReadBack::Damaged => value matches Err(e) && e is Unavailable,
        },
{
    let text = match json_string_field(payload, key) {
        Some(value) => value,
        None => {
            return Err(TakeOverProjectWriterError::BindingConflict);
        },
    };
    match parse_u64(text.as_str()) {
        Some(n) => Ok(n),
        None => Err(damaged_counter()),
    }
}

/// Reads back the takeover that a stored activity payload records.
pub fn read_takeover_effect(payload: &str) -> (effect: Result<
    TakeOverProjectWriterEffect,
    TakeOverProjectWriterError,
>)
    ensures
        match takeover_of_payload(payload@) {
            ReadBack::Effect(v) => effect matches Ok(e) && takeover_view(e) == v,
            ReadBack::BindingConflict => effect matches Err(e) && e
                == TakeOverProjectWriterError::BindingConflict,
            ReadBack::Damaged => effect matches Err(e) && e is Unavailable,
        },
{
    if !json_text_is_document(payload) {
        return Err(
            TakeOverProjectWriterError::Unavailable(
                UnavailableCause::Message(String::from_str("takeover payload is no JSON document")),
            ),
        );
    }
    let prior_editor_session_id = required_payload_string(payload, "prior_editor_session_id")?;
    let prior_writer_generation = required_payload_counter(payload, "prior_writer_generation")?;
    let resulting_editor_session_id = required_payload_string(payload, "resulting_editor_session_id")?;
    let resulting_writer_generation = required_payload_counter(payload, "resulting_writer_generation")?;
    let resulting_snapshot_id = required_payload_string(payload, "resulting_snapshot_id")?;
    let resulting_snapshot_activity_position = required_payload_counter(
        payload,
        "resulting_snapshot_activity_position",
    )?;
    Ok(
        TakeOverProjectWriterEffect::TakeoverApplied {
            prior_editor_session_id,
            prior_writer_generation,
            resulting_editor_session_id,
            resulting_writer_generation,
            resulting_snapshot_id,
            resulting_snapshot_activity_position,
        },
    )
}

/// The settlement that a replay reads back: the receipt's identities and
/// time, its first expected, prior and resulting heads, and the takeover of
/// its activity payload.
pub fn replayed_takeover_settlement(
    ids: AuthorCommandAdmissionIds,
    receipt_created_at: String,
    expected_head: String,
    prior_head: String,
    resulting_head: String,
    payload: &str,
) -> (settlement: Result<TakeOverProjectWriterSettlement, TakeOverProjectWriterError>)
    ensures
        match takeover_of_payload(payload@) {
            ReadBack::Effect(v) => settlement matches Ok(s) && s.ids == ids && s.receipt_created_at
                == receipt_created_at && heads_view(s.expected_heads) == single_head(expected_head@)
                && heads_view(s.prior_heads) == single_head(prior_head@) && heads_view(s.resulting_heads)
                == single_head(resulting_head@) && takeover_view(s.effect) == v,
            ReadBack::BindingConflict => settlement matches Err(e) && e
                == TakeOverProjectWriterError::BindingConflict,
            ReadBack::Damaged => settlement matches Err(e) && e is Unavailable,
        },
{
    let effect = read_takeover_effect(payload)?;
    Ok(
        TakeOverProjectWriterSettlement {
            ids,
            receipt_created_at,
            expected_heads: one_head(expected_head),
            prior_heads: one_head(prior_head),
            resulting_heads: one_head(resulting_head),
            effect,
        },
    )
}

/// Law: the activity payload of a takeover reads back as that takeover, so
/// a replay answers with the settlement of the first use.
pub proof fn lemma_takeover_replay(text: Seq<char>, view: TakeoverView)
    requires
        takeover_payload_fields(text, view),
    ensures
        takeover_of_payload(text) == ReadBack::Effect(view),
{
    crate::text::lemma_decimal_text_round_trip(view.prior_writer_generation);
    crate::text::lemma_decimal_text_round_trip(view.resulting_writer_generation);
    crate::text::lemma_decimal_text_round_trip(view.resulting_snapshot_activity_position);
}


/// Which answer of the store a first use of a takeover awaits: the answer
/// to the action it issued last, or none once it has settled or failed.
#[derive(Debug, Clone, Copy, PartialEq, Eq)]
pub enum TakeoverStage {
    Admission,
    Writer,
    Head,
    Generation,
    Counter,
    Snapshot,
    Receipt,
    Settlement,
    Activity,
    Idempotency,
    Done,
}

/// The state of a first use of a takeover inside its serializable
/// transaction: the stage, what the command fixed, and what the store has
/// answered so far.
#[derive(Debug, Clone, PartialEq, Eq)]
pub struct TakeoverStep {
    pub stage: TakeoverStage,
    pub ids: AuthorCommandAdmissionIds,
    pub editor_session_id: String,
    pub observed_writer_generation: u64,
    pub prior_editor_session_id: String,
    pub generations: WriterGenerations,
    pub current_head: String,
    pub activity_position: u64,
    pub snapshot_id: String,
    pub receipt_created_at: String,
}

/// What a first use of a takeover asks the store to do next, or how it ends.
#[derive(Debug, Clone, PartialEq, Eq)]
pub enum TakeoverAction {
    InsertAdmission,
    ReadWriter,
    ReadHead,
    InsertGeneration { writer_generation: u64, editor_session_id: String },
    AllocatePosition,
    PersistSnapshot { snapshot_id: String, project_activity_position: u64 },
    InsertReceipt { outcome: crate::command::ReceiptOutcome, head: String, result_payload: String },
    InsertSettlement,
    InsertActivity { project_activity_position: u64, project_activity_event_id: String, payload: String },
    SettleIdempotency,
    Settle(TakeOverProjectWriterSettlement),
    Fail(TakeOverProjectWriterError),
}

/// The answer that the store gives at a stage: the latest writer row's
/// generation and session (nothing when there is none), the current head,
/// the activity position, the receipt time, or else a row count.
pub open spec fn answers_takeover(stage: TakeoverStage, event: StoreEvent) -> bool {
    match stage {
        TakeoverStage::Writer => event matches StoreEvent::Returned(v) && (v.len() == 0 || v.len() == 2),
        TakeoverStage::Head | TakeoverStage::Counter | TakeoverStage::Receipt => event matches StoreEvent::Returned(
            v,
        ) && v.len() == 1,
        _ => event is Rows,
    }
}

/// The effect that a first use settles with, from what it has read and
/// allocated.
pub open spec fn takeover_state_view(state: TakeoverStep) -> TakeoverView {
    TakeoverView {
        prior_editor_session_id: state.prior_editor_session_id@,
        prior_writer_generation: state.generations.prior,
        resulting_editor_session_id: state.editor_session_id@,
        resulting_writer_generation: state.generations.resulting,
        resulting_snapshot_id: state.snapshot_id@,
        resulting_snapshot_activity_position: state.activity_position,
    }
}

/// Starts the first use of a takeover by the session `editor_session_id`,
/// which observed the writer generation `observed_writer_generation`: it
/// records the admission first.
pub fn begin_takeover(
    ids: AuthorCommandAdmissionIds,
    editor_session_id: &str,
    observed_writer_generation: u64,
) -> (begun: (TakeoverStep, TakeoverAction))
    ensures
        begun.0.stage == TakeoverStage::Admission,
        begun.0.ids == ids,
        begun.0.editor_session_id@ == editor_session_id@,
        begun.0.observed_writer_generation == observed_writer_generation,
        begun.1 == TakeoverAction::InsertAdmission,
{
    (
        TakeoverStep {
            stage: TakeoverStage::Admission,
            ids,
            editor_session_id: String::from_str(editor_session_id),
            observed_writer_generation,
            prior_editor_session_id: String::new(),
            generations: WriterGenerations { prior: 0, resulting: 0 },
            current_head: String::new(),
            activity_position: 0,
            snapshot_id: String::new(),
            receipt_created_at: String::new(),
        },
        TakeoverAction::InsertAdmission,
    )
}

/// Takes the store's answer to the last action of a first use and gives the
/// next state and action. The admission must insert one row (the session is
/// not the writer at the observed generation otherwise); the latest writer
/// row must be another session at the observed generation; the taking
/// session then becomes the writer at the next generation (one row), the
/// activity position advances, the canonical snapshot is written under a
/// fresh id, the receipt records no effect for the reason
/// `writer_takeover_applied` with the current head, its settlement row and
/// the activity payload follow, and the idempotency row settles (one row
/// each).
pub fn takeover_step(state: TakeoverStep, event: StoreEvent) -> (next: (TakeoverStep, TakeoverAction))
    requires
        state.stage != TakeoverStage::Done,
        answers_takeover(state.stage, event),
    ensures
        next.0.ids == state.ids,
        next.0.editor_session_id == state.editor_session_id,
        next.0.observed_writer_generation == state.observed_writer_generation,
        state.stage != TakeoverStage::Writer ==> next.0.prior_editor_session_id == state.prior_editor_session_id
            && next.0.generations == state.generations,
        state.stage != TakeoverStage::Head ==> next.0.current_head == state.current_head,
        state.stage != TakeoverStage::Counter ==> next.0.activity_position == state.activity_position
            && next.0.snapshot_id == state.snapshot_id,
        state.stage != TakeoverStage::Receipt ==> next.0.receipt_created_at == state.receipt_created_at,
        next.0.stage == TakeoverStage::Done <==> (next.1 is Settle || next.1 is Fail),
        match (state.stage, event) {
            (TakeoverStage::Admission, StoreEvent::Rows(n)) => if n == 1 {
                next.0.stage == TakeoverStage::Writer && next.1 == TakeoverAction::ReadWriter
            } else {
                next.1 == TakeoverAction::Fail(TakeOverProjectWriterError::BindingConflict)
            },
            (TakeoverStage::Writer, StoreEvent::Returned(v)) => if v.len() == 0 {
                next.1 == TakeoverAction::Fail(TakeOverProjectWriterError::BindingConflict)
            } else {
                match u64_text_value(v@[0]@) {
                    None => next.1 matches TakeoverAction::Fail(e) && e is Unavailable,
                    Some(prior) => if prior != state.observed_writer_generation || v@[1]@
                        == state.editor_session_id@ || prior == u64::MAX {
                        next.1 == TakeoverAction::Fail(TakeOverProjectWriterError::BindingConflict)
                    } else {
                        &&& next.0.stage == TakeoverStage::Head
                        &&& next.0.prior_editor_session_id@ == v@[1]@
                        &&& next.0.generations == (WriterGenerations { prior, resulting: (prior + 1) as u64 })
                        &&& next.1 == TakeoverAction::ReadHead
                    },
                }
            },
            (TakeoverStage::Head, StoreEvent::Returned(v)) => {
                &&& next.0.stage == TakeoverStage::Generation
                &&& next.0.current_head@ == v@[0]@
                &&& next.1 == TakeoverAction::InsertGeneration {
                    writer_generation: state.generations.resulting,
                    editor_session_id: state.editor_session_id,
                }
            },
            (TakeoverStage::Generation, StoreEvent::Rows(n)) => if n == 1 {
                next.0.stage == TakeoverStage::Counter && next.1 == TakeoverAction::AllocatePosition
            } else {
                next.1 == TakeoverAction::Fail(TakeOverProjectWriterError::BindingConflict)
            },
            (TakeoverStage::Counter, StoreEvent::Returned(v)) => match u64_text_value(v@[0]@) {
                Some(position) => {
                    &&& next.0.stage == TakeoverStage::Snapshot
                    &&& next.0.activity_position == position
                    &&& next.0.snapshot_id@.len() == 36
                    &&& next.1 == TakeoverAction::PersistSnapshot {
                        snapshot_id: next.0.snapshot_id,
                        project_activity_position: position,
                    }
                },
                None => next.1 matches TakeoverAction::Fail(e) && e is Unavailable,
            },
            (TakeoverStage::Snapshot, StoreEvent::Rows(_)) => {
                &&& next.0.stage == TakeoverStage::Receipt
                &&& next.1 matches TakeoverAction::InsertReceipt { outcome, head, result_payload }
                &&& crate::command::outcome_view(outcome) == ("no_effect"@, Some("writer_takeover_applied"@))
                &&& head == state.current_head
                &&& json_text_field(result_payload@, "reason"@) == Some("writer_takeover_applied"@)
            },
            (TakeoverStage::Receipt, StoreEvent::Returned(v)) => {
                &&& next.0.stage == TakeoverStage::Settlement
                &&& next.0.receipt_created_at@ == v@[0]@
                &&& next.1 == TakeoverAction::InsertSettlement
            },
            (TakeoverStage::Settlement, StoreEvent::Rows(n)) => if n == 1 {
                &&& next.0.stage == TakeoverStage::Activity
                &&& next.1 matches TakeoverAction::InsertActivity {
                    project_activity_position,
                    project_activity_event_id,
                    payload,
                }
                &&& project_activity_position == state.activity_position
                &&& project_activity_event_id@.len() == 36
                &&& takeover_payload_fields(payload@, takeover_state_view(state))
                &&& crate::json::json_text_list_field(payload@, "resulting_heads"@) == Some(
                    single_head(state.current_head@),
                )
            } else {
                next.1 == TakeoverAction::Fail(TakeOverProjectWriterError::BindingConflict)
            },
            (TakeoverStage::Activity, StoreEvent::Rows(_)) => next.0.stage == TakeoverStage::Idempotency
                && next.1 == TakeoverAction::SettleIdempotency,
            (TakeoverStage::Idempotency, StoreEvent::Rows(n)) => if n == 1 {
                &&& next.1 matches TakeoverAction::Settle(settlement)
                &&& settlement.ids == state.ids
                &&& settlement.receipt_created_at == state.receipt_created_at
                &&& heads_view(settlement.expected_heads) == single_head(state.current_head@)
                &&& heads_view(settlement.prior_heads) == single_head(state.current_head@)
                &&& heads_view(settlement.resulting_heads) == single_head(state.current_head@)
                &&& takeover_view(settlement.effect) == takeover_state_view(state)
            } else {
                next.1 == TakeoverAction::Fail(TakeOverProjectWriterError::BindingConflict)
            },
            _ => false,
        },
{
    let TakeoverStep {
        stage,
        ids,
        editor_session_id,
        observed_writer_generation,
        prior_editor_session_id,
        generations,
        current_head,
        activity_position,
        snapshot_id,
        receipt_created_at,
    } = state;
    let mut next_stage = TakeoverStage::Done;
    let mut prior_session = prior_editor_session_id;
    let mut taken = generations;
    let mut head = current_head;
    let mut position = activity_position;
    let mut snapshot = snapshot_id;
    let mut created_at = receipt_created_at;
    let action = match (stage, event) {
        (TakeoverStage::Admission, StoreEvent::Rows(n)) => match require_single_row(n) {
            Err(e) => TakeoverAction::Fail(e),
            Ok(()) => {
                next_stage = TakeoverStage::Writer;
                TakeoverAction::ReadWriter
            },
        },
        (TakeoverStage::Writer, StoreEvent::Returned(v)) => {
            let writer = if v.len() == 0 {
                None
            } else {
                Some((v[0].clone(), v[1].clone()))
            };
            match takeover_generations(writer, observed_writer_generation, editor_session_id.as_str()) {
                Err(e) => TakeoverAction::Fail(e),
                Ok(g) => {
                    prior_session = v[1].clone();
                    taken = g;
                    next_stage = TakeoverStage::Head;
                    TakeoverAction::ReadHead
                },
            }
        },
        (TakeoverStage::Head, StoreEvent::Returned(v)) => {
            head = v[0].clone();
            next_stage = TakeoverStage::Generation;
            TakeoverAction::InsertGeneration {
                writer_generation: taken.resulting,
                editor_session_id: editor_session_id.clone(),
            }
        },
        (TakeoverStage::Generation, StoreEvent::Rows(n)) => match require_single_row(n) {
            Err(e) => TakeoverAction::Fail(e),
            Ok(()) => {
                next_stage = TakeoverStage::Counter;
                TakeoverAction::AllocatePosition
            },
        },
        (TakeoverStage::Counter, StoreEvent::Returned(v)) => match parse_u64(v[0].as_str()) {
            Some(p) => {
                position = p;
                snapshot = crate::ids::new_object_id();
                next_stage = TakeoverStage::Snapshot;
                TakeoverAction::PersistSnapshot { snapshot_id: snapshot.clone(), project_activity_position: p }
            },
            None => TakeoverAction::Fail(damaged_counter()),
        },
        (TakeoverStage::Snapshot, StoreEvent::Rows(_)) => {
            next_stage = TakeoverStage::Receipt;
            TakeoverAction::InsertReceipt {
                outcome: takeover_receipt_outcome(),
                head: head.clone(),
                result_payload: takeover_receipt_payload(),
            }
        },
        (TakeoverStage::Receipt, StoreEvent::Returned(v)) => {
            created_at = v[0].clone();
            next_stage = TakeoverStage::Settlement;
            TakeoverAction::InsertSettlement
        },
        (TakeoverStage::Settlement, StoreEvent::Rows(n)) => match require_single_row(n) {
            Err(e) => TakeoverAction::Fail(e),
            Ok(()) => {
                let effect = takeover_applied(
                    prior_session.clone(),
                    taken,
                    editor_session_id.as_str(),
                    snapshot.clone(),
                    position,
                );
                next_stage = TakeoverStage::Activity;
                TakeoverAction::InsertActivity {
                    project_activity_position: position,
                    project_activity_event_id: crate::ids::new_object_id(),
                    payload: takeover_activity_payload(&effect, head.as_str()),
                }
            },
        },
        (TakeoverStage::Activity, StoreEvent::Rows(_)) => {
            next_stage = TakeoverStage::Idempotency;
            TakeoverAction::SettleIdempotency
        },
        (TakeoverStage::Idempotency, StoreEvent::Rows(n)) => match require_single_row(n) {
            Err(e) => TakeoverAction::Fail(e),
            Ok(()) => {
                let effect = takeover_applied(
                    prior_session.clone(),
                    taken,
                    editor_session_id.as_str(),
                    snapshot.clone(),
                    position,
                );
                TakeoverAction::Settle(takeover_settlement(ids.copied(), created_at.clone(), head.clone(), effect))
            },
        },
        _ => TakeoverAction::Fail(TakeOverProjectWriterError::BindingConflict),
    };
    (
        TakeoverStep {
            stage: next_stage,
            ids,
            editor_session_id,
            observed_writer_generation,
            prior_editor_session_id: prior_session,
            generations: taken,
            current_head: head,
            activity_position: position,
            snapshot_id: snapshot,
            receipt_created_at: created_at,
        },
        action,
    )
}

} // verus!
