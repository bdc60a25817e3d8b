//! What every author command shares: the use of its challenge, the route it
//! takes, the Project lifecycle it reads, and the receipt outcome it records.

use crate::json::{json_text_field, json_text_parses, payload_text, PayloadValue};
use vstd::prelude::*;

verus! {

/// Why consuming a project command challenge failed.
#[derive(Debug, Clone, PartialEq, Eq)]
pub enum ProjectCommandChallengeError {
    BindingConflict,
    InvalidOrExpired,
    RateLimited { retry_after_seconds: u64 },
    Unavailable(String),
}

/// What consuming a project command challenge found.
#[derive(Debug, Clone, PartialEq, Eq)]
pub enum ProjectCommandChallengeUse {
    /// The command runs for the first time.
    FirstUse,
    /// The same command already settled; its receipt is `result_reference`.
    ExactRetrySettled { result_reference: String },
    /// The same command is still running elsewhere.
    ExactRetryInProgress,
}

/// The way a command goes after its challenge is consumed.
#[derive(Debug, Clone, PartialEq, Eq)]
pub enum CommandRoute {
    /// Roll forward: persist the command in this transaction and commit.
    Persist,
    /// Roll back and read the settlement of receipt `receipt_id` back.
    Replay { receipt_id: String },
    /// Roll back and answer with a binding conflict.
    RefuseInProgress,
}

/// Routes a command by the use of its challenge: a first use persists, an
/// exact retry of a settled command replays its receipt, and an exact retry
/// of a command still running is refused.
pub fn route_challenge_use(challenge_use: ProjectCommandChallengeUse) -> (route: CommandRoute)
    ensures
        route == (match challenge_use {
            ProjectCommandChallengeUse::FirstUse => CommandRoute::Persist,
            ProjectCommandChallengeUse::ExactRetrySettled { result_reference } =>
                CommandRoute::Replay { receipt_id: result_reference },
            ProjectCommandChallengeUse::ExactRetryInProgress => CommandRoute::RefuseInProgress,
        }),
{
    match challenge_use {
        ProjectCommandChallengeUse::FirstUse => CommandRoute::Persist,
        ProjectCommandChallengeUse::ExactRetrySettled { result_reference } => CommandRoute::Replay {
            receipt_id: result_reference,
        },
        ProjectCommandChallengeUse::ExactRetryInProgress => CommandRoute::RefuseInProgress,
    }
}

/// What made a command unavailable: a challenge failure passed on whole, or
/// the text of a database, parse or evidence failure.
#[derive(Debug, Clone, PartialEq, Eq)]
pub enum UnavailableCause {
    Challenge(ProjectCommandChallengeError),
    Message(String),
}

/// The identities of one admitted author command.
#[derive(Debug, Clone, PartialEq, Eq)]
pub struct AuthorCommandAdmissionIds {
    pub command_id: String,
    pub author_command_admission_id: String,
    pub receipt_id: String,
}

impl AuthorCommandAdmissionIds {
    /// A copy of the identities.
    pub fn copied(&self) -> (copy: AuthorCommandAdmissionIds)
        ensures
            copy == *self,
    {
        AuthorCommandAdmissionIds {
            command_id: self.command_id.clone(),
            author_command_admission_id: self.author_command_admission_id.clone(),
            receipt_id: self.receipt_id.clone(),
        }
    }
}

/// The lifecycle of a Project.
#[derive(Debug, Clone, Copy, PartialEq, Eq)]
pub enum ProjectLifecycle {
    Active,
    Archived,
}

/// The stored lifecycle text of a Project.
pub open spec fn lifecycle_of_text(text: Seq<char>) -> Option<ProjectLifecycle> {
    if text == "active"@ {
        Some(ProjectLifecycle::Active)
    } else if text == "archived"@ {
        Some(ProjectLifecycle::Archived)
    } else {
        None
    }
}

/// Reads a stored Project lifecycle; any other text is unsupported.
pub fn project_lifecycle(text: &str) -> (lifecycle: Option<ProjectLifecycle>)
    ensures
        lifecycle == lifecycle_of_text(text@),
{
    let owned = String::from_str(text);
    let active = String::from_str("active");
    let archived = String::from_str("archived");
    if owned == active {
        Some(ProjectLifecycle::Active)
    } else if owned == archived {
        Some(ProjectLifecycle::Archived)
    } else {
        None
    }
}

/// Whether the stored lifecycle text is `active`.
pub fn is_active_lifecycle(text: &str) -> (active: bool)
    ensures
        active == (text@ == "active"@),
{
    let owned = String::from_str(text);
    let expected = String::from_str("active");
    owned == expected
}

/// How a Chapter named by a command joins the Project.
#[derive(Debug, Clone, Copy, PartialEq, Eq)]
pub enum ChapterJoin {
    ExactScope,
    Invalid,
}

/// What a stored receipt stands for when a replay reads it back: an effect,
/// a binding conflict (no effect of the command records it), or a damaged
/// stored counter.
pub enum ReadBack<V> {
    Effect(V),
    BindingConflict,
    Damaged,
}

/// What the store answered to the last action of a command: the number of
/// rows that a write touched, or the texts of the row that a statement
/// returned.
#[derive(Debug, Clone, PartialEq, Eq)]
pub enum StoreEvent {
    Rows(u64),
    Returned(Vec<String>),
}

/// The result kind and reason that a domain receipt records.
#[derive(Debug, Clone, PartialEq, Eq)]
pub struct ReceiptOutcome {
    pub result_kind: String,
    pub reason: Option<String>,
}

/// A receipt outcome as texts.
pub open spec fn outcome_view(outcome: ReceiptOutcome) -> (Seq<char>, Option<Seq<char>>) {
    (
        outcome.result_kind@,
        match outcome.reason {
            Some(r) => Some(r@),
            None => None,
        },
    )
}

/// The receipt outcome of `kind` with an optional reason.
pub fn receipt_outcome(kind: &str, reason: Option<&str>) -> (outcome: ReceiptOutcome)
    ensures
        outcome_view(outcome) == (kind@, match reason {
            Some(r) => Some(r@),
            None => None::<Seq<char>>,
        }),
{
    ReceiptOutcome {
        result_kind: String::from_str(kind),
        reason: match reason {
            Some(r) => Some(String::from_str(r)),
            None => None,
        },
    }
}

/// The receipt's result payload: `{"reason": ...}` when the outcome has a
/// reason, `{}` otherwise; its `reason` member reads back as the reason.
pub fn receipt_payload(outcome: &ReceiptOutcome) -> (payload: String)
    ensures
        json_text_parses(payload@),
        json_text_field(payload@, "reason"@) == outcome_view(*outcome).1,
{
    let mut fields: Vec<(String, PayloadValue)> = Vec::new();
    match &outcome.reason {
        Some(reason) => {
            fields.push((String::from_str("reason"), PayloadValue::Text(reason.clone())));
        },
        None => {},
    }
    let payload = payload_text(&fields);
    proof {
        reveal_with_fuel(crate::json::payload_map, 2);
        let members = fields@.map_values(|f: (String, PayloadValue)| crate::json::payload_member(f));
        if fields@.len() == 1 {
            assert(members.drop_last() =~= Seq::<(Seq<char>, Option<Seq<char>>)>::empty());
        }
    }
    payload
}

/// The Project Activity position and event id that a replay reports: those
/// of the receipt's activity payload, or `0` and the empty id when the
/// command wrote none.
pub open spec fn replayed_activity(position: Option<Seq<char>>, event_id: Option<Seq<char>>) -> Option<
    (u64, Seq<char>),
> {
    let text = match position {
        Some(p) => p,
        None => "0"@,
    };
    match crate::text::u64_text_value(text) {
        Some(n) => Some(
            (
                n,
                match event_id {
                    Some(e) => e,
                    None => Seq::empty(),
                },
            ),
        ),
        None => None,
    }
}

/// Reads the activity position and event id of a replayed receipt; `None`
/// when the stored position is no counter.
pub fn replay_activity(position: Option<String>, event_id: Option<String>) -> (activity: Option<
    (u64, String),
>)
    ensures
        match activity {
            Some((n, e)) => replayed_activity(text_view(position), text_view(event_id)) == Some(
                (n, e@),
            ),
            None => replayed_activity(text_view(position), text_view(event_id)) is None,
        },
{
    let text = match position {
        Some(p) => p,
        None => String::from_str("0"),
    };
    match crate::text::parse_u64(text.as_str()) {
        Some(n) => Some(
            (
                n,
                match event_id {
                    Some(e) => e,
                    None => String::new(),
                },
            ),
        ),
        None => None,
    }
}

/// An optional text as characters.
pub open spec fn text_view(text: Option<String>) -> Option<Seq<char>> {
    match text {
        Some(t) => Some(t@),
        None => None,
    }
}

/// Whether two texts are equal.
pub fn same_text(a: &str, b: &str) -> (same: bool)
    ensures
        same == (a@ == b@),
{
    String::from_str(a) == String::from_str(b)
}

/// An optional text as characters.
pub open spec fn str_view(text: Option<&str>) -> Option<Seq<char>> {
    match text {
        Some(t) => Some(t@),
        None => None,
    }
}

/// Whether an optional reason is the text `expected`.
pub fn reason_is(reason: Option<&str>, expected: &str) -> (same: bool)
    ensures
        same == (str_view(reason) == Some(expected@)),
{
    match reason {
        Some(r) => same_text(r, expected),
        None => false,
    }
}

} // verus!
