//! Undo Latest Author Action: what the latest uncompensated forward Author
//! Action is, how its classification routes the command, the receipts that
//! the undo writes, and the replay that reads them.

use crate::command::{
    outcome_view, reason_is, receipt_outcome, same_text, str_view, text_view, ProjectCommandChallengeError,
    ReadBack, ReceiptOutcome, UnavailableCause,
};
use crate::digest::{hex_lower, hex_sha256, sha256_of};
use crate::json::{json_text_field, json_text_parses, payload_text, PayloadValue};
use crate::text::{parse_u64, u64_text_value};
use vstd::prelude::*;

verus! {

#[derive(Debug, Clone, PartialEq, Eq)]
pub enum UndoLatestAuthorActionError {
    MissingProject,
    BindingConflict,
    InvalidChallenge,
    Unavailable(UnavailableCause),
}

/// How a challenge failure answers an undo: a rate limit counts as an
/// invalid challenge, an unavailable store passes its text on.
pub fn undo_challenge_error(error: ProjectCommandChallengeError) -> (mapped: UndoLatestAuthorActionError)
    ensures
        mapped == (match error {
            ProjectCommandChallengeError::BindingConflict => UndoLatestAuthorActionError::BindingConflict,
            ProjectCommandChallengeError::InvalidOrExpired => UndoLatestAuthorActionError::InvalidChallenge,
            ProjectCommandChallengeError::RateLimited { .. } => UndoLatestAuthorActionError::InvalidChallenge,
            ProjectCommandChallengeError::Unavailable(source) => UndoLatestAuthorActionError::Unavailable(
                UnavailableCause::Message(source),
            ),
        }),
{
    match error {
        ProjectCommandChallengeError::BindingConflict => UndoLatestAuthorActionError::BindingConflict,
        ProjectCommandChallengeError::InvalidOrExpired => UndoLatestAuthorActionError::InvalidChallenge,
        ProjectCommandChallengeError::RateLimited { .. } => UndoLatestAuthorActionError::InvalidChallenge,
        ProjectCommandChallengeError::Unavailable(source) => UndoLatestAuthorActionError::Unavailable(
            UnavailableCause::Message(source),
        ),
    }
}

/// Why reading the editor session failed.
#[derive(Debug, Clone, PartialEq, Eq)]
pub enum EditorSessionError {
    BindingConflict,
    InvalidChallenge,
    Unavailable(String),
}

/// How an editor session failure answers an undo: a session that no longer
/// binds is a binding conflict.
pub fn undo_from_session(error: EditorSessionError) -> (mapped: UndoLatestAuthorActionError)
    ensures
        mapped == (match error {
            EditorSessionError::BindingConflict => UndoLatestAuthorActionError::BindingConflict,
            EditorSessionError::InvalidChallenge => UndoLatestAuthorActionError::BindingConflict,
            EditorSessionError::Unavailable(source) => UndoLatestAuthorActionError::Unavailable(
                UnavailableCause::Message(source),
            ),
        }),
{
    match error {
        EditorSessionError::BindingConflict => UndoLatestAuthorActionError::BindingConflict,
        EditorSessionError::InvalidChallenge => UndoLatestAuthorActionError::BindingConflict,
        EditorSessionError::Unavailable(source) => UndoLatestAuthorActionError::Unavailable(
            UnavailableCause::Message(source),
        ),
    }
}

/// A damaged stored value: the undo is unavailable, and the message says
/// that a stored undo value is damaged.
fn damaged() -> (error: UndoLatestAuthorActionError)
    ensures
        error matches UndoLatestAuthorActionError::Unavailable(UnavailableCause::Message(message))
            && message@ == "stored undo value is damaged"@,
{
    UndoLatestAuthorActionError::Unavailable(
        UnavailableCause::Message(String::from_str("stored undo value is damaged")),
    )
}

/// The Project row decides whether an undo may go on: a missing Project is
/// refused as missing, a Project that is not active is a binding conflict.
pub fn admit_undo_project(lifecycle: Option<&str>) -> (admitted: Result<(), UndoLatestAuthorActionError>)
    ensures
        match lifecycle {
            None => admitted matches Err(e) && e == UndoLatestAuthorActionError::MissingProject,
            Some(state) => if state@ == "active"@ {
                admitted is Ok
            } else {
                admitted matches Err(e) && e == UndoLatestAuthorActionError::BindingConflict
            },
        },
{
    match lifecycle {
        None => Err(UndoLatestAuthorActionError::MissingProject),
        Some(state) => if same_text(state, "active") {
            Ok(())
        } else {
            Err(UndoLatestAuthorActionError::BindingConflict)
        },
    }
}

/// The stored columns of the latest uncompensated forward Author Action: its
/// sequence, the prose Commit's object, revisions, prior payload and current
/// head, the structural Commit's tree revisions and affected Volume or
/// Chapter, the command kind, and what its activity payload recorded.
pub struct FrontierRow {
    pub author_action_sequence: Option<String>,
    pub manuscript_object_id: Option<String>,
    pub resulting_revision_id: Option<String>,
    pub prior_revision_id: Option<String>,
    pub prior_payload: Option<String>,
    pub current_head_revision_id: Option<String>,
    pub prior_manuscript_tree_revision: Option<String>,
    pub resulting_manuscript_tree_revision: Option<String>,
    pub affected_volume_id: Option<String>,
    pub affected_chapter_id: Option<String>,
    pub command_kind: Option<String>,
    pub prior_title: Option<String>,
    pub prior_order: Option<String>,
    pub prior_current_chapter_id: Option<String>,
    pub current_chapter_id: Option<String>,
}

/// A reversible prose Author Action.
#[derive(Debug, Clone, PartialEq, Eq)]
pub struct ObservedProseFrontier {
    pub sequence: u64,
    pub chapter_id: String,
    pub resulting_revision_id: String,
    pub prior_revision_id: String,
    pub prior_payload: String,
    pub current_head_revision_id: String,
}

/// What a reversible structural Author Action did.
#[derive(Debug, Clone, PartialEq, Eq)]
pub enum ObservedStructureIdentity {
    Volume { volume_id: String },
    VolumeDelete { volume_id: String },
    VolumeUpdate { volume_id: String, prior_title: String, prior_order: u64 },
    Chapter { chapter_id: String },
    ChapterDelete { chapter_id: String, prior_current_chapter_id: Option<String> },
    ChapterUpdate { chapter_id: String, prior_title: String, prior_order: u64 },
}

/// A reversible structural Author Action.
#[derive(Debug, Clone, PartialEq, Eq)]
pub struct ObservedStructureFrontier {
    pub sequence: u64,
    pub prior_manuscript_tree_revision: u64,
    pub resulting_manuscript_tree_revision: u64,
    pub identity: ObservedStructureIdentity,
}

/// The latest uncompensated forward Author Action.
#[derive(Debug, Clone, PartialEq, Eq)]
pub enum ObservedFrontier {
    Prose(ObservedProseFrontier),
    Structure(ObservedStructureFrontier),
    CurrentChapter(ObservedCurrentChapterFrontier),
    Barrier { sequence: u64 },
}

/// Which kind of Author Action the stored columns describe.
#[derive(Debug, Clone, Copy, PartialEq, Eq)]
pub enum FrontierShape {
    Prose,
    Volume,
    VolumeUpdate,
    ChapterUpdate,
    ChapterDelete,
    VolumeDelete,
    CurrentChapter,
    Chapter,
    Barrier,
}

/// An optional stored text is `expected`.
pub open spec fn text_is(text: Option<String>, expected: Seq<char>) -> bool {
    text is Some && text->0@ == expected
}

/// None of the prose Commit's columns is stored.
pub open spec fn no_prose_columns(row: FrontierRow) -> bool {
    &&& row.manuscript_object_id is None
    &&& row.resulting_revision_id is None
    &&& row.prior_revision_id is None
    &&& row.prior_payload is None
    &&& row.current_head_revision_id is None
}

/// Both tree revisions of a structural Commit are stored.
pub open spec fn tree_columns(row: FrontierRow) -> bool {
    row.prior_manuscript_tree_revision is Some && row.resulting_manuscript_tree_revision is Some
}

/// No Commit column is stored: the action wrote no Commit.
pub open spec fn no_commit_columns(row: FrontierRow) -> bool {
    &&& no_prose_columns(row)
    &&& row.prior_manuscript_tree_revision is None
    &&& row.resulting_manuscript_tree_revision is None
    &&& row.affected_volume_id is None
    &&& row.affected_chapter_id is None
}

/// The kind of Author Action that the columns describe: a prose Commit with
/// its prior payload and head; a created or updated Volume; an updated or
/// deleted Chapter; a deleted Volume; a Current Chapter switch, which wrote
/// no Commit and whose activity names the Chapter it replaced and the one it
/// made current; a created Chapter, whose genesis Commit names the Chapter
/// as its manuscript object; anything else is a barrier.
pub open spec fn frontier_shape(row: FrontierRow) -> FrontierShape {
    if row.manuscript_object_id is Some && row.resulting_revision_id is Some && row.prior_revision_id is Some
        && row.prior_payload is Some && row.current_head_revision_id is Some {
        FrontierShape::Prose
    } else if no_prose_columns(row) && tree_columns(row) && row.affected_volume_id is Some
        && row.affected_chapter_id is None && text_is(row.command_kind, "createVolume"@) {
        FrontierShape::Volume
    } else if no_prose_columns(row) && tree_columns(row) && row.affected_volume_id is Some
        && row.affected_chapter_id is None && text_is(row.command_kind, "updateVolume"@)
        && row.prior_title is Some && row.prior_order is Some {
        FrontierShape::VolumeUpdate
    } else if no_prose_columns(row) && tree_columns(row) && row.affected_volume_id is None
        && row.affected_chapter_id is Some && text_is(row.command_kind, "updateChapter"@)
        && row.prior_title is Some && row.prior_order is Some {
        FrontierShape::ChapterUpdate
    } else if no_prose_columns(row) && tree_columns(row) && row.affected_volume_id is None
        && row.affected_chapter_id is Some && text_is(row.command_kind, "deleteChapter"@) {
        FrontierShape::ChapterDelete
    } else if no_prose_columns(row) && tree_columns(row) && row.affected_volume_id is Some
        && row.affected_chapter_id is None && text_is(row.command_kind, "deleteVolume"@) {
        FrontierShape::VolumeDelete
    } else if no_commit_columns(row) && text_is(row.command_kind, "setCurrentChapter"@)
        && row.prior_current_chapter_id is Some && row.current_chapter_id is Some {
        FrontierShape::CurrentChapter
    } else if row.manuscript_object_id is Some && row.resulting_revision_id is Some
        && row.prior_revision_id is None && row.prior_payload is None
        && row.current_head_revision_id is Some && tree_columns(row) && row.affected_volume_id is None
        && row.affected_chapter_id is Some && row.manuscript_object_id->0@
        == row.affected_chapter_id->0@ {
        FrontierShape::Chapter
    } else {
        FrontierShape::Barrier
    }
}

/// What the stored columns give: no frontier, damage, or the frontier.
pub enum FrontierRead {
    Absent,
    Damaged,
    Observed(ObservedFrontier),
}

/// The structural frontier of `row`, once its tree revisions (and, for an
/// update, its prior order) read back.
pub open spec fn structure_of_row(row: FrontierRow, sequence: u64) -> FrontierRead {
    match (
        u64_text_value(row.prior_manuscript_tree_revision->0@),
        u64_text_value(row.resulting_manuscript_tree_revision->0@),
    ) {
        (Some(prior), Some(resulting)) => {
            let structure = |identity: ObservedStructureIdentity|
                FrontierRead::Observed(
                    ObservedFrontier::Structure(
                        ObservedStructureFrontier {
                            sequence,
                            prior_manuscript_tree_revision: prior,
                            resulting_manuscript_tree_revision: resulting,
                            identity,
                        },
                    ),
                );
            match frontier_shape(row) {
                FrontierShape::Volume => structure(
                    ObservedStructureIdentity::Volume { volume_id: row.affected_volume_id->0 },
                ),
                FrontierShape::VolumeUpdate => match u64_text_value(row.prior_order->0@) {
                    Some(order) => structure(
                        ObservedStructureIdentity::VolumeUpdate {
                            volume_id: row.affected_volume_id->0,
                            prior_title: row.prior_title->0,
                            prior_order: order,
                        },
                    ),
                    None => FrontierRead::Damaged,
                },
                FrontierShape::ChapterUpdate => match u64_text_value(row.prior_order->0@) {
                    Some(order) => structure(
                        ObservedStructureIdentity::ChapterUpdate {
                            chapter_id: row.affected_chapter_id->0,
                            prior_title: row.prior_title->0,
                            prior_order: order,
                        },
                    ),
                    None => FrontierRead::Damaged,
                },
                FrontierShape::ChapterDelete => structure(
                    ObservedStructureIdentity::ChapterDelete {
                        chapter_id: row.affected_chapter_id->0,
                        prior_current_chapter_id: row.prior_current_chapter_id,
                    },
                ),
                FrontierShape::VolumeDelete => structure(
                    ObservedStructureIdentity::VolumeDelete { volume_id: row.affected_volume_id->0 },
                ),
                _ => structure(
                    ObservedStructureIdentity::Chapter { chapter_id: row.affected_chapter_id->0 },
                ),
            }
        },
        _ => FrontierRead::Damaged,
    }
}

/// The frontier that the stored columns describe: none without a stored
/// sequence, damage when a stored counter does not read back.
pub open spec fn frontier_of_row(row: FrontierRow) -> FrontierRead {
    match row.author_action_sequence {
        None => FrontierRead::Absent,
        Some(text) => match u64_text_value(text@) {
            None => FrontierRead::Damaged,
            Some(sequence) => match frontier_shape(row) {
                FrontierShape::Prose => FrontierRead::Observed(
                    ObservedFrontier::Prose(
                        ObservedProseFrontier {
                            sequence,
                            chapter_id: row.manuscript_object_id->0,
                            resulting_revision_id: row.resulting_revision_id->0,
                            prior_revision_id: row.prior_revision_id->0,
                            prior_payload: row.prior_payload->0,
                            current_head_revision_id: row.current_head_revision_id->0,
                        },
                    ),
                ),
                FrontierShape::Barrier => FrontierRead::Observed(ObservedFrontier::Barrier { sequence }),
                FrontierShape::CurrentChapter => FrontierRead::Observed(
                    ObservedFrontier::CurrentChapter(
                        ObservedCurrentChapterFrontier {
                            sequence,
                            prior_chapter_id: row.prior_current_chapter_id->0,
                            resulting_chapter_id: row.current_chapter_id->0,
                        },
                    ),
                ),
                _ => structure_of_row(row, sequence),
            },
        },
    }
}

/// Whether an optional stored text is `expected`.
fn stored_text_is(text: &Option<String>, expected: &str) -> (is: bool)
    ensures
        is == text_is(*text, expected@),
{
    match text {
        Some(t) => same_text(t.as_str(), expected),
        None => false,
    }
}

/// The kind of Author Action that the stored columns describe.
pub fn frontier_shape_of(row: &FrontierRow) -> (shape: FrontierShape)
    ensures
        shape == frontier_shape(*row),
{
    let prose_columns = row.manuscript_object_id.is_some() && row.resulting_revision_id.is_some()
        && row.prior_revision_id.is_some() && row.prior_payload.is_some()
        && row.current_head_revision_id.is_some();
    let no_prose = row.manuscript_object_id.is_none() && row.resulting_revision_id.is_none()
        && row.prior_revision_id.is_none() && row.prior_payload.is_none()
        && row.current_head_revision_id.is_none();
    let trees = row.prior_manuscript_tree_revision.is_some()
        && row.resulting_manuscript_tree_revision.is_some();
    let volume_only = row.affected_volume_id.is_some() && row.affected_chapter_id.is_none();
    let chapter_only = row.affected_volume_id.is_none() && row.affected_chapter_id.is_some();
    let prior_values = row.prior_title.is_some() && row.prior_order.is_some();
    if prose_columns {
        FrontierShape::Prose
    } else if no_prose && trees && volume_only && stored_text_is(&row.command_kind, "createVolume") {
        FrontierShape::Volume
    } else if no_prose && trees && volume_only && stored_text_is(&row.command_kind, "updateVolume")
        && prior_values {
        FrontierShape::VolumeUpdate
    } else if no_prose && trees && chapter_only && stored_text_is(&row.command_kind, "updateChapter")
        && prior_values {
        FrontierShape::ChapterUpdate
    } else if no_prose && trees && chapter_only && stored_text_is(&row.command_kind, "deleteChapter") {
        FrontierShape::ChapterDelete
    } else if no_prose && trees && volume_only && stored_text_is(&row.command_kind, "deleteVolume") {
        FrontierShape::VolumeDelete
    } else if no_prose && row.prior_manuscript_tree_revision.is_none()
        && row.resulting_manuscript_tree_revision.is_none() && row.affected_volume_id.is_none()
        && row.affected_chapter_id.is_none() && stored_text_is(&row.command_kind, "setCurrentChapter")
        && row.prior_current_chapter_id.is_some() && row.current_chapter_id.is_some() {
        FrontierShape::CurrentChapter
    } else {
        let genesis = match (&row.manuscript_object_id, &row.affected_chapter_id) {
            (Some(object_id), Some(chapter_id)) => row.resulting_revision_id.is_some()
                && row.prior_revision_id.is_none() && row.prior_payload.is_none()
                && row.current_head_revision_id.is_some() && trees && row.affected_volume_id.is_none()
                && same_text(object_id.as_str(), chapter_id.as_str()),
            _ => false,
        };
        if genesis {
            FrontierShape::Chapter
        } else {
            FrontierShape::Barrier
        }
    }
}

/// The stored counter `text`, which the shape guarantees is present.
fn stored_counter(text: Option<String>) -> (value: Result<u64, UndoLatestAuthorActionError>)
    requires
        text is Some,
    ensures
        match u64_text_value(text->0@) {
            Some(n) => value == Ok::<u64, UndoLatestAuthorActionError>(n),
            None => value matches Err(e) && e is Unavailable,
        },
{
    match text {
        Some(t) => match parse_u64(t.as_str()) {
            Some(n) => Ok(n),
            None => Err(damaged()),
        },
        None => Err(damaged()),
    }
}

/// An optional stored text that the shape guarantees is present.
fn present(text: Option<String>) -> (value: String)
    requires
        text is Some,
    ensures
        value == text->0,
{
    match text {
        Some(t) => t,
        None => String::new(),
    }
}

/// Reads the latest uncompensated forward Author Action from its stored
/// columns: none without a sequence; a damaged counter makes the undo
/// unavailable.
pub fn observed_frontier(row: FrontierRow) -> (observed: Result<
    Option<ObservedFrontier>,
    UndoLatestAuthorActionError,
>)
    ensures
        match frontier_of_row(row) {
            FrontierRead::Absent => observed matches Ok(None),
            FrontierRead::Damaged => observed matches Err(e) && e is Unavailable,
            FrontierRead::Observed(f) => observed matches Ok(Some(g)) && g == f,
        },
{
    let shape = frontier_shape_of(&row);
    let ghost stored = row;
    let FrontierRow {
        author_action_sequence,
        manuscript_object_id,
        resulting_revision_id,
        prior_revision_id,
        prior_payload,
        current_head_revision_id,
        prior_manuscript_tree_revision,
        resulting_manuscript_tree_revision,
        affected_volume_id,
        affected_chapter_id,
        command_kind: _,
        prior_title,
        prior_order,
        prior_current_chapter_id,
        current_chapter_id,
    } = row;
    let sequence = match author_action_sequence {
        None => {
            return Ok(None);
        },
        Some(text) => match parse_u64(text.as_str()) {
            Some(n) => n,
            None => {
                return Err(damaged());
            },
        },
    };
    match shape {
        FrontierShape::Prose => {
            return Ok(
                Some(
                    ObservedFrontier::Prose(
                        ObservedProseFrontier {
                            sequence,
                            chapter_id: present(manuscript_object_id),
                            resulting_revision_id: present(resulting_revision_id),
                            prior_revision_id: present(prior_revision_id),
                            prior_payload: present(prior_payload),
                            current_head_revision_id: present(current_head_revision_id),
                        },
                    ),
                ),
            );
        },
        FrontierShape::Barrier => {
            return Ok(Some(ObservedFrontier::Barrier { sequence }));
        },
        FrontierShape::CurrentChapter => {
            return Ok(
                Some(
                    ObservedFrontier::CurrentChapter(
                        ObservedCurrentChapterFrontier {
                            sequence,
                            prior_chapter_id: present(prior_current_chapter_id),
                            resulting_chapter_id: present(current_chapter_id),
                        },
                    ),
                ),
            );
        },
        _ => {},
    }
    let prior_tree = stored_counter(prior_manuscript_tree_revision)?;
    let resulting_tree = stored_counter(resulting_manuscript_tree_revision)?;
    let identity = match shape {
        FrontierShape::Volume => ObservedStructureIdentity::Volume { volume_id: present(affected_volume_id) },
        FrontierShape::VolumeUpdate => {
            let order = stored_counter(prior_order)?;
            ObservedStructureIdentity::VolumeUpdate {
                volume_id: present(affected_volume_id),
                prior_title: present(prior_title),
                prior_order: order,
            }
        },
        FrontierShape::ChapterUpdate => {
            let order = stored_counter(prior_order)?;
            ObservedStructureIdentity::ChapterUpdate {
                chapter_id: present(affected_chapter_id),
                prior_title: present(prior_title),
                prior_order: order,
            }
        },
        FrontierShape::ChapterDelete => ObservedStructureIdentity::ChapterDelete {
            chapter_id: present(affected_chapter_id),
            prior_current_chapter_id,
        },
        FrontierShape::VolumeDelete => ObservedStructureIdentity::VolumeDelete {
            volume_id: present(affected_volume_id),
        },
        _ => ObservedStructureIdentity::Chapter { chapter_id: present(affected_chapter_id) },
    };
    Ok(
        Some(
            ObservedFrontier::Structure(
                ObservedStructureFrontier {
                    sequence,
                    prior_manuscript_tree_revision: prior_tree,
                    resulting_manuscript_tree_revision: resulting_tree,
                    identity,
                },
            ),
        ),
    )
}


/// The kind of an Author Undo frontier, as the classification reads it.
#[derive(Debug, Clone, PartialEq, Eq)]
pub enum AuthorUndoFrontierKind {
    ReversibleDirectAuthorAction { resulting_revision_id: String },
    ReversibleStructureTransition,
    ReversibleDraftClose,
    DraftSourceUnavailable,
    DraftBindingChanged,
    Barrier,
}

/// The sequence of the frontier.
pub open spec fn frontier_sequence(frontier: ObservedFrontier) -> u64 {
    match frontier {
        ObservedFrontier::Prose(f) => f.sequence,
        ObservedFrontier::Structure(f) => f.sequence,
        ObservedFrontier::CurrentChapter(f) => f.sequence,
        ObservedFrontier::Barrier { sequence } => sequence,
    }
}

/// The kind of the frontier: a prose action is reversible to its resulting
/// revision, a structural one is a reversible transition, anything else a
/// barrier.
pub open spec fn frontier_kind(frontier: ObservedFrontier) -> AuthorUndoFrontierKind {
    match frontier {
        ObservedFrontier::Prose(f) => AuthorUndoFrontierKind::ReversibleDirectAuthorAction {
            resulting_revision_id: f.resulting_revision_id,
        },
        ObservedFrontier::Structure(_) => AuthorUndoFrontierKind::ReversibleStructureTransition,
        ObservedFrontier::CurrentChapter(_) => AuthorUndoFrontierKind::ReversibleStructureTransition,
        ObservedFrontier::Barrier { .. } => AuthorUndoFrontierKind::Barrier,
    }
}

/// The current head of the frontier's Chapter, which only a prose frontier
/// has.
pub open spec fn frontier_prose_head(frontier: ObservedFrontier) -> Option<Seq<char>> {
    match frontier {
        ObservedFrontier::Prose(f) => Some(f.current_head_revision_id@),
        _ => None,
    }
}

impl ObservedFrontier {
    /// The sequence of the frontier.
    pub fn sequence(&self) -> (sequence: u64)
        ensures
            sequence == frontier_sequence(*self),
    {
        match self {
            ObservedFrontier::Prose(frontier) => frontier.sequence,
            ObservedFrontier::Structure(frontier) => frontier.sequence,
            ObservedFrontier::CurrentChapter(frontier) => frontier.sequence,
            ObservedFrontier::Barrier { sequence } => *sequence,
        }
    }

    /// The kind of the frontier.
    pub fn kind(&self) -> (kind: AuthorUndoFrontierKind)
        ensures
            kind == frontier_kind(*self),
    {
        match self {
            ObservedFrontier::Prose(frontier) => AuthorUndoFrontierKind::ReversibleDirectAuthorAction {
                resulting_revision_id: frontier.resulting_revision_id.clone(),
            },
            ObservedFrontier::Structure(_) => AuthorUndoFrontierKind::ReversibleStructureTransition,
            ObservedFrontier::CurrentChapter(_) => AuthorUndoFrontierKind::ReversibleStructureTransition,
            ObservedFrontier::Barrier { .. } => AuthorUndoFrontierKind::Barrier,
        }
    }

    /// The current head of the frontier's Chapter, if it is a prose frontier.
    pub fn prose_head(&self) -> (head: Option<&str>)
        ensures
            match head {
                Some(h) => frontier_prose_head(*self) == Some(h@),
                None => frontier_prose_head(*self) is None,
            },
    {
        match self {
            ObservedFrontier::Prose(frontier) => Some(frontier.current_head_revision_id.as_str()),
            ObservedFrontier::Structure(_) => None,
            ObservedFrontier::CurrentChapter(_) => None,
            ObservedFrontier::Barrier { .. } => None,
        }
    }
}

/// An Author Undo frontier as the classification reads it.
#[derive(Debug, Clone, PartialEq, Eq)]
pub struct AuthorUndoFrontier {
    pub sequence: u64,
    pub kind: AuthorUndoFrontierKind,
}

/// What the undo classification is given.
#[derive(Debug, Clone, PartialEq, Eq)]
pub struct UndoClassificationInput {
    pub expected_author_undo_frontier_sequence: u64,
    pub current_author_undo_frontier: Option<AuthorUndoFrontier>,
    pub expected_head_revision_id: String,
    pub current_head_revision_id: String,
}

/// The classification input of an undo: the frontier that the command
/// expected and the one observed, and the head that the command expected
/// against the observed prose head (empty without one).
pub fn undo_classification_input(
    expected_author_undo_frontier_sequence: u64,
    observed: &Option<ObservedFrontier>,
    expected_head_revision_id: &str,
) -> (input: UndoClassificationInput)
    ensures
        input.expected_author_undo_frontier_sequence == expected_author_undo_frontier_sequence,
        input.expected_head_revision_id@ == expected_head_revision_id@,
        match observed {
            Some(f) => input.current_author_undo_frontier == Some(
                AuthorUndoFrontier { sequence: frontier_sequence(*f), kind: frontier_kind(*f) },
            ) && match frontier_prose_head(*f) {
                Some(h) => input.current_head_revision_id@ == h,
                None => input.current_head_revision_id@.len() == 0,
            },
            None => input.current_author_undo_frontier is None && input.current_head_revision_id@.len()
                == 0,
        },
{
    let (current, head) = match observed {
        Some(frontier) => {
            let head = match frontier.prose_head() {
                Some(h) => String::from_str(h),
                None => String::new(),
            };
            (Some(AuthorUndoFrontier { sequence: frontier.sequence(), kind: frontier.kind() }), head)
        },
        None => (None, String::new()),
    };
    UndoClassificationInput {
        expected_author_undo_frontier_sequence,
        current_author_undo_frontier: current,
        expected_head_revision_id: String::from_str(expected_head_revision_id),
        current_head_revision_id: head,
    }
}

/// The Chapter and expected revision that the undo admission records: those
/// of a prose frontier, none otherwise.
pub fn undo_admission_targets(observed: &Option<ObservedFrontier>) -> (targets: (
    Option<String>,
    Option<String>,
))
    ensures
        match observed {
            Some(ObservedFrontier::Prose(f)) => targets.0 == Some(f.chapter_id) && targets.1 == Some(
                f.resulting_revision_id,
            ),
            _ => targets.0 is None && targets.1 is None,
        },
{
    match observed {
        Some(ObservedFrontier::Prose(frontier)) => (
            Some(frontier.chapter_id.clone()),
            Some(frontier.resulting_revision_id.clone()),
        ),
        _ => (None, None),
    }
}

/// Why an undo conflicts.
#[derive(Debug, Clone, Copy, PartialEq, Eq)]
pub enum UndoLatestAuthorActionConflict {
    FrontierMismatch { current_author_undo_frontier_sequence: Option<u64> },
    WrongTargetHead,
}

/// Why no undo is available.
#[derive(Debug, Clone, Copy, PartialEq, Eq)]
pub enum UndoLatestAuthorActionUnavailable {
    NoFrontier,
    Barrier,
}

/// The classification of an undo.
#[derive(Debug, Clone, Copy, PartialEq, Eq)]
pub enum UndoLatestAuthorActionResult {
    Compensated { source_sequence: u64 },
    Conflicted { reason: UndoLatestAuthorActionConflict },
    Unavailable { reason: UndoLatestAuthorActionUnavailable },
}

/// What a settled undo did.
#[derive(Debug, Clone, PartialEq, Eq)]
pub enum UndoLatestAuthorActionSettlementEffect {
    Compensated {
        source_sequence: u64,
        author_action_sequence: u64,
        authoritative_commit_id: String,
        revision_id: String,
        author_undo_frontier_sequence: Option<u64>,
    },
    CompensatedStructure {
        source_sequence: u64,
        author_action_sequence: u64,
        authoritative_commit_id: String,
        snapshot_id: String,
        author_undo_frontier_sequence: Option<u64>,
    },
    CompensatedCurrentChapter {
        source_sequence: u64,
        author_action_sequence: u64,
        snapshot_id: String,
        author_undo_frontier_sequence: Option<u64>,
    },
    Conflicted { reason: UndoLatestAuthorActionConflict },
    Unavailable { reason: UndoLatestAuthorActionUnavailable },
}

/// Where a classified undo goes.
#[derive(Debug, Clone, PartialEq, Eq)]
pub enum UndoRoute {
    /// Compensate the frontier, the Author Action `source_sequence`.
    Compensate { source_sequence: u64 },
    /// Settle without authority: record `outcome` with `head` as the prior
    /// and resulting head, and answer with `effect`.
    ZeroAuthority { outcome: ReceiptOutcome, head: String, effect: UndoLatestAuthorActionSettlementEffect },
}

/// The result kind and reason that a zero-authority classification records.
pub open spec fn zero_authority_outcome(classified: UndoLatestAuthorActionResult) -> Option<
    (Seq<char>, Option<Seq<char>>),
> {
    match classified {
        UndoLatestAuthorActionResult::Compensated { .. } => None,
        UndoLatestAuthorActionResult::Conflicted { reason } => match reason {
            UndoLatestAuthorActionConflict::FrontierMismatch { .. } => Some(
                ("conflicted"@, Some("frontier_mismatch"@)),
            ),
            UndoLatestAuthorActionConflict::WrongTargetHead => Some(
                ("conflicted"@, Some("wrong_target_head"@)),
            ),
        },
        UndoLatestAuthorActionResult::Unavailable { reason } => match reason {
            UndoLatestAuthorActionUnavailable::NoFrontier => Some(("refused"@, Some("no_frontier"@))),
            UndoLatestAuthorActionUnavailable::Barrier => Some(("refused"@, Some("barrier"@))),
        },
    }
}

/// The effect of a zero-authority classification.
pub open spec fn zero_authority_effect(classified: UndoLatestAuthorActionResult) -> UndoLatestAuthorActionSettlementEffect {
    match classified {
        UndoLatestAuthorActionResult::Conflicted { reason } => UndoLatestAuthorActionSettlementEffect::Conflicted {
            reason,
        },
        UndoLatestAuthorActionResult::Unavailable { reason } => UndoLatestAuthorActionSettlementEffect::Unavailable {
            reason,
        },
        UndoLatestAuthorActionResult::Compensated { .. } => UndoLatestAuthorActionSettlementEffect::Unavailable {
            reason: UndoLatestAuthorActionUnavailable::NoFrontier,
        },
    }
}

/// Routes a classified undo: a compensation needs an observed frontier (else
/// the command no longer binds); a conflict or refusal settles without
/// authority at the observed prose head, or at the expected head without
/// one.
pub fn route_undo(
    classified: UndoLatestAuthorActionResult,
    observed: &Option<ObservedFrontier>,
    expected_head_revision_id: &str,
) -> (route: Result<UndoRoute, UndoLatestAuthorActionError>)
    ensures
        match classified {
            UndoLatestAuthorActionResult::Compensated { source_sequence } => if observed is Some {
                route matches Ok(r) && r == UndoRoute::Compensate { source_sequence }
            } else {
                route matches Err(e) && e == UndoLatestAuthorActionError::BindingConflict
            },
            _ => route matches Ok(UndoRoute::ZeroAuthority { outcome, head, effect })
                && zero_authority_outcome(classified) == Some(outcome_view(outcome)) && effect
                == zero_authority_effect(classified) && match observed {
                Some(f) => match frontier_prose_head(*f) {
                    Some(h) => head@ == h,
                    None => head@ == expected_head_revision_id@,
                },
                None => head@ == expected_head_revision_id@,
            },
        },
{
    let (outcome, effect) = match classified {
        UndoLatestAuthorActionResult::Compensated { source_sequence } => {
            if observed.is_some() {
                return Ok(UndoRoute::Compensate { source_sequence });
            } else {
                return Err(UndoLatestAuthorActionError::BindingConflict);
            }
        },
        UndoLatestAuthorActionResult::Conflicted { reason } => {
            let reason_text = match reason {
                UndoLatestAuthorActionConflict::FrontierMismatch { .. } => "frontier_mismatch",
                UndoLatestAuthorActionConflict::WrongTargetHead => "wrong_target_head",
            };
            (
                receipt_outcome("conflicted", Some(reason_text)),
                UndoLatestAuthorActionSettlementEffect::Conflicted { reason },
            )
        },
        UndoLatestAuthorActionResult::Unavailable { reason } => {
            let reason_text = match reason {
                UndoLatestAuthorActionUnavailable::NoFrontier => "no_frontier",
                UndoLatestAuthorActionUnavailable::Barrier => "barrier",
            };
            (
                receipt_outcome("refused", Some(reason_text)),
                UndoLatestAuthorActionSettlementEffect::Unavailable { reason },
            )
        },
    };
    let head = match observed {
        Some(frontier) => match frontier.prose_head() {
            Some(h) => String::from_str(h),
            None => String::from_str(expected_head_revision_id),
        },
        None => String::from_str(expected_head_revision_id),
    };
    Ok(UndoRoute::ZeroAuthority { outcome, head, effect })
}

/// The effect that a stored undo receipt stands for, from its result kind
/// and reason, the compensating Author Action and Commit it joins, and the
/// Author Undo frontier as it stands now: a frontier mismatch reads back
/// with the current frontier.
pub open spec fn undo_effect_of_receipt(
    result_kind: Seq<char>,
    reason: Option<Seq<char>>,
    source_sequence: Option<Seq<char>>,
    author_action_sequence: Option<Seq<char>>,
    authoritative_commit_id: Option<Seq<char>>,
    revision_id: Option<Seq<char>>,
    stored_payload: Option<Seq<char>>,
    chapter_id: Option<Seq<char>>,
    current_frontier: Option<u64>,
) -> ReadBack<UndoEffectView> {
    if result_kind == "authoritative_applied"@ && reason is None {
        if revision_id is None || stored_payload is None || chapter_id is None
            || source_sequence is None {
            ReadBack::BindingConflict
        } else {
            match u64_text_value(source_sequence->0) {
                None => ReadBack::Damaged,
                Some(source) => match author_action_sequence {
                    None => ReadBack::BindingConflict,
                    Some(action_text) => match u64_text_value(action_text) {
                        None => ReadBack::Damaged,
                        Some(action) => match authoritative_commit_id {
                            None => ReadBack::BindingConflict,
                            Some(commit) => ReadBack::Effect(
                                UndoEffectView::Compensated {
                                    source_sequence: source,
                                    author_action_sequence: action,
                                    authoritative_commit_id: commit,
                                    revision_id: revision_id->0,
                                    author_undo_frontier_sequence: current_frontier,
                                },
                            ),
                        },
                    },
                },
            }
        }
    } else if result_kind == "conflicted"@ && reason == Some("frontier_mismatch"@) {
        ReadBack::Effect(
            UndoEffectView::Conflicted {
                reason: UndoLatestAuthorActionConflict::FrontierMismatch {
                    current_author_undo_frontier_sequence: current_frontier,
                },
            },
        )
    } else if result_kind == "conflicted"@ && reason == Some("wrong_target_head"@) {
        ReadBack::Effect(
            UndoEffectView::Conflicted { reason: UndoLatestAuthorActionConflict::WrongTargetHead },
        )
    } else if result_kind == "refused"@ && reason == Some("no_frontier"@) {
        ReadBack::Effect(
            UndoEffectView::Unavailable { reason: UndoLatestAuthorActionUnavailable::NoFrontier },
        )
    } else if result_kind == "refused"@ && reason == Some("barrier"@) {
        ReadBack::Effect(
            UndoEffectView::Unavailable { reason: UndoLatestAuthorActionUnavailable::Barrier },
        )
    } else {
        ReadBack::BindingConflict
    }
}

/// An undo effect with its texts as characters.
pub enum UndoEffectView {
    Compensated {
        source_sequence: u64,
        author_action_sequence: u64,
        authoritative_commit_id: Seq<char>,
        revision_id: Seq<char>,
        author_undo_frontier_sequence: Option<u64>,
    },
    CompensatedStructure {
        source_sequence: u64,
        author_action_sequence: u64,
        authoritative_commit_id: Seq<char>,
        snapshot_id: Seq<char>,
        author_undo_frontier_sequence: Option<u64>,
    },
    CompensatedCurrentChapter {
        source_sequence: u64,
        author_action_sequence: u64,
        snapshot_id: Seq<char>,
        author_undo_frontier_sequence: Option<u64>,
    },
    Conflicted { reason: UndoLatestAuthorActionConflict },
    Unavailable { reason: UndoLatestAuthorActionUnavailable },
}

pub open spec fn undo_effect_view(effect: UndoLatestAuthorActionSettlementEffect) -> UndoEffectView {
    match effect {
        UndoLatestAuthorActionSettlementEffect::Compensated {
            source_sequence,
            author_action_sequence,
            authoritative_commit_id,
            revision_id,
            author_undo_frontier_sequence,
        } => UndoEffectView::Compensated {
            source_sequence,
            author_action_sequence,
            authoritative_commit_id: authoritative_commit_id@,
            revision_id: revision_id@,
            author_undo_frontier_sequence,
        },
        UndoLatestAuthorActionSettlementEffect::CompensatedStructure {
            source_sequence,
            author_action_sequence,
            authoritative_commit_id,
            snapshot_id,
            author_undo_frontier_sequence,
        } => UndoEffectView::CompensatedStructure {
            source_sequence,
            author_action_sequence,
            authoritative_commit_id: authoritative_commit_id@,
            snapshot_id: snapshot_id@,
            author_undo_frontier_sequence,
        },
        UndoLatestAuthorActionSettlementEffect::CompensatedCurrentChapter {
            source_sequence,
            author_action_sequence,
            snapshot_id,
            author_undo_frontier_sequence,
        } => UndoEffectView::CompensatedCurrentChapter {
            source_sequence,
            author_action_sequence,
            snapshot_id: snapshot_id@,
            author_undo_frontier_sequence,
        },
        UndoLatestAuthorActionSettlementEffect::Conflicted { reason } => UndoEffectView::Conflicted {
            reason,
        },
        UndoLatestAuthorActionSettlementEffect::Unavailable { reason } => UndoEffectView::Unavailable {
            reason,
        },
    }
}

/// An optional counter text that must be present.
fn required_counter(text: Option<String>) -> (value: Result<u64, UndoLatestAuthorActionError>)
    ensures
        match text {
            None => value matches Err(e) && e == UndoLatestAuthorActionError::BindingConflict,
            Some(t) => match u64_text_value(t@) {
                Some(n) => value == Ok::<u64, UndoLatestAuthorActionError>(n),
                None => value matches Err(e) && e is Unavailable,
            },
        },
{
    match text {
        None => Err(UndoLatestAuthorActionError::BindingConflict),
        Some(t) => match parse_u64(t.as_str()) {
            Some(n) => Ok(n),
            None => Err(damaged()),
        },
    }
}

/// Reads back the effect of a settled undo receipt; a receipt that stands
/// for no effect is a binding conflict and a damaged counter makes the
/// replay unavailable.
pub fn read_undo_effect(
    result_kind: &str,
    reason: Option<&str>,
    source_sequence: Option<String>,
    author_action_sequence: Option<String>,
    authoritative_commit_id: Option<String>,
    revision_id: Option<String>,
    stored_payload: Option<String>,
    chapter_id: Option<String>,
    current_frontier: Option<u64>,
) -> (effect: Result<UndoLatestAuthorActionSettlementEffect, UndoLatestAuthorActionError>)
    ensures
        match undo_effect_of_receipt(
            result_kind@,
            str_view(reason),
            text_view(source_sequence),
            text_view(author_action_sequence),
            text_view(authoritative_commit_id),
            text_view(revision_id),
            text_view(stored_payload),
            text_view(chapter_id),
            current_frontier,
        ) {
            ReadBack::Effect(v) => effect matches Ok(e) && undo_effect_view(e) == v,
            ReadBack::BindingConflict => effect matches Err(e) && e
                == UndoLatestAuthorActionError::BindingConflict,
            ReadBack::Damaged => effect matches Err(e) && e is Unavailable,
        },
{
    if same_text(result_kind, "authoritative_applied") && reason.is_none() {
        let revision_id = match revision_id {
            Some(r) => r,
            None => {
                return Err(UndoLatestAuthorActionError::BindingConflict);
            },
        };
        if stored_payload.is_none() || chapter_id.is_none() {
            return Err(UndoLatestAuthorActionError::BindingConflict);
        }
        let source_sequence = required_counter(source_sequence)?;
        let author_action_sequence = required_counter(author_action_sequence)?;
        let authoritative_commit_id = match authoritative_commit_id {
            Some(c) => c,
            None => {
                return Err(UndoLatestAuthorActionError::BindingConflict);
            },
        };
        Ok(
            UndoLatestAuthorActionSettlementEffect::Compensated {
                source_sequence,
                author_action_sequence,
                authoritative_commit_id,
                revision_id,
                author_undo_frontier_sequence: current_frontier,
            },
        )
    } else if same_text(result_kind, "conflicted") && reason_is(reason, "frontier_mismatch") {
        Ok(
            UndoLatestAuthorActionSettlementEffect::Conflicted {
                reason: UndoLatestAuthorActionConflict::FrontierMismatch {
                    current_author_undo_frontier_sequence: current_frontier,
                },
            },
        )
    } else if same_text(result_kind, "conflicted") && reason_is(reason, "wrong_target_head") {
        Ok(
            UndoLatestAuthorActionSettlementEffect::Conflicted {
                reason: UndoLatestAuthorActionConflict::WrongTargetHead,
            },
        )
    } else if same_text(result_kind, "refused") && reason_is(reason, "no_frontier") {
        Ok(
            UndoLatestAuthorActionSettlementEffect::Unavailable {
                reason: UndoLatestAuthorActionUnavailable::NoFrontier,
            },
        )
    } else if same_text(result_kind, "refused") && reason_is(reason, "barrier") {
        Ok(
            UndoLatestAuthorActionSettlementEffect::Unavailable {
                reason: UndoLatestAuthorActionUnavailable::Barrier,
            },
        )
    } else {
        Err(UndoLatestAuthorActionError::BindingConflict)
    }
}

/// The activity position that a replay reports: the stored one, or `0` when
/// the undo wrote no activity.
pub fn replayed_activity_position(position: Option<String>) -> (value: Result<u64, UndoLatestAuthorActionError>)
    ensures
        match position {
            None => value == Ok::<u64, UndoLatestAuthorActionError>(0),
            Some(t) => match u64_text_value(t@) {
                Some(n) => value == Ok::<u64, UndoLatestAuthorActionError>(n),
                None => value matches Err(e) && e is Unavailable,
            },
        },
{
    match position {
        None => Ok(0),
        Some(t) => match parse_u64(t.as_str()) {
            Some(n) => Ok(n),
            None => Err(damaged()),
        },
    }
}

/// Law: a replay of a zero-authority undo reads back the effect that its
/// first use settled, as long as the Author Undo frontier has not moved
/// since (a frontier mismatch reads back with the frontier as it stands).
pub proof fn lemma_zero_authority_replay(classified: UndoLatestAuthorActionResult, current_frontier: Option<u64>)
    requires
        zero_authority_outcome(classified) is Some,
        classified matches UndoLatestAuthorActionResult::Conflicted {
            reason: UndoLatestAuthorActionConflict::FrontierMismatch { current_author_undo_frontier_sequence },
        } ==> current_author_undo_frontier_sequence == current_frontier,
    ensures
        ({
            let (kind, reason) = zero_authority_outcome(classified)->0;
            undo_effect_of_receipt(kind, reason, None, None, None, None, None, None, current_frontier)
                == ReadBack::Effect(undo_effect_view(zero_authority_effect(classified)))
        }),
{
    reveal_strlit("authoritative_applied");
    assert("authoritative_applied"@.len() == 21);
    reveal_strlit("conflicted");
    assert("conflicted"@.len() == 10);
    reveal_strlit("refused");
    assert("refused"@.len() == 7);
    reveal_strlit("frontier_mismatch");
    assert("frontier_mismatch"@.len() == 17);
    reveal_strlit("wrong_target_head");
    assert("wrong_target_head"@.len() == 17);
    assert("frontier_mismatch"@[0] != "wrong_target_head"@[0]);
    reveal_strlit("no_frontier");
    assert("no_frontier"@.len() == 11);
    reveal_strlit("barrier");
    assert("barrier"@.len() == 7);
}

/// The Commit binding of a structural compensation: it runs the forward
/// transition backwards, from its resulting tree revision to its prior one,
/// and names the Volume or Chapter that the transition affected.
pub fn structure_compensation_binding(frontier: &ObservedStructureFrontier) -> (binding:
    crate::structural_authority::StructureCommitBinding)
    ensures
        (binding.prior_manuscript_tree_revision, binding.resulting_manuscript_tree_revision)
            == reversed_transition(
            (frontier.prior_manuscript_tree_revision, frontier.resulting_manuscript_tree_revision),
        ),
        binding.identity == (match frontier.identity {
            ObservedStructureIdentity::Volume { volume_id } =>
                crate::structural_authority::StructureAffectedIdentity::Volume { volume_id },
            ObservedStructureIdentity::VolumeDelete { volume_id } =>
                crate::structural_authority::StructureAffectedIdentity::Volume { volume_id },
            ObservedStructureIdentity::VolumeUpdate { volume_id, .. } =>
                crate::structural_authority::StructureAffectedIdentity::Volume { volume_id },
            ObservedStructureIdentity::Chapter { chapter_id } =>
                crate::structural_authority::StructureAffectedIdentity::Chapter { chapter_id },
            ObservedStructureIdentity::ChapterDelete { chapter_id, .. } =>
                crate::structural_authority::StructureAffectedIdentity::Chapter { chapter_id },
            ObservedStructureIdentity::ChapterUpdate { chapter_id, .. } =>
                crate::structural_authority::StructureAffectedIdentity::Chapter { chapter_id },
        }),
{
    let identity = match &frontier.identity {
        ObservedStructureIdentity::Volume { volume_id } =>
            crate::structural_authority::StructureAffectedIdentity::Volume { volume_id: volume_id.clone() },
        ObservedStructureIdentity::VolumeDelete { volume_id } =>
            crate::structural_authority::StructureAffectedIdentity::Volume { volume_id: volume_id.clone() },
        ObservedStructureIdentity::VolumeUpdate { volume_id, .. } =>
            crate::structural_authority::StructureAffectedIdentity::Volume { volume_id: volume_id.clone() },
        ObservedStructureIdentity::Chapter { chapter_id } =>
            crate::structural_authority::StructureAffectedIdentity::Chapter { chapter_id: chapter_id.clone() },
        ObservedStructureIdentity::ChapterDelete { chapter_id, .. } =>
            crate::structural_authority::StructureAffectedIdentity::Chapter { chapter_id: chapter_id.clone() },
        ObservedStructureIdentity::ChapterUpdate { chapter_id, .. } =>
            crate::structural_authority::StructureAffectedIdentity::Chapter { chapter_id: chapter_id.clone() },
    };
    crate::structural_authority::StructureCommitBinding {
        prior_manuscript_tree_revision: frontier.resulting_manuscript_tree_revision,
        resulting_manuscript_tree_revision: frontier.prior_manuscript_tree_revision,
        identity,
    }
}

/// What undoing a structural Author Action puts back besides the tree
/// revision.
#[derive(Debug, Clone, PartialEq, Eq)]
pub enum StructureRestore {
    /// A created Volume is removed again, by a removal decision at the tree
    /// revision from before its creation.
    RemoveVolume { volume_id: String, tree_revision: u64 },
    /// A deleted Volume comes back: its removal decision is withdrawn, and
    /// the storage key it kept puts it back in its place.
    ReviveVolume { volume_id: String },
    /// An updated Volume takes back its prior title and sibling place.
    RestoreVolume { volume_id: String, title: String, order: u64 },
    /// A created Chapter is removed again, by a removal decision at the tree
    /// revision from before its creation.
    RemoveChapter { chapter_id: String, tree_revision: u64 },
    /// A deleted Chapter comes back, and the Chapter that was current before
    /// the deletion is current again.
    ReviveChapter { chapter_id: String, current_chapter_id: Option<String> },
    /// An updated Chapter takes back its prior title and sibling place.
    RestoreChapter { chapter_id: String, title: String, order: u64 },
}

/// What undoing `frontier` puts back: each kind of structural action is
/// undone by its inverse, with the title, order, Current Chapter or tree
/// revision that the action recorded from before it.
pub open spec fn restore_of(frontier: ObservedStructureFrontier) -> StructureRestore {
    match frontier.identity {
        ObservedStructureIdentity::Volume { volume_id } => StructureRestore::RemoveVolume {
            volume_id,
            tree_revision: frontier.prior_manuscript_tree_revision,
        },
        ObservedStructureIdentity::VolumeDelete { volume_id } => StructureRestore::ReviveVolume { volume_id },
        ObservedStructureIdentity::VolumeUpdate { volume_id, prior_title, prior_order } =>
            StructureRestore::RestoreVolume { volume_id, title: prior_title, order: prior_order },
        ObservedStructureIdentity::Chapter { chapter_id } => StructureRestore::RemoveChapter {
            chapter_id,
            tree_revision: frontier.prior_manuscript_tree_revision,
        },
        ObservedStructureIdentity::ChapterDelete { chapter_id, prior_current_chapter_id } =>
            StructureRestore::ReviveChapter { chapter_id, current_chapter_id: prior_current_chapter_id },
        ObservedStructureIdentity::ChapterUpdate { chapter_id, prior_title, prior_order } =>
            StructureRestore::RestoreChapter { chapter_id, title: prior_title, order: prior_order },
    }
}

/// The rows that undoing a structural Author Action restores.
pub fn structure_restore(frontier: &ObservedStructureFrontier) -> (restore: StructureRestore)
    ensures
        restore == restore_of(*frontier),
{
    match &frontier.identity {
        ObservedStructureIdentity::Volume { volume_id } => StructureRestore::RemoveVolume {
            volume_id: volume_id.clone(),
            tree_revision: frontier.prior_manuscript_tree_revision,
        },
        ObservedStructureIdentity::VolumeDelete { volume_id } => StructureRestore::ReviveVolume {
            volume_id: volume_id.clone(),
        },
        ObservedStructureIdentity::VolumeUpdate { volume_id, prior_title, prior_order } =>
            StructureRestore::RestoreVolume {
            volume_id: volume_id.clone(),
            title: prior_title.clone(),
            order: *prior_order,
        },
        ObservedStructureIdentity::Chapter { chapter_id } => StructureRestore::RemoveChapter {
            chapter_id: chapter_id.clone(),
            tree_revision: frontier.prior_manuscript_tree_revision,
        },
        ObservedStructureIdentity::ChapterDelete { chapter_id, prior_current_chapter_id } =>
            StructureRestore::ReviveChapter {
            chapter_id: chapter_id.clone(),
            current_chapter_id: match prior_current_chapter_id {
                Some(c) => Some(c.clone()),
                None => None,
            },
        },
        ObservedStructureIdentity::ChapterUpdate { chapter_id, prior_title, prior_order } =>
            StructureRestore::RestoreChapter {
            chapter_id: chapter_id.clone(),
            title: prior_title.clone(),
            order: *prior_order,
        },
    }
}

/// The zero-based place of `id` among the live siblings, its first one.
pub open spec fn sibling_place(ids: Seq<String>, id: Seq<char>) -> Option<int> {
    if exists|i: int| 0 <= i < ids.len() && (#[trigger] ids[i])@ == id {
        Some(choose|i: int| 0 <= i < ids.len() && (#[trigger] ids[i])@ == id && forall|j: int| 0 <= j < i ==> (#[trigger] ids[j])@ != id)
    } else {
        None
    }
}

/// The ranks that put a restored sibling back at one-based `prior_order`
/// among the live siblings: the sibling moves from its place to the prior
/// one and the others close up, as `reordered_sibling_ranks` writes them;
/// `None` when it is already there. An id that is no live sibling, or a
/// prior place beyond the live siblings, puts nothing back: the restore is
/// refused.
pub fn restored_sibling_ranks(live_ids: &Vec<String>, id: &str, prior_order: u64) -> (ranks: Result<
    Option<Vec<(String, u64)>>,
    UndoLatestAuthorActionError,
>)
    ensures
        match sibling_place(live_ids@, id@) {
            Some(place) => if 1 <= prior_order <= live_ids@.len() {
                &&& ranks is Ok
                &&& (place + 1 == prior_order <==> ranks matches Ok(None))
                &&& ranks matches Ok(Some(r)) ==> {
                    &&& r@.len() == live_ids@.len()
                    &&& forall|i: int|
                        0 <= i < r@.len() ==> #[trigger] r@[i] == (
                            crate::tree_order::moved_order(live_ids@, place, prior_order - 1)[i],
                            (i + 1) as u64,
                        )
                }
            } else {
                ranks matches Err(e) && e is Unavailable
            },
            None => ranks matches Err(e) && e is Unavailable,
        },
{
    let mut index: usize = 0;
    let mut place: Option<usize> = None;
    while index < live_ids.len()
        invariant
            index <= live_ids@.len(),
            place is None ==> forall|j: int| 0 <= j < index ==> (#[trigger] live_ids@[j])@ != id@,
            place matches Some(p) ==> p < live_ids@.len() && live_ids@[p as int]@ == id@ && forall|j: int|
                0 <= j < p ==> (#[trigger] live_ids@[j])@ != id@,
        decreases live_ids@.len() - index,
    {
        if place.is_none() && same_text(live_ids[index].as_str(), id) {
            place = Some(index);
        }
        index = index + 1;
    }
    match place {
        None => {
            proof {
                assert(!(exists|i: int| 0 <= i < live_ids@.len() && (#[trigger] live_ids@[i])@ == id@));
            }
            Err(damaged_tree())
        },
        Some(p) => {
            proof {
                let q = p as int;
                assert(0 <= q < live_ids@.len() && live_ids@[q]@ == id@);
                let c = choose|i: int| 0 <= i < live_ids@.len() && (#[trigger] live_ids@[i])@ == id@ && forall|j: int| 0 <= j < i ==> (#[trigger] live_ids@[j])@ != id@;
                assert(c == q) by {
                    if c < q {
                        assert(live_ids@[c]@ != id@);
                    } else if c > q {
                        assert(live_ids@[q]@ != id@);
                    }
                }
            }
            if prior_order < 1 || prior_order > live_ids.len() as u64 {
                return Err(damaged_tree());
            }
            Ok(crate::tree_order::reordered_sibling_ranks(live_ids, (p + 1) as u64, prior_order))
        },
    }
}

/// Law: undo takes back what an Update Chapter recorded. When the latest
/// uncompensated Author Action is an Update Chapter whose Commit stored its
/// sequence and tree revisions in decimal and whose activity payload stored
/// the prior title and order (as `chapter_updated_payload` writes them), the
/// undo observes that action and restores that Chapter's prior title and
/// order, running the tree revision back from the resulting to the prior one.
pub proof fn lemma_undo_takes_back_update_chapter(
    row: FrontierRow,
    sequence: u64,
    prior_tree_revision: u64,
    resulting_tree_revision: u64,
    chapter_id: Seq<char>,
    prior_title: Seq<char>,
    prior_order: u64,
)
    requires
        text_view(row.author_action_sequence) == Some(crate::text::decimal_text(sequence as nat)),
        no_prose_columns(row),
        text_view(row.prior_manuscript_tree_revision) == Some(crate::text::decimal_text(prior_tree_revision as nat)),
        text_view(row.resulting_manuscript_tree_revision) == Some(
            crate::text::decimal_text(resulting_tree_revision as nat),
        ),
        row.affected_volume_id is None,
        text_view(row.affected_chapter_id) == Some(chapter_id),
        text_is(row.command_kind, "updateChapter"@),
        text_view(row.prior_title) == Some(prior_title),
        text_view(row.prior_order) == Some(crate::text::decimal_text(prior_order as nat)),
    ensures
        frontier_of_row(row) matches FrontierRead::Observed(ObservedFrontier::Structure(f)) && {
            &&& f.sequence == sequence
            &&& f.prior_manuscript_tree_revision == prior_tree_revision
            &&& f.resulting_manuscript_tree_revision == resulting_tree_revision
            &&& restore_of(f) matches StructureRestore::RestoreChapter { chapter_id: c, title, order }
            &&& c@ == chapter_id
            &&& title@ == prior_title
            &&& order == prior_order
        },
{
    crate::text::lemma_decimal_text_round_trip(sequence);
    crate::text::lemma_decimal_text_round_trip(prior_tree_revision);
    crate::text::lemma_decimal_text_round_trip(resulting_tree_revision);
    crate::text::lemma_decimal_text_round_trip(prior_order);
    assert(frontier_shape(row) == FrontierShape::ChapterUpdate);
}

/// Law: undo takes back what an Update Volume recorded. When the latest
/// uncompensated Author Action is an Update Volume whose Commit stored its
/// sequence and tree revisions in decimal and whose activity payload stored
/// the prior title and order (as `volume_updated_payload` writes them), the
/// undo observes a Volume update, not a created Volume, and restores that
/// Volume's prior title and order.
pub proof fn lemma_undo_takes_back_update_volume(
    row: FrontierRow,
    sequence: u64,
    prior_tree_revision: u64,
    resulting_tree_revision: u64,
    volume_id: Seq<char>,
    prior_title: Seq<char>,
    prior_order: u64,
)
    requires
        text_view(row.author_action_sequence) == Some(crate::text::decimal_text(sequence as nat)),
        no_prose_columns(row),
        text_view(row.prior_manuscript_tree_revision) == Some(crate::text::decimal_text(prior_tree_revision as nat)),
        text_view(row.resulting_manuscript_tree_revision) == Some(
            crate::text::decimal_text(resulting_tree_revision as nat),
        ),
        text_view(row.affected_volume_id) == Some(volume_id),
        row.affected_chapter_id is None,
        text_is(row.command_kind, "updateVolume"@),
        text_view(row.prior_title) == Some(prior_title),
        text_view(row.prior_order) == Some(crate::text::decimal_text(prior_order as nat)),
    ensures
        frontier_of_row(row) matches FrontierRead::Observed(ObservedFrontier::Structure(f)) && {
            &&& f.sequence == sequence
            &&& f.prior_manuscript_tree_revision == prior_tree_revision
            &&& f.resulting_manuscript_tree_revision == resulting_tree_revision
            &&& f.identity matches ObservedStructureIdentity::VolumeUpdate { volume_id: v, prior_title: t, prior_order: o }
            &&& v@ == volume_id && t@ == prior_title && o == prior_order
            &&& restore_of(f) matches StructureRestore::RestoreVolume { volume_id: rv, title, order }
            &&& rv@ == volume_id
            &&& title@ == prior_title
            &&& order == prior_order
        },
{
    crate::text::lemma_decimal_text_round_trip(sequence);
    crate::text::lemma_decimal_text_round_trip(prior_tree_revision);
    crate::text::lemma_decimal_text_round_trip(resulting_tree_revision);
    crate::text::lemma_decimal_text_round_trip(prior_order);
    reveal_strlit("updateVolume");
    reveal_strlit("createVolume");
    assert("updateVolume"@[0] != "createVolume"@[0]);
    assert(frontier_shape(row) == FrontierShape::VolumeUpdate);
}

/// Law: a structural frontier is the kind of action that its stored command
/// recorded. Only a `createVolume` action is undone as a created Volume
/// (removed again), only `updateVolume` as a Volume update, only
/// `deleteVolume` as a deleted Volume, only `updateChapter` as a Chapter
/// update and only `deleteChapter` as a deleted Chapter; a created Chapter is
/// recognized by its genesis Commit, which names the Chapter as its
/// manuscript object.
pub proof fn lemma_frontier_identity_follows_command(row: FrontierRow)
    ensures
        frontier_of_row(row) matches FrontierRead::Observed(ObservedFrontier::Structure(f)) ==> match f.identity {
            ObservedStructureIdentity::Volume { volume_id } => text_is(row.command_kind, "createVolume"@)
                && text_view(row.affected_volume_id) == Some(volume_id@),
            ObservedStructureIdentity::VolumeUpdate { volume_id, prior_title, .. } => text_is(
                row.command_kind,
                "updateVolume"@,
            ) && text_view(row.affected_volume_id) == Some(volume_id@) && text_view(row.prior_title) == Some(
                prior_title@,
            ),
            ObservedStructureIdentity::VolumeDelete { volume_id } => text_is(row.command_kind, "deleteVolume"@)
                && text_view(row.affected_volume_id) == Some(volume_id@),
            ObservedStructureIdentity::ChapterUpdate { chapter_id, prior_title, .. } => text_is(
                row.command_kind,
                "updateChapter"@,
            ) && text_view(row.affected_chapter_id) == Some(chapter_id@) && text_view(row.prior_title) == Some(
                prior_title@,
            ),
            ObservedStructureIdentity::ChapterDelete { chapter_id, .. } => text_is(
                row.command_kind,
                "deleteChapter"@,
            ) && text_view(row.affected_chapter_id) == Some(chapter_id@),
            ObservedStructureIdentity::Chapter { chapter_id } => text_view(row.manuscript_object_id) == Some(
                chapter_id@,
            ) && text_view(row.affected_chapter_id) == Some(chapter_id@),
        },
{
}

/// No two siblings share an id.
pub open spec fn distinct_ids(ids: Seq<String>) -> bool {
    forall|i: int, j: int| 0 <= i < j < ids.len() ==> (#[trigger] ids[i])@ != (#[trigger] ids[j])@
}

/// Law: undo puts a moved sibling back where it was. After an update moves
/// the sibling at place `from` to place `to` among distinct siblings, the
/// sibling is found at `to`, and moving it from there back to `from`, as
/// `restored_sibling_ranks` does with its prior order `from + 1`, gives the
/// sibling order from before the update.
pub proof fn lemma_undo_restores_sibling_order(ids: Seq<String>, from: int, to: int)
    requires
        distinct_ids(ids),
        0 <= from < ids.len(),
        0 <= to < ids.len(),
    ensures
        sibling_place(crate::tree_order::moved_order(ids, from, to), ids[from]@) == Some(to),
        crate::tree_order::moved_order(crate::tree_order::moved_order(ids, from, to), to, from) == ids,
{
    let moved = crate::tree_order::moved_order(ids, from, to);
    let rest = ids.remove(from);
    let x = ids[from];
    crate::tree_order::lemma_move_keeps_siblings(ids, from, to);
    crate::tree_order::lemma_move_back_restores(ids, from, to);
    rest.insert_ensures(to, x);
    ids.remove_ensures(from);
    assert forall|j: int| 0 <= j < moved.len() && j != to implies (#[trigger] moved[j])@ != x@ by {
        let k = if j < to { j } else { j - 1 };
        assert(moved[j] == rest[k]);
        let source = if k < from { k } else { k + 1 };
        assert(rest[k] == ids[source]);
        assert(source != from);
        if source < from {
            assert(ids[source]@ != ids[from]@);
        } else {
            assert(ids[from]@ != ids[source]@);
        }
    }
    assert(moved[to]@ == x@);
    let c = choose|i: int| 0 <= i < moved.len() && (#[trigger] moved[i])@ == x@ && forall|j: int| 0 <= j < i ==> (#[trigger] moved[j])@ != x@;
    assert(exists|i: int| 0 <= i < moved.len() && (#[trigger] moved[i])@ == x@) by {
        assert(moved[to]@ == x@);
    }
    assert(0 <= to < moved.len() && moved[to]@ == x@ && forall|j: int| 0 <= j < to ==> (#[trigger] moved[j])@ != x@);
    assert(c == to);
}

/// A restore that finds its sibling gone or its prior place out of range.
fn damaged_tree() -> (error: UndoLatestAuthorActionError)
    ensures
        error is Unavailable,
{
    UndoLatestAuthorActionError::Unavailable(
        UnavailableCause::Message(String::from_str("manuscript tree changed under FOR UPDATE")),
    )
}

/// The stored writes of a compensation whose row counts the undo checks.
#[derive(Debug, Clone, Copy, PartialEq, Eq)]
pub enum UndoWrite {
    /// The members of the prior revision copied to the compensating one.
    MembersCopied,
    /// The Chapter head advanced from the observed head.
    HeadAdvanced,
    /// The editor session's base snapshot moved to the compensating revision.
    BaseSnapshotMoved,
    /// The Project's tree revision restored from the resulting one.
    TreeRestored,
    /// The Project's Current Chapter restored from the resulting one.
    CurrentChapterRestored,
}

/// Checks the row count of a compensation write: members must have been
/// copied at all; the head and the base snapshot must each move exactly one
/// row, else the command no longer binds; the tree revision and the Current
/// Chapter must each be restored on exactly one row, else the Project
/// changed under its lock and the undo is unavailable.
pub fn check_undo_write(write: UndoWrite, count: u64) -> (checked: Result<(), UndoLatestAuthorActionError>)
    ensures
        match write {
            UndoWrite::MembersCopied => if count == 0 {
                checked matches Err(e) && e is Unavailable
            } else {
                checked is Ok
            },
            UndoWrite::HeadAdvanced | UndoWrite::BaseSnapshotMoved => if count == 1 {
                checked is Ok
            } else {
                checked matches Err(e) && e == UndoLatestAuthorActionError::BindingConflict
            },
            UndoWrite::TreeRestored | UndoWrite::CurrentChapterRestored => if count == 1 {
                checked is Ok
            } else {
                checked matches Err(e) && e is Unavailable
            },
        },
{
    match write {
        UndoWrite::MembersCopied => if count == 0 {
            Err(
                UndoLatestAuthorActionError::Unavailable(
                    UnavailableCause::Message(String::from_str("compensating revision members were not copied")),
                ),
            )
        } else {
            Ok(())
        },
        UndoWrite::HeadAdvanced | UndoWrite::BaseSnapshotMoved => if count == 1 {
            Ok(())
        } else {
            Err(UndoLatestAuthorActionError::BindingConflict)
        },
        UndoWrite::TreeRestored => if count == 1 {
            Ok(())
        } else {
            Err(
                UndoLatestAuthorActionError::Unavailable(
                    UnavailableCause::Message(String::from_str("tree revision changed under FOR UPDATE")),
                ),
            )
        },
        UndoWrite::CurrentChapterRestored => if count == 1 {
            Ok(())
        } else {
            Err(
                UndoLatestAuthorActionError::Unavailable(
                    UnavailableCause::Message(String::from_str("current Chapter changed under FOR UPDATE")),
                ),
            )
        },
    }
}

/// The counters and fresh identities of a prose compensation.
#[derive(Debug, Clone, PartialEq, Eq)]
pub struct ProseCompensationSequences {
    pub author_action_sequence: u64,
    pub authoritative_commit_sequence: u64,
    pub project_activity_position: u64,
    pub revision_id: String,
    pub payload_id: String,
    pub authoritative_commit_id: String,
    pub project_activity_event_id: String,
    pub base_snapshot_id: String,
}

/// The sequences of a prose compensation from the counters that the scope
/// counter row returned, with fresh identities; a damaged counter makes the
/// undo unavailable.
pub fn prose_compensation_sequences(
    author_action_sequence: &str,
    authoritative_commit_sequence: &str,
    project_activity_position: &str,
) -> (sequences: Result<ProseCompensationSequences, UndoLatestAuthorActionError>)
    ensures
        match (
            u64_text_value(author_action_sequence@),
            u64_text_value(authoritative_commit_sequence@),
            u64_text_value(project_activity_position@),
        ) {
            (Some(action), Some(commit), Some(position)) => sequences matches Ok(s)
                && s.author_action_sequence == action && s.authoritative_commit_sequence == commit
                && s.project_activity_position == position && s.revision_id@.len() == 36
                && s.payload_id@.len() == 36 && s.authoritative_commit_id@.len() == 36
                && s.project_activity_event_id@.len() == 36 && s.base_snapshot_id@.len() == 36,
            _ => sequences matches Err(e) && e is Unavailable,
        },
{
    let action = match parse_u64(author_action_sequence) {
        Some(n) => n,
        None => {
            return Err(damaged());
        },
    };
    let commit = match parse_u64(authoritative_commit_sequence) {
        Some(n) => n,
        None => {
            return Err(damaged());
        },
    };
    let position = match parse_u64(project_activity_position) {
        Some(n) => n,
        None => {
            return Err(damaged());
        },
    };
    Ok(
        ProseCompensationSequences {
            author_action_sequence: action,
            authoritative_commit_sequence: commit,
            project_activity_position: position,
            revision_id: crate::ids::new_object_id(),
            payload_id: crate::ids::new_object_id(),
            authoritative_commit_id: crate::ids::new_object_id(),
            project_activity_event_id: crate::ids::new_object_id(),
            base_snapshot_id: crate::ids::new_object_id(),
        },
    )
}

/// What a prose compensation writes: a new revision of the frontier's
/// Chapter that carries the prior revision's payload, parented on the
/// current head, which the Chapter head moves from.
#[derive(Debug, Clone, PartialEq, Eq)]
pub struct ProseCompensation {
    pub chapter_id: String,
    pub revision_id: String,
    pub restored_payload: String,
    pub parent_revision_id: String,
    pub expected_head_revision_id: String,
    pub receipt_prior_head: String,
    pub receipt_resulting_head: String,
}

/// The writes of a prose compensation: the payload that the undone action
/// replaced comes back as the new head revision of its Chapter, and the
/// receipt records the head moving from the observed head to it.
pub fn prose_compensation(frontier: &ObservedProseFrontier, revision_id: &str) -> (compensation:
    ProseCompensation)
    ensures
        compensation.chapter_id == frontier.chapter_id,
        compensation.revision_id@ == revision_id@,
        compensation.restored_payload == frontier.prior_payload,
        compensation.parent_revision_id == frontier.current_head_revision_id,
        compensation.expected_head_revision_id == frontier.current_head_revision_id,
        compensation.receipt_prior_head == frontier.current_head_revision_id,
        compensation.receipt_resulting_head@ == revision_id@,
{
    ProseCompensation {
        chapter_id: frontier.chapter_id.clone(),
        revision_id: String::from_str(revision_id),
        restored_payload: frontier.prior_payload.clone(),
        parent_revision_id: frontier.current_head_revision_id.clone(),
        expected_head_revision_id: frontier.current_head_revision_id.clone(),
        receipt_prior_head: frontier.current_head_revision_id.clone(),
        receipt_resulting_head: String::from_str(revision_id),
    }
}

/// The effect of a prose compensation: it undid the Author Action
/// `source_sequence` with the Author Action, Commit and revision that its
/// sequences allocated, and reports the Author Undo frontier after it.
pub fn prose_compensated_effect(
    source_sequence: u64,
    sequences: &ProseCompensationSequences,
    author_undo_frontier_sequence: Option<u64>,
) -> (effect: UndoLatestAuthorActionSettlementEffect)
    ensures
        effect == (UndoLatestAuthorActionSettlementEffect::Compensated {
            source_sequence,
            author_action_sequence: sequences.author_action_sequence,
            authoritative_commit_id: sequences.authoritative_commit_id,
            revision_id: sequences.revision_id,
            author_undo_frontier_sequence,
        }),
{
    UndoLatestAuthorActionSettlementEffect::Compensated {
        source_sequence,
        author_action_sequence: sequences.author_action_sequence,
        authoritative_commit_id: sequences.authoritative_commit_id.clone(),
        revision_id: sequences.revision_id.clone(),
        author_undo_frontier_sequence,
    }
}

/// The effect of a structural compensation: it undid the Author Action
/// `source_sequence` with the Author Action, Commit and tree snapshot of its
/// structural transition, and reports the Author Undo frontier after it.
pub fn structure_compensated_effect(
    source_sequence: u64,
    sequences: &crate::structural_authority::StructureTransitionSequences,
    author_undo_frontier_sequence: Option<u64>,
) -> (effect: UndoLatestAuthorActionSettlementEffect)
    ensures
        effect == (UndoLatestAuthorActionSettlementEffect::CompensatedStructure {
            source_sequence,
            author_action_sequence: sequences.author_action_sequence,
            authoritative_commit_id: sequences.authoritative_commit_id,
            snapshot_id: sequences.snapshot_id,
            author_undo_frontier_sequence,
        }),
{
    UndoLatestAuthorActionSettlementEffect::CompensatedStructure {
        source_sequence,
        author_action_sequence: sequences.author_action_sequence,
        authoritative_commit_id: sequences.authoritative_commit_id.clone(),
        snapshot_id: sequences.snapshot_id.clone(),
        author_undo_frontier_sequence,
    }
}

/// The effect of a Current Chapter compensation: it undid the switch
/// `source_sequence` with the Author Action and tree snapshot that its
/// sequences allocated, and reports the Author Undo frontier after it.
pub fn current_chapter_compensated_effect(
    source_sequence: u64,
    sequences: &crate::structural_authority::CurrentChapterSequences,
    author_undo_frontier_sequence: Option<u64>,
) -> (effect: UndoLatestAuthorActionSettlementEffect)
    ensures
        effect == (UndoLatestAuthorActionSettlementEffect::CompensatedCurrentChapter {
            source_sequence,
            author_action_sequence: sequences.author_action_sequence,
            snapshot_id: sequences.snapshot_id,
            author_undo_frontier_sequence,
        }),
{
    UndoLatestAuthorActionSettlementEffect::CompensatedCurrentChapter {
        source_sequence,
        author_action_sequence: sequences.author_action_sequence,
        snapshot_id: sequences.snapshot_id.clone(),
        author_undo_frontier_sequence,
    }
}

/// A reversible Current Chapter switch: the Chapter that was current before
/// it and the one it made current.
#[derive(Debug, Clone, PartialEq, Eq)]
pub struct ObservedCurrentChapterFrontier {
    pub sequence: u64,
    pub prior_chapter_id: String,
    pub resulting_chapter_id: String,
}

/// The Current Chapter update of a compensation, as a transition (the
/// Chapter that must still be current, the Chapter made current): it runs
/// the switch backwards, from the Chapter the switch made current to the one
/// it replaced.
pub fn current_chapter_compensation(frontier: &ObservedCurrentChapterFrontier) -> (update: (
    String,
    String,
))
    ensures
        update == reversed_transition((frontier.prior_chapter_id, frontier.resulting_chapter_id)),
{
    (frontier.resulting_chapter_id.clone(), frontier.prior_chapter_id.clone())
}

/// The transition (from, to) that compensates the transition (`from`, `to`):
/// it runs from where the forward one ended back to where it started.
pub open spec fn reversed_transition<A>(transition: (A, A)) -> (A, A) {
    (transition.1, transition.0)
}

/// Law: compensation undoes a transition of the tree revision or of the
/// Current Chapter. After the forward transition and its compensation the
/// state is back where it started, and compensating the compensation gives
/// the forward transition again.
pub proof fn lemma_compensation_reverses<A>(from: A, to: A)
    ensures
        reversed_transition((from, to)).0 == to,
        reversed_transition((from, to)).1 == from,
        reversed_transition(reversed_transition((from, to))) == (from, to),
{
}


/// The stored state of a closed Editor Flow Draft that an undo may reopen.
pub struct DraftCloseRow {
    pub revision_id: String,
    pub digest: String,
    pub close_event_id: String,
    pub draft_current_revision_id: String,
    pub current_payload_digest: String,
    pub closure: String,
    pub retention_state: String,
    pub draft_close_event_id: Option<String>,
}

/// The draft still stands as its close left it: the same revision and
/// digest, closed, and closed by the same event.
pub open spec fn draft_binding_holds(row: DraftCloseRow) -> bool {
    &&& row.revision_id@ == row.draft_current_revision_id@
    &&& row.digest@ == row.current_payload_digest@
    &&& row.closure@ == "closed"@
    &&& row.draft_close_event_id is Some
    &&& row.draft_close_event_id->0@ == row.close_event_id@
}

/// The frontier kind of a closed draft: a draft whose source is no longer
/// retained cannot be reopened; a retained one can when its binding holds
/// and the digest of its canonical payload is the recorded digest, and has
/// changed otherwise. `canonical_payload` is the canonical JSON text of the
/// retained payload.
pub fn draft_close_kind(row: &DraftCloseRow, canonical_payload: &str) -> (kind: AuthorUndoFrontierKind)
    ensures
        row.retention_state@ != "retained"@ ==> kind == AuthorUndoFrontierKind::DraftSourceUnavailable,
        row.retention_state@ == "retained"@ ==> kind == (if draft_binding_holds(*row) && hex_lower(
            sha256_of(vstd::utf8::encode_utf8(canonical_payload@)),
        ) == row.digest@ {
            AuthorUndoFrontierKind::ReversibleDraftClose
        } else {
            AuthorUndoFrontierKind::DraftBindingChanged
        }),
{
    if !same_text(row.retention_state.as_str(), "retained") {
        return AuthorUndoFrontierKind::DraftSourceUnavailable;
    }
    let same_event = match &row.draft_close_event_id {
        Some(event) => same_text(event.as_str(), row.close_event_id.as_str()),
        None => false,
    };
    if same_text(row.revision_id.as_str(), row.draft_current_revision_id.as_str())
        && same_text(row.digest.as_str(), row.current_payload_digest.as_str())
        && same_text(row.closure.as_str(), "closed") && same_event
        && same_text(hex_sha256(canonical_payload).as_str(), row.digest.as_str()) {
        AuthorUndoFrontierKind::ReversibleDraftClose
    } else {
        AuthorUndoFrontierKind::DraftBindingChanged
    }
}

/// The receipt payload of a reopened draft: the reopening event, its
/// handler receipt, and the next Author Undo frontier (`null` without one).
pub fn draft_reopen_receipt_payload(event_id: &str, handler_receipt_id: &str, next_frontier: &Option<String>) -> (payload:
    String)
    ensures
        json_text_parses(payload@),
        json_text_field(payload@, "event_id"@) == Some(event_id@),
        json_text_field(payload@, "handler_receipt_id"@) == Some(handler_receipt_id@),
        json_text_field(payload@, "author_undo_frontier_sequence"@) == text_view(*next_frontier),
{
    let mut fields: Vec<(String, PayloadValue)> = Vec::new();
    fields.push((String::from_str("event_id"), PayloadValue::Text(String::from_str(event_id))));
    fields.push(
        (String::from_str("handler_receipt_id"), PayloadValue::Text(String::from_str(handler_receipt_id))),
    );
    let next = match next_frontier {
        Some(sequence) => PayloadValue::Text(sequence.clone()),
        None => PayloadValue::Null,
    };
    fields.push((String::from_str("author_undo_frontier_sequence"), next));
    let payload = payload_text(&fields);
    proof {
        reveal_strlit("event_id");
        assert("event_id"@.len() == 8);
        reveal_strlit("handler_receipt_id");
        assert("handler_receipt_id"@.len() == 18);
        reveal_strlit("author_undo_frontier_sequence");
        assert("author_undo_frontier_sequence"@.len() == 29);
        let f = fields@;
        assert(crate::json::sole_member(f, 0));
        assert(crate::json::sole_member(f, 1));
        assert(crate::json::sole_member(f, 2));
        assert(json_text_field(payload@, f[0].0@) == crate::json::payload_member(f[0]).1);
        assert(json_text_field(payload@, f[1].0@) == crate::json::payload_member(f[1]).1);
        assert(json_text_field(payload@, f[2].0@) == crate::json::payload_member(f[2]).1);
    }
    payload
}

/// The next Author Undo frontier of a reopened draft, as stored: none, or a
/// counter; a damaged one makes the undo unavailable.
pub fn draft_reopen_frontier(next: Option<String>) -> (frontier: Result<Option<u64>, UndoLatestAuthorActionError>)
    ensures
        match next {
            None => frontier matches Ok(None),
            Some(t) => match u64_text_value(t@) {
                Some(n) => frontier matches Ok(Some(m)) && m == n,
                None => frontier matches Err(e) && e is Unavailable,
            },
        },
{
    match next {
        None => Ok(None),
        Some(t) => match parse_u64(t.as_str()) {
            Some(n) => Ok(Some(n)),
            None => Err(damaged()),
        },
    }
}


/// A settled undo: its identities, the effect, the receipt time and the
/// activity position of its compensation.
#[derive(Debug, Clone, PartialEq, Eq)]
pub struct UndoLatestAuthorActionSettlement {
    pub ids: crate::command::AuthorCommandAdmissionIds,
    pub effect: UndoLatestAuthorActionSettlementEffect,
    pub receipt_created_at: String,
    pub project_activity_position: u64,
}

/// The frontier that an undo compensates: a prose Author Action, a
/// structural transition or a Current Chapter switch.
#[derive(Debug, Clone, PartialEq, Eq)]
pub enum UndoCompensationTarget {
    Prose(ObservedProseFrontier),
    Structure(ObservedStructureFrontier),
    CurrentChapter(ObservedCurrentChapterFrontier),
}

/// Which answer of the store a compensation awaits: the answer to the
/// action it issued last, or none once it has settled or failed.
#[derive(Debug, Clone, Copy, PartialEq, Eq)]
pub enum UndoStage {
    Counters,
    Payload,
    Revision,
    Members,
    Envelope,
    Head,
    Activity,
    TreeRevision,
    Project,
    PriorHead,
    Receipt,
    Restore,
    Commit,
    AuthorAction,
    Snapshot,
    BaseSnapshot,
    Idempotency,
    Frontier,
    Done,
}

/// The state of a compensation inside the undo's serializable transaction.
#[derive(Debug, Clone, PartialEq, Eq)]
pub struct UndoStep {
    pub stage: UndoStage,
    pub ids: crate::command::AuthorCommandAdmissionIds,
    pub target: UndoCompensationTarget,
    pub prose: Option<ProseCompensationSequences>,
    pub structure: Option<crate::structural_authority::StructureTransitionSequences>,
    pub switch: Option<crate::structural_authority::CurrentChapterSequences>,
    pub prior_head: String,
    pub receipt_created_at: String,
}

/// What a compensation asks the store to do next, or how it ends.
#[derive(Debug, Clone, PartialEq, Eq)]
pub enum UndoAction {
    AllocateProseCounters,
    InsertPayload { payload_id: String, canonical_payload: String },
    InsertRevision { chapter_id: String, revision_id: String, payload_id: String },
    CopyMembers { chapter_id: String, prior_revision_id: String, revision_id: String },
    InsertEnvelope { chapter_id: String, revision_id: String, parent_revision_id: String, payload_digest: String },
    AdvanceHead { chapter_id: String, revision_id: String, expected_head_revision_id: String },
    InsertProseCommit {
        authoritative_commit_id: String,
        authoritative_commit_sequence: u64,
        chapter_id: String,
        prior_revision_id: String,
        resulting_revision_id: String,
    },
    InsertProseActivity {
        project_activity_position: u64,
        project_activity_event_id: String,
        authoritative_commit_id: String,
        revision_id: String,
        author_action_sequence: u64,
    },
    MoveProseBaseSnapshot {
        snapshot_id: String,
        revision_id: String,
        expected_revision_id: String,
        project_activity_position: u64,
    },
    AllocateStructureCounters,
    AllocateCurrentChapterCounters,
    RestoreTreeRevision { tree_revision: u64, expected_tree_revision: u64 },
    RestoreCurrentChapter { current_chapter_id: String, expected_current_chapter_id: String },
    ReadHead { chapter_id: String },
    InsertReceipt {
        authoritative_commit_id: Option<String>,
        authoritative_revision_id: Option<String>,
        heads: Option<(String, String)>,
    },
    Restore(StructureRestore),
    InsertCommit {
        sequences: crate::structural_authority::StructureTransitionSequences,
        binding: crate::structural_authority::StructureCommitBinding,
    },
    InsertCompensationAuthorAction {
        author_action_sequence: u64,
        source_sequence: u64,
        authoritative_commit_id: Option<String>,
    },
    PersistSnapshot { snapshot_id: String, project_activity_position: u64 },
    MoveBaseSnapshot { snapshot_id: String, chapter_id: String, revision_id: String, project_activity_position: u64 },
    SettleIdempotency,
    ReadFrontier,
    Settle(UndoLatestAuthorActionSettlement),
    Fail(UndoLatestAuthorActionError),
}

/// The Author Action that the compensation undoes.
pub open spec fn target_sequence(target: UndoCompensationTarget) -> u64 {
    match target {
        UndoCompensationTarget::Prose(f) => f.sequence,
        UndoCompensationTarget::Structure(f) => f.sequence,
        UndoCompensationTarget::CurrentChapter(f) => f.sequence,
    }
}

/// A compensation state that can go on: each flow reaches only its own
/// stages, with its counters allocated once they are.
pub open spec fn undo_step_wf(state: UndoStep) -> bool {
    match state.target {
        UndoCompensationTarget::Prose(_) => match state.stage {
            UndoStage::Counters => true,
            UndoStage::Payload | UndoStage::Revision | UndoStage::Members | UndoStage::Envelope
            | UndoStage::Head | UndoStage::Commit | UndoStage::Receipt | UndoStage::AuthorAction
            | UndoStage::Activity | UndoStage::BaseSnapshot | UndoStage::Snapshot | UndoStage::Idempotency
            | UndoStage::Frontier => state.prose is Some,
            _ => false,
        },
        UndoCompensationTarget::Structure(_) => match state.stage {
            UndoStage::Counters => true,
            UndoStage::TreeRevision | UndoStage::Receipt | UndoStage::Restore | UndoStage::Commit
            | UndoStage::AuthorAction | UndoStage::Snapshot | UndoStage::Idempotency
            | UndoStage::Frontier => state.structure is Some,
            _ => false,
        },
        UndoCompensationTarget::CurrentChapter(_) => match state.stage {
            UndoStage::Counters => true,
            UndoStage::Project | UndoStage::PriorHead | UndoStage::Receipt | UndoStage::AuthorAction
            | UndoStage::Snapshot | UndoStage::BaseSnapshot | UndoStage::Idempotency
            | UndoStage::Frontier => state.switch is Some,
            _ => false,
        },
    }
}

/// The answer that the store gives at a stage: the counters (three for a
/// structural transition, two for a switch), the prior Chapter's head, the
/// receipt time, the Author Undo frontier after the compensation (nothing
/// when none is left), or else a row count.
pub open spec fn answers_undo(state: UndoStep, event: crate::command::StoreEvent) -> bool {
    match state.stage {
        UndoStage::Counters => event matches crate::command::StoreEvent::Returned(v) && v.len() == (
        match state.target {
            UndoCompensationTarget::Prose(_) => 3int,
            UndoCompensationTarget::Structure(_) => 3int,
            UndoCompensationTarget::CurrentChapter(_) => 2int,
        }),
        UndoStage::PriorHead | UndoStage::Receipt => event matches crate::command::StoreEvent::Returned(v)
            && v.len() == 1,
        UndoStage::Frontier => event matches crate::command::StoreEvent::Returned(v) && v.len() <= 1,
        _ => event is Rows,
    }
}

/// Starts the compensation of a routed undo: it allocates the counters of
/// its transition first.
pub fn begin_undo_compensation(ids: crate::command::AuthorCommandAdmissionIds, target: UndoCompensationTarget) -> (begun: (
    UndoStep,
    UndoAction,
))
    ensures
        undo_step_wf(begun.0),
        begun.0.stage == UndoStage::Counters,
        begun.0.ids == ids,
        begun.0.target == target,
        begun.1 == (match target {
            UndoCompensationTarget::Prose(_) => UndoAction::AllocateProseCounters,
            UndoCompensationTarget::Structure(_) => UndoAction::AllocateStructureCounters,
            UndoCompensationTarget::CurrentChapter(_) => UndoAction::AllocateCurrentChapterCounters,
        }),
{
    let action = match &target {
        UndoCompensationTarget::Prose(_) => UndoAction::AllocateProseCounters,
        UndoCompensationTarget::Structure(_) => UndoAction::AllocateStructureCounters,
        UndoCompensationTarget::CurrentChapter(_) => UndoAction::AllocateCurrentChapterCounters,
    };
    (
        UndoStep {
            stage: UndoStage::Counters,
            ids,
            target,
            prose: None,
            structure: None,
            switch: None,
            prior_head: String::new(),
            receipt_created_at: String::new(),
        },
        action,
    )
}

/// Takes the store's answer to the last action of a compensation and gives
/// the next state and action. A prose compensation stores the prior payload
/// as a new revision of the Chapter, copies the prior revision's members
/// (at least one), writes its envelope with the payload's digest, moves the
/// Chapter head from the observed head to it (one row), and writes its
/// Commit, receipt, compensating Author Action, activity event, the writer's
/// base snapshot at the new revision (one row) and the canonical snapshot.
/// A structural compensation puts the tree
/// revision back from the resulting to the prior one (one row), records its
/// receipt with its Commit, restores what `structure_restore` names, writes
/// the Commit that runs the transition backwards, the compensating Author
/// Action and the canonical snapshot. A Current Chapter compensation makes
/// the prior Chapter current again in place of the resulting one (one row),
/// reads the prior Chapter's head, records its receipt, writes the
/// compensating Author Action and the canonical snapshot, and moves the
/// writer's base snapshot to the prior Chapter at that head (one row). All
/// then settle the idempotency row, read the Author Undo frontier that is
/// left, and return their settlement.
pub fn undo_compensation_step(state: UndoStep, event: crate::command::StoreEvent) -> (next: (UndoStep, UndoAction))
    requires
        undo_step_wf(state),
        answers_undo(state, event),
    ensures
        next.0.ids == state.ids,
        next.0.target == state.target,
        state.stage != UndoStage::Counters ==> next.0.prose == state.prose && next.0.structure == state.structure
            && next.0.switch == state.switch,
        state.stage != UndoStage::PriorHead ==> next.0.prior_head == state.prior_head,
        state.stage != UndoStage::Receipt ==> next.0.receipt_created_at == state.receipt_created_at,
        next.0.stage == UndoStage::Done <==> (next.1 is Settle || next.1 is Fail),
        next.0.stage != UndoStage::Done ==> undo_step_wf(next.0),
        match (state.target, state.stage, event) {
            (UndoCompensationTarget::Prose(f), UndoStage::Counters, crate::command::StoreEvent::Returned(v)) => match (
                u64_text_value(v@[0]@),
                u64_text_value(v@[1]@),
                u64_text_value(v@[2]@),
            ) {
                (Some(action), Some(commit), Some(position)) => {
                    &&& next.0.stage == UndoStage::Payload
                    &&& next.0.prose matches Some(p)
                    &&& p.author_action_sequence == action && p.authoritative_commit_sequence == commit
                        && p.project_activity_position == position
                    &&& next.1 == UndoAction::InsertPayload {
                        payload_id: p.payload_id,
                        canonical_payload: f.prior_payload,
                    }
                },
                _ => next.1 matches UndoAction::Fail(e) && e is Unavailable,
            },
            (UndoCompensationTarget::Prose(f), UndoStage::Payload, crate::command::StoreEvent::Rows(_)) => {
                &&& next.0.stage == UndoStage::Revision
                &&& next.1 == UndoAction::InsertRevision {
                    chapter_id: f.chapter_id,
                    revision_id: state.prose->0.revision_id,
                    payload_id: state.prose->0.payload_id,
                }
            },
            (UndoCompensationTarget::Prose(f), UndoStage::Revision, crate::command::StoreEvent::Rows(_)) => {
                &&& next.0.stage == UndoStage::Members
                &&& next.1 == UndoAction::CopyMembers {
                    chapter_id: f.chapter_id,
                    prior_revision_id: f.prior_revision_id,
                    revision_id: state.prose->0.revision_id,
                }
            },
            (UndoCompensationTarget::Prose(f), UndoStage::Members, crate::command::StoreEvent::Rows(n)) => if n == 0 {
                next.1 matches UndoAction::Fail(e) && e is Unavailable
            } else {
                &&& next.0.stage == UndoStage::Envelope
                &&& next.1 matches UndoAction::InsertEnvelope { chapter_id, revision_id, parent_revision_id, payload_digest }
                &&& chapter_id == f.chapter_id && revision_id == state.prose->0.revision_id
                &&& parent_revision_id == f.current_head_revision_id
                &&& payload_digest@ == hex_lower(sha256_of(vstd::utf8::encode_utf8(f.prior_payload@)))
            },
            (UndoCompensationTarget::Prose(f), UndoStage::Envelope, crate::command::StoreEvent::Rows(_)) => {
                &&& next.0.stage == UndoStage::Head
                &&& next.1 == UndoAction::AdvanceHead {
                    chapter_id: f.chapter_id,
                    revision_id: state.prose->0.revision_id,
                    expected_head_revision_id: f.current_head_revision_id,
                }
            },
            (UndoCompensationTarget::Prose(f), UndoStage::Head, crate::command::StoreEvent::Rows(n)) => if n == 1 {
                &&& next.0.stage == UndoStage::Commit
                &&& next.1 == UndoAction::InsertProseCommit {
                    authoritative_commit_id: state.prose->0.authoritative_commit_id,
                    authoritative_commit_sequence: state.prose->0.authoritative_commit_sequence,
                    chapter_id: f.chapter_id,
                    prior_revision_id: f.current_head_revision_id,
                    resulting_revision_id: state.prose->0.revision_id,
                }
            } else {
                next.1 == UndoAction::Fail(UndoLatestAuthorActionError::BindingConflict)
            },
            (UndoCompensationTarget::Prose(f), UndoStage::Commit, crate::command::StoreEvent::Rows(_)) => {
                &&& next.0.stage == UndoStage::Receipt
                &&& next.1 == UndoAction::InsertReceipt {
                    authoritative_commit_id: Some(state.prose->0.authoritative_commit_id),
                    authoritative_revision_id: Some(state.prose->0.revision_id),
                    heads: Some((f.current_head_revision_id, state.prose->0.revision_id)),
                }
            },
            (UndoCompensationTarget::Prose(f), UndoStage::Receipt, crate::command::StoreEvent::Returned(v)) => {
                &&& next.0.stage == UndoStage::AuthorAction
                &&& next.0.receipt_created_at@ == v@[0]@
                &&& next.1 == UndoAction::InsertCompensationAuthorAction {
                    author_action_sequence: state.prose->0.author_action_sequence,
                    source_sequence: f.sequence,
                    authoritative_commit_id: Some(state.prose->0.authoritative_commit_id),
                }
            },
            (UndoCompensationTarget::Prose(_), UndoStage::AuthorAction, crate::command::StoreEvent::Rows(_)) => {
                &&& next.0.stage == UndoStage::Activity
                &&& next.1 == UndoAction::InsertProseActivity {
                    project_activity_position: state.prose->0.project_activity_position,
                    project_activity_event_id: state.prose->0.project_activity_event_id,
                    authoritative_commit_id: state.prose->0.authoritative_commit_id,
                    revision_id: state.prose->0.revision_id,
                    author_action_sequence: state.prose->0.author_action_sequence,
                }
            },
            (UndoCompensationTarget::Prose(f), UndoStage::Activity, crate::command::StoreEvent::Rows(_)) => {
                &&& next.0.stage == UndoStage::BaseSnapshot
                &&& next.1 == UndoAction::MoveProseBaseSnapshot {
                    snapshot_id: state.prose->0.base_snapshot_id,
                    revision_id: state.prose->0.revision_id,
                    expected_revision_id: f.current_head_revision_id,
                    project_activity_position: state.prose->0.project_activity_position,
                }
            },
            (UndoCompensationTarget::Prose(_), UndoStage::BaseSnapshot, crate::command::StoreEvent::Rows(n)) => if n == 1 {
                &&& next.0.stage == UndoStage::Snapshot
                &&& next.1 == UndoAction::PersistSnapshot {
                    snapshot_id: state.prose->0.base_snapshot_id,
                    project_activity_position: state.prose->0.project_activity_position,
                }
            } else {
                next.1 == UndoAction::Fail(UndoLatestAuthorActionError::BindingConflict)
            },
            (UndoCompensationTarget::Prose(_), UndoStage::Snapshot, crate::command::StoreEvent::Rows(_)) => next.0.stage
                == UndoStage::Idempotency && next.1 == UndoAction::SettleIdempotency,
            (UndoCompensationTarget::Structure(f), UndoStage::Counters, crate::command::StoreEvent::Returned(v)) => match (
                u64_text_value(v@[0]@),
                u64_text_value(v@[1]@),
                u64_text_value(v@[2]@),
            ) {
                (Some(action), Some(commit), Some(position)) => {
                    &&& next.0.stage == UndoStage::TreeRevision
                    &&& next.0.structure matches Some(t)
                    &&& t.author_action_sequence == action && t.authoritative_commit_sequence == commit
                        && t.project_activity_position == position
                    &&& next.1 == UndoAction::RestoreTreeRevision {
                        tree_revision: f.prior_manuscript_tree_revision,
                        expected_tree_revision: f.resulting_manuscript_tree_revision,
                    }
                },
                _ => next.1 matches UndoAction::Fail(e) && e is Unavailable,
            },
            (UndoCompensationTarget::Structure(_), UndoStage::TreeRevision, crate::command::StoreEvent::Rows(n)) => if n
                == 1 {
                next.0.stage == UndoStage::Receipt && next.1 == UndoAction::InsertReceipt {
                    authoritative_commit_id: Some(state.structure->0.authoritative_commit_id),
                    authoritative_revision_id: None,
                    heads: None,
                }
            } else {
                next.1 matches UndoAction::Fail(e) && e is Unavailable
            },
            (UndoCompensationTarget::Structure(f), UndoStage::Receipt, crate::command::StoreEvent::Returned(v)) => {
                &&& next.0.stage == UndoStage::Restore
                &&& next.0.receipt_created_at@ == v@[0]@
                &&& next.1 == UndoAction::Restore(restore_of(f))
            },
            (UndoCompensationTarget::Structure(f), UndoStage::Restore, crate::command::StoreEvent::Rows(_)) => {
                &&& next.0.stage == UndoStage::Commit
                &&& next.1 matches UndoAction::InsertCommit { sequences, binding }
                &&& sequences == state.structure->0
                &&& (binding.prior_manuscript_tree_revision, binding.resulting_manuscript_tree_revision)
                    == reversed_transition((f.prior_manuscript_tree_revision, f.resulting_manuscript_tree_revision))
            },
            (UndoCompensationTarget::Structure(f), UndoStage::Commit, crate::command::StoreEvent::Rows(_)) => {
                &&& next.0.stage == UndoStage::AuthorAction
                &&& next.1 == UndoAction::InsertCompensationAuthorAction {
                    author_action_sequence: state.structure->0.author_action_sequence,
                    source_sequence: f.sequence,
                    authoritative_commit_id: Some(state.structure->0.authoritative_commit_id),
                }
            },
            (UndoCompensationTarget::Structure(_), UndoStage::AuthorAction, crate::command::StoreEvent::Rows(_)) => {
                &&& next.0.stage == UndoStage::Snapshot
                &&& next.1 == UndoAction::PersistSnapshot {
                    snapshot_id: state.structure->0.snapshot_id,
                    project_activity_position: state.structure->0.project_activity_position,
                }
            },
            (UndoCompensationTarget::Structure(_), UndoStage::Snapshot, crate::command::StoreEvent::Rows(_)) => next.0.stage
                == UndoStage::Idempotency && next.1 == UndoAction::SettleIdempotency,
            (UndoCompensationTarget::CurrentChapter(f), UndoStage::Counters, crate::command::StoreEvent::Returned(v)) => match (
                u64_text_value(v@[0]@),
                u64_text_value(v@[1]@),
            ) {
                (Some(action), Some(position)) => {
                    &&& next.0.stage == UndoStage::Project
                    &&& next.0.switch matches Some(c)
                    &&& c.author_action_sequence == action && c.project_activity_position == position
                    &&& (f.resulting_chapter_id, f.prior_chapter_id) == reversed_transition(
                        (f.prior_chapter_id, f.resulting_chapter_id),
                    )
                    &&& next.1 == UndoAction::RestoreCurrentChapter {
                        current_chapter_id: f.prior_chapter_id,
                        expected_current_chapter_id: f.resulting_chapter_id,
                    }
                },
                _ => next.1 matches UndoAction::Fail(e) && e is Unavailable,
            },
            (UndoCompensationTarget::CurrentChapter(f), UndoStage::Project, crate::command::StoreEvent::Rows(n)) => if n
                == 1 {
                next.0.stage == UndoStage::PriorHead && next.1 == UndoAction::ReadHead { chapter_id: f.prior_chapter_id }
            } else {
                next.1 matches UndoAction::Fail(e) && e is Unavailable
            },
            (UndoCompensationTarget::CurrentChapter(_), UndoStage::PriorHead, crate::command::StoreEvent::Returned(v)) => {
                &&& next.0.stage == UndoStage::Receipt
                &&& next.0.prior_head@ == v@[0]@
                &&& next.1 == UndoAction::InsertReceipt {
                    authoritative_commit_id: None,
                    authoritative_revision_id: None,
                    heads: None,
                }
            },
            (UndoCompensationTarget::CurrentChapter(f), UndoStage::Receipt, crate::command::StoreEvent::Returned(v)) => {
                &&& next.0.stage == UndoStage::AuthorAction
                &&& next.0.receipt_created_at@ == v@[0]@
                &&& next.1 == UndoAction::InsertCompensationAuthorAction {
                    author_action_sequence: state.switch->0.author_action_sequence,
                    source_sequence: f.sequence,
                    authoritative_commit_id: None,
                }
            },
            (UndoCompensationTarget::CurrentChapter(_), UndoStage::AuthorAction, crate::command::StoreEvent::Rows(_)) => {
                &&& next.0.stage == UndoStage::Snapshot
                &&& next.1 == UndoAction::PersistSnapshot {
                    snapshot_id: state.switch->0.snapshot_id,
                    project_activity_position: state.switch->0.project_activity_position,
                }
            },
            (UndoCompensationTarget::CurrentChapter(f), UndoStage::Snapshot, crate::command::StoreEvent::Rows(_)) => {
                &&& next.0.stage == UndoStage::BaseSnapshot
                &&& next.1 == UndoAction::MoveBaseSnapshot {
                    snapshot_id: state.switch->0.snapshot_id,
                    chapter_id: f.prior_chapter_id,
                    revision_id: state.prior_head,
                    project_activity_position: state.switch->0.project_activity_position,
                }
            },
            (UndoCompensationTarget::CurrentChapter(_), UndoStage::BaseSnapshot, crate::command::StoreEvent::Rows(n)) => if n
                == 1 {
                next.0.stage == UndoStage::Idempotency && next.1 == UndoAction::SettleIdempotency
            } else {
                next.1 == UndoAction::Fail(UndoLatestAuthorActionError::BindingConflict)
            },
            (_, UndoStage::Idempotency, crate::command::StoreEvent::Rows(_)) => next.0.stage == UndoStage::Frontier
                && next.1 == UndoAction::ReadFrontier,
            (target, UndoStage::Frontier, crate::command::StoreEvent::Returned(v)) => {
                let frontier = if v.len() == 0 {
                    Some(None::<u64>)
                } else {
                    match u64_text_value(v@[0]@) {
                        Some(n) => Some(Some(n)),
                        None => None,
                    }
                };
                match frontier {
                    None => next.1 matches UndoAction::Fail(e) && e is Unavailable,
                    Some(after) => next.1 matches UndoAction::Settle(settlement) && settlement.ids == state.ids
                        && settlement.receipt_created_at == state.receipt_created_at && match target {
                        UndoCompensationTarget::Prose(f) => {
                            let p = state.prose->0;
                            &&& settlement.project_activity_position == p.project_activity_position
                            &&& settlement.effect == UndoLatestAuthorActionSettlementEffect::Compensated {
                                source_sequence: f.sequence,
                                author_action_sequence: p.author_action_sequence,
                                authoritative_commit_id: p.authoritative_commit_id,
                                revision_id: p.revision_id,
                                author_undo_frontier_sequence: after,
                            }
                        },
                        UndoCompensationTarget::Structure(f) => {
                            let t = state.structure->0;
                            &&& settlement.project_activity_position == t.project_activity_position
                            &&& settlement.effect == UndoLatestAuthorActionSettlementEffect::CompensatedStructure {
                                source_sequence: f.sequence,
                                author_action_sequence: t.author_action_sequence,
                                authoritative_commit_id: t.authoritative_commit_id,
                                snapshot_id: t.snapshot_id,
                                author_undo_frontier_sequence: after,
                            }
                        },
                        UndoCompensationTarget::CurrentChapter(f) => {
                            let c = state.switch->0;
                            &&& settlement.project_activity_position == c.project_activity_position
                            &&& settlement.effect == UndoLatestAuthorActionSettlementEffect::CompensatedCurrentChapter {
                                source_sequence: f.sequence,
                                author_action_sequence: c.author_action_sequence,
                                snapshot_id: c.snapshot_id,
                                author_undo_frontier_sequence: after,
                            }
                        },
                    },
                }
            },
            _ => false,
        },
{
    let UndoStep { stage, ids, target, prose, structure, switch, prior_head, receipt_created_at } = state;
    let mut next_stage = UndoStage::Done;
    let mut drawn = prose;
    let mut allocated = structure;
    let mut switched = switch;
    let mut head = prior_head;
    let mut created_at = receipt_created_at;
    let action = match (&target, stage, event) {
        (UndoCompensationTarget::Prose(f), UndoStage::Counters, crate::command::StoreEvent::Returned(v)) => match prose_compensation_sequences(
            v[0].as_str(),
            v[1].as_str(),
            v[2].as_str(),
        ) {
            Ok(p) => {
                let action = UndoAction::InsertPayload {
                    payload_id: p.payload_id.clone(),
                    canonical_payload: f.prior_payload.clone(),
                };
                drawn = Some(p);
                next_stage = UndoStage::Payload;
                action
            },
            Err(e) => UndoAction::Fail(e),
        },
        (UndoCompensationTarget::Prose(f), UndoStage::Payload, crate::command::StoreEvent::Rows(_)) => match &drawn {
            Some(p) => {
                next_stage = UndoStage::Revision;
                UndoAction::InsertRevision {
                    chapter_id: f.chapter_id.clone(),
                    revision_id: p.revision_id.clone(),
                    payload_id: p.payload_id.clone(),
                }
            },
            None => UndoAction::Fail(damaged()),
        },
        (UndoCompensationTarget::Prose(f), UndoStage::Revision, crate::command::StoreEvent::Rows(_)) => match &drawn {
            Some(p) => {
                next_stage = UndoStage::Members;
                UndoAction::CopyMembers {
                    chapter_id: f.chapter_id.clone(),
                    prior_revision_id: f.prior_revision_id.clone(),
                    revision_id: p.revision_id.clone(),
                }
            },
            None => UndoAction::Fail(damaged()),
        },
        (UndoCompensationTarget::Prose(f), UndoStage::Members, crate::command::StoreEvent::Rows(n)) => match check_undo_write(
            UndoWrite::MembersCopied,
            n,
        ) {
            Err(e) => UndoAction::Fail(e),
            Ok(()) => match &drawn {
                Some(p) => {
                    next_stage = UndoStage::Envelope;
                    UndoAction::InsertEnvelope {
                        chapter_id: f.chapter_id.clone(),
                        revision_id: p.revision_id.clone(),
                        parent_revision_id: f.current_head_revision_id.clone(),
                        payload_digest: hex_sha256(f.prior_payload.as_str()),
                    }
                },
                None => UndoAction::Fail(damaged()),
            },
        },
        (UndoCompensationTarget::Prose(f), UndoStage::Envelope, crate::command::StoreEvent::Rows(_)) => match &drawn {
            Some(p) => {
                next_stage = UndoStage::Head;
                UndoAction::AdvanceHead {
                    chapter_id: f.chapter_id.clone(),
                    revision_id: p.revision_id.clone(),
                    expected_head_revision_id: f.current_head_revision_id.clone(),
                }
            },
            None => UndoAction::Fail(damaged()),
        },
        (UndoCompensationTarget::Prose(f), UndoStage::Head, crate::command::StoreEvent::Rows(n)) => match check_undo_write(
            UndoWrite::HeadAdvanced,
            n,
        ) {
            Err(e) => UndoAction::Fail(e),
            Ok(()) => match &drawn {
                Some(p) => {
                    next_stage = UndoStage::Commit;
                    UndoAction::InsertProseCommit {
                        authoritative_commit_id: p.authoritative_commit_id.clone(),
                        authoritative_commit_sequence: p.authoritative_commit_sequence,
                        chapter_id: f.chapter_id.clone(),
                        prior_revision_id: f.current_head_revision_id.clone(),
                        resulting_revision_id: p.revision_id.clone(),
                    }
                },
                None => UndoAction::Fail(damaged()),
            },
        },
        (UndoCompensationTarget::Prose(f), UndoStage::Commit, crate::command::StoreEvent::Rows(_)) => match &drawn {
            Some(p) => {
                next_stage = UndoStage::Receipt;
                UndoAction::InsertReceipt {
                    authoritative_commit_id: Some(p.authoritative_commit_id.clone()),
                    authoritative_revision_id: Some(p.revision_id.clone()),
                    heads: Some((f.current_head_revision_id.clone(), p.revision_id.clone())),
                }
            },
            None => UndoAction::Fail(damaged()),
        },
        (UndoCompensationTarget::Prose(f), UndoStage::Receipt, crate::command::StoreEvent::Returned(v)) => match &drawn {
            Some(p) => {
                created_at = v[0].clone();
                next_stage = UndoStage::AuthorAction;
                UndoAction::InsertCompensationAuthorAction {
                    author_action_sequence: p.author_action_sequence,
                    source_sequence: f.sequence,
                    authoritative_commit_id: Some(p.authoritative_commit_id.clone()),
                }
            },
            None => UndoAction::Fail(damaged()),
        },
        (UndoCompensationTarget::Prose(_), UndoStage::AuthorAction, crate::command::StoreEvent::Rows(_)) => match &drawn {
            Some(p) => {
                next_stage = UndoStage::Activity;
                UndoAction::InsertProseActivity {
                    project_activity_position: p.project_activity_position,
                    project_activity_event_id: p.project_activity_event_id.clone(),
                    authoritative_commit_id: p.authoritative_commit_id.clone(),
                    revision_id: p.revision_id.clone(),
                    author_action_sequence: p.author_action_sequence,
                }
            },
            None => UndoAction::Fail(damaged()),
        },
        (UndoCompensationTarget::Prose(f), UndoStage::Activity, crate::command::StoreEvent::Rows(_)) => match &drawn {
            Some(p) => {
                next_stage = UndoStage::BaseSnapshot;
                UndoAction::MoveProseBaseSnapshot {
                    snapshot_id: p.base_snapshot_id.clone(),
                    revision_id: p.revision_id.clone(),
                    expected_revision_id: f.current_head_revision_id.clone(),
                    project_activity_position: p.project_activity_position,
                }
            },
            None => UndoAction::Fail(damaged()),
        },
        (UndoCompensationTarget::Prose(_), UndoStage::BaseSnapshot, crate::command::StoreEvent::Rows(n)) => match check_undo_write(
            UndoWrite::BaseSnapshotMoved,
            n,
        ) {
            Err(e) => UndoAction::Fail(e),
            Ok(()) => match &drawn {
                Some(p) => {
                    next_stage = UndoStage::Snapshot;
                    UndoAction::PersistSnapshot {
                        snapshot_id: p.base_snapshot_id.clone(),
                        project_activity_position: p.project_activity_position,
                    }
                },
                None => UndoAction::Fail(damaged()),
            },
        },
        (UndoCompensationTarget::Prose(_), UndoStage::Snapshot, crate::command::StoreEvent::Rows(_)) => {
            next_stage = UndoStage::Idempotency;
            UndoAction::SettleIdempotency
        },
        (UndoCompensationTarget::Structure(f), UndoStage::Counters, crate::command::StoreEvent::Returned(v)) => match crate::structural_authority::structure_transition_sequences(
            v[0].as_str(),
            v[1].as_str(),
            v[2].as_str(),
        ) {
            Some(t) => {
                allocated = Some(t);
                next_stage = UndoStage::TreeRevision;
                UndoAction::RestoreTreeRevision {
                    tree_revision: f.prior_manuscript_tree_revision,
                    expected_tree_revision: f.resulting_manuscript_tree_revision,
                }
            },
            None => UndoAction::Fail(damaged()),
        },
        (UndoCompensationTarget::Structure(_), UndoStage::TreeRevision, crate::command::StoreEvent::Rows(n)) => match check_undo_write(
            UndoWrite::TreeRestored,
            n,
        ) {
            Err(e) => UndoAction::Fail(e),
            Ok(()) => match &allocated {
                Some(t) => {
                    next_stage = UndoStage::Receipt;
                    UndoAction::InsertReceipt {
                        authoritative_commit_id: Some(t.authoritative_commit_id.clone()),
                        authoritative_revision_id: None,
                        heads: None,
                    }
                },
                None => UndoAction::Fail(damaged()),
            },
        },
        (UndoCompensationTarget::Structure(f), UndoStage::Receipt, crate::command::StoreEvent::Returned(v)) => {
            created_at = v[0].clone();
            next_stage = UndoStage::Restore;
            UndoAction::Restore(structure_restore(f))
        },
        (UndoCompensationTarget::Structure(f), UndoStage::Restore, crate::command::StoreEvent::Rows(_)) => match &allocated {
            Some(t) => {
                next_stage = UndoStage::Commit;
                UndoAction::InsertCommit {
                    sequences: copy_transition(t),
                    binding: structure_compensation_binding(f),
                }
            },
            None => UndoAction::Fail(damaged()),
        },
        (UndoCompensationTarget::Structure(f), UndoStage::Commit, crate::command::StoreEvent::Rows(_)) => match &allocated {
            Some(t) => {
                next_stage = UndoStage::AuthorAction;
                UndoAction::InsertCompensationAuthorAction {
                    author_action_sequence: t.author_action_sequence,
                    source_sequence: f.sequence,
                    authoritative_commit_id: Some(t.authoritative_commit_id.clone()),
                }
            },
            None => UndoAction::Fail(damaged()),
        },
        (UndoCompensationTarget::Structure(_), UndoStage::AuthorAction, crate::command::StoreEvent::Rows(_)) => match &allocated {
            Some(t) => {
                next_stage = UndoStage::Snapshot;
                UndoAction::PersistSnapshot {
                    snapshot_id: t.snapshot_id.clone(),
                    project_activity_position: t.project_activity_position,
                }
            },
            None => UndoAction::Fail(damaged()),
        },
        (UndoCompensationTarget::Structure(_), UndoStage::Snapshot, crate::command::StoreEvent::Rows(_)) => {
            next_stage = UndoStage::Idempotency;
            UndoAction::SettleIdempotency
        },
        (UndoCompensationTarget::CurrentChapter(f), UndoStage::Counters, crate::command::StoreEvent::Returned(v)) => match crate::structural_authority::current_chapter_sequences(
            v[0].as_str(),
            v[1].as_str(),
        ) {
            Some(c) => {
                switched = Some(c);
                let (expected, current) = current_chapter_compensation(f);
                next_stage = UndoStage::Project;
                UndoAction::RestoreCurrentChapter { current_chapter_id: current, expected_current_chapter_id: expected }
            },
            None => UndoAction::Fail(damaged()),
        },
        (UndoCompensationTarget::CurrentChapter(f), UndoStage::Project, crate::command::StoreEvent::Rows(n)) => match check_undo_write(
            UndoWrite::CurrentChapterRestored,
            n,
        ) {
            Err(e) => UndoAction::Fail(e),
            Ok(()) => {
                next_stage = UndoStage::PriorHead;
                UndoAction::ReadHead { chapter_id: f.prior_chapter_id.clone() }
            },
        },
        (UndoCompensationTarget::CurrentChapter(_), UndoStage::PriorHead, crate::command::StoreEvent::Returned(v)) => {
            head = v[0].clone();
            next_stage = UndoStage::Receipt;
            UndoAction::InsertReceipt { authoritative_commit_id: None, authoritative_revision_id: None, heads: None }
        },
        (UndoCompensationTarget::CurrentChapter(f), UndoStage::Receipt, crate::command::StoreEvent::Returned(v)) => match &switched {
            Some(c) => {
                created_at = v[0].clone();
                next_stage = UndoStage::AuthorAction;
                UndoAction::InsertCompensationAuthorAction {
                    author_action_sequence: c.author_action_sequence,
                    source_sequence: f.sequence,
                    authoritative_commit_id: None,
                }
            },
            None => UndoAction::Fail(damaged()),
        },
        (UndoCompensationTarget::CurrentChapter(_), UndoStage::AuthorAction, crate::command::StoreEvent::Rows(_)) => match &switched {
            Some(c) => {
                next_stage = UndoStage::Snapshot;
                UndoAction::PersistSnapshot {
                    snapshot_id: c.snapshot_id.clone(),
                    project_activity_position: c.project_activity_position,
                }
            },
            None => UndoAction::Fail(damaged()),
        },
        (UndoCompensationTarget::CurrentChapter(f), UndoStage::Snapshot, crate::command::StoreEvent::Rows(_)) => match &switched {
            Some(c) => {
                next_stage = UndoStage::BaseSnapshot;
                UndoAction::MoveBaseSnapshot {
                    snapshot_id: c.snapshot_id.clone(),
                    chapter_id: f.prior_chapter_id.clone(),
                    revision_id: head.clone(),
                    project_activity_position: c.project_activity_position,
                }
            },
            None => UndoAction::Fail(damaged()),
        },
        (UndoCompensationTarget::CurrentChapter(_), UndoStage::BaseSnapshot, crate::command::StoreEvent::Rows(n)) => match check_undo_write(
            UndoWrite::BaseSnapshotMoved,
            n,
        ) {
            Err(e) => UndoAction::Fail(e),
            Ok(()) => {
                next_stage = UndoStage::Idempotency;
                UndoAction::SettleIdempotency
            },
        },
        (_, UndoStage::Idempotency, crate::command::StoreEvent::Rows(_)) => {
            next_stage = UndoStage::Frontier;
            UndoAction::ReadFrontier
        },
        (_, UndoStage::Frontier, crate::command::StoreEvent::Returned(v)) => {
            let after = if v.len() == 0 {
                Some(None)
            } else {
                match parse_u64(v[0].as_str()) {
                    Some(n) => Some(Some(n)),
                    None => None,
                }
            };
            match (after, &target, &allocated, &switched) {
                (None, _, _, _) => UndoAction::Fail(damaged()),
                (Some(after), UndoCompensationTarget::Prose(f), _, _) => match &drawn {
                    Some(p) => UndoAction::Settle(
                        UndoLatestAuthorActionSettlement {
                            ids: ids.copied(),
                            effect: prose_compensated_effect(f.sequence, p, after),
                            receipt_created_at: created_at.clone(),
                            project_activity_position: p.project_activity_position,
                        },
                    ),
                    None => UndoAction::Fail(damaged()),
                },
                (Some(after), UndoCompensationTarget::Structure(f), Some(t), _) => UndoAction::Settle(
                    UndoLatestAuthorActionSettlement {
                        ids: ids.copied(),
                        effect: structure_compensated_effect(f.sequence, t, after),
                        receipt_created_at: created_at.clone(),
                        project_activity_position: t.project_activity_position,
                    },
                ),
                (Some(after), UndoCompensationTarget::CurrentChapter(f), _, Some(c)) => UndoAction::Settle(
                    UndoLatestAuthorActionSettlement {
                        ids: ids.copied(),
                        effect: current_chapter_compensated_effect(f.sequence, c, after),
                        receipt_created_at: created_at.clone(),
                        project_activity_position: c.project_activity_position,
                    },
                ),
                _ => UndoAction::Fail(damaged()),
            }
        },
        _ => UndoAction::Fail(damaged()),
    };
    (
        UndoStep {
            stage: next_stage,
            ids,
            target,
            prose: drawn,
            structure: allocated,
            switch: switched,
            prior_head: head,
            receipt_created_at: created_at,
        },
        action,
    )
}

/// A copy of allocated sequences.
fn copy_transition(s: &crate::structural_authority::StructureTransitionSequences) -> (copy:
    crate::structural_authority::StructureTransitionSequences)
    ensures
        copy == *s,
{
    crate::structural_authority::StructureTransitionSequences {
        author_action_sequence: s.author_action_sequence,
        authoritative_commit_sequence: s.authoritative_commit_sequence,
        project_activity_position: s.project_activity_position,
        authoritative_commit_id: s.authoritative_commit_id.clone(),
        project_activity_event_id: s.project_activity_event_id.clone(),
        snapshot_id: s.snapshot_id.clone(),
    }
}

} // verus!
