//! Structural authority: the counters and identities that a structural
//! transition allocates, and the columns its Commit binds.

use crate::ids::new_object_id;
use crate::text::{parse_u64, u64_text_value};
use vstd::prelude::*;

verus! {

/// The counters and fresh identities of a structural transition.
#[derive(Debug, Clone, PartialEq, Eq)]
pub struct StructureTransitionSequences {
    pub author_action_sequence: u64,
    pub authoritative_commit_sequence: u64,
    pub project_activity_position: u64,
    pub authoritative_commit_id: String,
    pub project_activity_event_id: String,
    pub snapshot_id: String,
}

/// The counters and fresh identities of a Current Chapter transition, which
/// writes no Commit.
#[derive(Debug, Clone, PartialEq, Eq)]
pub struct CurrentChapterSequences {
    pub author_action_sequence: u64,
    pub project_activity_position: u64,
    pub project_activity_event_id: String,
    pub snapshot_id: String,
}

/// The sequences of a structural transition from the counters that the
/// scope counter row returned, with fresh Commit, event and snapshot ids; a
/// damaged counter gives none.
pub fn structure_transition_sequences(
    author_action_sequence: &str,
    authoritative_commit_sequence: &str,
    project_activity_position: &str,
) -> (sequences: Option<StructureTransitionSequences>)
    ensures
        match (
            u64_text_value(author_action_sequence@),
            u64_text_value(authoritative_commit_sequence@),
            u64_text_value(project_activity_position@),
        ) {
            (Some(action), Some(commit), Some(position)) => sequences matches Some(s)
                && s.author_action_sequence == action && s.authoritative_commit_sequence == commit
                && s.project_activity_position == position && s.authoritative_commit_id@.len() == 36
                && s.project_activity_event_id@.len() == 36 && s.snapshot_id@.len() == 36,
            _ => sequences is None,
        },
{
    let action = match parse_u64(author_action_sequence) {
        Some(n) => n,
        None => {
            return None;
        },
    };
    let commit = match parse_u64(authoritative_commit_sequence) {
        Some(n) => n,
        None => {
            return None;
        },
    };
    let position = match parse_u64(project_activity_position) {
        Some(n) => n,
        None => {
            return None;
        },
    };
    Some(
        StructureTransitionSequences {
            author_action_sequence: action,
            authoritative_commit_sequence: commit,
            project_activity_position: position,
            authoritative_commit_id: new_object_id(),
            project_activity_event_id: new_object_id(),
            snapshot_id: new_object_id(),
        },
    )
}

/// The sequences of a Current Chapter transition from the returned
/// counters, with fresh event and snapshot ids; a damaged counter gives none.
pub fn current_chapter_sequences(author_action_sequence: &str, project_activity_position: &str) -> (sequences:
    Option<CurrentChapterSequences>)
    ensures
        match (u64_text_value(author_action_sequence@), u64_text_value(project_activity_position@)) {
            (Some(action), Some(position)) => sequences matches Some(s) && s.author_action_sequence
                == action && s.project_activity_position == position
                && s.project_activity_event_id@.len() == 36 && s.snapshot_id@.len() == 36,
            _ => sequences is None,
        },
{
    let action = match parse_u64(author_action_sequence) {
        Some(n) => n,
        None => {
            return None;
        },
    };
    let position = match parse_u64(project_activity_position) {
        Some(n) => n,
        None => {
            return None;
        },
    };
    Some(
        CurrentChapterSequences {
            author_action_sequence: action,
            project_activity_position: position,
            project_activity_event_id: new_object_id(),
            snapshot_id: new_object_id(),
        },
    )
}

/// What a structural Commit is about.
#[derive(Debug, Clone, PartialEq, Eq)]
pub enum StructureAffectedIdentity {
    Volume { volume_id: String },
    Chapter { chapter_id: String },
    ChapterInitialRevision { chapter_id: String, resulting_revision_id: String },
}

/// The manuscript tree revisions and the identity that a structural Commit
/// binds.
#[derive(Debug, Clone, PartialEq, Eq)]
pub struct StructureCommitBinding {
    pub prior_manuscript_tree_revision: u64,
    pub resulting_manuscript_tree_revision: u64,
    pub identity: StructureAffectedIdentity,
}

/// The identity columns of a structural Commit row.
#[derive(Debug, Clone, PartialEq, Eq)]
pub struct CommitIdentityColumns {
    pub affected_volume_id: Option<String>,
    pub affected_chapter_id: Option<String>,
    pub manuscript_object_id: Option<String>,
    pub resulting_revision_id: Option<String>,
}

/// The identity columns that a Commit writes: a Volume or Chapter Commit
/// names the one it affects and no revision; the genesis Commit of a new
/// Chapter names the Chapter as the affected Chapter and as the manuscript
/// object, with its initial revision.
pub fn commit_identity_columns(identity: &StructureAffectedIdentity) -> (columns: CommitIdentityColumns)
    ensures
        match identity {
            StructureAffectedIdentity::Volume { volume_id } => columns.affected_volume_id == Some(
                *volume_id,
            ) && columns.affected_chapter_id is None && columns.manuscript_object_id is None
                && columns.resulting_revision_id is None,
            StructureAffectedIdentity::Chapter { chapter_id } => columns.affected_volume_id is None
                && columns.affected_chapter_id == Some(*chapter_id) && columns.manuscript_object_id is None
                && columns.resulting_revision_id is None,
            StructureAffectedIdentity::ChapterInitialRevision { chapter_id, resulting_revision_id } =>
                columns.affected_volume_id is None && columns.affected_chapter_id == Some(*chapter_id)
                && columns.manuscript_object_id == Some(*chapter_id) && columns.resulting_revision_id
                == Some(*resulting_revision_id),
        },
{
    match identity {
        StructureAffectedIdentity::Volume { volume_id } => CommitIdentityColumns {
            affected_volume_id: Some(volume_id.clone()),
            affected_chapter_id: None,
            manuscript_object_id: None,
            resulting_revision_id: None,
        },
        StructureAffectedIdentity::Chapter { chapter_id } => CommitIdentityColumns {
            affected_volume_id: None,
            affected_chapter_id: Some(chapter_id.clone()),
            manuscript_object_id: None,
            resulting_revision_id: None,
        },
        StructureAffectedIdentity::ChapterInitialRevision { chapter_id, resulting_revision_id } =>
            CommitIdentityColumns {
            affected_volume_id: None,
            affected_chapter_id: Some(chapter_id.clone()),
            manuscript_object_id: Some(chapter_id.clone()),
            resulting_revision_id: Some(resulting_revision_id.clone()),
        },
    }
}

} // verus!
