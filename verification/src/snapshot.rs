//! Canonical snapshots and the Project Activity stream: which stored snapshot
//! a read may use, and what each stored activity row projects to.

use crate::command::same_text;
use crate::json::{json_string_field, json_text_field, json_text_is_document, json_text_parses};
use crate::text::{parse_u64, u64_text_value};
use vstd::prelude::*;

verus! {

/// A canonical snapshot of a Project.
#[derive(Debug, Clone, PartialEq, Eq)]
pub struct CanonicalSnapshot {
    pub snapshot_id: String,
    pub project_activity_position: u64,
    pub replay_generation: u64,
    pub floor_position: u64,
    pub redaction_profile: String,
    pub schema_profile: String,
    pub created_at: String,
    pub expires_at: Option<String>,
}

/// A stored snapshot row: its counters as stored text, and the floor of the
/// current replay generation.
pub struct SnapshotRow {
    pub snapshot_id: String,
    pub project_activity_position: String,
    pub replay_generation: String,
    pub redaction_profile: String,
    pub schema_profile: String,
    pub created_at: String,
    pub expires_at: Option<String>,
    pub floor_position: String,
}

/// The stored counters of a row all read back.
pub open spec fn row_counters_read(row: SnapshotRow) -> bool {
    &&& u64_text_value(row.project_activity_position@) is Some
    &&& u64_text_value(row.replay_generation@) is Some
    &&& u64_text_value(row.floor_position@) is Some
}

/// The snapshot is the row with its counters read back.
pub open spec fn snapshot_of_row(snapshot: CanonicalSnapshot, row: SnapshotRow) -> bool {
    &&& snapshot.snapshot_id == row.snapshot_id
    &&& Some(snapshot.project_activity_position) == u64_text_value(row.project_activity_position@)
    &&& Some(snapshot.replay_generation) == u64_text_value(row.replay_generation@)
    &&& Some(snapshot.floor_position) == u64_text_value(row.floor_position@)
    &&& snapshot.redaction_profile == row.redaction_profile
    &&& snapshot.schema_profile == row.schema_profile
    &&& snapshot.created_at == row.created_at
    &&& snapshot.expires_at == row.expires_at
}

/// The snapshot that a stored row holds; a damaged counter gives none.
pub fn canonical_snapshot_from_row(row: SnapshotRow) -> (snapshot: Option<CanonicalSnapshot>)
    ensures
        row_counters_read(row) ==> (snapshot matches Some(s) && snapshot_of_row(s, row)),
        !row_counters_read(row) ==> snapshot is None,
{
    let ghost stored = row;
    let SnapshotRow {
        snapshot_id,
        project_activity_position,
        replay_generation,
        redaction_profile,
        schema_profile,
        created_at,
        expires_at,
        floor_position,
    } = row;
    let position = match parse_u64(project_activity_position.as_str()) {
        Some(n) => n,
        None => {
            return None;
        },
    };
    let generation = match parse_u64(replay_generation.as_str()) {
        Some(n) => n,
        None => {
            return None;
        },
    };
    let floor = match parse_u64(floor_position.as_str()) {
        Some(n) => n,
        None => {
            return None;
        },
    };
    Some(
        CanonicalSnapshot {
            snapshot_id,
            project_activity_position: position,
            replay_generation: generation,
            floor_position: floor,
            redaction_profile,
            schema_profile,
            created_at,
            expires_at,
        },
    )
}

/// What the latest canonical snapshot of a Project is.
#[derive(Debug, Clone, PartialEq, Eq)]
pub enum CanonicalSnapshotQuery {
    Available(CanonicalSnapshot),
    Expired,
    Missing,
}

/// The latest canonical snapshot: missing without a row, expired when the
/// row has expired, else the row's snapshot; `None` when its counters are
/// damaged.
pub fn canonical_snapshot_query(latest: Option<(SnapshotRow, bool)>) -> (query: Option<
    CanonicalSnapshotQuery,
>)
    ensures
        match latest {
            None => query == Some(CanonicalSnapshotQuery::Missing),
            Some((row, expired)) => if expired {
                query == Some(CanonicalSnapshotQuery::Expired)
            } else if row_counters_read(row) {
                query matches Some(CanonicalSnapshotQuery::Available(s)) && snapshot_of_row(s, row)
            } else {
                query is None
            },
        },
{
    match latest {
        None => Some(CanonicalSnapshotQuery::Missing),
        Some((row, expired)) => {
            if expired {
                Some(CanonicalSnapshotQuery::Expired)
            } else {
                match canonical_snapshot_from_row(row) {
                    Some(snapshot) => Some(CanonicalSnapshotQuery::Available(snapshot)),
                    None => None,
                }
            }
        },
    }
}

/// Why a snapshot or the activity after it cannot be read.
#[derive(Debug, Clone, PartialEq, Eq)]
pub enum SnapshotReadError {
    Expired,
    CursorTooOld,
    Unavailable(String),
}

/// What a snapshot read is for: a plain query of a snapshot, or resuming
/// the activity stream after it.
#[derive(Debug, Clone, Copy, PartialEq, Eq)]
pub enum SnapshotEligibility {
    CanonicalQuery,
    ActivityResume,
}

/// A snapshot looked up by id: none without a row; an expired snapshot is
/// refused; a resume from a snapshot behind the current replay generation or
/// floor is refused as too old; a damaged counter makes the read
/// unavailable.
pub fn eligible_snapshot(
    found: Option<SnapshotRow>,
    expired: bool,
    behind_floor: bool,
    eligibility: SnapshotEligibility,
) -> (snapshot: Result<Option<CanonicalSnapshot>, SnapshotReadError>)
    ensures
        match found {
            None => snapshot matches Ok(None),
            Some(row) => if expired {
                snapshot matches Err(e) && e == SnapshotReadError::Expired
            } else if eligibility == SnapshotEligibility::ActivityResume && behind_floor {
                snapshot matches Err(e) && e == SnapshotReadError::CursorTooOld
            } else if row_counters_read(row) {
                snapshot matches Ok(Some(s)) && snapshot_of_row(s, row)
            } else {
                snapshot matches Err(e) && e is Unavailable
            },
        },
{
    let row = match found {
        Some(row) => row,
        None => {
            return Ok(None);
        },
    };
    if expired {
        return Err(SnapshotReadError::Expired);
    }
    let resuming = match eligibility {
        SnapshotEligibility::ActivityResume => true,
        SnapshotEligibility::CanonicalQuery => false,
    };
    if resuming && behind_floor {
        return Err(SnapshotReadError::CursorTooOld);
    }
    match canonical_snapshot_from_row(row) {
        Some(snapshot) => Ok(Some(snapshot)),
        None => Err(SnapshotReadError::Unavailable(String::from_str("snapshot counter is damaged"))),
    }
}

/// A resume needs a snapshot: without one the stream is unavailable.
pub fn resume_snapshot(found: Option<CanonicalSnapshot>) -> (snapshot: Result<
    CanonicalSnapshot,
    SnapshotReadError,
>)
    ensures
        match found {
            Some(s) => snapshot matches Ok(t) && t == s,
            None => snapshot matches Err(e) && e is Unavailable,
        },
{
    match found {
        Some(s) => Ok(s),
        None => Err(SnapshotReadError::Unavailable(String::from_str("canonical snapshot is unavailable"))),
    }
}

/// The kinds of Project Activity that the stream projects.
#[derive(Debug, Clone, Copy, PartialEq, Eq)]
pub enum ProjectActivityKind {
    AuthoritativeAuthorEditApplied,
    ChapterCreated,
    ChapterUpdated,
    ChapterDeleted,
    CurrentChapterSet,
    VolumeCreated,
    VolumeUpdated,
    VolumeDeleted,
    ProjectCreated,
    ProjectUpdated,
    ProjectArchivalChanged,
    WriterTakeoverApplied,
    WriterTakeoverCompareFailed,
    HumanReadableManuscriptExportSettled,
    ProjectExportSettled,
}

/// The kind that a stored event kind names, if the stream projects it.
pub open spec fn kind_of_text(text: Seq<char>) -> Option<ProjectActivityKind> {
    if text == "authoritative_author_edit_applied"@ {
        Some(ProjectActivityKind::AuthoritativeAuthorEditApplied)
    } else if text == "chapter_created"@ {
        Some(ProjectActivityKind::ChapterCreated)
    } else if text == "chapter_updated"@ {
        Some(ProjectActivityKind::ChapterUpdated)
    } else if text == "chapter_deleted"@ {
        Some(ProjectActivityKind::ChapterDeleted)
    } else if text == "current_chapter_set"@ {
        Some(ProjectActivityKind::CurrentChapterSet)
    } else if text == "volume_created"@ {
        Some(ProjectActivityKind::VolumeCreated)
    } else if text == "volume_updated"@ {
        Some(ProjectActivityKind::VolumeUpdated)
    } else if text == "volume_deleted"@ {
        Some(ProjectActivityKind::VolumeDeleted)
    } else if text == "project_created"@ {
        Some(ProjectActivityKind::ProjectCreated)
    } else if text == "project_updated"@ {
        Some(ProjectActivityKind::ProjectUpdated)
    } else if text == "project_archival_changed"@ {
        Some(ProjectActivityKind::ProjectArchivalChanged)
    } else if text == "writer_takeover_applied"@ {
        Some(ProjectActivityKind::WriterTakeoverApplied)
    } else if text == "writer_takeover_compare_failed"@ {
        Some(ProjectActivityKind::WriterTakeoverCompareFailed)
    } else if text == "human_readable_manuscript_export_settled"@ {
        Some(ProjectActivityKind::HumanReadableManuscriptExportSettled)
    } else if text == "project_export_settled"@ {
        Some(ProjectActivityKind::ProjectExportSettled)
    } else {
        None
    }
}

/// The event kind under which the store records an event of `kind`.
pub open spec fn persisted_name(kind: ProjectActivityKind) -> Seq<char> {
    match kind {
        ProjectActivityKind::AuthoritativeAuthorEditApplied => "authoritative_author_edit_applied"@,
        ProjectActivityKind::ChapterCreated => "chapter_created"@,
        ProjectActivityKind::ChapterUpdated => "chapter_updated"@,
        ProjectActivityKind::ChapterDeleted => "chapter_deleted"@,
        ProjectActivityKind::CurrentChapterSet => "current_chapter_set"@,
        ProjectActivityKind::VolumeCreated => "volume_created"@,
        ProjectActivityKind::VolumeUpdated => "volume_updated"@,
        ProjectActivityKind::VolumeDeleted => "volume_deleted"@,
        ProjectActivityKind::ProjectCreated => "project_created"@,
        ProjectActivityKind::ProjectUpdated => "project_updated"@,
        ProjectActivityKind::ProjectArchivalChanged => "project_archival_changed"@,
        ProjectActivityKind::WriterTakeoverApplied => "writer_takeover_applied"@,
        ProjectActivityKind::WriterTakeoverCompareFailed => "writer_takeover_compare_failed"@,
        ProjectActivityKind::HumanReadableManuscriptExportSettled => "human_readable_manuscript_export_settled"@,
        ProjectActivityKind::ProjectExportSettled => "project_export_settled"@,
    }
}

/// Law: the stored event kind of every kind reads back as that kind, so an
/// event is listed under the kind it was recorded with.
pub proof fn lemma_activity_kind_round_trip(kind: ProjectActivityKind)
    ensures
        kind_of_text(persisted_name(kind)) == Some(kind),
{
    reveal_strlit("authoritative_author_edit_applied");
    reveal_strlit("chapter_created");
    reveal_strlit("chapter_updated");
    reveal_strlit("chapter_deleted");
    reveal_strlit("current_chapter_set");
    reveal_strlit("volume_created");
    reveal_strlit("volume_updated");
    reveal_strlit("volume_deleted");
    reveal_strlit("project_created");
    reveal_strlit("project_updated");
    reveal_strlit("project_archival_changed");
    reveal_strlit("writer_takeover_applied");
    reveal_strlit("writer_takeover_compare_failed");
    reveal_strlit("human_readable_manuscript_export_settled");
    reveal_strlit("project_export_settled");
    match kind {
        ProjectActivityKind::AuthoritativeAuthorEditApplied => {},
        ProjectActivityKind::ChapterCreated => {
            assert("chapter_created"@.len() != "authoritative_author_edit_applied"@.len());
        },
        ProjectActivityKind::ChapterUpdated => {
            assert("chapter_updated"@.len() != "authoritative_author_edit_applied"@.len());
            assert("chapter_updated"@[8] != "chapter_created"@[8]);
        },
        ProjectActivityKind::ChapterDeleted => {
            assert("chapter_deleted"@.len() != "authoritative_author_edit_applied"@.len());
            assert("chapter_deleted"@[8] != "chapter_created"@[8]);
            assert("chapter_deleted"@[8] != "chapter_updated"@[8]);
        },
        ProjectActivityKind::CurrentChapterSet => {
            assert("current_chapter_set"@.len() != "authoritative_author_edit_applied"@.len());
            assert("current_chapter_set"@.len() != "chapter_created"@.len());
            assert("current_chapter_set"@.len() != "chapter_updated"@.len());
            assert("current_chapter_set"@.len() != "chapter_deleted"@.len());
        },
        ProjectActivityKind::VolumeCreated => {
            assert("volume_created"@.len() != "authoritative_author_edit_applied"@.len());
            assert("volume_created"@.len() != "chapter_created"@.len());
            assert("volume_created"@.len() != "chapter_updated"@.len());
            assert("volume_created"@.len() != "chapter_deleted"@.len());
            assert("volume_created"@.len() != "current_chapter_set"@.len());
        },
        ProjectActivityKind::VolumeUpdated => {
            assert("volume_updated"@.len() != "authoritative_author_edit_applied"@.len());
            assert("volume_updated"@.len() != "chapter_created"@.len());
            assert("volume_updated"@.len() != "chapter_updated"@.len());
            assert("volume_updated"@.len() != "chapter_deleted"@.len());
            assert("volume_updated"@.len() != "current_chapter_set"@.len());
            assert("volume_updated"@[7] != "volume_created"@[7]);
        },
        ProjectActivityKind::VolumeDeleted => {
            assert("volume_deleted"@.len() != "authoritative_author_edit_applied"@.len());
            assert("volume_deleted"@.len() != "chapter_created"@.len());
            assert("volume_deleted"@.len() != "chapter_updated"@.len());
            assert("volume_deleted"@.len() != "chapter_deleted"@.len());
            assert("volume_deleted"@.len() != "current_chapter_set"@.len());
            assert("volume_deleted"@[7] != "volume_created"@[7]);
            assert("volume_deleted"@[7] != "volume_updated"@[7]);
        },
        ProjectActivityKind::ProjectCreated => {
            assert("project_created"@.len() != "authoritative_author_edit_applied"@.len());
            assert("project_created"@[0] != "chapter_created"@[0]);
            assert("project_created"@[0] != "chapter_updated"@[0]);
            assert("project_created"@[0] != "chapter_deleted"@[0]);
            assert("project_created"@.len() != "current_chapter_set"@.len());
            assert("project_created"@.len() != "volume_created"@.len());
            assert("project_created"@.len() != "volume_updated"@.len());
            assert("project_created"@.len() != "volume_deleted"@.len());
        },
        ProjectActivityKind::ProjectUpdated => {
            assert("project_updated"@.len() != "authoritative_author_edit_applied"@.len());
            assert("project_updated"@[0] != "chapter_created"@[0]);
            assert("project_updated"@[0] != "chapter_updated"@[0]);
            assert("project_updated"@[0] != "chapter_deleted"@[0]);
            assert("project_updated"@.len() != "current_chapter_set"@.len());
            assert("project_updated"@.len() != "volume_created"@.len());
            assert("project_updated"@.len() != "volume_updated"@.len());
            assert("project_updated"@.len() != "volume_deleted"@.len());
            assert("project_updated"@[8] != "project_created"@[8]);
        },
        ProjectActivityKind::ProjectArchivalChanged => {
            assert("project_archival_changed"@.len() != "authoritative_author_edit_applied"@.len());
            assert("project_archival_changed"@.len() != "chapter_created"@.len());
            assert("project_archival_changed"@.len() != "chapter_updated"@.len());
            assert("project_archival_changed"@.len() != "chapter_deleted"@.len());
            assert("project_archival_changed"@.len() != "current_chapter_set"@.len());
            assert("project_archival_changed"@.len() != "volume_created"@.len());
            assert("project_archival_changed"@.len() != "volume_updated"@.len());
            assert("project_archival_changed"@.len() != "volume_deleted"@.len());
            assert("project_archival_changed"@.len() != "project_created"@.len());
            assert("project_archival_changed"@.len() != "project_updated"@.len());
        },
        ProjectActivityKind::WriterTakeoverApplied => {
            assert("writer_takeover_applied"@.len() != "authoritative_author_edit_applied"@.len());
            assert("writer_takeover_applied"@.len() != "chapter_created"@.len());
            assert("writer_takeover_applied"@.len() != "chapter_updated"@.len());
            assert("writer_takeover_applied"@.len() != "chapter_deleted"@.len());
            assert("writer_takeover_applied"@.len() != "current_chapter_set"@.len());
            assert("writer_takeover_applied"@.len() != "volume_created"@.len());
            assert("writer_takeover_applied"@.len() != "volume_updated"@.len());
            assert("writer_takeover_applied"@.len() != "volume_deleted"@.len());
            assert("writer_takeover_applied"@.len() != "project_created"@.len());
            assert("writer_takeover_applied"@.len() != "project_updated"@.len());
            assert("writer_takeover_applied"@.len() != "project_archival_changed"@.len());
        },
        ProjectActivityKind::WriterTakeoverCompareFailed => {
            assert("writer_takeover_compare_failed"@.len() != "authoritative_author_edit_applied"@.len());
            assert("writer_takeover_compare_failed"@.len() != "chapter_created"@.len());
            assert("writer_takeover_compare_failed"@.len() != "chapter_updated"@.len());
            assert("writer_takeover_compare_failed"@.len() != "chapter_deleted"@.len());
            assert("writer_takeover_compare_failed"@.len() != "current_chapter_set"@.len());
            assert("writer_takeover_compare_failed"@.len() != "volume_created"@.len());
            assert("writer_takeover_compare_failed"@.len() != "volume_updated"@.len());
            assert("writer_takeover_compare_failed"@.len() != "volume_deleted"@.len());
            assert("writer_takeover_compare_failed"@.len() != "project_created"@.len());
            assert("writer_takeover_compare_failed"@.len() != "project_updated"@.len());
            assert("writer_takeover_compare_failed"@.len() != "project_archival_changed"@.len());
            assert("writer_takeover_compare_failed"@.len() != "writer_takeover_applied"@.len());
        },
        ProjectActivityKind::HumanReadableManuscriptExportSettled => {
            assert("human_readable_manuscript_export_settled"@.len() != "authoritative_author_edit_applied"@.len());
            assert("human_readable_manuscript_export_settled"@.len() != "chapter_created"@.len());
            assert("human_readable_manuscript_export_settled"@.len() != "chapter_updated"@.len());
            assert("human_readable_manuscript_export_settled"@.len() != "chapter_deleted"@.len());
            assert("human_readable_manuscript_export_settled"@.len() != "current_chapter_set"@.len());
            assert("human_readable_manuscript_export_settled"@.len() != "volume_created"@.len());
            assert("human_readable_manuscript_export_settled"@.len() != "volume_updated"@.len());
            assert("human_readable_manuscript_export_settled"@.len() != "volume_deleted"@.len());
            assert("human_readable_manuscript_export_settled"@.len() != "project_created"@.len());
            assert("human_readable_manuscript_export_settled"@.len() != "project_updated"@.len());
            assert("human_readable_manuscript_export_settled"@.len() != "project_archival_changed"@.len());
            assert("human_readable_manuscript_export_settled"@.len() != "writer_takeover_applied"@.len());
            assert("human_readable_manuscript_export_settled"@.len() != "writer_takeover_compare_failed"@.len());
        },
        ProjectActivityKind::ProjectExportSettled => {
            assert("project_export_settled"@.len() != "authoritative_author_edit_applied"@.len());
            assert("project_export_settled"@.len() != "chapter_created"@.len());
            assert("project_export_settled"@.len() != "chapter_updated"@.len());
            assert("project_export_settled"@.len() != "chapter_deleted"@.len());
            assert("project_export_settled"@.len() != "current_chapter_set"@.len());
            assert("project_export_settled"@.len() != "volume_created"@.len());
            assert("project_export_settled"@.len() != "volume_updated"@.len());
            assert("project_export_settled"@.len() != "volume_deleted"@.len());
            assert("project_export_settled"@.len() != "project_created"@.len());
            assert("project_export_settled"@.len() != "project_updated"@.len());
            assert("project_export_settled"@.len() != "project_archival_changed"@.len());
            assert("project_export_settled"@.len() != "writer_takeover_applied"@.len());
            assert("project_export_settled"@.len() != "writer_takeover_compare_failed"@.len());
            assert("project_export_settled"@.len() != "human_readable_manuscript_export_settled"@.len());
        },
    }
}

/// Law: distinct stored event kinds name distinct kinds; no two stored
/// kinds are listed as the same kind.
pub proof fn lemma_activity_kind_distinct(a: Seq<char>, b: Seq<char>)
    requires
        kind_of_text(a) is Some,
        kind_of_text(a) == kind_of_text(b),
    ensures
        a == b,
{
}

impl ProjectActivityKind {
    /// The event kind under which the store records this kind.
    pub fn persisted(&self) -> (text: &'static str)
        ensures
            text@ == persisted_name(*self),
    {
        match self {
            ProjectActivityKind::AuthoritativeAuthorEditApplied => "authoritative_author_edit_applied",
            ProjectActivityKind::ChapterCreated => "chapter_created",
            ProjectActivityKind::ChapterUpdated => "chapter_updated",
            ProjectActivityKind::ChapterDeleted => "chapter_deleted",
            ProjectActivityKind::CurrentChapterSet => "current_chapter_set",
            ProjectActivityKind::VolumeCreated => "volume_created",
            ProjectActivityKind::VolumeUpdated => "volume_updated",
            ProjectActivityKind::VolumeDeleted => "volume_deleted",
            ProjectActivityKind::ProjectCreated => "project_created",
            ProjectActivityKind::ProjectUpdated => "project_updated",
            ProjectActivityKind::ProjectArchivalChanged => "project_archival_changed",
            ProjectActivityKind::WriterTakeoverApplied => "writer_takeover_applied",
            ProjectActivityKind::WriterTakeoverCompareFailed => "writer_takeover_compare_failed",
            ProjectActivityKind::HumanReadableManuscriptExportSettled => "human_readable_manuscript_export_settled",
            ProjectActivityKind::ProjectExportSettled => "project_export_settled",
        }
    }

    /// The kind of a stored event kind; `None` for a kind the stream does not
    /// project.
    pub fn from_persisted(text: &str) -> (kind: Option<ProjectActivityKind>)
        ensures
            kind == kind_of_text(text@),
    {
        if same_text(text, "authoritative_author_edit_applied") {
            Some(ProjectActivityKind::AuthoritativeAuthorEditApplied)
        } else if same_text(text, "chapter_created") {
            Some(ProjectActivityKind::ChapterCreated)
        } else if same_text(text, "chapter_updated") {
            Some(ProjectActivityKind::ChapterUpdated)
        } else if same_text(text, "chapter_deleted") {
            Some(ProjectActivityKind::ChapterDeleted)
        } else if same_text(text, "current_chapter_set") {
            Some(ProjectActivityKind::CurrentChapterSet)
        } else if same_text(text, "volume_created") {
            Some(ProjectActivityKind::VolumeCreated)
        } else if same_text(text, "volume_updated") {
            Some(ProjectActivityKind::VolumeUpdated)
        } else if same_text(text, "volume_deleted") {
            Some(ProjectActivityKind::VolumeDeleted)
        } else if same_text(text, "project_created") {
            Some(ProjectActivityKind::ProjectCreated)
        } else if same_text(text, "project_updated") {
            Some(ProjectActivityKind::ProjectUpdated)
        } else if same_text(text, "project_archival_changed") {
            Some(ProjectActivityKind::ProjectArchivalChanged)
        } else if same_text(text, "writer_takeover_applied") {
            Some(ProjectActivityKind::WriterTakeoverApplied)
        } else if same_text(text, "writer_takeover_compare_failed") {
            Some(ProjectActivityKind::WriterTakeoverCompareFailed)
        } else if same_text(text, "human_readable_manuscript_export_settled") {
            Some(ProjectActivityKind::HumanReadableManuscriptExportSettled)
        } else if same_text(text, "project_export_settled") {
            Some(ProjectActivityKind::ProjectExportSettled)
        } else {
            None
        }
    }
}

/// The aggregate that an activity event is about.
#[derive(Debug, Clone, PartialEq, Eq)]
pub struct ActivityAggregateRef {
    pub kind: String,
    pub id: String,
}

/// The non-empty text member `key` of a payload.
pub open spec fn nonempty_field(payload: Seq<char>, key: Seq<char>) -> Option<Seq<char>> {
    match json_text_field(payload, key) {
        Some(value) => if value.len() > 0 {
            Some(value)
        } else {
            None
        },
        None => None,
    }
}

/// The aggregate kind and id of an event of `kind`: a Chapter, a Volume,
/// an editor session or an export named by a payload member, or the Project
/// itself; `None` when the member is missing or empty.
pub open spec fn aggregate_of(kind: ProjectActivityKind, payload: Seq<char>, project_id: Seq<char>) -> Option<
    (Seq<char>, Seq<char>),
> {
    let named = |aggregate: Seq<char>, key: Seq<char>| match nonempty_field(payload, key) {
        Some(id) => Some((aggregate, id)),
        None => None,
    };
    match kind {
        ProjectActivityKind::AuthoritativeAuthorEditApplied => named("chapter"@, "chapter_id"@),
        ProjectActivityKind::ChapterCreated => named("chapter"@, "chapter_id"@),
        ProjectActivityKind::ChapterUpdated => named("chapter"@, "chapter_id"@),
        ProjectActivityKind::ChapterDeleted => named("chapter"@, "chapter_id"@),
        ProjectActivityKind::CurrentChapterSet => named("chapter"@, "current_chapter_id"@),
        ProjectActivityKind::VolumeCreated => named("volume"@, "volume_id"@),
        ProjectActivityKind::VolumeUpdated => named("volume"@, "volume_id"@),
        ProjectActivityKind::VolumeDeleted => named("volume"@, "volume_id"@),
        ProjectActivityKind::ProjectCreated => Some(("project"@, project_id)),
        ProjectActivityKind::ProjectUpdated => Some(("project"@, project_id)),
        ProjectActivityKind::ProjectArchivalChanged => Some(("project"@, project_id)),
        ProjectActivityKind::WriterTakeoverApplied => named(
            "editor_session"@,
            "resulting_editor_session_id"@,
        ),
        ProjectActivityKind::WriterTakeoverCompareFailed => Some(("project"@, project_id)),
        ProjectActivityKind::HumanReadableManuscriptExportSettled => named("export"@, "export_id"@),
        ProjectActivityKind::ProjectExportSettled => named("export"@, "export_id"@),
    }
}

/// The non-empty text member `key` of a payload document.
fn required_field(payload: &str, key: &str) -> (value: Result<String, SnapshotReadError>)
    ensures
        match nonempty_field(payload@, key@) {
            Some(v) => value matches Ok(s) && s@ == v,
            None => value matches Err(e) && e is Unavailable,
        },
{
    match json_string_field(payload, key) {
        Some(value) => {
            if value.unicode_len() > 0 {
                Ok(value)
            } else {
                Err(SnapshotReadError::Unavailable(String::from_str("activity payload is incomplete")))
            }
        },
        None => Err(SnapshotReadError::Unavailable(String::from_str("activity payload is incomplete"))),
    }
}

/// An aggregate named by a payload member.
fn named_aggregate(aggregate: &str, payload: &str, key: &str) -> (reference: Result<
    ActivityAggregateRef,
    SnapshotReadError,
>)
    ensures
        match nonempty_field(payload@, key@) {
            Some(v) => reference matches Ok(r) && r.kind@ == aggregate@ && r.id@ == v,
            None => reference matches Err(e) && e is Unavailable,
        },
{
    let id = required_field(payload, key)?;
    Ok(ActivityAggregateRef { kind: String::from_str(aggregate), id })
}

/// The aggregate that an activity event of `kind` is about, from its payload
/// document; a missing or empty member makes the stream unavailable.
pub fn payload_aggregate(kind: ProjectActivityKind, payload: &str, project_id: &str) -> (reference:
    Result<ActivityAggregateRef, SnapshotReadError>)
    ensures
        match aggregate_of(kind, payload@, project_id@) {
            Some((k, id)) => reference matches Ok(r) && r.kind@ == k && r.id@ == id,
            None => reference matches Err(e) && e is Unavailable,
        },
{
    match kind {
        ProjectActivityKind::AuthoritativeAuthorEditApplied => named_aggregate("chapter", payload, "chapter_id"),
        ProjectActivityKind::ChapterCreated => named_aggregate("chapter", payload, "chapter_id"),
        ProjectActivityKind::ChapterUpdated => named_aggregate("chapter", payload, "chapter_id"),
        ProjectActivityKind::ChapterDeleted => named_aggregate("chapter", payload, "chapter_id"),
        ProjectActivityKind::CurrentChapterSet => named_aggregate("chapter", payload, "current_chapter_id"),
        ProjectActivityKind::VolumeCreated => named_aggregate("volume", payload, "volume_id"),
        ProjectActivityKind::VolumeUpdated => named_aggregate("volume", payload, "volume_id"),
        ProjectActivityKind::VolumeDeleted => named_aggregate("volume", payload, "volume_id"),
        ProjectActivityKind::ProjectCreated => Ok(
            ActivityAggregateRef { kind: String::from_str("project"), id: String::from_str(project_id) },
        ),
        ProjectActivityKind::ProjectUpdated => Ok(
            ActivityAggregateRef { kind: String::from_str("project"), id: String::from_str(project_id) },
        ),
        ProjectActivityKind::ProjectArchivalChanged => Ok(
            ActivityAggregateRef { kind: String::from_str("project"), id: String::from_str(project_id) },
        ),
        ProjectActivityKind::WriterTakeoverApplied => named_aggregate(
            "editor_session",
            payload,
            "resulting_editor_session_id",
        ),
        ProjectActivityKind::WriterTakeoverCompareFailed => Ok(
            ActivityAggregateRef { kind: String::from_str("project"), id: String::from_str(project_id) },
        ),
        ProjectActivityKind::HumanReadableManuscriptExportSettled => named_aggregate(
            "export",
            payload,
            "export_id",
        ),
        ProjectActivityKind::ProjectExportSettled => named_aggregate("export", payload, "export_id"),
    }
}

/// A stored activity row, its position as stored text.
pub struct ActivityRow {
    pub event_id: String,
    pub project_activity_position: String,
    pub event_kind: String,
    pub command_id: String,
    pub correlation_id: String,
    pub receipt_id: String,
    pub occurred_at: String,
    pub payload_json: String,
}

/// One event of the Project Activity stream.
#[derive(Debug, Clone, PartialEq, Eq)]
pub struct ProjectActivityEvent {
    pub event_id: String,
    pub kind: ProjectActivityKind,
    pub project_sequence: u64,
    pub stream_sequence: u64,
    pub command_id: String,
    pub correlation_id: String,
    pub receipt_id: String,
    pub occurred_at: String,
    pub aggregate: ActivityAggregateRef,
    pub payload_json: String,
}

/// A stored row projects to an event: its position reads back, its kind is
/// projected, its payload is a JSON document, and the payload names the
/// aggregate.
pub open spec fn row_projects(row: ActivityRow, project_id: Seq<char>) -> bool {
    &&& u64_text_value(row.project_activity_position@) is Some
    &&& kind_of_text(row.event_kind@) is Some
    &&& json_text_parses(row.payload_json@)
    &&& aggregate_of(kind_of_text(row.event_kind@)->0, row.payload_json@, project_id) is Some
}

/// The event is the projection of the row.
pub open spec fn event_of_row(event: ProjectActivityEvent, row: ActivityRow, project_id: Seq<char>) -> bool {
    &&& event.event_id@ == row.event_id@
    &&& Some(event.kind) == kind_of_text(row.event_kind@)
    &&& Some(event.project_sequence) == u64_text_value(row.project_activity_position@)
    &&& event.stream_sequence == event.project_sequence
    &&& event.command_id@ == row.command_id@
    &&& event.correlation_id@ == row.correlation_id@
    &&& event.receipt_id@ == row.receipt_id@
    &&& event.occurred_at@ == row.occurred_at@
    &&& event.payload_json@ == row.payload_json@
    &&& aggregate_of(event.kind, row.payload_json@, project_id) == Some(
        (event.aggregate.kind@, event.aggregate.id@),
    )
}

/// Projects one stored activity row; any defect makes the stream
/// unavailable.
pub fn activity_event(row: &ActivityRow, project_id: &str) -> (event: Result<
    ProjectActivityEvent,
    SnapshotReadError,
>)
    ensures
        row_projects(*row, project_id@) ==> (event matches Ok(e) && event_of_row(e, *row, project_id@)),
        !row_projects(*row, project_id@) ==> (event matches Err(e) && e is Unavailable),
{
    let project_sequence = match parse_u64(row.project_activity_position.as_str()) {
        Some(n) => n,
        None => {
            return Err(SnapshotReadError::Unavailable(String::from_str("activity position is damaged")));
        },
    };
    let kind = match ProjectActivityKind::from_persisted(row.event_kind.as_str()) {
        Some(kind) => kind,
        None => {
            return Err(
                SnapshotReadError::Unavailable(String::from_str("persisted Activity kind is unprojected")),
            );
        },
    };
    if !json_text_is_document(row.payload_json.as_str()) {
        return Err(SnapshotReadError::Unavailable(String::from_str("activity payload is no JSON document")));
    }
    let aggregate = payload_aggregate(kind, row.payload_json.as_str(), project_id)?;
    Ok(
        ProjectActivityEvent {
            event_id: row.event_id.clone(),
            kind,
            project_sequence,
            stream_sequence: project_sequence,
            command_id: row.command_id.clone(),
            correlation_id: row.correlation_id.clone(),
            receipt_id: row.receipt_id.clone(),
            occurred_at: row.occurred_at.clone(),
            aggregate,
            payload_json: row.payload_json.clone(),
        },
    )
}

/// Projects the stored activity rows in order; the first row that does not
/// project makes the whole stream unavailable.
pub fn project_activity_events(rows: &Vec<ActivityRow>, project_id: &str) -> (events: Result<
    Vec<ProjectActivityEvent>,
    SnapshotReadError,
>)
    ensures
        (forall|i: int| 0 <= i < rows@.len() ==> row_projects(#[trigger] rows@[i], project_id@)) ==> (
        events matches Ok(list) && list@.len() == rows@.len() && forall|i: int|
            0 <= i < rows@.len() ==> event_of_row(#[trigger] list@[i], rows@[i], project_id@)),
        !(forall|i: int| 0 <= i < rows@.len() ==> row_projects(#[trigger] rows@[i], project_id@)) ==> (
        events matches Err(e) && e is Unavailable),
{
    let mut events: Vec<ProjectActivityEvent> = Vec::new();
    let mut i: usize = 0;
    while i < rows.len()
        invariant
            i <= rows@.len(),
            events@.len() == i,
            forall|k: int| 0 <= k < i ==> row_projects(#[trigger] rows@[k], project_id@),
            forall|k: int| 0 <= k < i ==> event_of_row(#[trigger] events@[k], rows@[k], project_id@),
        decreases rows@.len() - i,
    {
        match activity_event(&rows[i], project_id) {
            Ok(e) => {
                events.push(e);
            },
            Err(error) => {
                return Err(error);
            },
        }
        i = i + 1;
    }
    Ok(events)
}

} // verus!
