//! The SELECT-only Release 1 Storage Activation proof requirement that Server and
//! Worker pass before they open a pool.

use crate::storage_activation::{
    activation_error_text, catalog_matches_embedded, declared_identity, identity_texts,
    packaged_catalog, packaged_identity, same_identity, EmbeddedSource, PackagedCatalog,
    PackagedIdentity, StorageActivationError,
};
use vstd::prelude::*;

verus! {

/// Why the proof requirement does not let the process start. `Unavailable` carries
/// the text of the failure.
#[derive(Debug)]
pub enum StorageActivationProofError {
    MissingOrInactive,
    IdentityMismatch,
    Unavailable(String),
}

/// The report that a requirement error prints.
pub open spec fn proof_error_text(error: StorageActivationProofError) -> Seq<char> {
    match error {
        StorageActivationProofError::MissingOrInactive =>
            "Release 1 Storage Activation is missing or not Active"@,
        StorageActivationProofError::IdentityMismatch =>
            "Release 1 Storage Activation identity does not match"@,
        StorageActivationProofError::Unavailable(source) =>
            "Release 1 Storage Activation is unavailable: "@ + source@,
    }
}

impl StorageActivationProofError {
    /// The report that the error prints.
    pub fn describe(&self) -> (text: String)
        ensures
            text@ == proof_error_text(*self),
    {
        match self {
            StorageActivationProofError::MissingOrInactive => String::from_str(
                "Release 1 Storage Activation is missing or not Active",
            ),
            StorageActivationProofError::IdentityMismatch => String::from_str(
                "Release 1 Storage Activation identity does not match",
            ),
            StorageActivationProofError::Unavailable(source) => {
                let mut text = String::from_str("Release 1 Storage Activation is unavailable: ");
                text.append(source.as_str());
                text
            },
        }
    }
}

/// The text that the startup requirement reports for an activation error it cannot pass on
/// as its own: an unavailable source keeps its text, any other error gives the
/// activation report.
pub open spec fn carried_text(error: StorageActivationError) -> Seq<char> {
    match error {
        StorageActivationError::Unavailable(source) => source@,
        other => activation_error_text(other),
    }
}

/// How a defect of the packaged catalog reaches the startup requirement: always unavailable,
/// with the text of the activation error.
pub fn catalog_error(error: StorageActivationError) -> (mapped: StorageActivationProofError)
    ensures
        mapped matches StorageActivationProofError::Unavailable(text) && text@ == carried_text(error),
{
    match error {
        StorageActivationError::Unavailable(source) => StorageActivationProofError::Unavailable(
            source,
        ),
        other => StorageActivationProofError::Unavailable(other.describe()),
    }
}

/// How a failure to read the stored proof reaches the startup requirement: an unavailable
/// database stays unavailable; any other error means no usable proof.
pub fn proof_read_error(error: StorageActivationError) -> (mapped: StorageActivationProofError)
    ensures
        match error {
            StorageActivationError::Unavailable(source) => mapped matches
                StorageActivationProofError::Unavailable(text) && text@ == source@,
            _ => mapped is MissingOrInactive,
        },
{
    match error {
        StorageActivationError::Unavailable(source) => StorageActivationProofError::Unavailable(
            source,
        ),
        _ => StorageActivationProofError::MissingOrInactive,
    }
}

/// The identity of this release, from the packaged catalog checked against
/// the embedded sources; catalog defects become unavailability.
pub fn packaged_proof_identity(catalog: PackagedCatalog, embedded: &Vec<EmbeddedSource>) -> (identity:
    Result<PackagedIdentity, StorageActivationProofError>)
    ensures
        match identity {
            Ok(id) => catalog_matches_embedded(catalog, embedded@) && declared_identity(catalog)
                == Some(identity_texts(id)),
            Err(e) => e is Unavailable && (!catalog_matches_embedded(catalog, embedded@)
                || declared_identity(catalog) is None),
        },
{
    let checked = match packaged_catalog(catalog, embedded) {
        Ok(checked) => checked,
        Err(error) => {
            return Err(catalog_error(error));
        },
    };
    match packaged_identity(&checked) {
        Ok(identity) => Ok(identity),
        Err(error) => Err(catalog_error(error)),
    }
}

/// The verdict on the stored proof: it must exist and be this release's.
pub open spec fn proof_verdict(stored: Option<PackagedIdentity>, identity: PackagedIdentity) -> Result<(), StorageActivationProofError> {
    match stored {
        Some(existing) => if identity_texts(existing) == identity_texts(identity) {
            Ok(())
        } else {
            Err(StorageActivationProofError::IdentityMismatch)
        },
        None => Err(StorageActivationProofError::MissingOrInactive),
    }
}

/// Judges the stored proof against this release's identity.
pub fn judge_activation_proof(stored: &Option<PackagedIdentity>, identity: &PackagedIdentity) -> (verdict:
    Result<(), StorageActivationProofError>)
    ensures
        verdict == proof_verdict(*stored, *identity),
{
    match stored {
        Some(existing) => {
            if same_identity(existing, identity) {
                Ok(())
            } else {
                Err(StorageActivationProofError::IdentityMismatch)
            }
        },
        None => Err(StorageActivationProofError::MissingOrInactive),
    }
}

/// A database URL must be given before the startup requirement connects.
pub fn require_database_url(database_url: &str) -> (checked: Result<(), StorageActivationProofError>)
    ensures
        checked is Err <==> database_url@.len() == 0,
        checked matches Err(e) ==> e is MissingOrInactive,
{
    if database_url.is_empty() {
        Err(StorageActivationProofError::MissingOrInactive)
    } else {
        Ok(())
    }
}

/// Law: the startup requirement passes exactly when the stored proof is this release's, the
/// proof that activation records; so a database activated by this release
/// always passes it.
pub proof fn lemma_requirement_accepts_own_activation(stored: PackagedIdentity, identity: PackagedIdentity)
    ensures
        proof_verdict(Some(stored), identity) is Ok <==> identity_texts(stored) == identity_texts(identity),
        proof_verdict(None, identity) is Err,
{
}

} // verus!
