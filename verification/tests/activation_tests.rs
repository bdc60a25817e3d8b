use storyos_adapter_postgres::activation_proof::{
    judge_activation_proof, packaged_proof_identity, proof_read_error, require_database_url,
    StorageActivationProofError,
};
use storyos_adapter_postgres::digest::{hex_sha256, lf_sha256};
use storyos_adapter_postgres::storage_activation::{
    bootstrap_phase_rows, catalog_from_json, packaged_catalog, packaged_identity, plan_activation, plan_after_user_state,
    require_admin_url, ActivationPlan, BootstrapPhase, CatalogSource, EmbeddedSource, PackagedCatalog,
    PackagedIdentity, StorageActivationError, StorageActivationRefusal,
};

fn catalog(sources: Option<Vec<CatalogSource>>, predecessors: Option<usize>) -> PackagedCatalog {
    PackagedCatalog {
        catalog_id: Some("catalog-1".to_owned()),
        manifest_sha256: Some("sha256:manifest".to_owned()),
        sources,
        supported_predecessors: predecessors,
        edges: Some(0),
        migration_chain_id: Some("chain".to_owned()),
        migration_chain_digest: Some("sha256:chain".to_owned()),
        database_schema_identity: Some("storyos.schema".to_owned()),
        active_schema_version: Some("1".to_owned()),
        public_release: Some("release-1".to_owned()),
        route_catalog_id: Some("routes".to_owned()),
        route_catalog_sha256: Some("sha256:routes".to_owned()),
        bootstrap_phases: Some(vec![BootstrapPhase {
            phase_id: Some("p1".to_owned()),
            class: Some("schema".to_owned()),
            postcondition: Some("tables exist".to_owned()),
        }]),
    }
}

fn embedded(sql: &str) -> EmbeddedSource {
    EmbeddedSource { path: "sql/0001.sql".to_owned(), lf_sha256: lf_sha256(sql), sql: sql.to_owned() }
}

fn source_for(source: &EmbeddedSource) -> CatalogSource {
    CatalogSource { path: Some(source.path.clone()), lf_sha256: Some(source.lf_sha256.clone()) }
}

fn identity(release: &str) -> PackagedIdentity {
    PackagedIdentity {
        catalog_id: "catalog-1".to_owned(),
        catalog_checksum: "sha256:manifest".to_owned(),
        migration_chain_id: "chain".to_owned(),
        migration_chain_digest: "sha256:chain".to_owned(),
        database_schema_identity: "storyos.schema".to_owned(),
        active_schema_version: "1".to_owned(),
        public_release: release.to_owned(),
        route_catalog_id: "routes".to_owned(),
        route_catalog_sha256: "sha256:routes".to_owned(),
    }
}

#[test]
fn refusal_reason_codes() {
    assert_eq!(StorageActivationRefusal::NonEmptyWithoutLedger.as_str(), "non_empty_without_ledger");
    assert_eq!(StorageActivationRefusal::IdentityMismatch.as_str(), "identity_mismatch");
    assert_eq!(StorageActivationRefusal::CatalogChecksumMismatch.as_str(), "catalog_checksum_mismatch");
}

#[test]
fn activation_error_reports() {
    assert_eq!(
        StorageActivationError::AdminUrlMissing.describe(),
        "STORYOS_STORAGE_ACTIVATION=Refused\nSTORYOS_STORAGE_ACTIVATION_REASON=admin_url_missing"
    );
    assert_eq!(
        StorageActivationError::Refused { reason: StorageActivationRefusal::IdentityMismatch }.describe(),
        "STORYOS_STORAGE_ACTIVATION=Refused\nSTORYOS_STORAGE_ACTIVATION_REASON=identity_mismatch"
    );
    assert_eq!(
        StorageActivationError::Unavailable("down".to_owned()).describe(),
        "STORYOS_STORAGE_ACTIVATION=Refused\nSTORYOS_STORAGE_ACTIVATION_REASON=unavailable\ndown"
    );
}

#[test]
fn lf_checksum_normalizes_line_endings() {
    assert_eq!(
        lf_sha256(""),
        "sha256:e3b0c44298fc1c149afbf4c8996fb92427ae41e4649b934ca495991b7852b855"
    );
    assert_eq!(lf_sha256("a\r\nb\r"), lf_sha256("a\nb\n"));
    assert_ne!(lf_sha256("a\nb"), lf_sha256("a\nc"));
    assert_eq!(lf_sha256("a\r\nb").len(), 71);
    assert_eq!(lf_sha256("a\r\nb"), lf_sha256("a\rb"));
    assert_eq!(hex_sha256("abc"), "ba7816bf8f01cfea414140de5dae2223b00361a396177a9cb410ff61f20015ad");
}

#[test]
fn packaged_catalog_matches_embedded_sources() {
    let source = embedded("CREATE TABLE t (id int);\r\n");
    let listed = vec![source_for(&source)];
    let sources = vec![source];
    assert!(packaged_catalog(catalog(Some(listed), Some(0)), &sources).is_ok());
}

#[test]
fn packaged_catalog_refuses_checksum_drift() {
    let mut source = embedded("CREATE TABLE t (id int);");
    let listed = vec![source_for(&source)];
    source.sql = "DROP TABLE t;".to_owned();
    let sources = vec![source];
    match packaged_catalog(catalog(Some(listed), Some(0)), &sources) {
        Err(StorageActivationError::Refused { reason }) => {
            assert_eq!(reason, StorageActivationRefusal::CatalogChecksumMismatch)
        }
        other => panic!("unexpected {other:?}", other = other.is_ok()),
    }
    let sources = vec![embedded("x")];
    assert!(packaged_catalog(catalog(None, Some(0)), &sources).is_err());
    assert!(packaged_catalog(catalog(Some(Vec::new()), Some(0)), &sources).is_err());
}

#[test]
fn packaged_identity_reads_catalog() {
    let c = catalog(Some(Vec::new()), Some(0));
    let id = packaged_identity(&c).unwrap();
    assert_eq!(id.catalog_checksum, "sha256:manifest");
    assert_eq!(id.public_release, "release-1");
    let mut missing = catalog(Some(Vec::new()), Some(0));
    missing.route_catalog_sha256 = None;
    assert!(packaged_identity(&missing).is_err());
}

#[test]
fn activation_plans() {
    let c = catalog(Some(Vec::new()), Some(0));
    assert_eq!(plan_activation(&Some(identity("release-1")), &identity("release-1"), &c), ActivationPlan::AlreadyActive);
    assert_eq!(
        plan_activation(&Some(identity("release-0")), &identity("release-1"), &c),
        ActivationPlan::Refuse(StorageActivationRefusal::IdentityMismatch)
    );
    assert_eq!(plan_activation(&None, &identity("release-1"), &c), ActivationPlan::InspectUserState);
    let migrating = catalog(Some(Vec::new()), Some(2));
    assert_eq!(
        plan_activation(&None, &identity("release-1"), &migrating),
        ActivationPlan::Refuse(StorageActivationRefusal::IdentityMismatch)
    );
    assert_eq!(plan_after_user_state(true), ActivationPlan::Refuse(StorageActivationRefusal::NonEmptyWithoutLedger));
    assert_eq!(plan_after_user_state(false), ActivationPlan::Persist);
}

#[test]
fn activation_is_idempotent_on_concrete_identity() {
    let c = catalog(Some(Vec::new()), Some(0));
    let recorded = packaged_identity(&c).unwrap();
    let again = packaged_identity(&c).unwrap();
    assert_eq!(plan_activation(&Some(recorded), &again, &c), ActivationPlan::AlreadyActive);
}

#[test]
fn admin_and_database_urls_are_required() {
    assert!(matches!(require_admin_url(""), Err(StorageActivationError::AdminUrlMissing)));
    assert!(require_admin_url("postgres://admin").is_ok());
    assert!(matches!(require_database_url(""), Err(StorageActivationProofError::MissingOrInactive)));
    assert!(require_database_url("postgres://app").is_ok());
}

#[test]
fn bootstrap_phases_are_recorded_in_order() {
    let c = catalog(Some(Vec::new()), Some(0));
    let rows = bootstrap_phase_rows(&c).unwrap();
    assert_eq!(rows, vec![("p1".to_owned(), "schema".to_owned(), "tables exist".to_owned())]);
    let mut broken = catalog(Some(Vec::new()), Some(0));
    broken.bootstrap_phases = Some(vec![BootstrapPhase { phase_id: None, class: None, postcondition: None }]);
    assert!(bootstrap_phase_rows(&broken).is_err());
}

#[test]
fn startup_requirement_judges_stored_proof() {
    assert!(judge_activation_proof(&Some(identity("release-1")), &identity("release-1")).is_ok());
    assert!(matches!(
        judge_activation_proof(&Some(identity("release-0")), &identity("release-1")),
        Err(StorageActivationProofError::IdentityMismatch)
    ));
    assert!(matches!(
        judge_activation_proof(&None, &identity("release-1")),
        Err(StorageActivationProofError::MissingOrInactive)
    ));
    assert_eq!(
        StorageActivationProofError::Unavailable("boom".to_owned()).describe(),
        "Release 1 Storage Activation is unavailable: boom"
    );
    assert!(matches!(
        proof_read_error(StorageActivationError::AdminUrlMissing),
        StorageActivationProofError::MissingOrInactive
    ));
    let sources = vec![embedded("x")];
    assert!(matches!(
        packaged_proof_identity(catalog(None, Some(0)), &sources),
        Err(StorageActivationProofError::Unavailable(_))
    ));
}

fn catalog_json(sum: &str) -> String {
    format!(
        r#"{{
  "catalog_id": "catalog-1",
  "migration_chain": {{
    "bootstrap": {{
      "manifest_sha256": "sha256:manifest",
      "sources": [{{"path": "sql/0001.sql", "lf_sha256": "{sum}"}}]
    }},
    "supported_predecessors": [],
    "edges": []
  }},
  "schema_identity": {{
    "migration_chain_id": "chain",
    "migration_chain_digest": "sha256:chain",
    "database_schema_identity": "storyos.schema",
    "active_schema_version": "1",
    "protocol_binding": {{
      "public_release": "release-1",
      "route_catalog_id": "routes",
      "route_catalog_sha256": "sha256:routes"
    }}
  }},
  "bootstrap_phases": [
    {{"phase_id": "p1", "class": "schema", "postcondition": "tables exist"}},
    {{"phase_id": "p2", "class": "grants", "postcondition": 7}}
  ]
}}"#
    )
}

#[test]
fn catalog_json_reads_every_member() {
    let source = embedded("CREATE TABLE t (id int);\n");
    let parsed = catalog_from_json(&catalog_json(&source.lf_sha256)).unwrap();
    assert_eq!(parsed.catalog_id.as_deref(), Some("catalog-1"));
    assert_eq!(parsed.supported_predecessors, Some(0));
    assert_eq!(parsed.edges, Some(0));
    let phases = parsed.bootstrap_phases.as_ref().unwrap();
    assert_eq!(phases.len(), 2);
    assert_eq!(phases[1].class.as_deref(), Some("grants"));
    assert_eq!(phases[1].postcondition, None);
    let sources = vec![source];
    let checked = packaged_catalog(parsed, &sources).unwrap();
    let id = packaged_identity(&checked).unwrap();
    assert_eq!(id.public_release, "release-1");
    assert_eq!(id.route_catalog_sha256, "sha256:routes");
    assert_eq!(plan_activation(&None, &id, &checked), ActivationPlan::InspectUserState);
    assert!(bootstrap_phase_rows(&checked).is_err());
    assert!(matches!(catalog_from_json("{"), Err(StorageActivationError::Unavailable(_))));
    let bare = catalog_from_json("[]").unwrap();
    assert!(bare.sources.is_none() && bare.catalog_id.is_none());
}

#[test]
fn second_activation_finds_the_first_proof() {
    let c = catalog(Some(Vec::new()), Some(0));
    let id = packaged_identity(&c).unwrap();
    assert_eq!(plan_activation(&None, &id, &c), ActivationPlan::InspectUserState);
    assert_eq!(plan_after_user_state(false), ActivationPlan::Persist);
    let recorded = packaged_identity(&c).unwrap();
    assert_eq!(plan_activation(&Some(recorded), &id, &c), ActivationPlan::AlreadyActive);
}
