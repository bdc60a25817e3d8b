//! Packaged Release 1 Storage Activation: the packaged migration catalog, the
//! identity it declares, and the decisions of the activation state machine.

use crate::digest::{lf_checksum_text, lf_sha256};
use crate::json::{json_pointer_array_len, json_pointer_len, json_pointer_string, json_pointer_text, json_text_is_document, json_text_parses};
use crate::text::{decimal_text, format_u64};
use vstd::prelude::*;

verus! {

/// The outcome of a successful activation.
#[derive(Debug, Clone, Copy, PartialEq, Eq)]
pub enum StorageActivation {
    Active,
    AlreadyActive,
}

/// Why activation refuses to touch the database.
#[derive(Debug, Clone, Copy, PartialEq, Eq)]
pub enum StorageActivationRefusal {
    NonEmptyWithoutLedger,
    IdentityMismatch,
    CatalogChecksumMismatch,
}

/// The reason code of a refusal.
pub open spec fn refusal_text(reason: StorageActivationRefusal) -> Seq<char> {
    match reason {
        StorageActivationRefusal::NonEmptyWithoutLedger => "non_empty_without_ledger"@,
        StorageActivationRefusal::IdentityMismatch => "identity_mismatch"@,
        StorageActivationRefusal::CatalogChecksumMismatch => "catalog_checksum_mismatch"@,
    }
}

impl StorageActivationRefusal {
    /// The reason code written into `STORYOS_STORAGE_ACTIVATION_REASON`.
    pub fn as_str(self) -> (text: &'static str)
        ensures
            text@ == refusal_text(self),
    {
        match self {
            StorageActivationRefusal::NonEmptyWithoutLedger => "non_empty_without_ledger",
            StorageActivationRefusal::IdentityMismatch => "identity_mismatch",
            StorageActivationRefusal::CatalogChecksumMismatch => "catalog_checksum_mismatch",
        }
    }
}

/// Law: distinct refusals have distinct reason codes.
pub proof fn lemma_refusal_text_distinct(a: StorageActivationRefusal, b: StorageActivationRefusal)
    requires
        a != b,
    ensures
        refusal_text(a) != refusal_text(b),
{
    reveal_strlit("non_empty_without_ledger");
    reveal_strlit("identity_mismatch");
    reveal_strlit("catalog_checksum_mismatch");
    let ta = refusal_text(a);
    let tb = refusal_text(b);
    if ta.len() == tb.len() {
        assert(ta[0] != tb[0]);
    }
}

/// Why activation did not complete. `Unavailable` carries the text of the
/// database or bootstrap failure.
#[derive(Debug)]
pub enum StorageActivationError {
    AdminUrlMissing,
    Refused { reason: StorageActivationRefusal },
    Unavailable(String),
}

/// The first line of every activation error report.
pub open spec fn activation_report_head() -> Seq<char> {
    "STORYOS_STORAGE_ACTIVATION=Refused\nSTORYOS_STORAGE_ACTIVATION_REASON="@
}

/// The report that an activation error prints.
pub open spec fn activation_error_text(error: StorageActivationError) -> Seq<char> {
    match error {
        StorageActivationError::AdminUrlMissing => activation_report_head() + "admin_url_missing"@,
        StorageActivationError::Refused { reason } => activation_report_head() + refusal_text(
            reason,
        ),
        StorageActivationError::Unavailable(source) => activation_report_head()
            + "unavailable\n"@ + source@,
    }
}

impl StorageActivationError {
    /// The report that the error prints, reason code first.
    pub fn describe(&self) -> (text: String)
        ensures
            text@ == activation_error_text(*self),
    {
        let mut text = String::from_str(
            "STORYOS_STORAGE_ACTIVATION=Refused\nSTORYOS_STORAGE_ACTIVATION_REASON=",
        );
        match self {
            StorageActivationError::AdminUrlMissing => text.append("admin_url_missing"),
            StorageActivationError::Refused { reason } => text.append(reason.as_str()),
            StorageActivationError::Unavailable(source) => {
                text.append("unavailable\n");
                text.append(source.as_str());
            },
        }
        text
    }
}

/// One bootstrap source as the catalog lists it; a member that is missing or
/// not a string is `None`.
pub struct CatalogSource {
    pub path: Option<String>,
    pub lf_sha256: Option<String>,
}

/// One bootstrap phase as the catalog lists it.
pub struct BootstrapPhase {
    pub phase_id: Option<String>,
    pub class: Option<String>,
    pub postcondition: Option<String>,
}

/// The members of the packaged migration catalog that activation reads. A
/// list that is missing or not an array is `None`.
pub struct PackagedCatalog {
    pub catalog_id: Option<String>,
    pub manifest_sha256: Option<String>,
    pub sources: Option<Vec<CatalogSource>>,
    pub supported_predecessors: Option<usize>,
    pub edges: Option<usize>,
    pub migration_chain_id: Option<String>,
    pub migration_chain_digest: Option<String>,
    pub database_schema_identity: Option<String>,
    pub active_schema_version: Option<String>,
    pub public_release: Option<String>,
    pub route_catalog_id: Option<String>,
    pub route_catalog_sha256: Option<String>,
    pub bootstrap_phases: Option<Vec<BootstrapPhase>>,
}

/// A SQL source embedded in the binary.
pub struct EmbeddedSource {
    pub path: String,
    pub lf_sha256: String,
    pub sql: String,
}

/// The identity of a packaged release: what the activation proof records.
#[derive(Debug)]
pub struct PackagedIdentity {
    pub catalog_id: String,
    pub catalog_checksum: String,
    pub migration_chain_id: String,
    pub migration_chain_digest: String,
    pub database_schema_identity: String,
    pub active_schema_version: String,
    pub public_release: String,
    pub route_catalog_id: String,
    pub route_catalog_sha256: String,
}

/// The texts of an identity, member by member.
pub open spec fn identity_texts(identity: PackagedIdentity) -> Seq<Seq<char>> {
    seq![
        identity.catalog_id@,
        identity.catalog_checksum@,
        identity.migration_chain_id@,
        identity.migration_chain_digest@,
        identity.database_schema_identity@,
        identity.active_schema_version@,
        identity.public_release@,
        identity.route_catalog_id@,
        identity.route_catalog_sha256@,
    ]
}

/// Whether two identities agree member by member.
pub fn same_identity(a: &PackagedIdentity, b: &PackagedIdentity) -> (same: bool)
    ensures
        same == (identity_texts(*a) == identity_texts(*b)),
{
    let same = a.catalog_id == b.catalog_id && a.catalog_checksum == b.catalog_checksum
        && a.migration_chain_id == b.migration_chain_id && a.migration_chain_digest
        == b.migration_chain_digest && a.database_schema_identity == b.database_schema_identity
        && a.active_schema_version == b.active_schema_version && a.public_release
        == b.public_release && a.route_catalog_id == b.route_catalog_id && a.route_catalog_sha256
        == b.route_catalog_sha256;
    proof {
        if !same {
            let ta = identity_texts(*a);
            let tb = identity_texts(*b);
            assert(exists|i: int| 0 <= i < 9 && ta[i] != tb[i]);
        } else {
            assert(identity_texts(*a) =~= identity_texts(*b));
        }
    }
    same
}

/// The refusal that every catalog defect gives.
pub open spec fn catalog_defect() -> StorageActivationError {
    StorageActivationError::Refused { reason: StorageActivationRefusal::CatalogChecksumMismatch }
}

fn refused(reason: StorageActivationRefusal) -> (error: StorageActivationError)
    ensures
        error == (StorageActivationError::Refused { reason }),
{
    StorageActivationError::Refused { reason }
}

/// A member text that must be present.
pub open spec fn text_of(member: Option<String>) -> Option<Seq<char>> {
    match member {
        Some(s) => Some(s@),
        None => None,
    }
}

/// A member that the catalog must hold as a string.
pub fn required_str(member: &Option<String>) -> (text: Result<String, StorageActivationError>)
    ensures
        match text {
            Ok(s) => *member == Some(s),
            Err(e) => member.is_none() && e == catalog_defect(),
        },
{
    match member {
        Some(s) => Ok(s.clone()),
        None => Err(refused(StorageActivationRefusal::CatalogChecksumMismatch)),
    }
}

/// The JSON Pointer of member `key` of element `index` of the list at `list`.
pub open spec fn member_pointer(list: Seq<char>, index: nat, key: Seq<char>) -> Seq<char> {
    list + "/"@ + decimal_text(index) + "/"@ + key
}

fn element_member_pointer(list: &str, index: usize, key: &str) -> (pointer: String)
    ensures
        pointer@ == member_pointer(list@, index as nat, key@),
{
    let mut pointer = String::from_str(list);
    pointer.append("/");
    pointer.append(format_u64(index as u64).as_str());
    pointer.append("/");
    pointer.append(key);
    pointer
}

/// The list at `list` read as catalog sources.
pub open spec fn sources_at(catalog: Seq<char>, list: Seq<char>, sources: Option<Vec<CatalogSource>>) -> bool {
    match json_pointer_array_len(catalog, list) {
        None => sources is None,
        Some(n) => sources matches Some(v) && v@.len() == n && forall|i: int|
            0 <= i < n ==> text_of((#[trigger] v@[i]).path) == json_pointer_text(
                catalog,
                member_pointer(list, i as nat, "path"@),
            ) && text_of(v@[i].lf_sha256) == json_pointer_text(
                catalog,
                member_pointer(list, i as nat, "lf_sha256"@),
            ),
    }
}

/// The list at `list` read as bootstrap phases.
pub open spec fn phases_at(catalog: Seq<char>, list: Seq<char>, phases: Option<Vec<BootstrapPhase>>) -> bool {
    match json_pointer_array_len(catalog, list) {
        None => phases is None,
        Some(n) => phases matches Some(v) && v@.len() == n && forall|i: int|
            0 <= i < n ==> text_of((#[trigger] v@[i]).phase_id) == json_pointer_text(
                catalog,
                member_pointer(list, i as nat, "phase_id"@),
            ) && text_of(v@[i].class) == json_pointer_text(
                catalog,
                member_pointer(list, i as nat, "class"@),
            ) && text_of(v@[i].postcondition) == json_pointer_text(
                catalog,
                member_pointer(list, i as nat, "postcondition"@),
            ),
    }
}

/// The length of the list at `list`, as a count.
pub open spec fn list_len(catalog: Seq<char>, list: Seq<char>, count: Option<usize>) -> bool {
    json_pointer_array_len(catalog, list) == (match count {
        Some(n) => Some(n as nat),
        None => None::<nat>,
    })
}

fn catalog_sources(catalog: &str, list: &str) -> (sources: Option<Vec<CatalogSource>>)
    ensures
        sources_at(catalog@, list@, sources),
{
    let n = match json_pointer_len(catalog, list) {
        Some(n) => n,
        None => {
            return None;
        },
    };
    let mut sources: Vec<CatalogSource> = Vec::new();
    let mut i: usize = 0;
    while i < n
        invariant
            i <= n,
            json_pointer_array_len(catalog@, list@) == Some(n as nat),
            sources@.len() == i,
            forall|k: int|
                0 <= k < i ==> text_of((#[trigger] sources@[k]).path) == json_pointer_text(
                    catalog@,
                    member_pointer(list@, k as nat, "path"@),
                ) && text_of(sources@[k].lf_sha256) == json_pointer_text(
                    catalog@,
                    member_pointer(list@, k as nat, "lf_sha256"@),
                ),
        decreases n - i,
    {
        let path = json_pointer_string(catalog, element_member_pointer(list, i, "path").as_str());
        let sum = json_pointer_string(catalog, element_member_pointer(list, i, "lf_sha256").as_str());
        sources.push(CatalogSource { path, lf_sha256: sum });
        i = i + 1;
    }
    Some(sources)
}

fn catalog_phases(catalog: &str, list: &str) -> (phases: Option<Vec<BootstrapPhase>>)
    ensures
        phases_at(catalog@, list@, phases),
{
    let n = match json_pointer_len(catalog, list) {
        Some(n) => n,
        None => {
            return None;
        },
    };
    let mut phases: Vec<BootstrapPhase> = Vec::new();
    let mut i: usize = 0;
    while i < n
        invariant
            i <= n,
            json_pointer_array_len(catalog@, list@) == Some(n as nat),
            phases@.len() == i,
            forall|k: int|
                0 <= k < i ==> text_of((#[trigger] phases@[k]).phase_id) == json_pointer_text(
                    catalog@,
                    member_pointer(list@, k as nat, "phase_id"@),
                ) && text_of(phases@[k].class) == json_pointer_text(
                    catalog@,
                    member_pointer(list@, k as nat, "class"@),
                ) && text_of(phases@[k].postcondition) == json_pointer_text(
                    catalog@,
                    member_pointer(list@, k as nat, "postcondition"@),
                ),
        decreases n - i,
    {
        let phase_id = json_pointer_string(catalog, element_member_pointer(list, i, "phase_id").as_str());
        let class = json_pointer_string(catalog, element_member_pointer(list, i, "class").as_str());
        let postcondition = json_pointer_string(
            catalog,
            element_member_pointer(list, i, "postcondition").as_str(),
        );
        phases.push(BootstrapPhase { phase_id, class, postcondition });
        i = i + 1;
    }
    Some(phases)
}

/// Reads the packaged migration catalog from its JSON text: text that is no
/// JSON document makes activation unavailable; otherwise each member that
/// activation reads is taken from its place in the document, `None` where it
/// is missing or of another JSON type.
pub fn catalog_from_json(text: &str) -> (catalog: Result<PackagedCatalog, StorageActivationError>)
    ensures
        !json_text_parses(text@) ==> (catalog matches Err(e) && e is Unavailable),
        json_text_parses(text@) ==> (catalog matches Ok(c) && text_of(c.catalog_id) == json_pointer_text(
            text@,
            "/catalog_id"@,
        ) && text_of(c.manifest_sha256) == json_pointer_text(
            text@,
            "/migration_chain/bootstrap/manifest_sha256"@,
        ) && sources_at(text@, "/migration_chain/bootstrap/sources"@, c.sources) && list_len(
            text@,
            "/migration_chain/supported_predecessors"@,
            c.supported_predecessors,
        ) && list_len(text@, "/migration_chain/edges"@, c.edges) && text_of(c.migration_chain_id)
            == json_pointer_text(text@, "/schema_identity/migration_chain_id"@) && text_of(
            c.migration_chain_digest,
        ) == json_pointer_text(text@, "/schema_identity/migration_chain_digest"@) && text_of(
            c.database_schema_identity,
        ) == json_pointer_text(text@, "/schema_identity/database_schema_identity"@) && text_of(
            c.active_schema_version,
        ) == json_pointer_text(text@, "/schema_identity/active_schema_version"@) && text_of(
            c.public_release,
        ) == json_pointer_text(text@, "/schema_identity/protocol_binding/public_release"@)
            && text_of(c.route_catalog_id) == json_pointer_text(
            text@,
            "/schema_identity/protocol_binding/route_catalog_id"@,
        ) && text_of(c.route_catalog_sha256) == json_pointer_text(
            text@,
            "/schema_identity/protocol_binding/route_catalog_sha256"@,
        ) && phases_at(text@, "/bootstrap_phases"@, c.bootstrap_phases)),
{
    if !json_text_is_document(text) {
        return Err(StorageActivationError::Unavailable(String::from_str("packaged catalog is no JSON document")));
    }
    Ok(
        PackagedCatalog {
            catalog_id: json_pointer_string(text, "/catalog_id"),
            manifest_sha256: json_pointer_string(text, "/migration_chain/bootstrap/manifest_sha256"),
            sources: catalog_sources(text, "/migration_chain/bootstrap/sources"),
            supported_predecessors: json_pointer_len(text, "/migration_chain/supported_predecessors"),
            edges: json_pointer_len(text, "/migration_chain/edges"),
            migration_chain_id: json_pointer_string(text, "/schema_identity/migration_chain_id"),
            migration_chain_digest: json_pointer_string(text, "/schema_identity/migration_chain_digest"),
            database_schema_identity: json_pointer_string(text, "/schema_identity/database_schema_identity"),
            active_schema_version: json_pointer_string(text, "/schema_identity/active_schema_version"),
            public_release: json_pointer_string(text, "/schema_identity/protocol_binding/public_release"),
            route_catalog_id: json_pointer_string(text, "/schema_identity/protocol_binding/route_catalog_id"),
            route_catalog_sha256: json_pointer_string(
                text,
                "/schema_identity/protocol_binding/route_catalog_sha256",
            ),
            bootstrap_phases: catalog_phases(text, "/bootstrap_phases"),
        },
    )
}

/// Source `i` of the catalog names the embedded source `i`, with its checksum,
/// and that checksum is the checksum of the embedded SQL.
pub open spec fn source_matches(source: CatalogSource, embedded: EmbeddedSource) -> bool {
    &&& source.path matches Some(path) && path@ == embedded.path@
    &&& source.lf_sha256 matches Some(sum) && sum@ == embedded.lf_sha256@
    &&& lf_checksum_text(vstd::utf8::encode_utf8(embedded.sql@)) == embedded.lf_sha256@
}

/// The catalog's bootstrap sources are exactly the embedded ones, in order.
pub open spec fn catalog_matches_embedded(
    catalog: PackagedCatalog,
    embedded: Seq<EmbeddedSource>,
) -> bool {
    &&& catalog.sources matches Some(sources)
    &&& sources@.len() == embedded.len()
    &&& forall|i: int| 0 <= i < embedded.len() ==> source_matches(sources@[i], #[trigger] embedded[i])
}

/// Checks the packaged catalog against the embedded bootstrap sources and hands
/// it back when every source, checksum and SQL text agrees.
pub fn packaged_catalog(catalog: PackagedCatalog, embedded: &Vec<EmbeddedSource>) -> (checked:
    Result<PackagedCatalog, StorageActivationError>)
    ensures
        catalog_matches_embedded(catalog, embedded@) ==> checked == Ok::<
            PackagedCatalog,
            StorageActivationError,
        >(catalog),
        !catalog_matches_embedded(catalog, embedded@) ==> checked == Err::<
            PackagedCatalog,
            StorageActivationError,
        >(catalog_defect()),
{
    let ok = match &catalog.sources {
        None => false,
        Some(sources) => {
            if sources.len() != embedded.len() {
                false
            } else {
                let mut i: usize = 0;
                let mut all = true;
                while i < sources.len()
                    invariant
                        i <= sources@.len(),
                        sources@.len() == embedded@.len(),
                        all ==> forall|k: int| 0 <= k < i ==> source_matches(sources@[k], #[trigger] embedded@[k]),
                        !all ==> exists|k: int| 0 <= k < sources@.len() && !source_matches(sources@[k], #[trigger] embedded@[k]),
                    decreases sources@.len() - i,
                {
                    let source = &sources[i];
                    let target = &embedded[i];
                    let good = match (&source.path, &source.lf_sha256) {
                        (Some(path), Some(sum)) => *path == target.path && *sum == target.lf_sha256
                            && lf_sha256(target.sql.as_str()) == target.lf_sha256,
                        _ => false,
                    };
                    if !good {
                        assert(!source_matches(sources@[i as int], embedded@[i as int]));
                        all = false;
                    }
                    i = i + 1;
                }
                all
            }
        },
    };
    if ok {
        Ok(catalog)
    } else {
        Err(refused(StorageActivationRefusal::CatalogChecksumMismatch))
    }
}

/// The identity that a catalog declares, when it declares every member.
pub open spec fn declared_identity(catalog: PackagedCatalog) -> Option<Seq<Seq<char>>> {
    if catalog.catalog_id is Some && catalog.manifest_sha256 is Some
        && catalog.migration_chain_id is Some && catalog.migration_chain_digest is Some
        && catalog.database_schema_identity is Some && catalog.active_schema_version is Some
        && catalog.public_release is Some && catalog.route_catalog_id is Some
        && catalog.route_catalog_sha256 is Some {
        Some(
            seq![
                catalog.catalog_id->0@,
                catalog.manifest_sha256->0@,
                catalog.migration_chain_id->0@,
                catalog.migration_chain_digest->0@,
                catalog.database_schema_identity->0@,
                catalog.active_schema_version->0@,
                catalog.public_release->0@,
                catalog.route_catalog_id->0@,
                catalog.route_catalog_sha256->0@,
            ],
        )
    } else {
        None
    }
}

/// The packaged identity that the catalog declares; the catalog checksum is
/// the bootstrap manifest digest.
pub fn packaged_identity(catalog: &PackagedCatalog) -> (identity: Result<
    PackagedIdentity,
    StorageActivationError,
>)
    ensures
        match identity {
            Ok(id) => declared_identity(*catalog) == Some(identity_texts(id)),
            Err(e) => declared_identity(*catalog) is None && e == catalog_defect(),
        },
{
    let catalog_id = required_str(&catalog.catalog_id)?;
    let catalog_checksum = required_str(&catalog.manifest_sha256)?;
    let migration_chain_id = required_str(&catalog.migration_chain_id)?;
    let migration_chain_digest = required_str(&catalog.migration_chain_digest)?;
    let database_schema_identity = required_str(&catalog.database_schema_identity)?;
    let active_schema_version = required_str(&catalog.active_schema_version)?;
    let public_release = required_str(&catalog.public_release)?;
    let route_catalog_id = required_str(&catalog.route_catalog_id)?;
    let route_catalog_sha256 = required_str(&catalog.route_catalog_sha256)?;
    let identity = PackagedIdentity {
        catalog_id,
        catalog_checksum,
        migration_chain_id,
        migration_chain_digest,
        database_schema_identity,
        active_schema_version,
        public_release,
        route_catalog_id,
        route_catalog_sha256,
    };
    assert(declared_identity(*catalog) == Some(identity_texts(identity)));
    Ok(identity)
}

/// What activation does next.
#[derive(Debug, Clone, Copy, PartialEq, Eq)]
pub enum ActivationPlan {
    /// The database already holds this release's proof.
    AlreadyActive,
    /// Activation stops with this refusal.
    Refuse(StorageActivationRefusal),
    /// No proof yet: ask whether the database holds any user state.
    InspectUserState,
    /// The database is empty: run the bootstrap and record the proof.
    Persist,
}

/// The catalog declares a non-empty list.
pub open spec fn non_empty_list(count: Option<usize>) -> bool {
    count matches Some(n) && n > 0
}

/// The first decision of activation, once the stored proof (if any) is read.
pub open spec fn first_activation_plan(
    existing: Option<PackagedIdentity>,
    identity: PackagedIdentity,
    catalog: PackagedCatalog,
) -> ActivationPlan {
    match existing {
        Some(stored) => if identity_texts(stored) == identity_texts(identity) {
            ActivationPlan::AlreadyActive
        } else {
            ActivationPlan::Refuse(StorageActivationRefusal::IdentityMismatch)
        },
        None => if non_empty_list(catalog.supported_predecessors) || non_empty_list(
            catalog.edges,
        ) {
            ActivationPlan::Refuse(StorageActivationRefusal::IdentityMismatch)
        } else {
            ActivationPlan::InspectUserState
        },
    }
}

/// The first decision, once the stored proof (if any) has been read: an
/// existing proof must be this release's; without one, a catalog that
/// migrates from predecessors cannot bootstrap an empty database.
pub fn plan_activation(
    existing: &Option<PackagedIdentity>,
    identity: &PackagedIdentity,
    catalog: &PackagedCatalog,
) -> (plan: ActivationPlan)
    ensures
        plan == first_activation_plan(*existing, *identity, *catalog),
{
    match existing {
        Some(stored) => {
            if same_identity(stored, identity) {
                ActivationPlan::AlreadyActive
            } else {
                ActivationPlan::Refuse(StorageActivationRefusal::IdentityMismatch)
            }
        },
        None => {
            let predecessors = match catalog.supported_predecessors {
                Some(n) => n > 0,
                None => false,
            };
            let edges = match catalog.edges {
                Some(n) => n > 0,
                None => false,
            };
            if predecessors || edges {
                ActivationPlan::Refuse(StorageActivationRefusal::IdentityMismatch)
            } else {
                ActivationPlan::InspectUserState
            }
        },
    }
}

/// Law: without a stored proof, a catalog that declares at least one
/// supported predecessor or at least one migration edge is refused as an
/// identity mismatch, and only a catalog that declares neither goes on to
/// inspect the database for user state, the one way to a bootstrap.
pub proof fn lemma_migrating_catalog_never_bootstraps(identity: PackagedIdentity, catalog: PackagedCatalog)
    ensures
        ((catalog.supported_predecessors matches Some(n) && n >= 1) || (catalog.edges matches Some(m) && m
            >= 1)) ==> first_activation_plan(None, identity, catalog) == ActivationPlan::Refuse(
            StorageActivationRefusal::IdentityMismatch,
        ),
        !((catalog.supported_predecessors matches Some(n) && n >= 1) || (catalog.edges matches Some(m) && m
            >= 1)) ==> first_activation_plan(None, identity, catalog) == ActivationPlan::InspectUserState,
        first_activation_plan(None, identity, catalog) != ActivationPlan::Persist,
{
}

/// The second decision: only a database without user state is bootstrapped.
pub fn plan_after_user_state(has_user_state: bool) -> (plan: ActivationPlan)
    ensures
        has_user_state ==> plan == ActivationPlan::Refuse(
            StorageActivationRefusal::NonEmptyWithoutLedger,
        ),
        !has_user_state ==> plan == ActivationPlan::Persist,
{
    if has_user_state {
        ActivationPlan::Refuse(StorageActivationRefusal::NonEmptyWithoutLedger)
    } else {
        ActivationPlan::Persist
    }
}

/// Law: once a release's proof is recorded, activating the same release again
/// finds it and changes nothing; a proof of another release is refused.
pub proof fn lemma_activation_is_idempotent(
    stored: PackagedIdentity,
    identity: PackagedIdentity,
    catalog: PackagedCatalog,
)
    ensures
        identity_texts(stored) == identity_texts(identity) ==> first_activation_plan(
            Some(stored),
            identity,
            catalog,
        ) == ActivationPlan::AlreadyActive,
        identity_texts(stored) != identity_texts(identity) ==> first_activation_plan(
            Some(stored),
            identity,
            catalog,
        ) == ActivationPlan::Refuse(StorageActivationRefusal::IdentityMismatch),
{
}

/// What one activation run decides, and the proof that the database holds
/// after it: the first decision on the stored proof; without one, the
/// decision on user state; a bootstrap records this release's proof, and
/// every other decision writes nothing.
pub open spec fn activation_run(
    stored: Option<PackagedIdentity>,
    identity: PackagedIdentity,
    catalog: PackagedCatalog,
    has_user_state: bool,
) -> (ActivationPlan, Option<PackagedIdentity>) {
    let first = first_activation_plan(stored, identity, catalog);
    let plan = if first == ActivationPlan::InspectUserState {
        if has_user_state {
            ActivationPlan::Refuse(StorageActivationRefusal::NonEmptyWithoutLedger)
        } else {
            ActivationPlan::Persist
        }
    } else {
        first
    };
    (plan, if plan == ActivationPlan::Persist { Some(identity) } else { stored })
}

/// Law: an activation run that bootstrapped the database or found it
/// active leaves the proof of this release behind; a second run with the
/// same packaged release finds it, reports it already active, bootstraps
/// nothing and leaves the stored proof as it was, whatever user state the
/// database has gained.
pub proof fn lemma_second_activation_changes_nothing(
    stored: Option<PackagedIdentity>,
    identity: PackagedIdentity,
    catalog: PackagedCatalog,
    first_user_state: bool,
    second_user_state: bool,
)
    requires
        activation_run(stored, identity, catalog, first_user_state).0 == ActivationPlan::Persist
            || activation_run(stored, identity, catalog, first_user_state).0
            == ActivationPlan::AlreadyActive,
    ensures
        ({
            let after = activation_run(stored, identity, catalog, first_user_state).1;
            activation_run(after, identity, catalog, second_user_state) == (
                ActivationPlan::AlreadyActive,
                after,
            )
        }),
{
}

/// An admin URL must be given before anything is attempted.
pub fn require_admin_url(admin_url: &str) -> (checked: Result<(), StorageActivationError>)
    ensures
        checked is Err <==> admin_url@.len() == 0,
        checked matches Err(e) ==> e == StorageActivationError::AdminUrlMissing,
{
    if admin_url.is_empty() {
        Err(StorageActivationError::AdminUrlMissing)
    } else {
        Ok(())
    }
}

/// One recorded bootstrap phase: its id, class and postcondition.
pub open spec fn phase_row(phase: BootstrapPhase) -> Option<(Seq<char>, Seq<char>, Seq<char>)> {
    if phase.phase_id is Some && phase.class is Some && phase.postcondition is Some {
        Some((phase.phase_id->0@, phase.class->0@, phase.postcondition->0@))
    } else {
        None
    }
}

/// The rows that record the catalog's bootstrap phases, in catalog order; a
/// missing phase list or phase member is a catalog defect.
pub fn bootstrap_phase_rows(catalog: &PackagedCatalog) -> (rows: Result<
    Vec<(String, String, String)>,
    StorageActivationError,
>)
    ensures
        match rows {
            Ok(r) => catalog.bootstrap_phases matches Some(phases) && r@.len() == phases@.len()
                && forall|i: int|
                0 <= i < r@.len() ==> phase_row(phases@[i]) == Some(
                    ((#[trigger] r@[i]).0@, r@[i].1@, r@[i].2@),
                ),
            Err(e) => e == catalog_defect() && (catalog.bootstrap_phases matches Some(phases)
                ==> exists|i: int| 0 <= i < phases@.len() && (#[trigger] phase_row(phases@[i])) is None),
        },
{
    let phases = match &catalog.bootstrap_phases {
        Some(phases) => phases,
        None => {
            return Err(refused(StorageActivationRefusal::CatalogChecksumMismatch));
        },
    };
    let mut rows: Vec<(String, String, String)> = Vec::new();
    let mut i: usize = 0;
    while i < phases.len()
        invariant
            i <= phases@.len(),
            catalog.bootstrap_phases == Some(*phases),
            rows@.len() == i,
            forall|k: int|
                0 <= k < i ==> phase_row(phases@[k]) == Some(
                    ((#[trigger] rows@[k]).0@, rows@[k].1@, rows@[k].2@),
                ),
        decreases phases@.len() - i,
    {
        let phase = &phases[i];
        match (&phase.phase_id, &phase.class, &phase.postcondition) {
            (Some(phase_id), Some(class), Some(postcondition)) => {
                rows.push((phase_id.clone(), class.clone(), postcondition.clone()));
            },
            _ => {
                assert(phase_row(phases@[i as int]) is None);
                assert(catalog.bootstrap_phases == Some(*phases));
                assert(exists|k: int| 0 <= k < phases@.len() && (#[trigger] phase_row(phases@[k])) is None);
                return Err(refused(StorageActivationRefusal::CatalogChecksumMismatch));
            },
        }
        i = i + 1;
    }
    Ok(rows)
}

} // verus!
