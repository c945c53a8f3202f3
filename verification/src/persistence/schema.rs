//! The data directory layout and its schema version.

use vstd::prelude::*;
use vstd::string::*;
use crate::errors::PersistenceError;

verus! {

/// The only schema version this build reads and writes.
pub const SCHEMA_VERSION: u32 = 1;

/// The schema metadata file, under the data directory.
pub const SCHEMA_FILE_NAME: &'static str = "schema.json";

/// The audit directory, under the data directory.
pub const AUDIT_DIR_NAME: &'static str = "audit";

/// The audit log, under the audit directory.
pub const AUDIT_FILE_NAME: &'static str = "events.jsonl";

/// The paper-trading directory, under the data directory.
pub const PAPER_DIR_NAME: &'static str = "paper";

/// The paper state file, under the paper-trading directory.
pub const PAPER_STATE_FILE_NAME: &'static str = "state.json";

/// The backups directory, under the data directory.
pub const BACKUPS_DIR_NAME: &'static str = "backups";

/// The outcome of initialising or verifying a data directory.
#[derive(Debug, Clone, PartialEq, Eq)]
pub struct StateReport {
    pub root: String,
    pub schema_version: u32,
    pub created: bool,
    pub verified: bool,
}

/// The outcome of a dry-run migration.
#[derive(Debug, Clone, PartialEq, Eq)]
pub struct MigrationReport {
    pub root: String,
    pub from_version: u32,
    pub to_version: u32,
    pub dry_run: bool,
    pub would_modify: bool,
}

/// The contents of the schema metadata file.
#[derive(Debug, Clone, Copy, PartialEq, Eq, Structural)]
pub struct SchemaMetadata {
    pub schema_version: u32,
}

/// `name` under the directory `base`, with a `/` between them unless
/// `base` is empty or already ends in one.
pub open spec fn spec_join(base: Seq<char>, name: Seq<char>) -> Seq<char> {
    if base.len() == 0 {
        name
    } else if base.last() == '/' {
        base + name
    } else {
        base + "/"@ + name
    }
}

/// `name` under the directory `base`.
pub fn join_path(base: &str, name: &str) -> (r: String)
    ensures
        r@ == spec_join(base@, name@),
{
    let n = base.unicode_len();
    if n == 0 {
        return name.to_owned();
    }
    let mut s = base.to_owned();
    if base.get_char(n - 1) != '/' {
        s.append("/");
    }
    s.append(name);
    s
}

/// The paths of a data directory.
#[derive(Debug, Clone, PartialEq, Eq)]
pub struct Layout {
    pub root: String,
}

impl Layout {
    /// The layout rooted at `root`.
    pub fn new(root: &str) -> (r: Self)
        ensures
            r.root@ == root@,
    {
        Layout { root: root.to_owned() }
    }

    /// `<root>/schema.json`.
    pub fn schema_path(&self) -> (r: String)
        ensures
            r@ == spec_join(self.root@, "schema.json"@),
    {
        join_path(self.root.as_str(), SCHEMA_FILE_NAME)
    }

    /// `<root>/audit`.
    pub fn audit_dir(&self) -> (r: String)
        ensures
            r@ == spec_join(self.root@, "audit"@),
    {
        join_path(self.root.as_str(), AUDIT_DIR_NAME)
    }

    /// `<root>/audit/events.jsonl`.
    pub fn audit_path(&self) -> (r: String)
        ensures
            r@ == spec_join(spec_join(self.root@, "audit"@), "events.jsonl"@),
    {
        let dir = self.audit_dir();
        join_path(dir.as_str(), AUDIT_FILE_NAME)
    }

    /// `<root>/paper`.
    pub fn paper_dir(&self) -> (r: String)
        ensures
            r@ == spec_join(self.root@, "paper"@),
    {
        join_path(self.root.as_str(), PAPER_DIR_NAME)
    }

    /// `<root>/paper/state.json`.
    pub fn state_path(&self) -> (r: String)
        ensures
            r@ == spec_join(spec_join(self.root@, "paper"@), "state.json"@),
    {
        let dir = self.paper_dir();
        join_path(dir.as_str(), PAPER_STATE_FILE_NAME)
    }

    /// `<root>/backups`.
    pub fn backups_dir(&self) -> (r: String)
        ensures
            r@ == spec_join(self.root@, "backups"@),
    {
        join_path(self.root.as_str(), BACKUPS_DIR_NAME)
    }
}

/// Refuses a schema version other than the supported one.
pub fn check_schema_version(path: &str, found: u32) -> (r: Result<(), PersistenceError>)
    ensures
        found == SCHEMA_VERSION ==> r is Ok,
        found != SCHEMA_VERSION ==> (r matches Err(
            PersistenceError::UnsupportedSchema { path: p, found: f, expected },
        ) && p@ == path@ && f == found && expected == SCHEMA_VERSION),
{
    if found != SCHEMA_VERSION {
        return Err(
            PersistenceError::UnsupportedSchema {
                path: path.to_owned(),
                found,
                expected: SCHEMA_VERSION,
            },
        );
    }
    Ok(())
}

/// The metadata a new data directory is written with.
pub fn current_schema() -> (r: SchemaMetadata)
    ensures
        r.schema_version == SCHEMA_VERSION,
{
    SchemaMetadata { schema_version: SCHEMA_VERSION }
}

/// The report of an initialisation: whether anything had to be created,
/// that is, whether the schema file, the audit log or the paper state was
/// missing.
pub fn init_report(root: &str, schema_existed: bool, audit_existed: bool, state_existed: bool) -> (r:
    StateReport)
    ensures
        r.root@ == root@,
        r.schema_version == SCHEMA_VERSION,
        r.created == !(schema_existed && audit_existed && state_existed),
        r.verified,
{
    StateReport {
        root: root.to_owned(),
        schema_version: SCHEMA_VERSION,
        created: !(schema_existed && audit_existed && state_existed),
        verified: true,
    }
}

/// The report of a successful verification.
pub fn verify_report(root: &str, schema: SchemaMetadata) -> (r: StateReport)
    ensures
        r.root@ == root@,
        r.schema_version == schema.schema_version,
        !r.created,
        r.verified,
{
    StateReport { root: root.to_owned(), schema_version: schema.schema_version, created: false, verified: true }
}

/// A dry-run migration of the data directory at `root` whose schema file
/// reads `schema`: nothing to do for the supported version, refused for any
/// other.
pub fn migrate_dry_run(root: &str, schema: SchemaMetadata) -> (r: Result<MigrationReport, PersistenceError>)
    ensures
        schema.schema_version == SCHEMA_VERSION ==> (r matches Ok(m) && m.root@ == root@
            && m.from_version == SCHEMA_VERSION && m.to_version == SCHEMA_VERSION && m.dry_run
            && !m.would_modify),
        schema.schema_version != SCHEMA_VERSION ==> (r matches Err(
            PersistenceError::UnsupportedSchema { path, found, expected },
        ) && path@ == spec_join(root@, "schema.json"@) && found == schema.schema_version
            && expected == SCHEMA_VERSION),
{
    let layout = Layout::new(root);
    if schema.schema_version != SCHEMA_VERSION {
        return Err(
            PersistenceError::UnsupportedSchema {
                path: layout.schema_path(),
                found: schema.schema_version,
                expected: SCHEMA_VERSION,
            },
        );
    }
    Ok(
        MigrationReport {
            root: root.to_owned(),
            from_version: schema.schema_version,
            to_version: SCHEMA_VERSION,
            dry_run: true,
            would_modify: false,
        },
    )
}

} // verus!
