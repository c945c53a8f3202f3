//! Local persistence rules: the data directory layout, schema versions,
//! paper state validation and the append-only audit log format.

pub mod audit;
pub mod backup;
pub mod schema;
pub mod state;

pub use audit::{AuditEvent, AuditEventType};
pub use backup::BackupReport;
pub use schema::{MigrationReport, StateReport};
pub use state::{PaperState, StoredPosition};
