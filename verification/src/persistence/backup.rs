//! Backups of the data directory.

use vstd::prelude::*;
use crate::errors::PersistenceError;

verus! {

/// Where a backup was taken from and to, and how many files it copied.
#[derive(Debug, Clone, PartialEq, Eq)]
pub struct BackupReport {
    pub source: String,
    pub backup: String,
    pub files_copied: usize,
}

/// Why a backup of `source` into `backup` may not start, if it may not:
/// the source must exist, the target must not, and the target must not lie
/// inside the source (`inside`, as `Path::starts_with` tells it), checked in
/// that order.
pub fn backup_refusal(
    source: &str,
    backup: &str,
    source_exists: bool,
    backup_exists: bool,
    inside: bool,
) -> (r: Option<PersistenceError>)
    ensures
        !source_exists ==> (r matches Some(PersistenceError::Missing { path }) && path@ == source@),
        source_exists && backup_exists ==> (r matches Some(PersistenceError::BackupExists { path })
            && path@ == backup@),
        source_exists && !backup_exists && inside ==> (r matches Some(
            PersistenceError::BackupFailed { path, source: detail },
        ) && path@ == backup@ && detail@ == "backup target must not be inside the source directory"@),
        source_exists && !backup_exists && !inside ==> r is None,
{
    if !source_exists {
        return Some(PersistenceError::Missing { path: source.to_owned() });
    }
    if backup_exists {
        return Some(PersistenceError::BackupExists { path: backup.to_owned() });
    }
    if inside {
        return Some(
            PersistenceError::BackupFailed {
                path: backup.to_owned(),
                source: "backup target must not be inside the source directory".to_owned(),
            },
        );
    }
    None
}

} // verus!
