//! Secret stores and the checks on secret files.

use vstd::prelude::*;
use vstd::string::*;
use crate::errors::{AppError, SecurityError};
use crate::text::{starts_with, trim, trim_seq};
use super::redaction::{Redacted, SecretString};

verus! {

/// Where secrets are loaded from and stored to.
pub trait SecretStore {
    /// The secret called `name`.
    fn load(&self, name: &str) -> Result<SecretString, AppError>;

    /// Keeps `value` as the secret called `name`.
    fn store(&mut self, name: &str, value: SecretString) -> Result<(), AppError>;
}

/// A store that holds nothing and refuses to keep anything: every load
/// reports the secret missing, every store reports storage disabled.
#[derive(Debug, Clone, Copy, Default)]
pub struct DisabledSecretStore;

impl SecretStore for DisabledSecretStore {
    fn load(&self, name: &str) -> (r: Result<SecretString, AppError>)
        ensures
            r matches Err(AppError::Security(SecurityError::SecretMissing { name: n }))
                && n@ == name@,
    {
        Err(AppError::Security(SecurityError::SecretMissing { name: name.to_owned() }))
    }

    fn store(&mut self, name: &str, value: SecretString) -> (r: Result<(), AppError>)
        ensures
            r matches Err(AppError::Security(SecurityError::SecretStorageDisabled { path }))
                && path is None,
    {
        Err(AppError::Security(SecurityError::SecretStorageDisabled { path: None }))
    }
}

/// One named secret of a memory store.
#[derive(Debug)]
struct SecretEntry {
    name: String,
    value: String,
}

/// The value of the last entry named `name`, if any.
spec fn entries_get(s: Seq<SecretEntry>, name: Seq<char>) -> Option<Seq<char>>
    decreases s.len(),
{
    if s.len() == 0 {
        None
    } else if s.last().name@ == name {
        Some(s.last().value@)
    } else {
        entries_get(s.drop_last(), name)
    }
}

/// With no entry named `name`, nothing is found under it.
proof fn lemma_get_absent(s: Seq<SecretEntry>, name: Seq<char>)
    requires
        forall|j: int| 0 <= j < s.len() ==> s[j].name@ != name,
    ensures
        entries_get(s, name) is None,
    decreases s.len(),
{
    if s.len() > 0 {
        lemma_get_absent(s.drop_last(), name);
    }
}

/// The last entry named `name` gives its value.
proof fn lemma_get_last(s: Seq<SecretEntry>, name: Seq<char>, i: int)
    requires
        0 <= i < s.len(),
        s[i].name@ == name,
        forall|j: int| i < j < s.len() ==> s[j].name@ != name,
    ensures
        entries_get(s, name) == Some(s[i].value@),
    decreases s.len(),
{
    if i < s.len() - 1 {
        lemma_get_last(s.drop_last(), name, i);
    }
}

/// Replacing entry `i` by one of the same name changes nothing under any
/// other name.
proof fn lemma_get_update_other(s: Seq<SecretEntry>, i: int, e: SecretEntry, other: Seq<char>)
    requires
        0 <= i < s.len(),
        s[i].name@ == e.name@,
        other != e.name@,
    ensures
        entries_get(s.update(i, e), other) == entries_get(s, other),
    decreases s.len(),
{
    let t = s.update(i, e);
    if i < s.len() - 1 {
        assert(t.drop_last() =~= s.drop_last().update(i, e));
        lemma_get_update_other(s.drop_last(), i, e, other);
    } else {
        assert(t.drop_last() =~= s.drop_last());
    }
}

/// A store kept in memory for the length of a process.
#[derive(Debug)]
pub struct MemorySecretStore {
    entries: Vec<SecretEntry>,
}

impl MemorySecretStore {
    /// The secret stored under `name`, if any.
    pub closed spec fn spec_get(&self, name: Seq<char>) -> Option<Seq<char>> {
        entries_get(self.entries@, name)
    }

    /// An empty store.
    pub fn new() -> (r: Self)
        ensures
            forall|name: Seq<char>| #[trigger] r.spec_get(name) is None,
    {
        MemorySecretStore { entries: Vec::new() }
    }

    /// The position of the last entry named `name`.
    fn find_last(&self, name: &str) -> (r: Option<usize>)
        ensures
            match r {
                Some(i) => i < self.entries@.len() && self.entries@[i as int].name@ == name@
                    && forall|j: int|
                    i < j < self.entries@.len() ==> self.entries@[j].name@ != name@,
                None => forall|j: int|
                    0 <= j < self.entries@.len() ==> self.entries@[j].name@ != name@,
            },
    {
        let mut k: usize = self.entries.len();
        while k > 0
            invariant
                k <= self.entries@.len(),
                forall|j: int| k <= j < self.entries@.len() ==> self.entries@[j].name@ != name@,
            decreases k,
        {
            if crate::text::str_eq(self.entries[k - 1].name.as_str(), name) {
                return Some(k - 1);
            }
            k = k - 1;
        }
        None
    }
}

impl Default for MemorySecretStore {
    fn default() -> (r: Self)
        ensures
            forall|name: Seq<char>| #[trigger] r.spec_get(name) is None,
    {
        MemorySecretStore::new()
    }
}

impl SecretStore for MemorySecretStore {
    fn load(&self, name: &str) -> (r: Result<SecretString, AppError>)
        ensures
            match self.spec_get(name@) {
                Some(v) => r matches Ok(s) && s.inner()@ == v,
                None => r matches Err(AppError::Security(SecurityError::SecretMissing { name: n }))
                    && n@ == name@,
            },
    {
        match self.find_last(name) {
            Some(i) => {
                proof {
                    lemma_get_last(self.entries@, name@, i as int);
                }
                Ok(Redacted::new(self.entries[i].value.clone()))
            },
            None => {
                proof {
                    lemma_get_absent(self.entries@, name@);
                }
                Err(AppError::Security(SecurityError::SecretMissing { name: name.to_owned() }))
            },
        }
    }

    fn store(&mut self, name: &str, value: SecretString) -> (r: Result<(), AppError>)
        ensures
            r is Ok,
            final(self).spec_get(name@) == Some(value.inner()@),
            forall|other: Seq<char>|
                other != name@ ==> #[trigger] final(self).spec_get(other) == old(self).spec_get(
                    other,
                ),
    {
        let e = SecretEntry { name: name.to_owned(), value: value.into_inner() };
        match self.find_last(name) {
            Some(i) => {
                let ghost before = self.entries@;
                self.entries.set(i, e);
                proof {
                    assert(self.entries@ == before.update(i as int, e));
                    lemma_get_last(self.entries@, name@, i as int);
                    assert forall|other: Seq<char>| other != name@ implies entries_get(
                        self.entries@,
                        other,
                    ) == entries_get(before, other) by {
                        lemma_get_update_other(before, i as int, e, other);
                    }
                }
            },
            None => {
                let ghost before = self.entries@;
                self.entries.push(e);
                proof {
                    assert(self.entries@.drop_last() =~= before);
                }
            },
        }
        Ok(())
    }
}

/// What a secret store is, as the health report describes it.
#[derive(Debug, Clone, PartialEq, Eq)]
pub struct SecretStoreReport {
    pub root: String,
    pub configured: bool,
    pub encrypted: bool,
}

/// The secret store under `root`: none is configured yet, so it is
/// neither configured nor encrypted.
pub fn describe_secret_store(root: &str) -> (r: SecretStoreReport)
    ensures
        r.root@ == root@,
        !r.configured,
        !r.encrypted,
{
    SecretStoreReport { root: root.to_owned(), configured: false, encrypted: false }
}

/// The marker that starts an encrypted secret file.
pub open spec fn spec_secret_marker() -> Seq<char> {
    "optionclaw-secret-v1:"@
}

/// Refuses a secret file at `path` whose permission bits `mode` let the
/// group or others in.
pub fn check_secret_file_mode(path: &str, mode: u32) -> (r: Result<(), AppError>)
    ensures
        mode & 0o077u32 == 0 ==> r is Ok,
        mode & 0o077u32 != 0 ==> (r matches Err(
            AppError::Security(SecurityError::InsecureFilePermissions { path: p }),
        ) && p@ == path@),
{
    if mode & 0o077u32 != 0 {
        return Err(
            AppError::Security(SecurityError::InsecureFilePermissions { path: path.to_owned() }),
        );
    }
    Ok(())
}

/// Refuses a secret file at `path` whose text, trimmed, does not start
/// with the encrypted-secret marker.
pub fn check_secret_contents(path: &str, contents: &str) -> (r: Result<(), AppError>)
    ensures
        trim_seq(contents@).len() >= spec_secret_marker().len() && trim_seq(contents@).subrange(
            0,
            spec_secret_marker().len() as int,
        ) == spec_secret_marker() ==> r is Ok,
        !(trim_seq(contents@).len() >= spec_secret_marker().len() && trim_seq(
            contents@,
        ).subrange(0, spec_secret_marker().len() as int) == spec_secret_marker()) ==> (r matches Err(
            AppError::Security(SecurityError::SecretPlaintextRejected { path: p }),
        ) && p@ == path@),
{
    let t = trim(contents);
    if starts_with(t.as_str(), "optionclaw-secret-v1:") {
        Ok(())
    } else {
        Err(AppError::Security(SecurityError::SecretPlaintextRejected { path: path.to_owned() }))
    }
}

} // verus!
