//! Secret handling: redacted values, secret stores and the checks that
//! refuse plaintext or world-readable secret files.

pub mod redaction;
pub mod store;

pub use redaction::{Redacted, SecretString};
pub use store::{
    check_secret_contents, check_secret_file_mode, describe_secret_store, DisabledSecretStore,
    MemorySecretStore, SecretStore, SecretStoreReport,
};
