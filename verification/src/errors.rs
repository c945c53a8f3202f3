//! Error types of the library, their stable codes and the operator-facing
//! messages that begin with those codes.

use vstd::prelude::*;
use vstd::string::*;
use crate::text::{dec_seq, int_dec_seq, push_i64_dec, push_u64_dec, push_u64_padded, zero_pad};

verus! {

/// Errors of every layer, as the services return them.
#[derive(Debug, Clone, PartialEq, Eq)]
pub enum AppError {
    Config(ConfigError),
    Domain(DomainError),
    Security(SecurityError),
    Input(InputError),
    Persistence(PersistenceError),
}

/// Codes of command-line parse failures.
#[derive(Debug, Clone, Copy, PartialEq, Eq)]
pub enum CliErrorCode {
    UnknownCommand,
    UnknownSubcommand,
    MissingArgument,
    UnexpectedArgument,
}

impl CliErrorCode {
    /// The stable text of the code.
    pub open spec fn spec_str(self) -> Seq<char> {
        match self {
            CliErrorCode::UnknownCommand => "CLI_UNKNOWN_COMMAND"@,
            CliErrorCode::UnknownSubcommand => "CLI_UNKNOWN_SUBCOMMAND"@,
            CliErrorCode::MissingArgument => "CLI_MISSING_ARGUMENT"@,
            CliErrorCode::UnexpectedArgument => "CLI_UNEXPECTED_ARGUMENT"@,
        }
    }

    /// The stable text of the code.
    pub fn as_str(self) -> (r: &'static str)
        ensures
            r@ == self.spec_str(),
    {
        match self {
            CliErrorCode::UnknownCommand => "CLI_UNKNOWN_COMMAND",
            CliErrorCode::UnknownSubcommand => "CLI_UNKNOWN_SUBCOMMAND",
            CliErrorCode::MissingArgument => "CLI_MISSING_ARGUMENT",
            CliErrorCode::UnexpectedArgument => "CLI_UNEXPECTED_ARGUMENT",
        }
    }
}

/// Failure to read or parse the configuration file; `detail` is the
/// underlying reader's or parser's own message.
#[derive(Debug, Clone, PartialEq, Eq)]
pub enum ConfigError {
    Read { path: String, detail: String },
    Parse { path: String, detail: String },
}

impl ConfigError {
    /// The operator-facing message.
    pub open spec fn spec_message(&self) -> Seq<char> {
        match self {
            ConfigError::Read { path, detail } => "E1001: failed to read config file "@ + path@
                + ": "@ + detail@ + ". Hint: verify the file exists and is readable."@,
            ConfigError::Parse { path, detail } => "E1002: failed to parse config file "@ + path@
                + ": "@ + detail@ + ". Hint: start from config/example.toml."@,
        }
    }

    /// The operator-facing message.
    pub fn message(&self) -> (r: String)
        ensures
            r@ == self.spec_message(),
    {
        let mut s = String::new();
        match self {
            ConfigError::Read { path, detail } => {
                s.append("E1001: failed to read config file ");
                s.append(path.as_str());
                s.append(": ");
                s.append(detail.as_str());
                s.append(". Hint: verify the file exists and is readable.");
            },
            ConfigError::Parse { path, detail } => {
                s.append("E1002: failed to parse config file ");
                s.append(path.as_str());
                s.append(": ");
                s.append(detail.as_str());
                s.append(". Hint: start from config/example.toml.");
            },
        }
        assert(s@ =~= self.spec_message());
        s
    }
}

/// Codes of domain validation failures.
#[derive(Debug, Clone, Copy, PartialEq, Eq)]
pub enum DomainErrorCode {
    EmptyField,
    InvalidPrice,
    InvalidQuantity,
    InvalidTradingMode,
    InvalidDate,
    ExpiredContract,
    InvalidScore,
    InvalidConfidence,
    InvalidPercent,
    InvalidOrderType,
    InvalidTimestamp,
}

impl DomainErrorCode {
    /// The stable text of the code.
    pub open spec fn spec_str(self) -> Seq<char> {
        match self {
            DomainErrorCode::EmptyField => "DOMAIN_EMPTY_FIELD"@,
            DomainErrorCode::InvalidPrice => "DOMAIN_INVALID_PRICE"@,
            DomainErrorCode::InvalidQuantity => "DOMAIN_INVALID_QUANTITY"@,
            DomainErrorCode::InvalidTradingMode => "DOMAIN_INVALID_MODE"@,
            DomainErrorCode::InvalidDate => "DOMAIN_INVALID_DATE"@,
            DomainErrorCode::ExpiredContract => "DOMAIN_EXPIRED_CONTRACT"@,
            DomainErrorCode::InvalidScore => "DOMAIN_INVALID_SCORE"@,
            DomainErrorCode::InvalidConfidence => "DOMAIN_INVALID_CONFIDENCE"@,
            DomainErrorCode::InvalidPercent => "DOMAIN_INVALID_PERCENT"@,
            DomainErrorCode::InvalidOrderType => "DOMAIN_INVALID_ORDER_TYPE"@,
            DomainErrorCode::InvalidTimestamp => "DOMAIN_INVALID_TIMESTAMP"@,
        }
    }

    /// The stable text of the code.
    pub fn as_str(self) -> (r: &'static str)
        ensures
            r@ == self.spec_str(),
    {
        match self {
            DomainErrorCode::EmptyField => "DOMAIN_EMPTY_FIELD",
            DomainErrorCode::InvalidPrice => "DOMAIN_INVALID_PRICE",
            DomainErrorCode::InvalidQuantity => "DOMAIN_INVALID_QUANTITY",
            DomainErrorCode::InvalidTradingMode => "DOMAIN_INVALID_MODE",
            DomainErrorCode::InvalidDate => "DOMAIN_INVALID_DATE",
            DomainErrorCode::ExpiredContract => "DOMAIN_EXPIRED_CONTRACT",
            DomainErrorCode::InvalidScore => "DOMAIN_INVALID_SCORE",
            DomainErrorCode::InvalidConfidence => "DOMAIN_INVALID_CONFIDENCE",
            DomainErrorCode::InvalidPercent => "DOMAIN_INVALID_PERCENT",
            DomainErrorCode::InvalidOrderType => "DOMAIN_INVALID_ORDER_TYPE",
            DomainErrorCode::InvalidTimestamp => "DOMAIN_INVALID_TIMESTAMP",
        }
    }
}

/// Codes of malformed-input failures.
#[derive(Debug, Clone, Copy, PartialEq, Eq)]
pub enum InputErrorCode {
    Invalid,
}

impl InputErrorCode {
    /// The stable text of the code.
    pub open spec fn spec_str(self) -> Seq<char> {
        "INPUT_INVALID"@
    }

    /// The stable text of the code.
    pub fn as_str(self) -> (r: &'static str)
        ensures
            r@ == self.spec_str(),
    {
        match self {
            InputErrorCode::Invalid => "INPUT_INVALID",
        }
    }
}

/// Codes of security gate failures.
#[derive(Debug, Clone, Copy, PartialEq, Eq)]
pub enum SecurityErrorCode {
    SecretStorageDisabled,
    SecretMissing,
    SecretPlaintextRejected,
    LiveTradingDisabled,
    KillSwitchActive,
    InsecureFilePermissions,
}

impl SecurityErrorCode {
    /// The stable text of the code.
    pub open spec fn spec_str(self) -> Seq<char> {
        match self {
            SecurityErrorCode::SecretStorageDisabled => "SECRET_STORAGE_DISABLED"@,
            SecurityErrorCode::SecretMissing => "SECRET_MISSING"@,
            SecurityErrorCode::SecretPlaintextRejected => "SECRET_PLAINTEXT_REJECTED"@,
            SecurityErrorCode::LiveTradingDisabled => "LIVE_TRADING_DISABLED"@,
            SecurityErrorCode::KillSwitchActive => "KILL_SWITCH_ACTIVE"@,
            SecurityErrorCode::InsecureFilePermissions => "INSECURE_FILE_PERMISSIONS"@,
        }
    }

    /// The stable text of the code.
    pub fn as_str(self) -> (r: &'static str)
        ensures
            r@ == self.spec_str(),
    {
        match self {
            SecurityErrorCode::SecretStorageDisabled => "SECRET_STORAGE_DISABLED",
            SecurityErrorCode::SecretMissing => "SECRET_MISSING",
            SecurityErrorCode::SecretPlaintextRejected => "SECRET_PLAINTEXT_REJECTED",
            SecurityErrorCode::LiveTradingDisabled => "LIVE_TRADING_DISABLED",
            SecurityErrorCode::KillSwitchActive => "KILL_SWITCH_ACTIVE",
            SecurityErrorCode::InsecureFilePermissions => "INSECURE_FILE_PERMISSIONS",
        }
    }
}

/// Codes of persistence failures.
#[derive(Debug, Clone, Copy, PartialEq, Eq)]
pub enum PersistenceErrorCode {
    Missing,
    Corrupt,
    UnsupportedSchema,
    Unavailable,
    AuditAppendFailed,
    BackupExists,
    BackupFailed,
    MigrationDryRunFailed,
}

impl PersistenceErrorCode {
    /// The stable text of the code.
    pub open spec fn spec_str(self) -> Seq<char> {
        match self {
            PersistenceErrorCode::Missing => "PERSISTENCE_MISSING"@,
            PersistenceErrorCode::Corrupt => "PERSISTENCE_CORRUPT"@,
            PersistenceErrorCode::UnsupportedSchema => "SCHEMA_UNSUPPORTED"@,
            PersistenceErrorCode::Unavailable => "PERSISTENCE_UNAVAILABLE"@,
            PersistenceErrorCode::AuditAppendFailed => "PERSISTENCE_AUDIT_APPEND_FAILED"@,
            PersistenceErrorCode::BackupExists => "PERSISTENCE_BACKUP_EXISTS"@,
            PersistenceErrorCode::BackupFailed => "PERSISTENCE_BACKUP_FAILED"@,
            PersistenceErrorCode::MigrationDryRunFailed => "PERSISTENCE_MIGRATION_DRY_RUN_FAILED"@,
        }
    }

    /// The stable text of the code.
    pub fn as_str(self) -> (r: &'static str)
        ensures
            r@ == self.spec_str(),
    {
        match self {
            PersistenceErrorCode::Missing => "PERSISTENCE_MISSING",
            PersistenceErrorCode::Corrupt => "PERSISTENCE_CORRUPT",
            PersistenceErrorCode::UnsupportedSchema => "SCHEMA_UNSUPPORTED",
            PersistenceErrorCode::Unavailable => "PERSISTENCE_UNAVAILABLE",
            PersistenceErrorCode::AuditAppendFailed => "PERSISTENCE_AUDIT_APPEND_FAILED",
            PersistenceErrorCode::BackupExists => "PERSISTENCE_BACKUP_EXISTS",
            PersistenceErrorCode::BackupFailed => "PERSISTENCE_BACKUP_FAILED",
            PersistenceErrorCode::MigrationDryRunFailed => "PERSISTENCE_MIGRATION_DRY_RUN_FAILED",
        }
    }
}


/// Domain validation failures.
#[derive(Debug, Clone, PartialEq, Eq)]
pub enum DomainError {
    EmptyField { field: &'static str },
    InvalidPrice { value_micros: i64 },
    InvalidQuantity { value: u32 },
    InvalidTradingMode { value: String },
    InvalidDate { year: u16, month: u8, day: u8 },
    ExpiredContract { expiration: String, as_of: String },
    InvalidScore { value: i16 },
    InvalidConfidence { value: u32 },
    InvalidPercent { field: &'static str, value: u32 },
    InvalidOrderType { detail: &'static str },
    InvalidTimestamp,
}

impl DomainError {
    /// The code of the variant.
    pub open spec fn spec_code(&self) -> DomainErrorCode {
        match self {
            DomainError::EmptyField { .. } => DomainErrorCode::EmptyField,
            DomainError::InvalidPrice { .. } => DomainErrorCode::InvalidPrice,
            DomainError::InvalidQuantity { .. } => DomainErrorCode::InvalidQuantity,
            DomainError::InvalidTradingMode { .. } => DomainErrorCode::InvalidTradingMode,
            DomainError::InvalidDate { .. } => DomainErrorCode::InvalidDate,
            DomainError::ExpiredContract { .. } => DomainErrorCode::ExpiredContract,
            DomainError::InvalidScore { .. } => DomainErrorCode::InvalidScore,
            DomainError::InvalidConfidence { .. } => DomainErrorCode::InvalidConfidence,
            DomainError::InvalidPercent { .. } => DomainErrorCode::InvalidPercent,
            DomainError::InvalidOrderType { .. } => DomainErrorCode::InvalidOrderType,
            DomainError::InvalidTimestamp => DomainErrorCode::InvalidTimestamp,
        }
    }

    /// The code of the variant.
    pub fn code(&self) -> (r: DomainErrorCode)
        ensures
            r == self.spec_code(),
    {
        match self {
            DomainError::EmptyField { .. } => DomainErrorCode::EmptyField,
            DomainError::InvalidPrice { .. } => DomainErrorCode::InvalidPrice,
            DomainError::InvalidQuantity { .. } => DomainErrorCode::InvalidQuantity,
            DomainError::InvalidTradingMode { .. } => DomainErrorCode::InvalidTradingMode,
            DomainError::InvalidDate { .. } => DomainErrorCode::InvalidDate,
            DomainError::ExpiredContract { .. } => DomainErrorCode::ExpiredContract,
            DomainError::InvalidScore { .. } => DomainErrorCode::InvalidScore,
            DomainError::InvalidConfidence { .. } => DomainErrorCode::InvalidConfidence,
            DomainError::InvalidPercent { .. } => DomainErrorCode::InvalidPercent,
            DomainError::InvalidOrderType { .. } => DomainErrorCode::InvalidOrderType,
            DomainError::InvalidTimestamp => DomainErrorCode::InvalidTimestamp,
        }
    }

    /// The text after the code in the operator-facing message.
    pub open spec fn spec_detail(&self) -> Seq<char> {
        match self {
            DomainError::EmptyField { field } => ": field `"@ + field@ + "` must not be empty."@,
            DomainError::InvalidPrice { value_micros } => ": price value `"@ + int_dec_seq(
                *value_micros as int,
            ) + "` micro-units must be positive."@,
            DomainError::InvalidQuantity { value } => ": quantity `"@ + dec_seq(*value as nat)
                + "` must be greater than zero."@,
            DomainError::InvalidTradingMode { value } => ": trading mode `"@ + value@
                + "` is not supported."@,
            DomainError::InvalidDate { year, month, day } => ": date "@ + zero_pad(
                dec_seq(*year as nat),
                4,
            ) + "-"@ + zero_pad(dec_seq(*month as nat), 2) + "-"@ + zero_pad(
                dec_seq(*day as nat),
                2,
            ) + " is not a valid calendar date."@,
            DomainError::ExpiredContract { expiration, as_of } => ": expiration "@ + expiration@
                + " is not after valuation date "@ + as_of@ + "."@,
            DomainError::InvalidScore { value } => ": score `"@ + int_dec_seq(*value as int)
                + "` is outside the allowed range."@,
            DomainError::InvalidConfidence { value } => ": confidence `"@ + dec_seq(
                *value as nat,
            ) + "` is outside the allowed range."@,
            DomainError::InvalidPercent { field, value } => ": percent field `"@ + field@
                + "` has invalid value `"@ + dec_seq(*value as nat) + "`."@,
            DomainError::InvalidOrderType { detail } => ": invalid order type configuration: "@
                + detail@ + "."@,
            DomainError::InvalidTimestamp => ": timestamp must be on or after the Unix epoch."@,
        }
    }

    /// The operator-facing message: the code, then what went wrong.
    pub open spec fn spec_message(&self) -> Seq<char> {
        self.spec_code().spec_str() + self.spec_detail()
    }

    /// The operator-facing message: the code, then what went wrong.
    pub fn message(&self) -> (r: String)
        ensures
            r@ == self.spec_message(),
    {
        let mut s = String::new();
        s.append(self.code().as_str());
        let ghost start = s@;
        match self {
            DomainError::EmptyField { field } => {
                s.append(": field `");
                s.append(field);
                s.append("` must not be empty.");
            },
            DomainError::InvalidPrice { value_micros } => {
                s.append(": price value `");
                push_i64_dec(&mut s, *value_micros);
                s.append("` micro-units must be positive.");
            },
            DomainError::InvalidQuantity { value } => {
                s.append(": quantity `");
                push_u64_dec(&mut s, *value as u64);
                s.append("` must be greater than zero.");
            },
            DomainError::InvalidTradingMode { value } => {
                s.append(": trading mode `");
                s.append(value.as_str());
                s.append("` is not supported.");
            },
            DomainError::InvalidDate { year, month, day } => {
                s.append(": date ");
                push_u64_padded(&mut s, *year as u64, 4);
                s.append("-");
                push_u64_padded(&mut s, *month as u64, 2);
                s.append("-");
                push_u64_padded(&mut s, *day as u64, 2);
                s.append(" is not a valid calendar date.");
            },
            DomainError::ExpiredContract { expiration, as_of } => {
                s.append(": expiration ");
                s.append(expiration.as_str());
                s.append(" is not after valuation date ");
                s.append(as_of.as_str());
                s.append(".");
            },
            DomainError::InvalidScore { value } => {
                s.append(": score `");
                push_i64_dec(&mut s, *value as i64);
                s.append("` is outside the allowed range.");
            },
            DomainError::InvalidConfidence { value } => {
                s.append(": confidence `");
                push_u64_dec(&mut s, *value as u64);
                s.append("` is outside the allowed range.");
            },
            DomainError::InvalidPercent { field, value } => {
                s.append(": percent field `");
                s.append(field);
                s.append("` has invalid value `");
                push_u64_dec(&mut s, *value as u64);
                s.append("`.");
            },
            DomainError::InvalidOrderType { detail } => {
                s.append(": invalid order type configuration: ");
                s.append(detail);
                s.append(".");
            },
            DomainError::InvalidTimestamp => {
                s.append(": timestamp must be on or after the Unix epoch.");
            },
        }
        assert(s@ =~= start + self.spec_detail());
        s
    }
}

/// Malformed input files or requests; `path` names the input.
#[derive(Debug, Clone, PartialEq, Eq)]
pub enum InputError {
    Invalid { path: String, detail: String },
}

impl InputError {
    /// The code of the variant.
    pub fn code(&self) -> (r: InputErrorCode)
        ensures
            r == InputErrorCode::Invalid,
    {
        InputErrorCode::Invalid
    }

    /// The operator-facing message.
    pub open spec fn spec_message(&self) -> Seq<char> {
        match self {
            InputError::Invalid { path, detail } => "INPUT_INVALID"@ + ": invalid input at "@
                + path@ + ": "@ + detail@ + ". Hint: verify the fixture or request file format."@,
        }
    }

    /// The operator-facing message.
    pub fn message(&self) -> (r: String)
        ensures
            r@ == self.spec_message(),
    {
        let mut s = String::new();
        s.append(self.code().as_str());
        match self {
            InputError::Invalid { path, detail } => {
                s.append(": invalid input at ");
                s.append(path.as_str());
                s.append(": ");
                s.append(detail.as_str());
                s.append(". Hint: verify the fixture or request file format.");
            },
        }
        assert(s@ =~= self.spec_message());
        s
    }
}


/// Security gate failures.
#[derive(Debug, Clone, PartialEq, Eq)]
pub enum SecurityError {
    SecretStorageDisabled { path: Option<String> },
    SecretMissing { name: String },
    SecretPlaintextRejected { path: String },
    LiveTradingDisabled { mode: String },
    KillSwitchActive,
    InsecureFilePermissions { path: String },
}

impl SecurityError {
    /// The code of the variant.
    pub open spec fn spec_code(&self) -> SecurityErrorCode {
        match self {
            SecurityError::SecretStorageDisabled { .. } => SecurityErrorCode::SecretStorageDisabled,
            SecurityError::SecretMissing { .. } => SecurityErrorCode::SecretMissing,
            SecurityError::SecretPlaintextRejected { .. } => SecurityErrorCode::SecretPlaintextRejected,
            SecurityError::LiveTradingDisabled { .. } => SecurityErrorCode::LiveTradingDisabled,
            SecurityError::KillSwitchActive => SecurityErrorCode::KillSwitchActive,
            SecurityError::InsecureFilePermissions { .. } => SecurityErrorCode::InsecureFilePermissions,
        }
    }

    /// The code of the variant.
    pub fn code(&self) -> (r: SecurityErrorCode)
        ensures
            r == self.spec_code(),
    {
        match self {
            SecurityError::SecretStorageDisabled { .. } => SecurityErrorCode::SecretStorageDisabled,
            SecurityError::SecretMissing { .. } => SecurityErrorCode::SecretMissing,
            SecurityError::SecretPlaintextRejected { .. } => SecurityErrorCode::SecretPlaintextRejected,
            SecurityError::LiveTradingDisabled { .. } => SecurityErrorCode::LiveTradingDisabled,
            SecurityError::KillSwitchActive => SecurityErrorCode::KillSwitchActive,
            SecurityError::InsecureFilePermissions { .. } => SecurityErrorCode::InsecureFilePermissions,
        }
    }

    /// The text after the code in the operator-facing message.
    pub open spec fn spec_detail(&self) -> Seq<char> {
        match self {
            SecurityError::SecretStorageDisabled { path } => match path {
                Some(p) => ": secret storage at "@ + p@
                    + " is disabled. Hint: use paper mode or configure an approved secret store."@,
                None => ": secret storage is disabled. Hint: use paper mode or configure an approved secret store."@,
            },
            SecurityError::SecretMissing { name } => ": required secret `"@ + name@
                + "` is missing. Hint: configure the secret through the approved local store."@,
            SecurityError::SecretPlaintextRejected { path } => ": plaintext secret file "@ + path@
                + " is not allowed. Hint: use an encrypted or approved secret store."@,
            SecurityError::LiveTradingDisabled { mode } => ": live trading is disabled for `"@
                + mode@
                + "`. Hint: stay in paper mode until production approval is complete."@,
            SecurityError::KillSwitchActive => ": kill switch is active. Hint: clear the kill switch only after the operator confirms execution may resume."@,
            SecurityError::InsecureFilePermissions { path } => ": insecure file permissions at "@
                + path@ + ". Hint: restrict access before storing secrets."@,
        }
    }

    /// The operator-facing message: the code, then what went wrong.
    pub open spec fn spec_message(&self) -> Seq<char> {
        self.spec_code().spec_str() + self.spec_detail()
    }

    /// The operator-facing message: the code, then what went wrong.
    pub fn message(&self) -> (r: String)
        ensures
            r@ == self.spec_message(),
    {
        let mut s = String::new();
        s.append(self.code().as_str());
        let ghost start = s@;
        match self {
            SecurityError::SecretStorageDisabled { path } => match path {
                Some(p) => {
                    s.append(": secret storage at ");
                    s.append(p.as_str());
                    s.append(
                        " is disabled. Hint: use paper mode or configure an approved secret store.",
                    );
                },
                None => {
                    s.append(
                        ": secret storage is disabled. Hint: use paper mode or configure an approved secret store.",
                    );
                },
            },
            SecurityError::SecretMissing { name } => {
                s.append(": required secret `");
                s.append(name.as_str());
                s.append("` is missing. Hint: configure the secret through the approved local store.");
            },
            SecurityError::SecretPlaintextRejected { path } => {
                s.append(": plaintext secret file ");
                s.append(path.as_str());
                s.append(" is not allowed. Hint: use an encrypted or approved secret store.");
            },
            SecurityError::LiveTradingDisabled { mode } => {
                s.append(": live trading is disabled for `");
                s.append(mode.as_str());
                s.append("`. Hint: stay in paper mode until production approval is complete.");
            },
            SecurityError::KillSwitchActive => {
                s.append(
                    ": kill switch is active. Hint: clear the kill switch only after the operator confirms execution may resume.",
                );
            },
            SecurityError::InsecureFilePermissions { path } => {
                s.append(": insecure file permissions at ");
                s.append(path.as_str());
                s.append(". Hint: restrict access before storing secrets.");
            },
        }
        assert(s@ =~= start + self.spec_detail());
        s
    }
}

/// Command-line parse failures.
#[derive(Debug, Clone, PartialEq, Eq)]
pub enum CliError {
    UnknownCommand { command: String },
    UnknownSubcommand { command: &'static str, subcommand: String },
    MissingArgument { command: &'static str, argument: &'static str, hint: &'static str },
    UnexpectedArgument { command: &'static str, argument: String, hint: &'static str },
}

impl CliError {
    /// The code of the variant.
    pub open spec fn spec_code(&self) -> CliErrorCode {
        match self {
            CliError::UnknownCommand { .. } => CliErrorCode::UnknownCommand,
            CliError::UnknownSubcommand { .. } => CliErrorCode::UnknownSubcommand,
            CliError::MissingArgument { .. } => CliErrorCode::MissingArgument,
            CliError::UnexpectedArgument { .. } => CliErrorCode::UnexpectedArgument,
        }
    }

    /// The code of the variant.
    pub fn code(&self) -> (r: CliErrorCode)
        ensures
            r == self.spec_code(),
    {
        match self {
            CliError::UnknownCommand { .. } => CliErrorCode::UnknownCommand,
            CliError::UnknownSubcommand { .. } => CliErrorCode::UnknownSubcommand,
            CliError::MissingArgument { .. } => CliErrorCode::MissingArgument,
            CliError::UnexpectedArgument { .. } => CliErrorCode::UnexpectedArgument,
        }
    }

    /// The text after the code in the operator-facing message.
    pub open spec fn spec_detail(&self) -> Seq<char> {
        match self {
            CliError::UnknownCommand { command } => ": unknown command `"@ + command@
                + "`. Hint: run `optionclaw --help` to list commands."@,
            CliError::UnknownSubcommand { command, subcommand } => ": unknown subcommand `"@
                + subcommand@ + "` for command `"@ + command@ + "`. Hint: run `optionclaw "@
                + command@ + " --help`."@,
            CliError::MissingArgument { command, argument, hint } =>
                ": missing required argument `"@ + argument@ + "` for command `"@ + command@
                + "`. Hint: "@ + hint@,
            CliError::UnexpectedArgument { command, argument, hint } => ": unexpected argument `"@
                + argument@ + "` for command `"@ + command@ + "`. Hint: "@ + hint@,
        }
    }

    /// The operator-facing message: the code, then what went wrong.
    pub open spec fn spec_message(&self) -> Seq<char> {
        self.spec_code().spec_str() + self.spec_detail()
    }

    /// The operator-facing message: the code, then what went wrong.
    pub fn message(&self) -> (r: String)
        ensures
            r@ == self.spec_message(),
    {
        let mut s = String::new();
        s.append(self.code().as_str());
        let ghost start = s@;
        match self {
            CliError::UnknownCommand { command } => {
                s.append(": unknown command `");
                s.append(command.as_str());
                s.append("`. Hint: run `optionclaw --help` to list commands.");
            },
            CliError::UnknownSubcommand { command, subcommand } => {
                s.append(": unknown subcommand `");
                s.append(subcommand.as_str());
                s.append("` for command `");
                s.append(command);
                s.append("`. Hint: run `optionclaw ");
                s.append(command);
                s.append(" --help`.");
            },
            CliError::MissingArgument { command, argument, hint } => {
                s.append(": missing required argument `");
                s.append(argument);
                s.append("` for command `");
                s.append(command);
                s.append("`. Hint: ");
                s.append(hint);
            },
            CliError::UnexpectedArgument { command, argument, hint } => {
                s.append(": unexpected argument `");
                s.append(argument.as_str());
                s.append("` for command `");
                s.append(command);
                s.append("`. Hint: ");
                s.append(hint);
            },
        }
        assert(s@ =~= start + self.spec_detail());
        s
    }
}

/// Persistence failures; `source` carries the file system's own message.
#[derive(Debug, Clone, PartialEq, Eq)]
pub enum PersistenceError {
    Missing { path: String },
    Corrupt { path: String, detail: String },
    UnsupportedSchema { path: String, found: u32, expected: u32 },
    Unavailable { path: String, source: String },
    AuditAppendFailed { path: String, source: String },
    BackupExists { path: String },
    BackupFailed { path: String, source: String },
    MigrationDryRunFailed { path: String, detail: String },
}

impl PersistenceError {
    /// The code of the variant.
    pub open spec fn spec_code(&self) -> PersistenceErrorCode {
        match self {
            PersistenceError::Missing { .. } => PersistenceErrorCode::Missing,
            PersistenceError::Corrupt { .. } => PersistenceErrorCode::Corrupt,
            PersistenceError::UnsupportedSchema { .. } => PersistenceErrorCode::UnsupportedSchema,
            PersistenceError::Unavailable { .. } => PersistenceErrorCode::Unavailable,
            PersistenceError::AuditAppendFailed { .. } => PersistenceErrorCode::AuditAppendFailed,
            PersistenceError::BackupExists { .. } => PersistenceErrorCode::BackupExists,
            PersistenceError::BackupFailed { .. } => PersistenceErrorCode::BackupFailed,
            PersistenceError::MigrationDryRunFailed { .. } => PersistenceErrorCode::MigrationDryRunFailed,
        }
    }

    /// The code of the variant.
    pub fn code(&self) -> (r: PersistenceErrorCode)
        ensures
            r == self.spec_code(),
    {
        match self {
            PersistenceError::Missing { .. } => PersistenceErrorCode::Missing,
            PersistenceError::Corrupt { .. } => PersistenceErrorCode::Corrupt,
            PersistenceError::UnsupportedSchema { .. } => PersistenceErrorCode::UnsupportedSchema,
            PersistenceError::Unavailable { .. } => PersistenceErrorCode::Unavailable,
            PersistenceError::AuditAppendFailed { .. } => PersistenceErrorCode::AuditAppendFailed,
            PersistenceError::BackupExists { .. } => PersistenceErrorCode::BackupExists,
            PersistenceError::BackupFailed { .. } => PersistenceErrorCode::BackupFailed,
            PersistenceError::MigrationDryRunFailed { .. } => PersistenceErrorCode::MigrationDryRunFailed,
        }
    }

    /// The text after the code in the operator-facing message.
    pub open spec fn spec_detail(&self) -> Seq<char> {
        match self {
            PersistenceError::Missing { path } => ": required persistence path "@ + path@
                + " is missing. Hint: run state init."@,
            PersistenceError::Corrupt { path, detail } => ": persistence file "@ + path@
                + " is corrupt: "@ + detail@ + ". Hint: restore from backup."@,
            PersistenceError::UnsupportedSchema { path, found, expected } =>
                ": persistence schema "@ + dec_seq(*found as nat) + " at "@ + path@
                + " is unsupported; expected "@ + dec_seq(*expected as nat)
                + ". Hint: back up the data directory before migrating."@,
            PersistenceError::Unavailable { path, source } => ": persistence path "@ + path@
                + " is unavailable: "@ + source@ + ". Hint: verify filesystem permissions."@,
            PersistenceError::AuditAppendFailed { path, source } =>
                ": failed to append audit record at "@ + path@ + ": "@ + source@
                + ". Hint: stop execution and repair the local disk or permissions."@,
            PersistenceError::BackupExists { path } => ": backup target "@ + path@
                + " already exists. Hint: choose a new backup path."@,
            PersistenceError::BackupFailed { path, source } => ": failed to back up data to "@
                + path@ + ": "@ + source@ + ". Hint: verify write access and available space."@,
            PersistenceError::MigrationDryRunFailed { path, detail } =>
                ": migration dry run failed for "@ + path@ + ": "@ + detail@ + "."@,
        }
    }

    /// The operator-facing message: the code, then what went wrong.
    pub open spec fn spec_message(&self) -> Seq<char> {
        self.spec_code().spec_str() + self.spec_detail()
    }

    /// The operator-facing message: the code, then what went wrong.
    pub fn message(&self) -> (r: String)
        ensures
            r@ == self.spec_message(),
    {
        let mut s = String::new();
        s.append(self.code().as_str());
        let ghost start = s@;
        match self {
            PersistenceError::Missing { path } => {
                s.append(": required persistence path ");
                s.append(path.as_str());
                s.append(" is missing. Hint: run state init.");
            },
            PersistenceError::Corrupt { path, detail } => {
                s.append(": persistence file ");
                s.append(path.as_str());
                s.append(" is corrupt: ");
                s.append(detail.as_str());
                s.append(". Hint: restore from backup.");
            },
            PersistenceError::UnsupportedSchema { path, found, expected } => {
                s.append(": persistence schema ");
                push_u64_dec(&mut s, *found as u64);
                s.append(" at ");
                s.append(path.as_str());
                s.append(" is unsupported; expected ");
                push_u64_dec(&mut s, *expected as u64);
                s.append(". Hint: back up the data directory before migrating.");
            },
            PersistenceError::Unavailable { path, source } => {
                s.append(": persistence path ");
                s.append(path.as_str());
                s.append(" is unavailable: ");
                s.append(source.as_str());
                s.append(". Hint: verify filesystem permissions.");
            },
            PersistenceError::AuditAppendFailed { path, source } => {
                s.append(": failed to append audit record at ");
                s.append(path.as_str());
                s.append(": ");
                s.append(source.as_str());
                s.append(". Hint: stop execution and repair the local disk or permissions.");
            },
            PersistenceError::BackupExists { path } => {
                s.append(": backup target ");
                s.append(path.as_str());
                s.append(" already exists. Hint: choose a new backup path.");
            },
            PersistenceError::BackupFailed { path, source } => {
                s.append(": failed to back up data to ");
                s.append(path.as_str());
                s.append(": ");
                s.append(source.as_str());
                s.append(". Hint: verify write access and available space.");
            },
            PersistenceError::MigrationDryRunFailed { path, detail } => {
                s.append(": migration dry run failed for ");
                s.append(path.as_str());
                s.append(": ");
                s.append(detail.as_str());
                s.append(".");
            },
        }
        assert(s@ =~= start + self.spec_detail());
        s
    }
}

impl AppError {
    /// The operator-facing message of the wrapped error.
    pub open spec fn spec_message(&self) -> Seq<char> {
        match self {
            AppError::Config(e) => e.spec_message(),
            AppError::Domain(e) => e.spec_message(),
            AppError::Security(e) => e.spec_message(),
            AppError::Input(e) => e.spec_message(),
            AppError::Persistence(e) => e.spec_message(),
        }
    }

    /// The operator-facing message of the wrapped error.
    pub fn message(&self) -> (r: String)
        ensures
            r@ == self.spec_message(),
    {
        match self {
            AppError::Config(e) => e.message(),
            AppError::Domain(e) => e.message(),
            AppError::Security(e) => e.message(),
            AppError::Input(e) => e.message(),
            AppError::Persistence(e) => e.message(),
        }
    }
}

impl From<ConfigError> for AppError {
    fn from(e: ConfigError) -> (r: Self) {
        AppError::Config(e)
    }
}

impl vstd::std_specs::convert::FromSpecImpl<ConfigError> for AppError {
    open spec fn obeys_from_spec() -> bool {
        true
    }

    open spec fn from_spec(e: ConfigError) -> Self {
        AppError::Config(e)
    }
}

impl From<DomainError> for AppError {
    fn from(e: DomainError) -> (r: Self) {
        AppError::Domain(e)
    }
}

impl vstd::std_specs::convert::FromSpecImpl<DomainError> for AppError {
    open spec fn obeys_from_spec() -> bool {
        true
    }

    open spec fn from_spec(e: DomainError) -> Self {
        AppError::Domain(e)
    }
}

impl From<SecurityError> for AppError {
    fn from(e: SecurityError) -> (r: Self) {
        AppError::Security(e)
    }
}

impl vstd::std_specs::convert::FromSpecImpl<SecurityError> for AppError {
    open spec fn obeys_from_spec() -> bool {
        true
    }

    open spec fn from_spec(e: SecurityError) -> Self {
        AppError::Security(e)
    }
}

impl From<InputError> for AppError {
    fn from(e: InputError) -> (r: Self) {
        AppError::Input(e)
    }
}

impl vstd::std_specs::convert::FromSpecImpl<InputError> for AppError {
    open spec fn obeys_from_spec() -> bool {
        true
    }

    open spec fn from_spec(e: InputError) -> Self {
        AppError::Input(e)
    }
}

impl From<PersistenceError> for AppError {
    fn from(e: PersistenceError) -> (r: Self) {
        AppError::Persistence(e)
    }
}

impl vstd::std_specs::convert::FromSpecImpl<PersistenceError> for AppError {
    open spec fn obeys_from_spec() -> bool {
        true
    }

    open spec fn from_spec(e: PersistenceError) -> Self {
        AppError::Persistence(e)
    }
}

/// Whether `e` is the input error at `path` with the given detail.
pub open spec fn spec_input_error(e: AppError, path: Seq<char>, detail: Seq<char>) -> bool {
    e matches AppError::Input(InputError::Invalid { path: p, detail: d }) && p@ == path && d@
        == detail
}

/// An input error at `path` with the given detail.
pub fn invalid_input(path: &str, detail: &str) -> (r: AppError)
    ensures
        spec_input_error(r, path@, detail@),
{
    AppError::Input(InputError::Invalid { path: path.to_owned(), detail: detail.to_owned() })
}

} // verus!
