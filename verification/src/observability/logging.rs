//! Structured log records: their fields, the redaction of secrets, and the
//! once-only logging configuration.

use vstd::prelude::*;
use vstd::string::*;
use crate::errors::{
    AppError, CliError, ConfigError, DomainError, InputError, PersistenceError, SecurityError,
};
use crate::text::{chars_of, find_char_from, index_of_from, lemma_index_of_from, string_of_range, trim, trim_seq};

verus! {

/// Severity of a log record.
#[derive(Debug, Clone, Copy, PartialEq, Eq, Structural)]
pub enum LogLevel {
    Error,
    Warn,
    Info,
    Debug,
    Trace,
}

impl Default for LogLevel {
    fn default() -> (r: Self)
        ensures
            r == LogLevel::Info,
    {
        LogLevel::Info
    }
}

impl LogLevel {
    /// The lower-case name of the level.
    pub open spec fn spec_name(self) -> Seq<char> {
        match self {
            LogLevel::Error => "error"@,
            LogLevel::Warn => "warn"@,
            LogLevel::Info => "info"@,
            LogLevel::Debug => "debug"@,
            LogLevel::Trace => "trace"@,
        }
    }

    /// The lower-case name of the level, as records carry it.
    pub fn as_str(self) -> (r: &'static str)
        ensures
            r@ == self.spec_name(),
    {
        match self {
            LogLevel::Error => "error",
            LogLevel::Warn => "warn",
            LogLevel::Info => "info",
            LogLevel::Debug => "debug",
            LogLevel::Trace => "trace",
        }
    }
}

/// The process-wide logging configuration.
#[derive(Debug, Clone, Copy, PartialEq, Eq, Structural)]
pub struct LoggingConfig {
    pub level: LogLevel,
}

/// Logging configuration that is set once: the first initialisation wins
/// and later ones leave it as it is.
#[derive(Debug, Clone, Copy, PartialEq, Eq, Default)]
pub struct LoggingState {
    config: Option<LoggingConfig>,
}

impl LoggingState {
    /// The configuration, once set.
    pub closed spec fn spec_config(&self) -> Option<LoggingConfig> {
        self.config
    }

    /// No configuration yet.
    pub fn new() -> (r: Self)
        ensures
            r.spec_config() is None,
    {
        LoggingState { config: None }
    }

    /// What one initialisation does: an unset configuration takes `level`;
    /// a set one stays; the configuration in force is returned.
    pub open spec fn spec_init_step(
        before: LoggingState,
        level: LogLevel,
        after: LoggingState,
        r: LoggingConfig,
    ) -> bool {
        &&& before.spec_config() is None ==> after.spec_config() == Some(LoggingConfig { level })
        &&& before.spec_config() is Some ==> after.spec_config() == before.spec_config()
        &&& after.spec_config() == Some(r)
    }

    /// Sets the level if none is set yet, and returns the configuration in
    /// force.
    pub fn init(&mut self, level: LogLevel) -> (r: LoggingConfig)
        ensures
            Self::spec_init_step(*old(self), level, *final(self), r),
    {
        match self.config {
            Some(c) => c,
            None => {
                let c = LoggingConfig { level };
                self.config = Some(c);
                c
            },
        }
    }

    /// The level in force, if configured.
    pub fn current_level(&self) -> (r: Option<LogLevel>)
        ensures
            r == match self.spec_config() {
                Some(c) => Some(c.level),
                None => None::<LogLevel>,
            },
    {
        match self.config {
            Some(c) => Some(c.level),
            None => None,
        }
    }
}

/// Initialises the logging configuration held in `state`, as
/// `LoggingState::init` does, and returns the configuration in force.
pub fn init_logging(state: &mut LoggingState, level: LogLevel) -> (r: LoggingConfig)
    ensures
        LoggingState::spec_init_step(*old(state), level, *final(state), r),
{
    state.init(level)
}

/// The level in force in `state`, if configured.
pub fn current_logging_level(state: &LoggingState) -> (r: Option<LogLevel>)
    ensures
        r == match state.spec_config() {
            Some(c) => Some(c.level),
            None => None::<LogLevel>,
        },
{
    state.current_level()
}

/// Once set, the logging level never changes: whatever level a second
/// initialisation asks for, the configuration of the first stays in force;
/// and the first initialisation of an unset state sets the level it asks
/// for.
pub proof fn lemma_logging_initializes_once(
    s0: LoggingState,
    s1: LoggingState,
    s2: LoggingState,
    first: LogLevel,
    second: LogLevel,
    c1: LoggingConfig,
    c2: LoggingConfig,
)
    requires
        LoggingState::spec_init_step(s0, first, s1, c1),
        LoggingState::spec_init_step(s1, second, s2, c2),
    ensures
        c2 == c1,
        s2.spec_config() == s1.spec_config(),
        s0.spec_config() is None ==> c2.level == first,
{
}

/// One key and value of a log record.
#[derive(Debug, Clone, PartialEq, Eq)]
pub struct StructuredField {
    pub key: String,
    pub value: String,
    pub redacted: bool,
}

impl StructuredField {
    /// A field shown as given.
    pub fn plain(key: &str, value: &str) -> (r: Self)
        ensures
            r.key@ == key@,
            r.value@ == value@,
            !r.redacted,
    {
        StructuredField { key: key.to_owned(), value: value.to_owned(), redacted: false }
    }

    /// A field whose value is never recorded: it reads `<redacted>`,
    /// whatever `value` was.
    pub fn redacted(key: &str, value: &str) -> (r: Self)
        ensures
            r.key@ == key@,
            r.value@ == "<redacted>"@,
            r.redacted,
    {
        StructuredField { key: key.to_owned(), value: "<redacted>".to_owned(), redacted: true }
    }
}

/// One structured log record; times are seconds since the Unix epoch.
#[derive(Debug, Clone, PartialEq, Eq)]
pub struct StructuredLogEvent {
    pub timestamp_unix_seconds: u64,
    pub level: LogLevel,
    pub command: String,
    pub mode: Option<String>,
    pub strategy_id: Option<String>,
    pub risk_profile_id: Option<String>,
    pub order_intent_id: Option<String>,
    pub provider: Option<String>,
    pub operation: String,
    pub latency_ms: Option<u64>,
    pub result: String,
    pub error_code: Option<String>,
    pub retryable: Option<bool>,
    pub correlation_id: Option<String>,
    pub fields: Vec<StructuredField>,
}

impl StructuredLogEvent {
    /// A record stamped at `timestamp_unix_seconds`, with no optional
    /// field set and no extra fields.
    pub fn new_at(
        timestamp_unix_seconds: u64,
        level: LogLevel,
        command: &str,
        operation: &str,
        result: &str,
    ) -> (r: Self)
        ensures
            r.timestamp_unix_seconds == timestamp_unix_seconds,
            r.level == level,
            r.command@ == command@,
            r.operation@ == operation@,
            r.result@ == result@,
            r.mode is None && r.strategy_id is None && r.risk_profile_id is None
                && r.order_intent_id is None && r.provider is None && r.latency_ms is None
                && r.error_code is None && r.retryable is None && r.correlation_id is None,
            r.fields@.len() == 0,
    {
        StructuredLogEvent {
            timestamp_unix_seconds,
            level,
            command: command.to_owned(),
            mode: None,
            strategy_id: None,
            risk_profile_id: None,
            order_intent_id: None,
            provider: None,
            operation: operation.to_owned(),
            latency_ms: None,
            result: result.to_owned(),
            error_code: None,
            retryable: None,
            correlation_id: None,
            fields: Vec::new(),
        }
    }

    /// A record stamped with the current time, as `new_at` states.
    pub fn new(level: LogLevel, command: &str, operation: &str, result: &str) -> (r: Self)
        ensures
            r.level == level,
            r.command@ == command@,
            r.operation@ == operation@,
            r.result@ == result@,
            r.mode is None && r.strategy_id is None && r.risk_profile_id is None
                && r.order_intent_id is None && r.provider is None && r.latency_ms is None
                && r.error_code is None && r.retryable is None && r.correlation_id is None,
            r.fields@.len() == 0,
    {
        let now = match crate::clock::unix_seconds_now() {
            Some(t) => t,
            None => 0,
        };
        Self::new_at(now, level, command, operation, result)
    }

    /// The record with its trading mode set.
    pub fn with_mode(self, mode: &str) -> (r: Self)
        ensures
            r == (StructuredLogEvent { mode: r.mode, ..self }),
            r.mode matches Some(m) && m@ == mode@,
    {
        let mut e = self;
        e.mode = Some(mode.to_owned());
        e
    }

    /// The record with its strategy id set.
    pub fn with_strategy_id(self, strategy_id: &str) -> (r: Self)
        ensures
            r == (StructuredLogEvent { strategy_id: r.strategy_id, ..self }),
            r.strategy_id matches Some(m) && m@ == strategy_id@,
    {
        let mut e = self;
        e.strategy_id = Some(strategy_id.to_owned());
        e
    }

    /// The record with its risk profile id set.
    pub fn with_risk_profile_id(self, risk_profile_id: &str) -> (r: Self)
        ensures
            r == (StructuredLogEvent { risk_profile_id: r.risk_profile_id, ..self }),
            r.risk_profile_id matches Some(m) && m@ == risk_profile_id@,
    {
        let mut e = self;
        e.risk_profile_id = Some(risk_profile_id.to_owned());
        e
    }

    /// The record with its order intent id set.
    pub fn with_order_intent_id(self, order_intent_id: &str) -> (r: Self)
        ensures
            r == (StructuredLogEvent { order_intent_id: r.order_intent_id, ..self }),
            r.order_intent_id matches Some(m) && m@ == order_intent_id@,
    {
        let mut e = self;
        e.order_intent_id = Some(order_intent_id.to_owned());
        e
    }

    /// The record with its provider set.
    pub fn with_provider(self, provider: &str) -> (r: Self)
        ensures
            r == (StructuredLogEvent { provider: r.provider, ..self }),
            r.provider matches Some(m) && m@ == provider@,
    {
        let mut e = self;
        e.provider = Some(provider.to_owned());
        e
    }

    /// The record with its latency set.
    pub fn with_latency_ms(self, latency_ms: u64) -> (r: Self)
        ensures
            r == (StructuredLogEvent { latency_ms: Some(latency_ms), ..self }),
    {
        let mut e = self;
        e.latency_ms = Some(latency_ms);
        e
    }

    /// The record with its error code set.
    pub fn with_error_code(self, error_code: &str) -> (r: Self)
        ensures
            r == (StructuredLogEvent { error_code: r.error_code, ..self }),
            r.error_code matches Some(m) && m@ == error_code@,
    {
        let mut e = self;
        e.error_code = Some(error_code.to_owned());
        e
    }

    /// The record with its retryable flag set.
    pub fn with_retryable(self, retryable: bool) -> (r: Self)
        ensures
            r == (StructuredLogEvent { retryable: Some(retryable), ..self }),
    {
        let mut e = self;
        e.retryable = Some(retryable);
        e
    }

    /// The record with its correlation id set.
    pub fn with_correlation_id(self, correlation_id: &str) -> (r: Self)
        ensures
            r == (StructuredLogEvent { correlation_id: r.correlation_id, ..self }),
            r.correlation_id matches Some(m) && m@ == correlation_id@,
    {
        let mut e = self;
        e.correlation_id = Some(correlation_id.to_owned());
        e
    }

    /// The record with one more field at the end.
    pub fn with_field(self, field: StructuredField) -> (r: Self)
        ensures
            r == (StructuredLogEvent { fields: r.fields, ..self }),
            r.fields@ == self.fields@.push(field),
    {
        let mut e = self;
        e.fields.push(field);
        e
    }
}

/// The error code at the front of an operator-facing message: the text
/// before the first `:`, trimmed, or the whole message when it has none.
pub open spec fn spec_error_code(message: Seq<char>) -> Seq<char> {
    match index_of_from(message, ':', 0) {
        Some(k) => trim_seq(message.subrange(0, k)),
        None => message,
    }
}

/// The error code at the front of an operator-facing message.
pub fn error_code_from_display(message: &str) -> (r: String)
    ensures
        r@ == spec_error_code(message@),
{
    let v = chars_of(message);
    match find_char_from(&v, ':', 0) {
        Some(k) => {
            proof {
                lemma_index_of_from(v@, ':', 0);
            }
            let head = string_of_range(&v, 0, k);
            trim(head.as_str())
        },
        None => message.to_owned(),
    }
}

/// A scalar an error code may hold: an upper-case ASCII letter, a digit or
/// an underscore.
pub open spec fn is_code_char(c: char) -> bool {
    ('A' <= c && c <= 'Z') || ('0' <= c && c <= '9') || c == '_'
}

/// Whether `s` is a non-empty run of code scalars.
pub open spec fn is_code_text(s: Seq<char>) -> bool {
    s.len() > 0 && forall|j: int| 0 <= j < s.len() ==> is_code_char(#[trigger] s[j])
}

/// A message made of a code and a detail that starts with `:` reads back
/// as that code.
proof fn lemma_code_before_colon(code: Seq<char>, detail: Seq<char>)
    requires
        is_code_text(code),
        detail.len() > 0,
        detail[0] == ':',
    ensures
        spec_error_code(code + detail) == code,
{
    let s = code + detail;
    let k = code.len() as int;
    assert forall|j: int| 0 <= j < k implies s[j] != ':' by {
        assert(s[j] == code[j]);
        assert(is_code_char(code[j]));
    }
    assert(s[k] == ':');
    crate::text::lemma_index_of_from_at(s, ':', 0, k);
    assert(s.subrange(0, k) =~= code);
    assert(is_code_char(code[0]));
    assert(is_code_char(code.last()));
    crate::text::lemma_trim_noop(code);
}

/// Every code of `DomainError` is code text.
proof fn lemma_domain_codes_are_code_text(e: DomainError)
    ensures
        is_code_text(e.spec_code().spec_str()),
{
    reveal_strlit("DOMAIN_EMPTY_FIELD");
    reveal_strlit("DOMAIN_INVALID_PRICE");
    reveal_strlit("DOMAIN_INVALID_QUANTITY");
    reveal_strlit("DOMAIN_INVALID_MODE");
    reveal_strlit("DOMAIN_INVALID_DATE");
    reveal_strlit("DOMAIN_EXPIRED_CONTRACT");
    reveal_strlit("DOMAIN_INVALID_SCORE");
    reveal_strlit("DOMAIN_INVALID_CONFIDENCE");
    reveal_strlit("DOMAIN_INVALID_PERCENT");
    reveal_strlit("DOMAIN_INVALID_ORDER_TYPE");
    reveal_strlit("DOMAIN_INVALID_TIMESTAMP");
}

/// The detail of every `DomainError` message starts with `:`.
proof fn lemma_domain_detail_starts_with_colon(e: DomainError)
    ensures
        e.spec_detail().len() > 0,
        e.spec_detail()[0] == ':',
{
    reveal_strlit(": field `");
    reveal_strlit(": price value `");
    reveal_strlit(": quantity `");
    reveal_strlit(": trading mode `");
    reveal_strlit(": date ");
    reveal_strlit(": expiration ");
    reveal_strlit(": score `");
    reveal_strlit(": confidence `");
    reveal_strlit(": percent field `");
    reveal_strlit(": invalid order type configuration: ");
    reveal_strlit(": timestamp must be on or after the Unix epoch.");
}

/// Every code of `SecurityError` is code text.
proof fn lemma_security_codes_are_code_text(e: SecurityError)
    ensures
        is_code_text(e.spec_code().spec_str()),
{
    reveal_strlit("SECRET_STORAGE_DISABLED");
    reveal_strlit("SECRET_MISSING");
    reveal_strlit("SECRET_PLAINTEXT_REJECTED");
    reveal_strlit("LIVE_TRADING_DISABLED");
    reveal_strlit("KILL_SWITCH_ACTIVE");
    reveal_strlit("INSECURE_FILE_PERMISSIONS");
}

/// The detail of every `SecurityError` message starts with `:`.
proof fn lemma_security_detail_starts_with_colon(e: SecurityError)
    ensures
        e.spec_detail().len() > 0,
        e.spec_detail()[0] == ':',
{
    reveal_strlit(": secret storage at ");
    reveal_strlit(": secret storage is disabled. Hint: use paper mode or configure an approved secret store.");
    reveal_strlit(": required secret `");
    reveal_strlit(": plaintext secret file ");
    reveal_strlit(": live trading is disabled for `");
    reveal_strlit(": kill switch is active. Hint: clear the kill switch only after the operator confirms execution may resume.");
    reveal_strlit(": insecure file permissions at ");
}

/// Every code of `CliError` is code text.
proof fn lemma_cli_codes_are_code_text(e: CliError)
    ensures
        is_code_text(e.spec_code().spec_str()),
{
    reveal_strlit("CLI_UNKNOWN_COMMAND");
    reveal_strlit("CLI_UNKNOWN_SUBCOMMAND");
    reveal_strlit("CLI_MISSING_ARGUMENT");
    reveal_strlit("CLI_UNEXPECTED_ARGUMENT");
}

/// The detail of every `CliError` message starts with `:`.
proof fn lemma_cli_detail_starts_with_colon(e: CliError)
    ensures
        e.spec_detail().len() > 0,
        e.spec_detail()[0] == ':',
{
    reveal_strlit(": unknown command `");
    reveal_strlit(": unknown subcommand `");
    reveal_strlit(": missing required argument `");
    reveal_strlit(": unexpected argument `");
}

/// Every code of `PersistenceError` is code text.
proof fn lemma_persistence_codes_are_code_text(e: PersistenceError)
    ensures
        is_code_text(e.spec_code().spec_str()),
{
    reveal_strlit("PERSISTENCE_MISSING");
    reveal_strlit("PERSISTENCE_CORRUPT");
    reveal_strlit("SCHEMA_UNSUPPORTED");
    reveal_strlit("PERSISTENCE_UNAVAILABLE");
    reveal_strlit("PERSISTENCE_AUDIT_APPEND_FAILED");
    reveal_strlit("PERSISTENCE_BACKUP_EXISTS");
    reveal_strlit("PERSISTENCE_BACKUP_FAILED");
    reveal_strlit("PERSISTENCE_MIGRATION_DRY_RUN_FAILED");
}

/// The detail of every `PersistenceError` message starts with `:`.
proof fn lemma_persistence_detail_starts_with_colon(e: PersistenceError)
    ensures
        e.spec_detail().len() > 0,
        e.spec_detail()[0] == ':',
{
    reveal_strlit(": required persistence path ");
    reveal_strlit(": persistence file ");
    reveal_strlit(": persistence schema ");
    reveal_strlit(": persistence path ");
    reveal_strlit(": failed to append audit record at ");
    reveal_strlit(": backup target ");
    reveal_strlit(": failed to back up data to ");
    reveal_strlit(": migration dry run failed for ");
}

/// The code an `AppError`'s message starts with.
pub open spec fn spec_app_error_code(e: AppError) -> Seq<char> {
    match e {
        AppError::Config(ConfigError::Read { .. }) => "E1001"@,
        AppError::Config(ConfigError::Parse { .. }) => "E1002"@,
        AppError::Domain(d) => d.spec_code().spec_str(),
        AppError::Security(s) => s.spec_code().spec_str(),
        AppError::Input(_) => "INPUT_INVALID"@,
        AppError::Persistence(p) => p.spec_code().spec_str(),
    }
}

/// Reading the code back from any error's operator-facing message gives
/// that error's code: the code that failure metrics record is the code of
/// the error that failed the command.
pub proof fn lemma_error_code_of_message(e: AppError)
    ensures
        spec_error_code(e.spec_message()) == spec_app_error_code(e),
{
    match e {
        AppError::Config(c) => {
            reveal_strlit("E1001");
            reveal_strlit("E1002");
            reveal_strlit("E1001: failed to read config file ");
            reveal_strlit("E1002: failed to parse config file ");
            match c {
                ConfigError::Read { path, detail } => {
                    let rest = ": failed to read config file "@ + path@ + ": "@ + detail@
                        + ". Hint: verify the file exists and is readable."@;
                    reveal_strlit(": failed to read config file ");
                    assert(c.spec_message() =~= "E1001"@ + rest);
                    lemma_code_before_colon("E1001"@, rest);
                },
                ConfigError::Parse { path, detail } => {
                    let rest = ": failed to parse config file "@ + path@ + ": "@ + detail@
                        + ". Hint: start from config/example.toml."@;
                    reveal_strlit(": failed to parse config file ");
                    assert(c.spec_message() =~= "E1002"@ + rest);
                    lemma_code_before_colon("E1002"@, rest);
                },
            }
        },
        AppError::Domain(d) => {
            lemma_domain_codes_are_code_text(d);
            lemma_domain_detail_starts_with_colon(d);
            lemma_code_before_colon(d.spec_code().spec_str(), d.spec_detail());
        },
        AppError::Security(s) => {
            lemma_security_codes_are_code_text(s);
            lemma_security_detail_starts_with_colon(s);
            lemma_code_before_colon(s.spec_code().spec_str(), s.spec_detail());
        },
        AppError::Input(i) => {
            reveal_strlit("INPUT_INVALID");
            reveal_strlit(": invalid input at ");
            match i {
                InputError::Invalid { path, detail } => {
                    let rest = ": invalid input at "@ + path@ + ": "@ + detail@
                        + ". Hint: verify the fixture or request file format."@;
                    assert(i.spec_message() =~= "INPUT_INVALID"@ + rest);
                    lemma_code_before_colon("INPUT_INVALID"@, rest);
                },
            }
        },
        AppError::Persistence(p) => {
            lemma_persistence_codes_are_code_text(p);
            lemma_persistence_detail_starts_with_colon(p);
            lemma_code_before_colon(p.spec_code().spec_str(), p.spec_detail());
        },
    }
}

/// Reading the code back from a parse failure's message gives its code.
pub proof fn lemma_cli_error_code_of_message(e: CliError)
    ensures
        spec_error_code(e.spec_message()) == e.spec_code().spec_str(),
{
    lemma_cli_codes_are_code_text(e);
    lemma_cli_detail_starts_with_colon(e);
    lemma_code_before_colon(e.spec_code().spec_str(), e.spec_detail());
}

} // verus!
