//! The append-only audit log: its records and the framing of the log file,
//! one JSON record per non-blank line.

use vstd::prelude::*;
use vstd::string::*;
use crate::domain::TradingMode;
use crate::errors::PersistenceError;
use crate::text::{
    chars_of, dec_seq, find_char_from, index_of_from, lemma_index_of_from, push_u64_dec,
    string_of_range, trim_chars, trim_seq,
};
use super::schema::AUDIT_FILE_NAME;

verus! {

/// What an audit record is about.
#[derive(Debug, Clone, Copy, PartialEq, Eq, Structural)]
pub enum AuditEventType {
    InitDataDir,
    VerifyDataDir,
    StateWrite,
    StateRead,
    Backup,
    MigrationDryRun,
    RiskDecision,
    OrderIntent,
}

impl AuditEventType {
    /// The snake-case name the log stores.
    pub open spec fn spec_str(self) -> Seq<char> {
        match self {
            AuditEventType::InitDataDir => "init_data_dir"@,
            AuditEventType::VerifyDataDir => "verify_data_dir"@,
            AuditEventType::StateWrite => "state_write"@,
            AuditEventType::StateRead => "state_read"@,
            AuditEventType::Backup => "backup"@,
            AuditEventType::MigrationDryRun => "migration_dry_run"@,
            AuditEventType::RiskDecision => "risk_decision"@,
            AuditEventType::OrderIntent => "order_intent"@,
        }
    }

    /// The snake-case name the log stores.
    pub fn as_str(self) -> (r: &'static str)
        ensures
            r@ == self.spec_str(),
    {
        match self {
            AuditEventType::InitDataDir => "init_data_dir",
            AuditEventType::VerifyDataDir => "verify_data_dir",
            AuditEventType::StateWrite => "state_write",
            AuditEventType::StateRead => "state_read",
            AuditEventType::Backup => "backup",
            AuditEventType::MigrationDryRun => "migration_dry_run",
            AuditEventType::RiskDecision => "risk_decision",
            AuditEventType::OrderIntent => "order_intent",
        }
    }
}

/// One audit record. The context is redacted by the caller and never
/// blank.
#[derive(Debug, Clone, PartialEq, Eq)]
pub struct AuditEvent {
    pub timestamp_unix_seconds: u64,
    pub event_type: AuditEventType,
    pub mode: String,
    pub order_intent_id: Option<String>,
    pub risk_decision: Option<String>,
    pub redacted_context: String,
}

/// The error for a blank context.
pub open spec fn spec_blank_context_error(e: PersistenceError) -> bool {
    e matches PersistenceError::Corrupt { path, detail } && path@ == "events.jsonl"@
        && detail@ == "redacted context must not be empty"@
}

/// The error for a clock that reads before the Unix epoch.
pub open spec fn spec_clock_error(e: PersistenceError) -> bool {
    e matches PersistenceError::Corrupt { path, detail } && path@ == "events.jsonl"@
        && detail@ == "system clock is before Unix epoch"@
}

/// Whether `e` is the record made at `t` from the given parts.
pub open spec fn spec_event_made(
    e: AuditEvent,
    t: u64,
    event_type: AuditEventType,
    mode: TradingMode,
    order_intent_id: Option<String>,
    risk_decision: Option<String>,
    redacted_context: Seq<char>,
) -> bool {
    &&& e.timestamp_unix_seconds == t
    &&& e.event_type == event_type
    &&& e.mode@ == mode.spec_name()
    &&& e.order_intent_id == order_intent_id
    &&& e.risk_decision == risk_decision
    &&& e.redacted_context@ == redacted_context
}

fn blank_context_error() -> (e: PersistenceError)
    ensures
        spec_blank_context_error(e),
{
    PersistenceError::Corrupt {
        path: AUDIT_FILE_NAME.to_owned(),
        detail: "redacted context must not be empty".to_owned(),
    }
}

fn is_blank(s: &str) -> (r: bool)
    ensures
        r == (trim_seq(s@).len() == 0),
{
    let v = chars_of(s);
    let (lo, hi) = trim_chars(&v);
    lo == hi
}

impl AuditEvent {
    /// The record stamped at `timestamp_unix_seconds`; refused when the
    /// context is blank once trimmed.
    pub fn new_at(
        timestamp_unix_seconds: u64,
        event_type: AuditEventType,
        mode: TradingMode,
        order_intent_id: Option<String>,
        risk_decision: Option<String>,
        redacted_context: &str,
    ) -> (r: Result<Self, PersistenceError>)
        ensures
            trim_seq(redacted_context@).len() == 0 ==> (r matches Err(e)
                && spec_blank_context_error(e)),
            trim_seq(redacted_context@).len() != 0 ==> (r matches Ok(e) && spec_event_made(
                e,
                timestamp_unix_seconds,
                event_type,
                mode,
                order_intent_id,
                risk_decision,
                redacted_context@,
            )),
    {
        if is_blank(redacted_context) {
            return Err(blank_context_error());
        }
        Ok(
            AuditEvent {
                timestamp_unix_seconds,
                event_type,
                mode: mode.to_display_string(),
                order_intent_id,
                risk_decision,
                redacted_context: redacted_context.to_owned(),
            },
        )
    }

    /// The record stamped with the current time. A blank context is
    /// refused before the clock is read; a clock that reads before the
    /// Unix epoch is refused too.
    pub fn new(
        event_type: AuditEventType,
        mode: TradingMode,
        order_intent_id: Option<String>,
        risk_decision: Option<String>,
        redacted_context: &str,
    ) -> (r: Result<Self, PersistenceError>)
        ensures
            trim_seq(redacted_context@).len() == 0 ==> (r matches Err(e)
                && spec_blank_context_error(e)),
            trim_seq(redacted_context@).len() != 0 ==> match r {
                Ok(e) => spec_event_made(
                    e,
                    e.timestamp_unix_seconds,
                    event_type,
                    mode,
                    order_intent_id,
                    risk_decision,
                    redacted_context@,
                ),
                Err(e) => spec_clock_error(e),
            },
    {
        if is_blank(redacted_context) {
            return Err(blank_context_error());
        }
        match crate::clock::unix_seconds_now() {
            Some(t) => Self::new_at(
                t,
                event_type,
                mode,
                order_intent_id,
                risk_decision,
                redacted_context,
            ),
            None => Err(
                PersistenceError::Corrupt {
                    path: AUDIT_FILE_NAME.to_owned(),
                    detail: "system clock is before Unix epoch".to_owned(),
                },
            ),
        }
    }
}

/// `line` without one trailing carriage return.
pub open spec fn strip_cr(line: Seq<char>) -> Seq<char> {
    if line.len() > 0 && line.last() == '\r' {
        line.drop_last()
    } else {
        line
    }
}

/// The non-blank lines of `s` from position `pos` on, each with its
/// 1-based line number, counting the line at `pos` as `number`. Lines
/// end at `\n`; a `\r` just before it belongs to the line ending, and the
/// text after the last `\n`, if any, is a line of its own.
pub open spec fn spec_log_lines_from(s: Seq<char>, pos: int, number: int) -> Seq<(int, Seq<char>)>
    decreases s.len() - pos,
{
    if pos < 0 || pos >= s.len() {
        Seq::empty()
    } else {
        let found = index_of_from(s, '\n', pos);
        let line = match found {
            Some(i) => strip_cr(s.subrange(pos, i)),
            None => s.subrange(pos, s.len() as int),
        };
        let next = match found {
            Some(i) => i + 1,
            None => s.len() as int,
        };
        proof {
            lemma_index_of_from(s, '\n', pos);
        }
        let rest = spec_log_lines_from(s, next, number + 1);
        if trim_seq(line).len() == 0 {
            rest
        } else {
            seq![(number, line)] + rest
        }
    }
}

/// The non-blank lines of a log file, numbered from 1.
pub open spec fn spec_log_lines(s: Seq<char>) -> Seq<(int, Seq<char>)> {
    spec_log_lines_from(s, 0, 1)
}

/// A non-blank line of the log and its 1-based number.
#[derive(Debug, Clone, PartialEq, Eq)]
pub struct LogLine {
    pub number: usize,
    pub text: String,
}

/// A log line as a number and its characters.
pub open spec fn log_line_view(l: LogLine) -> (int, Seq<char>) {
    (l.number as int, l.text@)
}

/// The non-blank lines of the log `contents`, in order, each with its
/// 1-based line number; every one of them must hold one record.
pub fn log_lines(contents: &str) -> (r: Vec<LogLine>)
    requires
        contents@.len() < usize::MAX,
    ensures
        r@.map_values(|l: LogLine| log_line_view(l)) == spec_log_lines(contents@),
{
    let v = chars_of(contents);
    let n = v.len();
    let mut out: Vec<LogLine> = Vec::new();
    let mut pos: usize = 0;
    let mut number: usize = 1;
    while pos < n
        invariant
            v@ == contents@,
            n == v@.len(),
            n < usize::MAX,
            pos <= n,
            1 <= number <= pos + 1,
            out@.map_values(|l: LogLine| log_line_view(l)) + spec_log_lines_from(
                v@,
                pos as int,
                number as int,
            ) == spec_log_lines(contents@),
        decreases n - pos,
    {
        proof {
            lemma_index_of_from(v@, '\n', pos as int);
        }
        let found = find_char_from(&v, '\n', pos);
        let (lo, hi, next): (usize, usize, usize) = match found {
            Some(i) => {
                if i > pos && v[i - 1] == '\r' {
                    (pos, i - 1, i + 1)
                } else {
                    (pos, i, i + 1)
                }
            },
            None => (pos, n, n),
        };
        let text = string_of_range(&v, lo, hi);
        let ghost line = text@;
        proof {
            match index_of_from(v@, '\n', pos as int) {
                Some(i) => {
                    let raw = v@.subrange(pos as int, i);
                    if i > pos && v@[i - 1] == '\r' {
                        assert(line =~= raw.drop_last());
                    } else {
                        assert(line =~= raw);
                    }
                    assert(line == strip_cr(raw));
                },
                None => {},
            }
        }
        let tv = chars_of(text.as_str());
        let (tlo, thi) = trim_chars(&tv);
        let ghost before = out@.map_values(|l: LogLine| log_line_view(l));
        if tlo != thi {
            out.push(LogLine { number, text });
            proof {
                assert(out@.map_values(|l: LogLine| log_line_view(l)) =~= before + seq![
                    (number as int, line),
                ]);
            }
        }
        pos = next;
        number = number + 1;
    }
    proof {
        assert(spec_log_lines_from(v@, pos as int, number as int) =~= Seq::empty());
    }
    out
}

/// The error for a log line that holds no readable record.
pub open spec fn spec_corrupt_line(path: Seq<char>, number: int, detail: Seq<char>, e: PersistenceError) -> bool {
    e matches PersistenceError::Corrupt { path: p, detail: d } && p@ == path && d@ == "line "@
        + dec_seq(number as nat) + ": "@ + detail
}

/// The error for line `number` of the log at `path`, whose record could
/// not be read for the reason `detail`.
pub fn corrupt_log_line(path: &str, number: usize, detail: &str) -> (e: PersistenceError)
    ensures
        spec_corrupt_line(path@, number as int, detail@, e),
{
    let mut d = String::new();
    d.append("line ");
    push_u64_dec(&mut d, number as u64);
    d.append(": ");
    d.append(detail);
    PersistenceError::Corrupt { path: path.to_owned(), detail: d }
}

} // verus!
