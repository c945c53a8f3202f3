//! What the program records about each outcome of `paper run-once` and
//! `risk explain`: the metric events it counts and the log records it
//! writes. The front end only hands these to the registry and the log.

use vstd::prelude::*;
use crate::domain::RiskDecision;
use crate::errors::PersistenceError;
use crate::observability::logging::{
    error_code_from_display, spec_error_code, LogLevel, StructuredField, StructuredLogEvent,
};
use crate::observability::metrics::{
    insert_label, no_labels, outcome_text, LabelView, MetricEvent,
};
use super::paper_service::{PaperExecutionStatus, PaperRunReport};

verus! {

/// Whether `e` is the metric event named `name` with labels `labels`.
pub open spec fn is_metric(e: MetricEvent, name: Seq<char>, labels: Seq<LabelView>) -> bool {
    e.spec_name() == name && e.spec_labels() == labels
}

/// The labels of `adapter_result` for a provider, an operation and its
/// outcome.
pub open spec fn adapter_labels(provider: Seq<char>, operation: Seq<char>, success: bool) -> Seq<
    LabelView,
> {
    insert_label(
        insert_label(insert_label(no_labels(), "provider"@, provider), "operation"@, operation),
        "result"@,
        outcome_text(success),
    )
}

/// `accepted` or `rejected`.
pub open spec fn verdict_text(accepted: bool) -> Seq<char> {
    if accepted {
        "accepted"@
    } else {
        "rejected"@
    }
}

/// Whether `f` is the plain field `key = value`.
pub open spec fn is_plain_field(f: StructuredField, key: Seq<char>, value: Seq<char>) -> bool {
    f.key@ == key && f.value@ == value && !f.redacted
}

/// Whether `o` holds the text `t`.
pub open spec fn holds_text(o: Option<String>, t: Seq<char>) -> bool {
    o matches Some(s) && s@ == t
}

/// The metrics a paper run counts once its order was planned: the market
/// and advisory fixtures answered, and the risk gate decided.
pub fn paper_decision_metrics(decision: &RiskDecision) -> (r: Vec<MetricEvent>)
    ensures
        r@.len() == 3,
        is_metric(r@[0], "adapter_result"@, adapter_labels("market_data"@, "snapshot"@, true)),
        is_metric(r@[1], "adapter_result"@, adapter_labels("llm"@, "advise"@, true)),
        is_metric(
            r@[2],
            "risk_decision"@,
            insert_label(no_labels(), "result"@, verdict_text(decision is Accepted)),
        ),
{
    let mut r = Vec::new();
    r.push(MetricEvent::adapter_result("market_data", "snapshot", true));
    r.push(MetricEvent::adapter_result("llm", "advise", true));
    r.push(MetricEvent::risk_decision(decision.is_accepted()));
    r
}

/// The metrics a paper run counts when it fills an order: the paper
/// executor filled it and the live provider stayed disabled.
pub fn paper_fill_metrics() -> (r: Vec<MetricEvent>)
    ensures
        r@.len() == 2,
        is_metric(r@[0], "adapter_result"@, adapter_labels("paper_executor"@, "execute"@, true)),
        is_metric(r@[1], "adapter_result"@, adapter_labels("live_executor"@, "execute"@, true)),
{
    let mut r = Vec::new();
    r.push(MetricEvent::adapter_result("paper_executor", "execute", true));
    r.push(MetricEvent::adapter_result("live_executor", "execute", true));
    r
}

/// The record of a risk decision made for `command`: at `Info` when the
/// order was accepted and `Warn` when rejected, naming the mode, the intent,
/// its strategy and risk profile, then, where given, the order intent's
/// path, and last the decision as text.
pub fn decision_log(
    command: &str,
    decision: &RiskDecision,
    mode: &str,
    intent_id: &str,
    strategy_id: &str,
    risk_profile_id: &str,
    order_intent_path: Option<&str>,
) -> (r: StructuredLogEvent)
    ensures
        r.level == (if decision is Accepted {
            LogLevel::Info
        } else {
            LogLevel::Warn
        }),
        r.command@ == command@,
        r.operation@ == "evaluate_order_intent"@,
        r.result@ == verdict_text(decision is Accepted),
        holds_text(r.mode, mode@),
        holds_text(r.order_intent_id, intent_id@),
        holds_text(r.strategy_id, strategy_id@),
        holds_text(r.risk_profile_id, risk_profile_id@),
        r.provider is None && r.latency_ms is None && r.error_code is None && r.retryable is None
            && r.correlation_id is None,
        match order_intent_path {
            Some(p) => r.fields@.len() == 2 && is_plain_field(r.fields@[0], "order_intent_path"@, p@),
            None => r.fields@.len() == 1,
        },
        is_plain_field(r.fields@.last(), "decision"@, decision.spec_display()),
{
    let accepted = decision.is_accepted();
    let text = decision.to_display_string();
    let e = StructuredLogEvent::new(
        if accepted {
            LogLevel::Info
        } else {
            LogLevel::Warn
        },
        command,
        "evaluate_order_intent",
        if accepted {
            "accepted"
        } else {
            "rejected"
        },
    ).with_mode(mode).with_order_intent_id(intent_id).with_strategy_id(strategy_id).with_risk_profile_id(
        risk_profile_id,
    );
    let e = match order_intent_path {
        Some(p) => e.with_field(StructuredField::plain("order_intent_path", p)),
        None => e,
    };
    e.with_field(StructuredField::plain("decision", text.as_str()))
}

/// The metric a finished paper run counts: whether it executed the order.
pub fn paper_run_metric(report: &PaperRunReport) -> (r: MetricEvent)
    ensures
        is_metric(
            r,
            "paper_execution"@,
            insert_label(no_labels(), "result"@, if report.state_updated {
                "executed"@
            } else {
                "rejected"@
            }),
        ),
{
    MetricEvent::paper_execution(report.state_updated)
}

/// The record of a finished paper run: its mode and intent, then the
/// decision, the execution status, that the audit log was appended, and
/// whether the state changed.
pub fn paper_run_log(report: &PaperRunReport) -> (r: StructuredLogEvent)
    ensures
        r.level == LogLevel::Info,
        r.command@ == "paper"@,
        r.operation@ == "run_once"@,
        r.result@ == "success"@,
        holds_text(r.mode, report.trading_mode.spec_name()),
        holds_text(r.order_intent_id, report.order_intent_id@),
        r.strategy_id is None && r.risk_profile_id is None && r.provider is None && r.latency_ms
            is None && r.error_code is None && r.retryable is None && r.correlation_id is None,
        r.fields@.len() == 4,
        is_plain_field(r.fields@[0], "risk_decision"@, report.risk_decision.spec_display()),
        is_plain_field(
            r.fields@[1],
            "execution_status"@,
            match report.execution_status {
                PaperExecutionStatus::Executed => "Executed"@,
                PaperExecutionStatus::Rejected => "Rejected"@,
            },
        ),
        is_plain_field(r.fields@[2], "audit_appended"@, if report.audit_appended {
            "true"@
        } else {
            "false"@
        }),
        is_plain_field(r.fields@[3], "state_updated"@, if report.state_updated {
            "true"@
        } else {
            "false"@
        }),
{
    let decision = report.risk_decision.to_display_string();
    let status = match report.execution_status {
        PaperExecutionStatus::Executed => "Executed",
        PaperExecutionStatus::Rejected => "Rejected",
    };
    let e = StructuredLogEvent::new(LogLevel::Info, "paper", "run_once", "success").with_mode(
        report.trading_mode.as_str(),
    ).with_order_intent_id(report.order_intent_id.as_str()).with_field(
        StructuredField::plain("risk_decision", decision.as_str()),
    ).with_field(StructuredField::plain("execution_status", status));
    let e = e.with_field(
        StructuredField::plain(
            "audit_appended",
            if report.audit_appended {
                "true"
            } else {
                "false"
            },
        ),
    );
    let r = e.with_field(
        StructuredField::plain(
            "state_updated",
            if report.state_updated {
                "true"
            } else {
                "false"
            },
        ),
    );
    r
}

/// The metrics a paper run counts for one audit append: on success, the
/// append alone; on failure, the failed execution first when the record
/// followed an executed order, then the failed append.
pub fn audit_append_metrics(success: bool, after_execution: bool) -> (r: Vec<MetricEvent>)
    ensures
        success ==> r@.len() == 1 && is_metric(
            r@[0],
            "audit_append"@,
            insert_label(no_labels(), "result"@, outcome_text(true)),
        ),
        !success && after_execution ==> r@.len() == 2 && is_metric(
            r@[0],
            "paper_execution"@,
            insert_label(no_labels(), "result"@, "rejected"@),
        ) && is_metric(r@[1], "audit_append"@, insert_label(no_labels(), "result"@, outcome_text(false))),
        !success && !after_execution ==> r@.len() == 1 && is_metric(
            r@[0],
            "audit_append"@,
            insert_label(no_labels(), "result"@, outcome_text(false)),
        ),
{
    let mut r = Vec::new();
    if !success && after_execution {
        r.push(MetricEvent::paper_execution(false));
    }
    r.push(MetricEvent::audit_append(success));
    r
}

/// The record of an audit append that failed with `error`: at `Warn`,
/// naming the mode, the intent and the audit path, with the error's code.
pub fn audit_failure_log(mode: &str, intent_id: &str, audit_path: &str, error: &PersistenceError) -> (r:
    StructuredLogEvent)
    ensures
        r.level == LogLevel::Warn,
        r.command@ == "paper"@,
        r.operation@ == "append_audit"@,
        r.result@ == "failure"@,
        holds_text(r.mode, mode@),
        holds_text(r.order_intent_id, intent_id@),
        holds_text(r.error_code, spec_error_code(error.spec_message())),
        r.strategy_id is None && r.risk_profile_id is None && r.provider is None && r.latency_ms
            is None && r.retryable is None && r.correlation_id is None,
        r.fields@.len() == 1,
        is_plain_field(r.fields@[0], "audit_path"@, audit_path@),
{
    let message = error.message();
    let code = error_code_from_display(message.as_str());
    StructuredLogEvent::new(LogLevel::Warn, "paper", "append_audit", "failure").with_mode(mode).with_order_intent_id(
        intent_id,
    ).with_field(StructuredField::plain("audit_path", audit_path)).with_error_code(code.as_str())
}

} // verus!
