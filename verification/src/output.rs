//! The one-line summaries the command line prints on success.

use vstd::prelude::*;
use vstd::string::*;
use crate::domain::{RiskDecision, TradingMode};
use crate::persistence::StateReport;
use crate::services::{
    ApprovalReport, BacktestReport, ConfigReport, HealthReport, LiveCheckReport, LiveSubmitReport,
    PaperExecutionStatus, PaperRunReport, RiskReport,
};
use crate::text::{dec_seq, int_dec_seq, push_i64_dec, push_u64_dec};

verus! {

/// `true` or `false`.
pub open spec fn bool_seq(b: bool) -> Seq<char> {
    if b {
        "true"@
    } else {
        "false"@
    }
}

fn push_bool(s: &mut String, b: bool)
    ensures
        final(s)@ == old(s)@ + bool_seq(b),
{
    if b {
        s.append("true");
    } else {
        s.append("false");
    }
}

/// `config ok: mode=<mode> config=<path>`.
pub open spec fn spec_check_config_line(r: ConfigReport) -> Seq<char> {
    "config ok: mode="@ + r.trading_mode.spec_name() + " config="@ + r.config_path@
}

/// The summary of a passed configuration check.
pub fn format_check_config(report: &ConfigReport) -> (r: String)
    ensures
        r@ == spec_check_config_line(*report),
{
    let mut s = "config ok: mode=".to_owned();
    s.append(report.trading_mode.as_str());
    s.append(" config=");
    s.append(report.config_path.as_str());
    assert(s@ =~= spec_check_config_line(*report));
    s
}

/// `state <verb> ok root=.. schema_version=.. created=.. verified=..`.
pub open spec fn spec_state_line(verb: Seq<char>, r: StateReport) -> Seq<char> {
    "state "@ + verb + " ok root="@ + r.root@ + " schema_version="@ + dec_seq(
        r.schema_version as nat,
    ) + " created="@ + bool_seq(r.created) + " verified="@ + bool_seq(r.verified)
}

fn format_state(verb: &str, report: &StateReport) -> (r: String)
    ensures
        r@ == spec_state_line(verb@, *report),
{
    let mut s = "state ".to_owned();
    s.append(verb);
    s.append(" ok root=");
    s.append(report.root.as_str());
    s.append(" schema_version=");
    push_u64_dec(&mut s, report.schema_version as u64);
    s.append(" created=");
    push_bool(&mut s, report.created);
    s.append(" verified=");
    push_bool(&mut s, report.verified);
    assert(s@ =~= spec_state_line(verb@, *report));
    s
}

/// The summary of an initialised data directory.
pub fn format_state_init(report: &StateReport) -> (r: String)
    ensures
        r@ == spec_state_line("init"@, *report),
{
    format_state("init", report)
}

/// The summary of a verified data directory.
pub fn format_state_verify(report: &StateReport) -> (r: String)
    ensures
        r@ == spec_state_line("verify"@, *report),
{
    format_state("verify", report)
}

/// `executed` or `rejected`.
pub open spec fn execution_seq(s: PaperExecutionStatus) -> Seq<char> {
    match s {
        PaperExecutionStatus::Executed => "executed"@,
        PaperExecutionStatus::Rejected => "rejected"@,
    }
}

/// The summary line of a paper run.
pub open spec fn spec_paper_line(r: PaperRunReport) -> Seq<char> {
    "paper run-once ok mode="@ + r.trading_mode.spec_name() + " intent="@ + r.order_intent_id@
        + " decision="@ + r.risk_decision.spec_display() + " execution="@ + execution_seq(
        r.execution_status,
    ) + " audit_appended="@ + bool_seq(r.audit_appended) + " state_updated="@ + bool_seq(
        r.state_updated,
    )
}

/// The summary of a paper run.
pub fn format_paper_run(report: &PaperRunReport) -> (r: String)
    ensures
        r@ == spec_paper_line(*report),
{
    let mut s = "paper run-once ok mode=".to_owned();
    s.append(report.trading_mode.as_str());
    s.append(" intent=");
    s.append(report.order_intent_id.as_str());
    s.append(" decision=");
    s.append(report.risk_decision.to_display_string().as_str());
    s.append(" execution=");
    match report.execution_status {
        PaperExecutionStatus::Executed => s.append("executed"),
        PaperExecutionStatus::Rejected => s.append("rejected"),
    }
    s.append(" audit_appended=");
    push_bool(&mut s, report.audit_appended);
    s.append(" state_updated=");
    push_bool(&mut s, report.state_updated);
    assert(s@ =~= spec_paper_line(*report));
    s
}

/// The summary line of a risk explanation.
pub open spec fn spec_risk_line(mode: TradingMode, r: RiskReport) -> Seq<char> {
    "risk explain ok mode="@ + mode.spec_name() + " intent="@ + r.order_intent_id@
        + " decision="@ + r.decision.spec_display()
}

/// The summary of a risk explanation under the configuration's mode.
pub fn format_risk_report(mode: TradingMode, report: &RiskReport) -> (r: String)
    ensures
        r@ == spec_risk_line(mode, *report),
{
    let mut s = "risk explain ok mode=".to_owned();
    s.append(mode.as_str());
    s.append(" intent=");
    s.append(report.order_intent_id.as_str());
    s.append(" decision=");
    s.append(report.decision.to_display_string().as_str());
    assert(s@ =~= spec_risk_line(mode, *report));
    s
}

/// The summary line of a health report.
pub open spec fn spec_health_line(r: HealthReport) -> Seq<char> {
    "health ok mode="@ + r.trading_mode.spec_name() + " config_ready="@ + bool_seq(r.config_ready)
        + " data_ready="@ + bool_seq(r.data_ready) + " audit_ready="@ + bool_seq(r.audit_ready)
        + " secrets_store_ready="@ + bool_seq(r.secrets_store_ready) + " providers_ready="@
        + bool_seq(r.mock_providers_ready) + " kill_switch_active="@ + bool_seq(r.kill_switch_active)
}

/// The summary of a health report.
pub fn format_health_report(report: &HealthReport) -> (r: String)
    ensures
        r@ == spec_health_line(*report),
{
    let mut s = "health ok mode=".to_owned();
    s.append(report.trading_mode.as_str());
    s.append(" config_ready=");
    push_bool(&mut s, report.config_ready);
    s.append(" data_ready=");
    push_bool(&mut s, report.data_ready);
    s.append(" audit_ready=");
    push_bool(&mut s, report.audit_ready);
    s.append(" secrets_store_ready=");
    push_bool(&mut s, report.secrets_store_ready);
    s.append(" providers_ready=");
    push_bool(&mut s, report.mock_providers_ready);
    s.append(" kill_switch_active=");
    push_bool(&mut s, report.kill_switch_active);
    assert(s@ =~= spec_health_line(*report));
    s
}

/// The summary line of a backtest.
pub open spec fn spec_backtest_line(r: BacktestReport) -> Seq<char> {
    let e = r.evidence;
    "research backtest ok report="@ + r.report_path@ + " strategy="@ + e.strategy_id@
        + " annualized_net_roi_bps="@ + int_dec_seq(e.annualized_net_roi_bps as int)
        + " forward_paper_roi_bps="@ + int_dec_seq(e.forward_paper_roi_bps as int)
        + " profit_factor_bps="@ + dec_seq(e.profit_factor_bps as nat) + " max_drawdown_bps="@
        + dec_seq(e.max_drawdown_bps as nat) + " backtest_trades="@ + dec_seq(
        e.backtest_trades as nat,
    ) + " forward_paper_trades="@ + dec_seq(e.forward_paper_trades as nat)
        + " risk_gate_bypasses="@ + dec_seq(e.risk_gate_bypasses as nat)
}

/// The summary of a backtest.
pub fn format_backtest_report(report: &BacktestReport) -> (r: String)
    ensures
        r@ == spec_backtest_line(*report),
{
    let e = &report.evidence;
    let mut s = "research backtest ok report=".to_owned();
    s.append(report.report_path.as_str());
    s.append(" strategy=");
    s.append(e.strategy_id.as_str());
    s.append(" annualized_net_roi_bps=");
    push_i64_dec(&mut s, e.annualized_net_roi_bps as i64);
    s.append(" forward_paper_roi_bps=");
    push_i64_dec(&mut s, e.forward_paper_roi_bps as i64);
    s.append(" profit_factor_bps=");
    push_u64_dec(&mut s, e.profit_factor_bps as u64);
    s.append(" max_drawdown_bps=");
    push_u64_dec(&mut s, e.max_drawdown_bps as u64);
    s.append(" backtest_trades=");
    push_u64_dec(&mut s, e.backtest_trades as u64);
    s.append(" forward_paper_trades=");
    push_u64_dec(&mut s, e.forward_paper_trades as u64);
    s.append(" risk_gate_bypasses=");
    push_u64_dec(&mut s, e.risk_gate_bypasses as u64);
    assert(s@ =~= spec_backtest_line(*report));
    s
}

/// The summary line of an issued approval.
pub open spec fn spec_approval_line(r: ApprovalReport) -> Seq<char> {
    "research approve ok approval="@ + r.approval_path@ + " strategy="@ + r.artifact.strategy_id@
        + " expires_at_unix_seconds="@ + dec_seq(r.artifact.expires_at_unix_seconds as nat)
        + " approved="@ + bool_seq(r.artifact.approved)
}

/// The summary of an issued approval.
pub fn format_approval_report(report: &ApprovalReport) -> (r: String)
    ensures
        r@ == spec_approval_line(*report),
{
    let mut s = "research approve ok approval=".to_owned();
    s.append(report.approval_path.as_str());
    s.append(" strategy=");
    s.append(report.artifact.strategy_id.as_str());
    s.append(" expires_at_unix_seconds=");
    push_u64_dec(&mut s, report.artifact.expires_at_unix_seconds);
    s.append(" approved=");
    push_bool(&mut s, report.artifact.approved);
    assert(s@ =~= spec_approval_line(*report));
    s
}

/// The summary line of a passed live check.
pub open spec fn spec_live_check_line(r: LiveCheckReport) -> Seq<char> {
    "live check ok provider="@ + r.provider.spec_name() + " provider_environment="@
        + r.provider_environment.spec_name() + " account_status="@ + r.account_status@
        + " options_approved_level="@ + dec_seq(r.options_approved_level as nat)
        + " options_trading_level="@ + dec_seq(r.options_trading_level as nat)
        + " approval_fresh="@ + bool_seq(r.approval_fresh) + " kill_switch_active="@ + bool_seq(
        r.kill_switch_active,
    ) + " approved="@ + bool_seq(r.approved)
}

/// The summary of a passed live check.
pub fn format_live_check(report: &LiveCheckReport) -> (r: String)
    ensures
        r@ == spec_live_check_line(*report),
{
    let mut s = "live check ok provider=".to_owned();
    s.append(report.provider.as_str());
    s.append(" provider_environment=");
    s.append(report.provider_environment.as_str());
    s.append(" account_status=");
    s.append(report.account_status.as_str());
    s.append(" options_approved_level=");
    push_u64_dec(&mut s, report.options_approved_level as u64);
    s.append(" options_trading_level=");
    push_u64_dec(&mut s, report.options_trading_level as u64);
    s.append(" approval_fresh=");
    push_bool(&mut s, report.approval_fresh);
    s.append(" kill_switch_active=");
    push_bool(&mut s, report.kill_switch_active);
    s.append(" approved=");
    push_bool(&mut s, report.approved);
    assert(s@ =~= spec_live_check_line(*report));
    s
}

/// The summary line of a submitted live order.
pub open spec fn spec_live_submit_line(r: LiveSubmitReport) -> Seq<char> {
    "live submit ok config="@ + r.config_path@ + " order_intent="@ + r.order_intent_path@
        + " intent="@ + r.order_intent_id@ + " provider_order_id="@ + r.provider_order_id@
        + " provider_status="@ + r.provider_status@ + " submitted="@ + bool_seq(r.submitted)
}

/// The summary of a submitted live order.
pub fn format_live_submit(report: &LiveSubmitReport) -> (r: String)
    ensures
        r@ == spec_live_submit_line(*report),
{
    let mut s = "live submit ok config=".to_owned();
    s.append(report.config_path.as_str());
    s.append(" order_intent=");
    s.append(report.order_intent_path.as_str());
    s.append(" intent=");
    s.append(report.order_intent_id.as_str());
    s.append(" provider_order_id=");
    s.append(report.provider_order_id.as_str());
    s.append(" provider_status=");
    s.append(report.provider_status.as_str());
    s.append(" submitted=");
    push_bool(&mut s, report.submitted);
    assert(s@ =~= spec_live_submit_line(*report));
    s
}

} // verus!
