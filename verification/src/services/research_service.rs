//! Research evidence, the aggressive-growth gate and the live-approval
//! artifact that binds a strategy to one configuration for a week.

use vstd::prelude::*;
use vstd::string::*;
use crate::config::{spec_stable_hex_hash, stable_hex_hash, AppConfig};
use crate::errors::{invalid_input, spec_input_error, AppError, InputError};
use crate::persistence::schema::{join_path, spec_join};
use crate::text::{dec_seq, push_u64_dec, str_eq};
use super::{derive_data_dir, spec_derive_data_dir};

verus! {

/// The least annualized net ROI a backtest must show, in basis points.
pub const MIN_BACKTEST_NET_ROI_BPS: i32 = 2_500;

/// The least forward paper-trading ROI, in basis points.
pub const MIN_FORWARD_PAPER_ROI_BPS: i32 = 800;

/// The least profit factor, in basis points (1.35).
pub const MIN_PROFIT_FACTOR_BPS: u32 = 13_500;

/// The largest drawdown allowed, in basis points.
pub const MAX_DRAWDOWN_BPS: u32 = 2_000;

/// The fewest backtest trades that count as evidence.
pub const MIN_BACKTEST_TRADES: u32 = 200;

/// The fewest forward paper trades that count as evidence.
pub const MIN_FORWARD_PAPER_TRADES: u32 = 30;

/// How long an approval stays fresh: one week, in seconds.
pub const APPROVAL_TTL_SECONDS: u64 = 604_800;

/// The version tag of approval artifacts.
pub const APPROVAL_VERSION: &'static str = "optionclaw-live-approval-v1";

/// The backtest figures a fixture provides.
#[derive(Debug, Clone, Copy, PartialEq, Eq, Structural)]
pub struct BacktestFixture {
    pub annualized_net_roi_bps: i32,
    pub forward_paper_roi_bps: i32,
    pub profit_factor_bps: u32,
    pub max_drawdown_bps: u32,
    pub backtest_trades: u32,
    pub forward_paper_trades: u32,
    pub risk_gate_bypasses: u32,
}

/// The evidence a backtest produces for one strategy, risk profile and
/// configuration.
#[derive(Debug, Clone, PartialEq, Eq)]
pub struct ResearchEvidence {
    pub strategy_id: String,
    pub risk_profile_id: String,
    pub config_hash: String,
    pub annualized_net_roi_bps: i32,
    pub forward_paper_roi_bps: i32,
    pub profit_factor_bps: u32,
    pub max_drawdown_bps: u32,
    pub backtest_trades: u32,
    pub forward_paper_trades: u32,
    pub risk_gate_bypasses: u32,
    pub generated_at_unix_seconds: u64,
    pub approved: bool,
}

/// Where a backtest report was written and what it holds.
#[derive(Debug, Clone, PartialEq, Eq)]
pub struct BacktestReport {
    pub report_path: String,
    pub evidence: ResearchEvidence,
}

/// The internal approval that live trading requires.
#[derive(Debug, Clone, PartialEq, Eq)]
pub struct LiveApprovalArtifact {
    pub approval_version: String,
    pub strategy_id: String,
    pub risk_profile_id: String,
    pub config_hash: String,
    pub generated_at_unix_seconds: u64,
    pub expires_at_unix_seconds: u64,
    pub approved: bool,
    pub signature: String,
    pub evidence: ResearchEvidence,
}

/// Where an approval was written and what it holds.
#[derive(Debug, Clone, PartialEq, Eq)]
pub struct ApprovalReport {
    pub approval_path: String,
    pub artifact: LiveApprovalArtifact,
}

/// The first aggressive-growth requirement that the figures miss, as the
/// detail of the error, or `None` when they meet them all. The checks run
/// in the order: net ROI, forward ROI, profit factor, drawdown, backtest
/// trades, forward trades, gate bypasses.
pub open spec fn spec_gate(
    annualized_net_roi_bps: i32,
    forward_paper_roi_bps: i32,
    profit_factor_bps: u32,
    max_drawdown_bps: u32,
    backtest_trades: u32,
    forward_paper_trades: u32,
    risk_gate_bypasses: u32,
) -> Option<Seq<char>> {
    if annualized_net_roi_bps < MIN_BACKTEST_NET_ROI_BPS {
        Some("annualized net ROI is below aggressive-growth gate"@)
    } else if forward_paper_roi_bps < MIN_FORWARD_PAPER_ROI_BPS {
        Some("forward paper ROI is below aggressive-growth gate"@)
    } else if profit_factor_bps < MIN_PROFIT_FACTOR_BPS {
        Some("profit factor is below aggressive-growth gate"@)
    } else if max_drawdown_bps > MAX_DRAWDOWN_BPS {
        Some("max drawdown exceeds aggressive-growth gate"@)
    } else if backtest_trades < MIN_BACKTEST_TRADES {
        Some("not enough backtest trades for approval"@)
    } else if forward_paper_trades < MIN_FORWARD_PAPER_TRADES {
        Some("not enough forward-paper trades for approval"@)
    } else if risk_gate_bypasses != 0 {
        Some("risk gate bypasses must be zero"@)
    } else {
        None
    }
}

/// The aggressive-growth gate applied to evidence.
pub open spec fn spec_growth_gate(e: ResearchEvidence) -> Option<Seq<char>> {
    spec_gate(
        e.annualized_net_roi_bps,
        e.forward_paper_roi_bps,
        e.profit_factor_bps,
        e.max_drawdown_bps,
        e.backtest_trades,
        e.forward_paper_trades,
        e.risk_gate_bypasses,
    )
}

/// The aggressive-growth gate applied to a backtest fixture's figures.
pub open spec fn spec_fixture_gate(f: BacktestFixture) -> Option<Seq<char>> {
    spec_gate(
        f.annualized_net_roi_bps,
        f.forward_paper_roi_bps,
        f.profit_factor_bps,
        f.max_drawdown_bps,
        f.backtest_trades,
        f.forward_paper_trades,
        f.risk_gate_bypasses,
    )
}

/// Whether `r` is what a check answers at `path` when its first problem
/// is `problem`, if any.
pub open spec fn spec_checked(path: Seq<char>, problem: Option<Seq<char>>, r: Result<(), AppError>) -> bool {
    match problem {
        None => r is Ok,
        Some(d) => r matches Err(e) && spec_input_error(e, path, d),
    }
}

/// Whether the figures meet all seven aggressive-growth thresholds.
pub open spec fn spec_meets_growth_thresholds(e: ResearchEvidence) -> bool {
    &&& e.annualized_net_roi_bps >= MIN_BACKTEST_NET_ROI_BPS
    &&& e.forward_paper_roi_bps >= MIN_FORWARD_PAPER_ROI_BPS
    &&& e.profit_factor_bps >= MIN_PROFIT_FACTOR_BPS
    &&& e.max_drawdown_bps <= MAX_DRAWDOWN_BPS
    &&& e.backtest_trades >= MIN_BACKTEST_TRADES
    &&& e.forward_paper_trades >= MIN_FORWARD_PAPER_TRADES
    &&& e.risk_gate_bypasses == 0
}

/// Holds evidence read from `path` to the aggressive-growth gate: it passes
/// exactly when it meets all seven thresholds, and an evidence whose profit
/// factor is below its minimum is refused for it unless an earlier check
/// refused it first.
pub fn validate_aggressive_growth(evidence: &ResearchEvidence, path: &str) -> (r: Result<(), AppError>)
    ensures
        spec_checked(path@, spec_growth_gate(*evidence), r),
        r is Ok <==> spec_meets_growth_thresholds(*evidence),
        evidence.annualized_net_roi_bps >= MIN_BACKTEST_NET_ROI_BPS
            && evidence.forward_paper_roi_bps >= MIN_FORWARD_PAPER_ROI_BPS
            && evidence.profit_factor_bps < MIN_PROFIT_FACTOR_BPS ==> (r matches Err(e)
            && spec_input_error(e, path@, "profit factor is below aggressive-growth gate"@)),
{
    if evidence.annualized_net_roi_bps < MIN_BACKTEST_NET_ROI_BPS {
        return Err(invalid_input(path, "annualized net ROI is below aggressive-growth gate"));
    }
    if evidence.forward_paper_roi_bps < MIN_FORWARD_PAPER_ROI_BPS {
        return Err(invalid_input(path, "forward paper ROI is below aggressive-growth gate"));
    }
    if evidence.profit_factor_bps < MIN_PROFIT_FACTOR_BPS {
        return Err(invalid_input(path, "profit factor is below aggressive-growth gate"));
    }
    if evidence.max_drawdown_bps > MAX_DRAWDOWN_BPS {
        return Err(invalid_input(path, "max drawdown exceeds aggressive-growth gate"));
    }
    if evidence.backtest_trades < MIN_BACKTEST_TRADES {
        return Err(invalid_input(path, "not enough backtest trades for approval"));
    }
    if evidence.forward_paper_trades < MIN_FORWARD_PAPER_TRADES {
        return Err(invalid_input(path, "not enough forward-paper trades for approval"));
    }
    if evidence.risk_gate_bypasses != 0 {
        return Err(invalid_input(path, "risk gate bypasses must be zero"));
    }
    Ok(())
}

/// The aggressive-growth gate, whatever the path: evidence passes it if
/// and only if its net ROI, forward ROI and profit factor reach their
/// minimums, its drawdown stays within its maximum, it has enough backtest
/// and forward-paper trades, and no risk-gate bypass; in particular every
/// evidence whose profit factor is below 13 500 bps is refused.
pub proof fn lemma_growth_gate_is_the_thresholds(e: ResearchEvidence, path: Seq<char>, r: Result<(), AppError>)
    requires
        spec_checked(path, spec_growth_gate(e), r),
    ensures
        r is Ok <==> (e.annualized_net_roi_bps >= 2_500 && e.forward_paper_roi_bps >= 800
            && e.profit_factor_bps >= 13_500 && e.max_drawdown_bps <= 2_000 && e.backtest_trades
            >= 200 && e.forward_paper_trades >= 30 && e.risk_gate_bypasses == 0),
        e.profit_factor_bps < 13_500 ==> r is Err,
{
}

/// A backtest approves its figures only when they pass every threshold: evidence
/// recorded from `fixture` is approved exactly when the fixture's figures
/// meet all seven thresholds, and the approved evidence carries them.
pub proof fn lemma_backtest_approves_only_passing_figures(
    fixture: BacktestFixture,
    config: AppConfig,
    generated_at: u64,
    path: Seq<char>,
    r: Result<ResearchEvidence, AppError>,
)
    requires
        match spec_fixture_gate(fixture) {
            Some(d) => r matches Err(e) && spec_input_error(e, path, d),
            None => r matches Ok(e) && spec_evidence_of(e, config, fixture, generated_at, true),
        },
    ensures
        r is Ok <==> (fixture.annualized_net_roi_bps >= 2_500 && fixture.forward_paper_roi_bps
            >= 800 && fixture.profit_factor_bps >= 13_500 && fixture.max_drawdown_bps <= 2_000
            && fixture.backtest_trades >= 200 && fixture.forward_paper_trades >= 30
            && fixture.risk_gate_bypasses == 0),
        r matches Ok(e) ==> e.approved && e.profit_factor_bps == fixture.profit_factor_bps
            && e.profit_factor_bps >= 13_500,
{
}

/// The text an approval signature hashes:
/// `strategy:risk_profile:config_hash:generated_at:expires_at`.
pub open spec fn spec_signature_input(
    strategy_id: Seq<char>,
    risk_profile_id: Seq<char>,
    config_hash: Seq<char>,
    generated_at: u64,
    expires_at: u64,
) -> Seq<char> {
    strategy_id + ":"@ + risk_profile_id + ":"@ + config_hash + ":"@ + dec_seq(generated_at as nat)
        + ":"@ + dec_seq(expires_at as nat)
}

/// The signature of an approval with the given identity and lifetime.
pub open spec fn spec_signature(
    strategy_id: Seq<char>,
    risk_profile_id: Seq<char>,
    config_hash: Seq<char>,
    generated_at: u64,
    expires_at: u64,
) -> Seq<char> {
    spec_stable_hex_hash(
        spec_signature_input(strategy_id, risk_profile_id, config_hash, generated_at, expires_at),
    )
}

/// Signs an approval's identity and lifetime with the stable hash.
pub fn approval_signature(
    strategy_id: &str,
    risk_profile_id: &str,
    config_hash: &str,
    generated_at_unix_seconds: u64,
    expires_at_unix_seconds: u64,
) -> (r: String)
    ensures
        r@ == spec_signature(
            strategy_id@,
            risk_profile_id@,
            config_hash@,
            generated_at_unix_seconds,
            expires_at_unix_seconds,
        ),
{
    let mut input = String::new();
    input.append(strategy_id);
    input.append(":");
    input.append(risk_profile_id);
    input.append(":");
    input.append(config_hash);
    input.append(":");
    push_u64_dec(&mut input, generated_at_unix_seconds);
    input.append(":");
    push_u64_dec(&mut input, expires_at_unix_seconds);
    assert(input@ =~= spec_signature_input(
        strategy_id@,
        risk_profile_id@,
        config_hash@,
        generated_at_unix_seconds,
        expires_at_unix_seconds,
    ));
    stable_hex_hash(input.as_str())
}

/// The first reason the approval `a` does not allow live trading under
/// `config` at time `now`, as the detail of the error, or `None` when it
/// does. The checks run in the order: approved flag, configuration hash,
/// strategy and risk profile, freshness, embedded evidence identity,
/// signature, and last the aggressive-growth gate on the evidence.
pub open spec fn spec_approval_problem(config: AppConfig, a: LiveApprovalArtifact, now: u64) -> Option<
    Seq<char>,
> {
    if !a.approved {
        Some("live approval artifact is not approved"@)
    } else if a.config_hash@ != spec_stable_hex_hash(config.spec_hash_input()) {
        Some("live approval artifact config hash does not match current config"@)
    } else if a.strategy_id@ != config.strategy_id@ || a.risk_profile_id@
        != config.risk_profile_id@ {
        Some("live approval artifact strategy or risk profile does not match current config"@)
    } else if a.expires_at_unix_seconds < now {
        Some("live approval artifact is stale"@)
    } else if a.evidence.strategy_id@ != a.strategy_id@ || a.evidence.risk_profile_id@
        != a.risk_profile_id@ || a.evidence.config_hash@ != a.config_hash@ {
        Some("live approval artifact embedded evidence does not match artifact identity"@)
    } else if a.signature@ != spec_signature(
        a.strategy_id@,
        a.risk_profile_id@,
        a.config_hash@,
        a.generated_at_unix_seconds,
        a.expires_at_unix_seconds,
    ) {
        Some("live approval artifact signature is invalid"@)
    } else {
        spec_growth_gate(a.evidence)
    }
}

/// Checks, at time `now`, that the approval read from `path` allows live
/// trading under `config`.
pub fn validate_approval_artifact(
    config: &AppConfig,
    artifact: &LiveApprovalArtifact,
    now_unix_seconds: u64,
    path: &str,
) -> (r: Result<(), AppError>)
    ensures
        spec_checked(path@, spec_approval_problem(*config, *artifact, now_unix_seconds), r),
{
    if !artifact.approved {
        return Err(invalid_input(path, "live approval artifact is not approved"));
    }
    let hash = config.approval_config_hash();
    if !str_eq(artifact.config_hash.as_str(), hash.as_str()) {
        return Err(
            invalid_input(path, "live approval artifact config hash does not match current config"),
        );
    }
    if !str_eq(artifact.strategy_id.as_str(), config.strategy_id.as_str()) || !str_eq(
        artifact.risk_profile_id.as_str(),
        config.risk_profile_id.as_str(),
    ) {
        return Err(
            invalid_input(
                path,
                "live approval artifact strategy or risk profile does not match current config",
            ),
        );
    }
    if artifact.expires_at_unix_seconds < now_unix_seconds {
        return Err(invalid_input(path, "live approval artifact is stale"));
    }
    if !str_eq(artifact.evidence.strategy_id.as_str(), artifact.strategy_id.as_str()) || !str_eq(
        artifact.evidence.risk_profile_id.as_str(),
        artifact.risk_profile_id.as_str(),
    ) || !str_eq(artifact.evidence.config_hash.as_str(), artifact.config_hash.as_str()) {
        return Err(
            invalid_input(
                path,
                "live approval artifact embedded evidence does not match artifact identity",
            ),
        );
    }
    let expected = approval_signature(
        artifact.strategy_id.as_str(),
        artifact.risk_profile_id.as_str(),
        artifact.config_hash.as_str(),
        artifact.generated_at_unix_seconds,
        artifact.expires_at_unix_seconds,
    );
    if !str_eq(artifact.signature.as_str(), expected.as_str()) {
        return Err(invalid_input(path, "live approval artifact signature is invalid"));
    }
    validate_aggressive_growth(&artifact.evidence, path)
}

/// Whether `e` is the evidence a backtest of `fixture` under `config`
/// records at `generated_at`, with the approval flag `approved`.
pub open spec fn spec_evidence_of(
    e: ResearchEvidence,
    config: AppConfig,
    fixture: BacktestFixture,
    generated_at: u64,
    approved: bool,
) -> bool {
    &&& e.strategy_id@ == config.strategy_id@
    &&& e.risk_profile_id@ == config.risk_profile_id@
    &&& e.config_hash@ == spec_stable_hex_hash(config.spec_hash_input())
    &&& e.annualized_net_roi_bps == fixture.annualized_net_roi_bps
    &&& e.forward_paper_roi_bps == fixture.forward_paper_roi_bps
    &&& e.profit_factor_bps == fixture.profit_factor_bps
    &&& e.max_drawdown_bps == fixture.max_drawdown_bps
    &&& e.backtest_trades == fixture.backtest_trades
    &&& e.forward_paper_trades == fixture.forward_paper_trades
    &&& e.risk_gate_bypasses == fixture.risk_gate_bypasses
    &&& e.generated_at_unix_seconds == generated_at
    &&& e.approved == approved
}

/// The evidence a backtest of `fixture`, read from `fixture_path`, gives
/// under `config` at `generated_at`: refused unless it passes the
/// aggressive-growth gate, and then marked approved.
pub fn backtest_evidence(
    config: &AppConfig,
    fixture: &BacktestFixture,
    fixture_path: &str,
    generated_at_unix_seconds: u64,
) -> (r: Result<ResearchEvidence, AppError>)
    ensures
        match spec_fixture_gate(*fixture) {
            Some(d) => r matches Err(e) && spec_input_error(e, fixture_path@, d),
            None => r matches Ok(e) && spec_evidence_of(
                e,
                *config,
                *fixture,
                generated_at_unix_seconds,
                true,
            ),
        },
        r matches Ok(e) ==> e.approved && spec_meets_growth_thresholds(e),
        fixture.profit_factor_bps < MIN_PROFIT_FACTOR_BPS ==> r is Err,
{
    let evidence = ResearchEvidence {
        strategy_id: config.strategy_id.clone(),
        risk_profile_id: config.risk_profile_id.clone(),
        config_hash: config.approval_config_hash(),
        annualized_net_roi_bps: fixture.annualized_net_roi_bps,
        forward_paper_roi_bps: fixture.forward_paper_roi_bps,
        profit_factor_bps: fixture.profit_factor_bps,
        max_drawdown_bps: fixture.max_drawdown_bps,
        backtest_trades: fixture.backtest_trades,
        forward_paper_trades: fixture.forward_paper_trades,
        risk_gate_bypasses: fixture.risk_gate_bypasses,
        generated_at_unix_seconds,
        approved: false,
    };
    match validate_aggressive_growth(&evidence, fixture_path) {
        Ok(()) => {
            let mut approved = evidence;
            approved.approved = true;
            Ok(approved)
        },
        Err(e) => Err(e),
    }
}

/// Where a backtest report for the configuration at `config_path` goes:
/// `research/backtest-report.json` under its data directory.
pub fn backtest_report_path(config_path: &str) -> (r: String)
    ensures
        r@ == spec_join(
            spec_join(spec_derive_data_dir(config_path@), "research"@),
            "backtest-report.json"@,
        ),
{
    let dir = join_path(derive_data_dir(config_path).as_str(), "research");
    join_path(dir.as_str(), "backtest-report.json")
}

/// Whether `a` is the approval issued under `config` for `evidence` at
/// `generated_at`: approved, expiring a week later and signed.
pub open spec fn spec_issued(
    a: LiveApprovalArtifact,
    config: AppConfig,
    evidence: ResearchEvidence,
    generated_at: u64,
) -> bool {
    &&& a.approval_version@ == "optionclaw-live-approval-v1"@
    &&& a.strategy_id@ == config.strategy_id@
    &&& a.risk_profile_id@ == config.risk_profile_id@
    &&& a.config_hash@ == evidence.config_hash@
    &&& a.generated_at_unix_seconds == generated_at
    &&& a.expires_at_unix_seconds == generated_at + APPROVAL_TTL_SECONDS
    &&& a.approved
    &&& a.signature@ == spec_signature(
        config.strategy_id@,
        config.risk_profile_id@,
        evidence.config_hash@,
        generated_at,
        (generated_at + APPROVAL_TTL_SECONDS) as u64,
    )
    &&& a.evidence == evidence
}

/// The first reason evidence read from a report cannot be approved under
/// `config`: the aggressive-growth gate, then a configuration hash that
/// is not the current one.
pub open spec fn spec_approval_refusal(config: AppConfig, evidence: ResearchEvidence) -> Option<
    Seq<char>,
> {
    match spec_growth_gate(evidence) {
        Some(d) => Some(d),
        None => if evidence.config_hash@ != spec_stable_hex_hash(config.spec_hash_input()) {
            Some("ROI evidence config hash does not match current live config"@)
        } else {
            None
        },
    }
}

/// The approval for `evidence`, read from `report_path`, issued under
/// `config` at `generated_at`; refused as `spec_approval_refusal` says.
pub fn issue_approval(
    config: &AppConfig,
    evidence: ResearchEvidence,
    report_path: &str,
    generated_at_unix_seconds: u64,
) -> (r: Result<LiveApprovalArtifact, AppError>)
    requires
        generated_at_unix_seconds + APPROVAL_TTL_SECONDS <= u64::MAX,
    ensures
        match spec_approval_refusal(*config, evidence) {
            Some(d) => r matches Err(e) && spec_input_error(e, report_path@, d),
            None => r matches Ok(a) && spec_issued(a, *config, evidence, generated_at_unix_seconds),
        },
{
    match validate_aggressive_growth(&evidence, report_path) {
        Ok(()) => {},
        Err(e) => {
            return Err(e);
        },
    }
    let hash = config.approval_config_hash();
    if !str_eq(evidence.config_hash.as_str(), hash.as_str()) {
        return Err(
            invalid_input(report_path, "ROI evidence config hash does not match current live config"),
        );
    }
    let expires_at_unix_seconds = generated_at_unix_seconds + APPROVAL_TTL_SECONDS;
    let signature = approval_signature(
        config.strategy_id.as_str(),
        config.risk_profile_id.as_str(),
        evidence.config_hash.as_str(),
        generated_at_unix_seconds,
        expires_at_unix_seconds,
    );
    Ok(
        LiveApprovalArtifact {
            approval_version: APPROVAL_VERSION.to_owned(),
            strategy_id: config.strategy_id.clone(),
            risk_profile_id: config.risk_profile_id.clone(),
            config_hash: evidence.config_hash.clone(),
            generated_at_unix_seconds,
            expires_at_unix_seconds,
            approved: true,
            signature,
            evidence,
        },
    )
}

/// An approval issued under a configuration validates under that same
/// configuration at any time up to its expiry, provided the evidence was
/// produced for the configuration's own strategy and risk profile.
pub proof fn lemma_issued_approval_validates(
    config: AppConfig,
    evidence: ResearchEvidence,
    generated_at: u64,
    a: LiveApprovalArtifact,
    now: u64,
)
    requires
        generated_at + APPROVAL_TTL_SECONDS <= u64::MAX,
        spec_approval_refusal(config, evidence) is None,
        evidence.strategy_id@ == config.strategy_id@,
        evidence.risk_profile_id@ == config.risk_profile_id@,
        spec_issued(a, config, evidence, generated_at),
        now <= a.expires_at_unix_seconds,
    ensures
        spec_approval_problem(config, a, now) is None,
{
}

/// What a backtest records under a configuration can be approved under that
/// same configuration, and the approval issued for it then validates under
/// it at any time up to its expiry, a week after it was issued.
pub proof fn lemma_backtest_approval_validates(
    config: AppConfig,
    fixture: BacktestFixture,
    backtest_at: u64,
    evidence: ResearchEvidence,
    approved_at: u64,
    a: LiveApprovalArtifact,
    now: u64,
)
    requires
        spec_fixture_gate(fixture) is None,
        spec_evidence_of(evidence, config, fixture, backtest_at, true),
        approved_at + APPROVAL_TTL_SECONDS <= u64::MAX,
        spec_issued(a, config, evidence, approved_at),
        now <= a.expires_at_unix_seconds,
    ensures
        spec_approval_refusal(config, evidence) is None,
        a.expires_at_unix_seconds == approved_at + APPROVAL_TTL_SECONDS,
        spec_approval_problem(config, a, now) is None,
{
    assert(spec_growth_gate(evidence) == spec_fixture_gate(fixture));
    lemma_issued_approval_validates(config, evidence, approved_at, a, now);
}

/// Where the live approval for the configuration at `config_path` lives.
pub open spec fn spec_approval_path(config: AppConfig, config_path: Seq<char>) -> Seq<char> {
    match config.approval_artifact {
        Some(p) => p@,
        None => spec_join(spec_join(spec_derive_data_dir(config_path), "live"@), "live-approval.json"@),
    }
}

/// Where the live approval for the configuration at `config_path` lives:
/// the configured file, or `live/live-approval.json` under the data
/// directory.
pub fn approval_path(config: &AppConfig, config_path: &str) -> (r: String)
    ensures
        r@ == spec_approval_path(*config, config_path@),
{
    match &config.approval_artifact {
        Some(p) => p.clone(),
        None => {
            let dir = join_path(derive_data_dir(config_path).as_str(), "live");
            join_path(dir.as_str(), "live-approval.json")
        },
    }
}

/// The current time in seconds since the Unix epoch, refused when the
/// system clock reads before the epoch.
pub fn current_unix_seconds() -> (r: Result<u64, AppError>)
    ensures
        r matches Err(e) ==> spec_input_error(
            e,
            "system-time"@,
            "second time provided was later than self"@,
        ),
{
    match crate::clock::unix_seconds_now() {
        Some(t) => Ok(t),
        None => Err(invalid_input("system-time", "second time provided was later than self")),
    }
}

} // verus!
