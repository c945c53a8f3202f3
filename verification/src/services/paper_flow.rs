//! `paper run-once` as a sequence of decisions: each step takes what the
//! front end read or wrote and says what it must do next. The decision is
//! written to the audit log before the paper state changes, and the state
//! changes only for an accepted order.

use vstd::prelude::*;
use vstd::string::*;
use crate::config::{AppConfig, LiveEnvironment};
use crate::domain::TradingMode;
use crate::domain::risk::spec_first_refusal;
use crate::errors::{spec_input_error, AppError};
use crate::execution::{DisabledExecutionProvider, ExecutionProvider, FixturePaperExecutor, PaperExecutor};
use crate::persistence::audit::{spec_clock_error, AuditEvent, AuditEventType};
use crate::persistence::schema::{join_path, spec_join, Layout};
use crate::persistence::state::PaperState;
use super::config_service::check_config;
use super::{derive_data_dir, spec_derive_data_dir};
use super::paper_service::{
    apply_paper_fill, check_paper_mode, decision_audit_event, execution_audit_event,
    paper_run_report, plan_paper_run, spec_filled, spec_plan, spec_plan_error, spec_plan_ok,
    AdvisoryFixture, PaperExecutionStatus, PaperPlan, PaperRunFixture, PaperRunReport,
};

verus! {

/// Where a paper run stands.
#[derive(Debug, Clone, Copy, PartialEq, Eq, Structural)]
pub enum PaperPhase {
    AwaitConfig,
    AwaitDataDir,
    AwaitFixtures,
    AwaitDecisionAudit,
    AwaitState,
    AwaitStateWrite,
    AwaitExecutionAudit,
    Finished,
}

/// The order of the phases.
pub open spec fn spec_paper_rank(p: PaperPhase) -> int {
    match p {
        PaperPhase::AwaitConfig => 0,
        PaperPhase::AwaitDataDir => 1,
        PaperPhase::AwaitFixtures => 2,
        PaperPhase::AwaitDecisionAudit => 3,
        PaperPhase::AwaitState => 4,
        PaperPhase::AwaitStateWrite => 5,
        PaperPhase::AwaitExecutionAudit => 6,
        PaperPhase::Finished => 7,
    }
}

/// What the front end must do next.
pub enum PaperAction {
    /// Read and parse the configuration file, and read the environment.
    LoadConfig { path: String },
    /// Create or check the data directory.
    PrepareDataDir { path: String },
    /// Read the market and advisory fixtures.
    LoadFixtures { snapshot_path: String, advisory_path: String },
    /// Append the record to the audit log.
    AppendAudit { path: String, event: AuditEvent },
    /// Read the paper state.
    ReadState { path: String },
    /// Write the paper state.
    WriteState { path: String, state: PaperState },
    /// The run succeeded.
    Done { report: PaperRunReport },
    /// The run stops with this error.
    Stop { error: AppError },
}

/// What the front end reports back.
pub enum PaperEvent {
    ConfigLoaded { config: AppConfig, env: LiveEnvironment },
    DataDirReady,
    FixturesLoaded { fixture: PaperRunFixture, advisory: AdvisoryFixture },
    AuditAppended,
    StateRead { state: PaperState },
    StateWritten,
    Failed { error: AppError },
}

/// A paper run and what it has learnt so far.
pub struct PaperRun {
    pub config_path: String,
    pub fixture_root: String,
    pub phase: PaperPhase,
    pub mode: TradingMode,
    pub fixture: Option<PaperRunFixture>,
    pub advisory: Option<AdvisoryFixture>,
    pub plan: Option<PaperPlan>,
}

/// What one step of `paper run-once` does with `event`: the action it
/// asks for, or the error that stops the run.
pub open spec fn spec_paper_step(run: PaperRun, event: PaperEvent, next: PaperRun, action: PaperAction) -> bool {
    let cfg = run.config_path@;
    let data = spec_derive_data_dir(cfg);
    let audit_path = spec_join(spec_join(data, "audit"@), "events.jsonl"@);
    let state_path = spec_join(spec_join(data, "paper"@), "state.json"@);
    match event {
        PaperEvent::Failed { error } => action matches PaperAction::Stop { error: e } && e == error,
        PaperEvent::ConfigLoaded { config, env } => if !config.spec_validate_security(env, Ok(())) {
            action matches PaperAction::Stop { error } && config.spec_validate_security(
                env,
                Err(error),
            )
        } else if config.trading_mode == TradingMode::Live {
            action matches PaperAction::Stop { error } && spec_input_error(
                error,
                cfg,
                "paper run-once requires paper or sandbox mode"@,
            )
        } else {
            &&& action matches PaperAction::PrepareDataDir { path } && path@ == data
            &&& next.mode == config.trading_mode
        },
        PaperEvent::DataDirReady => action matches PaperAction::LoadFixtures {
            snapshot_path,
            advisory_path,
        } && snapshot_path@ == spec_join(
            spec_join(run.fixture_root@, "market"@),
            "sample_snapshot.json"@,
        ) && advisory_path@ == spec_join(
            spec_join(run.fixture_root@, "llm"@),
            "sample_advisory.json"@,
        ),
        PaperEvent::FixturesLoaded { fixture, advisory } => if !spec_plan_ok(fixture, advisory) {
            action matches PaperAction::Stop { error } && spec_plan_error(fixture, advisory, error)
        } else {
            match action {
                PaperAction::AppendAudit { path, event } => {
                    &&& next.plan matches Some(p)
                    &&& spec_plan(fixture, advisory, p)
                    &&& path@ == audit_path
                    &&& event.event_type == AuditEventType::RiskDecision
                    &&& event.mode@ == run.mode.spec_name()
                    &&& event.order_intent_id == Some(p.intent.id)
                    &&& event.risk_decision matches Some(d) && d@ == p.decision.spec_display()
                    &&& event.redacted_context@ == "paper run-once decision: "@
                        + p.advisory.explanation@
                },
                PaperAction::Stop { error } => error matches AppError::Persistence(e)
                    && spec_clock_error(e),
                _ => false,
            }
        },
        PaperEvent::AuditAppended => if run.phase == PaperPhase::AwaitDecisionAudit {
            action matches PaperAction::ReadState { path } && path@ == state_path
        } else {
            action matches PaperAction::Done { report } && report.state_updated
                && report.execution_status == PaperExecutionStatus::Executed
                && report.risk_decision == run.plan->0.decision
                && report.order_intent_id@ == run.plan->0.intent.id@ && report.trading_mode
                == run.mode && report.config_path@ == cfg && report.fixture_root@
                == run.fixture_root@ && report.audit_appended
        },
        PaperEvent::StateRead { state } => if !run.spec_accepted() {
            action matches PaperAction::Done { report } && !report.state_updated
                && report.execution_status == PaperExecutionStatus::Rejected
                && report.risk_decision == run.plan->0.decision
                && report.order_intent_id@ == run.plan->0.intent.id@ && report.trading_mode
                == run.mode && report.config_path@ == cfg && report.fixture_root@
                == run.fixture_root@ && report.audit_appended
        } else {
            action matches PaperAction::WriteState { path, state: written } && path@ == state_path
                && spec_filled(state, run.plan->0.intent, run.fixture->0.market_snapshot.timestamp_unix_seconds, written)
        },
        PaperEvent::StateWritten => match action {
            PaperAction::AppendAudit { path, event } => {
                &&& path@ == audit_path
                &&& event.event_type == AuditEventType::StateWrite
                &&& event.mode@ == run.mode.spec_name()
                &&& event.order_intent_id == Some(run.plan->0.intent.id)
                &&& event.risk_decision matches Some(d) && d@ == "PAPER_EXECUTED"@
                &&& event.redacted_context@ == "paper execution applied"@
            },
            PaperAction::Stop { error } => error matches AppError::Persistence(e)
                && spec_clock_error(e),
            _ => false,
        },
    }
}

impl PaperRun {
    /// The plan the fixtures gave, once they were read.
    pub open spec fn spec_planned(&self) -> bool {
        &&& self.fixture matches Some(f)
        &&& self.advisory matches Some(a)
        &&& self.plan matches Some(p)
        &&& spec_plan(f, a, p)
        &&& self.mode != TradingMode::Live
    }

    /// Whether the planned order passed the risk gate.
    pub open spec fn spec_accepted(&self) -> bool {
        spec_first_refusal(
            self.plan->0.intent,
            Some(self.plan->0.limits),
            self.plan->0.account,
            false,
        ) is None
    }

    /// What each phase has established.
    pub open spec fn wf(&self) -> bool {
        match self.phase {
            PaperPhase::AwaitConfig => true,
            PaperPhase::AwaitDataDir => self.mode != TradingMode::Live,
            PaperPhase::AwaitFixtures => self.mode != TradingMode::Live,
            PaperPhase::AwaitDecisionAudit => self.spec_planned(),
            PaperPhase::AwaitState => self.spec_planned(),
            PaperPhase::AwaitStateWrite => self.spec_planned() && self.spec_accepted(),
            PaperPhase::AwaitExecutionAudit => self.spec_planned() && self.spec_accepted(),
            PaperPhase::Finished => true,
        }
    }

    /// Whether `event` is one the run can take in its phase.
    pub open spec fn spec_expects(&self, event: PaperEvent) -> bool {
        match event {
            PaperEvent::Failed { .. } => self.phase != PaperPhase::Finished,
            PaperEvent::ConfigLoaded { .. } => self.phase == PaperPhase::AwaitConfig,
            PaperEvent::DataDirReady => self.phase == PaperPhase::AwaitDataDir,
            PaperEvent::FixturesLoaded { fixture, .. } => self.phase == PaperPhase::AwaitFixtures
                && fixture.market_snapshot.timestamp_unix_seconds <= i64::MAX,
            PaperEvent::AuditAppended => self.phase == PaperPhase::AwaitDecisionAudit
                || self.phase == PaperPhase::AwaitExecutionAudit,
            PaperEvent::StateRead { .. } => self.phase == PaperPhase::AwaitState,
            PaperEvent::StateWritten => self.phase == PaperPhase::AwaitStateWrite,
        }
    }

    fn stop(self, error: AppError) -> (r: (PaperRun, PaperAction))
        ensures
            r.0 == (PaperRun { phase: PaperPhase::Finished, ..self }),
            r.1 matches PaperAction::Stop { error: e } && e == error,
    {
        let mut run = self;
        run.phase = PaperPhase::Finished;
        (run, PaperAction::Stop { error })
    }

    /// Starts a run of the configuration at `config_path` on the fixtures
    /// under `fixture_root`: the configuration is read first.
    pub fn start(config_path: &str, fixture_root: &str) -> (r: (PaperRun, PaperAction))
        ensures
            r.0.wf(),
            r.0.phase == PaperPhase::AwaitConfig,
            r.0.config_path@ == config_path@,
            r.0.fixture_root@ == fixture_root@,
            r.1 matches PaperAction::LoadConfig { path } && path@ == config_path@,
    {
        (
            PaperRun {
                config_path: config_path.to_owned(),
                fixture_root: fixture_root.to_owned(),
                phase: PaperPhase::AwaitConfig,
                mode: TradingMode::Paper,
                fixture: None,
                advisory: None,
                plan: None,
            },
            PaperAction::LoadConfig { path: config_path.to_owned() },
        )
    }

    /// One step of the run: takes what the front end reports and says
    /// what it must do next. The state is written only for an accepted
    /// order, after its decision was appended to the audit log, and it is
    /// the state read with the fill applied.
    pub fn step(self, event: PaperEvent) -> (r: (PaperRun, PaperAction))
        requires
            self.wf(),
            self.spec_expects(event),
        ensures
            r.0.wf(),
            spec_paper_rank(r.0.phase) > spec_paper_rank(self.phase),
            r.0.config_path == self.config_path,
            r.0.fixture_root == self.fixture_root,
            r.1 is WriteState ==> self.phase == PaperPhase::AwaitState && r.0.spec_accepted()
                && r.0.spec_planned() && (r.1 matches PaperAction::WriteState { state, .. }
                && (event matches PaperEvent::StateRead { state: read }
                && state.positions@.len() == read.positions@.len() + 1
                && state.positions@.subrange(0, read.positions@.len() as int) == read.positions@)),
            r.1 is WriteState ==> r.0.fixture->0.account.daily_loss_bps
                <= r.0.fixture->0.risk_limits.max_daily_loss_bps,
            r.1 is Done ==> (self.phase == PaperPhase::AwaitState && !r.0.spec_accepted()) || self.phase
                == PaperPhase::AwaitExecutionAudit,
            event matches PaperEvent::Failed { error } ==> (r.1 matches PaperAction::Stop { error: e }
                && e == error),
            (r.1 is Stop || r.1 is Done) <==> r.0.phase == PaperPhase::Finished,
            spec_paper_step(self, event, r.0, r.1),
    {
        let mut run = self;
        match event {
            PaperEvent::Failed { error } => run.stop(error),
            PaperEvent::ConfigLoaded { config, env } => {
                let report = match check_config(run.config_path.as_str(), &config, &env) {
                    Ok(r) => r,
                    Err(e) => {
                        return run.stop(e);
                    },
                };
                if let Err(e) = check_paper_mode(run.config_path.as_str(), report.trading_mode) {
                    return run.stop(e);
                }
                run.mode = report.trading_mode;
                run.phase = PaperPhase::AwaitDataDir;
                let path = derive_data_dir(run.config_path.as_str());
                (run, PaperAction::PrepareDataDir { path })
            },
            PaperEvent::DataDirReady => {
                let market = join_path(run.fixture_root.as_str(), "market");
                let llm = join_path(run.fixture_root.as_str(), "llm");
                let snapshot_path = join_path(market.as_str(), "sample_snapshot.json");
                let advisory_path = join_path(llm.as_str(), "sample_advisory.json");
                run.phase = PaperPhase::AwaitFixtures;
                (run, PaperAction::LoadFixtures { snapshot_path, advisory_path })
            },
            PaperEvent::FixturesLoaded { fixture, advisory } => {
                let plan = match plan_paper_run(&fixture, &advisory) {
                    Ok(p) => p,
                    Err(e) => {
                        return run.stop(e);
                    },
                };
                let audit = match decision_audit_event(run.mode, &plan) {
                    Ok(a) => a,
                    Err(e) => {
                        return run.stop(AppError::Persistence(e));
                    },
                };
                let path = Layout::new(derive_data_dir(run.config_path.as_str()).as_str()).audit_path();
                run.fixture = Some(fixture);
                run.advisory = Some(advisory);
                run.plan = Some(plan);
                run.phase = PaperPhase::AwaitDecisionAudit;
                (run, PaperAction::AppendAudit { path, event: audit })
            },
            PaperEvent::AuditAppended => {
                if run.phase == PaperPhase::AwaitDecisionAudit {
                    let path = Layout::new(derive_data_dir(run.config_path.as_str()).as_str()).state_path();
                    run.phase = PaperPhase::AwaitState;
                    (run, PaperAction::ReadState { path })
                } else {
                    let plan = run.plan.as_ref().unwrap();
                    let report = paper_run_report(
                        run.config_path.as_str(),
                        run.fixture_root.as_str(),
                        run.mode,
                        plan.intent.id.as_str(),
                        plan.decision.clone(),
                        true,
                    );
                    run.phase = PaperPhase::Finished;
                    (run, PaperAction::Done { report })
                }
            },
            PaperEvent::StateRead { state } => {
                let plan = run.plan.as_ref().unwrap();
                if !plan.decision.is_accepted() {
                    let report = paper_run_report(
                        run.config_path.as_str(),
                        run.fixture_root.as_str(),
                        run.mode,
                        plan.intent.id.as_str(),
                        plan.decision.clone(),
                        false,
                    );
                    run.phase = PaperPhase::Finished;
                    return (run, PaperAction::Done { report });
                }
                if let Err(e) = FixturePaperExecutor::new().execute(&plan.intent) {
                    return run.stop(e);
                }
                if let Err(e) = DisabledExecutionProvider::new().execute_live(&plan.intent) {
                    return run.stop(e);
                }
                let mut next = state;
                let ghost read = next;
                let timestamp = run.fixture.as_ref().unwrap().market_snapshot.timestamp_unix_seconds;
                apply_paper_fill(&mut next, &plan.intent, timestamp);
                let path = Layout::new(derive_data_dir(run.config_path.as_str()).as_str()).state_path();
                run.phase = PaperPhase::AwaitStateWrite;
                (run, PaperAction::WriteState { path, state: next })
            },
            PaperEvent::StateWritten => {
                let audit = match execution_audit_event(run.mode, &run.plan.as_ref().unwrap().intent) {
                    Ok(a) => a,
                    Err(e) => {
                        return run.stop(AppError::Persistence(e));
                    },
                };
                let path = Layout::new(derive_data_dir(run.config_path.as_str()).as_str()).audit_path();
                run.phase = PaperPhase::AwaitExecutionAudit;
                (run, PaperAction::AppendAudit { path, event: audit })
            },
        }
    }
}

} // verus!
