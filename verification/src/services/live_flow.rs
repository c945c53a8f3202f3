//! `live submit` as a sequence of decisions: each step takes what the
//! front end read or did and says what it must do next. The order goes to
//! the broker only after every gate has passed, and at most once.

use vstd::prelude::*;
use vstd::string::*;
use crate::alpaca::{account_snapshot_from_status, AlpacaAccountStatus, AlpacaCredentials, AlpacaOrderReport};
use crate::config::{spec_blank, AppConfig, LiveEnvironment};
use crate::domain::{AccountSnapshot, OrderIntent, OrderSide, TradingMode};
use crate::errors::{spec_input_error, AppError, DomainError, SecurityError};
use crate::persistence::audit::{spec_clock_error, AuditEvent, AuditEventType};
use crate::persistence::schema::{spec_join, Layout};
use crate::text::trim_seq;
use super::{derive_data_dir, spec_derive_data_dir};
use super::live_service::{
    ensure_kill_switch_inactive, ensure_options_capability, live_audit_event, live_base_url,
    live_order_gate, live_submit_report, require_confirm_live, require_live_config,
    spec_account_capable, spec_live_base_url, spec_live_gate_passes, spec_order_gate,
    LiveSubmitReport,
};
use super::research_service::{
    approval_path, spec_approval_path, spec_approval_problem,
    validate_approval_artifact, LiveApprovalArtifact,
};
use super::risk_service::OrderIntentFixture;

verus! {

/// Where a `live submit` run stands.
#[derive(Debug, Clone, Copy, PartialEq, Eq, Structural)]
pub enum LiveSubmitPhase {
    AwaitConfig,
    AwaitKillSwitch,
    AwaitApproval,
    AwaitAccount,
    AwaitIntent,
    AwaitSubmission,
    AwaitDataDir,
    AwaitAudit,
    Finished,
}

/// The order of the phases.
pub open spec fn spec_rank(p: LiveSubmitPhase) -> int {
    match p {
        LiveSubmitPhase::AwaitConfig => 0,
        LiveSubmitPhase::AwaitKillSwitch => 1,
        LiveSubmitPhase::AwaitApproval => 2,
        LiveSubmitPhase::AwaitAccount => 3,
        LiveSubmitPhase::AwaitIntent => 4,
        LiveSubmitPhase::AwaitSubmission => 5,
        LiveSubmitPhase::AwaitDataDir => 6,
        LiveSubmitPhase::AwaitAudit => 7,
        LiveSubmitPhase::Finished => 8,
    }
}

/// What the front end must do next.
pub enum LiveSubmitAction {
    /// Read and parse the configuration file, and read the environment.
    LoadConfig { path: String },
    /// Say whether the kill-switch file exists.
    CheckKillSwitch { path: String },
    /// Read the approval artifact.
    LoadApproval { path: String },
    /// Ask the broker for the account status.
    FetchAccount { base_url: String, credentials: AlpacaCredentials },
    /// Read the order intent file.
    LoadIntent { path: String },
    /// Send the order to the broker.
    Submit { base_url: String, credentials: AlpacaCredentials, intent: OrderIntent },
    /// Create or check the data directory.
    PrepareDataDir { path: String },
    /// Append the record to the audit log.
    AppendAudit { path: String, event: AuditEvent },
    /// The run succeeded.
    Done { report: LiveSubmitReport },
    /// The run stops with this error.
    Stop { error: AppError },
}

/// What the front end reports back.
pub enum LiveSubmitEvent {
    ConfigLoaded { config: AppConfig, env: LiveEnvironment },
    KillSwitchChecked { exists: bool },
    /// The approval artifact was read, and the clock then read
    /// `now_unix_seconds`.
    ApprovalLoaded { artifact: LiveApprovalArtifact, now_unix_seconds: u64 },
    AccountFetched { status: AlpacaAccountStatus },
    IntentLoaded { fixture: OrderIntentFixture },
    Submitted { report: AlpacaOrderReport },
    DataDirReady,
    AuditAppended,
    Failed { error: AppError },
}

/// A `live submit` run and what it has learnt so far.
pub struct LiveSubmitRun {
    pub config_path: String,
    pub order_intent_path: String,
    pub confirm_live: bool,
    pub phase: LiveSubmitPhase,
    pub config: Option<AppConfig>,
    pub env: Option<LiveEnvironment>,
    pub kill_switch_engaged: bool,
    pub artifact: Option<LiveApprovalArtifact>,
    pub approved_at: Option<u64>,
    pub credentials: Option<AlpacaCredentials>,
    pub status: Option<AlpacaAccountStatus>,
    pub account: Option<AccountSnapshot>,
    pub fixture: Option<OrderIntentFixture>,
    pub intent: Option<OrderIntent>,
    pub provider: Option<AlpacaOrderReport>,
}

/// What one step of `live submit` does with `event`: the action it asks
/// for, or the error that stops the run, gate by gate.
pub open spec fn spec_live_step(
    run: LiveSubmitRun,
    event: LiveSubmitEvent,
    next: LiveSubmitRun,
    action: LiveSubmitAction,
) -> bool {
    let cfg = run.config_path@;
    match event {
        LiveSubmitEvent::Failed { error } => action matches LiveSubmitAction::Stop { error: e } && e
            == error,
        LiveSubmitEvent::ConfigLoaded { config, env } => if config.trading_mode
            != TradingMode::Live {
            action matches LiveSubmitAction::Stop { error } && spec_input_error(
                error,
                cfg,
                "live commands require trading_mode = \"live\""@,
            )
        } else if !config.spec_live_contract(env, Ok(())) {
            action matches LiveSubmitAction::Stop { error } && config.spec_live_contract(
                env,
                Err(error),
            )
        } else {
            &&& next.config == Some(config)
            &&& next.env == Some(env)
            &&& match config.kill_switch_file {
                Some(p) => action matches LiveSubmitAction::CheckKillSwitch { path } && path@ == p@,
                None => action matches LiveSubmitAction::LoadApproval { path } && path@
                    == spec_approval_path(config, cfg),
            }
        },
        LiveSubmitEvent::KillSwitchChecked { exists } => if exists {
            action matches LiveSubmitAction::Stop { error } && error matches AppError::Security(
                SecurityError::KillSwitchActive,
            )
        } else {
            action matches LiveSubmitAction::LoadApproval { path } && path@ == spec_approval_path(
                run.config->0,
                cfg,
            )
        },
        LiveSubmitEvent::ApprovalLoaded { artifact, now_unix_seconds } => {
            let config = run.config->0;
            let env = run.env->0;
            match spec_approval_problem(config, artifact, now_unix_seconds) {
                Some(d) => action matches LiveSubmitAction::Stop { error } && spec_input_error(
                    error,
                    spec_approval_path(config, cfg),
                    d,
                ),
                None => if spec_blank(env.alpaca_api_key) {
                    action matches LiveSubmitAction::Stop { error } && error matches AppError::Security(
                        SecurityError::SecretMissing { name },
                    ) && name@ == "OPTIONCLAW_ALPACA_API_KEY"@
                } else if spec_blank(env.alpaca_api_secret) {
                    action matches LiveSubmitAction::Stop { error } && error matches AppError::Security(
                        SecurityError::SecretMissing { name },
                    ) && name@ == "OPTIONCLAW_ALPACA_API_SECRET"@
                } else {
                    &&& action matches LiveSubmitAction::FetchAccount { base_url, credentials }
                    &&& base_url@ == spec_live_base_url(config)
                    &&& credentials.spec_api_key() == env.alpaca_api_key->0@
                    &&& credentials.spec_api_secret() == env.alpaca_api_secret->0@
                    &&& next.artifact == Some(artifact)
                    &&& next.approved_at == Some(now_unix_seconds)
                },
            }
        },
        LiveSubmitEvent::AccountFetched { status } => match spec_account_capable(status) {
            Some(d) => action matches LiveSubmitAction::Stop { error } && spec_input_error(
                error,
                cfg,
                d,
            ),
            None => if trim_seq(status.account_id@).len() == 0 {
                action matches LiveSubmitAction::Stop { error } && error matches AppError::Domain(
                    DomainError::EmptyField { field },
                ) && field@ == "account_id"@
            } else {
                &&& action matches LiveSubmitAction::LoadIntent { path } && path@
                    == run.order_intent_path@
                &&& next.status == Some(status)
                &&& next.account matches Some(a) && a.account_id@ == trim_seq(status.account_id@)
            },
        },
        LiveSubmitEvent::IntentLoaded { fixture } => match action {
            LiveSubmitAction::Stop { error } => spec_order_gate(
                run.order_intent_path@,
                run.config->0,
                run.account->0,
                fixture,
                Err(error),
            ),
            LiveSubmitAction::Submit { base_url, credentials, intent } => {
                &&& spec_order_gate(
                    run.order_intent_path@,
                    run.config->0,
                    run.account->0,
                    fixture,
                    Ok(intent),
                )
                &&& base_url@ == spec_live_base_url(run.config->0)
                &&& credentials == run.credentials->0
                &&& next.intent == Some(intent)
            },
            _ => false,
        },
        LiveSubmitEvent::Submitted { report } => {
            &&& action matches LiveSubmitAction::PrepareDataDir { path } && path@
                == spec_derive_data_dir(cfg)
            &&& next.provider == Some(report)
        },
        LiveSubmitEvent::DataDirReady => match action {
            LiveSubmitAction::AppendAudit { path, event } => {
                &&& path@ == spec_join(spec_join(spec_derive_data_dir(cfg), "audit"@), "events.jsonl"@)
                &&& event.event_type == AuditEventType::StateWrite
                &&& event.mode@ == run.config->0.trading_mode.spec_name()
                &&& event.order_intent_id == Some(run.intent->0.id)
                &&& event.risk_decision matches Some(d) && d@ == "LIVE_SUBMITTED"@
                &&& event.redacted_context@ == "provider_order_id="@ + run.provider->0.order_id@
            },
            LiveSubmitAction::Stop { error } => error matches AppError::Persistence(e)
                && spec_clock_error(e),
            _ => false,
        },
        LiveSubmitEvent::AuditAppended => action matches LiveSubmitAction::Done { report } && {
            &&& report.config_path@ == cfg
            &&& report.order_intent_path@ == run.order_intent_path@
            &&& report.order_intent_id@ == run.intent->0.id@
            &&& report.provider_order_id@ == run.provider->0.order_id@
            &&& report.provider_status@ == run.provider->0.status@
            &&& report.submitted
        },
    }
}

impl LiveSubmitRun {
    /// The confirmation was given and the configuration is a live one that
    /// meets the live contract.
    pub open spec fn spec_config_cleared(&self) -> bool {
        &&& self.confirm_live
        &&& self.config matches Some(c)
        &&& self.env matches Some(env)
        &&& c.trading_mode == TradingMode::Live
        &&& c.spec_live_contract(env, Ok(()))
    }

    /// ... and no kill switch is engaged.
    pub open spec fn spec_switch_cleared(&self) -> bool {
        self.spec_config_cleared() && !self.kill_switch_engaged
    }

    /// ... and the approval was valid when it was read.
    pub open spec fn spec_approval_cleared(&self) -> bool {
        &&& self.spec_switch_cleared()
        &&& self.artifact matches Some(a)
        &&& self.approved_at matches Some(t)
        &&& spec_approval_problem(self.config->0, a, t) is None
        &&& self.credentials is Some
    }

    /// ... and the broker account may trade options.
    pub open spec fn spec_account_cleared(&self) -> bool {
        &&& self.spec_approval_cleared()
        &&& self.status matches Some(s)
        &&& spec_account_capable(s) is None
        &&& self.account matches Some(a)
        &&& a.equity == s.equity
        &&& a.available_cash == s.buying_power
        &&& a.daily_loss_bps == 0
    }

    /// Every gate passed: the order read is a live buy that the live risk
    /// limits accept for the account.
    pub open spec fn spec_cleared_for_submission(&self) -> bool {
        &&& self.spec_account_cleared()
        &&& self.fixture matches Some(f)
        &&& self.intent matches Some(i)
        &&& f.spec_intent(i)
        &&& i.mode == TradingMode::Live
        &&& i.side == OrderSide::Buy
        &&& spec_live_gate_passes(self.config->0, i, self.account->0)
    }

    /// What each phase has established.
    pub open spec fn wf(&self) -> bool {
        match self.phase {
            LiveSubmitPhase::AwaitConfig => self.confirm_live && !self.kill_switch_engaged,
            LiveSubmitPhase::AwaitKillSwitch => self.spec_config_cleared()
                && self.config->0.kill_switch_file is Some && !self.kill_switch_engaged,
            LiveSubmitPhase::AwaitApproval => self.spec_switch_cleared(),
            LiveSubmitPhase::AwaitAccount => self.spec_approval_cleared(),
            LiveSubmitPhase::AwaitIntent => self.spec_account_cleared(),
            LiveSubmitPhase::AwaitSubmission => self.spec_cleared_for_submission(),
            LiveSubmitPhase::AwaitDataDir => self.spec_cleared_for_submission()
                && self.provider is Some,
            LiveSubmitPhase::AwaitAudit => self.spec_cleared_for_submission()
                && self.provider is Some,
            LiveSubmitPhase::Finished => true,
        }
    }

    /// Whether `event` is one the run can take in its phase.
    pub open spec fn spec_expects(&self, event: LiveSubmitEvent) -> bool {
        match event {
            LiveSubmitEvent::Failed { .. } => self.phase != LiveSubmitPhase::Finished,
            LiveSubmitEvent::ConfigLoaded { .. } => self.phase == LiveSubmitPhase::AwaitConfig,
            LiveSubmitEvent::KillSwitchChecked { .. } => self.phase
                == LiveSubmitPhase::AwaitKillSwitch,
            LiveSubmitEvent::ApprovalLoaded { .. } => self.phase == LiveSubmitPhase::AwaitApproval,
            LiveSubmitEvent::AccountFetched { .. } => self.phase == LiveSubmitPhase::AwaitAccount,
            LiveSubmitEvent::IntentLoaded { fixture } => self.phase == LiveSubmitPhase::AwaitIntent
                && fixture.created_at_unix_seconds <= i64::MAX,
            LiveSubmitEvent::Submitted { .. } => self.phase == LiveSubmitPhase::AwaitSubmission,
            LiveSubmitEvent::DataDirReady => self.phase == LiveSubmitPhase::AwaitDataDir,
            LiveSubmitEvent::AuditAppended => self.phase == LiveSubmitPhase::AwaitAudit,
        }
    }

    fn stop(self, error: AppError) -> (r: (LiveSubmitRun, LiveSubmitAction))
        ensures
            r.0 == (LiveSubmitRun { phase: LiveSubmitPhase::Finished, ..self }),
            r.1 matches LiveSubmitAction::Stop { error: e } && e == error,
    {
        let mut run = self;
        run.phase = LiveSubmitPhase::Finished;
        (run, LiveSubmitAction::Stop { error })
    }

    /// Starts a run: refused at once without the confirmation, else the
    /// configuration is read first.
    pub fn start(config_path: &str, order_intent_path: &str, confirm_live: bool) -> (r: (
        LiveSubmitRun,
        LiveSubmitAction,
    ))
        ensures
            r.0.wf(),
            r.0.config_path@ == config_path@,
            r.0.order_intent_path@ == order_intent_path@,
            confirm_live ==> r.0.phase == LiveSubmitPhase::AwaitConfig && (r.1 matches LiveSubmitAction::LoadConfig { path }
                && path@ == config_path@),
            !confirm_live ==> r.0.phase == LiveSubmitPhase::Finished && (r.1 matches LiveSubmitAction::Stop { error }
                && spec_input_error(error, order_intent_path@, "live submit requires --confirm-live"@)),
    {
        let run = LiveSubmitRun {
            config_path: config_path.to_owned(),
            order_intent_path: order_intent_path.to_owned(),
            confirm_live,
            phase: LiveSubmitPhase::AwaitConfig,
            config: None,
            env: None,
            kill_switch_engaged: false,
            artifact: None,
            approved_at: None,
            credentials: None,
            status: None,
            account: None,
            fixture: None,
            intent: None,
            provider: None,
        };
        match require_confirm_live(order_intent_path, confirm_live) {
            Ok(()) => (run, LiveSubmitAction::LoadConfig { path: config_path.to_owned() }),
            Err(e) => run.stop(e),
        }
    }

    /// One step of the run: takes what the front end reports and says
    /// what it must do next. A failure reported stops the run with it; each
    /// gate that refuses stops the run with its own error.
    pub fn step(self, event: LiveSubmitEvent) -> (r: (LiveSubmitRun, LiveSubmitAction))
        requires
            self.wf(),
            self.spec_expects(event),
        ensures
            r.0.wf(),
            spec_rank(r.0.phase) > spec_rank(self.phase),
            r.0.config_path == self.config_path,
            r.0.order_intent_path == self.order_intent_path,
            r.1 is Submit ==> r.0.spec_cleared_for_submission() && self.phase
                == LiveSubmitPhase::AwaitIntent && r.0.phase == LiveSubmitPhase::AwaitSubmission
                && (r.1 matches LiveSubmitAction::Submit { intent, .. } && intent
                == r.0.intent->0),
            r.1 is Done ==> self.phase == LiveSubmitPhase::AwaitAudit,
            event matches LiveSubmitEvent::Failed { error } ==> (r.1 matches LiveSubmitAction::Stop { error: e }
                && e == error),
            event matches LiveSubmitEvent::AccountFetched { status } && status.trading_blocked ==> (r.1 matches LiveSubmitAction::Stop { error }
                && spec_input_error(error, self.config_path@, "Alpaca account is not active for trading"@)),
            (r.1 is Stop || r.1 is Done) <==> r.0.phase == LiveSubmitPhase::Finished,
            spec_live_step(self, event, r.0, r.1),
    {
        let mut run = self;
        match event {
            LiveSubmitEvent::Failed { error } => run.stop(error),
            LiveSubmitEvent::ConfigLoaded { config, env } => {
                if let Err(e) = require_live_config(&config, run.config_path.as_str(), &env) {
                    return run.stop(e);
                }
                let kill_switch = match &config.kill_switch_file {
                    Some(p) => Some(p.clone()),
                    None => None,
                };
                let approval = approval_path(&config, run.config_path.as_str());
                run.config = Some(config);
                run.env = Some(env);
                match kill_switch {
                    Some(p) => {
                        run.phase = LiveSubmitPhase::AwaitKillSwitch;
                        (run, LiveSubmitAction::CheckKillSwitch { path: p })
                    },
                    None => {
                        run.phase = LiveSubmitPhase::AwaitApproval;
                        (run, LiveSubmitAction::LoadApproval { path: approval })
                    },
                }
            },
            LiveSubmitEvent::KillSwitchChecked { exists } => {
                let config = run.config.as_ref().unwrap();
                if let Err(e) = ensure_kill_switch_inactive(config, exists) {
                    run.kill_switch_engaged = true;
                    return run.stop(e);
                }
                let approval = approval_path(config, run.config_path.as_str());
                run.phase = LiveSubmitPhase::AwaitApproval;
                (run, LiveSubmitAction::LoadApproval { path: approval })
            },
            LiveSubmitEvent::ApprovalLoaded { artifact, now_unix_seconds } => {
                let now = now_unix_seconds;
                let config = run.config.as_ref().unwrap();
                let path = approval_path(config, run.config_path.as_str());
                if let Err(e) = validate_approval_artifact(config, &artifact, now, path.as_str()) {
                    return run.stop(e);
                }
                let credentials = match AlpacaCredentials::from_env(run.env.as_ref().unwrap()) {
                    Ok(c) => c,
                    Err(e) => {
                        return run.stop(e);
                    },
                };
                let base_url = live_base_url(config);
                run.artifact = Some(artifact);
                run.approved_at = Some(now);
                run.credentials = Some(credentials.clone());
                run.phase = LiveSubmitPhase::AwaitAccount;
                (run, LiveSubmitAction::FetchAccount { base_url, credentials })
            },
            LiveSubmitEvent::AccountFetched { status } => {
                if let Err(e) = ensure_options_capability(&status, run.config_path.as_str()) {
                    return run.stop(e);
                }
                let account = match account_snapshot_from_status(&status) {
                    Ok(a) => a,
                    Err(e) => {
                        return run.stop(e);
                    },
                };
                let path = run.order_intent_path.clone();
                run.status = Some(status);
                run.account = Some(account);
                run.phase = LiveSubmitPhase::AwaitIntent;
                (run, LiveSubmitAction::LoadIntent { path })
            },
            LiveSubmitEvent::IntentLoaded { fixture } => {
                let gate = live_order_gate(
                    run.order_intent_path.as_str(),
                    run.config.as_ref().unwrap(),
                    run.account.as_ref().unwrap(),
                    &fixture,
                );
                let intent = match gate {
                    Ok(i) => i,
                    Err(e) => {
                        return run.stop(e);
                    },
                };
                let base_url = live_base_url(run.config.as_ref().unwrap());
                let credentials = run.credentials.as_ref().unwrap().clone();
                run.fixture = Some(fixture);
                run.intent = Some(intent.clone());
                run.phase = LiveSubmitPhase::AwaitSubmission;
                (run, LiveSubmitAction::Submit { base_url, credentials, intent })
            },
            LiveSubmitEvent::Submitted { report } => {
                let data_dir = derive_data_dir(run.config_path.as_str());
                run.provider = Some(report);
                run.phase = LiveSubmitPhase::AwaitDataDir;
                (run, LiveSubmitAction::PrepareDataDir { path: data_dir })
            },
            LiveSubmitEvent::DataDirReady => {
                let mode = run.config.as_ref().unwrap().trading_mode;
                let event = live_audit_event(
                    mode,
                    run.intent.as_ref().unwrap(),
                    run.provider.as_ref().unwrap().order_id.as_str(),
                );
                match event {
                    Ok(e) => {
                        let path = Layout::new(derive_data_dir(run.config_path.as_str()).as_str()).audit_path();
                        run.phase = LiveSubmitPhase::AwaitAudit;
                        (run, LiveSubmitAction::AppendAudit { path, event: e })
                    },
                    Err(e) => run.stop(AppError::Persistence(e)),
                }
            },
            LiveSubmitEvent::AuditAppended => {
                let report = live_submit_report(
                    run.config_path.as_str(),
                    run.order_intent_path.as_str(),
                    run.intent.as_ref().unwrap(),
                    run.provider.as_ref().unwrap(),
                );
                run.phase = LiveSubmitPhase::Finished;
                (run, LiveSubmitAction::Done { report })
            },
        }
    }
}

} // verus!
