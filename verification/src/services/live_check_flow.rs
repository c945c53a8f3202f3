//! `live check` as a sequence of decisions: each step takes what the front
//! end read and says what it must do next. The gates run in order: a live
//! configuration that meets the live contract, the kill switch, a valid
//! approval at the time read, the broker credentials, then an account that
//! may trade options. No order is ever sent.

use vstd::prelude::*;
use crate::alpaca::{AlpacaAccountStatus, AlpacaCredentials};
use crate::config::{spec_blank, AppConfig, LiveEnvironment};
use crate::domain::TradingMode;
use crate::errors::{spec_input_error, AppError, SecurityError};
use super::live_service::{
    ensure_kill_switch_inactive, ensure_options_capability, live_base_url, live_check_report,
    require_live_config, spec_account_capable, spec_live_base_url, LiveCheckReport,
};
use super::research_service::{
    approval_path, spec_approval_path, spec_approval_problem, validate_approval_artifact,
    LiveApprovalArtifact,
};

verus! {

/// Where a `live check` run stands.
#[derive(Debug, Clone, Copy, PartialEq, Eq, Structural)]
pub enum LiveCheckPhase {
    AwaitConfig,
    AwaitKillSwitch,
    AwaitApproval,
    AwaitAccount,
    Finished,
}

/// The order of the phases.
pub open spec fn spec_check_rank(p: LiveCheckPhase) -> int {
    match p {
        LiveCheckPhase::AwaitConfig => 0,
        LiveCheckPhase::AwaitKillSwitch => 1,
        LiveCheckPhase::AwaitApproval => 2,
        LiveCheckPhase::AwaitAccount => 3,
        LiveCheckPhase::Finished => 4,
    }
}

/// What the front end must do next.
pub enum LiveCheckAction {
    /// Read and parse the configuration file, and read the environment.
    LoadConfig { path: String },
    /// Say whether the kill-switch file exists.
    CheckKillSwitch { path: String },
    /// Read the approval artifact, then the clock.
    LoadApproval { path: String },
    /// Ask the broker for the account status.
    FetchAccount { base_url: String, credentials: AlpacaCredentials },
    /// Every gate passed.
    Done { report: LiveCheckReport },
    /// The run stops with this error.
    Stop { error: AppError },
}

/// What the front end reports back.
pub enum LiveCheckEvent {
    ConfigLoaded { config: AppConfig, env: LiveEnvironment },
    KillSwitchChecked { exists: bool },
    /// The approval artifact was read, and the clock then read
    /// `now_unix_seconds`.
    ApprovalLoaded { artifact: LiveApprovalArtifact, now_unix_seconds: u64 },
    AccountFetched { status: AlpacaAccountStatus },
    Failed { error: AppError },
}

/// A `live check` run and what it has learnt so far.
pub struct LiveCheckRun {
    pub config_path: String,
    pub phase: LiveCheckPhase,
    pub config: Option<AppConfig>,
    pub env: Option<LiveEnvironment>,
    pub artifact: Option<LiveApprovalArtifact>,
    pub approved_at: Option<u64>,
}

/// What one step of `live check` does with `event`: the action it asks
/// for, or the error that stops the run, gate by gate.
pub open spec fn spec_live_check_step(
    run: LiveCheckRun,
    event: LiveCheckEvent,
    next: LiveCheckRun,
    action: LiveCheckAction,
) -> bool {
    let cfg = run.config_path@;
    match event {
        LiveCheckEvent::Failed { error } => action matches LiveCheckAction::Stop { error: e } && e
            == error,
        LiveCheckEvent::ConfigLoaded { config, env } => if config.trading_mode
            != TradingMode::Live {
            action matches LiveCheckAction::Stop { error } && spec_input_error(
                error,
                cfg,
                "live commands require trading_mode = \"live\""@,
            )
        } else if !config.spec_live_contract(env, Ok(())) {
            action matches LiveCheckAction::Stop { error } && config.spec_live_contract(
                env,
                Err(error),
            )
        } else {
            &&& next.config == Some(config)
            &&& next.env == Some(env)
            &&& match config.kill_switch_file {
                Some(p) => action matches LiveCheckAction::CheckKillSwitch { path } && path@ == p@,
                None => action matches LiveCheckAction::LoadApproval { path } && path@
                    == spec_approval_path(config, cfg),
            }
        },
        LiveCheckEvent::KillSwitchChecked { exists } => if exists {
            action matches LiveCheckAction::Stop { error } && error matches AppError::Security(
                SecurityError::KillSwitchActive,
            )
        } else {
            action matches LiveCheckAction::LoadApproval { path } && path@ == spec_approval_path(
                run.config->0,
                cfg,
            )
        },
        LiveCheckEvent::ApprovalLoaded { artifact, now_unix_seconds } => {
            let config = run.config->0;
            let env = run.env->0;
            match spec_approval_problem(config, artifact, now_unix_seconds) {
                Some(d) => action matches LiveCheckAction::Stop { error } && spec_input_error(
                    error,
                    spec_approval_path(config, cfg),
                    d,
                ),
                None => if spec_blank(env.alpaca_api_key) {
                    action matches LiveCheckAction::Stop { error } && error matches AppError::Security(
                        SecurityError::SecretMissing { name },
                    ) && name@ == "OPTIONCLAW_ALPACA_API_KEY"@
                } else if spec_blank(env.alpaca_api_secret) {
                    action matches LiveCheckAction::Stop { error } && error matches AppError::Security(
                        SecurityError::SecretMissing { name },
                    ) && name@ == "OPTIONCLAW_ALPACA_API_SECRET"@
                } else {
                    &&& action matches LiveCheckAction::FetchAccount { base_url, credentials }
                    &&& base_url@ == spec_live_base_url(config)
                    &&& credentials.spec_api_key() == env.alpaca_api_key->0@
                    &&& credentials.spec_api_secret() == env.alpaca_api_secret->0@
                    &&& next.artifact == Some(artifact)
                    &&& next.approved_at == Some(now_unix_seconds)
                },
            }
        },
        LiveCheckEvent::AccountFetched { status } => match spec_account_capable(status) {
            Some(d) => action matches LiveCheckAction::Stop { error } && spec_input_error(
                error,
                cfg,
                d,
            ),
            None => action matches LiveCheckAction::Done { report } && {
                &&& report.config_path@ == cfg
                &&& report.provider == run.config->0.provider
                &&& report.provider_environment == run.config->0.provider_environment
                &&& report.account_status@ == status.status@
                &&& report.options_approved_level == status.options_approved_level
                &&& report.options_trading_level == status.options_trading_level
                &&& report.approval_fresh
                &&& !report.kill_switch_active
                &&& report.approved
            },
        },
    }
}

impl LiveCheckRun {
    /// The configuration is a live one that meets the live contract.
    pub open spec fn spec_config_cleared(&self) -> bool {
        &&& self.config matches Some(c)
        &&& self.env matches Some(env)
        &&& c.trading_mode == TradingMode::Live
        &&& c.spec_live_contract(env, Ok(()))
    }

    /// ... and the approval was valid at the time read.
    pub open spec fn spec_approval_cleared(&self) -> bool {
        &&& self.spec_config_cleared()
        &&& self.artifact matches Some(a)
        &&& self.approved_at matches Some(t)
        &&& spec_approval_problem(self.config->0, a, t) is None
    }

    /// What each phase has established.
    pub open spec fn wf(&self) -> bool {
        match self.phase {
            LiveCheckPhase::AwaitConfig => true,
            LiveCheckPhase::AwaitKillSwitch => self.spec_config_cleared()
                && self.config->0.kill_switch_file is Some,
            LiveCheckPhase::AwaitApproval => self.spec_config_cleared(),
            LiveCheckPhase::AwaitAccount => self.spec_approval_cleared(),
            LiveCheckPhase::Finished => true,
        }
    }

    /// Whether `event` is one the run can take in its phase.
    pub open spec fn spec_expects(&self, event: LiveCheckEvent) -> bool {
        match event {
            LiveCheckEvent::Failed { .. } => self.phase != LiveCheckPhase::Finished,
            LiveCheckEvent::ConfigLoaded { .. } => self.phase == LiveCheckPhase::AwaitConfig,
            LiveCheckEvent::KillSwitchChecked { .. } => self.phase
                == LiveCheckPhase::AwaitKillSwitch,
            LiveCheckEvent::ApprovalLoaded { .. } => self.phase == LiveCheckPhase::AwaitApproval,
            LiveCheckEvent::AccountFetched { .. } => self.phase == LiveCheckPhase::AwaitAccount,
        }
    }

    fn stop(self, error: AppError) -> (r: (LiveCheckRun, LiveCheckAction))
        ensures
            r.0 == (LiveCheckRun { phase: LiveCheckPhase::Finished, ..self }),
            r.1 matches LiveCheckAction::Stop { error: e } && e == error,
    {
        let mut run = self;
        run.phase = LiveCheckPhase::Finished;
        (run, LiveCheckAction::Stop { error })
    }

    /// Starts a check of the configuration at `config_path`: the
    /// configuration is read first.
    pub fn start(config_path: &str) -> (r: (LiveCheckRun, LiveCheckAction))
        ensures
            r.0.wf(),
            r.0.phase == LiveCheckPhase::AwaitConfig,
            r.0.config_path@ == config_path@,
            r.1 matches LiveCheckAction::LoadConfig { path } && path@ == config_path@,
    {
        (
            LiveCheckRun {
                config_path: config_path.to_owned(),
                phase: LiveCheckPhase::AwaitConfig,
                config: None,
                env: None,
                artifact: None,
                approved_at: None,
            },
            LiveCheckAction::LoadConfig { path: config_path.to_owned() },
        )
    }

    /// One step of the check: takes what the front end reports and says
    /// what it must do next. A failure reported stops the run with it; each
    /// gate that refuses stops the run with its own error, and the report
    /// comes only after every gate passed.
    pub fn step(self, event: LiveCheckEvent) -> (r: (LiveCheckRun, LiveCheckAction))
        requires
            self.wf(),
            self.spec_expects(event),
        ensures
            r.0.wf(),
            spec_check_rank(r.0.phase) > spec_check_rank(self.phase),
            r.0.config_path == self.config_path,
            r.1 is Done ==> self.phase == LiveCheckPhase::AwaitAccount && self.spec_approval_cleared(),
            event matches LiveCheckEvent::AccountFetched { status } && status.trading_blocked ==> (r.1 matches LiveCheckAction::Stop { error }
                && spec_input_error(error, self.config_path@, "Alpaca account is not active for trading"@)),
            (r.1 is Stop || r.1 is Done) <==> r.0.phase == LiveCheckPhase::Finished,
            spec_live_check_step(self, event, r.0, r.1),
    {
        let mut run = self;
        match event {
            LiveCheckEvent::Failed { error } => run.stop(error),
            LiveCheckEvent::ConfigLoaded { config, env } => {
                if let Err(e) = require_live_config(&config, run.config_path.as_str(), &env) {
                    return run.stop(e);
                }
                let kill_switch = match &config.kill_switch_file {
                    Some(p) => Some(p.clone()),
                    None => None,
                };
                let approval = approval_path(&config, run.config_path.as_str());
                run.config = Some(config);
                run.env = Some(env);
                match kill_switch {
                    Some(p) => {
                        run.phase = LiveCheckPhase::AwaitKillSwitch;
                        (run, LiveCheckAction::CheckKillSwitch { path: p })
                    },
                    None => {
                        run.phase = LiveCheckPhase::AwaitApproval;
                        (run, LiveCheckAction::LoadApproval { path: approval })
                    },
                }
            },
            LiveCheckEvent::KillSwitchChecked { exists } => {
                let config = run.config.as_ref().unwrap();
                if let Err(e) = ensure_kill_switch_inactive(config, exists) {
                    return run.stop(e);
                }
                let approval = approval_path(config, run.config_path.as_str());
                run.phase = LiveCheckPhase::AwaitApproval;
                (run, LiveCheckAction::LoadApproval { path: approval })
            },
            LiveCheckEvent::ApprovalLoaded { artifact, now_unix_seconds } => {
                let config = run.config.as_ref().unwrap();
                let path = approval_path(config, run.config_path.as_str());
                if let Err(e) = validate_approval_artifact(config, &artifact, now_unix_seconds, path.as_str()) {
                    return run.stop(e);
                }
                let credentials = match AlpacaCredentials::from_env(run.env.as_ref().unwrap()) {
                    Ok(c) => c,
                    Err(e) => {
                        return run.stop(e);
                    },
                };
                let base_url = live_base_url(config);
                run.artifact = Some(artifact);
                run.approved_at = Some(now_unix_seconds);
                run.phase = LiveCheckPhase::AwaitAccount;
                (run, LiveCheckAction::FetchAccount { base_url, credentials })
            },
            LiveCheckEvent::AccountFetched { status } => {
                if let Err(e) = ensure_options_capability(&status, run.config_path.as_str()) {
                    return run.stop(e);
                }
                let approved = run.artifact.as_ref().unwrap().approved;
                let report = live_check_report(
                    run.config_path.as_str(),
                    run.config.as_ref().unwrap(),
                    &status,
                    approved,
                );
                run.phase = LiveCheckPhase::Finished;
                (run, LiveCheckAction::Done { report })
            },
        }
    }
}

} // verus!
