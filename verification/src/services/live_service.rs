//! The live-trading gates: configuration, kill switch, approval, broker
//! account capability, the intent's shape and the risk gate, in that
//! order, before one order goes to the broker.

use vstd::prelude::*;
use vstd::string::*;
use crate::alpaca::{AlpacaAccountStatus, AlpacaOrderReport};
use crate::config::{AppConfig, LiveEnvironment, Provider, ProviderEnvironment};
use crate::domain::{AccountSnapshot, OrderIntent, OrderSide, RiskDecision, RiskLimits, TradingMode};
use crate::domain::risk::{evaluate_order_intent, spec_first_refusal};
use crate::errors::{invalid_input, spec_input_error, AppError, PersistenceError, SecurityError};
use crate::persistence::audit::{spec_clock_error, AuditEvent, AuditEventType};
use crate::text::{ascii_lower_seq, str_eq, to_ascii_lower, trim_seq};
use super::risk_service::OrderIntentFixture;

verus! {

/// What `live check` found.
#[derive(Debug, Clone, PartialEq, Eq)]
pub struct LiveCheckReport {
    pub config_path: String,
    pub provider: Provider,
    pub provider_environment: ProviderEnvironment,
    pub account_status: String,
    pub options_approved_level: u8,
    pub options_trading_level: u8,
    pub approval_fresh: bool,
    pub kill_switch_active: bool,
    pub approved: bool,
}

/// What `live submit` sent and what the broker answered.
#[derive(Debug, Clone, PartialEq, Eq)]
pub struct LiveSubmitReport {
    pub config_path: String,
    pub order_intent_path: String,
    pub order_intent_id: String,
    pub provider_order_id: String,
    pub provider_status: String,
    pub submitted: bool,
}

/// Refuses a live submission that was not confirmed on the command line.
pub fn require_confirm_live(order_intent_path: &str, confirm_live: bool) -> (r: Result<(), AppError>)
    ensures
        confirm_live ==> r is Ok,
        !confirm_live ==> (r matches Err(e) && spec_input_error(
            e,
            order_intent_path@,
            "live submit requires --confirm-live"@,
        )),
{
    if !confirm_live {
        return Err(invalid_input(order_intent_path, "live submit requires --confirm-live"));
    }
    Ok(())
}

/// Refuses a live command unless the configuration read from
/// `config_path` is in live mode and meets the live contract.
pub fn require_live_config(config: &AppConfig, config_path: &str, env: &LiveEnvironment) -> (r: Result<
    (),
    AppError,
>)
    ensures
        config.trading_mode != TradingMode::Live ==> (r matches Err(e) && spec_input_error(
            e,
            config_path@,
            "live commands require trading_mode = \"live\""@,
        )),
        config.trading_mode == TradingMode::Live ==> config.spec_live_contract(*env, r),
{
    if config.trading_mode != TradingMode::Live {
        return Err(invalid_input(config_path, "live commands require trading_mode = \"live\""));
    }
    config.validate_live_contract(env)
}

/// Refuses to go on while the configured kill-switch file exists;
/// `file_exists` says whether it does.
pub fn ensure_kill_switch_inactive(config: &AppConfig, file_exists: bool) -> (r: Result<(), AppError>)
    ensures
        (config.kill_switch_file is Some && file_exists) ==> (r matches Err(
            AppError::Security(SecurityError::KillSwitchActive),
        )),
        !(config.kill_switch_file is Some && file_exists) ==> r is Ok,
{
    if config.kill_switch_file.is_some() && file_exists {
        return Err(AppError::Security(SecurityError::KillSwitchActive));
    }
    Ok(())
}

/// The broker endpoint: the configured URL, else Alpaca's live or paper
/// API by the provider environment.
pub open spec fn spec_live_base_url(config: AppConfig) -> Seq<char> {
    match config.alpaca_base_url {
        Some(u) => u@,
        None => match config.provider_environment {
            ProviderEnvironment::Live => "https://api.alpaca.markets"@,
            _ => "https://paper-api.alpaca.markets"@,
        },
    }
}

/// The broker endpoint for `config`.
pub fn live_base_url(config: &AppConfig) -> (r: String)
    ensures
        r@ == spec_live_base_url(*config),
{
    match &config.alpaca_base_url {
        Some(u) => u.clone(),
        None => match config.provider_environment {
            ProviderEnvironment::Live => "https://api.alpaca.markets".to_owned(),
            ProviderEnvironment::Paper | ProviderEnvironment::Sandbox => {
                "https://paper-api.alpaca.markets".to_owned()
            },
        },
    }
}

/// Whether the broker account may trade options: active (in any letter
/// case), not blocked, and approved and enabled for options level 2.
pub open spec fn spec_account_capable(status: AlpacaAccountStatus) -> Option<Seq<char>> {
    if status.trading_blocked || ascii_lower_seq(status.status@) != "active"@ {
        Some("Alpaca account is not active for trading"@)
    } else if status.options_approved_level < 2 || status.options_trading_level < 2 {
        Some("Alpaca account must have options approved/trading level 2"@)
    } else {
        None
    }
}

/// Refuses a broker account that cannot trade options, reporting it
/// against the configuration at `path`.
pub fn ensure_options_capability(status: &AlpacaAccountStatus, path: &str) -> (r: Result<(), AppError>)
    ensures
        match spec_account_capable(*status) {
            None => r is Ok,
            Some(d) => r matches Err(e) && spec_input_error(e, path@, d),
        },
        status.trading_blocked ==> (r matches Err(e) && spec_input_error(
            e,
            path@,
            "Alpaca account is not active for trading"@,
        )),
        r is Ok <==> (!status.trading_blocked && ascii_lower_seq(status.status@) == "active"@
            && status.options_approved_level >= 2 && status.options_trading_level >= 2),
{
    let lowered = to_ascii_lower(status.status.as_str());
    if status.trading_blocked || !str_eq(lowered.as_str(), "active") {
        return Err(invalid_input(path, "Alpaca account is not active for trading"));
    }
    if status.options_approved_level < 2 || status.options_trading_level < 2 {
        return Err(invalid_input(path, "Alpaca account must have options approved/trading level 2"));
    }
    Ok(())
}

/// The capability gate never passes a blocked account: whatever the status
/// text and option levels, an account with trading blocked is refused as
/// not active for trading, and an account passes only when it is active,
/// not blocked, and at options level 2 for both approval and trading.
pub proof fn lemma_blocked_account_never_capable(status: AlpacaAccountStatus, path: Seq<char>, r: Result<(), AppError>)
    requires
        match spec_account_capable(status) {
            None => r is Ok,
            Some(d) => r matches Err(e) && spec_input_error(e, path, d),
        },
    ensures
        status.trading_blocked ==> (r matches Err(e) && spec_input_error(
            e,
            path,
            "Alpaca account is not active for trading"@,
        )),
        r is Ok ==> !status.trading_blocked && ascii_lower_seq(status.status@) == "active"@
            && status.options_approved_level >= 2 && status.options_trading_level >= 2,
{
}

/// Refuses an intent, read from `path`, that the first live release does
/// not trade: only live-mode buys of calls or puts.
pub fn ensure_supported_live_intent(intent: &OrderIntent, path: &str) -> (r: Result<(), AppError>)
    ensures
        intent.mode != TradingMode::Live ==> (r matches Err(e) && spec_input_error(
            e,
            path@,
            "live submit requires an order intent with mode = live"@,
        )),
        intent.mode == TradingMode::Live && intent.side != OrderSide::Buy ==> (r matches Err(e)
            && spec_input_error(
            e,
            path@,
            "first live release permits only long calls and long puts"@,
        )),
        intent.mode == TradingMode::Live && intent.side == OrderSide::Buy ==> r is Ok,
{
    if intent.mode != TradingMode::Live {
        return Err(invalid_input(path, "live submit requires an order intent with mode = live"));
    }
    if intent.side != OrderSide::Buy {
        return Err(invalid_input(path, "first live release permits only long calls and long puts"));
    }
    Ok(())
}

/// Whether the configuration's live limits exist and accept the intent
/// for the account.
pub open spec fn spec_live_gate_passes(config: AppConfig, i: OrderIntent, account: AccountSnapshot) -> bool {
    exists|l: RiskLimits|
        #![trigger config.spec_live_risk_limits(Ok(l))]
        config.spec_live_risk_limits(Ok(l)) && spec_first_refusal(i, Some(l), account, false)
            is None
}

/// What the order gate answers: as `live_order_gate` states it.
pub open spec fn spec_order_gate(
    order_intent_path: Seq<char>,
    config: AppConfig,
    account: AccountSnapshot,
    fixture: OrderIntentFixture,
    r: Result<OrderIntent, AppError>,
) -> bool {
    if !fixture.spec_converts() {
        r matches Err(e) && fixture.spec_error(e)
    } else if fixture.mode != TradingMode::Live {
        r matches Err(e) && spec_input_error(
            e,
            order_intent_path,
            "live submit requires an order intent with mode = live"@,
        )
    } else if fixture.side != OrderSide::Buy {
        r matches Err(e) && spec_input_error(
            e,
            order_intent_path,
            "first live release permits only long calls and long puts"@,
        )
    } else {
        match r {
            Ok(i) => fixture.spec_intent(i) && spec_live_gate_passes(config, i, account),
            Err(e) => (forall|l: RiskLimits| !config.spec_live_risk_limits(Ok(l)))
                && config.spec_live_risk_limits(Err(e)) || exists|
                i: OrderIntent,
                l: RiskLimits,
                d: RiskDecision,
            |
                #![trigger fixture.spec_intent(i), config.spec_live_risk_limits(Ok(l)), d.spec_display()]
                fixture.spec_intent(i) && config.spec_live_risk_limits(Ok(l))
                    && crate::domain::risk::spec_evaluate(i, Some(l), account, false, d)
                    && d !is Accepted && spec_input_error(
                    e,
                    order_intent_path,
                    "live risk gate rejected order: "@ + d.spec_display(),
                ),
        }
    }
}

/// The order gate of `live submit`: converts the intent read from
/// `order_intent_path`, keeps it to what the first live release trades,
/// and runs the risk gate under the configuration's live limits for the
/// broker account. Refused in that order; a risk rejection names the
/// decision.
pub fn live_order_gate(
    order_intent_path: &str,
    config: &AppConfig,
    account: &AccountSnapshot,
    fixture: &OrderIntentFixture,
) -> (r: Result<OrderIntent, AppError>)
    requires
        fixture.created_at_unix_seconds <= i64::MAX,
    ensures
        spec_order_gate(order_intent_path@, *config, *account, *fixture, r),
{
    let intent = fixture.to_domain()?;
    ensure_supported_live_intent(&intent, order_intent_path)?;
    let limits = config.live_risk_limits()?;
    let decision = evaluate_order_intent(&intent, Some(&limits), account, false);
    if !decision.is_accepted() {
        let mut detail = "live risk gate rejected order: ".to_owned();
        detail.append(decision.to_display_string().as_str());
        return Err(invalid_input(order_intent_path, detail.as_str()));
    }
    Ok(intent)
}

/// The report of a passed `live check`.
pub fn live_check_report(config_path: &str, config: &AppConfig, status: &AlpacaAccountStatus, approval_fresh: bool) -> (r:
    LiveCheckReport)
    ensures
        r.config_path@ == config_path@,
        r.provider == config.provider,
        r.provider_environment == config.provider_environment,
        r.account_status@ == status.status@,
        r.options_approved_level == status.options_approved_level,
        r.options_trading_level == status.options_trading_level,
        r.approval_fresh == approval_fresh,
        !r.kill_switch_active,
        r.approved,
{
    LiveCheckReport {
        config_path: config_path.to_owned(),
        provider: config.provider,
        provider_environment: config.provider_environment,
        account_status: status.status.clone(),
        options_approved_level: status.options_approved_level,
        options_trading_level: status.options_trading_level,
        approval_fresh,
        kill_switch_active: false,
        approved: true,
    }
}

/// The report of a submitted live order.
pub fn live_submit_report(
    config_path: &str,
    order_intent_path: &str,
    intent: &OrderIntent,
    provider: &AlpacaOrderReport,
) -> (r: LiveSubmitReport)
    ensures
        r.config_path@ == config_path@,
        r.order_intent_path@ == order_intent_path@,
        r.order_intent_id@ == intent.id@,
        r.provider_order_id@ == provider.order_id@,
        r.provider_status@ == provider.status@,
        r.submitted,
{
    LiveSubmitReport {
        config_path: config_path.to_owned(),
        order_intent_path: order_intent_path.to_owned(),
        order_intent_id: intent.id.clone(),
        provider_order_id: provider.order_id.clone(),
        provider_status: provider.status.clone(),
        submitted: true,
    }
}

/// The audit record of a submitted live order, stamped now.
pub fn live_audit_event(mode: TradingMode, intent: &OrderIntent, provider_order_id: &str) -> (r: Result<
    AuditEvent,
    PersistenceError,
>)
    ensures
        match r {
            Ok(e) => {
                &&& e.event_type == AuditEventType::StateWrite
                &&& e.mode@ == mode.spec_name()
                &&& e.order_intent_id == Some(intent.id)
                &&& e.risk_decision matches Some(d) && d@ == "LIVE_SUBMITTED"@
                &&& e.redacted_context@ == "provider_order_id="@ + provider_order_id@
            },
            Err(e) => spec_clock_error(e),
        },
{
    let mut context = "provider_order_id=".to_owned();
    context.append(provider_order_id);
    proof {
        reveal_strlit("provider_order_id=");
        assert(!crate::text::is_ws(context@[0]));
        crate::text::lemma_trim_nonblank(context@);
    }
    AuditEvent::new(
        AuditEventType::StateWrite,
        mode,
        Some(intent.id.clone()),
        Some("LIVE_SUBMITTED".to_owned()),
        context.as_str(),
    )
}

} // verus!
