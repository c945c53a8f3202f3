//! Order execution: the paper executor and the live-provider boundary.

use vstd::prelude::*;
use crate::domain::{OrderIntent, Price, TradingMode};
use crate::errors::AppError;
use crate::risk::{authorize_execution, spec_authorization, ExecutionGates};

verus! {

/// Which venue executed an order.
#[derive(Debug, Clone, Copy, PartialEq, Eq, Structural)]
pub enum ExecutionMode {
    Paper,
    Live,
}

/// What came of an execution request.
#[derive(Debug, Clone, Copy, PartialEq, Eq, Structural)]
pub enum ExecutionStatus {
    PaperFilled,
    LiveDisabled,
    LiveSubmitted,
}

/// The outcome of executing one order intent.
#[derive(Debug, Clone, PartialEq, Eq)]
pub struct ExecutionReport {
    pub mode: ExecutionMode,
    pub status: ExecutionStatus,
    pub intent_id: String,
    pub filled_quantity: u32,
    pub fill_price: Option<Price>,
}

/// Executes order intents against simulated fills.
pub trait PaperExecutor {
    fn execute(&self, intent: &OrderIntent) -> Result<ExecutionReport, AppError>;
}

/// Executes order intents against a live broker.
pub trait ExecutionProvider {
    fn execute_live(&self, intent: &OrderIntent) -> Result<ExecutionReport, AppError>;
}

/// Asks whether live execution may proceed with no gate opened; it never may.
pub fn authorize_live_mode() -> (r: Result<(), AppError>)
    ensures
        spec_authorization(TradingMode::Live, ExecutionGates::spec_default(), r),
        r is Err,
{
    authorize_execution(TradingMode::Live, ExecutionGates::default())
}

/// Fills every intent in full at its limit price, or at its estimated
/// maximum loss when it has no limit price.
#[derive(Debug, Clone, Copy, Default)]
pub struct FixturePaperExecutor;

impl FixturePaperExecutor {
    /// The paper executor.
    pub fn new() -> (r: Self) {
        FixturePaperExecutor
    }
}

/// The report the paper executor gives for `intent`.
pub open spec fn spec_paper_fill(intent: OrderIntent, report: ExecutionReport) -> bool {
    &&& report.mode == ExecutionMode::Paper
    &&& report.status == ExecutionStatus::PaperFilled
    &&& report.intent_id@ == intent.id@
    &&& report.filled_quantity == intent.quantity.spec_get()
    &&& report.fill_price == Some(
        match intent.limit_price {
            Some(p) => p,
            None => intent.estimated_max_loss,
        },
    )
}

impl PaperExecutor for FixturePaperExecutor {
    fn execute(&self, intent: &OrderIntent) -> (r: Result<ExecutionReport, AppError>)
        ensures
            r matches Ok(report) && spec_paper_fill(*intent, report),
    {
        let fill_price = match intent.limit_price {
            Some(p) => Some(p),
            None => Some(intent.estimated_max_loss),
        };
        Ok(
            ExecutionReport {
                mode: ExecutionMode::Paper,
                status: ExecutionStatus::PaperFilled,
                intent_id: intent.id.clone(),
                filled_quantity: intent.quantity.get(),
                fill_price,
            },
        )
    }
}

/// A live provider that never submits: every request is reported as
/// disabled, with nothing filled.
#[derive(Debug, Clone, Copy, Default)]
pub struct DisabledExecutionProvider;

impl DisabledExecutionProvider {
    /// The disabled live provider.
    pub fn new() -> (r: Self) {
        DisabledExecutionProvider
    }
}

impl ExecutionProvider for DisabledExecutionProvider {
    fn execute_live(&self, intent: &OrderIntent) -> (r: Result<ExecutionReport, AppError>)
        ensures
            r matches Ok(report) && report.mode == ExecutionMode::Live && report.status
                == ExecutionStatus::LiveDisabled && report.intent_id@ == intent.id@
                && report.filled_quantity == 0 && report.fill_price is None,
    {
        Ok(
            ExecutionReport {
                mode: ExecutionMode::Live,
                status: ExecutionStatus::LiveDisabled,
                intent_id: intent.id.clone(),
                filled_quantity: 0,
                fill_price: None,
            },
        )
    }
}

} // verus!
