//! Domain values: instruments, orders, accounts, market data, signals and
//! the risk gate that decides whether an order intent may execute.

pub mod account;
pub mod instrument;
pub mod market;
pub mod order;
pub mod risk;
pub mod signal;

pub use instrument::{
    CalendarDate, ContractQuantity, OptionContract, OptionKind, PercentBps, Price, TradingMode,
};
pub use account::{AccountSnapshot, Position};
pub use market::MarketSnapshot;
pub use order::{OrderIntent, OrderIntentSpec, OrderSide, OrderType};
pub use risk::{RiskContext, RiskDecision, RiskLimits, RiskReasonCode};
pub use signal::{AdvisoryScore, Signal, SignalSource};
