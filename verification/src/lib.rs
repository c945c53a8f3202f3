//! Verified core of the OptionClaw options-trading assistant: domain
//! validation, risk gates, configuration and approval checks, broker
//! response mapping, observability records and persistence rules.

pub mod alpaca;
pub mod cli;
mod clock;
pub mod config;
pub mod domain;
pub mod errors;
pub mod execution;
pub mod llm;
pub mod market_data;
pub mod observability;
pub mod output;
pub mod persistence;
pub mod risk;
pub mod secrets;
pub mod services;
pub mod strategy;
pub mod text;
