//! The execution engine of the Q-KUKEB trading system: risk gating, portfolio
//! and volatility tracking, and the answers to trade commands.
//!
//! Amounts are fixed-point decimals (`decimal`). Floating-point numbers appear
//! only as their encodings, which are compared exactly (`double`); what has to be
//! computed in floating point, and what a clock shows, is handed in by the
//! caller.

pub mod decimal;
pub mod double;
pub mod fill;
pub mod frames;
pub mod garch;
pub mod interceptor;
pub mod messages;
pub mod portfolio;
pub mod service;
pub mod state;
