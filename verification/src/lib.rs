//! A leveraged dollar-cost-averaging stock simulator.
//!
//! Prices are carried as IEEE-754 single-precision bit patterns (see
//! [`price::Price`]) and instants as milliseconds since the Unix epoch (see
//! [`time`]); the library decides, orders and schedules on those plain values,
//! while the floating-point arithmetic itself is done by the caller.

pub mod price;
pub mod time;
pub mod stock_action;
pub mod positions;
pub mod s_and_p;
pub mod simulation;
pub mod dynamic_simulation;
