//! Vajra: the verified core of an options-native backtesting engine.
//!
//! This crate holds the parts of the backtester whose behaviour is decided on
//! integers, strings and bit patterns: which bar and which price field a
//! decision fills at, the quote overlay keyed by bar and instrument, the
//! position lifecycle, leg classification, the slippage direction rule, the
//! calendar (bar timestamps, report dates, the weekly expiry) and the labels
//! of the equity curve. Prices are carried as `f64` bit patterns (`u64`),
//! so the records here are exact and no floating-point arithmetic happens in
//! them.

pub mod fill;
pub mod marketdata;
pub mod cost;
mod text;
pub mod legs;
pub mod calendar;
pub mod schedule;
pub mod lifecycle;
pub mod reporting;
