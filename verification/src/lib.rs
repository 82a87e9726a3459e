//! Verified core of the trading backend's HTTP routes: the decisions,
//! parsers and state transitions behind the handlers, kept free of I/O.
pub mod levels;
pub mod text;
pub mod news;
pub mod json;
pub mod reports;
pub mod replies;
pub mod debate;
pub mod error;
pub mod keys;
pub mod providers;
pub mod settings;
pub mod orders;
pub mod requests;
pub mod strategies;
pub mod klines;
pub mod simulation;
pub mod timestamps;
pub mod dashboard;
pub mod notifications;
pub mod ticks;
pub mod market;
pub mod signals;
pub mod feeds;
