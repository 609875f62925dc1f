//! Crypto market-data news synthesis.
//!
//! Given a fully-populated market snapshot for one asset, the library
//! deterministically synthesizes three narrative "news" articles — a
//! 24-hour trend piece, a 7-day trend piece and a market-position piece —
//! with fixed sources, a canonical provider URL and backdated timestamps.
//! Around that core it carries the market-data client's decision logic:
//! classifying the HTTP status of the upstream response, filling the
//! defaults of a partial quote payload, and mapping each outcome to the
//! HTTP status and message the request facade answers with.
//!
//! Money amounts and percentages are fixed-point integers (hundredths),
//! so every threshold rule and every two-decimal rendering is an exact,
//! verified integer computation.  The transport shell — routes, the
//! outbound HTTP call, serialization — stays outside and hands the
//! library plain values.

pub mod client;
pub mod facade;
pub mod models;
pub mod render;
pub mod synthesis;
