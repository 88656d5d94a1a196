//! `bx402`: a micropayment proxy for the Brave Search API over x402 and MPP.
//!
//! The name combines `bx` (Brave Search CLI) with HTTP `402 Payment Required`, the status
//! code behind the per-request payment handshake.

use vstd::prelude::*;

use crate::error::joined;
use crate::http::{bare, Reply};

pub mod config;
pub mod dispatch;
pub mod endpoints;
pub mod error;
pub mod exposition;
pub mod guarantees;
pub mod http;
pub mod json;
pub mod laws;
pub mod metrics;
pub mod mpp_rail;
pub mod payment;
pub mod recording;
pub mod screener;
pub mod search;
pub mod text;
pub mod x402;

pub use crate::config::{Config, MppConfig, X402Config};
pub use crate::error::AppError;
pub use crate::metrics::Metrics;
pub use crate::screener::{init as init_screener, RestrictedAddressScreener, Status};

verus! {

/// The version of the running service.
pub const VERSION: &'static str = "0.1.0";

/// Liveness probe path, kept in one place so the route and its metric label cannot drift
/// apart.
pub const HEALTH_PATH: &'static str = "/health";

/// Human-readable service banner, printed on startup.
pub fn banner() -> (line: String)
    ensures
        line@ == "bx402 v"@ + VERSION@,
{
    joined("bx402 v", VERSION)
}

/// Liveness probe: `200 OK` with an empty body if the server is up.
pub fn health() -> (reply: Reply)
    ensures
        reply@ == bare(200),
{
    Reply::bare(200)
}

} // verus!
