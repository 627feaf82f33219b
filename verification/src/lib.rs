//! Daily check-in automation for a gaming portal: the per-game
//! status/claim/reverify protocol, the decoding of the portal's responses,
//! and the aggregation of per-account, per-game outcomes into one overall
//! result, each with a verified contract. Transport is left to the caller:
//! the runner says which call to make next, and takes the decoded result
//! back.

pub mod config;
pub mod headers;
pub mod orchestrator;
pub mod registry;
pub mod request;
pub mod response;
pub mod runner;
pub mod text;
