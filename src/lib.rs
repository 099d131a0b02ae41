//! Order-execution core for a trading venue's REST API: session state,
//! order validation and payload construction, retry decisions, and the
//! interpretation of upstream replies.

pub mod executor;
pub mod json;
pub mod order;
pub mod response;
pub mod retry;
pub mod session;
pub mod text;
