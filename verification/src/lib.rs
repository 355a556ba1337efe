//! Verified core of a desktop Azure Key Vault client.
//!
//! The library holds the decision logic of the application: the outbound
//! URL allowlist, the retry/backoff policy, pagination bookkeeping, the
//! token lifecycle state machine, response parsing over a JSON model, and
//! the input validators. I/O (HTTP, secure storage, processes, clocks) is
//! performed by the surrounding application, which feeds plain values in
//! and carries the decided actions out.

pub mod allowlist;
pub mod audit;
pub mod auth;
pub mod azure;
pub mod models;
pub mod export;
pub mod json;
pub mod paging;
pub mod retry;
pub mod session;
pub mod text;
pub mod validate;
