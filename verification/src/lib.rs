//! Routes a single file to a printer chosen by an ordered list of pattern
//! rules, then delivers it either through the raw print-spool protocol or by
//! delegating to an external PDF converter, with a filesystem lock
//! serializing deliveries across independent process instances.
//!
//! This crate holds the verified core: rule parsing and first-match lookup,
//! delivery selection by file extension, the spool-protocol state machine
//! with guaranteed cleanup, the cross-process lock protocol, and the
//! decisions around the external converter. The process glue (argument
//! handling, file and printer I/O, child processes) lives outside.

pub mod config;
pub mod delegate;
pub mod errors;
pub mod lock;
pub mod pattern;
pub mod route;
pub mod selector;
pub mod spool;
pub mod text;

pub use config::Rule;
pub use errors::PrintError;
pub use route::InvocationPlan;
pub use selector::Delivery;
