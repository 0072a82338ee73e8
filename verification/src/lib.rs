//! Decision core of an administrative back office: page arithmetic, the
//! listing state machine, one-shot notices and the session gate.
//!
//! Nothing here performs I/O. A caller runs the storage queries, the session
//! lookup and the template renderer, and hands their results to this crate as
//! plain values.

pub mod categories;
pub mod gate;
pub mod listing;
pub mod mutation;
pub mod notices;
pub mod paginator;
pub mod posts;
pub mod register;
pub mod reply;
pub mod routing;
