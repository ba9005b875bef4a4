//! A verified model of a low-level pointer-hook bridge.
//!
//! The bridge keeps one small record in a named shared segment so that two
//! otherwise unconnected execution contexts — the host that installs the hook
//! and the dispatch context that runs the hook callback — can exchange the
//! target window and the live hook handle. The modules below model the
//! segment and its scoped views, the install/uninstall state machine, the
//! callback's forwarding rule, and the platform's hook registry, and prove
//! the properties the bridge promises.

pub mod callback;
pub mod errors;
pub mod installer;
pub mod laws;
pub mod lifecycle;
pub mod registry;
pub mod share;
