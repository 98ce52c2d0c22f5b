//! Outcome-conditional deferred execution.
//!
//! A caller runs a unit of work (the scope) through [`scoped`] and, depending
//! on whether that unit reports success or failure, a different set of
//! previously registered callbacks fires, followed unconditionally by a third
//! set that always fires last. Callbacks are registered through a [`Guard`]
//! handed to the scope body; each registration stores a payload together with
//! a one-shot callback over that payload and hands back a handle through
//! which the payload stays readable and writable while the scope runs.

mod outcome;
mod registry;
mod scope;

pub use outcome::Failure;
pub use outcome::ScopeResult;
pub use registry::DeferCallback;
pub use registry::Deferring;
pub use registry::entries_invoked;
pub use registry::lemma_drain_order;
pub use registry::lemma_registration_keeps_entries;
pub use registry::payloads_of;
pub use scope::Guard;
pub use scope::scoped;
