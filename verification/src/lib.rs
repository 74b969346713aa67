//! The core of a task-management client that unifies remote task and list
//! providers behind one capability-polymorphic contract and computes a set
//! of virtual ("smart") task lists on top of whatever a provider returns.
//!
//! - [`recurrence`] holds the seven-day recurrence model and its textual and
//!   external-pattern conversions, with the round-trip law proved.
//! - [`models`] holds the task, list and selector data model.
//! - [`queries`] holds the pure predicates that classify a task set into the
//!   virtual lists.
//! - [`provider`] holds the provider contract and its error taxonomy, and
//!   [`smart`] the no-op provider behind the virtual scopes.
//! - [`content`] holds the synchronization orchestrator: a pure state
//!   machine whose caller performs the fetches it names, with its settling
//!   and cancellation laws proved.

pub mod content;
pub mod models;
pub mod provider;
pub mod queries;
pub mod recurrence;
pub mod smart;
