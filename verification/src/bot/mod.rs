//! The scheduler: the merge queue, the CI gate, the words of notifications,
//! and what the adapters to a review source compute.

pub mod adapters;
pub mod ci;
pub mod notifier;
pub mod order;
pub mod queue;
