//! Merge-queue scheduler core: the rules by which reviewed changes are
//! admitted to a protected branch, one at a time.
//!
//! The library decides and computes; it does not talk to anyone. A driver
//! owns the connection to the review source and runs one cycle at a time:
//!
//! 1. it lists the open reviews, asks [`bot::queue::QueueManager::unqueued`]
//!    which of them it has to read, reads those, and hands the readings to
//!    [`bot::queue::QueueManager::discover_and_queue_reviews`];
//! 2. it asks [`bot::queue::QueueManager::next_action`] what the head of the
//!    queue needs, does that one thing, and hands the answer to
//!    [`bot::queue::QueueManager::process_queue`], which reports the entry
//!    that left, if one did, and what to tell its author.
//!
//! Every function states what it returns over texts (`Seq<char>`) and
//! sequences; [`bot::order`] states what holds over whole runs of operations.

pub mod bot;
pub mod cli;
pub mod git;
pub mod review;
pub mod utils;
