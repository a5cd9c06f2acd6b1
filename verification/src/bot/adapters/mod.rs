//! Review sources: what the GitHub adapter computes, and a source held in
//! memory.

pub mod github;
pub mod mock;

pub use mock::MockVcsAdapter;
