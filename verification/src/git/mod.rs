//! What the git operations compute around their calls into the repository.

pub mod branch;
pub mod commit;
pub mod remote;
