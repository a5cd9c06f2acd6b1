//! How a push names what it pushes.

use crate::utils::text::{concat, concat3};
use vstd::prelude::*;

verus! {

/// Rules for pushing.
pub struct RemoteOps;

impl RemoteOps {
    /// The refspec that pushes local branch `branch` to the branch of the
    /// same name; with `force`, one that overwrites what the remote has.
    pub fn refspec(branch: &str, force: bool) -> (r: String)
        ensures
            r@ == (if force {
                "+refs/heads/"@
            } else {
                "refs/heads/"@
            }) + branch@ + ":refs/heads/"@ + branch@,
    {
        let from = if force {
            concat("+refs/heads/", branch)
        } else {
            concat("refs/heads/", branch)
        };
        concat3(from.as_str(), ":refs/heads/", branch)
    }
}

} // verus!
