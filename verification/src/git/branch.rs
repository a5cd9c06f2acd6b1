//! Which branch names are acceptable, and how branches are written as
//! references.

use crate::utils::error::{GarryError, GarryErrorView};
use crate::utils::text::{concat, concat3, contains, occurs_in};
use vstd::prelude::*;

verus! {

/// Rules for branches.
pub struct BranchOps;

/// What is wrong with a branch name, if anything: it is empty, or it holds
/// two dots or two slashes in a row.
pub open spec fn branch_name_fault(name: Seq<char>) -> Option<Seq<char>> {
    if name.len() == 0 {
        Some("Branch name cannot be empty"@)
    } else if occurs_in(name, ".."@) || occurs_in(name, "//"@) {
        Some("Branch name contains invalid sequences"@)
    } else {
        None
    }
}

impl BranchOps {
    /// Accepts a branch name that is not empty and holds neither `..` nor
    /// `//`; refuses any other with the fault as detail.
    pub fn validate_branch_name(name: &str) -> (r: Result<(), GarryError>)
        ensures
            match r {
                Ok(_) => branch_name_fault(name@) is None,
                Err(e) => branch_name_fault(name@) is Some && e@ == GarryErrorView::InvalidBranchName(
                    branch_name_fault(name@)->0,
                ),
            },
    {
        if name.is_empty() {
            return Err(GarryError::InvalidBranchName("Branch name cannot be empty".to_owned()));
        }
        if contains(name, "..") || contains(name, "//") {
            return Err(
                GarryError::InvalidBranchName("Branch name contains invalid sequences".to_owned()),
            );
        }
        Ok(())
    }

    /// The name of the current branch, from the short name of `HEAD` where
    /// it has one; without one the repository is not on a branch.
    pub fn get_current_branch(shorthand: Option<&str>) -> (r: Result<String, GarryError>)
        ensures
            match shorthand {
                Some(name) => r is Ok && r->Ok_0@ == name@,
                None => r is Err && r->Err_0@ == GarryErrorView::GitError("Not on a branch"@),
            },
    {
        match shorthand {
            Some(name) => Ok(name.to_owned()),
            None => Err(GarryError::GitError("Not on a branch".to_owned())),
        }
    }

    /// The error for creating a branch that is there already.
    pub fn already_exists(name: &str) -> (e: GarryError)
        ensures
            e@ == GarryErrorView::InvalidBranchName("Branch '"@ + name@ + "' already exists"@),
    {
        GarryError::InvalidBranchName(concat3("Branch '", name, "' already exists"))
    }

    /// The full reference of local branch `name`.
    pub fn local_ref(name: &str) -> (r: String)
        ensures
            r@ == "refs/heads/"@ + name@,
    {
        concat("refs/heads/", name)
    }

    /// The full reference of branch `name` as last seen on `origin`.
    pub fn remote_ref(name: &str) -> (r: String)
        ensures
            r@ == "refs/remotes/origin/"@ + name@,
    {
        concat("refs/remotes/origin/", name)
    }
}

} // verus!
