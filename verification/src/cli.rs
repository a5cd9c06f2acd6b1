//! The commands of the command line, and what they decide before and after
//! they touch git or the platform.

use crate::utils::error::{GarryError, GarryErrorView};
use crate::utils::text::{concat, contains, occurs_in, same_text};
use vstd::prelude::*;

verus! {

/// A command of the command line.
#[derive(Debug, PartialEq, Eq)]
pub enum Command {
    /// Start a new feature branch.
    Start {
        /// Name of the branch to create.
        branch_name: String,
    },
    /// Squash the commits of the current branch.
    Squash,
    /// Upload the current branch for review.
    Upload {
        /// Title of the review.
        title: Option<String>,
        /// Description of the review.
        description: Option<String>,
    },
    /// Update an existing review with new commits.
    Update,
    /// Approve a review.
    Approve {
        /// Identifier of the review.
        review_id: String,
        /// Message that goes with the approval.
        message: Option<String>,
    },
}

/// A platform that an adapter exists for.
#[derive(Debug, Clone, Copy, PartialEq, Eq, Structural)]
pub enum Platform {
    Github,
}

/// The adapter to use for the platform named in the configuration: GitHub's
/// for `github`; any other name is refused.
pub fn select_platform(name: &str) -> (r: Result<Platform, GarryError>)
    ensures
        name@ == "github"@ ==> r == Ok::<Platform, GarryError>(Platform::Github),
        name@ != "github"@ ==> r is Err && r->Err_0@ == GarryErrorView::VcsError(
            "Unsupported platform: "@ + name@,
        ),
{
    if same_text(name, "github") {
        Ok(Platform::Github)
    } else {
        Err(GarryError::VcsError(concat("Unsupported platform: ", name)))
    }
}

/// The title of a review for `branch`: the one given, or one made of the
/// branch name.
pub fn review_title(title: Option<String>, branch: &str) -> (t: String)
    ensures
        t@ == match title {
            Some(given) => given@,
            None => "Review: "@ + branch@,
        },
{
    match title {
        Some(given) => given,
        None => concat("Review: ", branch),
    }
}

/// The description of a review for `branch`: the one given, or one made of
/// the branch name.
pub fn review_description(description: Option<String>, branch: &str) -> (d: String)
    ensures
        d@ == match description {
            Some(given) => given@,
            None => "Changes from branch "@ + branch@,
        },
{
    match description {
        Some(given) => given,
        None => concat("Changes from branch ", branch),
    }
}

/// Whether a push that failed with `error_text` is to be repeated with
/// force: it is where the remote refused because history was rewritten.
pub fn should_force_push(error_text: &str) -> (b: bool)
    ensures
        b == (occurs_in(error_text@, "non-fastforwardable"@) || occurs_in(
            error_text@,
            "non-fast-forward"@,
        )),
{
    contains(error_text, "non-fastforwardable") || contains(error_text, "non-fast-forward")
}

} // verus!
