//! The one error type of the library, and the text each error shows.

use crate::utils::text::{clone_texts, concat, debug_format, debug_list};
use vstd::prelude::*;

verus! {

/// What can go wrong. Errors raised outside the library (by git, the network,
/// the file system or a decoder) are carried as the text they showed.
#[derive(Debug, PartialEq, Eq)]
pub enum GarryError {
    GitError(String),
    VcsError(String),
    ConfigError(String),
    ReviewNotFound(String),
    MergeConflict(String),
    CiFailed(Vec<String>),
    InvalidBranchName(String),
    NetworkError(String),
    IoError(String),
    SerializationError(String),
    Other(String),
}

/// `GarryError` over texts.
pub enum GarryErrorView {
    GitError(Seq<char>),
    VcsError(Seq<char>),
    ConfigError(Seq<char>),
    ReviewNotFound(Seq<char>),
    MergeConflict(Seq<char>),
    CiFailed(Seq<Seq<char>>),
    InvalidBranchName(Seq<char>),
    NetworkError(Seq<char>),
    IoError(Seq<char>),
    SerializationError(Seq<char>),
    Other(Seq<char>),
}

impl View for GarryError {
    type V = GarryErrorView;

    open spec fn view(&self) -> GarryErrorView {
        match self {
            GarryError::GitError(m) => GarryErrorView::GitError(m@),
            GarryError::VcsError(m) => GarryErrorView::VcsError(m@),
            GarryError::ConfigError(m) => GarryErrorView::ConfigError(m@),
            GarryError::ReviewNotFound(m) => GarryErrorView::ReviewNotFound(m@),
            GarryError::MergeConflict(m) => GarryErrorView::MergeConflict(m@),
            GarryError::CiFailed(checks) => GarryErrorView::CiFailed(checks.deep_view()),
            GarryError::InvalidBranchName(m) => GarryErrorView::InvalidBranchName(m@),
            GarryError::NetworkError(m) => GarryErrorView::NetworkError(m@),
            GarryError::IoError(m) => GarryErrorView::IoError(m@),
            GarryError::SerializationError(m) => GarryErrorView::SerializationError(m@),
            GarryError::Other(m) => GarryErrorView::Other(m@),
        }
    }
}

impl GarryErrorView {
    /// The text the error shows: what kind it is, then its detail.
    pub open spec fn text(self) -> Seq<char> {
        match self {
            GarryErrorView::GitError(m) => "Git operation failed: "@ + m,
            GarryErrorView::VcsError(m) => "VCS adapter error: "@ + m,
            GarryErrorView::ConfigError(m) => "Configuration error: "@ + m,
            GarryErrorView::ReviewNotFound(m) => "Review not found: "@ + m,
            GarryErrorView::MergeConflict(m) => "Merge conflict: "@ + m,
            GarryErrorView::CiFailed(checks) => "CI check failed: "@ + debug_list(checks),
            GarryErrorView::InvalidBranchName(m) => "Invalid branch name: "@ + m,
            GarryErrorView::NetworkError(m) => "Network error: "@ + m,
            GarryErrorView::IoError(m) => "IO error: "@ + m,
            GarryErrorView::SerializationError(m) => "Serialization error: "@ + m,
            GarryErrorView::Other(m) => m,
        }
    }

    /// The review source could not be reached; the same request may succeed
    /// when repeated.
    pub open spec fn is_transport(self) -> bool {
        self is NetworkError || self is IoError
    }
}

impl Clone for GarryError {
    fn clone(&self) -> (r: Self)
        ensures
            r@ == self@,
    {
        match self {
            GarryError::GitError(m) => GarryError::GitError(m.clone()),
            GarryError::VcsError(m) => GarryError::VcsError(m.clone()),
            GarryError::ConfigError(m) => GarryError::ConfigError(m.clone()),
            GarryError::ReviewNotFound(m) => GarryError::ReviewNotFound(m.clone()),
            GarryError::MergeConflict(m) => GarryError::MergeConflict(m.clone()),
            GarryError::CiFailed(checks) => GarryError::CiFailed(clone_texts(checks)),
            GarryError::InvalidBranchName(m) => GarryError::InvalidBranchName(m.clone()),
            GarryError::NetworkError(m) => GarryError::NetworkError(m.clone()),
            GarryError::IoError(m) => GarryError::IoError(m.clone()),
            GarryError::SerializationError(m) => GarryError::SerializationError(m.clone()),
            GarryError::Other(m) => GarryError::Other(m.clone()),
        }
    }
}

/// The text of a CI failure whose failed checks are written as `listed`.
pub fn ci_failed_text(listed: &str) -> (s: String)
    ensures
        s@ == "CI check failed: "@ + listed@,
{
    concat("CI check failed: ", listed)
}

impl GarryError {
    /// The text the error shows.
    pub fn to_string(&self) -> (s: String)
        ensures
            s@ == self@.text(),
    {
        match self {
            GarryError::GitError(m) => concat("Git operation failed: ", m.as_str()),
            GarryError::VcsError(m) => concat("VCS adapter error: ", m.as_str()),
            GarryError::ConfigError(m) => concat("Configuration error: ", m.as_str()),
            GarryError::ReviewNotFound(m) => concat("Review not found: ", m.as_str()),
            GarryError::MergeConflict(m) => concat("Merge conflict: ", m.as_str()),
            GarryError::CiFailed(checks) => {
                let listed = debug_format(checks);
                ci_failed_text(listed.as_str())
            },
            GarryError::InvalidBranchName(m) => concat("Invalid branch name: ", m.as_str()),
            GarryError::NetworkError(m) => concat("Network error: ", m.as_str()),
            GarryError::IoError(m) => concat("IO error: ", m.as_str()),
            GarryError::SerializationError(m) => concat("Serialization error: ", m.as_str()),
            GarryError::Other(m) => m.clone(),
        }
    }

    /// Whether the error says that the review no longer exists.
    pub fn is_not_found(&self) -> (b: bool)
        ensures
            b == (self@ is ReviewNotFound),
    {
        match self {
            GarryError::ReviewNotFound(_) => true,
            _ => false,
        }
    }

    /// Whether the review source could not be reached.
    pub fn is_transport(&self) -> (b: bool)
        ensures
            b == self@.is_transport(),
    {
        match self {
            GarryError::NetworkError(_) | GarryError::IoError(_) => true,
            _ => false,
        }
    }
}

} // verus!
