// The words of errors and notifications.

use garry::utils::error::{ci_failed_text, GarryError};
use garry::bot::notifier::NotificationType;

#[test]
fn every_error_shows_its_kind_and_detail() {
    let d = || "x".to_string();
    assert_eq!(GarryError::GitError(d()).to_string(), "Git operation failed: x");
    assert_eq!(GarryError::VcsError(d()).to_string(), "VCS adapter error: x");
    assert_eq!(GarryError::ConfigError(d()).to_string(), "Configuration error: x");
    assert_eq!(GarryError::ReviewNotFound(d()).to_string(), "Review not found: x");
    assert_eq!(GarryError::MergeConflict(d()).to_string(), "Merge conflict: x");
    assert_eq!(GarryError::InvalidBranchName(d()).to_string(), "Invalid branch name: x");
    assert_eq!(GarryError::NetworkError(d()).to_string(), "Network error: x");
    assert_eq!(GarryError::IoError(d()).to_string(), "IO error: x");
    assert_eq!(GarryError::SerializationError(d()).to_string(), "Serialization error: x");
    assert_eq!(GarryError::Other(d()).to_string(), "x");
}

#[test]
fn failed_checks_are_shown_as_a_quoted_list() {
    let e = GarryError::CiFailed(vec!["unit \"fast\"".to_string(), "lint".to_string()]);
    assert_eq!(e.to_string(), "CI check failed: [\"unit \\\"fast\\\"\", \"lint\"]");
    assert_eq!(GarryError::CiFailed(vec![]).to_string(), "CI check failed: []");
}

#[test]
fn errors_are_told_apart_by_kind() {
    assert!(GarryError::ReviewNotFound("1".to_string()).is_not_found());
    assert!(!GarryError::VcsError("1".to_string()).is_not_found());
    assert!(GarryError::NetworkError("x".to_string()).is_transport());
    assert!(GarryError::IoError("x".to_string()).is_transport());
    assert!(!GarryError::MergeConflict("x".to_string()).is_transport());
    let e = GarryError::CiFailed(vec!["a".to_string()]);
    assert_eq!(e.clone(), e);
}

#[test]
fn merge_success_message() {
    assert_eq!(
        NotificationType::MergeSuccess.message(),
        "✅ Your review has been successfully merged to main!"
    );
}

#[test]
fn merge_conflict_message_holds_the_detail() {
    assert_eq!(
        NotificationType::MergeConflict("conflict in a.rs".to_string()).message(),
        "⚠️ Merge conflict detected:\n\nconflict in a.rs\n\nPlease rebase your branch and update the review."
    );
}

#[test]
fn ci_failed_message_lists_checks_one_per_line() {
    assert_eq!(
        NotificationType::CiFailed(vec!["unit-tests".to_string(), "lint".to_string()]).message(),
        "❌ CI checks failed:\n\nunit-tests\nlint\n\nPlease fix the issues and update the review."
    );
    assert_eq!(
        NotificationType::CiFailed(vec![]).message(),
        "❌ CI checks failed:\n\n\n\nPlease fix the issues and update the review."
    );
}

#[test]
fn queue_position_is_shown_counting_from_one() {
    assert_eq!(
        NotificationType::QueuePosition(0).message(),
        "📋 Your review is in the merge queue at position 1"
    );
    assert_eq!(
        NotificationType::QueuePosition(9).message(),
        "📋 Your review is in the merge queue at position 10"
    );
    assert_eq!(
        NotificationType::QueuePosition(usize::MAX).message(),
        format!("📋 Your review is in the merge queue at position {}", usize::MAX as u128 + 1)
    );
}

#[test]
fn update_message() {
    assert_eq!(
        NotificationType::ReviewRequiresUpdate.message(),
        "🔄 Your review requires updates. Please address the feedback and push new commits."
    );
    let n = NotificationType::CiFailed(vec!["a".to_string()]);
    assert_eq!(n.clone(), n);
}

#[test]
fn the_text_of_a_ci_failure_is_built_around_the_list() {
    assert_eq!(ci_failed_text("[\"a\"]"), "CI check failed: [\"a\"]");
    assert_eq!(ci_failed_text(""), "CI check failed: ");
}

#[test]
fn a_failure_is_reported_by_its_reason() {
    assert_eq!(
        NotificationType::for_failure("Merge failed: stale head"),
        NotificationType::MergeConflict("stale head".to_string())
    );
    assert_eq!(
        NotificationType::for_failure("Merge failed: "),
        NotificationType::MergeConflict("".to_string())
    );
    assert_eq!(
        NotificationType::for_failure("cancelled"),
        NotificationType::CiFailed(vec!["cancelled".to_string()])
    );
    assert_eq!(
        NotificationType::for_failure("merge failed: x"),
        NotificationType::CiFailed(vec!["merge failed: x".to_string()])
    );
}
