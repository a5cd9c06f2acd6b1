// What the GitHub adapter computes.

use garry::utils::error::GarryError;
use garry::bot::adapters::github::{
    api_url, approval_body, approval_from, approvals_at, bearer, ci_status, head_ref,
    protection_request, refused, review_id_of, review_state, review_status, review_status_at, CheckRun,
    Endpoint, Request, ReviewRecord,
};
use garry::review::{Approval, CiStatus, ReviewId, ReviewState, Timestamp};

fn check(name: &str, status: &str, conclusion: Option<&str>) -> CheckRun {
    CheckRun {
        name: name.to_string(),
        status: status.to_string(),
        conclusion: conclusion.map(|c| c.to_string()),
    }
}

fn record(user: &str, state: &str, at: Option<&str>) -> ReviewRecord {
    ReviewRecord {
        user: user.to_string(),
        state: state.to_string(),
        submitted_at: at.map(|t| t.to_string()),
    }
}

#[test]
fn github_has_its_api_on_a_host_of_its_own() {
    assert_eq!(api_url("github.com", "/repos/o/r/pulls"), "https://api.github.com/repos/o/r/pulls");
    assert_eq!(api_url("git.example.org", "/x"), "https://git.example.org/api/v3/x");
}

#[test]
fn endpoints_have_their_paths() {
    let n = || "12".to_string();
    assert_eq!(Endpoint::Pulls.path("o/r"), "/repos/o/r/pulls");
    assert_eq!(Endpoint::OpenPulls.path("o/r"), "/repos/o/r/pulls?state=open");
    assert_eq!(Endpoint::Pull(n()).path("o/r"), "/repos/o/r/pulls/12");
    assert_eq!(Endpoint::Reviews(n()).path("o/r"), "/repos/o/r/pulls/12/reviews");
    assert_eq!(Endpoint::Merge(n()).path("o/r"), "/repos/o/r/pulls/12/merge");
    assert_eq!(Endpoint::Comments(n()).path("o/r"), "/repos/o/r/issues/12/comments");
    assert_eq!(
        Endpoint::CheckRuns("abc123".to_string()).path("o/r"),
        "/repos/o/r/commits/abc123/check-runs"
    );
    assert_eq!(
        Endpoint::Protection("main".to_string()).path("o/r"),
        "/repos/o/r/branches/main/protection"
    );
    assert_eq!(
        Endpoint::Merge(n()).url("github.com", "o/r"),
        "https://api.github.com/repos/o/r/pulls/12/merge"
    );
    assert_eq!(
        Endpoint::Pulls.url("ghe.local", "o/r"),
        "https://ghe.local/api/v3/repos/o/r/pulls"
    );
}

#[test]
fn head_names_the_owner_unless_the_branch_does() {
    assert_eq!(head_ref("owner/repo", "feature/x"), "owner:feature/x");
    assert_eq!(head_ref("owner/repo", "fork:feature/x"), "fork:feature/x");
    assert_eq!(head_ref("norepo", "b"), "norepo:b");
    assert_eq!(head_ref("a/b/c", "b"), "a:b");
}

#[test]
fn small_request_parts() {
    assert_eq!(bearer("SECRET-REDACTED"), "Bearer SECRET-REDACTED");
    assert_eq!(approval_body(None), "Approved");
    assert_eq!(approval_body(Some("ship it")), "ship it");
    assert_eq!(review_id_of(0), ReviewId::new("0".to_string()));
    assert_eq!(review_id_of(4711), ReviewId::new("4711".to_string()));
}

#[test]
fn refusals_become_the_error_of_the_request() {
    assert_eq!(
        refused(Request::MergeReview, "stale"),
        GarryError::MergeConflict("Failed to merge: stale".to_string())
    );
    assert_eq!(
        refused(Request::CreateReview, "no"),
        GarryError::VcsError("Failed to create PR: no".to_string())
    );
    assert_eq!(
        refused(Request::ApproveReview, ""),
        GarryError::VcsError("Failed to approve review: ".to_string())
    );
}

#[test]
fn a_request_for_changes_outweighs_approvals() {
    let both = vec![record("a", "APPROVED", None), record("b", "CHANGES_REQUESTED", None)];
    assert_eq!(review_state("open", &both), ReviewState::ChangesRequested);
    let approved = vec![record("c", "COMMENTED", None), record("a", "APPROVED", None)];
    assert_eq!(review_state("open", &approved), ReviewState::Approved);
    assert_eq!(review_state("open", &vec![]), ReviewState::Open);
    assert_eq!(review_state("open", &vec![record("c", "approved", None)]), ReviewState::Open);
    assert_eq!(review_state("closed", &approved), ReviewState::Closed);
    assert_eq!(review_state("merged", &approved), ReviewState::Open);
}

#[test]
fn approvals_carry_the_time_the_platform_wrote() {
    let fallback = Timestamp { secs: 1, nanos: 2 };
    let reviews = vec![
        record("early", "APPROVED", Some("2024-01-02T03:04:05Z")),
        record("critic", "CHANGES_REQUESTED", Some("2024-01-02T03:04:05Z")),
        record("offset", "APPROVED", Some("2012-12-12 12:12:12.5+01:00")),
        record("undated", "APPROVED", None),
        record("garbled", "APPROVED", Some("yesterday")),
    ];
    assert_eq!(
        approvals_at(&reviews, fallback),
        vec![
            Approval {
                reviewer: "early".to_string(),
                approved_at: Timestamp { secs: 1704164645, nanos: 0 }
            },
            Approval {
                reviewer: "offset".to_string(),
                approved_at: Timestamp { secs: 1355310732, nanos: 500_000_000 }
            },
            Approval { reviewer: "undated".to_string(), approved_at: fallback },
            Approval { reviewer: "garbled".to_string(), approved_at: fallback },
        ]
    );
}

#[test]
fn a_reading_is_put_together_from_the_answers() {
    let id = ReviewId::new("5".to_string());
    let reviews = vec![record("a", "APPROVED", Some("2024-01-02T03:04:05Z"))];
    let fallback = Timestamp { secs: 0, nanos: 0 };
    let reading =
        review_status_at(&id, "open", None, &reviews, CiStatus::Success, fallback);
    assert_eq!(reading.id, id);
    assert_eq!(reading.state, ReviewState::Approved);
    assert_eq!(reading.approvals.len(), 1);
    assert_eq!(reading.ci_status, CiStatus::Success);
    assert!(!reading.mergeable);
    assert!(reading.is_eligible());

    let now = review_status(&id, "open", Some(true), &vec![record("a", "APPROVED", None)], CiStatus::Running);
    assert!(now.mergeable);
    assert!(!now.is_eligible());
    assert!(now.approvals[0].approved_at.secs > 1_600_000_000);
}

#[test]
fn no_check_runs_mean_pending() {
    assert_eq!(ci_status(&vec![]), CiStatus::Pending);
}

#[test]
fn all_green_means_success() {
    let checks = vec![
        check("a", "completed", Some("success")),
        check("b", "completed", Some("neutral")),
        check("c", "completed", None),
        check("d", "waiting", None),
    ];
    assert_eq!(ci_status(&checks), CiStatus::Success);
}

#[test]
fn any_run_in_flight_means_running() {
    let checks = vec![check("a", "completed", Some("success")), check("b", "queued", None)];
    assert_eq!(ci_status(&checks), CiStatus::Running);
    let checks = vec![check("b", "in_progress", Some("failure"))];
    assert_eq!(ci_status(&checks), CiStatus::Running);
}

#[test]
fn failures_are_named_in_order_and_outweigh_running() {
    let checks = vec![
        check("unit", "completed", Some("failure")),
        check("build", "in_progress", None),
        check("slow", "completed", Some("timed_out")),
        check("ok", "completed", Some("success")),
    ];
    assert_eq!(ci_status(&checks), CiStatus::Failed(vec!["unit".to_string(), "slow".to_string()]));
}

#[test]
fn a_cancelled_run_outweighs_everything() {
    let checks = vec![
        check("unit", "completed", Some("failure")),
        check("stop", "completed", Some("cancelled")),
        check("build", "in_progress", None),
    ];
    assert_eq!(ci_status(&checks), CiStatus::Cancelled);
    // only a completed run counts as cancelled
    let checks = vec![check("stop", "queued", Some("cancelled"))];
    assert_eq!(ci_status(&checks), CiStatus::Running);
}

#[test]
fn protection_lets_only_the_bot_push() {
    let rules = protection_request("garry-bot");
    let checks = rules.required_status_checks.unwrap();
    assert!(checks.strict);
    assert!(checks.contexts.is_empty());
    assert!(!rules.enforce_admins);
    let reviews = rules.required_pull_request_reviews;
    assert!(reviews.dismissal_restrictions.is_none());
    assert!(reviews.dismiss_stale_reviews);
    assert!(!reviews.require_code_owner_reviews);
    assert_eq!(reviews.required_approving_review_count, 1);
    let restrictions = rules.restrictions.unwrap();
    assert_eq!(restrictions.users, vec!["garry-bot".to_string()]);
    assert!(restrictions.teams.is_empty());
    assert!(restrictions.apps.is_empty());
}

#[test]
fn an_approval_without_a_written_time_takes_the_fallback() {
    let written = Timestamp { secs: 10, nanos: 20 };
    let fallback = Timestamp { secs: 30, nanos: 40 };
    assert_eq!(
        approval_from("a", Some(written), fallback),
        Approval { reviewer: "a".to_string(), approved_at: written }
    );
    assert_eq!(
        approval_from("a", None, fallback),
        Approval { reviewer: "a".to_string(), approved_at: fallback }
    );
}
