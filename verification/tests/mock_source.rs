// The review source held in memory.

use garry::utils::error::GarryError;
use garry::bot::adapters::mock::MockVcsAdapter;
use garry::bot::queue::{QueueManager, QueueStatus, Sighting};
use garry::review::{CiStatus, ReviewId, ReviewState};

#[test]
fn reviews_are_numbered_from_one() {
    let mut source = MockVcsAdapter::new();
    let (first, url) = source.create_review("a", "t", "d").unwrap();
    let (second, _) = source.create_review("b", "t", "d").unwrap();
    assert_eq!(first.as_str(), "1");
    assert_eq!(second.as_str(), "2");
    assert_eq!(url, "https://mock-vcs.example.com/review/1");
    assert_eq!(source.list_pending_reviews().unwrap(), vec![first, second]);
    assert_eq!(source.review_name(), "Review");
}

#[test]
fn a_new_review_is_open_with_pending_ci() {
    let mut source = MockVcsAdapter::new();
    let (id, _) = source.create_review("a", "t", "d").unwrap();
    let status = source.get_review_status(&id).unwrap();
    assert_eq!(status.id, id);
    assert_eq!(status.state, ReviewState::Open);
    assert!(status.approvals.is_empty());
    assert_eq!(status.ci_status, CiStatus::Pending);
    assert!(status.mergeable);
    assert_eq!(source.get_ci_status(&id), Ok(CiStatus::Pending));
}

#[test]
fn unknown_reviews_are_not_found_but_have_pending_ci() {
    let mut source = MockVcsAdapter::new();
    let ghost = ReviewId::new("41".to_string());
    assert_eq!(
        source.get_review_status(&ghost),
        Err(GarryError::ReviewNotFound("41".to_string()))
    );
    assert_eq!(source.get_ci_status(&ghost), Ok(CiStatus::Pending));
    assert_eq!(source.merge_review(&ghost), Ok(()));
    assert_eq!(source.approve_review(&ghost, None), Ok(()));
    assert!(source.list_pending_reviews().unwrap().is_empty());
    assert_eq!(source.setup_repository_protection("main", "garry-bot"), Ok(()));
}

#[test]
fn approval_and_merge_change_one_review_only() {
    let mut source = MockVcsAdapter::new();
    let (a, _) = source.create_review("a", "t", "d").unwrap();
    let (b, _) = source.create_review("b", "t", "d").unwrap();
    source.approve_review(&a, Some("fine")).unwrap();
    assert_eq!(source.get_review_status(&a).unwrap().state, ReviewState::Approved);
    assert_eq!(source.get_review_status(&b).unwrap().state, ReviewState::Open);
    source.merge_review(&b).unwrap();
    assert_eq!(source.get_review_status(&a).unwrap().state, ReviewState::Approved);
    assert_eq!(source.get_review_status(&b).unwrap().state, ReviewState::Merged);
    // a merged review is still listed
    assert_eq!(source.list_pending_reviews().unwrap().len(), 2);
}

#[test]
fn discovery_over_the_mock_queues_nothing_while_ci_is_pending() {
    let mut source = MockVcsAdapter::new();
    let (a, _) = source.create_review("a", "t", "d").unwrap();
    source.approve_review(&a, None).unwrap();
    let mut qm = QueueManager::new();
    let listed = source.list_pending_reviews().unwrap();
    let sightings: Vec<Sighting> = qm
        .unqueued(&listed)
        .into_iter()
        .map(|id| {
            let status = source.get_review_status(&id).ok();
            Sighting { id, status }
        })
        .collect();
    qm.discover_and_queue_reviews(&sightings).unwrap();
    assert!(qm.get_queue().is_empty());

    // once CI is green the same review is queued
    let mut green = source.get_review_status(&a).unwrap();
    green.ci_status = CiStatus::Success;
    qm.discover_and_queue_reviews(&vec![Sighting { id: a.clone(), status: Some(green) }]).unwrap();
    assert_eq!(qm.get_queue().len(), 1);
    assert_eq!(qm.get_queue()[0].status, QueueStatus::Pending);
}
