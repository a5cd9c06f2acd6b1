//! Reviews as the scheduler sees them: identifiers, approval state and CI state.

use crate::utils::text::clone_texts;
use vstd::prelude::*;

verus! {

/// Platform-assigned identifier of a review. Two identifiers name the same
/// review exactly when their texts are equal.
#[derive(Debug, PartialEq, Eq, Hash)]
pub struct ReviewId(pub String);

impl View for ReviewId {
    type V = Seq<char>;

    open spec fn view(&self) -> Seq<char> {
        self.0@
    }
}

impl DeepView for ReviewId {
    type V = Seq<char>;

    open spec fn deep_view(&self) -> Seq<char> {
        self@
    }
}

impl Clone for ReviewId {
    fn clone(&self) -> (r: Self)
        ensures
            r@ == self@,
    {
        ReviewId(self.0.clone())
    }
}

impl ReviewId {
    /// Wraps the platform's text.
    pub fn new(id: String) -> (r: Self)
        ensures
            r@ == id@,
    {
        Self(id)
    }

    /// The identifier's text.
    pub fn as_str(&self) -> (s: &str)
        ensures
            s@ == self@,
    {
        self.0.as_str()
    }

    /// The identifier's text, as the platform shows it.
    pub fn to_string(&self) -> (s: String)
        ensures
            s@ == self@,
    {
        self.0.clone()
    }

    /// Whether both name the same review.
    pub fn same(&self, other: &ReviewId) -> (b: bool)
        ensures
            b == (self@ == other@),
    {
        self.0 == other.0
    }
}

/// Where a review stands on the platform.
#[derive(Debug, Clone, Copy, PartialEq, Eq, Structural)]
pub enum ReviewState {
    Open,
    Approved,
    ChangesRequested,
    Merged,
    Closed,
}

/// An instant: whole seconds since 1970-01-01 00:00:00 UTC, leap seconds not
/// counted, and the nanoseconds past that second (a thousand million and more
/// within a leap second).
#[derive(Debug, Clone, Copy, PartialEq, Eq, Structural)]
pub struct Timestamp {
    pub secs: i64,
    pub nanos: u32,
}

/// What CI says of a review's latest commit.
#[derive(Debug, PartialEq, Eq)]
pub enum CiStatus {
    Pending,
    Running,
    Success,
    /// The names of the checks that failed.
    Failed(Vec<String>),
    Cancelled,
}

/// `CiStatus` with its check names as texts.
pub enum CiStatusView {
    Pending,
    Running,
    Success,
    Failed(Seq<Seq<char>>),
    Cancelled,
}

impl View for CiStatus {
    type V = CiStatusView;

    open spec fn view(&self) -> CiStatusView {
        match self {
            CiStatus::Pending => CiStatusView::Pending,
            CiStatus::Running => CiStatusView::Running,
            CiStatus::Success => CiStatusView::Success,
            CiStatus::Failed(checks) => CiStatusView::Failed(checks.deep_view()),
            CiStatus::Cancelled => CiStatusView::Cancelled,
        }
    }
}

impl CiStatusView {
    /// No later query can give another answer for the same commit: the run
    /// succeeded, failed or was cancelled.
    pub open spec fn is_terminal(self) -> bool {
        self is Success || self is Failed || self is Cancelled
    }
}

impl Clone for CiStatus {
    fn clone(&self) -> (r: Self)
        ensures
            r@ == self@,
    {
        match self {
            CiStatus::Pending => CiStatus::Pending,
            CiStatus::Running => CiStatus::Running,
            CiStatus::Success => CiStatus::Success,
            CiStatus::Failed(checks) => CiStatus::Failed(clone_texts(checks)),
            CiStatus::Cancelled => CiStatus::Cancelled,
        }
    }
}

impl CiStatus {
    /// Whether the run has ended: succeeded, failed or cancelled.
    pub fn is_terminal(&self) -> (b: bool)
        ensures
            b == self@.is_terminal(),
    {
        match self {
            CiStatus::Success | CiStatus::Failed(_) | CiStatus::Cancelled => true,
            _ => false,
        }
    }

    /// Whether every check passed.
    pub fn is_success(&self) -> (b: bool)
        ensures
            b == (self@ is Success),
    {
        match self {
            CiStatus::Success => true,
            _ => false,
        }
    }
}

/// A recorded endorsement of a review: who gave it, and when.
#[derive(Debug, PartialEq, Eq)]
pub struct Approval {
    pub reviewer: String,
    pub approved_at: Timestamp,
}

/// `Approval` with the approver's name as text.
pub struct ApprovalView {
    pub reviewer: Seq<char>,
    pub approved_at: Timestamp,
}

impl View for Approval {
    type V = ApprovalView;

    open spec fn view(&self) -> ApprovalView {
        ApprovalView { reviewer: self.reviewer@, approved_at: self.approved_at }
    }
}

impl DeepView for Approval {
    type V = ApprovalView;

    open spec fn deep_view(&self) -> ApprovalView {
        self@
    }
}

impl Clone for Approval {
    fn clone(&self) -> (r: Self)
        ensures
            r@ == self@,
    {
        Approval { reviewer: self.reviewer.clone(), approved_at: self.approved_at }
    }
}

/// One reading of a review from the review source.
#[derive(Debug, PartialEq, Eq)]
pub struct ReviewStatus {
    pub id: ReviewId,
    pub state: ReviewState,
    pub approvals: Vec<Approval>,
    pub ci_status: CiStatus,
    pub mergeable: bool,
}

/// `ReviewStatus` over texts and sequences.
pub struct ReviewStatusView {
    pub id: Seq<char>,
    pub state: ReviewState,
    pub approvals: Seq<ApprovalView>,
    pub ci_status: CiStatusView,
    pub mergeable: bool,
}

impl ReviewStatusView {
    /// The review may enter the merge queue: it is approved and its CI is green.
    pub open spec fn is_eligible(self) -> bool {
        self.state == ReviewState::Approved && self.ci_status is Success
    }
}

impl View for ReviewStatus {
    type V = ReviewStatusView;

    open spec fn view(&self) -> ReviewStatusView {
        ReviewStatusView {
            id: self.id@,
            state: self.state,
            approvals: self.approvals.deep_view(),
            ci_status: self.ci_status@,
            mergeable: self.mergeable,
        }
    }
}

impl DeepView for ReviewStatus {
    type V = ReviewStatusView;

    open spec fn deep_view(&self) -> ReviewStatusView {
        self@
    }
}

impl Clone for ReviewStatus {
    fn clone(&self) -> (r: Self)
        ensures
            r@ == self@,
    {
        let mut approvals: Vec<Approval> = Vec::new();
        let mut i: usize = 0;
        while i < self.approvals.len()
            invariant
                i <= self.approvals.len(),
                approvals@.len() == i,
                forall|k: int| 0 <= k < i ==> approvals@[k]@ == self.approvals@[k]@,
            decreases self.approvals.len() - i,
        {
            approvals.push(self.approvals[i].clone());
            i += 1;
        }
        assert(approvals.deep_view() =~= self.approvals.deep_view());
        ReviewStatus {
            id: self.id.clone(),
            state: self.state,
            approvals,
            ci_status: self.ci_status.clone(),
            mergeable: self.mergeable,
        }
    }
}

impl ReviewStatus {
    /// Whether the review may enter the merge queue.
    pub fn is_eligible(&self) -> (b: bool)
        ensures
            b == self@.is_eligible(),
    {
        self.state == ReviewState::Approved && self.ci_status.is_success()
    }
}

} // verus!
