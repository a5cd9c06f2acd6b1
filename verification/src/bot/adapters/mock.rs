//! A review source held in memory, for trying the scheduler without a
//! platform.

use crate::utils::error::{GarryError, GarryErrorView};
use crate::review::{
    ApprovalView, CiStatus, CiStatusView, ReviewId, ReviewState, ReviewStatus, ReviewStatusView,
};
use crate::utils::text::{concat, decimal, decimal_string};
use vstd::prelude::*;

verus! {

/// Some review of `store` has identifier `id`.
pub open spec fn known(store: Seq<ReviewStatusView>, id: Seq<char>) -> bool {
    exists|i: int| 0 <= i < store.len() && (#[trigger] store[i]).id == id
}

/// No two reviews of `store` share an identifier.
pub open spec fn distinct(store: Seq<ReviewStatusView>) -> bool {
    forall|i: int, j: int| 0 <= i < j < store.len() ==> (#[trigger] store[i]).id != (#[trigger] store[j]).id
}

/// The review that `create_review` makes under `id`: open, with no approval,
/// CI pending, and mergeable.
pub open spec fn created(id: Seq<char>) -> ReviewStatusView {
    ReviewStatusView {
        id,
        state: ReviewState::Open,
        approvals: Seq::<ApprovalView>::empty(),
        ci_status: CiStatusView::Pending,
        mergeable: true,
    }
}

/// `store` with review `s` put under its identifier: in place of the review
/// that had it, or behind all others.
pub open spec fn stored(store: Seq<ReviewStatusView>, s: ReviewStatusView) -> Seq<ReviewStatusView> {
    if known(store, s.id) {
        Seq::new(store.len(), |i: int| if store[i].id == s.id { s } else { store[i] })
    } else {
        store.push(s)
    }
}

/// `store` with review `id`, where it is known, in state `state`.
pub open spec fn moved(store: Seq<ReviewStatusView>, id: Seq<char>, state: ReviewState) -> Seq<
    ReviewStatusView,
> {
    Seq::new(
        store.len(),
        |i: int| if store[i].id == id { ReviewStatusView { state, ..store[i] } } else { store[i] },
    )
}

/// The identifiers of the reviews of `store`, in their order.
pub open spec fn ids_of(store: Seq<ReviewStatusView>) -> Seq<Seq<char>> {
    Seq::new(store.len(), |i: int| store[i].id)
}

/// The address at which the mock shows review `id`.
pub open spec fn address_of(id: Seq<char>) -> Seq<char> {
    "https://mock-vcs.example.com/review/"@ + id
}

/// A review source held in memory. Reviews are numbered from 1 in the order
/// they are created.
pub struct MockVcsAdapter {
    reviews: Vec<ReviewStatus>,
    next_id: u64,
}

impl View for MockVcsAdapter {
    type V = Seq<ReviewStatusView>;

    closed spec fn view(&self) -> Seq<ReviewStatusView> {
        self.reviews.deep_view()
    }
}

impl MockVcsAdapter {
    #[verifier::type_invariant]
    spec fn inv(self) -> bool {
        distinct(self@)
    }

    /// The number that the next review gets.
    pub closed spec fn next_number(&self) -> u64 {
        self.next_id
    }

    /// The number that the next review gets.
    pub fn next_review_number(&self) -> (n: u64)
        ensures
            n == self.next_number(),
    {
        self.next_id
    }

    /// A source without reviews.
    pub fn new() -> (r: Self)
        ensures
            r@ == Seq::<ReviewStatusView>::empty(),
            r.next_number() == 1,
    {
        let reviews: Vec<ReviewStatus> = Vec::new();
        MockVcsAdapter { reviews, next_id: 1 }
    }

    fn take(&mut self) -> (reviews: Vec<ReviewStatus>)
        ensures
            reviews == old(self).reviews,
            final(self).reviews@ == Seq::<ReviewStatus>::empty(),
            final(self).next_id == old(self).next_id,
    {
        let mut reviews: Vec<ReviewStatus> = Vec::new();
        core::mem::swap(&mut self.reviews, &mut reviews);
        reviews
    }

    fn find(&self, review_id: &ReviewId) -> (r: Option<usize>)
        ensures
            match r {
                Some(i) => i < self@.len() && self@[i as int].id == review_id@ && self@[i as int]
                    == self.reviews@[i as int]@,
                None => !known(self@, review_id@),
            },
    {
        let mut i: usize = 0;
        while i < self.reviews.len()
            invariant
                i <= self.reviews.len(),
                forall|k: int| 0 <= k < i ==> (#[trigger] self@[k]).id != review_id@,
            decreases self.reviews.len() - i,
        {
            if self.reviews[i].id.same(review_id) {
                return Some(i);
            }
            i += 1;
        }
        None
    }

    fn set_state(&mut self, review_id: &ReviewId, state: ReviewState)
        ensures
            final(self)@ == moved(old(self)@, review_id@, state),
            final(self).next_number() == old(self).next_number(),
    {
        proof {
            use_type_invariant(&*self);
        }
        match self.find(review_id) {
            Some(i) => {
                let mut reviews = self.take();
                let ghost before = reviews.deep_view();
                let mut changed = reviews[i].clone();
                changed.state = state;
                reviews.set(i, changed);
                assert(reviews.deep_view() =~= moved(before, review_id@, state));
                self.reviews = reviews;
            },
            None => {},
        }
    }

    /// Opens a review under the next number and says where it can be seen.
    /// The branch, title and description are not kept. Numbers end at
    /// `u64::MAX`; no review can be opened once that number is next.
    pub fn create_review(&mut self, branch: &str, title: &str, description: &str) -> (r: Result<
        (ReviewId, String),
        GarryError,
    >)
        requires
            old(self).next_number() < u64::MAX,
        ensures
            r is Ok,
            r->Ok_0.0@ == decimal(old(self).next_number() as nat),
            r->Ok_0.1@ == address_of(r->Ok_0.0@),
            final(self)@ == stored(old(self)@, created(r->Ok_0.0@)),
            final(self).next_number() == old(self).next_number() + 1,
    {
        proof {
            use_type_invariant(&*self);
        }
        let id = ReviewId::new(decimal_string(self.next_id as u128));
        let status = ReviewStatus {
            id: id.clone(),
            state: ReviewState::Open,
            approvals: Vec::new(),
            ci_status: CiStatus::Pending,
            mergeable: true,
        };
        assert(status.approvals.deep_view() =~= Seq::<ApprovalView>::empty());
        let at = self.find(&id);
        let mut reviews = self.take();
        let ghost before = reviews.deep_view();
        match at {
            Some(i) => {
                reviews.set(i, status);
                assert(reviews.deep_view() =~= stored(before, created(id@)));
            },
            None => {
                reviews.push(status);
                assert forall|a: int, b: int| 0 <= a < b < reviews.deep_view().len() implies (
                #[trigger] reviews.deep_view()[a]).id != (#[trigger] reviews.deep_view()[b]).id by {
                    if b == before.len() {
                        assert(reviews.deep_view()[a] == before[a]);
                    } else {
                        assert(reviews.deep_view()[a] == before[a]);
                        assert(reviews.deep_view()[b] == before[b]);
                    }
                }
            },
        }
        self.reviews = reviews;
        self.next_id = self.next_id + 1;
        let url = concat("https://mock-vcs.example.com/review/", id.as_str());
        Ok((id, url))
    }

    /// The review as it stands, or `ReviewNotFound` with its identifier.
    pub fn get_review_status(&self, review_id: &ReviewId) -> (r: Result<ReviewStatus, GarryError>)
        ensures
            match r {
                Ok(s) => exists|i: int| 0 <= i < self@.len() && #[trigger] self@[i] == s@ && s@.id == review_id@,
                Err(e) => !known(self@, review_id@) && e@ == GarryErrorView::ReviewNotFound(
                    review_id@,
                ),
            },
    {
        match self.find(review_id) {
            Some(i) => Ok(self.reviews[i].clone()),
            None => Err(GarryError::ReviewNotFound(review_id.to_string())),
        }
    }

    /// Marks the review merged. Merging an unknown review does nothing and
    /// is no error.
    pub fn merge_review(&mut self, review_id: &ReviewId) -> (r: Result<(), GarryError>)
        ensures
            r is Ok,
            final(self)@ == moved(old(self)@, review_id@, ReviewState::Merged),
            final(self).next_number() == old(self).next_number(),
    {
        self.set_state(review_id, ReviewState::Merged);
        Ok(())
    }

    /// Takes a comment and drops it.
    pub fn post_comment(&self, review_id: &ReviewId, message: &str) -> (r: Result<(), GarryError>)
        ensures
            r is Ok,
    {
        Ok(())
    }

    /// Marks the review approved. Approving an unknown review does nothing
    /// and is no error. The message is not kept.
    pub fn approve_review(&mut self, review_id: &ReviewId, message: Option<&str>) -> (r: Result<
        (),
        GarryError,
    >)
        ensures
            r is Ok,
            final(self)@ == moved(old(self)@, review_id@, ReviewState::Approved),
            final(self).next_number() == old(self).next_number(),
    {
        self.set_state(review_id, ReviewState::Approved);
        Ok(())
    }

    /// The identifiers of all reviews, whatever their state, in the order
    /// they were created.
    pub fn list_pending_reviews(&self) -> (r: Result<Vec<ReviewId>, GarryError>)
        ensures
            r is Ok,
            r->Ok_0.deep_view() == ids_of(self@),
    {
        let mut ids: Vec<ReviewId> = Vec::new();
        let mut i: usize = 0;
        while i < self.reviews.len()
            invariant
                i <= self.reviews.len(),
                ids@.len() == i,
                forall|k: int| 0 <= k < i ==> ids@[k]@ == self.reviews@[k]@.id,
            decreases self.reviews.len() - i,
        {
            ids.push(self.reviews[i].id.clone());
            i += 1;
        }
        Ok(ids)
    }

    /// The CI status of the review; pending for an unknown review.
    pub fn get_ci_status(&self, review_id: &ReviewId) -> (r: Result<CiStatus, GarryError>)
        ensures
            r is Ok,
            known(self@, review_id@) ==> exists|i: int|
                0 <= i < self@.len() && (#[trigger] self@[i]).id == review_id@ && self@[i].ci_status
                    == r->Ok_0@,
            !known(self@, review_id@) ==> r->Ok_0@ is Pending,
    {
        match self.find(review_id) {
            Some(i) => Ok(self.reviews[i].ci_status.clone()),
            None => Ok(CiStatus::Pending),
        }
    }

    /// Does nothing: the mock has no branches to protect.
    pub fn setup_repository_protection(&self, main_branch: &str, bot_user: &str) -> (r: Result<
        (),
        GarryError,
    >)
        ensures
            r is Ok,
    {
        Ok(())
    }

    /// What the mock calls a review.
    pub fn review_name(&self) -> (name: &'static str)
        ensures
            name@ == "Review"@,
    {
        "Review"
    }
}

} // verus!
