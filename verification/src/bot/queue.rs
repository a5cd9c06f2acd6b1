//! The merge queue: entries in arrival order, of which only the first is
//! ever worked on, and the rules by which that first entry moves on.

use crate::utils::error::{GarryError, GarryErrorView};
use crate::bot::notifier::{failure_notice, merge_failed_prefix, NotificationType, NotificationView};
use crate::utils::clock::now;
use crate::review::{CiStatus, CiStatusView, ReviewId, ReviewState, ReviewStatus, ReviewStatusView, Timestamp};
use crate::utils::text::{clone_texts, concat, concat3, debug_format, debug_list};
use std::collections::VecDeque;
use vstd::prelude::*;

verus! {

/// How far a queued review has come.
#[derive(Debug, PartialEq, Eq)]
pub enum QueueStatus {
    /// Waiting for its turn.
    Pending,
    /// At the head, waiting for CI to end.
    Testing,
    /// At the head with green CI, about to be merged.
    Merging,
    /// Given up, for the reason held.
    Failed(String),
}

/// `QueueStatus` with the reason as text.
pub enum QueueStatusView {
    Pending,
    Testing,
    Merging,
    Failed(Seq<char>),
}

impl View for QueueStatus {
    type V = QueueStatusView;

    open spec fn view(&self) -> QueueStatusView {
        match self {
            QueueStatus::Pending => QueueStatusView::Pending,
            QueueStatus::Testing => QueueStatusView::Testing,
            QueueStatus::Merging => QueueStatusView::Merging,
            QueueStatus::Failed(reason) => QueueStatusView::Failed(reason@),
        }
    }
}

impl Clone for QueueStatus {
    fn clone(&self) -> (r: Self)
        ensures
            r@ == self@,
    {
        match self {
            QueueStatus::Pending => QueueStatus::Pending,
            QueueStatus::Testing => QueueStatus::Testing,
            QueueStatus::Merging => QueueStatus::Merging,
            QueueStatus::Failed(reason) => QueueStatus::Failed(reason.clone()),
        }
    }
}

/// One review in the merge queue.
#[derive(Debug, PartialEq, Eq)]
pub struct QueueEntry {
    pub review_id: ReviewId,
    pub branch: String,
    pub author: String,
    pub added_at: Timestamp,
    pub status: QueueStatus,
}

/// `QueueEntry` over texts.
pub struct QueueEntryView {
    pub review_id: Seq<char>,
    pub branch: Seq<char>,
    pub author: Seq<char>,
    pub added_at: Timestamp,
    pub status: QueueStatusView,
}

impl QueueEntryView {
    /// The same entry in another status.
    pub open spec fn with_status(self, status: QueueStatusView) -> QueueEntryView {
        QueueEntryView { status, ..self }
    }
}

impl View for QueueEntry {
    type V = QueueEntryView;

    open spec fn view(&self) -> QueueEntryView {
        QueueEntryView {
            review_id: self.review_id@,
            branch: self.branch@,
            author: self.author@,
            added_at: self.added_at,
            status: self.status@,
        }
    }
}

impl Clone for QueueEntry {
    fn clone(&self) -> (r: Self)
        ensures
            r@ == self@,
    {
        QueueEntry {
            review_id: self.review_id.clone(),
            branch: self.branch.clone(),
            author: self.author.clone(),
            added_at: self.added_at,
            status: self.status.clone(),
        }
    }
}

/// What the review source answered to the one request of this cycle.
#[derive(Debug, PartialEq, Eq)]
pub enum TickEvent {
    /// Nothing was asked.
    Idle,
    /// The answer to a CI query for the head entry.
    Ci(Result<CiStatus, GarryError>),
    /// The outcome of merging the head entry.
    Merge(Result<(), GarryError>),
}

/// `TickEvent` over texts.
pub enum TickEventView {
    Idle,
    Ci(Result<CiStatusView, GarryErrorView>),
    Merge(Result<(), GarryErrorView>),
}

/// A CI answer over texts.
pub open spec fn ci_answer_view(answer: Result<CiStatus, GarryError>) -> Result<
    CiStatusView,
    GarryErrorView,
> {
    match answer {
        Ok(status) => Ok(status@),
        Err(e) => Err(e@),
    }
}

/// A merge outcome over texts.
pub open spec fn merge_outcome_view(outcome: Result<(), GarryError>) -> Result<
    (),
    GarryErrorView,
> {
    match outcome {
        Ok(_) => Ok(()),
        Err(e) => Err(e@),
    }
}

impl View for TickEvent {
    type V = TickEventView;

    open spec fn view(&self) -> TickEventView {
        match self {
            TickEvent::Idle => TickEventView::Idle,
            TickEvent::Ci(answer) => TickEventView::Ci(ci_answer_view(*answer)),
            TickEvent::Merge(outcome) => TickEventView::Merge(merge_outcome_view(*outcome)),
        }
    }
}

/// What becomes of the head entry in one cycle.
#[derive(Debug, PartialEq, Eq)]
pub enum Transition {
    /// It stays at the head, in the status held.
    Stay(QueueStatus),
    /// It was merged and leaves the queue.
    Merged,
    /// It failed for the reason held and leaves the queue; its author is
    /// told in the words of the notification held.
    Failed(String, NotificationType),
    /// Its review no longer exists; it leaves the queue and nobody is told.
    Vanished,
}

/// `Transition` over texts.
pub enum TransitionView {
    Stay(QueueStatusView),
    Merged,
    Failed(Seq<char>, NotificationView),
    Vanished,
}

impl View for Transition {
    type V = TransitionView;

    open spec fn view(&self) -> TransitionView {
        match self {
            Transition::Stay(status) => TransitionView::Stay(status@),
            Transition::Merged => TransitionView::Merged,
            Transition::Failed(reason, notice) => TransitionView::Failed(reason@, notice@),
            Transition::Vanished => TransitionView::Vanished,
        }
    }
}

/// The reason recorded when CI was cancelled.
pub open spec fn cancelled_reason() -> Seq<char> {
    "cancelled"@
}

/// What a CI answer means for an entry under test. Green CI moves it on to
/// merging; failed or cancelled CI fails it; CI still under way, and a query
/// that could not be answered, leave it under test; a review that no longer
/// exists takes its entry with it.
pub open spec fn judge_ci(answer: Result<CiStatusView, GarryErrorView>) -> TransitionView {
    match answer {
        Ok(CiStatusView::Success) => TransitionView::Stay(QueueStatusView::Merging),
        Ok(CiStatusView::Failed(checks)) => TransitionView::Failed(
            "CI failed: "@ + debug_list(checks),
            NotificationView::CiFailed(checks),
        ),
        Ok(CiStatusView::Cancelled) => TransitionView::Failed(
            cancelled_reason(),
            failure_notice(cancelled_reason()),
        ),
        Ok(_) => TransitionView::Stay(QueueStatusView::Testing),
        Err(e) => if e is ReviewNotFound {
            TransitionView::Vanished
        } else {
            TransitionView::Stay(QueueStatusView::Testing)
        },
    }
}

/// What the outcome of a merge means for an entry being merged. A merge that
/// could not be attempted for want of a connection is tried again next cycle;
/// a review that no longer exists takes its entry with it; any other refusal
/// fails the entry with the error's text.
pub open spec fn judge_merge(outcome: Result<(), GarryErrorView>) -> TransitionView {
    match outcome {
        Ok(_) => TransitionView::Merged,
        Err(e) => if e is ReviewNotFound {
            TransitionView::Vanished
        } else if e.is_transport() {
            TransitionView::Stay(QueueStatusView::Merging)
        } else {
            TransitionView::Failed(
                merge_failed_prefix() + e.text(),
                NotificationView::MergeConflict(e.text()),
            )
        },
    }
}

/// The scheduler's transition table for the head entry. A pending entry
/// enters testing, whatever the event: the CI answer of the cycle in which
/// testing begins is not judged, the next one is. An entry under test is
/// judged by the CI answer, one being merged by the outcome of the merge;
/// an event that does not answer what the status asks for leaves the entry
/// as it is. A failed entry leaves whatever the event.
pub open spec fn step(status: QueueStatusView, event: TickEventView) -> TransitionView {
    match status {
        QueueStatusView::Pending => TransitionView::Stay(QueueStatusView::Testing),
        QueueStatusView::Testing => match event {
            TickEventView::Ci(answer) => judge_ci(answer),
            _ => TransitionView::Stay(QueueStatusView::Testing),
        },
        QueueStatusView::Merging => match event {
            TickEventView::Merge(outcome) => judge_merge(outcome),
            _ => TransitionView::Stay(QueueStatusView::Merging),
        },
        QueueStatusView::Failed(reason) => TransitionView::Failed(reason, failure_notice(reason)),
    }
}

/// The transition of an entry whose CI failed in `checks`, with `listed` as
/// the way the checks are written in its reason.
pub fn ci_failure(checks: &Vec<String>, listed: &str) -> (t: Transition)
    ensures
        t@ == TransitionView::Failed(
            "CI failed: "@ + listed@,
            NotificationView::CiFailed(checks.deep_view()),
        ),
{
    Transition::Failed(concat("CI failed: ", listed), NotificationType::CiFailed(clone_texts(checks)))
}

fn judge_ci_answer(answer: &Result<CiStatus, GarryError>) -> (t: Transition)
    ensures
        t@ == judge_ci(ci_answer_view(*answer)),
{
    match answer {
        Ok(CiStatus::Success) => Transition::Stay(QueueStatus::Merging),
        Ok(CiStatus::Failed(checks)) => {
            let listed = debug_format(checks);
            ci_failure(checks, listed.as_str())
        },
        Ok(CiStatus::Cancelled) => Transition::Failed(
            "cancelled".to_owned(),
            NotificationType::for_failure("cancelled"),
        ),
        Ok(_) => Transition::Stay(QueueStatus::Testing),
        Err(e) => if e.is_not_found() {
            Transition::Vanished
        } else {
            Transition::Stay(QueueStatus::Testing)
        },
    }
}

fn judge_merge_outcome(outcome: &Result<(), GarryError>) -> (t: Transition)
    ensures
        t@ == judge_merge(merge_outcome_view(*outcome)),
{
    match outcome {
        Ok(_) => Transition::Merged,
        Err(e) => if e.is_not_found() {
            Transition::Vanished
        } else if e.is_transport() {
            Transition::Stay(QueueStatus::Merging)
        } else {
            let text = e.to_string();
            Transition::Failed(
                concat("Merge failed: ", text.as_str()),
                NotificationType::MergeConflict(text),
            )
        },
    }
}

impl QueueStatus {
    /// What becomes of a head entry in this status when `event` is what the
    /// review source answered.
    pub fn advance(&self, event: &TickEvent) -> (t: Transition)
        ensures
            t@ == step(self@, event@),
    {
        match self {
            QueueStatus::Pending => Transition::Stay(QueueStatus::Testing),
            QueueStatus::Testing => match event {
                TickEvent::Ci(answer) => judge_ci_answer(answer),
                _ => Transition::Stay(QueueStatus::Testing),
            },
            QueueStatus::Merging => match event {
                TickEvent::Merge(outcome) => judge_merge_outcome(outcome),
                _ => Transition::Stay(QueueStatus::Merging),
            },
            QueueStatus::Failed(reason) => Transition::Failed(
                reason.clone(),
                NotificationType::for_failure(reason.as_str()),
            ),
        }
    }
}

/// What the driver has to ask of the review source before a cycle's tick.
#[derive(Debug, PartialEq, Eq)]
pub enum TickAction {
    /// Nothing: the queue is empty, or its head has failed and only leaves.
    Nothing,
    /// The CI status of this review, once.
    CheckCi(ReviewId),
    /// To merge this review.
    Merge(ReviewId),
}

/// `TickAction` over texts.
pub enum TickActionView {
    Nothing,
    CheckCi(Seq<char>),
    Merge(Seq<char>),
}

impl View for TickAction {
    type V = TickActionView;

    open spec fn view(&self) -> TickActionView {
        match self {
            TickAction::Nothing => TickActionView::Nothing,
            TickAction::CheckCi(id) => TickActionView::CheckCi(id@),
            TickAction::Merge(id) => TickActionView::Merge(id@),
        }
    }
}

/// What one tick did: the entry that left the queue, if one did, and what to
/// tell its author.
#[derive(Debug, PartialEq, Eq)]
pub struct TickReport {
    /// The entry that left, in the status it left with.
    pub removed: Option<QueueEntry>,
    /// The comment owed to the author of the entry that left.
    pub notification: Option<NotificationType>,
}

/// `TickReport` over texts.
pub struct TickReportView {
    pub removed: Option<QueueEntryView>,
    pub notification: Option<NotificationView>,
}

impl View for TickReport {
    type V = TickReportView;

    open spec fn view(&self) -> TickReportView {
        TickReportView {
            removed: match self.removed {
                Some(e) => Some(e@),
                None => None,
            },
            notification: match self.notification {
                Some(n) => Some(n@),
                None => None,
            },
        }
    }
}

/// One open review as discovery saw it: its identifier, and its status where
/// the review source gave one.
#[derive(Debug, PartialEq, Eq)]
pub struct Sighting {
    pub id: ReviewId,
    pub status: Option<ReviewStatus>,
}

/// `Sighting` over texts.
pub struct SightingView {
    pub id: Seq<char>,
    pub status: Option<ReviewStatusView>,
}

impl View for Sighting {
    type V = SightingView;

    open spec fn view(&self) -> SightingView {
        SightingView {
            id: self.id@,
            status: match self.status {
                Some(s) => Some(s@),
                None => None,
            },
        }
    }
}

impl DeepView for Sighting {
    type V = SightingView;

    open spec fn deep_view(&self) -> SightingView {
        self@
    }
}

/// The entries of a queue over texts.
pub open spec fn entries_view(entries: Seq<QueueEntry>) -> Seq<QueueEntryView> {
    entries.map_values(|e: QueueEntry| e@)
}

/// Some entry of `q` is for review `id`.
pub open spec fn holds(q: Seq<QueueEntryView>, id: Seq<char>) -> bool {
    exists|i: int| 0 <= i < q.len() && (#[trigger] q[i]).review_id == id
}

/// No review has two entries.
pub open spec fn distinct_ids(q: Seq<QueueEntryView>) -> bool {
    forall|i: int, j: int|
        0 <= i < j < q.len() ==> (#[trigger] q[i]).review_id != (#[trigger] q[j]).review_id
}

/// Only the head entry may be anything but pending.
pub open spec fn single_lane(q: Seq<QueueEntryView>) -> bool {
    forall|i: int| 1 <= i < q.len() ==> (#[trigger] q[i]).status is Pending
}

/// What holds of the queue between any two operations.
pub open spec fn well_formed(q: Seq<QueueEntryView>) -> bool {
    distinct_ids(q) && single_lane(q)
}

/// No entry is failed.
pub open spec fn none_failed(q: Seq<QueueEntryView>) -> bool {
    forall|i: int| 0 <= i < q.len() ==> !((#[trigger] q[i]).status is Failed)
}

/// The entry made for a review on admission.
pub open spec fn fresh_entry(id: Seq<char>, at: Timestamp) -> QueueEntryView {
    QueueEntryView {
        review_id: id,
        branch: "unknown"@,
        author: "unknown"@,
        added_at: at,
        status: QueueStatusView::Pending,
    }
}

/// Whether a review in this status may be queued, and the error if not: one
/// that is not approved is refused before its CI is looked at.
pub open spec fn admission(id: Seq<char>, status: ReviewStatusView) -> Result<
    (),
    GarryErrorView,
> {
    if status.state != ReviewState::Approved {
        Err(GarryErrorView::VcsError("Review "@ + id + " is not approved"@))
    } else if !(status.ci_status is Success) {
        Err(GarryErrorView::CiFailed(seq!["CI checks must pass before adding to queue"@]))
    } else {
        Ok(())
    }
}

/// The queue after a request to add review `id`, read as `status`, at time
/// `at`: one more entry at the tail where the review is admitted and not yet
/// queued, the same queue otherwise.
pub open spec fn enqueue(
    q: Seq<QueueEntryView>,
    id: Seq<char>,
    status: ReviewStatusView,
    at: Timestamp,
) -> Seq<QueueEntryView> {
    if admission(id, status) is Ok && !holds(q, id) {
        q.push(fresh_entry(id, at))
    } else {
        q
    }
}

/// The queue after discovery has looked at one sighting.
pub open spec fn offer(q: Seq<QueueEntryView>, s: SightingView, at: Timestamp) -> Seq<
    QueueEntryView,
> {
    match s.status {
        Some(status) => enqueue(q, s.id, status, at),
        None => q,
    }
}

/// The queue after discovery has looked at the sightings one by one, in order.
pub open spec fn discover(q: Seq<QueueEntryView>, sightings: Seq<SightingView>, at: Timestamp) -> Seq<
    QueueEntryView,
>
    decreases sightings.len(),
{
    if sightings.len() == 0 {
        q
    } else {
        offer(discover(q, sightings.drop_last(), at), sightings.last(), at)
    }
}

/// The queue without the entries for review `id`, the others in their order.
pub open spec fn without(q: Seq<QueueEntryView>, id: Seq<char>) -> Seq<QueueEntryView>
    decreases q.len(),
{
    if q.len() == 0 {
        q
    } else if q.last().review_id == id {
        without(q.drop_last(), id)
    } else {
        without(q.drop_last(), id).push(q.last())
    }
}

/// The identifiers among `ids` that have no entry in `q`, in their order.
pub open spec fn unqueued(q: Seq<QueueEntryView>, ids: Seq<Seq<char>>) -> Seq<Seq<char>>
    decreases ids.len(),
{
    if ids.len() == 0 {
        ids
    } else if holds(q, ids.last()) {
        unqueued(q, ids.drop_last())
    } else {
        unqueued(q, ids.drop_last()).push(ids.last())
    }
}

/// What the driver has to ask before the tick: the CI status for a head that
/// is pending or under test, the merge for a head that is merging, nothing
/// otherwise. For a pending head the query marks the start of testing; its
/// answer is not judged.
pub open spec fn wanted(q: Seq<QueueEntryView>) -> TickActionView {
    if q.len() == 0 {
        TickActionView::Nothing
    } else {
        match q[0].status {
            QueueStatusView::Pending | QueueStatusView::Testing => TickActionView::CheckCi(
                q[0].review_id,
            ),
            QueueStatusView::Merging => TickActionView::Merge(q[0].review_id),
            QueueStatusView::Failed(_) => TickActionView::Nothing,
        }
    }
}

/// The queue after one tick: only the head entry is looked at; it stays with
/// the status its transition gives, or leaves.
pub open spec fn tick(q: Seq<QueueEntryView>, event: TickEventView) -> Seq<QueueEntryView> {
    if q.len() == 0 {
        q
    } else {
        match step(q[0].status, event) {
            TransitionView::Stay(status) => q.update(0, q[0].with_status(status)),
            _ => q.drop_first(),
        }
    }
}

/// What one tick reports. An entry that fails leaves in status `Failed` with
/// its reason; one that is merged or has vanished leaves as it stood.
pub open spec fn tick_report(q: Seq<QueueEntryView>, event: TickEventView) -> TickReportView {
    if q.len() == 0 {
        TickReportView { removed: None, notification: None }
    } else {
        match step(q[0].status, event) {
            TransitionView::Stay(_) => TickReportView { removed: None, notification: None },
            TransitionView::Merged => TickReportView {
                removed: Some(q[0]),
                notification: Some(NotificationView::MergeSuccess),
            },
            TransitionView::Failed(reason, notice) => TickReportView {
                removed: Some(q[0].with_status(QueueStatusView::Failed(reason))),
                notification: Some(notice),
            },
            TransitionView::Vanished => TickReportView { removed: Some(q[0]), notification: None },
        }
    }
}

/// The merge queue and its scheduler. Entries stand in arrival order; no
/// review has two entries; only the head entry is ever anything but pending;
/// no entry is failed, since a failed entry leaves in the tick that fails it.
pub struct QueueManager {
    queue: VecDeque<QueueEntry>,
}

impl View for QueueManager {
    type V = Seq<QueueEntryView>;

    closed spec fn view(&self) -> Seq<QueueEntryView> {
        entries_view(self.queue@)
    }
}

impl QueueManager {
    #[verifier::type_invariant]
    spec fn inv(self) -> bool {
        well_formed(self@) && none_failed(self@)
    }

    /// Hands the entries out and leaves the queue empty, to be refilled by
    /// the caller.
    fn take(&mut self) -> (queue: VecDeque<QueueEntry>)
        ensures
            queue == old(self).queue,
            final(self).queue@ == Seq::<QueueEntry>::empty(),
    {
        let mut queue: VecDeque<QueueEntry> = VecDeque::new();
        core::mem::swap(&mut self.queue, &mut queue);
        queue
    }

    /// An empty queue.
    pub fn new() -> (r: Self)
        ensures
            r@ == Seq::<QueueEntryView>::empty(),
    {
        let queue: VecDeque<QueueEntry> = VecDeque::new();
        QueueManager { queue }
    }

    /// The entries, head first.
    pub fn get_queue(&self) -> (r: &VecDeque<QueueEntry>)
        ensures
            entries_view(r@) == self@,
            well_formed(self@),
            none_failed(self@),
    {
        proof {
            use_type_invariant(self);
        }
        &self.queue
    }

    /// Zero-based position of the entry for `review_id`.
    pub fn get_queue_position(&self, review_id: &ReviewId) -> (r: Option<usize>)
        ensures
            match r {
                Some(i) => i < self@.len() && self@[i as int].review_id == review_id@
                    && forall|j: int| 0 <= j < i ==> (#[trigger] self@[j]).review_id != review_id@,
                None => !holds(self@, review_id@),
            },
    {
        let mut i: usize = 0;
        while i < self.queue.len()
            invariant
                i <= self.queue.len(),
                forall|j: int| 0 <= j < i ==> (#[trigger] self@[j]).review_id != review_id@,
            decreases self.queue.len() - i,
        {
            if self.queue[i].review_id.same(review_id) {
                return Some(i);
            }
            i += 1;
        }
        None
    }

    /// Whether the queue holds an entry for `review_id`.
    pub fn contains(&self, review_id: &ReviewId) -> (b: bool)
        ensures
            b == holds(self@, review_id@),
    {
        self.get_queue_position(review_id).is_some()
    }

    /// Adds `review_id`, read as `status` from the review source, at time `at`.
    /// A review that is not approved, or whose CI is not green, is refused and
    /// the queue stays as it is; one already queued is left where it stands.
    pub fn add_to_queue_at(&mut self, review_id: ReviewId, status: &ReviewStatus, at: Timestamp) -> (r:
        Result<(), GarryError>)
        ensures
            match r {
                Ok(_) => admission(review_id@, status@) is Ok,
                Err(e) => admission(review_id@, status@) == Err::<(), GarryErrorView>(e@),
            },
            final(self)@ == enqueue(old(self)@, review_id@, status@, at),
            !status@.is_eligible() ==> r is Err && final(self)@ == old(self)@,
            well_formed(final(self)@),
            none_failed(final(self)@),
    {
        proof {
            use_type_invariant(&*self);
        }
        if status.state != ReviewState::Approved {
            return Err(
                GarryError::VcsError(concat3("Review ", review_id.as_str(), " is not approved")),
            );
        }
        if !status.ci_status.is_success() {
            let mut why: Vec<String> = Vec::new();
            why.push("CI checks must pass before adding to queue".to_owned());
            assert(why.deep_view() =~= seq!["CI checks must pass before adding to queue"@]);
            return Err(GarryError::CiFailed(why));
        }
        if self.contains(&review_id) {
            return Ok(());
        }
        let entry = QueueEntry {
            review_id,
            branch: "unknown".to_owned(),
            author: "unknown".to_owned(),
            added_at: at,
            status: QueueStatus::Pending,
        };
        let mut queue = self.take();
        assert(entries_view(queue@.push(entry)) =~= entries_view(queue@).push(entry@));
        queue.push_back(entry);
        self.queue = queue;
        Ok(())
    }

    /// Adds `review_id`, read as `status` from the review source, now.
    pub fn add_to_queue(&mut self, review_id: ReviewId, status: &ReviewStatus) -> (r: Result<
        (),
        GarryError,
    >)
        ensures
            match r {
                Ok(_) => admission(review_id@, status@) is Ok,
                Err(e) => admission(review_id@, status@) == Err::<(), GarryErrorView>(e@),
            },
            exists|at: Timestamp| final(self)@ == enqueue(old(self)@, review_id@, status@, at),
            !status@.is_eligible() ==> r is Err && final(self)@ == old(self)@,
            well_formed(final(self)@),
            none_failed(final(self)@),
    {
        let at = now();
        self.add_to_queue_at(review_id, status, at)
    }

    /// Withdraws the entry for `review_id`, wherever it stands and whatever
    /// its status. The other entries keep their order.
    pub fn remove_from_queue(&mut self, review_id: &ReviewId) -> (r: Result<(), GarryError>)
        ensures
            r is Ok,
            final(self)@ == without(old(self)@, review_id@),
            well_formed(final(self)@),
            none_failed(final(self)@),
    {
        proof {
            use_type_invariant(&*self);
        }
        match self.get_queue_position(review_id) {
            Some(p) => {
                proof {
                    lemma_without_present(self@, review_id@, p as int);
                }
                let mut queue = self.take();
                assert(entries_view(queue@.remove(p as int)) =~= entries_view(queue@).remove(
                    p as int,
                ));
                queue.remove(p);
                self.queue = queue;
            },
            None => {
                proof {
                    lemma_without_absent(self@, review_id@);
                }
            },
        }
        Ok(())
    }

    /// The identifiers among `pending` that have no entry yet, in their
    /// order: the reviews whose status discovery has to fetch.
    pub fn unqueued(&self, pending: &Vec<ReviewId>) -> (r: Vec<ReviewId>)
        ensures
            r.deep_view() == unqueued(self@, pending.deep_view()),
    {
        let mut r: Vec<ReviewId> = Vec::new();
        let mut i: usize = 0;
        while i < pending.len()
            invariant
                i <= pending.len(),
                r.deep_view() == unqueued(self@, pending.deep_view().take(i as int)),
            decreases pending.len() - i,
        {
            assert(pending.deep_view().take(i + 1).drop_last() =~= pending.deep_view().take(i as int));
            if !self.contains(&pending[i]) {
                r.push(pending[i].clone());
            }
            i += 1;
        }
        assert(pending.deep_view().take(pending.len() as int) =~= pending.deep_view());
        r
    }

    /// Discovery at time `at`: looks at the sightings in order and queues
    /// each review that is approved with green CI and not yet queued. A
    /// sighting without a status, or of a review that may not be queued, is
    /// passed over and the scan goes on.
    pub fn discover_and_queue_reviews_at(&mut self, sightings: &Vec<Sighting>, at: Timestamp) -> (r:
        Result<(), GarryError>)
        ensures
            r is Ok,
            final(self)@ == discover(old(self)@, sightings.deep_view(), at),
            well_formed(final(self)@),
            none_failed(final(self)@),
    {
        proof {
            use_type_invariant(&*self);
        }
        let mut i: usize = 0;
        while i < sightings.len()
            invariant
                i <= sightings.len(),
                self@ == discover(old(self)@, sightings.deep_view().take(i as int), at),
                well_formed(self@),
                none_failed(self@),
            decreases sightings.len() - i,
        {
            assert(sightings.deep_view().take(i + 1).drop_last() =~= sightings.deep_view().take(
                i as int,
            ));
            match &sightings[i].status {
                Some(status) => {
                    let _ = self.add_to_queue_at(sightings[i].id.clone(), status, at);
                },
                None => {},
            }
            i += 1;
        }
        assert(sightings.deep_view().take(sightings.len() as int) =~= sightings.deep_view());
        Ok(())
    }

    /// Discovery, now.
    pub fn discover_and_queue_reviews(&mut self, sightings: &Vec<Sighting>) -> (r: Result<
        (),
        GarryError,
    >)
        ensures
            r is Ok,
            exists|at: Timestamp| final(self)@ == discover(old(self)@, sightings.deep_view(), at),
            well_formed(final(self)@),
            none_failed(final(self)@),
    {
        let at = now();
        self.discover_and_queue_reviews_at(sightings, at)
    }

    /// What the driver has to ask of the review source before the next tick.
    pub fn next_action(&self) -> (r: TickAction)
        ensures
            r@ == wanted(self@),
    {
        if self.queue.len() == 0 {
            return TickAction::Nothing;
        }
        match &self.queue[0].status {
            QueueStatus::Pending | QueueStatus::Testing => TickAction::CheckCi(
                self.queue[0].review_id.clone(),
            ),
            QueueStatus::Merging => TickAction::Merge(self.queue[0].review_id.clone()),
            QueueStatus::Failed(_) => TickAction::Nothing,
        }
    }

    /// One tick: moves the head entry on by `event`, what the review source
    /// answered to `next_action`. No other entry is looked at or changed. An
    /// entry that fails leaves the queue within the same tick.
    pub fn process_queue(&mut self, event: &TickEvent) -> (r: TickReport)
        ensures
            final(self)@ == tick(old(self)@, event@),
            r@ == tick_report(old(self)@, event@),
            well_formed(final(self)@),
            none_failed(final(self)@),
    {
        proof {
            use_type_invariant(&*self);
        }
        let mut queue = self.take();
        let head = match queue.pop_front() {
            Some(e) => e,
            None => {
                self.queue = queue;
                return TickReport { removed: None, notification: None };
            },
        };
        assert(entries_view(queue@) =~= old(self)@.drop_first());
        match head.status.advance(event) {
            Transition::Stay(status) => {
                let kept = QueueEntry {
                    review_id: head.review_id,
                    branch: head.branch,
                    author: head.author,
                    added_at: head.added_at,
                    status,
                };
                queue.push_front(kept);
                assert(entries_view(queue@) =~= old(self)@.update(
                    0,
                    old(self)@[0].with_status(status@),
                ));
                self.queue = queue;
                TickReport { removed: None, notification: None }
            },
            Transition::Merged => {
                self.queue = queue;
                TickReport {
                    removed: Some(head),
                    notification: Some(NotificationType::MergeSuccess),
                }
            },
            Transition::Failed(reason, notice) => {
                self.queue = queue;
                let gone = QueueEntry {
                    review_id: head.review_id,
                    branch: head.branch,
                    author: head.author,
                    added_at: head.added_at,
                    status: QueueStatus::Failed(reason),
                };
                TickReport { removed: Some(gone), notification: Some(notice) }
            },
            Transition::Vanished => {
                self.queue = queue;
                TickReport { removed: Some(head), notification: None }
            },
        }
    }
}

/// Withdrawing a review that has no entry changes nothing.
pub proof fn lemma_without_absent(q: Seq<QueueEntryView>, id: Seq<char>)
    requires
        !holds(q, id),
    ensures
        without(q, id) == q,
    decreases q.len(),
{
    if q.len() > 0 {
        lemma_without_absent(q.drop_last(), id);
    }
}

/// Where no review has two entries, withdrawing a review takes out its one
/// entry and nothing else.
pub proof fn lemma_without_present(q: Seq<QueueEntryView>, id: Seq<char>, p: int)
    requires
        distinct_ids(q),
        0 <= p < q.len(),
        q[p].review_id == id,
    ensures
        without(q, id) == q.remove(p),
    decreases q.len(),
{
    if p == q.len() - 1 {
        lemma_without_absent(q.drop_last(), id);
    } else {
        lemma_without_present(q.drop_last(), id, p);
    }
}

} // verus!
