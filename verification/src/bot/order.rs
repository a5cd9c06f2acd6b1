//! What holds of the merge queue over whole runs of operations: discovery
//! settles, entries leave in the order they came, and only the head is ever
//! under way.

use crate::bot::queue::{
    admission, discover, enqueue, fresh_entry, holds, none_failed, offer,
    single_lane, tick, well_formed, without, QueueEntryView, SightingView, TickEventView,
};
use crate::review::{ReviewStatusView, Timestamp};
use vstd::prelude::*;

verus! {

/// One operation on the queue.
pub enum QueueOp {
    /// A request to add the review, read in the status given, at the time given.
    Add(Seq<char>, ReviewStatusView, Timestamp),
    /// A discovery pass over the sightings, at the time given.
    Discover(Seq<SightingView>, Timestamp),
    /// A tick with what the review source answered.
    Tick(TickEventView),
    /// The withdrawal of the review.
    Remove(Seq<char>),
}

/// The queue after one operation.
pub open spec fn apply(q: Seq<QueueEntryView>, op: QueueOp) -> Seq<QueueEntryView> {
    match op {
        QueueOp::Add(id, status, at) => enqueue(q, id, status, at),
        QueueOp::Discover(sightings, at) => discover(q, sightings, at),
        QueueOp::Tick(event) => tick(q, event),
        QueueOp::Remove(id) => without(q, id),
    }
}

/// The queue after the operations, first to last.
pub open spec fn run(q: Seq<QueueEntryView>, ops: Seq<QueueOp>) -> Seq<QueueEntryView>
    decreases ops.len(),
{
    if ops.len() == 0 {
        q
    } else {
        apply(run(q, ops.drop_last()), ops.last())
    }
}

/// How many of the entries that `q` began with have left by the end of the
/// operations, none of which is a withdrawal: one for each tick that took
/// the head away while entries of `q` were left.
pub open spec fn departed(q: Seq<QueueEntryView>, ops: Seq<QueueOp>) -> int
    decreases ops.len(),
{
    if ops.len() == 0 {
        0
    } else {
        let before = run(q, ops.drop_last());
        let gone = departed(q, ops.drop_last());
        if ops.last() is Tick && apply(before, ops.last()).len() < before.len() && gone < q.len() {
            gone + 1
        } else {
            gone
        }
    }
}

/// The two are the same entry, whatever its status.
pub open spec fn same_review(a: QueueEntryView, b: QueueEntryView) -> bool {
    a.with_status(b.status) == b
}

/// `longer` begins with all of `q`, entry for entry, and what it has behind
/// that is pending.
pub open spec fn extends(longer: Seq<QueueEntryView>, q: Seq<QueueEntryView>) -> bool {
    &&& q.len() <= longer.len()
    &&& forall|i: int| 0 <= i < q.len() ==> #[trigger] longer[i] == q[i]
    &&& forall|i: int| q.len() <= i < longer.len() ==> (#[trigger] longer[i]).status is Pending
}

/// A request to add a review changes nothing that is queued: at most it puts
/// one pending entry behind all others.
pub proof fn lemma_enqueue_extends(
    q: Seq<QueueEntryView>,
    id: Seq<char>,
    status: ReviewStatusView,
    at: Timestamp,
)
    ensures
        extends(enqueue(q, id, status, at), q),
        enqueue(q, id, status, at) == q || enqueue(q, id, status, at) == q.push(
            fresh_entry(id, at),
        ),
        admission(id, status) is Ok ==> holds(enqueue(q, id, status, at), id),
        well_formed(q) ==> well_formed(enqueue(q, id, status, at)),
{
    if admission(id, status) is Ok && !holds(q, id) {
        assert(enqueue(q, id, status, at)[q.len() as int].review_id == id);
    }
}

/// Discovery changes nothing that is queued: it only puts entries behind.
pub proof fn lemma_discover_extends(q: Seq<QueueEntryView>, sightings: Seq<SightingView>, at: Timestamp)
    ensures
        extends(discover(q, sightings, at), q),
        well_formed(q) ==> well_formed(discover(q, sightings, at)),
    decreases sightings.len(),
{
    if sightings.len() > 0 {
        let mid = discover(q, sightings.drop_last(), at);
        lemma_discover_extends(q, sightings.drop_last(), at);
        match sightings.last().status {
            Some(status) => {
                lemma_enqueue_extends(mid, sightings.last().id, status, at);
            },
            None => {},
        }
    }
}

/// A review that is queued is still queued after discovery.
pub proof fn lemma_discover_keeps(
    q: Seq<QueueEntryView>,
    sightings: Seq<SightingView>,
    at: Timestamp,
    id: Seq<char>,
)
    requires
        holds(q, id),
    ensures
        holds(discover(q, sightings, at), id),
{
    lemma_discover_extends(q, sightings, at);
    let i = choose|i: int| 0 <= i < q.len() && (#[trigger] q[i]).review_id == id;
    assert(discover(q, sightings, at)[i] == q[i]);
}

/// Every sighted review that may be queued is queued once discovery is done.
pub proof fn lemma_discover_queues(
    q: Seq<QueueEntryView>,
    sightings: Seq<SightingView>,
    at: Timestamp,
    k: int,
)
    requires
        0 <= k < sightings.len(),
        sightings[k].status is Some,
        admission(sightings[k].id, sightings[k].status->0) is Ok,
    ensures
        holds(discover(q, sightings, at), sightings[k].id),
    decreases sightings.len(),
{
    let front = sightings.drop_last();
    let mid = discover(q, front, at);
    let last = sightings.last();
    if k == sightings.len() - 1 {
        lemma_enqueue_extends(mid, last.id, last.status->0, at);
    } else {
        lemma_discover_queues(q, front, at, k);
        assert(discover(mid, seq![last], at) == offer(discover(mid, seq![last].drop_last(), at), last, at));
        lemma_discover_keeps(mid, seq![last], at, sightings[k].id);
    }
}

/// Discovery adds nothing where every sighted review that may be queued is
/// queued already.
pub proof fn lemma_discover_settled(q: Seq<QueueEntryView>, sightings: Seq<SightingView>, at: Timestamp)
    requires
        forall|k: int|
            0 <= k < sightings.len() && (#[trigger] sightings[k]).status is Some && admission(
                sightings[k].id,
                sightings[k].status->0,
            ) is Ok ==> holds(q, sightings[k].id),
    ensures
        discover(q, sightings, at) == q,
    decreases sightings.len(),
{
    if sightings.len() > 0 {
        lemma_discover_settled(q, sightings.drop_last(), at);
    }
}

/// The sightings of reviews that have no entry in `q`, in their order.
pub open spec fn unseen(q: Seq<QueueEntryView>, sightings: Seq<SightingView>) -> Seq<SightingView>
    decreases sightings.len(),
{
    if sightings.len() == 0 {
        sightings
    } else if holds(q, sightings.last().id) {
        unseen(q, sightings.drop_last())
    } else {
        unseen(q, sightings.drop_last()).push(sightings.last())
    }
}

/// Discovery needs no status of a review that is queued: the sightings of
/// the reviews not yet queued give the same queue as all sightings do.
pub proof fn law_discovery_skips_queued(
    q: Seq<QueueEntryView>,
    sightings: Seq<SightingView>,
    at: Timestamp,
)
    ensures
        discover(q, unseen(q, sightings), at) == discover(q, sightings, at),
    decreases sightings.len(),
{
    if sightings.len() > 0 {
        let front = sightings.drop_last();
        let last = sightings.last();
        law_discovery_skips_queued(q, front, at);
        if holds(q, last.id) {
            lemma_discover_keeps(q, front, at, last.id);
        } else {
            let fewer = unseen(q, front).push(last);
            assert(fewer.drop_last() =~= unseen(q, front));
        }
    }
}

/// Discovery is idempotent: a second pass over the same sightings, at
/// whatever time, leaves the queue as the first pass left it.
pub proof fn law_discovery_idempotent(
    q: Seq<QueueEntryView>,
    sightings: Seq<SightingView>,
    first: Timestamp,
    second: Timestamp,
)
    ensures
        discover(discover(q, sightings, first), sightings, second) == discover(
            q,
            sightings,
            first,
        ),
{
    let once = discover(q, sightings, first);
    assert forall|k: int|
        0 <= k < sightings.len() && (#[trigger] sightings[k]).status is Some && admission(
            sightings[k].id,
            sightings[k].status->0,
        ) is Ok implies holds(once, sightings[k].id) by {
        lemma_discover_queues(q, sightings, first, k);
    }
    lemma_discover_settled(once, sightings, second);
}

/// A tick looks at the head alone: the head stays, in a status that is not
/// `Failed`, or leaves; every other entry stands as it stood. So where only
/// the head could be under way before the tick, the same holds after it, and
/// no failed entry is left in the queue.
pub proof fn law_tick_head_only(q: Seq<QueueEntryView>, event: TickEventView)
    ensures
        tick(q, event).len() == q.len() || tick(q, event) == q.drop_first(),
        tick(q, event).len() == q.len() ==> forall|i: int|
            1 <= i < q.len() ==> #[trigger] tick(q, event)[i] == q[i],
        tick(q, event).len() == q.len() && q.len() > 0 ==> same_review(tick(q, event)[0], q[0])
            && !(tick(q, event)[0].status is Failed),
        well_formed(q) ==> well_formed(tick(q, event)),
        single_lane(q) ==> none_failed(tick(q, event)),
{
}

/// Withdrawing a review keeps the queue well-formed.
pub proof fn lemma_without_well_formed(q: Seq<QueueEntryView>, id: Seq<char>)
    requires
        well_formed(q),
    ensures
        well_formed(without(q, id)),
{
    if holds(q, id) {
        let p = choose|p: int| 0 <= p < q.len() && (#[trigger] q[p]).review_id == id;
        crate::bot::queue::lemma_without_present(q, id, p);
    } else {
        crate::bot::queue::lemma_without_absent(q, id);
    }
}

/// At any point of any run, no review has two entries and only the head
/// entry may be anything but pending.
pub proof fn law_single_lane(q: Seq<QueueEntryView>, ops: Seq<QueueOp>)
    requires
        well_formed(q),
    ensures
        well_formed(run(q, ops)),
    decreases ops.len(),
{
    if ops.len() > 0 {
        law_single_lane(q, ops.drop_last());
        let before = run(q, ops.drop_last());
        match ops.last() {
            QueueOp::Add(id, status, at) => lemma_enqueue_extends(before, id, status, at),
            QueueOp::Discover(sightings, at) => lemma_discover_extends(before, sightings, at),
            QueueOp::Tick(event) => law_tick_head_only(before, event),
            QueueOp::Remove(id) => lemma_without_well_formed(before, id),
        }
    }
}

/// No failed entry ever stays: where none stands in the queue to begin
/// with, none stands in it after any run.
pub proof fn law_no_failed_entry_stays(q: Seq<QueueEntryView>, ops: Seq<QueueOp>)
    requires
        well_formed(q),
        none_failed(q),
    ensures
        none_failed(run(q, ops)),
    decreases ops.len(),
{
    if ops.len() > 0 {
        law_no_failed_entry_stays(q, ops.drop_last());
        law_single_lane(q, ops.drop_last());
        let before = run(q, ops.drop_last());
        match ops.last() {
            QueueOp::Add(id, status, at) => lemma_enqueue_extends(before, id, status, at),
            QueueOp::Discover(sightings, at) => lemma_discover_extends(before, sightings, at),
            QueueOp::Tick(event) => law_tick_head_only(before, event),
            QueueOp::Remove(id) => {
                lemma_without_well_formed(before, id);
                if holds(before, id) {
                    let p = choose|p: int| 0 <= p < before.len() && (#[trigger] before[p]).review_id == id;
                    crate::bot::queue::lemma_without_present(before, id, p);
                } else {
                    crate::bot::queue::lemma_without_absent(before, id);
                }
            },
        }
    }
}

/// First in, first out. After any run without withdrawals, the entries that
/// the queue began with and that are still queued are its last ones, they
/// stand at the head of the queue, and they stand in the order they had: no
/// entry leaves before one that came earlier, and none that comes later gets
/// ahead.
pub proof fn law_fifo(q: Seq<QueueEntryView>, ops: Seq<QueueOp>)
    requires
        forall|k: int| 0 <= k < ops.len() ==> !(#[trigger] ops[k] is Remove),
    ensures
        0 <= departed(q, ops) <= q.len(),
        run(q, ops).len() >= q.len() - departed(q, ops),
        forall|i: int|
            departed(q, ops) <= i < q.len() ==> same_review(
                run(q, ops)[i - departed(q, ops)],
                #[trigger] q[i],
            ),
    decreases ops.len(),
{
    if ops.len() > 0 {
        let front = ops.drop_last();
        law_fifo(q, front);
        let before = run(q, front);
        match ops[ops.len() - 1] {
            QueueOp::Add(id, status, at) => lemma_enqueue_extends(before, id, status, at),
            QueueOp::Discover(sightings, at) => lemma_discover_extends(before, sightings, at),
            QueueOp::Tick(event) => law_tick_head_only(before, event),
            QueueOp::Remove(_) => {},
        }
    }
}

} // verus!
