//! The CI gate's bounded wait: when to ask again, when to give up, and when
//! an answer is final. The single query of a tick, and each query of a wait,
//! is the driver's to make; what follows from the answers is decided here.

use crate::review::{CiStatus, CiStatusView};
use vstd::prelude::*;

verus! {

/// Seconds between two CI queries of one wait.
pub const RECHECK_SECS: u64 = 30;

/// The verdict of a wait that ran out of time.
pub open spec fn timeout_verdict() -> CiStatusView {
    CiStatusView::Failed(seq!["CI timeout"@])
}

/// What the waiting caller does next.
#[derive(Debug, PartialEq, Eq)]
pub enum WaitStep {
    /// Query the CI status of the review.
    Query,
    /// Sleep for so many seconds, then go on waiting.
    Pause(u64),
    /// Stop waiting: this is the answer.
    Done(CiStatus),
}

/// `WaitStep` over texts.
pub enum WaitStepView {
    Query,
    Pause(u64),
    Done(CiStatusView),
}

impl View for WaitStep {
    type V = WaitStepView;

    open spec fn view(&self) -> WaitStepView {
        match self {
            WaitStep::Query => WaitStepView::Query,
            WaitStep::Pause(secs) => WaitStepView::Pause(*secs),
            WaitStep::Done(status) => WaitStepView::Done(status@),
        }
    }
}

/// The CI gate. It keeps nothing between two steps of a wait.
pub struct CiMonitor {}

impl CiMonitor {
    /// A CI gate.
    pub fn new() -> Self {
        CiMonitor {}
    }

    /// The step before each query of a wait that began `elapsed_nanos`
    /// nanoseconds ago and may last `timeout_nanos`: past the timeout the wait
    /// ends as failed by timeout, up to it the CI status is queried.
    pub fn wait_for_ci(&self, elapsed_nanos: u128, timeout_nanos: u128) -> (step: WaitStep)
        ensures
            step@ == if elapsed_nanos > timeout_nanos {
                WaitStepView::Done(timeout_verdict())
            } else {
                WaitStepView::Query
            },
    {
        if elapsed_nanos > timeout_nanos {
            let mut why: Vec<String> = Vec::new();
            why.push("CI timeout".to_owned());
            assert(why.deep_view() =~= seq!["CI timeout"@]);
            WaitStep::Done(CiStatus::Failed(why))
        } else {
            WaitStep::Query
        }
    }

    /// The step after a query was answered with `status`: a run that has
    /// ended is the answer of the wait, any other is asked about again after
    /// a pause.
    pub fn after_check(&self, status: CiStatus) -> (step: WaitStep)
        ensures
            step@ == if status@.is_terminal() {
                WaitStepView::Done(status@)
            } else {
                WaitStepView::Pause(RECHECK_SECS)
            },
    {
        if status.is_terminal() {
            WaitStep::Done(status)
        } else {
            WaitStep::Pause(RECHECK_SECS)
        }
    }
}

} // verus!
