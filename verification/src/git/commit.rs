//! When commits are squashed, and what the commit that stands for them says.

use crate::utils::text::{concat, concat3, decimal, decimal_string, join, joined};
use vstd::prelude::*;

verus! {

/// Rules for commits.
pub struct CommitOps;

/// What squashing has to do with a branch that is `count` commits ahead of
/// its base.
#[derive(Debug, Clone, Copy, PartialEq, Eq, Structural)]
pub enum SquashPlan {
    /// No commit to squash.
    UpToDate,
    /// One commit: it stands as it is.
    SingleCommit,
    /// Two commits or more: they become one.
    Squash,
}

/// The message of the commit that stands for the commits whose messages are
/// `messages`, newest first: the messages oldest first under a line that
/// counts them; a single message as it is; a stock line where there is none.
pub open spec fn squash_message_of(messages: Seq<Seq<char>>) -> Seq<char> {
    if messages.len() > 1 {
        "Squashed "@ + decimal(messages.len()) + " commits:\n\n"@ + joined(
            messages.reverse(),
            "\n\n"@,
        )
    } else if messages.len() == 1 {
        messages[0]
    } else {
        "Squashed commit"@
    }
}

impl CommitOps {
    /// What squashing has to do with a branch `count` commits ahead.
    pub fn squash_plan(count: usize) -> (plan: SquashPlan)
        ensures
            count == 0 ==> plan == SquashPlan::UpToDate,
            count == 1 ==> plan == SquashPlan::SingleCommit,
            count >= 2 ==> plan == SquashPlan::Squash,
    {
        if count == 0 {
            SquashPlan::UpToDate
        } else if count == 1 {
            SquashPlan::SingleCommit
        } else {
            SquashPlan::Squash
        }
    }

    /// The message of the one commit that stands for the commits whose
    /// messages are `messages`, newest first.
    pub fn squash_message(messages: &Vec<String>) -> (m: String)
        ensures
            m@ == squash_message_of(messages.deep_view()),
    {
        let n = messages.len();
        if n == 0 {
            return "Squashed commit".to_owned();
        }
        if n == 1 {
            return messages[0].clone();
        }
        let mut oldest_first: Vec<String> = Vec::new();
        let mut i: usize = n;
        while i > 0
            invariant
                i <= n,
                n == messages.len(),
                oldest_first@.len() == n - i,
                forall|k: int| 0 <= k < n - i ==> oldest_first@[k]@ == messages@[n - 1 - k]@,
            decreases i,
        {
            i -= 1;
            oldest_first.push(messages[i].clone());
        }
        assert(oldest_first.deep_view() =~= messages.deep_view().reverse());
        let count = decimal_string(n as u128);
        let body = join(&oldest_first, "\n\n");
        let head = concat3("Squashed ", count.as_str(), " commits:\n\n");
        concat(head.as_str(), body.as_str())
    }
}

} // verus!
