//! What the scheduler tells a review's author, and in which words.

use crate::utils::text::{
    begins_with, clone_texts, concat, concat3, decimal, decimal_string, join, joined, skip_chars,
    starts_with,
};
use vstd::prelude::*;

verus! {

/// An event worth a comment on the review.
#[derive(Debug, PartialEq, Eq)]
pub enum NotificationType {
    /// The review was merged.
    MergeSuccess,
    /// The platform refused the merge; the text says why.
    MergeConflict(String),
    /// CI failed; the names of the failing checks.
    CiFailed(Vec<String>),
    /// The review waits in the queue at this zero-based position.
    QueuePosition(usize),
    /// The review needs new commits before it can go on.
    ReviewRequiresUpdate,
}

/// `NotificationType` over texts.
pub enum NotificationView {
    MergeSuccess,
    MergeConflict(Seq<char>),
    CiFailed(Seq<Seq<char>>),
    QueuePosition(usize),
    ReviewRequiresUpdate,
}

impl View for NotificationType {
    type V = NotificationView;

    open spec fn view(&self) -> NotificationView {
        match self {
            NotificationType::MergeSuccess => NotificationView::MergeSuccess,
            NotificationType::MergeConflict(detail) => NotificationView::MergeConflict(detail@),
            NotificationType::CiFailed(checks) => NotificationView::CiFailed(checks.deep_view()),
            NotificationType::QueuePosition(p) => NotificationView::QueuePosition(*p),
            NotificationType::ReviewRequiresUpdate => NotificationView::ReviewRequiresUpdate,
        }
    }
}

impl NotificationView {
    /// The comment posted for the event. A queue position is shown counting
    /// from one; failing checks stand one per line.
    pub open spec fn message(self) -> Seq<char> {
        match self {
            NotificationView::MergeSuccess => "✅ Your review has been successfully merged to main!"@,
            NotificationView::MergeConflict(detail) => "⚠️ Merge conflict detected:\n\n"@ + detail
                + "\n\nPlease rebase your branch and update the review."@,
            NotificationView::CiFailed(checks) => "❌ CI checks failed:\n\n"@ + joined(checks, "\n"@)
                + "\n\nPlease fix the issues and update the review."@,
            NotificationView::QueuePosition(p) => "📋 Your review is in the merge queue at position "@
                + decimal((p + 1) as nat),
            NotificationView::ReviewRequiresUpdate => "🔄 Your review requires updates. Please address the feedback and push new commits."@,
        }
    }
}

/// What begins the reason recorded for a refused merge.
pub open spec fn merge_failed_prefix() -> Seq<char> {
    "Merge failed: "@
}

/// The notification for an entry that failed, chosen by its reason alone: a
/// refused merge is reported as a conflict, in the platform's words; anything
/// else as a CI failure whose one line is the reason.
pub open spec fn failure_notice(reason: Seq<char>) -> NotificationView {
    if begins_with(reason, merge_failed_prefix()) {
        NotificationView::MergeConflict(
            reason.subrange(merge_failed_prefix().len() as int, reason.len() as int),
        )
    } else {
        NotificationView::CiFailed(seq![reason])
    }
}

impl Clone for NotificationType {
    fn clone(&self) -> (r: Self)
        ensures
            r@ == self@,
    {
        match self {
            NotificationType::MergeSuccess => NotificationType::MergeSuccess,
            NotificationType::MergeConflict(detail) => NotificationType::MergeConflict(
                detail.clone(),
            ),
            NotificationType::CiFailed(checks) => NotificationType::CiFailed(clone_texts(checks)),
            NotificationType::QueuePosition(p) => NotificationType::QueuePosition(*p),
            NotificationType::ReviewRequiresUpdate => NotificationType::ReviewRequiresUpdate,
        }
    }
}

impl NotificationType {
    /// The notification for an entry that failed for `reason`.
    pub fn for_failure(reason: &str) -> (n: NotificationType)
        ensures
            n@ == failure_notice(reason@),
    {
        proof {
            reveal_strlit("Merge failed: ");
        }
        if starts_with(reason, "Merge failed: ") {
            NotificationType::MergeConflict(skip_chars(reason, 14))
        } else {
            let mut lines: Vec<String> = Vec::new();
            lines.push(reason.to_owned());
            assert(lines.deep_view() =~= seq![reason@]);
            NotificationType::CiFailed(lines)
        }
    }

    /// The comment to post for this event.
    pub fn message(&self) -> (m: String)
        ensures
            m@ == self@.message(),
    {
        match self {
            NotificationType::MergeSuccess => {
                "✅ Your review has been successfully merged to main!".to_owned()
            },
            NotificationType::MergeConflict(detail) => concat3(
                "⚠️ Merge conflict detected:\n\n",
                detail.as_str(),
                "\n\nPlease rebase your branch and update the review.",
            ),
            NotificationType::CiFailed(checks) => {
                let list = join(checks, "\n");
                concat3(
                    "❌ CI checks failed:\n\n",
                    list.as_str(),
                    "\n\nPlease fix the issues and update the review.",
                )
            },
            NotificationType::QueuePosition(p) => {
                let shown = decimal_string(*p as u128 + 1);
                concat("📋 Your review is in the merge queue at position ", shown.as_str())
            },
            NotificationType::ReviewRequiresUpdate => {
                "🔄 Your review requires updates. Please address the feedback and push new commits.".to_owned()
            },
        }
    }
}

} // verus!
