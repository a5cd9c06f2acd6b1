//! What the GitHub adapter computes: where to send a request, what to put in
//! it, and what the answers mean for a review.

use crate::utils::clock::{now, parse_instant, parsed_instant};
use crate::utils::error::{GarryError, GarryErrorView};
use crate::review::{
    Approval, ApprovalView, CiStatus, CiStatusView, ReviewId, ReviewState, ReviewStatus,
    ReviewStatusView, Timestamp,
};
use crate::utils::text::{before_char, concat, concat3, decimal, decimal_string, first_index_of, has_char, same_text};
use vstd::prelude::*;

verus! {

/// The address of the API path `path` on `host`: GitHub itself has its API on
/// a host of its own, every other host under `/api/v3`.
pub open spec fn api_address(host: Seq<char>, path: Seq<char>) -> Seq<char> {
    if host == "github.com"@ {
        "https://api.github.com"@ + path
    } else {
        "https://"@ + host + "/api/v3"@ + path
    }
}

/// The address of the API path `path` on `host`.
pub fn api_url(host: &str, path: &str) -> (url: String)
    ensures
        url@ == api_address(host@, path@),
{
    if same_text(host, "github.com") {
        concat("https://api.github.com", path)
    } else {
        let root = concat3("https://", host, "/api/v3");
        concat(root.as_str(), path)
    }
}

/// A place in the API that the adapter talks to.
#[derive(Debug, PartialEq, Eq)]
pub enum Endpoint {
    /// The pull requests of the repository: where one is created.
    Pulls,
    /// The open pull requests of the repository.
    OpenPulls,
    /// One pull request, by number.
    Pull(String),
    /// The reviews of one pull request.
    Reviews(String),
    /// Where one pull request is merged.
    Merge(String),
    /// The comments on one pull request.
    Comments(String),
    /// The check runs of one commit, by hash.
    CheckRuns(String),
    /// The protection rules of one branch, by name.
    Protection(String),
}

/// `Endpoint` over texts.
pub enum EndpointView {
    Pulls,
    OpenPulls,
    Pull(Seq<char>),
    Reviews(Seq<char>),
    Merge(Seq<char>),
    Comments(Seq<char>),
    CheckRuns(Seq<char>),
    Protection(Seq<char>),
}

impl View for Endpoint {
    type V = EndpointView;

    open spec fn view(&self) -> EndpointView {
        match self {
            Endpoint::Pulls => EndpointView::Pulls,
            Endpoint::OpenPulls => EndpointView::OpenPulls,
            Endpoint::Pull(n) => EndpointView::Pull(n@),
            Endpoint::Reviews(n) => EndpointView::Reviews(n@),
            Endpoint::Merge(n) => EndpointView::Merge(n@),
            Endpoint::Comments(n) => EndpointView::Comments(n@),
            Endpoint::CheckRuns(sha) => EndpointView::CheckRuns(sha@),
            Endpoint::Protection(branch) => EndpointView::Protection(branch@),
        }
    }
}

impl EndpointView {
    /// The API path of the place, in repository `repository`.
    pub open spec fn path(self, repository: Seq<char>) -> Seq<char> {
        let repo = "/repos/"@ + repository;
        match self {
            EndpointView::Pulls => repo + "/pulls"@,
            EndpointView::OpenPulls => repo + "/pulls?state=open"@,
            EndpointView::Pull(n) => repo + "/pulls/"@ + n,
            EndpointView::Reviews(n) => repo + "/pulls/"@ + n + "/reviews"@,
            EndpointView::Merge(n) => repo + "/pulls/"@ + n + "/merge"@,
            EndpointView::Comments(n) => repo + "/issues/"@ + n + "/comments"@,
            EndpointView::CheckRuns(sha) => repo + "/commits/"@ + sha + "/check-runs"@,
            EndpointView::Protection(branch) => repo + "/branches/"@ + branch + "/protection"@,
        }
    }
}

impl Endpoint {
    /// The API path of the place, in repository `repository`.
    pub fn path(&self, repository: &str) -> (p: String)
        ensures
            p@ == self@.path(repository@),
    {
        let repo = concat("/repos/", repository);
        match self {
            Endpoint::Pulls => concat(repo.as_str(), "/pulls"),
            Endpoint::OpenPulls => concat(repo.as_str(), "/pulls?state=open"),
            Endpoint::Pull(n) => concat3(repo.as_str(), "/pulls/", n.as_str()),
            Endpoint::Reviews(n) => {
                let pull = concat3(repo.as_str(), "/pulls/", n.as_str());
                concat(pull.as_str(), "/reviews")
            },
            Endpoint::Merge(n) => {
                let pull = concat3(repo.as_str(), "/pulls/", n.as_str());
                concat(pull.as_str(), "/merge")
            },
            Endpoint::Comments(n) => {
                let issue = concat3(repo.as_str(), "/issues/", n.as_str());
                concat(issue.as_str(), "/comments")
            },
            Endpoint::CheckRuns(sha) => {
                let commit = concat3(repo.as_str(), "/commits/", sha.as_str());
                concat(commit.as_str(), "/check-runs")
            },
            Endpoint::Protection(branch) => {
                let b = concat3(repo.as_str(), "/branches/", branch.as_str());
                concat(b.as_str(), "/protection")
            },
        }
    }

    /// The full address of the place, for repository `repository` on `host`.
    pub fn url(&self, host: &str, repository: &str) -> (u: String)
        ensures
            u@ == api_address(host@, self@.path(repository@)),
    {
        let p = self.path(repository);
        api_url(host, p.as_str())
    }
}

/// The value of the authorization header for `token`.
pub fn bearer(token: &str) -> (h: String)
    ensures
        h@ == "Bearer "@ + token@,
{
    concat("Bearer ", token)
}

/// The head of a new pull request: a branch that names its owner
/// (`owner:branch`) stands as it is; any other is taken to live with the
/// owner of `repository`, the part of `owner/repo` before the first slash.
pub open spec fn head_of(repository: Seq<char>, branch: Seq<char>) -> Seq<char> {
    if branch.contains(':') {
        branch
    } else {
        repository.subrange(0, first_index_of(repository, '/')) + ":"@ + branch
    }
}

/// The head of a new pull request for `branch` in `repository`.
pub fn head_ref(repository: &str, branch: &str) -> (head: String)
    ensures
        head@ == head_of(repository@, branch@),
{
    if has_char(branch, ':') {
        branch.to_owned()
    } else {
        let owner = before_char(repository, '/');
        concat3(owner.as_str(), ":", branch)
    }
}

/// The identifier of the review that is pull request `number`.
pub fn review_id_of(number: u64) -> (id: ReviewId)
    ensures
        id@ == decimal(number as nat),
{
    ReviewId::new(decimal_string(number as u128))
}

/// The body of an approval: the message given, or the word `Approved`.
pub fn approval_body(message: Option<&str>) -> (body: String)
    ensures
        body@ == match message {
            Some(m) => m@,
            None => "Approved"@,
        },
{
    match message {
        Some(m) => m.to_owned(),
        None => "Approved".to_owned(),
    }
}

/// A request that the platform may refuse.
#[derive(Debug, Clone, Copy, PartialEq, Eq, Structural)]
pub enum Request {
    CreateReview,
    MergeReview,
    ApproveReview,
}

/// The error for a request that the platform refused with `body`.
pub open spec fn refusal(request: Request, body: Seq<char>) -> GarryErrorView {
    match request {
        Request::CreateReview => GarryErrorView::VcsError("Failed to create PR: "@ + body),
        Request::MergeReview => GarryErrorView::MergeConflict("Failed to merge: "@ + body),
        Request::ApproveReview => GarryErrorView::VcsError("Failed to approve review: "@ + body),
    }
}

/// The error for a request that the platform refused, with the text of its
/// answer as detail.
pub fn refused(request: Request, body: &str) -> (e: GarryError)
    ensures
        e@ == refusal(request, body@),
{
    match request {
        Request::CreateReview => GarryError::VcsError(concat("Failed to create PR: ", body)),
        Request::MergeReview => GarryError::MergeConflict(concat("Failed to merge: ", body)),
        Request::ApproveReview => GarryError::VcsError(concat("Failed to approve review: ", body)),
    }
}

/// One review of a pull request, as the platform lists it.
#[derive(Debug, PartialEq, Eq)]
pub struct ReviewRecord {
    /// Login of the user who gave it.
    pub user: String,
    /// `APPROVED`, `CHANGES_REQUESTED`, or another word of the platform.
    pub state: String,
    /// When it was given, as the platform writes it.
    pub submitted_at: Option<String>,
}

/// `ReviewRecord` over texts.
pub struct ReviewRecordView {
    pub user: Seq<char>,
    pub state: Seq<char>,
    pub submitted_at: Option<Seq<char>>,
}

impl View for ReviewRecord {
    type V = ReviewRecordView;

    open spec fn view(&self) -> ReviewRecordView {
        ReviewRecordView {
            user: self.user@,
            state: self.state@,
            submitted_at: match self.submitted_at {
                Some(t) => Some(t@),
                None => None,
            },
        }
    }
}

impl DeepView for ReviewRecord {
    type V = ReviewRecordView;

    open spec fn deep_view(&self) -> ReviewRecordView {
        self@
    }
}

impl ReviewRecordView {
    pub open spec fn approves(self) -> bool {
        self.state == "APPROVED"@
    }

    pub open spec fn requests_changes(self) -> bool {
        self.state == "CHANGES_REQUESTED"@
    }

    /// The approval that the record stands for: given at the instant the
    /// platform wrote, or at `fallback` where it wrote none that can be read.
    pub open spec fn approval(self, fallback: Timestamp) -> ApprovalView {
        ApprovalView {
            reviewer: self.user,
            approved_at: match self.submitted_at {
                Some(t) => match parsed_instant(t) {
                    Some(at) => at,
                    None => fallback,
                },
                None => fallback,
            },
        }
    }
}

/// Where a pull request stands. An open one with a request for changes is
/// `ChangesRequested`, whatever approvals it has; else one with an approval is
/// `Approved`; a closed one is `Closed`; anything else is `Open`.
pub open spec fn review_state_of(pr_state: Seq<char>, reviews: Seq<ReviewRecordView>) -> ReviewState {
    if pr_state == "open"@ {
        if exists|i: int| 0 <= i < reviews.len() && (#[trigger] reviews[i]).requests_changes() {
            ReviewState::ChangesRequested
        } else if exists|i: int| 0 <= i < reviews.len() && (#[trigger] reviews[i]).approves() {
            ReviewState::Approved
        } else {
            ReviewState::Open
        }
    } else if pr_state == "closed"@ {
        ReviewState::Closed
    } else {
        ReviewState::Open
    }
}

/// The approvals among the reviews, in their order.
pub open spec fn approvals_of(reviews: Seq<ReviewRecordView>, fallback: Timestamp) -> Seq<
    ApprovalView,
>
    decreases reviews.len(),
{
    if reviews.len() == 0 {
        Seq::empty()
    } else if reviews.last().approves() {
        approvals_of(reviews.drop_last(), fallback).push(reviews.last().approval(fallback))
    } else {
        approvals_of(reviews.drop_last(), fallback)
    }
}

/// The reading of a review from what the platform answered: the state of the
/// pull request, whether it can be merged (no answer counts as no), its
/// reviews and its CI status.
pub open spec fn review_status_of(
    id: Seq<char>,
    pr_state: Seq<char>,
    mergeable: Option<bool>,
    reviews: Seq<ReviewRecordView>,
    ci_status: CiStatusView,
    fallback: Timestamp,
) -> ReviewStatusView {
    ReviewStatusView {
        id,
        state: review_state_of(pr_state, reviews),
        approvals: approvals_of(reviews, fallback),
        ci_status,
        mergeable: match mergeable {
            Some(m) => m,
            None => false,
        },
    }
}

/// Where a pull request stands, from its state and its reviews.
pub fn review_state(pr_state: &str, reviews: &Vec<ReviewRecord>) -> (state: ReviewState)
    ensures
        state == review_state_of(pr_state@, reviews.deep_view()),
{
    if same_text(pr_state, "open") {
        let mut approved = false;
        let mut i: usize = 0;
        while i < reviews.len()
            invariant
                i <= reviews.len(),
                pr_state@ == "open"@,
                forall|k: int| 0 <= k < i ==> !(#[trigger] reviews.deep_view()[k]).requests_changes(),
                approved <==> exists|k: int|
                    0 <= k < i && (#[trigger] reviews.deep_view()[k]).approves(),
            decreases reviews.len() - i,
        {
            assert(reviews.deep_view()[i as int] == reviews@[i as int]@);
            if same_text(reviews[i].state.as_str(), "CHANGES_REQUESTED") {
                return ReviewState::ChangesRequested;
            }
            if same_text(reviews[i].state.as_str(), "APPROVED") {
                approved = true;
            }
            i += 1;
        }
        if approved {
            ReviewState::Approved
        } else {
            ReviewState::Open
        }
    } else if same_text(pr_state, "closed") {
        ReviewState::Closed
    } else {
        ReviewState::Open
    }
}

/// The approval by `user`, given at the instant `written` where the platform
/// wrote one that could be read, at `fallback` otherwise.
pub fn approval_from(user: &str, written: Option<Timestamp>, fallback: Timestamp) -> (a: Approval)
    ensures
        a@ == (ApprovalView {
            reviewer: user@,
            approved_at: match written {
                Some(at) => at,
                None => fallback,
            },
        }),
{
    Approval {
        reviewer: user.to_owned(),
        approved_at: match written {
            Some(at) => at,
            None => fallback,
        },
    }
}

/// The approvals among `reviews`, each given at the instant the platform
/// wrote, or at `fallback` where it wrote none that can be read.
pub fn approvals_at(reviews: &Vec<ReviewRecord>, fallback: Timestamp) -> (r: Vec<Approval>)
    ensures
        r.deep_view() == approvals_of(reviews.deep_view(), fallback),
{
    let mut r: Vec<Approval> = Vec::new();
    let mut i: usize = 0;
    while i < reviews.len()
        invariant
            i <= reviews.len(),
            r.deep_view() == approvals_of(reviews.deep_view().take(i as int), fallback),
        decreases reviews.len() - i,
    {
        assert(reviews.deep_view().take(i + 1).drop_last() =~= reviews.deep_view().take(i as int));
        if same_text(reviews[i].state.as_str(), "APPROVED") {
            let written = match &reviews[i].submitted_at {
                Some(t) => parse_instant(t.as_str()),
                None => None,
            };
            let approval = approval_from(reviews[i].user.as_str(), written, fallback);
            r.push(approval);
        }
        i += 1;
    }
    assert(reviews.deep_view().take(reviews.len() as int) =~= reviews.deep_view());
    r
}

/// The reading of review `id` from what the platform answered, with
/// `fallback` as the time of approvals that carry none.
pub fn review_status_at(
    id: &ReviewId,
    pr_state: &str,
    mergeable: Option<bool>,
    reviews: &Vec<ReviewRecord>,
    ci_status: CiStatus,
    fallback: Timestamp,
) -> (r: ReviewStatus)
    ensures
        r@ == review_status_of(
            id@,
            pr_state@,
            mergeable,
            reviews.deep_view(),
            ci_status@,
            fallback,
        ),
{
    ReviewStatus {
        id: id.clone(),
        state: review_state(pr_state, reviews),
        approvals: approvals_at(reviews, fallback),
        ci_status,
        mergeable: match mergeable {
            Some(m) => m,
            None => false,
        },
    }
}

/// The reading of review `id` from what the platform answered. Approvals
/// that carry no readable time are taken to be given now.
pub fn review_status(
    id: &ReviewId,
    pr_state: &str,
    mergeable: Option<bool>,
    reviews: &Vec<ReviewRecord>,
    ci_status: CiStatus,
) -> (r: ReviewStatus)
    ensures
        exists|fallback: Timestamp|
            r@ == review_status_of(
                id@,
                pr_state@,
                mergeable,
                reviews.deep_view(),
                ci_status@,
                fallback,
            ),
{
    let fallback = now();
    review_status_at(id, pr_state, mergeable, reviews, ci_status, fallback)
}

/// One check run on a commit, as the platform lists it.
#[derive(Debug, PartialEq, Eq)]
pub struct CheckRun {
    pub name: String,
    /// `completed`, `in_progress`, `queued`, or another word of the platform.
    pub status: String,
    /// How a completed run ended: `success`, `failure`, `timed_out`,
    /// `cancelled`, or another word of the platform.
    pub conclusion: Option<String>,
}

/// `CheckRun` over texts.
pub struct CheckRunView {
    pub name: Seq<char>,
    pub status: Seq<char>,
    pub conclusion: Option<Seq<char>>,
}

impl View for CheckRun {
    type V = CheckRunView;

    open spec fn view(&self) -> CheckRunView {
        CheckRunView {
            name: self.name@,
            status: self.status@,
            conclusion: match self.conclusion {
                Some(c) => Some(c@),
                None => None,
            },
        }
    }
}

impl DeepView for CheckRun {
    type V = CheckRunView;

    open spec fn deep_view(&self) -> CheckRunView {
        self@
    }
}

impl CheckRunView {
    /// The run is completed and ended as `how`.
    pub open spec fn concluded(self, how: Seq<char>) -> bool {
        self.status == "completed"@ && self.conclusion == Some(how)
    }

    pub open spec fn cancelled(self) -> bool {
        self.concluded("cancelled"@)
    }

    /// The run failed or ran out of time.
    pub open spec fn failed(self) -> bool {
        self.concluded("failure"@) || self.concluded("timed_out"@)
    }

    /// The run is under way or waits to start.
    pub open spec fn in_flight(self) -> bool {
        self.status == "in_progress"@ || self.status == "queued"@
    }
}

/// The names of the failed runs, in their order.
pub open spec fn failed_names(checks: Seq<CheckRunView>) -> Seq<Seq<char>>
    decreases checks.len(),
{
    if checks.len() == 0 {
        Seq::empty()
    } else if checks.last().failed() {
        failed_names(checks.drop_last()).push(checks.last().name)
    } else {
        failed_names(checks.drop_last())
    }
}

/// The CI status that the check runs of a commit add up to: pending where
/// none has reported; cancelled where any was cancelled; else failed, with the
/// names of the failed runs, where any failed; else running where any is in
/// flight; else success.
pub open spec fn ci_status_of(checks: Seq<CheckRunView>) -> CiStatusView {
    if checks.len() == 0 {
        CiStatusView::Pending
    } else if exists|i: int| 0 <= i < checks.len() && (#[trigger] checks[i]).cancelled() {
        CiStatusView::Cancelled
    } else if failed_names(checks).len() > 0 {
        CiStatusView::Failed(failed_names(checks))
    } else if exists|i: int| 0 <= i < checks.len() && (#[trigger] checks[i]).in_flight() {
        CiStatusView::Running
    } else {
        CiStatusView::Success
    }
}

fn concluded_as(check: &CheckRun, how: &str) -> (b: bool)
    ensures
        b == (check@.conclusion == Some(how@)),
{
    match &check.conclusion {
        Some(c) => same_text(c.as_str(), how),
        None => false,
    }
}

/// The CI status that the check runs of a commit add up to.
pub fn ci_status(checks: &Vec<CheckRun>) -> (status: CiStatus)
    ensures
        status@ == ci_status_of(checks.deep_view()),
{
    if checks.len() == 0 {
        return CiStatus::Pending;
    }
    let mut running = false;
    let mut failures: Vec<String> = Vec::new();
    let mut i: usize = 0;
    while i < checks.len()
        invariant
            i <= checks.len(),
            forall|k: int| 0 <= k < i ==> !(#[trigger] checks.deep_view()[k]).cancelled(),
            running <==> exists|k: int| 0 <= k < i && (#[trigger] checks.deep_view()[k]).in_flight(),
            failures.deep_view() == failed_names(checks.deep_view().take(i as int)),
        decreases checks.len() - i,
    {
        assert(checks.deep_view().take(i + 1).drop_last() =~= checks.deep_view().take(i as int));
        assert(checks.deep_view()[i as int] == checks@[i as int]@);
        let check = &checks[i];
        proof {
            // a completed run is not in flight: the words differ in length
            reveal_strlit("completed");
            reveal_strlit("in_progress");
            reveal_strlit("queued");
            assert("completed"@.len() == 9 && "in_progress"@.len() == 11 && "queued"@.len() == 6);
        }
        if same_text(check.status.as_str(), "completed") {
            if concluded_as(check, "cancelled") {
                return CiStatus::Cancelled;
            }
            if concluded_as(check, "failure") || concluded_as(check, "timed_out") {
                failures.push(check.name.clone());
            }
        } else if same_text(check.status.as_str(), "in_progress") || same_text(
            check.status.as_str(),
            "queued",
        ) {
            running = true;
        }
        i += 1;
    }
    assert(checks.deep_view().take(checks.len() as int) =~= checks.deep_view());
    if failures.len() > 0 {
        CiStatus::Failed(failures)
    } else if running {
        CiStatus::Running
    } else {
        CiStatus::Success
    }
}

/// Which status checks a protected branch asks for.
#[derive(Debug, PartialEq, Eq)]
pub struct StatusChecks {
    pub strict: bool,
    pub contexts: Vec<String>,
}

/// Who may dismiss a review on a protected branch.
#[derive(Debug, PartialEq, Eq)]
pub struct DismissalRestrictions {
    pub users: Vec<String>,
    pub teams: Vec<String>,
}

/// What a protected branch asks of the reviews of a pull request.
#[derive(Debug, PartialEq, Eq)]
pub struct PullRequestReviews {
    pub dismissal_restrictions: Option<DismissalRestrictions>,
    pub dismiss_stale_reviews: bool,
    pub require_code_owner_reviews: bool,
    pub required_approving_review_count: u32,
}

/// Who may push to a protected branch.
#[derive(Debug, PartialEq, Eq)]
pub struct Restrictions {
    pub users: Vec<String>,
    pub teams: Vec<String>,
    pub apps: Vec<String>,
}

/// The protection rules that the scheduler asks for on the main branch.
#[derive(Debug, PartialEq, Eq)]
pub struct ProtectionRequest {
    pub required_status_checks: Option<StatusChecks>,
    pub enforce_admins: bool,
    pub required_pull_request_reviews: PullRequestReviews,
    pub restrictions: Option<Restrictions>,
}

impl ProtectionRequest {
    /// The rules let `bot_user` alone push: strict status checks with no
    /// named context; administrators not bound; one approval asked for, stale
    /// approvals dismissed, code owners not asked, nobody named to dismiss;
    /// pushes open to `bot_user` and to no team or app.
    pub open spec fn admits_only(self, bot_user: Seq<char>) -> bool {
        &&& self.required_status_checks matches Some(checks) && checks.strict
            && checks.contexts@.len() == 0
        &&& !self.enforce_admins
        &&& self.required_pull_request_reviews.dismissal_restrictions is None
        &&& self.required_pull_request_reviews.dismiss_stale_reviews
        &&& !self.required_pull_request_reviews.require_code_owner_reviews
        &&& self.required_pull_request_reviews.required_approving_review_count == 1
        &&& self.restrictions matches Some(r) && r.users.deep_view() == seq![bot_user]
            && r.teams@.len() == 0 && r.apps@.len() == 0
    }
}

/// The protection rules under which only `bot_user` can push to the branch.
pub fn protection_request(bot_user: &str) -> (rules: ProtectionRequest)
    ensures
        rules.admits_only(bot_user@),
{
    let mut users: Vec<String> = Vec::new();
    users.push(bot_user.to_owned());
    assert(users.deep_view() =~= seq![bot_user@]);
    ProtectionRequest {
        required_status_checks: Some(StatusChecks { strict: true, contexts: Vec::new() }),
        enforce_admins: false,
        required_pull_request_reviews: PullRequestReviews {
            dismissal_restrictions: None,
            dismiss_stale_reviews: true,
            require_code_owner_reviews: false,
            required_approving_review_count: 1,
        },
        restrictions: Some(Restrictions { users, teams: Vec::new(), apps: Vec::new() }),
    }
}

} // verus!
