// Branch, commit and push rules; configuration; command-line decisions; the CI wait.

use garry::bot::ci::{CiMonitor, WaitStep, RECHECK_SECS};
use garry::cli::{review_description, review_title, select_platform, should_force_push, Platform};
use garry::utils::config::{Config, Overrides};
use garry::utils::error::GarryError;
use garry::git::branch::BranchOps;
use garry::git::commit::{CommitOps, SquashPlan};
use garry::git::remote::RemoteOps;
use garry::review::CiStatus;

fn texts(items: &[&str]) -> Vec<String> {
    items.iter().map(|s| s.to_string()).collect()
}

fn valid() -> Config {
    let mut c = Config::default();
    c.vcs.token = "SECRET-REDACTED".to_string();
    c.vcs.repository = "owner/repo".to_string();
    c
}

fn no_overrides() -> Overrides {
    Overrides { token: None, platform: None, host: None, repository: None }
}

#[test]
fn branch_name_faults_are_told_apart() {
    assert_eq!(
        BranchOps::validate_branch_name(""),
        Err(GarryError::InvalidBranchName("Branch name cannot be empty".to_string()))
    );
    assert_eq!(
        BranchOps::validate_branch_name("a//b"),
        Err(GarryError::InvalidBranchName("Branch name contains invalid sequences".to_string()))
    );
    assert_eq!(
        BranchOps::validate_branch_name(".."),
        Err(GarryError::InvalidBranchName("Branch name contains invalid sequences".to_string()))
    );
    assert_eq!(BranchOps::validate_branch_name("a/b.c/d"), Ok(()));
    assert_eq!(BranchOps::validate_branch_name("."), Ok(()));
}

#[test]
fn the_current_branch_needs_a_short_name() {
    assert_eq!(BranchOps::get_current_branch(Some("main")), Ok("main".to_string()));
    assert_eq!(
        BranchOps::get_current_branch(None),
        Err(GarryError::GitError("Not on a branch".to_string()))
    );
    assert_eq!(
        BranchOps::already_exists("x"),
        GarryError::InvalidBranchName("Branch 'x' already exists".to_string())
    );
}

#[test]
fn references_are_written_in_full() {
    assert_eq!(BranchOps::local_ref("feature/x"), "refs/heads/feature/x");
    assert_eq!(BranchOps::remote_ref("main"), "refs/remotes/origin/main");
    assert_eq!(RemoteOps::refspec("b", false), "refs/heads/b:refs/heads/b");
    assert_eq!(RemoteOps::refspec("b", true), "+refs/heads/b:refs/heads/b");
}

#[test]
fn squashing_starts_at_two_commits() {
    assert_eq!(CommitOps::squash_plan(0), SquashPlan::UpToDate);
    assert_eq!(CommitOps::squash_plan(1), SquashPlan::SingleCommit);
    assert_eq!(CommitOps::squash_plan(2), SquashPlan::Squash);
    assert_eq!(CommitOps::squash_plan(usize::MAX), SquashPlan::Squash);
}

#[test]
fn the_squashed_message_lists_the_messages_oldest_first() {
    assert_eq!(
        CommitOps::squash_message(&texts(&["third", "second", "first"])),
        "Squashed 3 commits:\n\nfirst\n\nsecond\n\nthird"
    );
    assert_eq!(CommitOps::squash_message(&texts(&["only"])), "only");
    assert_eq!(CommitOps::squash_message(&texts(&[])), "Squashed commit");
    let twelve: Vec<String> = (0..12).map(|n| format!("m{}", n)).collect();
    assert!(CommitOps::squash_message(&twelve).starts_with("Squashed 12 commits:\n\nm11\n\nm10\n\n"));
}

#[test]
fn default_config_values() {
    let c = Config::default();
    assert_eq!(c.vcs.platform, "github");
    assert_eq!(c.vcs.host, "github.com");
    assert_eq!(c.vcs.token, "");
    assert_eq!(c.vcs.repository, "");
    assert_eq!(c.bot.webhook_port, 8080);
    assert_eq!(c.bot.queue_check_interval, 30);
    assert_eq!(c.bot.ci_timeout, 3600);
    assert_eq!(c.bot.main_branch, "main");
    assert_eq!(c.git.default_remote, "origin");
    assert_eq!(c.git.squash_base, "main");
    assert_eq!(c.clone(), c);
}

#[test]
fn config_faults_are_found_in_order() {
    let mut c = Config::default();
    assert_eq!(c.validate(), Err(GarryError::ConfigError("VCS token is required".to_string())));
    c.vcs.token = "SECRET-REDACTED".to_string();
    assert_eq!(
        c.validate(),
        Err(GarryError::ConfigError("VCS repository is required".to_string()))
    );
    c.vcs.repository = "norepo".to_string();
    assert_eq!(
        c.validate(),
        Err(GarryError::ConfigError("Repository must be in format 'owner/repo'".to_string()))
    );
    c.vcs.repository = "owner/repo".to_string();
    assert_eq!(c.validate(), Ok(()));
    assert_eq!(Config::load(c.clone()), Ok(c));
}

#[test]
fn the_repository_file_comes_before_the_user_file() {
    let mut user = valid();
    user.vcs.host = "user.example".to_string();
    assert_eq!(Config::load_with_fallback(Some(valid()), Some(user.clone())), Ok(valid()));
    assert_eq!(Config::load_with_fallback(None, Some(user.clone())), Ok(user.clone()));
    assert_eq!(
        Config::load_with_fallback(Some(Config::default()), Some(user.clone())),
        Ok(user)
    );
    let missing =
        Err(GarryError::ConfigError("No configuration file found. Create .garry/config.toml".to_string()));
    assert_eq!(Config::load_with_fallback(None, None), missing);
    assert_eq!(Config::load_with_fallback(Some(Config::default()), None), missing);
    assert_eq!(Config::REPOSITORY_FILE, ".garry/config.toml");
    assert_eq!(Config::USER_FILE, ".config/garry/config.toml");
}

#[test]
fn the_environment_overrides_the_file() {
    assert_eq!(Config::load_with_env(valid(), no_overrides()), Ok(valid()));
    let overrides = Overrides {
        token: Some("other".to_string()),
        platform: Some("gitlab".to_string()),
        host: Some("gitlab.com".to_string()),
        repository: Some("a/b".to_string()),
    };
    let c = Config::load_with_env(valid(), overrides).unwrap();
    assert_eq!(c.vcs.token, "other");
    assert_eq!(c.vcs.platform, "gitlab");
    assert_eq!(c.vcs.host, "gitlab.com");
    assert_eq!(c.vcs.repository, "a/b");
    assert_eq!(c.bot, valid().bot);
    assert_eq!(c.git, valid().git);
    let broken = Overrides { repository: Some("nowhere".to_string()), ..no_overrides() };
    assert_eq!(
        Config::load_with_env(valid(), broken),
        Err(GarryError::ConfigError("Repository must be in format 'owner/repo'".to_string()))
    );
}

#[test]
fn only_github_has_an_adapter() {
    assert_eq!(select_platform("github"), Ok(Platform::Github));
    assert_eq!(
        select_platform("gitlab"),
        Err(GarryError::VcsError("Unsupported platform: gitlab".to_string()))
    );
    assert_eq!(
        select_platform("GitHub"),
        Err(GarryError::VcsError("Unsupported platform: GitHub".to_string()))
    );
}

#[test]
fn titles_default_to_the_branch() {
    assert_eq!(review_title(None, "feature/x"), "Review: feature/x");
    assert_eq!(review_title(Some("Mine".to_string()), "feature/x"), "Mine");
    assert_eq!(review_description(None, "feature/x"), "Changes from branch feature/x");
    assert_eq!(review_description(Some("".to_string()), "feature/x"), "");
}

#[test]
fn rewritten_history_calls_for_force() {
    assert!(should_force_push("cannot push non-fastforwardable reference"));
    assert!(should_force_push("rejected: non-fast-forward"));
    assert!(!should_force_push("authentication required"));
    assert!(!should_force_push(""));
}

#[test]
fn the_wait_gives_up_past_the_timeout_only() {
    let gate = CiMonitor::new();
    assert_eq!(gate.wait_for_ci(0, 10), WaitStep::Query);
    assert_eq!(gate.wait_for_ci(10, 10), WaitStep::Query);
    assert_eq!(
        gate.wait_for_ci(11, 10),
        WaitStep::Done(CiStatus::Failed(vec!["CI timeout".to_string()]))
    );
}

#[test]
fn the_wait_ends_on_a_run_that_has_ended() {
    let gate = CiMonitor::new();
    assert_eq!(RECHECK_SECS, 30);
    assert_eq!(gate.after_check(CiStatus::Pending), WaitStep::Pause(30));
    assert_eq!(gate.after_check(CiStatus::Running), WaitStep::Pause(30));
    assert_eq!(gate.after_check(CiStatus::Success), WaitStep::Done(CiStatus::Success));
    assert_eq!(gate.after_check(CiStatus::Cancelled), WaitStep::Done(CiStatus::Cancelled));
    let failed = CiStatus::Failed(vec!["x".to_string()]);
    assert_eq!(gate.after_check(failed.clone()), WaitStep::Done(failed));
    assert!(CiStatus::Success.is_terminal() && !CiStatus::Running.is_terminal());
}
