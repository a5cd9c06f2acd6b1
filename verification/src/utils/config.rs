//! The configuration the scheduler is started with, and what makes it valid.

use crate::utils::error::{GarryError, GarryErrorView};
use crate::utils::text::has_char;
use vstd::prelude::*;

verus! {

/// The review platform and the repository on it.
#[derive(Debug, PartialEq, Eq)]
pub struct VcsConfig {
    /// Platform type: "github", "gitlab", "bitbucket", "gitea", "self-hosted".
    pub platform: String,
    /// Host of the platform, such as "github.com" or a domain of one's own.
    pub host: String,
    /// Authentication token.
    pub token: String,
    /// Repository, as "owner/repo".
    pub repository: String,
}

/// The scheduler service.
#[derive(Debug, PartialEq, Eq)]
pub struct BotConfig {
    /// Port of the webhook listener.
    pub webhook_port: u16,
    /// Seconds between two cycles.
    pub queue_check_interval: u64,
    /// Seconds a CI run may take.
    pub ci_timeout: u64,
    /// Name of the protected branch.
    pub main_branch: String,
}

/// Local git.
#[derive(Debug, PartialEq, Eq)]
pub struct GitConfig {
    /// Name of the remote to push to.
    pub default_remote: String,
    /// Branch on which squashing is based.
    pub squash_base: String,
}

/// The whole configuration.
#[derive(Debug, PartialEq, Eq)]
pub struct Config {
    pub vcs: VcsConfig,
    pub bot: BotConfig,
    pub git: GitConfig,
}

/// `VcsConfig` over texts.
pub struct VcsConfigView {
    pub platform: Seq<char>,
    pub host: Seq<char>,
    pub token: Seq<char>,
    pub repository: Seq<char>,
}

/// `BotConfig` over texts.
pub struct BotConfigView {
    pub webhook_port: u16,
    pub queue_check_interval: u64,
    pub ci_timeout: u64,
    pub main_branch: Seq<char>,
}

/// `GitConfig` over texts.
pub struct GitConfigView {
    pub default_remote: Seq<char>,
    pub squash_base: Seq<char>,
}

/// `Config` over texts.
pub struct ConfigView {
    pub vcs: VcsConfigView,
    pub bot: BotConfigView,
    pub git: GitConfigView,
}

impl View for VcsConfig {
    type V = VcsConfigView;

    open spec fn view(&self) -> VcsConfigView {
        VcsConfigView {
            platform: self.platform@,
            host: self.host@,
            token: self.token@,
            repository: self.repository@,
        }
    }
}

impl View for BotConfig {
    type V = BotConfigView;

    open spec fn view(&self) -> BotConfigView {
        BotConfigView {
            webhook_port: self.webhook_port,
            queue_check_interval: self.queue_check_interval,
            ci_timeout: self.ci_timeout,
            main_branch: self.main_branch@,
        }
    }
}

impl View for GitConfig {
    type V = GitConfigView;

    open spec fn view(&self) -> GitConfigView {
        GitConfigView { default_remote: self.default_remote@, squash_base: self.squash_base@ }
    }
}

impl View for Config {
    type V = ConfigView;

    open spec fn view(&self) -> ConfigView {
        ConfigView { vcs: self.vcs@, bot: self.bot@, git: self.git@ }
    }
}

impl Clone for VcsConfig {
    fn clone(&self) -> (r: Self)
        ensures
            r@ == self@,
    {
        VcsConfig {
            platform: self.platform.clone(),
            host: self.host.clone(),
            token: self.token.clone(),
            repository: self.repository.clone(),
        }
    }
}

impl Clone for BotConfig {
    fn clone(&self) -> (r: Self)
        ensures
            r@ == self@,
    {
        BotConfig {
            webhook_port: self.webhook_port,
            queue_check_interval: self.queue_check_interval,
            ci_timeout: self.ci_timeout,
            main_branch: self.main_branch.clone(),
        }
    }
}

impl Clone for GitConfig {
    fn clone(&self) -> (r: Self)
        ensures
            r@ == self@,
    {
        GitConfig {
            default_remote: self.default_remote.clone(),
            squash_base: self.squash_base.clone(),
        }
    }
}

impl Clone for Config {
    fn clone(&self) -> (r: Self)
        ensures
            r@ == self@,
    {
        Config { vcs: self.vcs.clone(), bot: self.bot.clone(), git: self.git.clone() }
    }
}

/// The configuration with nothing set: GitHub as platform, no token and no
/// repository, a cycle every 30 seconds, an hour for CI, `main` protected, and
/// `origin` to push to.
pub open spec fn default_config() -> ConfigView {
    ConfigView {
        vcs: VcsConfigView {
            platform: "github"@,
            host: "github.com"@,
            token: Seq::empty(),
            repository: Seq::empty(),
        },
        bot: BotConfigView {
            webhook_port: 8080,
            queue_check_interval: 30,
            ci_timeout: 3600,
            main_branch: "main"@,
        },
        git: GitConfigView { default_remote: "origin"@, squash_base: "main"@ },
    }
}

/// What is wrong with a configuration, if anything. The first fault found
/// counts: no token, then no repository, then a repository without a slash.
pub open spec fn config_fault(c: ConfigView) -> Option<Seq<char>> {
    if c.vcs.token.len() == 0 {
        Some("VCS token is required"@)
    } else if c.vcs.repository.len() == 0 {
        Some("VCS repository is required"@)
    } else if !c.vcs.repository.contains('/') {
        Some("Repository must be in format 'owner/repo'"@)
    } else {
        None
    }
}

/// Settings taken from the environment; each one that is there replaces what
/// the configuration file says.
#[derive(Debug, PartialEq, Eq)]
pub struct Overrides {
    pub token: Option<String>,
    pub platform: Option<String>,
    pub host: Option<String>,
    pub repository: Option<String>,
}

/// One setting after its override.
pub open spec fn overridden(setting: Seq<char>, by: Option<String>) -> Seq<char> {
    match by {
        Some(value) => value@,
        None => setting,
    }
}

/// A configuration after the overrides.
pub open spec fn with_overrides(c: ConfigView, o: Overrides) -> ConfigView {
    ConfigView {
        vcs: VcsConfigView {
            platform: overridden(c.vcs.platform, o.platform),
            host: overridden(c.vcs.host, o.host),
            token: overridden(c.vcs.token, o.token),
            repository: overridden(c.vcs.repository, o.repository),
        },
        ..c
    }
}

/// The configuration chosen from the file of the repository and the file of
/// the user: the first of the two that was read and is valid.
pub open spec fn first_valid(repo: Option<ConfigView>, user: Option<ConfigView>) -> Option<
    ConfigView,
> {
    if repo is Some && config_fault(repo->0) is None {
        repo
    } else if user is Some && config_fault(user->0) is None {
        user
    } else {
        None
    }
}

impl Default for Config {
    fn default() -> (c: Self)
        ensures
            c@ == default_config(),
    {
        Config {
            vcs: VcsConfig {
                platform: "github".to_owned(),
                host: "github.com".to_owned(),
                token: String::new(),
                repository: String::new(),
            },
            bot: BotConfig {
                webhook_port: 8080,
                queue_check_interval: 30,
                ci_timeout: 3600,
                main_branch: "main".to_owned(),
            },
            git: GitConfig { default_remote: "origin".to_owned(), squash_base: "main".to_owned() },
        }
    }
}

fn replaced(setting: String, by: Option<String>) -> (r: String)
    ensures
        r@ == overridden(setting@, by),
{
    match by {
        Some(value) => value,
        None => setting,
    }
}

impl Config {
    /// Where the configuration file of a repository lies, from its root.
    pub const REPOSITORY_FILE: &'static str = ".garry/config.toml";

    /// Where the configuration file of a user lies, from the home directory.
    pub const USER_FILE: &'static str = ".config/garry/config.toml";

    /// Accepts a configuration that has a token and a repository written
    /// `owner/repo`; refuses any other with the first fault as detail.
    pub fn validate(&self) -> (r: Result<(), GarryError>)
        ensures
            match r {
                Ok(_) => config_fault(self@) is None,
                Err(e) => config_fault(self@) is Some && e@ == GarryErrorView::ConfigError(
                    config_fault(self@)->0,
                ),
            },
    {
        if self.vcs.token.as_str().is_empty() {
            return Err(GarryError::ConfigError("VCS token is required".to_owned()));
        }
        if self.vcs.repository.as_str().is_empty() {
            return Err(GarryError::ConfigError("VCS repository is required".to_owned()));
        }
        if !has_char(self.vcs.repository.as_str(), '/') {
            return Err(
                GarryError::ConfigError("Repository must be in format 'owner/repo'".to_owned()),
            );
        }
        Ok(())
    }

    /// The configuration as read from a file: valid, or refused.
    pub fn load(read: Config) -> (r: Result<Config, GarryError>)
        ensures
            match r {
                Ok(c) => config_fault(read@) is None && c@ == read@,
                Err(e) => config_fault(read@) is Some && e@ == GarryErrorView::ConfigError(
                    config_fault(read@)->0,
                ),
            },
    {
        match read.validate() {
            Ok(_) => Ok(read),
            Err(e) => Err(e),
        }
    }

    /// Chooses between the file of the repository and the file of the user,
    /// each given where it could be read: the repository's where it is valid,
    /// else the user's where it is valid, else no configuration is found.
    pub fn load_with_fallback(repo: Option<Config>, user: Option<Config>) -> (r: Result<
        Config,
        GarryError,
    >)
        ensures
            match r {
                Ok(c) => first_valid(view_of(repo), view_of(user)) == Some(c@),
                Err(e) => first_valid(view_of(repo), view_of(user)) is None && e@
                    == GarryErrorView::ConfigError(
                    "No configuration file found. Create .garry/config.toml"@,
                ),
            },
    {
        if let Some(c) = repo {
            if let Ok(valid) = Config::load(c) {
                return Ok(valid);
            }
        }
        if let Some(c) = user {
            if let Ok(valid) = Config::load(c) {
                return Ok(valid);
            }
        }
        Err(
            GarryError::ConfigError(
                "No configuration file found. Create .garry/config.toml".to_owned(),
            ),
        )
    }

    /// The configuration `base` with the overrides from the environment put
    /// in: valid after that, or refused.
    pub fn load_with_env(base: Config, overrides: Overrides) -> (r: Result<Config, GarryError>)
        ensures
            match r {
                Ok(c) => c@ == with_overrides(base@, overrides) && config_fault(c@) is None,
                Err(e) => config_fault(with_overrides(base@, overrides)) is Some && e@
                    == GarryErrorView::ConfigError(
                    config_fault(with_overrides(base@, overrides))->0,
                ),
            },
    {
        let config = Config {
            vcs: VcsConfig {
                platform: replaced(base.vcs.platform, overrides.platform),
                host: replaced(base.vcs.host, overrides.host),
                token: replaced(base.vcs.token, overrides.token),
                repository: replaced(base.vcs.repository, overrides.repository),
            },
            bot: base.bot,
            git: base.git,
        };
        Config::load(config)
    }
}

/// A configuration that may be missing, over texts.
pub open spec fn view_of(c: Option<Config>) -> Option<ConfigView> {
    match c {
        Some(c) => Some(c@),
        None => None,
    }
}

} // verus!
