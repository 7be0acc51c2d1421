//! Command bundles, configuration defaults and their validation.
//!
//! A command arrives fully parsed; [`merge_config`] fills unset credentials
//! and toggles from a configuration record, and [`validate_cmd`] rejects a
//! command that still misses a required setting, naming the first one
//! missing, before any remote call is attempted.

use vstd::prelude::*;

use crate::forgejo::ForgejoVisibility;
use crate::text::clone_opt_string;

verus! {

/// Top-level command-line input: exactly one command.
pub struct Cli {
    pub command: Commands,
}

/// The four commands the tool performs.
pub enum Commands {
    MirrorOrg(MirrorOrganisationCommand),
    MirrorUser(MirrorUserCommand),
    MirrorRepo(MirrorRepositoryCommand),
    DeleteOrg(DeleteForgejoOrganisationCommand),
}

/// Mirror a source organisation with all its repositories.
pub struct MirrorOrganisationCommand {
    pub forgejo_url: Option<String>,
    pub forgejo_token: Option<String>,
    pub github_token: Option<String>,
    pub visibility: ForgejoVisibility,
    pub org_display_name: Option<String>,
    pub org_username: Option<String>,
    pub migrate_lfs: bool,
    pub migrate_wiki: bool,
    pub migrate_labels: bool,
    pub migrate_issues: bool,
    pub migrate_pull_requests: bool,
    pub migrate_releases: bool,
    pub migrate_milestones: bool,
    pub github_organisation_name: String,
}

/// Mirror a source user with all their repositories.
pub struct MirrorUserCommand {
    pub forgejo_url: Option<String>,
    pub forgejo_token: Option<String>,
    pub github_token: Option<String>,
    pub visibility: ForgejoVisibility,
    pub output_organisation_name: Option<String>,
    pub migrate_lfs: bool,
    pub migrate_wiki: bool,
    pub migrate_labels: bool,
    pub migrate_issues: bool,
    pub migrate_pull_requests: bool,
    pub migrate_releases: bool,
    pub migrate_milestones: bool,
    pub github_user_name: String,
}

/// Mirror one source repository, named by its URL.
pub struct MirrorRepositoryCommand {
    pub forgejo_url: Option<String>,
    pub forgejo_token: Option<String>,
    pub github_token: Option<String>,
    pub output_owner: String,
    pub output_repository_name: Option<String>,
    pub migrate_lfs: bool,
    pub migrate_wiki: bool,
    pub migrate_labels: bool,
    pub migrate_issues: bool,
    pub migrate_pull_requests: bool,
    pub migrate_releases: bool,
    pub migrate_milestones: bool,
    pub private: bool,
    pub github_repository_url: String,
}

/// Delete a destination organisation and every repository under it.
pub struct DeleteForgejoOrganisationCommand {
    pub forgejo_url: Option<String>,
    pub forgejo_token: Option<String>,
    pub forgejo_organisation_name: String,
}

/// Failure raised before any network call: a required setting is absent
/// from both the command line and the configuration file.
pub enum ConfigError {
    MissingRequiredArgument(String),
}

/// Defaults read from a configuration file, each entry optional.
pub struct ForgejoImportConfig {
    pub forgejo_url: Option<String>,
    pub forgejo_token: Option<String>,
    pub github_token: Option<String>,
    pub migrate_wiki: Option<bool>,
    pub migrate_lfs: Option<bool>,
}

/// The first of two optional values, or the second when the first is unset.
pub open spec fn spec_opt_or(a: Option<String>, b: Option<String>) -> Option<String> {
    if a is Some {
        a
    } else {
        b
    }
}

/// A toggle overridden by a configured value whenever one is present.
pub open spec fn spec_bool_override(configured: Option<bool>, current: bool) -> bool {
    match configured {
        Some(b) => b,
        None => current,
    }
}

/// The command after configuration defaults are applied: unset credentials
/// are taken from the configuration, and the wiki and large-file-storage
/// toggles are overridden by configured values; everything else is kept.
pub open spec fn spec_merge_config(cmd: Commands, config: ForgejoImportConfig) -> Commands {
    match cmd {
        Commands::MirrorOrg(c) => Commands::MirrorOrg(spec_merge_org(c, config)),
        Commands::MirrorUser(c) => Commands::MirrorUser(spec_merge_user(c, config)),
        Commands::MirrorRepo(c) => Commands::MirrorRepo(spec_merge_repo(c, config)),
        Commands::DeleteOrg(c) => Commands::DeleteOrg(spec_merge_delete(c, config)),
    }
}

/// The organisation command after defaults are applied.
pub open spec fn spec_merge_org(
    c: MirrorOrganisationCommand,
    config: ForgejoImportConfig,
) -> MirrorOrganisationCommand {
    MirrorOrganisationCommand {
        forgejo_url: spec_opt_or(c.forgejo_url, config.forgejo_url),
        forgejo_token: spec_opt_or(c.forgejo_token, config.forgejo_token),
        github_token: spec_opt_or(c.github_token, config.github_token),
        migrate_wiki: spec_bool_override(config.migrate_wiki, c.migrate_wiki),
        migrate_lfs: spec_bool_override(config.migrate_lfs, c.migrate_lfs),
        ..c
    }
}

/// The user command after defaults are applied.
pub open spec fn spec_merge_user(
    c: MirrorUserCommand,
    config: ForgejoImportConfig,
) -> MirrorUserCommand {
    MirrorUserCommand {
        forgejo_url: spec_opt_or(c.forgejo_url, config.forgejo_url),
        forgejo_token: spec_opt_or(c.forgejo_token, config.forgejo_token),
        github_token: spec_opt_or(c.github_token, config.github_token),
        migrate_wiki: spec_bool_override(config.migrate_wiki, c.migrate_wiki),
        migrate_lfs: spec_bool_override(config.migrate_lfs, c.migrate_lfs),
        ..c
    }
}

/// The single-repository command after defaults are applied.
pub open spec fn spec_merge_repo(
    c: MirrorRepositoryCommand,
    config: ForgejoImportConfig,
) -> MirrorRepositoryCommand {
    MirrorRepositoryCommand {
        forgejo_url: spec_opt_or(c.forgejo_url, config.forgejo_url),
        forgejo_token: spec_opt_or(c.forgejo_token, config.forgejo_token),
        github_token: spec_opt_or(c.github_token, config.github_token),
        migrate_wiki: spec_bool_override(config.migrate_wiki, c.migrate_wiki),
        migrate_lfs: spec_bool_override(config.migrate_lfs, c.migrate_lfs),
        ..c
    }
}

/// The deletion command after defaults are applied.
pub open spec fn spec_merge_delete(
    c: DeleteForgejoOrganisationCommand,
    config: ForgejoImportConfig,
) -> DeleteForgejoOrganisationCommand {
    DeleteForgejoOrganisationCommand {
        forgejo_url: spec_opt_or(c.forgejo_url, config.forgejo_url),
        forgejo_token: spec_opt_or(c.forgejo_token, config.forgejo_token),
        ..c
    }
}

fn merge_org(c: &mut MirrorOrganisationCommand, config: &ForgejoImportConfig)
    ensures
        *final(c) == spec_merge_org(*old(c), *config),
{
    if c.forgejo_url.is_none() {
        c.forgejo_url = clone_opt_string(&config.forgejo_url);
    }
    if c.forgejo_token.is_none() {
        c.forgejo_token = clone_opt_string(&config.forgejo_token);
    }
    if c.github_token.is_none() {
        c.github_token = clone_opt_string(&config.github_token);
    }
    if let Some(wiki) = config.migrate_wiki {
        c.migrate_wiki = wiki;
    }
    if let Some(lfs) = config.migrate_lfs {
        c.migrate_lfs = lfs;
    }
}

fn merge_user(c: &mut MirrorUserCommand, config: &ForgejoImportConfig)
    ensures
        *final(c) == spec_merge_user(*old(c), *config),
{
    if c.forgejo_url.is_none() {
        c.forgejo_url = clone_opt_string(&config.forgejo_url);
    }
    if c.forgejo_token.is_none() {
        c.forgejo_token = clone_opt_string(&config.forgejo_token);
    }
    if c.github_token.is_none() {
        c.github_token = clone_opt_string(&config.github_token);
    }
    if let Some(wiki) = config.migrate_wiki {
        c.migrate_wiki = wiki;
    }
    if let Some(lfs) = config.migrate_lfs {
        c.migrate_lfs = lfs;
    }
}

fn merge_repo(c: &mut MirrorRepositoryCommand, config: &ForgejoImportConfig)
    ensures
        *final(c) == spec_merge_repo(*old(c), *config),
{
    if c.forgejo_url.is_none() {
        c.forgejo_url = clone_opt_string(&config.forgejo_url);
    }
    if c.forgejo_token.is_none() {
        c.forgejo_token = clone_opt_string(&config.forgejo_token);
    }
    if c.github_token.is_none() {
        c.github_token = clone_opt_string(&config.github_token);
    }
    if let Some(wiki) = config.migrate_wiki {
        c.migrate_wiki = wiki;
    }
    if let Some(lfs) = config.migrate_lfs {
        c.migrate_lfs = lfs;
    }
}

fn merge_delete(c: &mut DeleteForgejoOrganisationCommand, config: &ForgejoImportConfig)
    ensures
        *final(c) == spec_merge_delete(*old(c), *config),
{
    if c.forgejo_url.is_none() {
        c.forgejo_url = clone_opt_string(&config.forgejo_url);
    }
    if c.forgejo_token.is_none() {
        c.forgejo_token = clone_opt_string(&config.forgejo_token);
    }
}

/// Fill unset credentials and override toggles from the configuration.
pub fn merge_config(command: &mut Commands, config: &ForgejoImportConfig)
    ensures
        *final(command) == spec_merge_config(*old(command), *config),
{
    match command {
        Commands::MirrorOrg(c) => merge_org(c, config),
        Commands::MirrorUser(c) => merge_user(c, config),
        Commands::MirrorRepo(c) => merge_repo(c, config),
        Commands::DeleteOrg(c) => merge_delete(c, config),
    }
}

/// Whether every setting the command requires is present.
pub open spec fn spec_cmd_complete(cmd: Commands) -> bool {
    match cmd {
        Commands::MirrorOrg(c) => c.forgejo_url is Some && c.forgejo_token is Some
            && c.github_token is Some,
        Commands::MirrorUser(c) => c.forgejo_url is Some && c.forgejo_token is Some
            && c.github_token is Some,
        Commands::MirrorRepo(c) => c.forgejo_url is Some && c.forgejo_token is Some
            && c.github_token is Some,
        Commands::DeleteOrg(c) => c.forgejo_url is Some && c.forgejo_token is Some,
    }
}

/// The name of the first missing required setting, in the order the
/// settings are checked.
pub open spec fn spec_first_missing(cmd: Commands) -> Seq<char> {
    match cmd {
        Commands::MirrorOrg(c) => if c.forgejo_url is None {
            "forgejo-url"@
        } else if c.forgejo_token is None {
            "forgejo-token"@
        } else {
            "github-token"@
        },
        Commands::MirrorUser(c) => if c.forgejo_url is None {
            "forgejo-url"@
        } else if c.forgejo_token is None {
            "forgejo-token"@
        } else {
            "github-token"@
        },
        Commands::MirrorRepo(c) => if c.forgejo_url is None {
            "forgejo-url"@
        } else if c.forgejo_token is None {
            "forgejo-token"@
        } else {
            "github-token"@
        },
        Commands::DeleteOrg(c) => if c.forgejo_url is None {
            "forgejo-url"@
        } else {
            "forgejo-token"@
        },
    }
}

/// Reject a command that misses a required setting, naming the first one
/// missing; accept exactly the complete commands.
pub fn validate_cmd(cmd: &Commands) -> (r: Result<(), ConfigError>)
    ensures
        r is Ok <==> spec_cmd_complete(*cmd),
        r matches Err(e) ==> e matches ConfigError::MissingRequiredArgument(m) && m@
            == spec_first_missing(*cmd),
{
    match cmd {
        Commands::MirrorOrg(c) => {
            if c.forgejo_url.is_none() {
                return Err(ConfigError::MissingRequiredArgument("forgejo-url".to_owned()));
            }
            if c.forgejo_token.is_none() {
                return Err(ConfigError::MissingRequiredArgument("forgejo-token".to_owned()));
            }
            if c.github_token.is_none() {
                return Err(ConfigError::MissingRequiredArgument("github-token".to_owned()));
            }
        },
        Commands::MirrorUser(c) => {
            if c.forgejo_url.is_none() {
                return Err(ConfigError::MissingRequiredArgument("forgejo-url".to_owned()));
            }
            if c.forgejo_token.is_none() {
                return Err(ConfigError::MissingRequiredArgument("forgejo-token".to_owned()));
            }
            if c.github_token.is_none() {
                return Err(ConfigError::MissingRequiredArgument("github-token".to_owned()));
            }
        },
        Commands::MirrorRepo(c) => {
            if c.forgejo_url.is_none() {
                return Err(ConfigError::MissingRequiredArgument("forgejo-url".to_owned()));
            }
            if c.forgejo_token.is_none() {
                return Err(ConfigError::MissingRequiredArgument("forgejo-token".to_owned()));
            }
            if c.github_token.is_none() {
                return Err(ConfigError::MissingRequiredArgument("github-token".to_owned()));
            }
        },
        Commands::DeleteOrg(c) => {
            if c.forgejo_url.is_none() {
                return Err(ConfigError::MissingRequiredArgument("forgejo-url".to_owned()));
            }
            if c.forgejo_token.is_none() {
                return Err(ConfigError::MissingRequiredArgument("forgejo-token".to_owned()));
            }
        },
    }
    Ok(())
}

} // verus!
