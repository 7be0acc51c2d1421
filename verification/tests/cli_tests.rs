use forgejo_import::cli::{
    merge_config, validate_cmd, Commands, ConfigError, DeleteForgejoOrganisationCommand,
    ForgejoImportConfig, MirrorUserCommand,
};
use forgejo_import::forgejo::ForgejoVisibility;

fn user_cmd(
    url: Option<&str>,
    forgejo_token: Option<&str>,
    github_token: Option<&str>,
) -> Commands {
    Commands::MirrorUser(MirrorUserCommand {
        forgejo_url: url.map(|s| s.to_string()),
        forgejo_token: forgejo_token.map(|s| s.to_string()),
        github_token: github_token.map(|s| s.to_string()),
        visibility: ForgejoVisibility::Public,
        output_organisation_name: None,
        migrate_lfs: false,
        migrate_wiki: false,
        migrate_labels: false,
        migrate_issues: false,
        migrate_pull_requests: false,
        migrate_releases: false,
        migrate_milestones: false,
        github_user_name: "alice".to_string(),
    })
}

fn missing(r: Result<(), ConfigError>) -> String {
    match r {
        Err(ConfigError::MissingRequiredArgument(m)) => m,
        Ok(()) => panic!("expected a missing argument"),
    }
}

#[test]
fn validate_reports_the_first_missing_setting() {
    assert_eq!(missing(validate_cmd(&user_cmd(None, None, None))), "forgejo-url");
    assert_eq!(missing(validate_cmd(&user_cmd(Some("u"), None, None))), "forgejo-token");
    assert_eq!(missing(validate_cmd(&user_cmd(Some("u"), Some("t"), None))), "github-token");
    assert!(validate_cmd(&user_cmd(Some("u"), Some("t"), Some("g"))).is_ok());
}

#[test]
fn validate_delete_needs_no_github_token() {
    let cmd = Commands::DeleteOrg(DeleteForgejoOrganisationCommand {
        forgejo_url: Some("u".to_string()),
        forgejo_token: None,
        forgejo_organisation_name: "acme".to_string(),
    });
    assert_eq!(missing(validate_cmd(&cmd)), "forgejo-token");
}

#[test]
fn merge_fills_only_unset_credentials() {
    let mut cmd = user_cmd(None, Some("cli-token"), None);
    let config = ForgejoImportConfig {
        forgejo_url: Some("https://forge.example".to_string()),
        forgejo_token: Some("cfg-token".to_string()),
        github_token: Some("cfg-github".to_string()),
        migrate_wiki: Some(true),
        migrate_lfs: None,
    };
    merge_config(&mut cmd, &config);
    match cmd {
        Commands::MirrorUser(c) => {
            assert_eq!(c.forgejo_url, Some("https://forge.example".to_string()));
            assert_eq!(c.forgejo_token, Some("cli-token".to_string()));
            assert_eq!(c.github_token, Some("cfg-github".to_string()));
            assert!(c.migrate_wiki);
            assert!(!c.migrate_lfs);
        }
        _ => panic!("variant changed"),
    }
}
