use forgejo_import::avatar::build_avatar_request;
use forgejo_import::forgejo::{ForgejoMigrateRepoService, ForgejoVisibility};
use forgejo_import::github::{GithubOwner, GithubRepository};
use forgejo_import::requests::{
    build_base_migration_request, build_create_organisation_request, build_migration_request,
    build_single_migration_request, MigrationSettings, SourceKind,
};

fn settings() -> MigrationSettings {
    MigrationSettings {
        issues: true,
        labels: false,
        lfs: true,
        milestones: false,
        pull_requests: true,
        releases: false,
        wiki: true,
    }
}

fn repo(name: &str, description: Option<&str>, size: i64) -> GithubRepository {
    GithubRepository {
        name: name.to_string(),
        clone_url: format!("https://github.com/o/{}.git", name),
        html_url: format!("https://github.com/o/{}", name),
        description: description.map(|d| d.to_string()),
        size,
    }
}

#[test]
fn migration_description_is_mirror_prefixed() {
    let base = build_base_migration_request(
        &"tok".to_string(),
        &"owner".to_string(),
        false,
        settings(),
    );
    let r = build_migration_request(&base, &repo("lib", Some("a library"), 3));
    assert_eq!(r.description, Some("[MIRROR] a library".to_string()));
}

#[test]
fn migration_description_falls_back_to_empty() {
    let base = build_base_migration_request(
        &"tok".to_string(),
        &"owner".to_string(),
        false,
        settings(),
    );
    let r = build_migration_request(&base, &repo("lib", None, 3));
    assert_eq!(r.description, Some("[MIRROR] ".to_string()));
}

#[test]
fn migration_request_carries_base_and_overrides() {
    let base = build_base_migration_request(
        &"tok".to_string(),
        &"owner".to_string(),
        true,
        settings(),
    );
    assert_eq!(base.auth_token, "tok");
    assert_eq!(base.repo_owner, "owner");
    assert_eq!(base.clone_addr, "");
    assert_eq!(base.repo_name, "");
    assert!(base.mirror);
    assert!(base.private);
    assert!(matches!(base.service, ForgejoMigrateRepoService::Github));
    let r = build_migration_request(&base, &repo("lib", Some("d"), 3));
    assert_eq!(r.repo_name, "lib");
    assert_eq!(r.clone_addr, "https://github.com/o/lib.git");
    assert_eq!(r.auth_token, "tok");
    assert_eq!(r.repo_owner, "owner");
    assert!(r.mirror);
    assert!(r.private);
    assert!(r.issues && r.lfs && r.pull_requests && r.wiki);
    assert!(!r.labels && !r.milestones && !r.releases);
}

#[test]
fn single_migration_uses_web_address_and_url_name() {
    let fetched = repo("real-name", Some("desc"), 9);
    let r = build_single_migration_request(
        &"tok".to_string(),
        &"dest".to_string(),
        &"url-name".to_string(),
        &fetched,
        true,
        settings(),
    );
    assert_eq!(r.repo_name, "url-name");
    assert_eq!(r.clone_addr, "https://github.com/o/real-name");
    assert_eq!(r.description, Some("[MIRROR] desc".to_string()));
    assert!(r.private);
}

fn owner(login: &str, name: Option<&str>) -> GithubOwner {
    GithubOwner {
        login: login.to_string(),
        name: name.map(|n| n.to_string()),
        html_url: format!("https://github.com/{}", login),
        description: Some("a bio".to_string()),
        blog: Some("https://example.org".to_string()),
        avatar_url: format!("https://avatars.example/{}", login),
    }
}

#[test]
fn full_name_dropped_when_it_equals_the_username() {
    let r = build_create_organisation_request(
        SourceKind::Organisation,
        &"acme".to_string(),
        &Some("acme".to_string()),
        &owner("acme", Some("acme")),
        ForgejoVisibility::Public,
    );
    assert_eq!(r.full_name, None);
}

#[test]
fn full_name_kept_when_it_differs_from_the_username() {
    let r = build_create_organisation_request(
        SourceKind::Organisation,
        &"acme".to_string(),
        &Some("Acme Corp".to_string()),
        &owner("acme", Some("Acme Corp")),
        ForgejoVisibility::Public,
    );
    assert_eq!(r.full_name, Some("Acme Corp".to_string()));
}

#[test]
fn full_name_absent_when_no_display_name_exists() {
    let r = build_create_organisation_request(
        SourceKind::User,
        &"alice".to_string(),
        &None,
        &owner("alice", None),
        ForgejoVisibility::Public,
    );
    assert_eq!(r.full_name, None);
}

#[test]
fn organisation_description_includes_profile_and_bio() {
    let r = build_create_organisation_request(
        SourceKind::Organisation,
        &"acme".to_string(),
        &None,
        &owner("acme", None),
        ForgejoVisibility::Limited,
    );
    assert_eq!(
        r.description,
        Some("Mirror of https://github.com/acme\n\na bio".to_string())
    );
    assert_eq!(r.username, "acme");
    assert_eq!(r.visibility, Some(ForgejoVisibility::Limited));
    assert_eq!(r.repo_admin_change_team_access, Some(false));
    assert_eq!(r.email, None);
    assert_eq!(r.location, None);
    assert_eq!(r.website, Some("https://example.org".to_string()));
}

#[test]
fn user_description_is_profile_only() {
    let r = build_create_organisation_request(
        SourceKind::User,
        &"alice".to_string(),
        &None,
        &owner("alice", None),
        ForgejoVisibility::Public,
    );
    assert_eq!(r.description, Some("Mirror of https://github.com/alice".to_string()));
}

#[test]
fn avatar_request_is_base64_encoded() {
    let r = build_avatar_request(&vec![0u8, 0u8, 0u8]);
    assert_eq!(r.image, "AAAA");
    let r = build_avatar_request(&vec![1u8, 2u8, 3u8]);
    assert_eq!(r.image, "AQID");
    let r = build_avatar_request(&vec![255u8]);
    assert_eq!(r.image, "/w==");
    let r = build_avatar_request(&Vec::new());
    assert_eq!(r.image, "");
}
