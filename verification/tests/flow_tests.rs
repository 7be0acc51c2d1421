use forgejo_import::cli::{MirrorOrganisationCommand, MirrorRepositoryCommand, MirrorUserCommand};
use forgejo_import::forgejo::ForgejoVisibility;
use forgejo_import::github::{GithubOwner, GithubRepository};
use forgejo_import::mirror::MirrorFlow;
use forgejo_import::protocol::{MirrorAction, MirrorEvent};
use forgejo_import::requests::SourceKind;
use forgejo_import::single::SingleRepoFlow;

fn user_cmd(name: &str) -> MirrorUserCommand {
    MirrorUserCommand {
        forgejo_url: Some("https://forge.example".to_string()),
        forgejo_token: Some("ftok".to_string()),
        github_token: Some("gtok".to_string()),
        visibility: ForgejoVisibility::Public,
        output_organisation_name: None,
        migrate_lfs: false,
        migrate_wiki: false,
        migrate_labels: false,
        migrate_issues: false,
        migrate_pull_requests: false,
        migrate_releases: false,
        migrate_milestones: false,
        github_user_name: name.to_string(),
    }
}

fn org_cmd(name: &str) -> MirrorOrganisationCommand {
    MirrorOrganisationCommand {
        forgejo_url: Some("https://forge.example".to_string()),
        forgejo_token: Some("ftok".to_string()),
        github_token: Some("gtok".to_string()),
        visibility: ForgejoVisibility::Public,
        org_display_name: None,
        org_username: None,
        migrate_lfs: false,
        migrate_wiki: false,
        migrate_labels: false,
        migrate_issues: false,
        migrate_pull_requests: false,
        migrate_releases: false,
        migrate_milestones: false,
        github_organisation_name: name.to_string(),
    }
}

fn owner(login: &str, name: Option<&str>) -> GithubOwner {
    GithubOwner {
        login: login.to_string(),
        name: name.map(|n| n.to_string()),
        html_url: format!("https://github.com/{}", login),
        description: None,
        blog: None,
        avatar_url: format!("https://avatars.example/{}", login),
    }
}

fn repo(name: &str, size: i64) -> GithubRepository {
    GithubRepository {
        name: name.to_string(),
        clone_url: format!("https://github.com/o/{}.git", name),
        html_url: format!("https://github.com/o/{}", name),
        description: None,
        size,
    }
}

fn step_checked(flow: &mut MirrorFlow, event: MirrorEvent) -> MirrorAction {
    assert!(flow.expects_event(&event), "flow does not accept this event here");
    flow.step(event)
}

#[test]
fn fresh_user_mirror_issues_the_expected_call_sequence() {
    let mut flow = MirrorFlow::for_user(&user_cmd("alice"));

    let a = flow.start();
    assert!(
        matches!(a, MirrorAction::FetchSourceOwner { kind: SourceKind::User, ref name } if name == "alice")
    );

    let a = step_checked(&mut flow, MirrorEvent::OwnerFetched(owner("alice", Some("Alice"))));
    assert!(matches!(a, MirrorAction::ProbeDestOwner { ref name } if name == "alice"));

    let a = step_checked(&mut flow, MirrorEvent::OwnerProbed(false));
    match a {
        MirrorAction::CreateDestOwner { request } => {
            assert_eq!(request.username, "alice");
            assert_eq!(request.full_name, Some("Alice".to_string()));
            assert_eq!(
                request.description,
                Some("Mirror of https://github.com/alice".to_string())
            );
        }
        other => panic!("expected a creation call, got {:?}", action_name(&other)),
    }

    let a = step_checked(&mut flow, MirrorEvent::OwnerCreated);
    assert!(
        matches!(a, MirrorAction::FetchSourceAvatar { kind: SourceKind::User, ref login } if login == "alice")
    );

    let a = step_checked(&mut flow, MirrorEvent::AvatarFetched(vec![1, 2, 3]));
    match a {
        MirrorAction::UploadDestAvatar { name, request } => {
            assert_eq!(name, "alice");
            assert_eq!(request.image, "AQID");
        }
        other => panic!("expected the avatar upload, got {:?}", action_name(&other)),
    }

    let a = step_checked(&mut flow, MirrorEvent::AvatarUploaded);
    assert!(
        matches!(a, MirrorAction::ListSourceRepos { login: ref l, page: 1, per_page: 25, .. } if l == "alice")
    );

    let a = step_checked(
        &mut flow,
        MirrorEvent::ReposPage(vec![repo("big", 9000), repo("tiny", 10)]),
    );
    assert!(matches!(a, MirrorAction::ListSourceRepos { page: 2, .. }));

    let a = step_checked(&mut flow, MirrorEvent::ReposPage(Vec::new()));
    assert!(
        matches!(a, MirrorAction::ProbeDestRepo { ref owner, ref name } if owner == "alice" && name == "tiny")
    );

    let a = step_checked(&mut flow, MirrorEvent::RepoProbed(false));
    match a {
        MirrorAction::MigrateRepo { request } => {
            assert_eq!(request.repo_name, "tiny");
            assert_eq!(request.clone_addr, "https://github.com/o/tiny.git");
            assert_eq!(request.repo_owner, "alice");
            assert_eq!(request.auth_token, "gtok");
            assert!(request.mirror);
        }
        other => panic!("expected a migration, got {:?}", action_name(&other)),
    }

    let a = step_checked(&mut flow, MirrorEvent::RepoMigrated);
    assert!(matches!(a, MirrorAction::ProbeDestRepo { ref name, .. } if name == "big"));

    let a = step_checked(&mut flow, MirrorEvent::RepoProbed(false));
    assert!(matches!(a, MirrorAction::MigrateRepo { ref request } if request.repo_name == "big"));

    let a = step_checked(&mut flow, MirrorEvent::RepoMigrated);
    assert!(matches!(a, MirrorAction::Finish));
    assert!(flow.finished());
    assert!(flow.skipped.is_empty());
}

fn action_name(a: &MirrorAction) -> &'static str {
    match a {
        MirrorAction::FetchSourceOwner { .. } => "FetchSourceOwner",
        MirrorAction::FetchSourceRepo { .. } => "FetchSourceRepo",
        MirrorAction::ListSourceRepos { .. } => "ListSourceRepos",
        MirrorAction::ListDestRepos { .. } => "ListDestRepos",
        MirrorAction::ProbeDestOwner { .. } => "ProbeDestOwner",
        MirrorAction::CreateDestOwner { .. } => "CreateDestOwner",
        MirrorAction::FetchSourceAvatar { .. } => "FetchSourceAvatar",
        MirrorAction::UploadDestAvatar { .. } => "UploadDestAvatar",
        MirrorAction::ProbeDestRepo { .. } => "ProbeDestRepo",
        MirrorAction::MigrateRepo { .. } => "MigrateRepo",
        MirrorAction::DeleteDestRepo { .. } => "DeleteDestRepo",
        MirrorAction::DeleteDestOwner { .. } => "DeleteDestOwner",
        MirrorAction::Finish => "Finish",
    }
}

#[test]
fn existing_owner_and_repo_are_skipped_with_one_migration() {
    let mut flow = MirrorFlow::for_organisation(&org_cmd("acme"));

    let a = flow.start();
    assert!(matches!(a, MirrorAction::FetchSourceOwner { kind: SourceKind::Organisation, .. }));

    // An organisation lists its repositories before probing the owner.
    let a = step_checked(&mut flow, MirrorEvent::OwnerFetched(owner("acme", None)));
    assert!(matches!(a, MirrorAction::ListSourceRepos { page: 1, .. }));

    let a = step_checked(
        &mut flow,
        MirrorEvent::ReposPage(vec![repo("existing", 5), repo("missing", 7)]),
    );
    assert!(matches!(a, MirrorAction::ListSourceRepos { page: 2, .. }));

    let a = step_checked(&mut flow, MirrorEvent::ReposPage(Vec::new()));
    assert!(matches!(a, MirrorAction::ProbeDestOwner { ref name } if name == "acme"));

    // The owner exists: no creation call, straight to the repositories.
    let a = step_checked(&mut flow, MirrorEvent::OwnerProbed(true));
    assert!(matches!(a, MirrorAction::ProbeDestRepo { ref name, .. } if name == "existing"));

    // The first repository exists: skipped, not migrated.
    let a = step_checked(&mut flow, MirrorEvent::RepoProbed(true));
    assert!(matches!(a, MirrorAction::ProbeDestRepo { ref name, .. } if name == "missing"));
    assert_eq!(flow.skipped, vec!["existing".to_string()]);

    // The second one is absent: exactly this one is migrated.
    let a = step_checked(&mut flow, MirrorEvent::RepoProbed(false));
    assert!(matches!(a, MirrorAction::MigrateRepo { ref request } if request.repo_name == "missing"));

    let a = step_checked(&mut flow, MirrorEvent::RepoMigrated);
    assert!(matches!(a, MirrorAction::Finish));
    assert!(flow.finished());
}

#[test]
fn second_run_over_a_mirrored_destination_changes_nothing() {
    let mut flow = MirrorFlow::for_organisation(&org_cmd("acme"));
    let mut actions = vec![flow.start()];
    let events = vec![
        MirrorEvent::OwnerFetched(owner("acme", None)),
        MirrorEvent::ReposPage(vec![repo("a", 1), repo("b", 2)]),
        MirrorEvent::ReposPage(Vec::new()),
        MirrorEvent::OwnerProbed(true),
        MirrorEvent::RepoProbed(true),
        MirrorEvent::RepoProbed(true),
    ];
    for event in events {
        actions.push(step_checked(&mut flow, event));
    }
    assert!(flow.finished());
    for a in &actions {
        assert!(!matches!(a, MirrorAction::CreateDestOwner { .. }));
        assert!(!matches!(a, MirrorAction::MigrateRepo { .. }));
    }
    assert_eq!(flow.skipped, vec!["a".to_string(), "b".to_string()]);
}

#[test]
fn listing_always_begins_at_page_one_even_for_an_empty_collection() {
    let mut flow = MirrorFlow::for_organisation(&org_cmd("acme"));
    flow.start();
    let a = step_checked(&mut flow, MirrorEvent::OwnerFetched(owner("acme", None)));
    assert!(matches!(a, MirrorAction::ListSourceRepos { page: 1, per_page: 25, .. }));
    // The collection is empty: the first page still had to be requested,
    // and no second request follows.
    let a = step_checked(&mut flow, MirrorEvent::ReposPage(Vec::new()));
    assert!(!matches!(a, MirrorAction::ListSourceRepos { .. }));
}

#[test]
fn destination_owner_override_is_used_everywhere() {
    let mut cmd = user_cmd("alice");
    cmd.output_organisation_name = Some("mirror-space".to_string());
    let mut flow = MirrorFlow::for_user(&cmd);
    flow.start();
    let a = step_checked(&mut flow, MirrorEvent::OwnerFetched(owner("alice", None)));
    assert!(matches!(a, MirrorAction::ProbeDestOwner { ref name } if name == "mirror-space"));
    let a = step_checked(&mut flow, MirrorEvent::OwnerProbed(false));
    match a {
        MirrorAction::CreateDestOwner { request } => assert_eq!(request.username, "mirror-space"),
        _ => panic!("expected a creation call"),
    }
    // The avatar still comes from the source login.
    let a = step_checked(&mut flow, MirrorEvent::OwnerCreated);
    assert!(matches!(a, MirrorAction::FetchSourceAvatar { ref login, .. } if login == "alice"));
}

fn repo_cmd(url: &str) -> MirrorRepositoryCommand {
    MirrorRepositoryCommand {
        forgejo_url: Some("https://forge.example".to_string()),
        forgejo_token: Some("ftok".to_string()),
        github_token: Some("gtok".to_string()),
        output_owner: "dest".to_string(),
        output_repository_name: None,
        migrate_lfs: false,
        migrate_wiki: false,
        migrate_labels: false,
        migrate_issues: false,
        migrate_pull_requests: false,
        migrate_releases: false,
        migrate_milestones: false,
        private: false,
        github_repository_url: url.to_string(),
    }
}

#[test]
fn unrecognized_url_finishes_with_zero_remote_calls() {
    let mut flow = SingleRepoFlow::for_repository(&repo_cmd("https://example.org/a/b"));
    let a = flow.start();
    assert!(matches!(a, MirrorAction::Finish));
    assert!(flow.finished());
    assert!(!flow.skipped);
}

#[test]
fn single_repository_is_fetched_probed_and_migrated() {
    let mut flow =
        SingleRepoFlow::for_repository(&repo_cmd("https://github.com/alice/project"));
    let a = flow.start();
    assert!(
        matches!(a, MirrorAction::FetchSourceRepo { ref owner, ref name } if owner == "alice" && name == "project")
    );
    let a = flow.step(MirrorEvent::RepoFetched(repo("project", 42)));
    assert!(
        matches!(a, MirrorAction::ProbeDestRepo { ref owner, ref name } if owner == "dest" && name == "project")
    );
    let a = flow.step(MirrorEvent::RepoProbed(false));
    match a {
        MirrorAction::MigrateRepo { request } => {
            assert_eq!(request.repo_name, "project");
            assert_eq!(request.repo_owner, "dest");
            // The single flow clones from the web address of the record.
            assert_eq!(request.clone_addr, "https://github.com/o/project");
        }
        _ => panic!("expected a migration"),
    }
    let a = flow.step(MirrorEvent::RepoMigrated);
    assert!(matches!(a, MirrorAction::Finish));
    assert!(flow.finished());
}

#[test]
fn single_repository_already_present_is_skipped() {
    let mut flow =
        SingleRepoFlow::for_repository(&repo_cmd("git@github.com:alice/project"));
    flow.start();
    flow.step(MirrorEvent::RepoFetched(repo("project", 42)));
    let a = flow.step(MirrorEvent::RepoProbed(true));
    assert!(matches!(a, MirrorAction::Finish));
    assert!(flow.finished());
    assert!(flow.skipped);
}

#[test]
fn display_name_equal_to_the_username_is_dropped_in_the_flow() {
    let mut cmd = org_cmd("acme");
    cmd.org_display_name = Some("acme".to_string());
    let mut flow = MirrorFlow::for_organisation(&cmd);
    flow.start();
    step_checked(&mut flow, MirrorEvent::OwnerFetched(owner("acme", Some("Acme Corp"))));
    step_checked(&mut flow, MirrorEvent::ReposPage(Vec::new()));
    let a = step_checked(&mut flow, MirrorEvent::OwnerProbed(false));
    match a {
        MirrorAction::CreateDestOwner { request } => {
            // The override wins over the fetched display name, and since it
            // equals the chosen username it is dropped from the payload.
            assert_eq!(request.full_name, None);
            assert_eq!(request.username, "acme");
        }
        _ => panic!("expected a creation call"),
    }
}

#[test]
fn repositories_are_sorted_across_page_boundaries() {
    let mut flow = MirrorFlow::for_organisation(&org_cmd("acme"));
    flow.start();
    step_checked(&mut flow, MirrorEvent::OwnerFetched(owner("acme", None)));
    step_checked(&mut flow, MirrorEvent::ReposPage(vec![repo("big", 500), repo("mid", 90)]));
    step_checked(&mut flow, MirrorEvent::ReposPage(vec![repo("tiny", 1)]));
    step_checked(&mut flow, MirrorEvent::ReposPage(Vec::new()));
    // The smallest repository is processed first even though it arrived on
    // the last page.
    let a = step_checked(&mut flow, MirrorEvent::OwnerProbed(true));
    assert!(matches!(a, MirrorAction::ProbeDestRepo { ref name, .. } if name == "tiny"));
    let a = step_checked(&mut flow, MirrorEvent::RepoProbed(true));
    assert!(matches!(a, MirrorAction::ProbeDestRepo { ref name, .. } if name == "mid"));
    let a = step_checked(&mut flow, MirrorEvent::RepoProbed(true));
    assert!(matches!(a, MirrorAction::ProbeDestRepo { ref name, .. } if name == "big"));
}
