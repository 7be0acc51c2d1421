//! Builders for the destination-side request payloads.
//!
//! Each builder is specified against a spec-level image of the payload, so
//! the flows' transition functions can state exactly which request a step
//! emits.

use vstd::prelude::*;

use crate::forgejo::{
    ForgejoCreateOrganisationRequest, ForgejoCreateOrganisationRequestView,
    ForgejoMigrateRepoService, ForgejoMigrateRepositoryRequest,
    ForgejoMigrateRepositoryRequestView, ForgejoVisibility,
};
use crate::github::{GithubOwner, GithubOwnerView, GithubRepository, GithubRepositoryView};
use crate::text::{clone_opt_string, concat2, concat4, empty_text, str_or_empty, text_or_empty};

verus! {

/// Whether the flow mirrors an organisation or a user account: the two
/// differ in how the owner is fetched and how its mirror description reads.
#[derive(Clone, Copy, PartialEq, Eq, Structural, Debug)]
pub enum SourceKind {
    Organisation,
    User,
}

/// The per-feature migration toggles a command supplies.
#[derive(Clone, Copy, PartialEq, Eq, Structural, Debug)]
pub struct MigrationSettings {
    pub issues: bool,
    pub labels: bool,
    pub lfs: bool,
    pub milestones: bool,
    pub pull_requests: bool,
    pub releases: bool,
    pub wiki: bool,
}

/// Description carried by every migrated repository: the fixed mirror
/// marker, then the source description, or nothing when it is absent.
pub open spec fn spec_mirror_description(description: Option<Seq<char>>) -> Seq<char> {
    "[MIRROR] "@ + text_or_empty(description)
}

/// The shared base of the batch flows' migration requests: owner, token,
/// toggles and visibility fixed, name, clone address and description blank.
pub open spec fn spec_base_migration_request(
    auth_token: Seq<char>,
    repo_owner: Seq<char>,
    private: bool,
    settings: MigrationSettings,
) -> ForgejoMigrateRepositoryRequestView {
    ForgejoMigrateRepositoryRequestView {
        auth_token: auth_token,
        clone_addr: empty_text(),
        description: None,
        issues: settings.issues,
        labels: settings.labels,
        lfs: settings.lfs,
        lfs_endpoint: None,
        milestones: settings.milestones,
        mirror: true,
        mirror_interval: None,
        private: private,
        pull_requests: settings.pull_requests,
        releases: settings.releases,
        repo_name: empty_text(),
        repo_owner: repo_owner,
        service: ForgejoMigrateRepoService::Github,
        wiki: settings.wiki,
    }
}

/// The request migrating one repository: the base, overridden in name,
/// clone address and mirror-marked description.
pub open spec fn spec_migration_request(
    base: ForgejoMigrateRepositoryRequestView,
    repo: GithubRepositoryView,
) -> ForgejoMigrateRepositoryRequestView {
    ForgejoMigrateRepositoryRequestView {
        clone_addr: repo.clone_url,
        description: Some(spec_mirror_description(repo.description)),
        repo_name: repo.name,
        ..base
    }
}

/// Exec image of [`spec_base_migration_request`].
pub fn build_base_migration_request(
    auth_token: &String,
    repo_owner: &String,
    private: bool,
    settings: MigrationSettings,
) -> (r: ForgejoMigrateRepositoryRequest)
    ensures
        r@ == spec_base_migration_request(auth_token@, repo_owner@, private, settings),
{
    ForgejoMigrateRepositoryRequest {
        auth_token: auth_token.clone(),
        clone_addr: String::new(),
        description: None,
        issues: settings.issues,
        labels: settings.labels,
        lfs: settings.lfs,
        lfs_endpoint: None,
        milestones: settings.milestones,
        mirror: true,
        mirror_interval: None,
        private: private,
        pull_requests: settings.pull_requests,
        releases: settings.releases,
        repo_name: String::new(),
        repo_owner: repo_owner.clone(),
        service: ForgejoMigrateRepoService::Github,
        wiki: settings.wiki,
    }
}

/// Exec image of [`spec_migration_request`]: one batch-flow request,
/// derived from the shared base and one listed repository.
pub fn build_migration_request(
    base: &ForgejoMigrateRepositoryRequest,
    repo: &GithubRepository,
) -> (r: ForgejoMigrateRepositoryRequest)
    ensures
        r@ == spec_migration_request(base@, repo@),
{
    ForgejoMigrateRepositoryRequest {
        auth_token: base.auth_token.clone(),
        clone_addr: repo.clone_url.clone(),
        description: Some(concat2("[MIRROR] ", str_or_empty(&repo.description))),
        issues: base.issues,
        labels: base.labels,
        lfs: base.lfs,
        lfs_endpoint: clone_opt_string(&base.lfs_endpoint),
        milestones: base.milestones,
        mirror: base.mirror,
        mirror_interval: clone_opt_string(&base.mirror_interval),
        private: base.private,
        pull_requests: base.pull_requests,
        releases: base.releases,
        repo_name: repo.name.clone(),
        repo_owner: base.repo_owner.clone(),
        service: base.service,
        wiki: base.wiki,
    }
}

/// The request the single-repository command issues: built directly, with
/// the repository name taken from the URL, the clone address from the
/// fetched record's web address, and the mirror-marked description.
pub open spec fn spec_single_migration_request(
    auth_token: Seq<char>,
    repo_owner: Seq<char>,
    repo_name: Seq<char>,
    repo: GithubRepositoryView,
    private: bool,
    settings: MigrationSettings,
) -> ForgejoMigrateRepositoryRequestView {
    ForgejoMigrateRepositoryRequestView {
        clone_addr: repo.html_url,
        description: Some(spec_mirror_description(repo.description)),
        repo_name: repo_name,
        ..spec_base_migration_request(auth_token, repo_owner, private, settings)
    }
}

/// Exec image of [`spec_single_migration_request`].
pub fn build_single_migration_request(
    auth_token: &String,
    repo_owner: &String,
    repo_name: &String,
    repo: &GithubRepository,
    private: bool,
    settings: MigrationSettings,
) -> (r: ForgejoMigrateRepositoryRequest)
    ensures
        r@ == spec_single_migration_request(
            auth_token@,
            repo_owner@,
            repo_name@,
            repo@,
            private,
            settings,
        ),
{
    ForgejoMigrateRepositoryRequest {
        auth_token: auth_token.clone(),
        clone_addr: repo.html_url.clone(),
        description: Some(concat2("[MIRROR] ", str_or_empty(&repo.description))),
        issues: settings.issues,
        labels: settings.labels,
        lfs: settings.lfs,
        lfs_endpoint: None,
        milestones: settings.milestones,
        mirror: true,
        mirror_interval: None,
        private: private,
        pull_requests: settings.pull_requests,
        releases: settings.releases,
        repo_name: repo_name.clone(),
        repo_owner: repo_owner.clone(),
        service: ForgejoMigrateRepoService::Github,
        wiki: settings.wiki,
    }
}

/// The display name recorded on a created organisation: present exactly
/// when a display name was computed and it differs from the chosen
/// username.
pub open spec fn spec_full_name(
    display: Option<Seq<char>>,
    username: Seq<char>,
) -> Option<Seq<char>> {
    match display {
        Some(d) => if d != username {
            Some(d)
        } else {
            None
        },
        None => None,
    }
}

/// The description recorded on a created organisation: the source profile
/// URL, and for an organisation also its own description underneath.
pub open spec fn spec_owner_mirror_description(
    kind: SourceKind,
    owner: GithubOwnerView,
) -> Seq<char> {
    match kind {
        SourceKind::Organisation => "Mirror of "@ + owner.html_url + "\n\n"@ + text_or_empty(
            owner.description,
        ),
        SourceKind::User => "Mirror of "@ + owner.html_url,
    }
}

/// The payload creating the destination owner.
pub open spec fn spec_create_organisation_request(
    kind: SourceKind,
    username: Seq<char>,
    display: Option<Seq<char>>,
    owner: GithubOwnerView,
    visibility: ForgejoVisibility,
) -> ForgejoCreateOrganisationRequestView {
    ForgejoCreateOrganisationRequestView {
        description: Some(spec_owner_mirror_description(kind, owner)),
        email: None,
        full_name: spec_full_name(display, username),
        location: None,
        repo_admin_change_team_access: Some(false),
        username: username,
        visibility: Some(visibility),
        website: owner.blog,
    }
}

/// Exec image of [`spec_create_organisation_request`].
pub fn build_create_organisation_request(
    kind: SourceKind,
    username: &String,
    display: &Option<String>,
    owner: &GithubOwner,
    visibility: ForgejoVisibility,
) -> (r: ForgejoCreateOrganisationRequest)
    ensures
        r@ == spec_create_organisation_request(
            kind,
            username@,
            display.deep_view(),
            owner@,
            visibility,
        ),
{
    let description = match kind {
        SourceKind::Organisation => concat4(
            "Mirror of ",
            owner.html_url.as_str(),
            "\n\n",
            str_or_empty(&owner.description),
        ),
        SourceKind::User => concat2("Mirror of ", owner.html_url.as_str()),
    };
    let full_name = match display {
        Some(d) => if !d.eq(username) {
            Some(d.clone())
        } else {
            None
        },
        None => None,
    };
    ForgejoCreateOrganisationRequest {
        description: Some(description),
        email: None,
        full_name,
        location: None,
        repo_admin_change_team_access: Some(false),
        username: username.clone(),
        visibility: Some(visibility),
        website: clone_opt_string(&owner.blog),
    }
}

} // verus!
