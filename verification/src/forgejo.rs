//! Destination-side data model: the request payloads the orchestration
//! builds and the repository snapshots the destination API reports.
//!
//! Response payloads carry only the fields the flows inspect; the rest of
//! the upstream schema stays with the driver that performs the I/O.

use vstd::prelude::*;

use crate::status::{probe_outcome, require_success, spec_is_success, STATUS_NOT_FOUND};

verus! {

/// The upstream service a migration clones from.
#[derive(Clone, Copy, PartialEq, Eq, Structural, Debug)]
pub enum ForgejoMigrateRepoService {
    Git,
    Github,
    Gitea,
    Gitlab,
    Gogs,
    OneDev,
    Gitbucket,
    Codebase,
}

/// Visibility of a created organisation or migrated repository.
#[derive(Clone, Copy, PartialEq, Eq, Structural, Debug)]
pub enum ForgejoVisibility {
    Public,
    Limited,
    Private,
}

/// Payload of a repository migration call, built once per repository from a
/// shared base that differs only in name, clone address and description.
pub struct ForgejoMigrateRepositoryRequest {
    pub auth_token: String,
    pub clone_addr: String,
    pub description: Option<String>,
    pub issues: bool,
    pub labels: bool,
    pub lfs: bool,
    pub lfs_endpoint: Option<String>,
    pub milestones: bool,
    pub mirror: bool,
    pub mirror_interval: Option<String>,
    pub private: bool,
    pub pull_requests: bool,
    pub releases: bool,
    pub repo_name: String,
    pub repo_owner: String,
    pub service: ForgejoMigrateRepoService,
    pub wiki: bool,
}

/// Mathematical image of [`ForgejoMigrateRepositoryRequest`].
pub struct ForgejoMigrateRepositoryRequestView {
    pub auth_token: Seq<char>,
    pub clone_addr: Seq<char>,
    pub description: Option<Seq<char>>,
    pub issues: bool,
    pub labels: bool,
    pub lfs: bool,
    pub lfs_endpoint: Option<Seq<char>>,
    pub milestones: bool,
    pub mirror: bool,
    pub mirror_interval: Option<Seq<char>>,
    pub private: bool,
    pub pull_requests: bool,
    pub releases: bool,
    pub repo_name: Seq<char>,
    pub repo_owner: Seq<char>,
    pub service: ForgejoMigrateRepoService,
    pub wiki: bool,
}

impl View for ForgejoMigrateRepositoryRequest {
    type V = ForgejoMigrateRepositoryRequestView;

    open spec fn view(&self) -> ForgejoMigrateRepositoryRequestView {
        ForgejoMigrateRepositoryRequestView {
            auth_token: self.auth_token@,
            clone_addr: self.clone_addr@,
            description: self.description.deep_view(),
            issues: self.issues,
            labels: self.labels,
            lfs: self.lfs,
            lfs_endpoint: self.lfs_endpoint.deep_view(),
            milestones: self.milestones,
            mirror: self.mirror,
            mirror_interval: self.mirror_interval.deep_view(),
            private: self.private,
            pull_requests: self.pull_requests,
            releases: self.releases,
            repo_name: self.repo_name@,
            repo_owner: self.repo_owner@,
            service: self.service,
            wiki: self.wiki,
        }
    }
}

impl DeepView for ForgejoMigrateRepositoryRequest {
    type V = ForgejoMigrateRepositoryRequestView;

    open spec fn deep_view(&self) -> ForgejoMigrateRepositoryRequestView {
        self.view()
    }
}

/// Payload of an organisation creation call.
pub struct ForgejoCreateOrganisationRequest {
    pub description: Option<String>,
    pub email: Option<String>,
    pub full_name: Option<String>,
    pub location: Option<String>,
    pub repo_admin_change_team_access: Option<bool>,
    pub username: String,
    pub visibility: Option<ForgejoVisibility>,
    pub website: Option<String>,
}

/// Mathematical image of [`ForgejoCreateOrganisationRequest`].
pub struct ForgejoCreateOrganisationRequestView {
    pub description: Option<Seq<char>>,
    pub email: Option<Seq<char>>,
    pub full_name: Option<Seq<char>>,
    pub location: Option<Seq<char>>,
    pub repo_admin_change_team_access: Option<bool>,
    pub username: Seq<char>,
    pub visibility: Option<ForgejoVisibility>,
    pub website: Option<Seq<char>>,
}

impl View for ForgejoCreateOrganisationRequest {
    type V = ForgejoCreateOrganisationRequestView;

    open spec fn view(&self) -> ForgejoCreateOrganisationRequestView {
        ForgejoCreateOrganisationRequestView {
            description: self.description.deep_view(),
            email: self.email.deep_view(),
            full_name: self.full_name.deep_view(),
            location: self.location.deep_view(),
            repo_admin_change_team_access: self.repo_admin_change_team_access,
            username: self.username@,
            visibility: self.visibility,
            website: self.website.deep_view(),
        }
    }
}

impl DeepView for ForgejoCreateOrganisationRequest {
    type V = ForgejoCreateOrganisationRequestView;

    open spec fn deep_view(&self) -> ForgejoCreateOrganisationRequestView {
        self.view()
    }
}

/// Payload of an avatar upload: the image bytes, base64-encoded.
pub struct ForgejoUpdateUserAvatarRequest {
    pub image: String,
}

/// Mathematical image of [`ForgejoUpdateUserAvatarRequest`].
pub struct ForgejoUpdateUserAvatarRequestView {
    pub image: Seq<char>,
}

impl View for ForgejoUpdateUserAvatarRequest {
    type V = ForgejoUpdateUserAvatarRequestView;

    open spec fn view(&self) -> ForgejoUpdateUserAvatarRequestView {
        ForgejoUpdateUserAvatarRequestView { image: self.image@ }
    }
}

impl DeepView for ForgejoUpdateUserAvatarRequest {
    type V = ForgejoUpdateUserAvatarRequestView;

    open spec fn deep_view(&self) -> ForgejoUpdateUserAvatarRequestView {
        self.view()
    }
}

/// Access rights reported for a destination repository.
#[derive(Clone, Copy, PartialEq, Eq, Structural, Debug)]
pub struct ForgejoPermissions {
    pub admin: bool,
    pub push: bool,
    pub pull: bool,
}

/// Issue-tracker settings reported for a destination repository.
#[derive(Clone, Copy, PartialEq, Eq, Structural, Debug)]
pub struct ForgejoInternalTracker {
    pub enable_time_tracker: bool,
    pub allow_only_contributors_to_track_time: bool,
    pub enable_issue_dependencies: bool,
}

/// The owner record embedded in a destination repository listing.
pub struct ForgejoOwner {
    pub id: i64,
    pub login: String,
    pub full_name: String,
    pub email: String,
    pub avatar_url: String,
    pub description: String,
    pub website: String,
    pub visibility: String,
    pub username: String,
}

/// Mathematical image of [`ForgejoOwner`].
pub struct ForgejoOwnerView {
    pub id: int,
    pub login: Seq<char>,
    pub full_name: Seq<char>,
    pub email: Seq<char>,
    pub avatar_url: Seq<char>,
    pub description: Seq<char>,
    pub website: Seq<char>,
    pub visibility: Seq<char>,
    pub username: Seq<char>,
}

impl View for ForgejoOwner {
    type V = ForgejoOwnerView;

    open spec fn view(&self) -> ForgejoOwnerView {
        ForgejoOwnerView {
            id: self.id as int,
            login: self.login@,
            full_name: self.full_name@,
            email: self.email@,
            avatar_url: self.avatar_url@,
            description: self.description@,
            website: self.website@,
            visibility: self.visibility@,
            username: self.username@,
        }
    }
}

impl DeepView for ForgejoOwner {
    type V = ForgejoOwnerView;

    open spec fn deep_view(&self) -> ForgejoOwnerView {
        self.view()
    }
}

/// A repository snapshot on the destination side, as the deletion flow
/// reads it out of a paginated listing.
pub struct ForgejoRepository {
    pub id: i64,
    pub owner: ForgejoOwner,
    pub name: String,
    pub full_name: String,
    pub description: String,
    pub private: bool,
    pub fork: bool,
    pub mirror: bool,
    pub size: i64,
    pub html_url: String,
    pub clone_url: String,
    pub permissions: ForgejoPermissions,
    pub internal_tracker: ForgejoInternalTracker,
}

/// Mathematical image of [`ForgejoRepository`].
pub struct ForgejoRepositoryView {
    pub id: int,
    pub owner: ForgejoOwnerView,
    pub name: Seq<char>,
    pub full_name: Seq<char>,
    pub description: Seq<char>,
    pub private: bool,
    pub fork: bool,
    pub mirror: bool,
    pub size: int,
    pub html_url: Seq<char>,
    pub clone_url: Seq<char>,
    pub permissions: ForgejoPermissions,
    pub internal_tracker: ForgejoInternalTracker,
}

impl View for ForgejoRepository {
    type V = ForgejoRepositoryView;

    open spec fn view(&self) -> ForgejoRepositoryView {
        ForgejoRepositoryView {
            id: self.id as int,
            owner: self.owner@,
            name: self.name@,
            full_name: self.full_name@,
            description: self.description@,
            private: self.private,
            fork: self.fork,
            mirror: self.mirror,
            size: self.size as int,
            html_url: self.html_url@,
            clone_url: self.clone_url@,
            permissions: self.permissions,
            internal_tracker: self.internal_tracker,
        }
    }
}

impl DeepView for ForgejoRepository {
    type V = ForgejoRepositoryView;

    open spec fn deep_view(&self) -> ForgejoRepositoryView {
        self.view()
    }
}

/// Failure raised when the destination API answers outside the 2xx range:
/// the status code and the raw response body.
pub enum ForgejoApiError {
    NoSuccessStatusCodeError(u16, String),
}

/// Classify a completed destination-API exchange: any 2xx is success,
/// anything else becomes this API's typed failure, carrying the status
/// and the raw body verbatim.
pub fn classify_forgejo_response(status: u16, body: String) -> (r: Result<(), ForgejoApiError>)
    ensures
        r is Ok <==> spec_is_success(status),
        !spec_is_success(status) ==> (r matches Err(
            ForgejoApiError::NoSuccessStatusCodeError(s, b),
        ) && s == status && b == body),
{
    match require_success(status, body) {
        Ok(u) => Ok(u),
        Err((s, b)) => Err(ForgejoApiError::NoSuccessStatusCodeError(s, b)),
    }
}

/// Classify a destination existence probe: 404 is a legitimate "not
/// found", any 2xx is "found", and everything else is this API's typed
/// failure.
pub fn classify_forgejo_probe(status: u16, body: String) -> (r: Result<bool, ForgejoApiError>)
    ensures
        r == Ok::<bool, ForgejoApiError>(true) <==> spec_is_success(status),
        r == Ok::<bool, ForgejoApiError>(false) <==> status == STATUS_NOT_FOUND,
        !spec_is_success(status) && status != STATUS_NOT_FOUND ==> (r matches Err(
            ForgejoApiError::NoSuccessStatusCodeError(s, b),
        ) && s == status && b == body),
{
    match probe_outcome(status, body) {
        Ok(found) => Ok(found),
        Err((s, b)) => Err(ForgejoApiError::NoSuccessStatusCodeError(s, b)),
    }
}

} // verus!
