//! The vocabulary the flows and their driver share: the remote calls a
//! flow can ask for, and the outcomes the driver feeds back.
//!
//! A driver performs exactly the action it is handed, reports the outcome
//! as the matching event, and aborts the command on any hard failure; the
//! flows never see a failed call.

use vstd::prelude::*;

use crate::forgejo::{
    ForgejoCreateOrganisationRequest, ForgejoCreateOrganisationRequestView,
    ForgejoMigrateRepositoryRequest, ForgejoMigrateRepositoryRequestView, ForgejoRepository,
    ForgejoRepositoryView, ForgejoUpdateUserAvatarRequest, ForgejoUpdateUserAvatarRequestView,
};
use crate::github::{GithubOwner, GithubOwnerView, GithubRepository, GithubRepositoryView};
use crate::requests::SourceKind;

verus! {

/// Pages are requested 25 at a time, on both upstreams.
pub const PER_PAGE: usize = 25;

/// The remote call a flow asks its driver to perform next.
pub enum MirrorAction {
    /// Fetch the source owner record.
    FetchSourceOwner { kind: SourceKind, name: String },
    /// Fetch one source repository record.
    FetchSourceRepo { owner: String, name: String },
    /// Fetch one page of the source owner's repository listing.
    ListSourceRepos { kind: SourceKind, login: String, page: usize, per_page: usize },
    /// Fetch one page of the destination owner's repository listing.
    ListDestRepos { name: String, page: usize, per_page: usize },
    /// Probe whether the destination owner exists (404 means absent).
    ProbeDestOwner { name: String },
    /// Create the destination owner.
    CreateDestOwner { request: ForgejoCreateOrganisationRequest },
    /// Fetch the source owner's avatar bytes.
    FetchSourceAvatar { kind: SourceKind, login: String },
    /// Upload the avatar to the destination owner.
    UploadDestAvatar { name: String, request: ForgejoUpdateUserAvatarRequest },
    /// Probe whether the destination repository exists (404 means absent).
    ProbeDestRepo { owner: String, name: String },
    /// Migrate one repository to the destination.
    MigrateRepo { request: ForgejoMigrateRepositoryRequest },
    /// Delete one destination repository.
    DeleteDestRepo { owner: String, name: String },
    /// Delete the destination owner.
    DeleteDestOwner { name: String },
    /// The flow is complete; nothing is left to perform.
    Finish,
}

/// Mathematical image of [`MirrorAction`].
pub enum MirrorActionView {
    FetchSourceOwner { kind: SourceKind, name: Seq<char> },
    FetchSourceRepo { owner: Seq<char>, name: Seq<char> },
    ListSourceRepos { kind: SourceKind, login: Seq<char>, page: int, per_page: int },
    ListDestRepos { name: Seq<char>, page: int, per_page: int },
    ProbeDestOwner { name: Seq<char> },
    CreateDestOwner { request: ForgejoCreateOrganisationRequestView },
    FetchSourceAvatar { kind: SourceKind, login: Seq<char> },
    UploadDestAvatar { name: Seq<char>, request: ForgejoUpdateUserAvatarRequestView },
    ProbeDestRepo { owner: Seq<char>, name: Seq<char> },
    MigrateRepo { request: ForgejoMigrateRepositoryRequestView },
    DeleteDestRepo { owner: Seq<char>, name: Seq<char> },
    DeleteDestOwner { name: Seq<char> },
    Finish,
}

impl View for MirrorAction {
    type V = MirrorActionView;

    open spec fn view(&self) -> MirrorActionView {
        match self {
            MirrorAction::FetchSourceOwner { kind, name } => MirrorActionView::FetchSourceOwner {
                kind: *kind,
                name: name@,
            },
            MirrorAction::FetchSourceRepo { owner, name } => MirrorActionView::FetchSourceRepo {
                owner: owner@,
                name: name@,
            },
            MirrorAction::ListSourceRepos { kind, login, page, per_page } =>
                MirrorActionView::ListSourceRepos {
                kind: *kind,
                login: login@,
                page: *page as int,
                per_page: *per_page as int,
            },
            MirrorAction::ListDestRepos { name, page, per_page } => MirrorActionView::ListDestRepos {
                name: name@,
                page: *page as int,
                per_page: *per_page as int,
            },
            MirrorAction::ProbeDestOwner { name } => MirrorActionView::ProbeDestOwner {
                name: name@,
            },
            MirrorAction::CreateDestOwner { request } => MirrorActionView::CreateDestOwner {
                request: request@,
            },
            MirrorAction::FetchSourceAvatar { kind, login } => MirrorActionView::FetchSourceAvatar {
                kind: *kind,
                login: login@,
            },
            MirrorAction::UploadDestAvatar { name, request } => MirrorActionView::UploadDestAvatar {
                name: name@,
                request: request@,
            },
            MirrorAction::ProbeDestRepo { owner, name } => MirrorActionView::ProbeDestRepo {
                owner: owner@,
                name: name@,
            },
            MirrorAction::MigrateRepo { request } => MirrorActionView::MigrateRepo {
                request: request@,
            },
            MirrorAction::DeleteDestRepo { owner, name } => MirrorActionView::DeleteDestRepo {
                owner: owner@,
                name: name@,
            },
            MirrorAction::DeleteDestOwner { name } => MirrorActionView::DeleteDestOwner {
                name: name@,
            },
            MirrorAction::Finish => MirrorActionView::Finish,
        }
    }
}

/// The outcome of a performed action, fed back into the flow.
pub enum MirrorEvent {
    /// The source owner record.
    OwnerFetched(GithubOwner),
    /// The source repository record.
    RepoFetched(GithubRepository),
    /// One page of the source listing; an empty page ends the listing.
    ReposPage(Vec<GithubRepository>),
    /// One page of the destination listing; an empty page ends the listing.
    DestReposPage(Vec<ForgejoRepository>),
    /// Whether the destination owner exists.
    OwnerProbed(bool),
    /// The destination owner was created.
    OwnerCreated,
    /// The source owner's avatar bytes.
    AvatarFetched(Vec<u8>),
    /// The avatar was stored on the destination owner.
    AvatarUploaded,
    /// Whether the destination repository exists.
    RepoProbed(bool),
    /// The repository migration was accepted.
    RepoMigrated,
    /// The destination repository was deleted.
    RepoDeleted,
    /// The destination owner was deleted.
    OwnerDeleted,
}

/// Mathematical image of [`MirrorEvent`].
pub enum MirrorEventView {
    OwnerFetched(GithubOwnerView),
    RepoFetched(GithubRepositoryView),
    ReposPage(Seq<GithubRepositoryView>),
    DestReposPage(Seq<ForgejoRepositoryView>),
    OwnerProbed(bool),
    OwnerCreated,
    AvatarFetched(Seq<u8>),
    AvatarUploaded,
    RepoProbed(bool),
    RepoMigrated,
    RepoDeleted,
    OwnerDeleted,
}

impl View for MirrorEvent {
    type V = MirrorEventView;

    open spec fn view(&self) -> MirrorEventView {
        match self {
            MirrorEvent::OwnerFetched(o) => MirrorEventView::OwnerFetched(o@),
            MirrorEvent::RepoFetched(r) => MirrorEventView::RepoFetched(r@),
            MirrorEvent::ReposPage(v) => MirrorEventView::ReposPage(v.deep_view()),
            MirrorEvent::DestReposPage(v) => MirrorEventView::DestReposPage(v.deep_view()),
            MirrorEvent::OwnerProbed(b) => MirrorEventView::OwnerProbed(*b),
            MirrorEvent::OwnerCreated => MirrorEventView::OwnerCreated,
            MirrorEvent::AvatarFetched(b) => MirrorEventView::AvatarFetched(b@),
            MirrorEvent::AvatarUploaded => MirrorEventView::AvatarUploaded,
            MirrorEvent::RepoProbed(b) => MirrorEventView::RepoProbed(*b),
            MirrorEvent::RepoMigrated => MirrorEventView::RepoMigrated,
            MirrorEvent::RepoDeleted => MirrorEventView::RepoDeleted,
            MirrorEvent::OwnerDeleted => MirrorEventView::OwnerDeleted,
        }
    }
}

/// The page index an action requests, when it requests a listing page,
/// from either upstream.
pub open spec fn spec_listing_request_page(a: MirrorActionView) -> Option<int> {
    match a {
        MirrorActionView::ListSourceRepos { page, .. } => Some(page),
        MirrorActionView::ListDestRepos { page, .. } => Some(page),
        _ => None,
    }
}

/// Whether an event carries a "found" answer or no probe answer at all.
pub open spec fn spec_event_reports_found(e: MirrorEventView) -> bool {
    match e {
        MirrorEventView::OwnerProbed(found) => found,
        MirrorEventView::RepoProbed(found) => found,
        _ => true,
    }
}

/// Whether an action changes the destination: owner creation, repository
/// migration and the deletions do; probes, fetches and the avatar of a
/// freshly created owner do not count, as the avatar step is reachable
/// only after a creation.
pub open spec fn spec_action_mutates_destination(a: MirrorActionView) -> bool {
    ||| a is CreateDestOwner
    ||| a is MigrateRepo
    ||| a is DeleteDestRepo
    ||| a is DeleteDestOwner
}

} // verus!
