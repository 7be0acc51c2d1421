//! The batch mirror flows: one state machine covering the organisation and
//! the user command.
//!
//! The machine emits one [`MirrorAction`] at a time; a driver performs the
//! remote call it names and feeds the outcome back as a [`MirrorEvent`].
//! Every transition is specified exactly by [`spec_step`], so the order of
//! the remote calls, the payload of each, and the idempotency of the whole
//! protocol are proved rather than observed.
//!
//! The two flavours share their shape and differ where the original
//! commands do: an organisation lists its repositories right after the
//! owner fetch and probes the destination afterwards, while a user probes
//! first and lists later; their mirror descriptions differ as well.

use vstd::prelude::*;

use crate::avatar::{build_avatar_request, encodable, spec_avatar_request, spec_encodable};
use crate::cli::{MirrorOrganisationCommand, MirrorUserCommand};
use crate::forgejo::ForgejoVisibility;
use crate::github::{GithubOwner, GithubOwnerView, GithubRepository, GithubRepositoryView};
use crate::requests::{
    build_base_migration_request, build_create_organisation_request, build_migration_request,
    spec_base_migration_request, spec_create_organisation_request, spec_migration_request,
    MigrationSettings, SourceKind,
};
use crate::protocol::{
    spec_action_mutates_destination, spec_event_reports_found, spec_listing_request_page,
    MirrorAction, MirrorActionView, MirrorEvent, MirrorEventView, PER_PAGE,
};
use crate::sort::{
    lemma_sort_repos_ensures, sort_repositories_by_size, sorted_by_size, spec_sort_repos,
};
use crate::text::{clone_opt_string, opt_text_or, text_or};

verus! {

/// Where the flow stands: which outcome it waits for.
#[derive(Clone, Copy, PartialEq, Eq, Structural, Debug)]
pub enum MirrorStage {
    Start,
    AwaitOwner,
    AwaitOwnerProbe,
    AwaitOwnerCreated,
    AwaitAvatar,
    AwaitAvatarUploaded,
    AwaitReposPage,
    AwaitRepoProbe,
    AwaitRepoMigrated,
    Finished,
}

/// The batch mirror flow: all the command input, plus what has been
/// learned from the source so far.
pub struct MirrorFlow {
    /// Which flavour of batch command runs.
    pub kind: SourceKind,
    /// The source owner name the command asked to mirror.
    pub source_name: String,
    /// Explicit destination owner name, when the command supplies one.
    pub dest_username_override: Option<String>,
    /// Explicit display name, when the organisation command supplies one.
    pub display_name_override: Option<String>,
    /// Visibility for a created owner; also decides private migrations.
    pub visibility: ForgejoVisibility,
    /// Token the destination uses when cloning from the source.
    pub auth_token: String,
    /// The per-feature migration toggles.
    pub settings: MigrationSettings,
    /// Which outcome the flow waits for.
    pub stage: MirrorStage,
    /// The source owner record, once fetched.
    pub source_owner: Option<GithubOwner>,
    /// The chosen destination owner name, once computed.
    pub dest_owner: String,
    /// Repositories accumulated from the listing, sorted once it ends.
    pub repos: Vec<GithubRepository>,
    /// The next page index to request while listing.
    pub next_page: usize,
    /// The repository currently being processed.
    pub repo_index: usize,
    /// Names of repositories skipped because they already existed.
    pub skipped: Vec<String>,
}

/// Mathematical image of [`MirrorFlow`].
pub struct MirrorFlowView {
    pub kind: SourceKind,
    pub source_name: Seq<char>,
    pub dest_username_override: Option<Seq<char>>,
    pub display_name_override: Option<Seq<char>>,
    pub visibility: ForgejoVisibility,
    pub auth_token: Seq<char>,
    pub settings: MigrationSettings,
    pub stage: MirrorStage,
    pub source_owner: Option<GithubOwnerView>,
    pub dest_owner: Seq<char>,
    pub repos: Seq<GithubRepositoryView>,
    pub next_page: int,
    pub repo_index: int,
    pub skipped: Seq<Seq<char>>,
}

impl View for MirrorFlow {
    type V = MirrorFlowView;

    open spec fn view(&self) -> MirrorFlowView {
        MirrorFlowView {
            kind: self.kind,
            source_name: self.source_name@,
            dest_username_override: self.dest_username_override.deep_view(),
            display_name_override: self.display_name_override.deep_view(),
            visibility: self.visibility,
            auth_token: self.auth_token@,
            settings: self.settings,
            stage: self.stage,
            source_owner: self.source_owner.deep_view(),
            dest_owner: self.dest_owner@,
            repos: self.repos.deep_view(),
            next_page: self.next_page as int,
            repo_index: self.repo_index as int,
            skipped: self.skipped.deep_view(),
        }
    }
}

/// The login of the fetched source owner; meaningful once it is present.
pub open spec fn spec_source_login(s: MirrorFlowView) -> Seq<char> {
    s.source_owner->Some_0.login
}

/// Internal consistency the flow keeps from construction to the end.
pub open spec fn spec_wf(s: MirrorFlowView) -> bool {
    &&& !(s.stage is Start || s.stage is AwaitOwner) ==> s.source_owner is Some
    &&& s.stage is AwaitReposPage ==> s.next_page >= 1
    &&& s.stage is AwaitRepoProbe || s.stage is AwaitRepoMigrated ==> 0 <= s.repo_index
        < s.repos.len()
    &&& !(s.stage is AwaitReposPage) ==> sorted_by_size(s.repos)
}

/// Which events a state accepts, and the machine bounds a page event must
/// respect: a further page index must be representable, and avatar bytes
/// must be small enough to encode.
pub open spec fn spec_expects(s: MirrorFlowView, e: MirrorEventView) -> bool {
    match (s.stage, e) {
        (MirrorStage::AwaitOwner, MirrorEventView::OwnerFetched(_)) => true,
        (MirrorStage::AwaitReposPage, MirrorEventView::ReposPage(_)) => s.next_page
            < usize::MAX as int,
        (MirrorStage::AwaitOwnerProbe, MirrorEventView::OwnerProbed(_)) => true,
        (MirrorStage::AwaitOwnerCreated, MirrorEventView::OwnerCreated) => true,
        (MirrorStage::AwaitAvatar, MirrorEventView::AvatarFetched(b)) => spec_encodable(b.len()),
        (MirrorStage::AwaitAvatarUploaded, MirrorEventView::AvatarUploaded) => true,
        (MirrorStage::AwaitRepoProbe, MirrorEventView::RepoProbed(_)) => true,
        (MirrorStage::AwaitRepoMigrated, MirrorEventView::RepoMigrated) => true,
        _ => false,
    }
}

/// Move on to the repository at `repo_index`: probe it, or finish when
/// every repository has been processed.
pub open spec fn spec_next_repo(s: MirrorFlowView) -> (MirrorFlowView, MirrorActionView) {
    if s.repo_index == s.repos.len() {
        (MirrorFlowView { stage: MirrorStage::Finished, ..s }, MirrorActionView::Finish)
    } else {
        (
            MirrorFlowView { stage: MirrorStage::AwaitRepoProbe, ..s },
            MirrorActionView::ProbeDestRepo {
                owner: s.dest_owner,
                name: s.repos[s.repo_index].name,
            },
        )
    }
}

/// Begin draining the repository listing at page 1.
pub open spec fn spec_begin_listing(s: MirrorFlowView) -> (MirrorFlowView, MirrorActionView) {
    (
        MirrorFlowView { stage: MirrorStage::AwaitReposPage, next_page: 1, ..s },
        MirrorActionView::ListSourceRepos {
            kind: s.kind,
            login: spec_source_login(s),
            page: 1,
            per_page: PER_PAGE as int,
        },
    )
}

/// The owner record arrived: remember it, choose the destination owner
/// name, and continue as the flavour dictates — an organisation lists its
/// repositories first, a user probes the destination owner first.
pub open spec fn spec_on_owner_fetched(
    s: MirrorFlowView,
    o: GithubOwnerView,
) -> (MirrorFlowView, MirrorActionView) {
    let s1 = MirrorFlowView {
        source_owner: Some(o),
        dest_owner: text_or(s.dest_username_override, o.login),
        ..s
    };
    match s.kind {
        SourceKind::Organisation => spec_begin_listing(s1),
        SourceKind::User => (
            MirrorFlowView { stage: MirrorStage::AwaitOwnerProbe, ..s1 },
            MirrorActionView::ProbeDestOwner { name: s1.dest_owner },
        ),
    }
}

/// A page arrived: a non-empty page is appended and the next one
/// requested; the first empty page ends the listing, the accumulated
/// repositories are sorted by size, and the flow moves on.
pub open spec fn spec_on_repos_page(
    s: MirrorFlowView,
    v: Seq<GithubRepositoryView>,
) -> (MirrorFlowView, MirrorActionView) {
    if v.len() > 0 {
        (
            MirrorFlowView { repos: s.repos + v, next_page: s.next_page + 1, ..s },
            MirrorActionView::ListSourceRepos {
                kind: s.kind,
                login: spec_source_login(s),
                page: s.next_page + 1,
                per_page: PER_PAGE as int,
            },
        )
    } else {
        let s1 = MirrorFlowView { repos: spec_sort_repos(s.repos), ..s };
        match s.kind {
            SourceKind::Organisation => (
                MirrorFlowView { stage: MirrorStage::AwaitOwnerProbe, ..s1 },
                MirrorActionView::ProbeDestOwner { name: s1.dest_owner },
            ),
            SourceKind::User => spec_next_repo(MirrorFlowView { repo_index: 0, ..s1 }),
        }
    }
}

/// The owner probe answered: a present owner needs no creation and the
/// flow moves on; an absent one is created, with the display name kept
/// only when it differs from the chosen username.
pub open spec fn spec_on_owner_probed(
    s: MirrorFlowView,
    found: bool,
) -> (MirrorFlowView, MirrorActionView) {
    if found {
        match s.kind {
            SourceKind::Organisation => spec_next_repo(MirrorFlowView { repo_index: 0, ..s }),
            SourceKind::User => spec_begin_listing(s),
        }
    } else {
        (
            MirrorFlowView { stage: MirrorStage::AwaitOwnerCreated, ..s },
            MirrorActionView::CreateDestOwner {
                request: spec_create_organisation_request(
                    s.kind,
                    s.dest_owner,
                    opt_text_or(s.display_name_override, s.source_owner->Some_0.name),
                    s.source_owner->Some_0,
                    s.visibility,
                ),
            },
        )
    }
}

/// The owner was created: fetch its source avatar next.
pub open spec fn spec_on_owner_created(s: MirrorFlowView) -> (MirrorFlowView, MirrorActionView) {
    (
        MirrorFlowView { stage: MirrorStage::AwaitAvatar, ..s },
        MirrorActionView::FetchSourceAvatar { kind: s.kind, login: spec_source_login(s) },
    )
}

/// The avatar bytes arrived: upload them, base64-encoded, to the
/// destination owner.
pub open spec fn spec_on_avatar_fetched(
    s: MirrorFlowView,
    bytes: Seq<u8>,
) -> (MirrorFlowView, MirrorActionView) {
    (
        MirrorFlowView { stage: MirrorStage::AwaitAvatarUploaded, ..s },
        MirrorActionView::UploadDestAvatar {
            name: s.dest_owner,
            request: spec_avatar_request(bytes),
        },
    )
}

/// The avatar is stored: continue as the flavour dictates.
pub open spec fn spec_on_avatar_uploaded(s: MirrorFlowView) -> (MirrorFlowView, MirrorActionView) {
    match s.kind {
        SourceKind::Organisation => spec_next_repo(MirrorFlowView { repo_index: 0, ..s }),
        SourceKind::User => spec_begin_listing(s),
    }
}

/// The repository probe answered: an existing repository is recorded as
/// skipped and the flow moves on; a missing one is migrated, with the
/// request derived from the shared base.
pub open spec fn spec_on_repo_probed(
    s: MirrorFlowView,
    found: bool,
) -> (MirrorFlowView, MirrorActionView) {
    if found {
        spec_next_repo(
            MirrorFlowView {
                skipped: s.skipped.push(s.repos[s.repo_index].name),
                repo_index: s.repo_index + 1,
                ..s
            },
        )
    } else {
        (
            MirrorFlowView { stage: MirrorStage::AwaitRepoMigrated, ..s },
            MirrorActionView::MigrateRepo {
                request: spec_migration_request(
                    spec_base_migration_request(
                        s.auth_token,
                        s.dest_owner,
                        s.visibility is Private,
                        s.settings,
                    ),
                    s.repos[s.repo_index],
                ),
            },
        )
    }
}

/// The migration was accepted: move on to the next repository.
pub open spec fn spec_on_repo_migrated(s: MirrorFlowView) -> (MirrorFlowView, MirrorActionView) {
    spec_next_repo(MirrorFlowView { repo_index: s.repo_index + 1, ..s })
}

/// The first action of a flow: fetch the source owner.
pub open spec fn spec_start(s: MirrorFlowView) -> (MirrorFlowView, MirrorActionView) {
    (
        MirrorFlowView { stage: MirrorStage::AwaitOwner, ..s },
        MirrorActionView::FetchSourceOwner { kind: s.kind, name: s.source_name },
    )
}

/// The complete transition relation: what each accepted event does, and a
/// stutter that finishes nothing on an event the state does not accept.
pub open spec fn spec_step(
    s: MirrorFlowView,
    e: MirrorEventView,
) -> (MirrorFlowView, MirrorActionView) {
    match (s.stage, e) {
        (MirrorStage::AwaitOwner, MirrorEventView::OwnerFetched(o)) => spec_on_owner_fetched(s, o),
        (MirrorStage::AwaitReposPage, MirrorEventView::ReposPage(v)) => spec_on_repos_page(s, v),
        (MirrorStage::AwaitOwnerProbe, MirrorEventView::OwnerProbed(b)) => spec_on_owner_probed(
            s,
            b,
        ),
        (MirrorStage::AwaitOwnerCreated, MirrorEventView::OwnerCreated) => spec_on_owner_created(s),
        (MirrorStage::AwaitAvatar, MirrorEventView::AvatarFetched(b)) => spec_on_avatar_fetched(
            s,
            b,
        ),
        (MirrorStage::AwaitAvatarUploaded, MirrorEventView::AvatarUploaded) =>
            spec_on_avatar_uploaded(s),
        (MirrorStage::AwaitRepoProbe, MirrorEventView::RepoProbed(b)) => spec_on_repo_probed(s, b),
        (MirrorStage::AwaitRepoMigrated, MirrorEventView::RepoMigrated) => spec_on_repo_migrated(s),
        _ => (s, MirrorActionView::Finish),
    }
}

impl MirrorFlow {
    /// The flow the organisation command runs. The command must carry its
    /// source token; validation rejects it otherwise before any flow is
    /// built.
    pub fn for_organisation(cmd: &MirrorOrganisationCommand) -> (flow: MirrorFlow)
        requires
            cmd.github_token is Some,
        ensures
            flow@ == spec_flow_for_organisation(*cmd),
            spec_wf(flow@),
    {
        let auth_token = match &cmd.github_token {
            Some(t) => t.clone(),
            None => vstd::pervasive::unreached(),
        };
        let flow = MirrorFlow {
            kind: SourceKind::Organisation,
            source_name: cmd.github_organisation_name.clone(),
            dest_username_override: clone_opt_string(&cmd.org_username),
            display_name_override: clone_opt_string(&cmd.org_display_name),
            visibility: cmd.visibility,
            auth_token,
            settings: MigrationSettings {
                issues: cmd.migrate_issues,
                labels: cmd.migrate_labels,
                lfs: cmd.migrate_lfs,
                milestones: cmd.migrate_milestones,
                pull_requests: cmd.migrate_pull_requests,
                releases: cmd.migrate_releases,
                wiki: cmd.migrate_wiki,
            },
            stage: MirrorStage::Start,
            source_owner: None,
            dest_owner: String::new(),
            repos: Vec::new(),
            next_page: 1,
            repo_index: 0,
            skipped: Vec::new(),
        };
        proof {
            assert(flow@.repos =~= Seq::<GithubRepositoryView>::empty());
            assert(flow@.skipped =~= Seq::<Seq<char>>::empty());
        }
        flow
    }

    /// The flow the user command runs.
    pub fn for_user(cmd: &MirrorUserCommand) -> (flow: MirrorFlow)
        requires
            cmd.github_token is Some,
        ensures
            flow@ == spec_flow_for_user(*cmd),
            spec_wf(flow@),
    {
        let auth_token = match &cmd.github_token {
            Some(t) => t.clone(),
            None => vstd::pervasive::unreached(),
        };
        let flow = MirrorFlow {
            kind: SourceKind::User,
            source_name: cmd.github_user_name.clone(),
            dest_username_override: clone_opt_string(&cmd.output_organisation_name),
            display_name_override: None,
            visibility: cmd.visibility,
            auth_token,
            settings: MigrationSettings {
                issues: cmd.migrate_issues,
                labels: cmd.migrate_labels,
                lfs: cmd.migrate_lfs,
                milestones: cmd.migrate_milestones,
                pull_requests: cmd.migrate_pull_requests,
                releases: cmd.migrate_releases,
                wiki: cmd.migrate_wiki,
            },
            stage: MirrorStage::Start,
            source_owner: None,
            dest_owner: String::new(),
            repos: Vec::new(),
            next_page: 1,
            repo_index: 0,
            skipped: Vec::new(),
        };
        proof {
            assert(flow@.repos =~= Seq::<GithubRepositoryView>::empty());
            assert(flow@.skipped =~= Seq::<Seq<char>>::empty());
        }
        flow
    }

    /// Whether the flow has finished.
    pub fn finished(&self) -> (r: bool)
        ensures
            r == (self@.stage is Finished),
    {
        matches!(self.stage, MirrorStage::Finished)
    }

    /// Whether the flow accepts this event in its current stage; the
    /// driver checks before stepping.
    pub fn expects_event(&self, event: &MirrorEvent) -> (r: bool)
        ensures
            r == spec_expects(self@, event@),
    {
        match (self.stage, event) {
            (MirrorStage::AwaitOwner, MirrorEvent::OwnerFetched(_)) => true,
            (MirrorStage::AwaitReposPage, MirrorEvent::ReposPage(_)) => self.next_page
                < usize::MAX,
            (MirrorStage::AwaitOwnerProbe, MirrorEvent::OwnerProbed(_)) => true,
            (MirrorStage::AwaitOwnerCreated, MirrorEvent::OwnerCreated) => true,
            (MirrorStage::AwaitAvatar, MirrorEvent::AvatarFetched(b)) => encodable(b),
            (MirrorStage::AwaitAvatarUploaded, MirrorEvent::AvatarUploaded) => true,
            (MirrorStage::AwaitRepoProbe, MirrorEvent::RepoProbed(_)) => true,
            (MirrorStage::AwaitRepoMigrated, MirrorEvent::RepoMigrated) => true,
            _ => false,
        }
    }

    /// The first action: fetch the source owner.
    pub fn start(&mut self) -> (action: MirrorAction)
        requires
            old(self)@.stage is Start,
            spec_wf(old(self)@),
        ensures
            (final(self)@, action@) == spec_start(old(self)@),
            spec_wf(final(self)@),
    {
        self.stage = MirrorStage::AwaitOwner;
        MirrorAction::FetchSourceOwner { kind: self.kind, name: self.source_name.clone() }
    }

    /// Feed the outcome of the last action back in; the returned action is
    /// the next call to perform. The transition is exactly [`spec_step`].
    pub fn step(&mut self, event: MirrorEvent) -> (action: MirrorAction)
        requires
            spec_wf(old(self)@),
            spec_expects(old(self)@, event@),
        ensures
            (final(self)@, action@) == spec_step(old(self)@, event@),
            spec_wf(final(self)@),
    {
        match event {
            MirrorEvent::OwnerFetched(o) => self.on_owner_fetched(o),
            MirrorEvent::ReposPage(v) => self.on_repos_page(v),
            MirrorEvent::OwnerProbed(b) => self.on_owner_probed(b),
            MirrorEvent::OwnerCreated => self.on_owner_created(),
            MirrorEvent::AvatarFetched(b) => self.on_avatar_fetched(b),
            MirrorEvent::AvatarUploaded => self.on_avatar_uploaded(),
            MirrorEvent::RepoProbed(b) => self.on_repo_probed(b),
            MirrorEvent::RepoMigrated => self.on_repo_migrated(),
            _ => MirrorAction::Finish,
        }
    }

    /// The fetched source owner's login.
    fn source_login(&self) -> (r: String)
        requires
            self@.source_owner is Some,
        ensures
            r@ == spec_source_login(self@),
    {
        match &self.source_owner {
            Some(o) => o.login.clone(),
            None => vstd::pervasive::unreached(),
        }
    }

    fn begin_listing(&mut self) -> (action: MirrorAction)
        requires
            old(self)@.source_owner is Some,
        ensures
            (final(self)@, action@) == spec_begin_listing(old(self)@),
    {
        self.stage = MirrorStage::AwaitReposPage;
        self.next_page = 1;
        let login = self.source_login();
        MirrorAction::ListSourceRepos { kind: self.kind, login, page: 1, per_page: PER_PAGE }
    }

    fn next_repository(&mut self) -> (action: MirrorAction)
        requires
            old(self)@.repo_index <= old(self)@.repos.len(),
        ensures
            (final(self)@, action@) == spec_next_repo(old(self)@),
    {
        if self.repo_index == self.repos.len() {
            self.stage = MirrorStage::Finished;
            MirrorAction::Finish
        } else {
            self.stage = MirrorStage::AwaitRepoProbe;
            let name = self.repos[self.repo_index].name.clone();
            MirrorAction::ProbeDestRepo { owner: self.dest_owner.clone(), name }
        }
    }

    fn on_owner_fetched(&mut self, o: GithubOwner) -> (action: MirrorAction)
        requires
            spec_wf(old(self)@),
            old(self)@.stage is AwaitOwner,
        ensures
            (final(self)@, action@) == spec_on_owner_fetched(old(self)@, o@),
            spec_wf(final(self)@),
    {
        self.dest_owner = match &self.dest_username_override {
            Some(n) => n.clone(),
            None => o.login.clone(),
        };
        self.source_owner = Some(o);
        match self.kind {
            SourceKind::Organisation => self.begin_listing(),
            SourceKind::User => {
                self.stage = MirrorStage::AwaitOwnerProbe;
                MirrorAction::ProbeDestOwner { name: self.dest_owner.clone() }
            },
        }
    }

    fn on_repos_page(&mut self, v: Vec<GithubRepository>) -> (action: MirrorAction)
        requires
            spec_wf(old(self)@),
            old(self)@.stage is AwaitReposPage,
            old(self)@.next_page < usize::MAX as int,
        ensures
            (final(self)@, action@) == spec_on_repos_page(old(self)@, v.deep_view()),
            spec_wf(final(self)@),
    {
        if v.len() > 0 {
            let mut page = v;
            self.repos.append(&mut page);
            proof {
                assert(self.repos.deep_view() =~= old(self).repos.deep_view() + v.deep_view());
            }
            self.next_page = self.next_page + 1;
            let login = self.source_login();
            MirrorAction::ListSourceRepos {
                kind: self.kind,
                login,
                page: self.next_page,
                per_page: PER_PAGE,
            }
        } else {
            proof {
                assert(v.deep_view().len() == 0);
                lemma_sort_repos_ensures(self.repos.deep_view());
            }
            let sorted = sort_repositories_by_size(&self.repos);
            self.repos = sorted;
            match self.kind {
                SourceKind::Organisation => {
                    self.stage = MirrorStage::AwaitOwnerProbe;
                    MirrorAction::ProbeDestOwner { name: self.dest_owner.clone() }
                },
                SourceKind::User => {
                    self.repo_index = 0;
                    self.next_repository()
                },
            }
        }
    }

    fn on_owner_probed(&mut self, found: bool) -> (action: MirrorAction)
        requires
            spec_wf(old(self)@),
            old(self)@.stage is AwaitOwnerProbe,
        ensures
            (final(self)@, action@) == spec_on_owner_probed(old(self)@, found),
            spec_wf(final(self)@),
    {
        if found {
            match self.kind {
                SourceKind::Organisation => {
                    self.repo_index = 0;
                    self.next_repository()
                },
                SourceKind::User => self.begin_listing(),
            }
        } else {
            let display = if self.display_name_override.is_some() {
                clone_opt_string(&self.display_name_override)
            } else {
                match &self.source_owner {
                    Some(o) => clone_opt_string(&o.name),
                    None => vstd::pervasive::unreached(),
                }
            };
            let request = match &self.source_owner {
                Some(o) => build_create_organisation_request(
                    self.kind,
                    &self.dest_owner,
                    &display,
                    o,
                    self.visibility,
                ),
                None => vstd::pervasive::unreached(),
            };
            self.stage = MirrorStage::AwaitOwnerCreated;
            MirrorAction::CreateDestOwner { request }
        }
    }

    fn on_owner_created(&mut self) -> (action: MirrorAction)
        requires
            spec_wf(old(self)@),
            old(self)@.stage is AwaitOwnerCreated,
        ensures
            (final(self)@, action@) == spec_on_owner_created(old(self)@),
            spec_wf(final(self)@),
    {
        self.stage = MirrorStage::AwaitAvatar;
        let login = self.source_login();
        MirrorAction::FetchSourceAvatar { kind: self.kind, login }
    }

    fn on_avatar_fetched(&mut self, bytes: Vec<u8>) -> (action: MirrorAction)
        requires
            spec_wf(old(self)@),
            old(self)@.stage is AwaitAvatar,
            spec_encodable(bytes@.len()),
        ensures
            (final(self)@, action@) == spec_on_avatar_fetched(old(self)@, bytes@),
            spec_wf(final(self)@),
    {
        let request = build_avatar_request(&bytes);
        self.stage = MirrorStage::AwaitAvatarUploaded;
        MirrorAction::UploadDestAvatar { name: self.dest_owner.clone(), request }
    }

    fn on_avatar_uploaded(&mut self) -> (action: MirrorAction)
        requires
            spec_wf(old(self)@),
            old(self)@.stage is AwaitAvatarUploaded,
        ensures
            (final(self)@, action@) == spec_on_avatar_uploaded(old(self)@),
            spec_wf(final(self)@),
    {
        match self.kind {
            SourceKind::Organisation => {
                self.repo_index = 0;
                self.next_repository()
            },
            SourceKind::User => self.begin_listing(),
        }
    }

    fn on_repo_probed(&mut self, found: bool) -> (action: MirrorAction)
        requires
            spec_wf(old(self)@),
            old(self)@.stage is AwaitRepoProbe,
        ensures
            (final(self)@, action@) == spec_on_repo_probed(old(self)@, found),
            spec_wf(final(self)@),
    {
        if found {
            let name = self.repos[self.repo_index].name.clone();
            self.skipped.push(name);
            proof {
                assert(self.skipped.deep_view() =~= old(self).skipped.deep_view().push(
                    old(self)@.repos[old(self)@.repo_index].name,
                ));
            }
            // reading the length bounds the index, so the increment cannot overflow
            let _len: usize = self.repos.len();
            self.repo_index = self.repo_index + 1;
            self.next_repository()
        } else {
            let base = build_base_migration_request(
                &self.auth_token,
                &self.dest_owner,
                self.visibility == ForgejoVisibility::Private,
                self.settings,
            );
            let request = build_migration_request(&base, &self.repos[self.repo_index]);
            self.stage = MirrorStage::AwaitRepoMigrated;
            MirrorAction::MigrateRepo { request }
        }
    }

    fn on_repo_migrated(&mut self) -> (action: MirrorAction)
        requires
            spec_wf(old(self)@),
            old(self)@.stage is AwaitRepoMigrated,
        ensures
            (final(self)@, action@) == spec_on_repo_migrated(old(self)@),
            spec_wf(final(self)@),
    {
        // reading the length bounds the index, so the increment cannot overflow
        let _len: usize = self.repos.len();
        self.repo_index = self.repo_index + 1;
        self.next_repository()
    }
}

/// The flow state the organisation command begins with.
pub open spec fn spec_flow_for_organisation(cmd: MirrorOrganisationCommand) -> MirrorFlowView {
    MirrorFlowView {
        kind: SourceKind::Organisation,
        source_name: cmd.github_organisation_name@,
        dest_username_override: cmd.org_username.deep_view(),
        display_name_override: cmd.org_display_name.deep_view(),
        visibility: cmd.visibility,
        auth_token: cmd.github_token->Some_0@,
        settings: MigrationSettings {
            issues: cmd.migrate_issues,
            labels: cmd.migrate_labels,
            lfs: cmd.migrate_lfs,
            milestones: cmd.migrate_milestones,
            pull_requests: cmd.migrate_pull_requests,
            releases: cmd.migrate_releases,
            wiki: cmd.migrate_wiki,
        },
        stage: MirrorStage::Start,
        source_owner: None,
        dest_owner: Seq::empty(),
        repos: Seq::empty(),
        next_page: 1,
        repo_index: 0,
        skipped: Seq::empty(),
    }
}

/// The flow state the user command begins with.
pub open spec fn spec_flow_for_user(cmd: MirrorUserCommand) -> MirrorFlowView {
    MirrorFlowView {
        kind: SourceKind::User,
        source_name: cmd.github_user_name@,
        dest_username_override: cmd.output_organisation_name.deep_view(),
        display_name_override: None,
        visibility: cmd.visibility,
        auth_token: cmd.github_token->Some_0@,
        settings: MigrationSettings {
            issues: cmd.migrate_issues,
            labels: cmd.migrate_labels,
            lfs: cmd.migrate_lfs,
            milestones: cmd.migrate_milestones,
            pull_requests: cmd.migrate_pull_requests,
            releases: cmd.migrate_releases,
            wiki: cmd.migrate_wiki,
        },
        stage: MirrorStage::Start,
        source_owner: None,
        dest_owner: Seq::empty(),
        repos: Seq::empty(),
        next_page: 1,
        repo_index: 0,
        skipped: Seq::empty(),
    }
}

/// Pagination begins at the front: whenever a step taken outside the
/// listing stage requests a listing page, it requests page 1, whatever the
/// collection's size turns out to be.
pub proof fn lemma_listing_starts_at_page_one(s: MirrorFlowView, e: MirrorEventView)
    requires
        !(s.stage is AwaitReposPage),
    ensures
        spec_listing_request_page(spec_step(s, e).1) is Some ==> spec_listing_request_page(
            spec_step(s, e).1,
        ) == Some(1int),
{
}

/// Pagination ends exactly at the first empty page: a non-empty page is
/// answered with a request for the following index, and an empty page is
/// never followed by another listing request.
pub proof fn lemma_listing_stops_at_empty_page(s: MirrorFlowView, v: Seq<GithubRepositoryView>)
    requires
        s.stage is AwaitReposPage,
    ensures
        v.len() > 0 ==> spec_listing_request_page(spec_step(s, MirrorEventView::ReposPage(v)).1)
            == Some(s.next_page + 1),
        v.len() == 0 ==> spec_listing_request_page(spec_step(s, MirrorEventView::ReposPage(v)).1)
            is None,
{
}

/// The order the batch flows process repositories in: whenever a
/// repository is being probed or migrated, the drained collection stands
/// in non-decreasing size order, so small repositories migrate first.
pub proof fn lemma_processing_order_is_by_size(s: MirrorFlowView)
    requires
        spec_wf(s),
        s.stage is AwaitRepoProbe || s.stage is AwaitRepoMigrated,
    ensures
        sorted_by_size(s.repos),
{
}

/// One step changes the destination only on the heels of a probe that
/// answered "not found".
pub proof fn lemma_mutation_needs_a_miss(s: MirrorFlowView, e: MirrorEventView)
    ensures
        spec_action_mutates_destination(spec_step(s, e).1) ==> !spec_event_reports_found(e),
{
}

/// The actions of a whole run: each event stepped in order, its action
/// recorded.
pub open spec fn spec_run(s: MirrorFlowView, events: Seq<MirrorEventView>) -> Seq<MirrorActionView>
    decreases events.len(),
{
    if events.len() == 0 {
        Seq::empty()
    } else {
        seq![spec_step(s, events[0]).1] + spec_run(spec_step(s, events[0]).0, events.skip(1))
    }
}

/// Idempotency of the mirror protocol: run against a destination where
/// every existence probe answers "found" — as both probes do on a second
/// run over an unchanged destination — the flow issues no creation and no
/// migration call, however long the run.
pub proof fn lemma_rerun_changes_nothing(s: MirrorFlowView, events: Seq<MirrorEventView>)
    requires
        forall|i: int| 0 <= i < events.len() ==> spec_event_reports_found(#[trigger] events[i]),
    ensures
        forall|j: int|
            0 <= j < spec_run(s, events).len() ==> !spec_action_mutates_destination(
                #[trigger] spec_run(s, events)[j],
            ),
    decreases events.len(),
{
    if events.len() > 0 {
        let (s1, a) = spec_step(s, events[0]);
        lemma_mutation_needs_a_miss(s, events[0]);
        let rest = events.skip(1);
        assert forall|i: int| 0 <= i < rest.len() implies spec_event_reports_found(
            #[trigger] rest[i],
        ) by {
            assert(rest[i] == events[i + 1]);
        }
        lemma_rerun_changes_nothing(s1, rest);
        assert forall|j: int|
            0 <= j < spec_run(s, events).len() implies !spec_action_mutates_destination(
            #[trigger] spec_run(s, events)[j],
        ) by {
            if j > 0 {
                assert(spec_run(s, events)[j] == spec_run(s1, rest)[j - 1]);
            }
        }
    }
}

} // verus!
