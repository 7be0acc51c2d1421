//! The single-repository mirror flow.
//!
//! The command names the source repository by URL. A URL that matches
//! neither recognized shape ends the flow before any remote call: the
//! command then completes as a silent no-op, a behaviour kept as a design
//! question rather than an endorsement. On a match the repository is
//! fetched, probed on the destination, and migrated only when absent.

use vstd::prelude::*;

use crate::cli::MirrorRepositoryCommand;
use crate::github::{GithubRepository, GithubRepositoryView};
use crate::protocol::{
    spec_action_mutates_destination, spec_event_reports_found, MirrorAction, MirrorActionView,
    MirrorEvent, MirrorEventView,
};
use crate::requests::{
    build_single_migration_request, spec_single_migration_request, MigrationSettings,
};
use crate::urls::{parse_repository_url, spec_parse_repository_url};
use crate::text::empty_text;

verus! {

/// Where the single-repository flow stands.
#[derive(Clone, Copy, PartialEq, Eq, Structural, Debug)]
pub enum SingleRepoStage {
    Start,
    AwaitRepo,
    AwaitRepoProbe,
    AwaitRepoMigrated,
    Finished,
}

/// The single-repository flow: the command input, the owner/name pair
/// parsed from the URL, and the fetched record.
pub struct SingleRepoFlow {
    /// The destination owner the repository is created under.
    pub output_owner: String,
    /// The source repository URL the command names.
    pub repository_url: String,
    /// Token the destination uses when cloning from the source.
    pub auth_token: String,
    /// Whether the migrated repository is private.
    pub private: bool,
    /// The per-feature migration toggles.
    pub settings: MigrationSettings,
    /// Which outcome the flow waits for.
    pub stage: SingleRepoStage,
    /// The source owner parsed from the URL.
    pub source_owner: String,
    /// The repository name parsed from the URL.
    pub repo_name: String,
    /// The fetched source record, once present.
    pub fetched: Option<GithubRepository>,
    /// Whether the repository was skipped because it already existed.
    pub skipped: bool,
}

/// Mathematical image of [`SingleRepoFlow`].
pub struct SingleRepoFlowView {
    pub output_owner: Seq<char>,
    pub repository_url: Seq<char>,
    pub auth_token: Seq<char>,
    pub private: bool,
    pub settings: MigrationSettings,
    pub stage: SingleRepoStage,
    pub source_owner: Seq<char>,
    pub repo_name: Seq<char>,
    pub fetched: Option<GithubRepositoryView>,
    pub skipped: bool,
}

impl View for SingleRepoFlow {
    type V = SingleRepoFlowView;

    open spec fn view(&self) -> SingleRepoFlowView {
        SingleRepoFlowView {
            output_owner: self.output_owner@,
            repository_url: self.repository_url@,
            auth_token: self.auth_token@,
            private: self.private,
            settings: self.settings,
            stage: self.stage,
            source_owner: self.source_owner@,
            repo_name: self.repo_name@,
            fetched: self.fetched.deep_view(),
            skipped: self.skipped,
        }
    }
}

/// Internal consistency the flow keeps.
pub open spec fn spec_single_wf(s: SingleRepoFlowView) -> bool {
    s.stage is AwaitRepoProbe || s.stage is AwaitRepoMigrated ==> s.fetched is Some
}

/// Which events a state accepts.
pub open spec fn spec_single_expects(s: SingleRepoFlowView, e: MirrorEventView) -> bool {
    match (s.stage, e) {
        (SingleRepoStage::AwaitRepo, MirrorEventView::RepoFetched(_)) => true,
        (SingleRepoStage::AwaitRepoProbe, MirrorEventView::RepoProbed(_)) => true,
        (SingleRepoStage::AwaitRepoMigrated, MirrorEventView::RepoMigrated) => true,
        _ => false,
    }
}

/// The first action: fetch the repository the URL names, or finish at once
/// — with no remote call at all — when the URL matches neither recognized
/// shape.
pub open spec fn spec_single_start(s: SingleRepoFlowView) -> (SingleRepoFlowView, MirrorActionView) {
    match spec_parse_repository_url(s.repository_url) {
        Some((owner, name)) => (
            SingleRepoFlowView {
                stage: SingleRepoStage::AwaitRepo,
                source_owner: owner,
                repo_name: name,
                ..s
            },
            MirrorActionView::FetchSourceRepo { owner: owner, name: name },
        ),
        None => (
            SingleRepoFlowView { stage: SingleRepoStage::Finished, ..s },
            MirrorActionView::Finish,
        ),
    }
}

/// The record arrived: probe the destination for it, by the fetched name.
pub open spec fn spec_single_on_repo_fetched(
    s: SingleRepoFlowView,
    r: GithubRepositoryView,
) -> (SingleRepoFlowView, MirrorActionView) {
    (
        SingleRepoFlowView { stage: SingleRepoStage::AwaitRepoProbe, fetched: Some(r), ..s },
        MirrorActionView::ProbeDestRepo { owner: s.output_owner, name: r.name },
    )
}

/// The probe answered: an existing repository is recorded as skipped and
/// the flow finishes; a missing one is migrated.
pub open spec fn spec_single_on_repo_probed(
    s: SingleRepoFlowView,
    found: bool,
) -> (SingleRepoFlowView, MirrorActionView) {
    if found {
        (
            SingleRepoFlowView { stage: SingleRepoStage::Finished, skipped: true, ..s },
            MirrorActionView::Finish,
        )
    } else {
        (
            SingleRepoFlowView { stage: SingleRepoStage::AwaitRepoMigrated, ..s },
            MirrorActionView::MigrateRepo {
                request: spec_single_migration_request(
                    s.auth_token,
                    s.output_owner,
                    s.repo_name,
                    s.fetched->Some_0,
                    s.private,
                    s.settings,
                ),
            },
        )
    }
}

/// The complete transition relation, with a stutter on an event the state
/// does not accept.
pub open spec fn spec_single_step(
    s: SingleRepoFlowView,
    e: MirrorEventView,
) -> (SingleRepoFlowView, MirrorActionView) {
    match (s.stage, e) {
        (SingleRepoStage::AwaitRepo, MirrorEventView::RepoFetched(r)) =>
            spec_single_on_repo_fetched(s, r),
        (SingleRepoStage::AwaitRepoProbe, MirrorEventView::RepoProbed(b)) =>
            spec_single_on_repo_probed(s, b),
        (SingleRepoStage::AwaitRepoMigrated, MirrorEventView::RepoMigrated) => (
            SingleRepoFlowView { stage: SingleRepoStage::Finished, ..s },
            MirrorActionView::Finish,
        ),
        _ => (s, MirrorActionView::Finish),
    }
}

/// The flow state the single-repository command begins with.
pub open spec fn spec_flow_for_repository(cmd: MirrorRepositoryCommand) -> SingleRepoFlowView {
    SingleRepoFlowView {
        output_owner: cmd.output_owner@,
        repository_url: cmd.github_repository_url@,
        auth_token: cmd.github_token->Some_0@,
        private: cmd.private,
        settings: MigrationSettings {
            issues: cmd.migrate_issues,
            labels: cmd.migrate_labels,
            lfs: cmd.migrate_lfs,
            milestones: cmd.migrate_milestones,
            pull_requests: cmd.migrate_pull_requests,
            releases: cmd.migrate_releases,
            wiki: cmd.migrate_wiki,
        },
        stage: SingleRepoStage::Start,
        source_owner: empty_text(),
        repo_name: empty_text(),
        fetched: None,
        skipped: false,
    }
}

/// A URL that matches neither recognized shape makes the whole command a
/// no-op: the very first step finishes the flow, and no remote call is
/// ever requested.
pub proof fn lemma_unmatched_url_is_a_no_op(s: SingleRepoFlowView)
    requires
        spec_parse_repository_url(s.repository_url) is None,
    ensures
        spec_single_start(s).1 is Finish,
        spec_single_start(s).0.stage is Finished,
{
}

/// One step of the single-repository flow changes the destination only on
/// the heels of a probe that answered "not found".
pub proof fn lemma_single_mutation_needs_a_miss(s: SingleRepoFlowView, e: MirrorEventView)
    ensures
        spec_action_mutates_destination(spec_single_step(s, e).1) ==> !spec_event_reports_found(e),
{
}

impl SingleRepoFlow {
    /// The flow the single-repository command runs. The command must carry
    /// its source token; validation rejects it otherwise.
    pub fn for_repository(cmd: &MirrorRepositoryCommand) -> (flow: SingleRepoFlow)
        requires
            cmd.github_token is Some,
        ensures
            flow@ == spec_flow_for_repository(*cmd),
            spec_single_wf(flow@),
    {
        let auth_token = match &cmd.github_token {
            Some(t) => t.clone(),
            None => vstd::pervasive::unreached(),
        };
        SingleRepoFlow {
            output_owner: cmd.output_owner.clone(),
            repository_url: cmd.github_repository_url.clone(),
            auth_token,
            private: cmd.private,
            settings: MigrationSettings {
                issues: cmd.migrate_issues,
                labels: cmd.migrate_labels,
                lfs: cmd.migrate_lfs,
                milestones: cmd.migrate_milestones,
                pull_requests: cmd.migrate_pull_requests,
                releases: cmd.migrate_releases,
                wiki: cmd.migrate_wiki,
            },
            stage: SingleRepoStage::Start,
            source_owner: String::new(),
            repo_name: String::new(),
            fetched: None,
            skipped: false,
        }
    }

    /// Whether the flow has finished.
    pub fn finished(&self) -> (r: bool)
        ensures
            r == (self@.stage is Finished),
    {
        matches!(self.stage, SingleRepoStage::Finished)
    }

    /// Whether the flow accepts this event in its current stage.
    pub fn expects_event(&self, event: &MirrorEvent) -> (r: bool)
        ensures
            r == spec_single_expects(self@, event@),
    {
        match (self.stage, event) {
            (SingleRepoStage::AwaitRepo, MirrorEvent::RepoFetched(_)) => true,
            (SingleRepoStage::AwaitRepoProbe, MirrorEvent::RepoProbed(_)) => true,
            (SingleRepoStage::AwaitRepoMigrated, MirrorEvent::RepoMigrated) => true,
            _ => false,
        }
    }

    /// The first action: parse the URL, then fetch — or finish at once on
    /// a URL that matches neither recognized shape.
    pub fn start(&mut self) -> (action: MirrorAction)
        requires
            old(self)@.stage is Start,
            spec_single_wf(old(self)@),
        ensures
            (final(self)@, action@) == spec_single_start(old(self)@),
            spec_single_wf(final(self)@),
    {
        match parse_repository_url(self.repository_url.as_str()) {
            Some((owner, name)) => {
                self.source_owner = owner;
                self.repo_name = name;
                self.stage = SingleRepoStage::AwaitRepo;
                MirrorAction::FetchSourceRepo {
                    owner: self.source_owner.clone(),
                    name: self.repo_name.clone(),
                }
            },
            None => {
                self.stage = SingleRepoStage::Finished;
                MirrorAction::Finish
            },
        }
    }

    /// Feed the outcome of the last action back in.
    pub fn step(&mut self, event: MirrorEvent) -> (action: MirrorAction)
        requires
            spec_single_wf(old(self)@),
            spec_single_expects(old(self)@, event@),
        ensures
            (final(self)@, action@) == spec_single_step(old(self)@, event@),
            spec_single_wf(final(self)@),
    {
        match event {
            MirrorEvent::RepoFetched(r) => {
                let name = r.name.clone();
                self.fetched = Some(r);
                self.stage = SingleRepoStage::AwaitRepoProbe;
                MirrorAction::ProbeDestRepo { owner: self.output_owner.clone(), name }
            },
            MirrorEvent::RepoProbed(found) => {
                if found {
                    self.skipped = true;
                    self.stage = SingleRepoStage::Finished;
                    MirrorAction::Finish
                } else {
                    let request = match &self.fetched {
                        Some(r) => build_single_migration_request(
                            &self.auth_token,
                            &self.output_owner,
                            &self.repo_name,
                            r,
                            self.private,
                            self.settings,
                        ),
                        None => vstd::pervasive::unreached(),
                    };
                    self.stage = SingleRepoStage::AwaitRepoMigrated;
                    MirrorAction::MigrateRepo { request }
                }
            },
            MirrorEvent::RepoMigrated => {
                self.stage = SingleRepoStage::Finished;
                MirrorAction::Finish
            },
            _ => MirrorAction::Finish,
        }
    }
}

} // verus!
