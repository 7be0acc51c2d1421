//! The deletion flow: remove a destination organisation and everything
//! under it.
//!
//! Repositories are deleted before the owner, in the order the listing
//! reported them, because the destination rejects owner deletion while
//! repositories remain; [`lemma_owner_deleted_last`] records that the
//! machine never asks for the owner's deletion earlier.

use vstd::prelude::*;

use crate::cli::DeleteForgejoOrganisationCommand;
use crate::forgejo::{ForgejoRepository, ForgejoRepositoryView};
use crate::protocol::{
    spec_listing_request_page, MirrorAction, MirrorActionView, MirrorEvent, MirrorEventView,
    PER_PAGE,
};

verus! {

/// Where the deletion flow stands.
#[derive(Clone, Copy, PartialEq, Eq, Structural, Debug)]
pub enum DeleteStage {
    Start,
    AwaitReposPage,
    AwaitRepoDeleted,
    AwaitOwnerDeleted,
    Finished,
}

/// The deletion flow: the organisation to remove, and the repositories
/// listed under it so far.
pub struct DeleteFlow {
    /// The destination organisation the command removes.
    pub organisation: String,
    /// Which outcome the flow waits for.
    pub stage: DeleteStage,
    /// Repositories accumulated from the listing, in listing order.
    pub repos: Vec<ForgejoRepository>,
    /// The next page index to request while listing.
    pub next_page: usize,
    /// The repository currently being deleted.
    pub repo_index: usize,
}

/// Mathematical image of [`DeleteFlow`].
pub struct DeleteFlowView {
    pub organisation: Seq<char>,
    pub stage: DeleteStage,
    pub repos: Seq<ForgejoRepositoryView>,
    pub next_page: int,
    pub repo_index: int,
}

impl View for DeleteFlow {
    type V = DeleteFlowView;

    open spec fn view(&self) -> DeleteFlowView {
        DeleteFlowView {
            organisation: self.organisation@,
            stage: self.stage,
            repos: self.repos.deep_view(),
            next_page: self.next_page as int,
            repo_index: self.repo_index as int,
        }
    }
}

/// Internal consistency the flow keeps.
pub open spec fn spec_delete_wf(s: DeleteFlowView) -> bool {
    &&& s.stage is AwaitReposPage ==> s.next_page >= 1
    &&& s.stage is AwaitRepoDeleted ==> 0 <= s.repo_index < s.repos.len()
}

/// Which events a state accepts, and the bound a further page index must
/// respect.
pub open spec fn spec_delete_expects(s: DeleteFlowView, e: MirrorEventView) -> bool {
    match (s.stage, e) {
        (DeleteStage::AwaitReposPage, MirrorEventView::DestReposPage(_)) => s.next_page
            < usize::MAX as int,
        (DeleteStage::AwaitRepoDeleted, MirrorEventView::RepoDeleted) => true,
        (DeleteStage::AwaitOwnerDeleted, MirrorEventView::OwnerDeleted) => true,
        _ => false,
    }
}

/// Delete the repository at `repo_index`, or — once every listed
/// repository is gone — the owner itself.
pub open spec fn spec_next_deletion(s: DeleteFlowView) -> (DeleteFlowView, MirrorActionView) {
    if s.repo_index == s.repos.len() {
        (
            DeleteFlowView { stage: DeleteStage::AwaitOwnerDeleted, ..s },
            MirrorActionView::DeleteDestOwner { name: s.organisation },
        )
    } else {
        (
            DeleteFlowView { stage: DeleteStage::AwaitRepoDeleted, ..s },
            MirrorActionView::DeleteDestRepo {
                owner: s.organisation,
                name: s.repos[s.repo_index].name,
            },
        )
    }
}

/// The first action: list the organisation's repositories from page 1.
pub open spec fn spec_delete_start(s: DeleteFlowView) -> (DeleteFlowView, MirrorActionView) {
    (
        DeleteFlowView { stage: DeleteStage::AwaitReposPage, next_page: 1, ..s },
        MirrorActionView::ListDestRepos { name: s.organisation, page: 1, per_page: PER_PAGE as int },
    )
}

/// A page arrived: a non-empty page is appended and the next one
/// requested; the first empty page ends the listing and deletion begins.
pub open spec fn spec_delete_on_repos_page(
    s: DeleteFlowView,
    v: Seq<ForgejoRepositoryView>,
) -> (DeleteFlowView, MirrorActionView) {
    if v.len() > 0 {
        (
            DeleteFlowView { repos: s.repos + v, next_page: s.next_page + 1, ..s },
            MirrorActionView::ListDestRepos {
                name: s.organisation,
                page: s.next_page + 1,
                per_page: PER_PAGE as int,
            },
        )
    } else {
        spec_next_deletion(DeleteFlowView { repo_index: 0, ..s })
    }
}

/// The complete transition relation, with a stutter on an event the state
/// does not accept.
pub open spec fn spec_delete_step(
    s: DeleteFlowView,
    e: MirrorEventView,
) -> (DeleteFlowView, MirrorActionView) {
    match (s.stage, e) {
        (DeleteStage::AwaitReposPage, MirrorEventView::DestReposPage(v)) =>
            spec_delete_on_repos_page(s, v),
        (DeleteStage::AwaitRepoDeleted, MirrorEventView::RepoDeleted) => spec_next_deletion(
            DeleteFlowView { repo_index: s.repo_index + 1, ..s },
        ),
        (DeleteStage::AwaitOwnerDeleted, MirrorEventView::OwnerDeleted) => (
            DeleteFlowView { stage: DeleteStage::Finished, ..s },
            MirrorActionView::Finish,
        ),
        _ => (s, MirrorActionView::Finish),
    }
}

/// The flow state the deletion command begins with.
pub open spec fn spec_flow_for_deletion(cmd: DeleteForgejoOrganisationCommand) -> DeleteFlowView {
    DeleteFlowView {
        organisation: cmd.forgejo_organisation_name@,
        stage: DeleteStage::Start,
        repos: Seq::empty(),
        next_page: 1,
        repo_index: 0,
    }
}

impl DeleteFlow {
    /// The flow the deletion command runs.
    pub fn for_deletion(cmd: &DeleteForgejoOrganisationCommand) -> (flow: DeleteFlow)
        ensures
            flow@ == spec_flow_for_deletion(*cmd),
            spec_delete_wf(flow@),
    {
        let flow = DeleteFlow {
            organisation: cmd.forgejo_organisation_name.clone(),
            stage: DeleteStage::Start,
            repos: Vec::new(),
            next_page: 1,
            repo_index: 0,
        };
        proof {
            assert(flow@.repos =~= Seq::<ForgejoRepositoryView>::empty());
        }
        flow
    }

    /// Whether the flow has finished.
    pub fn finished(&self) -> (r: bool)
        ensures
            r == (self@.stage is Finished),
    {
        matches!(self.stage, DeleteStage::Finished)
    }

    /// Whether the flow accepts this event in its current stage.
    pub fn expects_event(&self, event: &MirrorEvent) -> (r: bool)
        ensures
            r == spec_delete_expects(self@, event@),
    {
        match (self.stage, event) {
            (DeleteStage::AwaitReposPage, MirrorEvent::DestReposPage(_)) => self.next_page
                < usize::MAX,
            (DeleteStage::AwaitRepoDeleted, MirrorEvent::RepoDeleted) => true,
            (DeleteStage::AwaitOwnerDeleted, MirrorEvent::OwnerDeleted) => true,
            _ => false,
        }
    }

    /// The first action: list the repositories from page 1.
    pub fn start(&mut self) -> (action: MirrorAction)
        requires
            old(self)@.stage is Start,
            spec_delete_wf(old(self)@),
        ensures
            (final(self)@, action@) == spec_delete_start(old(self)@),
            spec_delete_wf(final(self)@),
    {
        self.stage = DeleteStage::AwaitReposPage;
        self.next_page = 1;
        MirrorAction::ListDestRepos {
            name: self.organisation.clone(),
            page: 1,
            per_page: PER_PAGE,
        }
    }

    fn next_deletion(&mut self) -> (action: MirrorAction)
        requires
            old(self)@.repo_index <= old(self)@.repos.len(),
        ensures
            (final(self)@, action@) == spec_next_deletion(old(self)@),
    {
        if self.repo_index == self.repos.len() {
            self.stage = DeleteStage::AwaitOwnerDeleted;
            MirrorAction::DeleteDestOwner { name: self.organisation.clone() }
        } else {
            self.stage = DeleteStage::AwaitRepoDeleted;
            let name = self.repos[self.repo_index].name.clone();
            MirrorAction::DeleteDestRepo { owner: self.organisation.clone(), name }
        }
    }

    /// Feed the outcome of the last action back in.
    pub fn step(&mut self, event: MirrorEvent) -> (action: MirrorAction)
        requires
            spec_delete_wf(old(self)@),
            spec_delete_expects(old(self)@, event@),
        ensures
            (final(self)@, action@) == spec_delete_step(old(self)@, event@),
            spec_delete_wf(final(self)@),
    {
        match event {
            MirrorEvent::DestReposPage(v) => {
                if v.len() > 0 {
                    let mut page = v;
                    self.repos.append(&mut page);
                    proof {
                        assert(self.repos.deep_view() =~= old(self).repos.deep_view()
                            + v.deep_view());
                    }
                    self.next_page = self.next_page + 1;
                    MirrorAction::ListDestRepos {
                        name: self.organisation.clone(),
                        page: self.next_page,
                        per_page: PER_PAGE,
                    }
                } else {
                    self.repo_index = 0;
                    self.next_deletion()
                }
            },
            MirrorEvent::RepoDeleted => {
                // reading the length bounds the index, so the increment cannot overflow
                let _len: usize = self.repos.len();
                self.repo_index = self.repo_index + 1;
                self.next_deletion()
            },
            MirrorEvent::OwnerDeleted => {
                self.stage = DeleteStage::Finished;
                MirrorAction::Finish
            },
            _ => MirrorAction::Finish,
        }
    }
}

/// The deletion order the destination requires: the machine asks for the
/// owner's deletion only once every listed repository has been deleted.
pub proof fn lemma_owner_deleted_last(s: DeleteFlowView, e: MirrorEventView)
    requires
        spec_delete_wf(s),
    ensures
        spec_delete_step(s, e).1 is DeleteDestOwner ==> s.repo_index + 1 == s.repos.len()
            || (s.repos.len() == 0 && s.stage is AwaitReposPage),
{
}

/// Pagination of the deletion listing begins at the front: a step taken
/// outside the listing stage only ever requests page 1.
pub proof fn lemma_delete_listing_starts_at_page_one(s: DeleteFlowView, e: MirrorEventView)
    requires
        !(s.stage is AwaitReposPage),
    ensures
        spec_listing_request_page(spec_delete_step(s, e).1) is Some ==> spec_listing_request_page(
            spec_delete_step(s, e).1,
        ) == Some(1int),
{
}

/// Pagination of the deletion listing ends exactly at the first empty
/// page.
pub proof fn lemma_delete_listing_stops_at_empty_page(
    s: DeleteFlowView,
    v: Seq<ForgejoRepositoryView>,
)
    requires
        s.stage is AwaitReposPage,
    ensures
        v.len() > 0 ==> spec_listing_request_page(
            spec_delete_step(s, MirrorEventView::DestReposPage(v)).1,
        ) == Some(s.next_page + 1),
        v.len() == 0 ==> spec_listing_request_page(
            spec_delete_step(s, MirrorEventView::DestReposPage(v)).1,
        ) is None,
{
}

} // verus!
