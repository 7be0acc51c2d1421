//! Source-side data model: the owner and repository snapshots the
//! orchestration reads from the source hosting API.
//!
//! Only the fields the flows inspect are modelled; the remaining schema of
//! the upstream payloads never influences a decision and stays with the
//! driver that performs the I/O.

use vstd::prelude::*;

use crate::status::{require_success, spec_is_success};

verus! {

/// A user or organisation on the source side, immutable once fetched.
pub struct GithubOwner {
    /// Stable identifier of the account.
    pub login: String,
    /// Optional display name.
    pub name: Option<String>,
    /// Profile URL, used when synthesizing the mirror description.
    pub html_url: String,
    /// Optional bio or organisation description.
    pub description: Option<String>,
    /// Optional website reference.
    pub blog: Option<String>,
    /// Where the account's avatar can be fetched from.
    pub avatar_url: String,
}

/// Mathematical image of [`GithubOwner`].
pub struct GithubOwnerView {
    pub login: Seq<char>,
    pub name: Option<Seq<char>>,
    pub html_url: Seq<char>,
    pub description: Option<Seq<char>>,
    pub blog: Option<Seq<char>>,
    pub avatar_url: Seq<char>,
}

impl View for GithubOwner {
    type V = GithubOwnerView;

    open spec fn view(&self) -> GithubOwnerView {
        GithubOwnerView {
            login: self.login@,
            name: self.name.deep_view(),
            html_url: self.html_url@,
            description: self.description.deep_view(),
            blog: self.blog.deep_view(),
            avatar_url: self.avatar_url@,
        }
    }
}

impl DeepView for GithubOwner {
    type V = GithubOwnerView;

    open spec fn deep_view(&self) -> GithubOwnerView {
        self.view()
    }
}

/// A repository snapshot on the source side.
pub struct GithubRepository {
    /// Name, unique within its owner.
    pub name: String,
    /// Address the destination clones from in the batch flows.
    pub clone_url: String,
    /// Web address; the single-repository flow hands this one to the clone.
    pub html_url: String,
    /// Optional description.
    pub description: Option<String>,
    /// Size indication, used only for deterministic ordering.
    pub size: i64,
}

/// Mathematical image of [`GithubRepository`].
pub struct GithubRepositoryView {
    pub name: Seq<char>,
    pub clone_url: Seq<char>,
    pub html_url: Seq<char>,
    pub description: Option<Seq<char>>,
    pub size: int,
}

impl View for GithubRepository {
    type V = GithubRepositoryView;

    open spec fn view(&self) -> GithubRepositoryView {
        GithubRepositoryView {
            name: self.name@,
            clone_url: self.clone_url@,
            html_url: self.html_url@,
            description: self.description.deep_view(),
            size: self.size as int,
        }
    }
}

impl DeepView for GithubRepository {
    type V = GithubRepositoryView;

    open spec fn deep_view(&self) -> GithubRepositoryView {
        self.view()
    }
}

/// Failure raised when the source API answers outside the 2xx range:
/// the status code and the raw response body.
pub enum GithubApiError {
    NoSuccessStatusCodeError(u16, String),
}

/// Classify a completed source-API exchange: any 2xx is success, anything
/// else becomes this API's typed failure, carrying the status and the raw
/// body verbatim.
pub fn classify_github_response(status: u16, body: String) -> (r: Result<(), GithubApiError>)
    ensures
        r is Ok <==> spec_is_success(status),
        !spec_is_success(status) ==> (r matches Err(
            GithubApiError::NoSuccessStatusCodeError(s, b),
        ) && s == status && b == body),
{
    match require_success(status, body) {
        Ok(u) => Ok(u),
        Err((s, b)) => Err(GithubApiError::NoSuccessStatusCodeError(s, b)),
    }
}

} // verus!
