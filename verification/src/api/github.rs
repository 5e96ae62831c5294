//! GitHub: where its resources are, what a request for a pull request
//! says, and how its answers are read.

use crate::api::http::{
    bearer, bearer_text, failure_message, failure_text, header, header_model, is_success,
    succeeded, Header,
};
use crate::errors::{DevFlowError, ErrorModel};
use vstd::prelude::*;

verus! {

/// A repository on GitHub and the token to reach it with.
#[derive(Debug, PartialEq, Eq)]
pub struct GitHubClient {
    pub owner: String,
    pub repo: String,
    pub token: String,
}

/// What a request for a pull request says.
#[derive(Debug, PartialEq, Eq)]
pub struct CreatePullRequestPayload {
    pub title: String,
    pub body: String,
    pub head: String,
    pub base: String,
}

/// The model of a [`GitHubClient`].
pub struct GitHubClientModel {
    pub owner: Seq<char>,
    pub repo: Seq<char>,
    pub token: Seq<char>,
}

/// The model of a [`CreatePullRequestPayload`].
pub struct PullRequestModel {
    pub title: Seq<char>,
    pub body: Seq<char>,
    pub head: Seq<char>,
    pub base: Seq<char>,
}

impl View for GitHubClient {
    type V = GitHubClientModel;

    open spec fn view(&self) -> GitHubClientModel {
        GitHubClientModel { owner: self.owner@, repo: self.repo@, token: self.token@ }
    }
}

impl View for CreatePullRequestPayload {
    type V = PullRequestModel;

    open spec fn view(&self) -> PullRequestModel {
        PullRequestModel {
            title: self.title@,
            body: self.body@,
            head: self.head@,
            base: self.base@,
        }
    }
}

/// Where a repository is.
pub open spec fn repo_link(owner: Seq<char>, repo: Seq<char>) -> Seq<char> {
    "https://api.github.com/repos/"@ + owner + "/"@ + repo
}

/// Where the pull requests of a repository are.
pub open spec fn pulls_link(owner: Seq<char>, repo: Seq<char>) -> Seq<char> {
    repo_link(owner, repo) + "/pulls"@
}

/// What GitHub's answer to a request for a pull request means: the pull
/// request can be read from it, or its creation failed with the given text.
pub open spec fn pull_request_answer(status: u16, status_text: Seq<char>, body: Seq<char>)
    -> Result<(), ErrorModel> {
    if is_success(status) {
        Ok(())
    } else {
        Err(ErrorModel::PrCreationFailed(failure_text("GitHub API error"@, status_text, body)))
    }
}

/// What GitHub's answer to a question about a repository means: it is
/// usable, or the request failed with the given text.
pub open spec fn repo_answer(status: u16, status_text: Seq<char>, body: Seq<char>) -> Result<
    (),
    ErrorModel,
> {
    if is_success(status) {
        Ok(())
    } else {
        Err(ErrorModel::Other(failure_text("GitHub API error"@, status_text, body)))
    }
}

impl GitHubClient {
    /// A repository on GitHub and the token to reach it with.
    pub fn new(owner: String, repo: String, token: String) -> (client: Self)
        ensures
            client@ == (GitHubClientModel { owner: owner@, repo: repo@, token: token@ }),
    {
        GitHubClient { owner, repo, token }
    }

    /// Where the repository is.
    pub fn repo_url(&self) -> (url: String)
        ensures
            url@ == repo_link(self@.owner, self@.repo),
    {
        let mut url = String::from_str("https://api.github.com/repos/");
        url.append(self.owner.as_str());
        url.append("/");
        url.append(self.repo.as_str());
        url
    }

    /// Where the pull requests of the repository are.
    pub fn pulls_url(&self) -> (url: String)
        ensures
            url@ == pulls_link(self@.owner, self@.repo),
    {
        let mut url = self.repo_url();
        url.append("/pulls");
        url
    }

    /// The headers that every request to GitHub carries: the token, the
    /// kind of answer that is wanted, and who asks.
    pub fn headers(&self) -> (headers: Vec<Header>)
        ensures
            headers@.len() == 3,
            header_model(headers@[0]) == ("Authorization"@, bearer_text(self@.token)),
            header_model(headers@[1]) == ("Accept"@, "application/vnd.github+json"@),
            header_model(headers@[2]) == ("User-Agent"@, "devflow-cli"@),
    {
        let token = bearer(self.token.as_str());
        let mut headers: Vec<Header> = Vec::new();
        headers.push(header("Authorization", token.as_str()));
        headers.push(header("Accept", "application/vnd.github+json"));
        headers.push(header("User-Agent", "devflow-cli"));
        headers
    }
}

/// What a request for a pull request from one branch into another says.
pub fn pull_request_payload(
    source_branch: &str,
    target_branch: &str,
    title: &str,
    description: &str,
) -> (payload: CreatePullRequestPayload)
    ensures
        payload@ == (PullRequestModel {
            title: title@,
            body: description@,
            head: source_branch@,
            base: target_branch@,
        }),
{
    CreatePullRequestPayload {
        title: String::from_str(title),
        body: String::from_str(description),
        head: String::from_str(source_branch),
        base: String::from_str(target_branch),
    }
}

/// Reads the status of GitHub's answer to a request for a pull request.
pub fn check_pull_request_answer(status: u16, status_text: &str, body: &str) -> (res: Result<
    (),
    DevFlowError,
>)
    ensures
        match res {
            Ok(_) => pull_request_answer(status, status_text@, body@) is Ok,
            Err(reason) => pull_request_answer(status, status_text@, body@) == Err::<
                (),
                ErrorModel,
            >(reason@),
        },
{
    if succeeded(status) {
        Ok(())
    } else {
        Err(
            DevFlowError::PrCreationFailed(
                failure_message("GitHub API error", status_text, body),
            ),
        )
    }
}

/// Reads the status of GitHub's answer to a question about a repository.
pub fn check_repo_answer(status: u16, status_text: &str, body: &str) -> (res: Result<
    (),
    DevFlowError,
>)
    ensures
        match res {
            Ok(_) => repo_answer(status, status_text@, body@) is Ok,
            Err(reason) => repo_answer(status, status_text@, body@) == Err::<(), ErrorModel>(
                reason@,
            ),
        },
{
    if succeeded(status) {
        Ok(())
    } else {
        Err(DevFlowError::Other(failure_message("GitHub API error", status_text, body)))
    }
}

} // verus!
