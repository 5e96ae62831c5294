//! GitLab: where its resources are, what a request for a merge request
//! says, and how its answers are read.

use crate::api::http::{failure_message, failure_text, header, header_model, is_success,
    succeeded, Header};
use crate::errors::{DevFlowError, ErrorModel};
use crate::links::{url_encode, url_encoded};
use crate::text::{decimal, decimal_of};
use vstd::prelude::*;

verus! {

/// A GitLab site and the token to reach it with.
#[derive(Debug, PartialEq, Eq)]
pub struct GitLabClient {
    pub base_url: String,
    pub token: String,
}

/// What a request for a merge request says.
#[derive(Debug, PartialEq, Eq)]
pub struct CreateMergeRequestPayload {
    pub source_branch: String,
    pub target_branch: String,
    pub title: String,
    pub description: String,
    pub remove_source_branch: bool,
}

/// The model of a [`GitLabClient`].
pub struct GitLabClientModel {
    pub base_url: Seq<char>,
    pub token: Seq<char>,
}

/// The model of a [`CreateMergeRequestPayload`].
pub struct MergeRequestModel {
    pub source_branch: Seq<char>,
    pub target_branch: Seq<char>,
    pub title: Seq<char>,
    pub description: Seq<char>,
    pub remove_source_branch: bool,
}

impl View for GitLabClient {
    type V = GitLabClientModel;

    open spec fn view(&self) -> GitLabClientModel {
        GitLabClientModel { base_url: self.base_url@, token: self.token@ }
    }
}

impl View for CreateMergeRequestPayload {
    type V = MergeRequestModel;

    open spec fn view(&self) -> MergeRequestModel {
        MergeRequestModel {
            source_branch: self.source_branch@,
            target_branch: self.target_branch@,
            title: self.title@,
            description: self.description@,
            remove_source_branch: self.remove_source_branch,
        }
    }
}

/// Where a project is, by its path.
pub open spec fn project_link(base_url: Seq<char>, project_path: Seq<char>) -> Seq<char> {
    base_url + "/api/v4/projects/"@ + url_encoded(project_path)
}

/// Where the merge requests of a project are, by its number.
pub open spec fn project_merge_requests_link(base_url: Seq<char>, project_id: u64) -> Seq<char> {
    base_url + "/api/v4/projects/"@ + decimal(project_id as nat) + "/merge_requests"@
}

/// What GitLab's answer means, to a question about a project as to a
/// request for a merge request: it is usable, or the creation of the merge
/// request failed with the given text.
pub open spec fn merge_request_answer(status: u16, status_text: Seq<char>, body: Seq<char>)
    -> Result<(), ErrorModel> {
    if is_success(status) {
        Ok(())
    } else {
        Err(ErrorModel::PrCreationFailed(failure_text("GitLab API error"@, status_text, body)))
    }
}

impl GitLabClient {
    /// A GitLab site and the token to reach it with.
    pub fn new(base_url: String, token: String) -> (client: Self)
        ensures
            client@ == (GitLabClientModel { base_url: base_url@, token: token@ }),
    {
        GitLabClient { base_url, token }
    }

    /// Where a project is, by its path.
    pub fn project_url(&self, project_path: &str) -> (url: String)
        ensures
            url@ == project_link(self@.base_url, project_path@),
    {
        let encoded = url_encode(project_path);
        let mut url = self.base_url.clone();
        url.append("/api/v4/projects/");
        url.append(encoded.as_str());
        url
    }

    /// Where the merge requests of a project are, by its number.
    pub fn merge_requests_url(&self, project_id: u64) -> (url: String)
        ensures
            url@ == project_merge_requests_link(self@.base_url, project_id),
    {
        let number = decimal_of(project_id);
        let mut url = self.base_url.clone();
        url.append("/api/v4/projects/");
        url.append(number.as_str());
        url.append("/merge_requests");
        url
    }

    /// The header that every request to GitLab carries: the token.
    pub fn headers(&self) -> (headers: Vec<Header>)
        ensures
            headers@.len() == 1,
            header_model(headers@[0]) == ("PRIVATE-TOKEN"@, self@.token),
    {
        let mut headers: Vec<Header> = Vec::new();
        headers.push(header("PRIVATE-TOKEN", self.token.as_str()));
        headers
    }
}

/// What a request for a merge request from one branch into another says.
/// The source branch is removed once it is merged.
pub fn merge_request_payload(
    source_branch: &str,
    target_branch: &str,
    title: &str,
    description: &str,
) -> (payload: CreateMergeRequestPayload)
    ensures
        payload@ == (MergeRequestModel {
            source_branch: source_branch@,
            target_branch: target_branch@,
            title: title@,
            description: description@,
            remove_source_branch: true,
        }),
{
    CreateMergeRequestPayload {
        source_branch: String::from_str(source_branch),
        target_branch: String::from_str(target_branch),
        title: String::from_str(title),
        description: String::from_str(description),
        remove_source_branch: true,
    }
}

/// Reads the status of GitLab's answer, to a question about a project as
/// to a request for a merge request.
pub fn check_merge_request_answer(status: u16, status_text: &str, body: &str) -> (res: Result<
    (),
    DevFlowError,
>)
    ensures
        match res {
            Ok(_) => merge_request_answer(status, status_text@, body@) is Ok,
            Err(reason) => merge_request_answer(status, status_text@, body@) == Err::<
                (),
                ErrorModel,
            >(reason@),
        },
{
    if succeeded(status) {
        Ok(())
    } else {
        Err(
            DevFlowError::PrCreationFailed(
                failure_message("GitLab API error", status_text, body),
            ),
        )
    }
}

} // verus!
