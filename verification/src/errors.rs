//! The failures a flow can end with.

use vstd::prelude::*;

verus! {

/// Everything that can go wrong, by kind. The texts that some kinds carry
/// come from the place where the failure was noticed.
#[derive(Debug, PartialEq, Eq)]
pub enum DevFlowError {
    /// No configuration has been written yet.
    ConfigNotFound,
    /// The configuration could not be read or understood.
    ConfigInvalid(String),
    /// The configuration was read but did not pass its checks.
    ConfigValidationFailed(String),
    /// The tracker refused the credentials, with the status it answered.
    JiraAuthFailed(u16),
    /// The tracker knows no ticket of this identifier.
    JiraTicketNotFound(String),
    /// The tracker answered with a failure status and a message.
    JiraApiError(u16, String),
    /// The ticket offers no transition of this name.
    JiraTransitionNotFound(String),
    /// The working directory is not inside a repository.
    NotInGitRepo,
    /// The working tree has changes that are not committed.
    GitRepoNotClean,
    /// A branch of this name exists already.
    BranchAlreadyExists(String),
    /// The branch name does not follow the convention.
    BranchHasNoTicketId(String),
    /// The remote refused the push.
    NoPushAccess(String),
    /// The review request could not be created.
    PrCreationFailed(String),
    /// GitHub refused the token.
    GitHubAuthFailed,
    /// GitLab refused the token.
    GitLabAuthFailed,
    /// The remote side could not be reached.
    NetworkError(String),
    /// Any other failure, with its message.
    Other(String),
}

/// The mathematical model of a [`DevFlowError`]: the same kinds, with texts
/// as character sequences.
pub enum ErrorModel {
    ConfigNotFound,
    ConfigInvalid(Seq<char>),
    ConfigValidationFailed(Seq<char>),
    JiraAuthFailed(u16),
    JiraTicketNotFound(Seq<char>),
    JiraApiError(u16, Seq<char>),
    JiraTransitionNotFound(Seq<char>),
    NotInGitRepo,
    GitRepoNotClean,
    BranchAlreadyExists(Seq<char>),
    BranchHasNoTicketId(Seq<char>),
    NoPushAccess(Seq<char>),
    PrCreationFailed(Seq<char>),
    GitHubAuthFailed,
    GitLabAuthFailed,
    NetworkError(Seq<char>),
    Other(Seq<char>),
}

impl View for DevFlowError {
    type V = ErrorModel;

    open spec fn view(&self) -> ErrorModel {
        match self {
            DevFlowError::ConfigNotFound => ErrorModel::ConfigNotFound,
            DevFlowError::ConfigInvalid(m) => ErrorModel::ConfigInvalid(m@),
            DevFlowError::ConfigValidationFailed(m) => ErrorModel::ConfigValidationFailed(m@),
            DevFlowError::JiraAuthFailed(status) => ErrorModel::JiraAuthFailed(*status),
            DevFlowError::JiraTicketNotFound(id) => ErrorModel::JiraTicketNotFound(id@),
            DevFlowError::JiraApiError(status, m) => ErrorModel::JiraApiError(*status, m@),
            DevFlowError::JiraTransitionNotFound(name) => ErrorModel::JiraTransitionNotFound(
                name@,
            ),
            DevFlowError::NotInGitRepo => ErrorModel::NotInGitRepo,
            DevFlowError::GitRepoNotClean => ErrorModel::GitRepoNotClean,
            DevFlowError::BranchAlreadyExists(branch) => ErrorModel::BranchAlreadyExists(branch@),
            DevFlowError::BranchHasNoTicketId(branch) => ErrorModel::BranchHasNoTicketId(branch@),
            DevFlowError::NoPushAccess(m) => ErrorModel::NoPushAccess(m@),
            DevFlowError::PrCreationFailed(m) => ErrorModel::PrCreationFailed(m@),
            DevFlowError::GitHubAuthFailed => ErrorModel::GitHubAuthFailed,
            DevFlowError::GitLabAuthFailed => ErrorModel::GitLabAuthFailed,
            DevFlowError::NetworkError(m) => ErrorModel::NetworkError(m@),
            DevFlowError::Other(m) => ErrorModel::Other(m@),
        }
    }
}

impl Clone for DevFlowError {
    fn clone(&self) -> (res: Self)
        ensures
            res@ == self@,
    {
        match self {
            DevFlowError::ConfigNotFound => DevFlowError::ConfigNotFound,
            DevFlowError::ConfigInvalid(m) => DevFlowError::ConfigInvalid(m.clone()),
            DevFlowError::ConfigValidationFailed(m) => DevFlowError::ConfigValidationFailed(
                m.clone(),
            ),
            DevFlowError::JiraAuthFailed(status) => DevFlowError::JiraAuthFailed(*status),
            DevFlowError::JiraTicketNotFound(id) => DevFlowError::JiraTicketNotFound(id.clone()),
            DevFlowError::JiraApiError(status, m) => DevFlowError::JiraApiError(
                *status,
                m.clone(),
            ),
            DevFlowError::JiraTransitionNotFound(name) => DevFlowError::JiraTransitionNotFound(
                name.clone(),
            ),
            DevFlowError::NotInGitRepo => DevFlowError::NotInGitRepo,
            DevFlowError::GitRepoNotClean => DevFlowError::GitRepoNotClean,
            DevFlowError::BranchAlreadyExists(branch) => DevFlowError::BranchAlreadyExists(
                branch.clone(),
            ),
            DevFlowError::BranchHasNoTicketId(branch) => DevFlowError::BranchHasNoTicketId(
                branch.clone(),
            ),
            DevFlowError::NoPushAccess(m) => DevFlowError::NoPushAccess(m.clone()),
            DevFlowError::PrCreationFailed(m) => DevFlowError::PrCreationFailed(m.clone()),
            DevFlowError::GitHubAuthFailed => DevFlowError::GitHubAuthFailed,
            DevFlowError::GitLabAuthFailed => DevFlowError::GitLabAuthFailed,
            DevFlowError::NetworkError(m) => DevFlowError::NetworkError(m.clone()),
            DevFlowError::Other(m) => DevFlowError::Other(m.clone()),
        }
    }
}

/// The kind of failure that a request which got no usable answer stands
/// for: the network, when it timed out or could not connect; the
/// credentials, when the status says so; anything else otherwise.
pub open spec fn transport_failure(
    timed_out: bool,
    unreachable: bool,
    status: Option<u16>,
    message: Seq<char>,
) -> ErrorModel {
    if timed_out || unreachable {
        ErrorModel::NetworkError(message)
    } else {
        match status {
            Some(code) => if code == 401 || code == 403 {
                ErrorModel::JiraAuthFailed(code)
            } else {
                ErrorModel::Other(message)
            },
            None => ErrorModel::Other(message),
        }
    }
}

impl DevFlowError {
    /// The failure that a request which got no usable answer stands for.
    pub fn from_transport(
        timed_out: bool,
        unreachable: bool,
        status: Option<u16>,
        message: String,
    ) -> (reason: DevFlowError)
        ensures
            reason@ == transport_failure(timed_out, unreachable, status, message@),
    {
        if timed_out || unreachable {
            DevFlowError::NetworkError(message)
        } else {
            match status {
                Some(code) => if code == 401 || code == 403 {
                    DevFlowError::JiraAuthFailed(code)
                } else {
                    DevFlowError::Other(message)
                },
                None => DevFlowError::Other(message),
            }
        }
    }
}

/// The model of a failure that may be absent.
pub open spec fn failure_model(failure: Option<DevFlowError>) -> Option<ErrorModel> {
    match failure {
        Some(e) => Some(e@),
        None => None,
    }
}

} // verus!
