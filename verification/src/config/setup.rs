//! The decisions of the first set-up: what the answers to its questions
//! mean, and which answers are refused.

use crate::config::settings::{AuthMethod, AuthMethodModel, GitConfig, GitConfigModel};
use crate::errors::{DevFlowError, ErrorModel};
use crate::text::{lowercase, lowercased};
use vstd::prelude::*;

verus! {

/// The branch prefix that is offered when none is given.
pub const DEFAULT_BRANCH_PREFIX: &'static str = "feat";

/// The transition that is offered when none is given.
pub const DEFAULT_TRANSITION: &'static str = "In Progress";

/// The provider that is offered when none is given.
pub const DEFAULT_PROVIDER: &'static str = "gitlab";

/// The way to sign in that is offered when none is chosen.
pub const DEFAULT_AUTH_CHOICE: &'static str = "2";

/// Where GitHub's API is.
pub const GITHUB_API: &'static str = "https://api.github.com";

/// An answer, or the default in its place when the answer is empty.
pub open spec fn answer_or_default(answer: Seq<char>, default: Seq<char>) -> Seq<char> {
    if answer.len() == 0 {
        default
    } else {
        answer
    }
}

/// The way to sign in that a choice means: `1` is a personal access token,
/// anything else a token that goes with the e-mail address.
pub open spec fn chosen_auth(choice: Seq<char>, token: Seq<char>) -> AuthMethodModel {
    if choice == "1"@ {
        AuthMethodModel::PersonalAccessToken { token }
    } else {
        AuthMethodModel::ApiToken { token }
    }
}

/// Whether a provider's name, given in lower case, means GitHub. Any other
/// name means GitLab.
pub open spec fn names_github(lowered_provider: Seq<char>) -> bool {
    lowered_provider == "github"@
}

/// An answer with surrounding blanks already removed, or the default when
/// nothing is left of it.
pub fn answer_or(answer: &str, default: &str) -> (res: String)
    ensures
        res@ == answer_or_default(answer@, default@),
{
    if answer.unicode_len() == 0 {
        String::from_str(default)
    } else {
        String::from_str(answer)
    }
}

/// The way to sign in that a choice means.
pub fn auth_method_for(choice: &str, token: String) -> (method: AuthMethod)
    ensures
        method@ == chosen_auth(choice@, token@),
{
    if String::from_str(choice) == String::from_str("1") {
        AuthMethod::PersonalAccessToken { token }
    } else {
        AuthMethod::ApiToken { token }
    }
}

/// Whether a provider's name, given in lower case, means GitHub.
pub fn is_github(lowered_provider: &str) -> (res: bool)
    ensures
        res == names_github(lowered_provider@),
{
    String::from_str(lowered_provider) == String::from_str("github")
}

/// Whether a provider's name, in whatever case it is written, means GitHub.
pub fn is_github_provider(provider: &str) -> (res: bool)
    ensures
        res == names_github(lowercased(provider@)),
{
    let lowered = lowercase(provider);
    is_github(lowered.as_str())
}

/// The code host settings for GitHub: its API's address is fixed, and it
/// needs an owner and a repository.
pub fn github_config(provider: String, owner: String, repo: String, token: String) -> (git:
    GitConfig)
    ensures
        git@ == (GitConfigModel {
            provider: provider@,
            base_url: GITHUB_API@,
            token: token@,
            owner: Some(owner@),
            repo: Some(repo@),
        }),
{
    GitConfig {
        provider,
        base_url: String::from_str(GITHUB_API),
        token,
        owner: Some(owner),
        repo: Some(repo),
    }
}

/// The code host settings for GitLab, at the given address.
pub fn gitlab_config(provider: String, base_url: String, token: String) -> (git: GitConfig)
    ensures
        git@ == (GitConfigModel {
            provider: provider@,
            base_url: base_url@,
            token: token@,
            owner: None,
            repo: None,
        }),
{
    GitConfig { provider, base_url, token, owner: None, repo: None }
}

/// A code host token is accepted when it is not empty.
pub fn check_git_token(token: &str) -> (res: Result<(), DevFlowError>)
    ensures
        res is Ok <==> token@.len() > 0,
        res matches Err(reason) ==> reason@ == ErrorModel::ConfigValidationFailed(
            "Git token cannot be empty"@,
        ),
{
    if token.unicode_len() == 0 {
        Err(DevFlowError::ConfigValidationFailed(String::from_str("Git token cannot be empty")))
    } else {
        Ok(())
    }
}

/// The failure of the set-up when the tracker cannot be reached or refuses.
pub fn jira_check_failed(cause: &str) -> (reason: DevFlowError)
    ensures
        reason@ == ErrorModel::ConfigValidationFailed("Jira connection failed: "@ + cause@),
{
    let mut text = String::from_str("Jira connection failed: ");
    text.append(cause);
    DevFlowError::ConfigValidationFailed(text)
}

} // verus!
