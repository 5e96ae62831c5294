//! How a failure is told to the user: a headline, what happened, and what
//! to do about it.
//!
//! A message is a sequence of spans. Each span has a style, so that a
//! terminal can set headlines, commands and links apart; the text is the
//! same with or without styles.

use crate::errors::{DevFlowError, ErrorModel};
use crate::text::{decimal, decimal_of};
use vstd::prelude::*;

verus! {

/// How a span of a message is meant to stand out.
#[derive(Debug, Clone, Copy, PartialEq, Eq, Structural)]
pub enum Style {
    /// Ordinary text.
    Plain,
    /// The headline of a failure.
    Headline,
    /// An explanation, set back.
    Note,
    /// A command to type.
    Command,
    /// An address to visit.
    Link,
}

/// A piece of a message in one style.
#[derive(Debug, PartialEq, Eq)]
pub struct Span {
    pub style: Style,
    pub text: String,
}

/// The model of a [`Span`]: its style and its text.
pub open spec fn span_model(span: Span) -> (Style, Seq<char>) {
    (span.style, span.text@)
}

/// The models of some spans, in order.
pub open spec fn spans_model(spans: Seq<Span>) -> Seq<(Style, Seq<char>)> {
    spans.map_values(|span: Span| span_model(span))
}

/// The texts of some spans, one after another.
pub open spec fn plain_text(spans: Seq<(Style, Seq<char>)>) -> Seq<char>
    decreases spans.len(),
{
    if spans.len() == 0 {
        Seq::empty()
    } else {
        plain_text(spans.drop_last()) + spans.last().1
    }
}

/// The headline of a failure.
pub open spec fn headline(e: ErrorModel) -> Seq<char> {
    match e {
        ErrorModel::ConfigNotFound => "Configuration not found"@,
        ErrorModel::ConfigInvalid(_) => "Invalid configuration"@,
        ErrorModel::ConfigValidationFailed(_) => "Configuration validation failed"@,
        ErrorModel::JiraAuthFailed(status) => "Jira authentication failed ("@ + decimal(
            status as nat,
        ) + ")"@,
        ErrorModel::JiraTicketNotFound(id) => "Ticket '"@ + id + "' not found"@,
        ErrorModel::JiraApiError(status, _) => "Jira API error ("@ + decimal(status as nat)
            + ")"@,
        ErrorModel::JiraTransitionNotFound(name) => "Status transition '"@ + name
            + "' not found"@,
        ErrorModel::NotInGitRepo => "Not in a git repository"@,
        ErrorModel::GitRepoNotClean => "Uncommitted changes detected"@,
        ErrorModel::BranchAlreadyExists(branch) => "Branch '"@ + branch + "' already exists"@,
        ErrorModel::BranchHasNoTicketId(_) => "Branch doesn't contain a ticket ID"@,
        ErrorModel::NoPushAccess(_) => "Failed to push to remote"@,
        ErrorModel::PrCreationFailed(_) => "Failed to create pull/merge request"@,
        ErrorModel::GitHubAuthFailed => "GitHub authentication failed"@,
        ErrorModel::GitLabAuthFailed => "GitLab authentication failed"@,
        ErrorModel::NetworkError(_) => "Network error"@,
        ErrorModel::Other(_) => "Error"@,
    }
}

/// What happened, in a sentence, or in the words of whoever noticed it.
pub open spec fn detail(e: ErrorModel) -> Seq<char> {
    match e {
        ErrorModel::ConfigNotFound => "Run 'devflow init' to set up your configuration"@,
        ErrorModel::ConfigInvalid(m) => m,
        ErrorModel::ConfigValidationFailed(m) => m,
        ErrorModel::JiraAuthFailed(_) => "Your API token may have expired or is invalid"@,
        ErrorModel::JiraTicketNotFound(_) =>
            "The ticket doesn't exist or you don't have access to it"@,
        ErrorModel::JiraApiError(_, m) => m,
        ErrorModel::JiraTransitionNotFound(_) => "This status is not available for this ticket"@,
        ErrorModel::NotInGitRepo => "DevFlow must be run inside a git repository"@,
        ErrorModel::GitRepoNotClean =>
            "Commit or stash your changes before running 'devflow done'"@,
        ErrorModel::BranchAlreadyExists(_) =>
            "You're already on this branch or it exists locally"@,
        ErrorModel::BranchHasNoTicketId(branch) => "Current branch: "@ + branch,
        ErrorModel::NoPushAccess(m) => m,
        ErrorModel::PrCreationFailed(m) => m,
        ErrorModel::GitHubAuthFailed => "Your GitHub token is invalid or expired"@,
        ErrorModel::GitLabAuthFailed => "Your GitLab token is invalid or expired"@,
        ErrorModel::NetworkError(m) => m,
        ErrorModel::Other(m) => m,
    }
}

/// What to do about a failure.
pub open spec fn advice(e: ErrorModel) -> Seq<(Style, Seq<char>)> {
    match e {
        ErrorModel::ConfigNotFound => seq![
            (Style::Plain, "\n\n   "@),
            (Style::Command, "devflow init"@),
        ],
        ErrorModel::ConfigInvalid(_) => seq![
            (
                Style::Plain,
                "\n\n   To fix:\n   1. Check your config file: ~/.devflow/config.toml\n   2. Or reinitialize: "@,
            ),
            (Style::Command, "devflow init"@),
        ],
        ErrorModel::ConfigValidationFailed(_) => seq![
            (
                Style::Plain,
                "\n\n   To fix:\n   1. Check your API tokens are valid\n   2. Verify network connectivity\n   3. Reinitialize if needed: "@,
            ),
            (Style::Command, "devflow init"@),
        ],
        ErrorModel::JiraAuthFailed(_) => seq![
            (Style::Plain, "\n\n   To fix:\n   1. Generate new token: "@),
            (Style::Link, "https://id.atlassian.com/manage-profile/security/api-tokens"@),
            (Style::Plain, "\n   2. Update config: "@),
            (Style::Command, "devflow init"@),
            (Style::Plain, "\n   3. Or edit manually: ~/.devflow/config.toml"@),
        ],
        ErrorModel::JiraTicketNotFound(id) => seq![
            (
                Style::Plain,
                "\n\n   To fix:\n   1. Check the ticket ID is correct\n   2. Verify you have access to this project\n   3. Search for tickets: "@,
            ),
            (Style::Command, "devflow search \""@ + id + "\""@),
        ],
        ErrorModel::JiraApiError(_, _) => seq![
            (Style::Plain, "\n\n   Try again or check your network connection"@),
        ],
        ErrorModel::JiraTransitionNotFound(_) => seq![
            (
                Style::Plain,
                "\n\n   To fix:\n   1. Check available statuses in Jira\n   2. Update your config with a valid transition"@,
            ),
        ],
        ErrorModel::NotInGitRepo => seq![
            (
                Style::Plain,
                "\n\n   To fix:\n   1. Navigate to a git repository\n   2. Or initialize one: "@,
            ),
            (Style::Command, "git init"@),
        ],
        ErrorModel::GitRepoNotClean => seq![
            (Style::Plain, "\n\n   To fix:\n   1. Commit changes: "@),
            (Style::Command, "devflow commit \"your message\""@),
            (Style::Plain, "\n   2. Or stash: "@),
            (Style::Command, "git stash"@),
            (Style::Plain, "\n   3. Check status: "@),
            (Style::Command, "git status"@),
        ],
        ErrorModel::BranchAlreadyExists(_) => seq![
            (Style::Plain, "\n\n   To check status: "@),
            (Style::Command, "devflow status"@),
        ],
        ErrorModel::BranchHasNoTicketId(_) => seq![
            (
                Style::Plain,
                "\n\n   DevFlow expects branches in format: feat/TICKET-123/description\n\n   To fix:\n   1. Start work on a ticket: "@,
            ),
            (Style::Command, "devflow start TICKET-123"@),
            (Style::Plain, "\n   2. Or switch to a DevFlow branch"@),
        ],
        ErrorModel::NoPushAccess(_) => seq![
            (
                Style::Plain,
                "\n\n   To fix:\n   1. Check your SSH keys are configured\n   2. Verify you have push access to the repository\n   3. Test SSH: "@,
            ),
            (Style::Command, "ssh -T git@github.com"@),
        ],
        ErrorModel::PrCreationFailed(_) => seq![
            (
                Style::Plain,
                "\n\n   To fix:\n   1. Check your API token is valid\n   2. Verify you have permissions to create PRs\n   3. Try creating the PR manually"@,
            ),
        ],
        ErrorModel::GitHubAuthFailed => seq![
            (
                Style::Plain,
                "\n\n   To fix:\n   1. Generate new token: Settings > Developer settings > Personal access tokens\n   2. Required scope: repo (full control)\n   3. Update config: "@,
            ),
            (Style::Command, "devflow init"@),
        ],
        ErrorModel::GitLabAuthFailed => seq![
            (
                Style::Plain,
                "\n\n   To fix:\n   1. Generate new token: Settings > Access Tokens\n   2. Required scope: api\n   3. Update config: "@,
            ),
            (Style::Command, "devflow init"@),
        ],
        ErrorModel::NetworkError(_) => seq![
            (
                Style::Plain,
                "\n\n   To fix:\n   1. Check your internet connection\n   2. Verify you can reach the API endpoints\n   3. Try again in a moment"@,
            ),
        ],
        ErrorModel::Other(_) => Seq::empty(),
    }
}

/// The whole message of a failure: its headline, what happened, and what
/// to do about it.
pub open spec fn message(e: ErrorModel) -> Seq<(Style, Seq<char>)> {
    seq![(Style::Headline, headline(e)), (Style::Plain, "\n   "@), (Style::Note, detail(e))]
        + advice(e)
}

/// Adds a span in a style.
fn put(spans: &mut Vec<Span>, style: Style, text: String)
    ensures
        spans_model(final(spans)@) == spans_model(old(spans)@).push((style, text@)),
{
    let span = Span { style, text };
    proof {
        assert(spans_model(spans@.push(span)) =~= spans_model(spans@).push(span_model(span)));
    }
    spans.push(span);
}

/// Adds a span of ordinary text.
fn plain(spans: &mut Vec<Span>, text: &str)
    ensures
        spans_model(final(spans)@) == spans_model(old(spans)@).push((Style::Plain, text@)),
{
    put(spans, Style::Plain, String::from_str(text));
}

/// Adds a span that is a command to type.
fn command(spans: &mut Vec<Span>, text: &str)
    ensures
        spans_model(final(spans)@) == spans_model(old(spans)@).push((Style::Command, text@)),
{
    put(spans, Style::Command, String::from_str(text));
}

/// A text between two others.
fn quoted(before: &str, text: &str, after: &str) -> (res: String)
    ensures
        res@ == before@ + text@ + after@,
{
    let mut res = String::from_str(before);
    res.append(text);
    res.append(after);
    res
}

impl DevFlowError {
    /// The headline of the failure.
    pub fn headline(&self) -> (text: String)
        ensures
            text@ == headline(self@),
    {
        match self {
            DevFlowError::ConfigNotFound => String::from_str("Configuration not found"),
            DevFlowError::ConfigInvalid(_) => String::from_str("Invalid configuration"),
            DevFlowError::ConfigValidationFailed(_) => String::from_str(
                "Configuration validation failed",
            ),
            DevFlowError::JiraAuthFailed(status) => {
                let number = decimal_of(*status as u64);
                quoted("Jira authentication failed (", number.as_str(), ")")
            },
            DevFlowError::JiraTicketNotFound(id) => quoted("Ticket '", id.as_str(), "' not found"),
            DevFlowError::JiraApiError(status, _) => {
                let number = decimal_of(*status as u64);
                quoted("Jira API error (", number.as_str(), ")")
            },
            DevFlowError::JiraTransitionNotFound(name) => quoted(
                "Status transition '",
                name.as_str(),
                "' not found",
            ),
            DevFlowError::NotInGitRepo => String::from_str("Not in a git repository"),
            DevFlowError::GitRepoNotClean => String::from_str("Uncommitted changes detected"),
            DevFlowError::BranchAlreadyExists(branch) => quoted(
                "Branch '",
                branch.as_str(),
                "' already exists",
            ),
            DevFlowError::BranchHasNoTicketId(_) => String::from_str(
                "Branch doesn't contain a ticket ID",
            ),
            DevFlowError::NoPushAccess(_) => String::from_str("Failed to push to remote"),
            DevFlowError::PrCreationFailed(_) => String::from_str(
                "Failed to create pull/merge request",
            ),
            DevFlowError::GitHubAuthFailed => String::from_str("GitHub authentication failed"),
            DevFlowError::GitLabAuthFailed => String::from_str("GitLab authentication failed"),
            DevFlowError::NetworkError(_) => String::from_str("Network error"),
            DevFlowError::Other(_) => String::from_str("Error"),
        }
    }

    /// What happened, in a sentence, or in the words of whoever noticed it.
    pub fn detail(&self) -> (text: String)
        ensures
            text@ == detail(self@),
    {
        match self {
            DevFlowError::ConfigNotFound => String::from_str(
                "Run 'devflow init' to set up your configuration",
            ),
            DevFlowError::ConfigInvalid(m) => m.clone(),
            DevFlowError::ConfigValidationFailed(m) => m.clone(),
            DevFlowError::JiraAuthFailed(_) => String::from_str(
                "Your API token may have expired or is invalid",
            ),
            DevFlowError::JiraTicketNotFound(_) => String::from_str(
                "The ticket doesn't exist or you don't have access to it",
            ),
            DevFlowError::JiraApiError(_, m) => m.clone(),
            DevFlowError::JiraTransitionNotFound(_) => String::from_str(
                "This status is not available for this ticket",
            ),
            DevFlowError::NotInGitRepo => String::from_str(
                "DevFlow must be run inside a git repository",
            ),
            DevFlowError::GitRepoNotClean => String::from_str(
                "Commit or stash your changes before running 'devflow done'",
            ),
            DevFlowError::BranchAlreadyExists(_) => String::from_str(
                "You're already on this branch or it exists locally",
            ),
            DevFlowError::BranchHasNoTicketId(branch) => {
                let mut text = String::from_str("Current branch: ");
                text.append(branch.as_str());
                text
            },
            DevFlowError::NoPushAccess(m) => m.clone(),
            DevFlowError::PrCreationFailed(m) => m.clone(),
            DevFlowError::GitHubAuthFailed => String::from_str(
                "Your GitHub token is invalid or expired",
            ),
            DevFlowError::GitLabAuthFailed => String::from_str(
                "Your GitLab token is invalid or expired",
            ),
            DevFlowError::NetworkError(m) => m.clone(),
            DevFlowError::Other(m) => m.clone(),
        }
    }

    /// The whole message of the failure: its headline, what happened, and
    /// what to do about it.
    pub fn message(&self) -> (spans: Vec<Span>)
        ensures
            spans_model(spans@) == message(self@),
    {
        let mut spans: Vec<Span> = Vec::new();
        proof {
            assert(spans_model(spans@) =~= Seq::empty());
        }
        put(&mut spans, Style::Headline, self.headline());
        plain(&mut spans, "\n   ");
        put(&mut spans, Style::Note, self.detail());
        match self {
            DevFlowError::ConfigNotFound => {
                plain(&mut spans, "\n\n   ");
                command(&mut spans, "devflow init");
            },
            DevFlowError::ConfigInvalid(_) => {
                plain(
                    &mut spans,
                    "\n\n   To fix:\n   1. Check your config file: ~/.devflow/config.toml\n   2. Or reinitialize: ",
                );
                command(&mut spans, "devflow init");
            },
            DevFlowError::ConfigValidationFailed(_) => {
                plain(
                    &mut spans,
                    "\n\n   To fix:\n   1. Check your API tokens are valid\n   2. Verify network connectivity\n   3. Reinitialize if needed: ",
                );
                command(&mut spans, "devflow init");
            },
            DevFlowError::JiraAuthFailed(_) => {
                plain(&mut spans, "\n\n   To fix:\n   1. Generate new token: ");
                put(
                    &mut spans,
                    Style::Link,
                    String::from_str("https://id.atlassian.com/manage-profile/security/api-tokens"),
                );
                plain(&mut spans, "\n   2. Update config: ");
                command(&mut spans, "devflow init");
                plain(&mut spans, "\n   3. Or edit manually: ~/.devflow/config.toml");
            },
            DevFlowError::JiraTicketNotFound(id) => {
                plain(
                    &mut spans,
                    "\n\n   To fix:\n   1. Check the ticket ID is correct\n   2. Verify you have access to this project\n   3. Search for tickets: ",
                );
                put(&mut spans, Style::Command, quoted("devflow search \"", id.as_str(), "\""));
            },
            DevFlowError::JiraApiError(_, _) => {
                plain(&mut spans, "\n\n   Try again or check your network connection");
            },
            DevFlowError::JiraTransitionNotFound(_) => {
                plain(
                    &mut spans,
                    "\n\n   To fix:\n   1. Check available statuses in Jira\n   2. Update your config with a valid transition",
                );
            },
            DevFlowError::NotInGitRepo => {
                plain(
                    &mut spans,
                    "\n\n   To fix:\n   1. Navigate to a git repository\n   2. Or initialize one: ",
                );
                command(&mut spans, "git init");
            },
            DevFlowError::GitRepoNotClean => {
                plain(&mut spans, "\n\n   To fix:\n   1. Commit changes: ");
                command(&mut spans, "devflow commit \"your message\"");
                plain(&mut spans, "\n   2. Or stash: ");
                command(&mut spans, "git stash");
                plain(&mut spans, "\n   3. Check status: ");
                command(&mut spans, "git status");
            },
            DevFlowError::BranchAlreadyExists(_) => {
                plain(&mut spans, "\n\n   To check status: ");
                command(&mut spans, "devflow status");
            },
            DevFlowError::BranchHasNoTicketId(_) => {
                plain(
                    &mut spans,
                    "\n\n   DevFlow expects branches in format: feat/TICKET-123/description\n\n   To fix:\n   1. Start work on a ticket: ",
                );
                command(&mut spans, "devflow start TICKET-123");
                plain(&mut spans, "\n   2. Or switch to a DevFlow branch");
            },
            DevFlowError::NoPushAccess(_) => {
                plain(
                    &mut spans,
                    "\n\n   To fix:\n   1. Check your SSH keys are configured\n   2. Verify you have push access to the repository\n   3. Test SSH: ",
                );
                command(&mut spans, "ssh -T git@github.com");
            },
            DevFlowError::PrCreationFailed(_) => {
                plain(
                    &mut spans,
                    "\n\n   To fix:\n   1. Check your API token is valid\n   2. Verify you have permissions to create PRs\n   3. Try creating the PR manually",
                );
            },
            DevFlowError::GitHubAuthFailed => {
                plain(
                    &mut spans,
                    "\n\n   To fix:\n   1. Generate new token: Settings > Developer settings > Personal access tokens\n   2. Required scope: repo (full control)\n   3. Update config: ",
                );
                command(&mut spans, "devflow init");
            },
            DevFlowError::GitLabAuthFailed => {
                plain(
                    &mut spans,
                    "\n\n   To fix:\n   1. Generate new token: Settings > Access Tokens\n   2. Required scope: api\n   3. Update config: ",
                );
                command(&mut spans, "devflow init");
            },
            DevFlowError::NetworkError(_) => {
                plain(
                    &mut spans,
                    "\n\n   To fix:\n   1. Check your internet connection\n   2. Verify you can reach the API endpoints\n   3. Try again in a moment",
                );
            },
            DevFlowError::Other(_) => {},
        }
        spans
    }

    /// The message of the failure as plain text.
    pub fn to_text(&self) -> (text: String)
        ensures
            text@ == plain_text(message(self@)),
    {
        let spans = self.message();
        render_plain(&spans)
    }
}

/// The texts of some spans, one after another.
pub fn render_plain(spans: &Vec<Span>) -> (text: String)
    ensures
        text@ == plain_text(spans_model(spans@)),
{
    let mut text = String::new();
    let mut i: usize = 0;
    proof {
        assert(spans_model(spans@).take(0) =~= Seq::empty());
    }
    while i < spans.len()
        invariant
            0 <= i <= spans.len(),
            text@ == plain_text(spans_model(spans@).take(i as int)),
        decreases spans.len() - i,
    {
        proof {
            let all = spans_model(spans@);
            assert(all.take(i + 1).drop_last() =~= all.take(i as int));
            assert(all.take(i + 1).last() == span_model(spans@[i as int]));
        }
        text.append(spans[i].text.as_str());
        i += 1;
    }
    proof {
        assert(spans_model(spans@).take(i as int) =~= spans_model(spans@));
    }
    text
}

} // verus!
