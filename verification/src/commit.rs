//! The message of a commit made for a ticket.

use crate::branch::{extract_ticket_id, ticket_in_branch};
use crate::errors::{DevFlowError, ErrorModel};
use crate::links::{ticket_link, ticket_url};
use vstd::prelude::*;

verus! {

/// The message of a commit for a ticket: what the author wrote, a blank
/// line, and the ticket's identifier with a link to it.
pub open spec fn commit_text(message: Seq<char>, ticket_id: Seq<char>, jira_url: Seq<char>) -> Seq<
    char,
> {
    message + "\n\n"@ + ticket_id + ": "@ + ticket_link(jira_url, ticket_id)
}

/// The message of a commit on a branch: that for the ticket which the
/// branch carries, if it carries one.
pub open spec fn commit_text_on(branch: Seq<char>, message: Seq<char>, jira_url: Seq<char>)
    -> Result<Seq<char>, ErrorModel> {
    match ticket_in_branch(branch) {
        Some(ticket_id) => Ok(commit_text(message, ticket_id, jira_url)),
        None => Err(ErrorModel::BranchHasNoTicketId(branch)),
    }
}

/// The message of a commit for a ticket.
pub fn commit_message(message: &str, ticket_id: &str, jira_url: &str) -> (text: String)
    ensures
        text@ == commit_text(message@, ticket_id@, jira_url@),
{
    let link = ticket_url(jira_url, ticket_id);
    let mut text = String::from_str(message);
    text.append("\n\n");
    text.append(ticket_id);
    text.append(": ");
    text.append(link.as_str());
    text
}

/// The message of a commit on a branch, or
/// [`DevFlowError::BranchHasNoTicketId`] when the branch carries no ticket.
pub fn commit_message_on(branch: &str, message: &str, jira_url: &str) -> (res: Result<
    String,
    DevFlowError,
>)
    ensures
        match res {
            Ok(text) => commit_text_on(branch@, message@, jira_url@) == Ok::<
                Seq<char>,
                ErrorModel,
            >(text@),
            Err(reason) => commit_text_on(branch@, message@, jira_url@) == Err::<
                Seq<char>,
                ErrorModel,
            >(reason@),
        },
{
    match extract_ticket_id(branch) {
        Ok(ticket_id) => Ok(commit_message(message, ticket_id.as_str(), jira_url)),
        Err(reason) => Err(reason),
    }
}

} // verus!
