//! The tracker: where its resources are, how to sign in, and how its
//! answers are read.

use crate::api::http::{failure_message, failure_text, is_success, succeeded};
use crate::config::settings::{AuthMethod, AuthMethodModel};
use crate::errors::{DevFlowError, ErrorModel};
use crate::jql::{
    and_also, assigned_query, list_clauses, list_query, mine_clause, project_clause,
    project_query,
};
use crate::models::ticket::{JiraTicket, JiraTicketModel};
use crate::text::{decimal, decimal_of, join};
use vstd::prelude::*;

verus! {

/// How a request to the tracker is signed.
#[derive(Debug, PartialEq, Eq)]
pub enum AuthConfig {
    /// With a bearer token.
    BearerToken { token: String },
    /// With the e-mail address and a token, as basic authentication.
    BasicAuth { email: String, api_token: String },
}

/// The tracker as the tool sees it: its address and how to sign in.
#[derive(Debug, PartialEq, Eq)]
pub struct JiraClient {
    pub base_url: String,
    pub auth: AuthConfig,
}

/// What a search asks the tracker for.
#[derive(Debug, PartialEq, Eq)]
pub struct SearchRequest {
    pub jql: String,
    pub fields: Vec<String>,
    pub max_results: u32,
}

/// One of the changes of status that a ticket offers, as far as the
/// tracker's answer names it.
#[derive(Debug, PartialEq, Eq)]
pub struct Transition {
    pub name: Option<String>,
    pub id: Option<String>,
}

/// The model of an [`AuthConfig`].
pub enum AuthConfigModel {
    BearerToken { token: Seq<char> },
    BasicAuth { email: Seq<char>, api_token: Seq<char> },
}

/// The model of a [`JiraClient`].
pub struct JiraClientModel {
    pub base_url: Seq<char>,
    pub auth: AuthConfigModel,
}

impl View for AuthConfig {
    type V = AuthConfigModel;

    open spec fn view(&self) -> AuthConfigModel {
        match self {
            AuthConfig::BearerToken { token } => AuthConfigModel::BearerToken { token: token@ },
            AuthConfig::BasicAuth { email, api_token } => AuthConfigModel::BasicAuth {
                email: email@,
                api_token: api_token@,
            },
        }
    }
}

impl View for JiraClient {
    type V = JiraClientModel;

    open spec fn view(&self) -> JiraClientModel {
        JiraClientModel { base_url: self.base_url@, auth: self.auth@ }
    }
}

/// How requests are signed under a way to sign in: a personal access token
/// goes as a bearer token, an API token goes with the e-mail address.
pub open spec fn signing(email: Seq<char>, method: AuthMethodModel) -> AuthConfigModel {
    match method {
        AuthMethodModel::PersonalAccessToken { token } => AuthConfigModel::BearerToken { token },
        AuthMethodModel::ApiToken { token } => AuthConfigModel::BasicAuth {
            email,
            api_token: token,
        },
    }
}

/// Where a ticket is.
pub open spec fn issue_link(base_url: Seq<char>, ticket_id: Seq<char>) -> Seq<char> {
    base_url + "/rest/api/3/issue/"@ + ticket_id
}

/// Where the transitions of a ticket are.
pub open spec fn transitions_link(base_url: Seq<char>, ticket_id: Seq<char>) -> Seq<char> {
    issue_link(base_url, ticket_id) + "/transitions"@
}

/// Where the search is.
pub open spec fn search_link(base_url: Seq<char>) -> Seq<char> {
    base_url + "/rest/api/3/search"@
}

/// Where the signed-in user is.
pub open spec fn myself_link(base_url: Seq<char>) -> Seq<char> {
    base_url + "/rest/api/3/myself"@
}

/// What the tracker's answer to a request for a ticket means: the ticket
/// can be read from it, or it is refused as unknown, as unauthorised, or
/// otherwise.
pub open spec fn ticket_answer(ticket_id: Seq<char>, status: u16, body: Seq<char>) -> Result<
    (),
    ErrorModel,
> {
    if is_success(status) {
        Ok(())
    } else if status == 401 || status == 403 {
        Err(ErrorModel::JiraAuthFailed(status))
    } else if status == 404 {
        Err(ErrorModel::JiraTicketNotFound(ticket_id))
    } else {
        Err(ErrorModel::JiraApiError(status, body))
    }
}

/// What the tracker's answer to a search or to a question about the user
/// means: it is usable, or the request failed with the given text.
pub open spec fn plain_answer(
    name: Seq<char>,
    status: u16,
    status_text: Seq<char>,
    body: Seq<char>,
) -> Result<(), ErrorModel> {
    if is_success(status) {
        Ok(())
    } else {
        Err(ErrorModel::JiraApiError(status, failure_text(name, status_text, body)))
    }
}

/// What the tracker's answer to a change of status means.
pub open spec fn transition_answer(status: u16, status_text: Seq<char>) -> Result<
    (),
    ErrorModel,
> {
    if is_success(status) {
        Ok(())
    } else {
        Err(ErrorModel::Other("Failed to update status: "@ + status_text))
    }
}

/// The model of a text that may be absent.
pub open spec fn maybe(text: Option<String>) -> Option<Seq<char>> {
    match text {
        Some(t) => Some(t@),
        None => None,
    }
}

/// The index of the first transition of the given name, or the number of
/// transitions when none has it.
pub open spec fn first_named(transitions: Seq<Transition>, name: Seq<char>) -> int
    decreases transitions.len(),
{
    if transitions.len() == 0 || maybe(transitions[0].name) == Some(name) {
        0
    } else {
        1 + first_named(transitions.drop_first(), name)
    }
}

/// The identifier of the transition of the given name: that of the first
/// transition so named, if it has one.
pub open spec fn transition_id(transitions: Seq<Transition>, name: Seq<char>) -> Result<
    Seq<char>,
    ErrorModel,
> {
    let at = first_named(transitions, name);
    if 0 <= at < transitions.len() && transitions[at].id is Some {
        Ok(transitions[at].id->Some_0@)
    } else {
        Err(ErrorModel::JiraTransitionNotFound(name))
    }
}

/// The tickets among the issues of an answer that could be read, in order.
pub open spec fn read_tickets(issues: Seq<Result<JiraTicket, String>>) -> Seq<JiraTicketModel>
    decreases issues.len(),
{
    if issues.len() == 0 {
        Seq::empty()
    } else {
        match issues.last() {
            Ok(ticket) => read_tickets(issues.drop_last()).push(ticket@),
            Err(_) => read_tickets(issues.drop_last()),
        }
    }
}

/// One line for each issue of an answer that could not be read, with its
/// place in the answer and the reason.
pub open spec fn unread_issues(issues: Seq<Result<JiraTicket, String>>) -> Seq<Seq<char>>
    decreases issues.len(),
{
    if issues.len() == 0 {
        Seq::empty()
    } else {
        match issues.last() {
            Ok(_) => unread_issues(issues.drop_last()),
            Err(why) => unread_issues(issues.drop_last()).push(
                "Issue "@ + decimal((issues.len() - 1) as nat) + ": "@ + why@,
            ),
        }
    }
}

/// The failure of a search none of whose issues could be read.
pub open spec fn nothing_read(lines: Seq<Seq<char>>) -> ErrorModel {
    ErrorModel::Other(
        "Failed to parse any tickets from response. Errors:\n"@ + join(lines, "\n"@)
            + "\n\nRun with DEVFLOW_DEBUG=1 to see raw response"@,
    )
}

/// The outcome of a search: the tickets that could be read, unless there
/// were issues and none of them could be.
pub open spec fn search_outcome(issues: Seq<Result<JiraTicket, String>>) -> Result<
    Seq<JiraTicketModel>,
    ErrorModel,
> {
    if unread_issues(issues).len() > 0 && read_tickets(issues).len() == 0 {
        Err(nothing_read(unread_issues(issues)))
    } else {
        Ok(read_tickets(issues))
    }
}

/// The models of some tickets, in order.
pub open spec fn ticket_models(tickets: Seq<JiraTicket>) -> Seq<JiraTicketModel> {
    tickets.map_values(|t: JiraTicket| t@)
}

impl JiraClient {
    /// The tracker at an address, signed in to in the given way.
    pub fn new(base_url: String, email: String, auth_method: AuthMethod) -> (client: Self)
        ensures
            client@ == (JiraClientModel {
                base_url: base_url@,
                auth: signing(email@, auth_method@),
            }),
    {
        let auth = match auth_method {
            AuthMethod::PersonalAccessToken { token } => AuthConfig::BearerToken { token },
            AuthMethod::ApiToken { token } => AuthConfig::BasicAuth { email, api_token: token },
        };
        JiraClient { base_url, auth }
    }

    /// Where a ticket is.
    pub fn issue_url(&self, ticket_id: &str) -> (url: String)
        ensures
            url@ == issue_link(self@.base_url, ticket_id@),
    {
        let mut url = self.base_url.clone();
        url.append("/rest/api/3/issue/");
        url.append(ticket_id);
        url
    }

    /// Where the transitions of a ticket are.
    pub fn transitions_url(&self, ticket_id: &str) -> (url: String)
        ensures
            url@ == transitions_link(self@.base_url, ticket_id@),
    {
        let mut url = self.issue_url(ticket_id);
        url.append("/transitions");
        url
    }

    /// Where the search is.
    pub fn search_url(&self) -> (url: String)
        ensures
            url@ == search_link(self@.base_url),
    {
        let mut url = self.base_url.clone();
        url.append("/rest/api/3/search");
        url
    }

    /// Where the signed-in user is.
    pub fn myself_url(&self) -> (url: String)
        ensures
            url@ == myself_link(self@.base_url),
    {
        let mut url = self.base_url.clone();
        url.append("/rest/api/3/myself");
        url
    }
}

/// A request asks, by the given query, for the summary, the status and
/// the assignee of at most `max_results` tickets.
pub open spec fn asks_for(request: SearchRequest, jql: Seq<char>, max_results: u32) -> bool {
    &&& request.jql@ == jql
    &&& request.max_results == max_results
    &&& request.fields@.len() == 3
    &&& request.fields@[0]@ == "summary"@
    &&& request.fields@[1]@ == "status"@
    &&& request.fields@[2]@ == "assignee"@
}

/// What a search with a query asks for: the summary, the status and the
/// assignee of at most `max_results` tickets.
pub fn search_request(jql: &str, max_results: u32) -> (request: SearchRequest)
    ensures
        asks_for(request, jql@, max_results),
{
    let mut fields: Vec<String> = Vec::new();
    fields.push(String::from_str("summary"));
    fields.push(String::from_str("status"));
    fields.push(String::from_str("assignee"));
    SearchRequest { jql: String::from_str(jql), fields, max_results }
}

/// A list never asks for more tickets than this.
pub const LIST_LIMIT: u32 = 50;

/// What a search for the tickets of a project that are assigned to whoever
/// asks, asks for: at most [`LIST_LIMIT`] of them.
pub fn assigned_request(project_key: &str) -> (request: SearchRequest)
    ensures
        asks_for(
            request,
            join(seq![mine_clause(), project_clause(project_key@)], and_also()),
            LIST_LIMIT,
        ),
{
    let jql = assigned_query(project_key);
    search_request(jql.as_str(), LIST_LIMIT)
}

/// What the list of the tickets assigned to whoever asks, asks for: at
/// most [`LIST_LIMIT`] tickets of the given project, or of the default
/// one, in the given status, if any.
pub fn list_request(default_project: &str, project: Option<&str>, status: Option<&str>) -> (request:
    SearchRequest)
    ensures
        asks_for(
            request,
            join(list_clauses(default_project@, project, status), and_also()),
            LIST_LIMIT,
        ),
{
    let jql = list_query(default_project, project, status);
    search_request(jql.as_str(), LIST_LIMIT)
}

/// A search that only tries the connection asks for this many tickets.
pub const PROBE_LIMIT: u32 = 1;

/// What the search that tries the connection asks for: at most
/// [`PROBE_LIMIT`] ticket of the project.
pub fn probe_request(project_key: &str) -> (request: SearchRequest)
    ensures
        asks_for(request, project_clause(project_key@), PROBE_LIMIT),
{
    let jql = project_query(project_key);
    search_request(jql.as_str(), PROBE_LIMIT)
}

/// Reads the status of the tracker's answer to a request for a ticket.
pub fn check_ticket_answer(ticket_id: &str, status: u16, body: &str) -> (res: Result<
    (),
    DevFlowError,
>)
    ensures
        match res {
            Ok(_) => ticket_answer(ticket_id@, status, body@) is Ok,
            Err(reason) => ticket_answer(ticket_id@, status, body@) == Err::<(), ErrorModel>(
                reason@,
            ),
        },
{
    if succeeded(status) {
        Ok(())
    } else if status == 401 || status == 403 {
        Err(DevFlowError::JiraAuthFailed(status))
    } else if status == 404 {
        Err(DevFlowError::JiraTicketNotFound(String::from_str(ticket_id)))
    } else {
        Err(DevFlowError::JiraApiError(status, String::from_str(body)))
    }
}

/// Reads the status of an answer whose failure is told under a name.
fn check_plain_answer(name: &str, status: u16, status_text: &str, body: &str) -> (res: Result<
    (),
    DevFlowError,
>)
    ensures
        match res {
            Ok(_) => plain_answer(name@, status, status_text@, body@) is Ok,
            Err(reason) => plain_answer(name@, status, status_text@, body@) == Err::<
                (),
                ErrorModel,
            >(reason@),
        },
{
    if succeeded(status) {
        Ok(())
    } else {
        Err(DevFlowError::JiraApiError(status, failure_message(name, status_text, body)))
    }
}

/// Reads the status of the tracker's answer to a search.
pub fn check_search_answer(status: u16, status_text: &str, body: &str) -> (res: Result<
    (),
    DevFlowError,
>)
    ensures
        match res {
            Ok(_) => plain_answer("Jira search API error"@, status, status_text@, body@) is Ok,
            Err(reason) => plain_answer("Jira search API error"@, status, status_text@, body@)
                == Err::<(), ErrorModel>(reason@),
        },
{
    check_plain_answer("Jira search API error", status, status_text, body)
}

/// Reads the status of the tracker's answer to a question about the user.
pub fn check_connection_answer(status: u16, status_text: &str, body: &str) -> (res: Result<
    (),
    DevFlowError,
>)
    ensures
        match res {
            Ok(_) => plain_answer("Jira API error"@, status, status_text@, body@) is Ok,
            Err(reason) => plain_answer("Jira API error"@, status, status_text@, body@) == Err::<
                (),
                ErrorModel,
            >(reason@),
        },
{
    check_plain_answer("Jira API error", status, status_text, body)
}

/// Reads the status of the tracker's answer to a change of status.
pub fn check_transition_answer(status: u16, status_text: &str) -> (res: Result<(), DevFlowError>)
    ensures
        match res {
            Ok(_) => transition_answer(status, status_text@) is Ok,
            Err(reason) => transition_answer(status, status_text@) == Err::<(), ErrorModel>(
                reason@,
            ),
        },
{
    if succeeded(status) {
        Ok(())
    } else {
        let mut text = String::from_str("Failed to update status: ");
        text.append(status_text);
        Err(DevFlowError::Other(text))
    }
}

/// The failure of an answer that lists no transitions.
pub fn no_transitions() -> (reason: DevFlowError)
    ensures
        reason@ == ErrorModel::Other("No transitions found"@),
{
    DevFlowError::Other(String::from_str("No transitions found"))
}

/// The failure of a search answer that lists no issues.
pub fn no_issues() -> (reason: DevFlowError)
    ensures
        reason@ == ErrorModel::Other("No 'issues' field in response"@),
{
    DevFlowError::Other(String::from_str("No 'issues' field in response"))
}

/// The identifier of the transition of the given name among those that a
/// ticket offers.
pub fn find_transition(transitions: &Vec<Transition>, name: &str) -> (res: Result<
    String,
    DevFlowError,
>)
    ensures
        match res {
            Ok(id) => transition_id(transitions@, name@) == Ok::<Seq<char>, ErrorModel>(id@),
            Err(reason) => transition_id(transitions@, name@) == Err::<Seq<char>, ErrorModel>(
                reason@,
            ),
        },
{
    let wanted = String::from_str(name);
    let mut i: usize = 0;
    proof {
        assert(transitions@.skip(0) =~= transitions@);
    }
    while i < transitions.len()
        invariant
            0 <= i <= transitions.len(),
            wanted@ == name@,
            first_named(transitions@, name@) == i + first_named(transitions@.skip(i as int), name@),
        decreases transitions.len() - i,
    {
        let named = match &transitions[i].name {
            Some(n) => *n == wanted,
            None => false,
        };
        proof {
            assert(transitions@.skip(i as int)[0] == transitions@[i as int]);
            assert(transitions@.skip(i as int).drop_first() =~= transitions@.skip(i + 1));
        }
        if named {
            return match &transitions[i].id {
                Some(id) => Ok(id.clone()),
                None => Err(DevFlowError::JiraTransitionNotFound(wanted)),
            };
        }
        i += 1;
    }
    Err(DevFlowError::JiraTransitionNotFound(wanted))
}

/// The outcome of a search, from its issues as far as they could be read.
pub fn collect_tickets(issues: &Vec<Result<JiraTicket, String>>) -> (res: Result<
    Vec<JiraTicket>,
    DevFlowError,
>)
    ensures
        match res {
            Ok(tickets) => search_outcome(issues@) == Ok::<Seq<JiraTicketModel>, ErrorModel>(
                ticket_models(tickets@),
            ),
            Err(reason) => search_outcome(issues@) == Err::<Seq<JiraTicketModel>, ErrorModel>(
                reason@,
            ),
        },
{
    let mut tickets: Vec<JiraTicket> = Vec::new();
    let mut lines: String = String::new();
    let mut unread: usize = 0;
    let mut i: usize = 0;
    proof {
        assert(issues@.take(0) =~= Seq::empty());
        assert(ticket_models(tickets@) =~= Seq::empty());
    }
    while i < issues.len()
        invariant
            0 <= i <= issues.len(),
            ticket_models(tickets@) == read_tickets(issues@.take(i as int)),
            unread == unread_issues(issues@.take(i as int)).len(),
            unread <= i,
            lines@ == join(unread_issues(issues@.take(i as int)), "\n"@),
        decreases issues.len() - i,
    {
        let ghost before = issues@.take(i as int);
        let ghost now = issues@.take(i + 1);
        proof {
            assert(now.drop_last() =~= before);
            assert(now.last() == issues@[i as int]);
        }
        match &issues[i] {
            Ok(ticket) => {
                let copy = ticket.clone();
                proof {
                    assert(ticket_models(tickets@.push(copy)) =~= ticket_models(tickets@).push(
                        copy@,
                    ));
                }
                tickets.push(copy);
            },
            Err(why) => {
                let number = decimal_of(i as u64);
                let ghost line = "Issue "@ + decimal(i as nat) + ": "@ + why@;
                proof {
                    assert(unread_issues(now) == unread_issues(before).push(line));
                    assert(unread_issues(now).drop_last() =~= unread_issues(before));
                }
                if unread > 0 {
                    lines.append("\n");
                }
                lines.append("Issue ");
                lines.append(number.as_str());
                lines.append(": ");
                lines.append(why.as_str());
                proof {
                    if unread > 0 {
                        assert(lines@ =~= join(unread_issues(before), "\n"@) + "\n"@ + line);
                    } else {
                        assert(lines@ =~= line);
                    }
                }
                unread = unread + 1;
            },
        }
        i += 1;
    }
    proof {
        assert(issues@.take(i as int) =~= issues@);
    }
    if unread > 0 && tickets.len() == 0 {
        let mut text = String::from_str("Failed to parse any tickets from response. Errors:\n");
        text.append(lines.as_str());
        text.append("\n\nRun with DEVFLOW_DEBUG=1 to see raw response");
        Err(DevFlowError::Other(text))
    } else {
        Ok(tickets)
    }
}

} // verus!
