use devflow::api::git::{
    branch_ref_name, current_branch_name, git_failure, letter, refspec, summary_lines, Change,
    ChangedPath, StatusEntry, CLEAN, REMOTE,
};
use devflow::api::github::{
    check_pull_request_answer, check_repo_answer, pull_request_payload, GitHubClient,
};
use devflow::api::gitlab::{check_merge_request_answer, merge_request_payload, GitLabClient};
use devflow::api::http::{bearer, failure_message, header, succeeded, Header};
use devflow::api::jira::{
    assigned_request, list_request, check_connection_answer, check_search_answer, check_ticket_answer,
    check_transition_answer, collect_tickets, find_transition, no_issues, no_transitions,
    probe_request, search_request, AuthConfig, JiraClient, Transition, LIST_LIMIT, PROBE_LIMIT,
};
use devflow::config::settings::AuthMethod;
use devflow::errors::DevFlowError;
use devflow::models::ticket::{JiraTicket, Status, TicketFields};

fn ticket(key: &str, summary: &str, status: &str) -> JiraTicket {
    JiraTicket {
        key: key.to_string(),
        fields: TicketFields {
            summary: summary.to_string(),
            description: None,
            status: Status { name: status.to_string() },
            assignee: None,
        },
    }
}

fn transition(name: Option<&str>, id: Option<&str>) -> Transition {
    Transition { name: name.map(|n| n.to_string()), id: id.map(|i| i.to_string()) }
}

#[test]
fn test_github_client_creation() {
    let client = GitHubClient::new(
        "owner".to_string(),
        "repo".to_string(),
        "test-token".to_string(),
    );
    assert_eq!(client.owner, "owner");
    assert_eq!(client.repo, "repo");
    assert_eq!(client.token, "test-token");
}

#[test]
fn test_gitlab_client_creation() {
    let client = GitLabClient::new(
        "https://git.example.com".to_string(),
        "test-token".to_string(),
    );
    assert_eq!(client.base_url, "https://git.example.com");
    assert_eq!(client.token, "test-token");
}

#[test]
fn test_jira_client_creation_with_api_token() {
    let client = JiraClient::new(
        "https://jira.example.com".to_string(),
        "test@example.com".to_string(),
        AuthMethod::ApiToken {
            token: "test-token".to_string(),
        },
    );
    assert_eq!(client.base_url, "https://jira.example.com");
    assert!(matches!(client.auth, AuthConfig::BasicAuth { .. }));
}

#[test]
fn test_jira_client_creation_with_pat() {
    let client = JiraClient::new(
        "https://jira.example.com".to_string(),
        "test@example.com".to_string(),
        AuthMethod::PersonalAccessToken {
            token: "pat-token".to_string(),
        },
    );
    assert_eq!(client.base_url, "https://jira.example.com");
    assert!(matches!(client.auth, AuthConfig::BearerToken { .. }));
}

#[test]
fn jira_client_keeps_the_credentials() {
    let client = JiraClient::new(
        "u".to_string(),
        "me@example.com".to_string(),
        AuthMethod::ApiToken { token: "t".to_string() },
    );
    assert_eq!(
        client.auth,
        AuthConfig::BasicAuth { email: "me@example.com".to_string(), api_token: "t".to_string() }
    );
    let client = JiraClient::new(
        "u".to_string(),
        "me@example.com".to_string(),
        AuthMethod::PersonalAccessToken { token: "p".to_string() },
    );
    assert_eq!(client.auth, AuthConfig::BearerToken { token: "p".to_string() });
}

#[test]
fn jira_addresses_have_their_exact_form() {
    let client = JiraClient::new(
        "https://jira.example.com".to_string(),
        "e".to_string(),
        AuthMethod::ApiToken { token: "t".to_string() },
    );
    assert_eq!(client.issue_url("WAB-1"), "https://jira.example.com/rest/api/3/issue/WAB-1");
    assert_eq!(
        client.transitions_url("WAB-1"),
        "https://jira.example.com/rest/api/3/issue/WAB-1/transitions"
    );
    assert_eq!(client.search_url(), "https://jira.example.com/rest/api/3/search");
    assert_eq!(client.myself_url(), "https://jira.example.com/rest/api/3/myself");
}

#[test]
fn search_requests_ask_for_three_fields() {
    let request = search_request("project = WAB", 10);
    assert_eq!(request.jql, "project = WAB");
    assert_eq!(request.max_results, 10);
    assert_eq!(request.fields, vec!["summary", "status", "assignee"]);
    let request = assigned_request("WAB");
    assert_eq!(request.jql, "assignee = currentUser() AND project = WAB");
    assert_eq!(request.max_results, 50);
    assert_eq!(request.fields, vec!["summary", "status", "assignee"]);
}

#[test]
fn the_list_asks_for_at_most_fifty_tickets() {
    assert_eq!(LIST_LIMIT, 50);
    let request = list_request("WAB", None, None);
    assert_eq!(request.jql, "assignee = currentUser() AND project = WAB");
    assert_eq!(request.max_results, 50);
    assert_eq!(request.fields, vec!["summary", "status", "assignee"]);
    let request = list_request("WAB", Some("OPS"), Some("To Do"));
    assert_eq!(
        request.jql,
        "assignee = currentUser() AND project = OPS AND status = \"To Do\""
    );
    assert_eq!(request.max_results, 50);
    let request = list_request("WAB", None, Some("Done"));
    assert_eq!(request.jql, "assignee = currentUser() AND project = WAB AND status = \"Done\"");
    assert_eq!(request.max_results, 50);
}

#[test]
fn the_probe_asks_for_one_ticket() {
    assert_eq!(PROBE_LIMIT, 1);
    let request = probe_request("WAB");
    assert_eq!(request.jql, "project = WAB");
    assert_eq!(request.max_results, 1);
    assert_eq!(request.fields, vec!["summary", "status", "assignee"]);
}

#[test]
fn ticket_answers_are_told_apart() {
    assert_eq!(check_ticket_answer("WAB-1", 200, "{}"), Ok(()));
    assert_eq!(check_ticket_answer("WAB-1", 299, ""), Ok(()));
    assert_eq!(check_ticket_answer("WAB-1", 401, "no"), Err(DevFlowError::JiraAuthFailed(401)));
    assert_eq!(check_ticket_answer("WAB-1", 403, "no"), Err(DevFlowError::JiraAuthFailed(403)));
    assert_eq!(
        check_ticket_answer("WAB-1", 404, "no"),
        Err(DevFlowError::JiraTicketNotFound("WAB-1".to_string()))
    );
    assert_eq!(
        check_ticket_answer("WAB-1", 500, "boom"),
        Err(DevFlowError::JiraApiError(500, "boom".to_string()))
    );
    assert_eq!(
        check_ticket_answer("WAB-1", 199, "early"),
        Err(DevFlowError::JiraApiError(199, "early".to_string()))
    );
    assert_eq!(
        check_ticket_answer("WAB-1", 300, "moved"),
        Err(DevFlowError::JiraApiError(300, "moved".to_string()))
    );
}

#[test]
fn search_and_connection_answers_carry_their_text() {
    assert_eq!(check_search_answer(200, "200 OK", ""), Ok(()));
    assert_eq!(
        check_search_answer(401, "401 Unauthorized", "Unauthorized"),
        Err(DevFlowError::JiraApiError(
            401,
            "Jira search API error (401 Unauthorized): Unauthorized".to_string()
        ))
    );
    assert_eq!(check_connection_answer(204, "204 No Content", ""), Ok(()));
    assert_eq!(
        check_connection_answer(500, "500 Internal Server Error", "x"),
        Err(DevFlowError::JiraApiError(
            500,
            "Jira API error (500 Internal Server Error): x".to_string()
        ))
    );
    assert_eq!(check_transition_answer(204, "204 No Content"), Ok(()));
    assert_eq!(
        check_transition_answer(400, "400 Bad Request"),
        Err(DevFlowError::Other("Failed to update status: 400 Bad Request".to_string()))
    );
    assert_eq!(no_transitions(), DevFlowError::Other("No transitions found".to_string()));
    assert_eq!(no_issues(), DevFlowError::Other("No 'issues' field in response".to_string()));
}

#[test]
fn transitions_are_found_by_name() {
    let offered = vec![
        transition(Some("To Do"), Some("11")),
        transition(None, Some("12")),
        transition(Some("In Progress"), Some("21")),
        transition(Some("In Progress"), Some("22")),
        transition(Some("Done"), None),
        transition(Some("Done"), Some("31")),
    ];
    assert_eq!(find_transition(&offered, "To Do"), Ok("11".to_string()));
    assert_eq!(find_transition(&offered, "In Progress"), Ok("21".to_string()));
    assert_eq!(
        find_transition(&offered, "Done"),
        Err(DevFlowError::JiraTransitionNotFound("Done".to_string()))
    );
    assert_eq!(
        find_transition(&offered, "in progress"),
        Err(DevFlowError::JiraTransitionNotFound("in progress".to_string()))
    );
    assert_eq!(
        find_transition(&Vec::new(), "To Do"),
        Err(DevFlowError::JiraTransitionNotFound("To Do".to_string()))
    );
}

#[test]
fn tickets_are_collected_in_order() {
    let issues = vec![
        Ok(ticket("WAB-123", "Test ticket 1", "In Progress")),
        Err("missing field `summary`".to_string()),
        Ok(ticket("WAB-124", "Test ticket 2", "To Do")),
    ];
    let tickets = collect_tickets(&issues).unwrap();
    assert_eq!(tickets.len(), 2);
    assert_eq!(tickets[0].key, "WAB-123");
    assert_eq!(tickets[0].fields.summary, "Test ticket 1");
    assert_eq!(tickets[0].fields.status.name, "In Progress");
    assert_eq!(tickets[1].key, "WAB-124");
    assert_eq!(collect_tickets(&Vec::new()), Ok(Vec::new()));
}

#[test]
fn a_search_fails_when_nothing_could_be_read() {
    let issues: Vec<Result<JiraTicket, String>> =
        vec![Err("bad".to_string()), Err("worse".to_string())];
    assert_eq!(
        collect_tickets(&issues),
        Err(DevFlowError::Other(
            "Failed to parse any tickets from response. Errors:\nIssue 0: bad\nIssue 1: worse\n\nRun with DEVFLOW_DEBUG=1 to see raw response"
                .to_string()
        ))
    );
    let mut many: Vec<Result<JiraTicket, String>> = Vec::new();
    for _ in 0..11 {
        many.push(Err("e".to_string()));
    }
    match collect_tickets(&many) {
        Err(DevFlowError::Other(text)) => assert!(text.contains("\nIssue 10: e\n\n")),
        other => panic!("unexpected {:?}", other),
    }
}

#[test]
fn github_requests_have_their_exact_form() {
    let client = GitHubClient::new("octo".to_string(), "tool".to_string(), "tok".to_string());
    assert_eq!(client.repo_url(), "https://api.github.com/repos/octo/tool");
    assert_eq!(client.pulls_url(), "https://api.github.com/repos/octo/tool/pulls");
    assert_eq!(
        client.headers(),
        vec![
            Header { name: "Authorization".to_string(), value: "Bearer tok".to_string() },
            Header { name: "Accept".to_string(), value: "application/vnd.github+json".to_string() },
            Header { name: "User-Agent".to_string(), value: "devflow-cli".to_string() },
        ]
    );
    let payload = pull_request_payload("feat/WAB-1", "main", "WAB-1: T", "Resolves WAB-1");
    assert_eq!(payload.head, "feat/WAB-1");
    assert_eq!(payload.base, "main");
    assert_eq!(payload.title, "WAB-1: T");
    assert_eq!(payload.body, "Resolves WAB-1");
}

#[test]
fn github_answers_are_read() {
    assert_eq!(check_pull_request_answer(201, "201 Created", "{}"), Ok(()));
    assert_eq!(
        check_pull_request_answer(422, "422 Unprocessable Entity", "exists"),
        Err(DevFlowError::PrCreationFailed(
            "GitHub API error (422 Unprocessable Entity): exists".to_string()
        ))
    );
    assert_eq!(check_repo_answer(200, "200 OK", ""), Ok(()));
    assert_eq!(
        check_repo_answer(404, "404 Not Found", "gone"),
        Err(DevFlowError::Other("GitHub API error (404 Not Found): gone".to_string()))
    );
}

#[test]
fn gitlab_requests_have_their_exact_form() {
    let client = GitLabClient::new("https://git.example.com".to_string(), "tok".to_string());
    assert_eq!(
        client.project_url("group/my tool"),
        "https://git.example.com/api/v4/projects/group%2Fmy%20tool"
    );
    assert_eq!(
        client.merge_requests_url(4711),
        "https://git.example.com/api/v4/projects/4711/merge_requests"
    );
    assert_eq!(client.merge_requests_url(0), "https://git.example.com/api/v4/projects/0/merge_requests");
    assert_eq!(
        client.merge_requests_url(u64::MAX),
        "https://git.example.com/api/v4/projects/18446744073709551615/merge_requests"
    );
    assert_eq!(
        client.headers(),
        vec![Header { name: "PRIVATE-TOKEN".to_string(), value: "tok".to_string() }]
    );
    let payload = merge_request_payload("feat/WAB-1", "main", "WAB-1: T", "Resolves WAB-1");
    assert_eq!(payload.source_branch, "feat/WAB-1");
    assert_eq!(payload.target_branch, "main");
    assert_eq!(payload.title, "WAB-1: T");
    assert_eq!(payload.description, "Resolves WAB-1");
    assert!(payload.remove_source_branch);
}

#[test]
fn gitlab_answers_are_read() {
    assert_eq!(check_merge_request_answer(201, "201 Created", "{}"), Ok(()));
    assert_eq!(
        check_merge_request_answer(409, "409 Conflict", "open already"),
        Err(DevFlowError::PrCreationFailed(
            "GitLab API error (409 Conflict): open already".to_string()
        ))
    );
}

#[test]
fn http_helpers_have_their_exact_form() {
    assert!(succeeded(200));
    assert!(succeeded(299));
    assert!(!succeeded(199));
    assert!(!succeeded(300));
    assert!(!succeeded(0));
    assert!(!succeeded(u16::MAX));
    assert_eq!(bearer("abc"), "Bearer abc");
    assert_eq!(failure_message("X API error", "500 Oops", "body"), "X API error (500 Oops): body");
    assert_eq!(header("A", "b"), Header { name: "A".to_string(), value: "b".to_string() });
}

#[test]
fn references_have_their_exact_form() {
    assert_eq!(branch_ref_name("feat/WAB-1/x"), "refs/heads/feat/WAB-1/x");
    assert_eq!(refspec("feat/WAB-1/x"), "refs/heads/feat/WAB-1/x:refs/heads/feat/WAB-1/x");
    assert_eq!(REMOTE, "origin");
    assert_eq!(CLEAN, "  Working directory clean");
    assert_eq!(letter(Change::Modified), "M");
    assert_eq!(letter(Change::Added), "A");
    assert_eq!(letter(Change::Deleted), "D");
}

#[test]
fn status_summary_shows_one_change_for_each_entry() {
    let entries = vec![
        StatusEntry { modified: true, added: true, deleted: true, path: Some("a.rs".to_string()) },
        StatusEntry { modified: false, added: false, deleted: false, path: Some("b".to_string()) },
        StatusEntry { modified: false, added: true, deleted: true, path: None },
        StatusEntry { modified: false, added: false, deleted: true, path: Some("c".to_string()) },
    ];
    assert_eq!(
        summary_lines(&entries),
        vec![
            ChangedPath { change: Change::Modified, path: "a.rs".to_string() },
            ChangedPath { change: Change::Added, path: "unknown".to_string() },
            ChangedPath { change: Change::Deleted, path: "c".to_string() },
        ]
    );
    assert_eq!(summary_lines(&Vec::new()), Vec::new());
}

#[test]
fn the_current_branch_needs_a_branch_with_a_name() {
    assert_eq!(current_branch_name(true, Some("main".to_string())), Ok("main".to_string()));
    assert_eq!(
        current_branch_name(false, Some("main".to_string())),
        Err(DevFlowError::Other("Not currently on a branch (detached HEAD state)".to_string()))
    );
    assert_eq!(
        current_branch_name(false, None),
        Err(DevFlowError::Other("Not currently on a branch (detached HEAD state)".to_string()))
    );
    assert_eq!(
        current_branch_name(true, None),
        Err(DevFlowError::Other("Branch name contains invalid UTF-8".to_string()))
    );
    assert_eq!(
        git_failure("Failed to get HEAD reference", "no commits"),
        DevFlowError::Other("Failed to get HEAD reference: no commits".to_string())
    );
}
