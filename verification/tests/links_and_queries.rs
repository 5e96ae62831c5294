use devflow::commit::{commit_message, commit_message_on};
use devflow::config::settings::GitConfig;
use devflow::errors::DevFlowError;
use devflow::jql::{assigned_query, list_query, project_query, search_query};
use devflow::links::{
    board_url, merge_requests_url, pull_requests_url, remove_all, review_url, ticket_url,
};

fn git_config(provider: &str, base_url: &str, owner: Option<&str>, repo: Option<&str>) -> GitConfig {
    GitConfig {
        provider: provider.to_string(),
        base_url: base_url.to_string(),
        token: "git-token".to_string(),
        owner: owner.map(|o| o.to_string()),
        repo: repo.map(|r| r.to_string()),
    }
}

#[test]
fn test_open_jira_url_generation() {
    let jira_url = "https://jira.example.com";
    let ticket_id = "WAB-1234";
    let expected = ticket_url(jira_url, ticket_id);
    assert_eq!(expected, "https://jira.example.com/browse/WAB-1234");
}

#[test]
fn test_open_board_url_generation() {
    let jira_url = "https://jira.example.com";
    let project_key = "WAB";
    let expected = board_url(jira_url, project_key);
    assert_eq!(expected, "https://jira.example.com/jira/software/projects/WAB/boards");
}

#[test]
fn test_open_github_pr_url_generation() {
    let base_url = "https://api.github.com";
    let owner = "testuser";
    let repo = "testrepo";
    let branch = "feat/WAB-1234/test";
    let expected = pull_requests_url(base_url, owner, repo, branch);
    assert_eq!(
        expected,
        "https://github.com/testuser/testrepo/pulls?q=is%3Apr+head%3Afeat%2FWAB-1234%2Ftest"
    );
}

#[test]
fn test_open_gitlab_mr_url_generation() {
    let base_url = "https://git.example.com";
    let branch = "feat/WAB-1234/test";
    let expected = merge_requests_url(base_url, branch);
    assert_eq!(
        expected,
        "https://git.example.com/merge_requests?scope=all&state=opened&source_branch=feat%2FWAB-1234%2Ftest"
    );
}

#[test]
fn branch_names_are_percent_encoded() {
    assert_eq!(
        merge_requests_url("h", "a b/ü~_.-Z9"),
        "h/merge_requests?scope=all&state=opened&source_branch=a%20b%2F%C3%BC~_.-Z9"
    );
    assert_eq!(
        merge_requests_url("h", ""),
        "h/merge_requests?scope=all&state=opened&source_branch="
    );
}

#[test]
fn remove_all_takes_out_every_occurrence() {
    assert_eq!(remove_all("https://api.github.com", "api."), "https://github.com");
    assert_eq!(remove_all("api.api.x.api.", "api."), "x.");
    assert_eq!(remove_all("aapi.pi.", "api."), "api.");
    assert_eq!(remove_all("aaa", "aa"), "a");
    assert_eq!(remove_all("abc", ""), "abc");
    assert_eq!(remove_all("ab", "abc"), "ab");
    assert_eq!(remove_all("", "x"), "");
    assert_eq!(remove_all("xxx", "x"), "");
    for (text, pattern) in [("banana", "an"), ("aXbXc", "X"), ("ééé", "é"), ("abcabc", "bc")] {
        assert_eq!(remove_all(text, pattern), text.replace(pattern, ""));
    }
}

#[test]
fn review_url_goes_by_the_provider() {
    let github = git_config("github", "https://api.github.com", Some("octo"), Some("tool"));
    assert_eq!(
        review_url(&github, "feat/WAB-1").unwrap(),
        "https://github.com/octo/tool/pulls?q=is%3Apr+head%3Afeat%2FWAB-1"
    );
    let gitlab = git_config("gitlab", "https://git.example.com", None, None);
    assert_eq!(
        review_url(&gitlab, "feat/WAB-1").unwrap(),
        "https://git.example.com/merge_requests?scope=all&state=opened&source_branch=feat%2FWAB-1"
    );
}

#[test]
fn review_url_fails_on_what_is_missing() {
    let no_owner = git_config("github", "https://api.github.com", None, Some("tool"));
    assert_eq!(
        review_url(&no_owner, "b"),
        Err(DevFlowError::Other("GitHub owner not configured".to_string()))
    );
    let no_repo = git_config("github", "https://api.github.com", Some("octo"), None);
    assert_eq!(
        review_url(&no_repo, "b"),
        Err(DevFlowError::Other("GitHub repo not configured".to_string()))
    );
    let unknown = git_config("GitHub", "https://api.github.com", Some("octo"), Some("tool"));
    assert_eq!(
        review_url(&unknown, "b"),
        Err(DevFlowError::Other("Unsupported provider: GitHub".to_string()))
    );
    let empty = git_config("", "x", None, None);
    assert_eq!(
        review_url(&empty, "b"),
        Err(DevFlowError::Other("Unsupported provider: ".to_string()))
    );
}

#[test]
fn commit_message_links_the_ticket() {
    assert_eq!(
        commit_message("Add login form", "WAB-12", "https://jira.example.com"),
        "Add login form\n\nWAB-12: https://jira.example.com/browse/WAB-12"
    );
    assert_eq!(commit_message("", "", ""), "\n\n: /browse/");
}

#[test]
fn commit_message_needs_a_ticket_branch() {
    assert_eq!(
        commit_message_on("feat/WAB-12/add_login", "Add login form", "https://j.example.com")
            .unwrap(),
        "Add login form\n\nWAB-12: https://j.example.com/browse/WAB-12"
    );
    assert_eq!(
        commit_message_on("main", "Add login form", "https://j.example.com"),
        Err(DevFlowError::BranchHasNoTicketId("main".to_string()))
    );
}

#[test]
fn queries_have_their_exact_form() {
    assert_eq!(project_query("WAB"), "project = WAB");
    assert_eq!(assigned_query("WAB"), "assignee = currentUser() AND project = WAB");
    assert_eq!(list_query("WAB", None, None), "assignee = currentUser() AND project = WAB");
    assert_eq!(
        list_query("WAB", Some("OPS"), None),
        "assignee = currentUser() AND project = OPS"
    );
    assert_eq!(
        list_query("WAB", None, Some("In Progress")),
        "assignee = currentUser() AND project = WAB AND status = \"In Progress\""
    );
    assert_eq!(
        list_query("WAB", Some("OPS"), Some("To Do")),
        "assignee = currentUser() AND project = OPS AND status = \"To Do\""
    );
}

#[test]
fn search_queries_have_their_exact_form() {
    assert_eq!(
        search_query("login", "WAB", None, None, None),
        "(summary ~ \"login\" OR description ~ \"login\") AND project = WAB"
    );
    assert_eq!(
        search_query("login", "WAB", Some("OPS"), Some("me"), Some("Done")),
        "(summary ~ \"login\" OR description ~ \"login\") AND project = OPS AND assignee = currentUser() AND status = \"Done\""
    );
    assert_eq!(
        search_query("x", "WAB", None, Some("ann"), None),
        "(summary ~ \"x\" OR description ~ \"x\") AND project = WAB AND assignee = \"ann\""
    );
    assert_eq!(
        search_query("x", "WAB", None, Some("Me"), None),
        "(summary ~ \"x\" OR description ~ \"x\") AND project = WAB AND assignee = \"Me\""
    );
    assert_eq!(
        search_query("", "", None, None, Some("")),
        "(summary ~ \"\" OR description ~ \"\") AND project =  AND status = \"\""
    );
}
