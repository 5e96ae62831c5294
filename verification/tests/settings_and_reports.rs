use devflow::config::settings::{
    field_for_key, is_maskable, mask_secret, AuthMethod, GitConfig, JiraConfig, Preferences, Settings,
    SettingsField,
};
use devflow::config::setup::{
    answer_or, auth_method_for, check_git_token, github_config, gitlab_config, is_github,
    is_github_provider,
    jira_check_failed, DEFAULT_AUTH_CHOICE, DEFAULT_BRANCH_PREFIX, DEFAULT_PROVIDER,
    DEFAULT_TRANSITION, GITHUB_API,
};
use devflow::errors::DevFlowError;
use devflow::links::{needs_branch, open_url};
use devflow::models::ticket::{reached_limit, JiraTicket, Stage, Status, TicketFields, User};
use devflow::report::{render_plain, Span, Style};
use devflow::text::{decimal_of, has_substring};

fn sample_settings() -> Settings {
    Settings {
        jira: JiraConfig {
            url: "https://jira.example.com".to_string(),
            email: "test@example.com".to_string(),
            auth_method: AuthMethod::ApiToken { token: "test-token".to_string() },
            project_key: "TEST".to_string(),
        },
        git: GitConfig {
            provider: "gitlab".to_string(),
            base_url: "https://git.example.com".to_string(),
            token: "git-token".to_string(),
            owner: None,
            repo: None,
        },
        preferences: Preferences {
            branch_prefix: "feat".to_string(),
            default_transition: "In Progress".to_string(),
        },
    }
}

fn invalid_key() -> DevFlowError {
    DevFlowError::Other(
        "Invalid key format. Use format: section.field (e.g., jira.email)".to_string(),
    )
}

#[test]
fn keys_name_their_values() {
    for (key, field) in [
        ("jira.url", SettingsField::JiraUrl),
        ("jira.email", SettingsField::JiraEmail),
        ("jira.token", SettingsField::JiraToken),
        ("jira.project_key", SettingsField::JiraProjectKey),
        ("git.provider", SettingsField::GitProvider),
        ("git.base_url", SettingsField::GitBaseUrl),
        ("git.token", SettingsField::GitToken),
        ("git.owner", SettingsField::GitOwner),
        ("git.repo", SettingsField::GitRepo),
        ("preferences.branch_prefix", SettingsField::BranchPrefix),
        ("preferences.default_transition", SettingsField::DefaultTransition),
    ] {
        assert_eq!(field_for_key(key), Ok(field));
    }
}

#[test]
fn keys_need_exactly_one_dot() {
    for key in ["", "jira", "jira.url.x", "a.b.c.d", "..", "jira..url"] {
        assert_eq!(field_for_key(key), Err(invalid_key()));
    }
}

#[test]
fn unknown_keys_are_named() {
    for key in ["jira.owner", "git.email", "x.y", ".", "jira.", ".url", "Jira.url", "git.url"] {
        assert_eq!(
            field_for_key(key),
            Err(DevFlowError::Other(format!("Unknown configuration key: {}", key)))
        );
    }
}

#[test]
fn set_replaces_one_value() {
    let mut settings = sample_settings();
    settings.set("jira.email", "new@example.com").unwrap();
    let mut expected = sample_settings();
    expected.jira.email = "new@example.com".to_string();
    assert_eq!(settings, expected);

    settings.set("git.owner", "octo").unwrap();
    expected.git.owner = Some("octo".to_string());
    assert_eq!(settings, expected);

    settings.set("preferences.default_transition", "Doing").unwrap();
    expected.preferences.default_transition = "Doing".to_string();
    assert_eq!(settings, expected);
}

#[test]
fn set_keeps_the_way_to_sign_in() {
    let mut settings = sample_settings();
    settings.set("jira.token", "fresh").unwrap();
    assert_eq!(settings.jira.auth_method, AuthMethod::ApiToken { token: "fresh".to_string() });
    settings.jira.auth_method = AuthMethod::PersonalAccessToken { token: "old".to_string() };
    settings.set("jira.token", "fresh").unwrap();
    assert_eq!(
        settings.jira.auth_method,
        AuthMethod::PersonalAccessToken { token: "fresh".to_string() }
    );
    assert_eq!(settings.jira.auth_method.token(), "fresh");
    assert_eq!(settings.jira.auth_method.label(), "Personal Access Token");
    assert_eq!(AuthMethod::ApiToken { token: "t".to_string() }.label(), "API Token");
}

#[test]
fn set_changes_nothing_on_a_bad_key() {
    let mut settings = sample_settings();
    assert_eq!(settings.set("jira", "x"), Err(invalid_key()));
    assert_eq!(
        settings.set("jira.nothing", "x"),
        Err(DevFlowError::Other("Unknown configuration key: jira.nothing".to_string()))
    );
    assert_eq!(settings, sample_settings());
}

#[test]
fn secrets_show_four_bytes_on_each_side() {
    for secret in ["abcdefghijkl", "abcdefgh", "abcdef", "abcd", "abc", "", "ééé", "éé", "é"] {
        assert!(is_maskable(secret));
    }
    for secret in ["abcé", "éabc", "aéé", "日本語", "ab日cdef"] {
        assert!(!is_maskable(secret));
    }
    assert_eq!(mask_secret("ééé"), "éé***éé");
    assert_eq!(mask_secret("é"), "é***é");
    assert!(is_maskable("éabcd"));
    assert_eq!(mask_secret("éabcd"), "éab***abcd");
    assert!(is_maskable("abcdé"));
    assert_eq!(mask_secret("abcdé"), "abcd***cdé");
    assert_eq!(mask_secret("abcdefghijkl"), "abcd***ijkl");
    assert_eq!(mask_secret("abcdefgh"), "abcd***efgh");
    assert_eq!(mask_secret("abcdef"), "abcd***cdef");
    assert_eq!(mask_secret("abcd"), "abcd***abcd");
    assert_eq!(mask_secret("abc"), "abc***abc");
    assert_eq!(mask_secret(""), "***");
}

#[test]
fn set_up_answers_mean_what_they_say() {
    assert_eq!(answer_or("", "feat"), "feat");
    assert_eq!(answer_or("fix", "feat"), "fix");
    assert_eq!(
        auth_method_for("1", "t".to_string()),
        AuthMethod::PersonalAccessToken { token: "t".to_string() }
    );
    for choice in ["2", "", "11", "one", " 1"] {
        assert_eq!(
            auth_method_for(choice, "t".to_string()),
            AuthMethod::ApiToken { token: "t".to_string() }
        );
    }
    assert!(is_github_provider("github"));
    assert!(is_github_provider("GitHub"));
    assert!(is_github_provider("GITHUB"));
    assert!(!is_github_provider("gitlab"));
    assert!(!is_github_provider("git hub"));
    assert!(!is_github_provider(""));
    assert!(is_github("github"));
    assert!(!is_github("GitHub"));
    assert!(!is_github("gitlab"));
    assert!(!is_github(""));
    assert_eq!(DEFAULT_BRANCH_PREFIX, "feat");
    assert_eq!(DEFAULT_TRANSITION, "In Progress");
    assert_eq!(DEFAULT_PROVIDER, "gitlab");
    assert_eq!(DEFAULT_AUTH_CHOICE, "2");
}

#[test]
fn code_host_settings_follow_the_provider() {
    assert_eq!(
        github_config("GitHub".to_string(), "octo".to_string(), "tool".to_string(), "t".to_string()),
        GitConfig {
            provider: "GitHub".to_string(),
            base_url: GITHUB_API.to_string(),
            token: "t".to_string(),
            owner: Some("octo".to_string()),
            repo: Some("tool".to_string()),
        }
    );
    assert_eq!(GITHUB_API, "https://api.github.com");
    assert_eq!(
        gitlab_config("gitlab".to_string(), "https://git.example.com".to_string(), "t".to_string()),
        GitConfig {
            provider: "gitlab".to_string(),
            base_url: "https://git.example.com".to_string(),
            token: "t".to_string(),
            owner: None,
            repo: None,
        }
    );
}

#[test]
fn set_up_refuses_an_empty_token() {
    assert_eq!(check_git_token("t"), Ok(()));
    assert_eq!(
        check_git_token(""),
        Err(DevFlowError::ConfigValidationFailed("Git token cannot be empty".to_string()))
    );
    assert_eq!(
        jira_check_failed("timeout"),
        DevFlowError::ConfigValidationFailed("Jira connection failed: timeout".to_string())
    );
}

#[test]
fn transport_failures_are_classified() {
    let m = || "msg".to_string();
    assert_eq!(
        DevFlowError::from_transport(true, false, None, m()),
        DevFlowError::NetworkError(m())
    );
    assert_eq!(
        DevFlowError::from_transport(false, true, Some(401), m()),
        DevFlowError::NetworkError(m())
    );
    assert_eq!(
        DevFlowError::from_transport(false, false, Some(401), m()),
        DevFlowError::JiraAuthFailed(401)
    );
    assert_eq!(
        DevFlowError::from_transport(false, false, Some(403), m()),
        DevFlowError::JiraAuthFailed(403)
    );
    assert_eq!(
        DevFlowError::from_transport(false, false, Some(404), m()),
        DevFlowError::Other(m())
    );
    assert_eq!(DevFlowError::from_transport(false, false, None, m()), DevFlowError::Other(m()));
}

#[test]
fn every_failure_has_its_message() {
    let s = |t: &str| t.to_string();
    let cases: Vec<(DevFlowError, &str)> = vec![
        (
            DevFlowError::ConfigNotFound,
            "Configuration not found\n   Run 'devflow init' to set up your configuration\n\n   devflow init",
        ),
        (
            DevFlowError::ConfigInvalid(s("bad")),
            "Invalid configuration\n   bad\n\n   To fix:\n   1. Check your config file: ~/.devflow/config.toml\n   2. Or reinitialize: devflow init",
        ),
        (
            DevFlowError::ConfigValidationFailed(s("bad")),
            "Configuration validation failed\n   bad\n\n   To fix:\n   1. Check your API tokens are valid\n   2. Verify network connectivity\n   3. Reinitialize if needed: devflow init",
        ),
        (
            DevFlowError::JiraAuthFailed(401),
            "Jira authentication failed (401)\n   Your API token may have expired or is invalid\n\n   To fix:\n   1. Generate new token: https://id.atlassian.com/manage-profile/security/api-tokens\n   2. Update config: devflow init\n   3. Or edit manually: ~/.devflow/config.toml",
        ),
        (
            DevFlowError::JiraTicketNotFound(s("WAB-1")),
            "Ticket 'WAB-1' not found\n   The ticket doesn't exist or you don't have access to it\n\n   To fix:\n   1. Check the ticket ID is correct\n   2. Verify you have access to this project\n   3. Search for tickets: devflow search \"WAB-1\"",
        ),
        (
            DevFlowError::JiraApiError(500, s("down")),
            "Jira API error (500)\n   down\n\n   Try again or check your network connection",
        ),
        (
            DevFlowError::JiraTransitionNotFound(s("Doing")),
            "Status transition 'Doing' not found\n   This status is not available for this ticket\n\n   To fix:\n   1. Check available statuses in Jira\n   2. Update your config with a valid transition",
        ),
        (
            DevFlowError::NotInGitRepo,
            "Not in a git repository\n   DevFlow must be run inside a git repository\n\n   To fix:\n   1. Navigate to a git repository\n   2. Or initialize one: git init",
        ),
        (
            DevFlowError::GitRepoNotClean,
            "Uncommitted changes detected\n   Commit or stash your changes before running 'devflow done'\n\n   To fix:\n   1. Commit changes: devflow commit \"your message\"\n   2. Or stash: git stash\n   3. Check status: git status",
        ),
        (
            DevFlowError::BranchAlreadyExists(s("feat/x")),
            "Branch 'feat/x' already exists\n   You're already on this branch or it exists locally\n\n   To check status: devflow status",
        ),
        (
            DevFlowError::BranchHasNoTicketId(s("main")),
            "Branch doesn't contain a ticket ID\n   Current branch: main\n\n   DevFlow expects branches in format: feat/TICKET-123/description\n\n   To fix:\n   1. Start work on a ticket: devflow start TICKET-123\n   2. Or switch to a DevFlow branch",
        ),
        (
            DevFlowError::NoPushAccess(s("denied")),
            "Failed to push to remote\n   denied\n\n   To fix:\n   1. Check your SSH keys are configured\n   2. Verify you have push access to the repository\n   3. Test SSH: ssh -T git@github.com",
        ),
        (
            DevFlowError::PrCreationFailed(s("no")),
            "Failed to create pull/merge request\n   no\n\n   To fix:\n   1. Check your API token is valid\n   2. Verify you have permissions to create PRs\n   3. Try creating the PR manually",
        ),
        (
            DevFlowError::GitHubAuthFailed,
            "GitHub authentication failed\n   Your GitHub token is invalid or expired\n\n   To fix:\n   1. Generate new token: Settings > Developer settings > Personal access tokens\n   2. Required scope: repo (full control)\n   3. Update config: devflow init",
        ),
        (
            DevFlowError::GitLabAuthFailed,
            "GitLab authentication failed\n   Your GitLab token is invalid or expired\n\n   To fix:\n   1. Generate new token: Settings > Access Tokens\n   2. Required scope: api\n   3. Update config: devflow init",
        ),
        (
            DevFlowError::NetworkError(s("timeout")),
            "Network error\n   timeout\n\n   To fix:\n   1. Check your internet connection\n   2. Verify you can reach the API endpoints\n   3. Try again in a moment",
        ),
        (DevFlowError::Other(s("odd")), "Error\n   odd"),
    ];
    for (failure, text) in cases {
        assert_eq!(failure.to_text(), text);
        assert_eq!(render_plain(&failure.message()), text);
    }
}

#[test]
fn messages_set_their_parts_apart() {
    let spans = DevFlowError::JiraAuthFailed(403).message();
    let styles: Vec<Style> = spans.iter().map(|s| s.style).collect();
    assert_eq!(
        styles,
        vec![
            Style::Headline,
            Style::Plain,
            Style::Note,
            Style::Plain,
            Style::Link,
            Style::Plain,
            Style::Command,
            Style::Plain,
        ]
    );
    assert_eq!(spans[0].text, "Jira authentication failed (403)");
    assert_eq!(DevFlowError::JiraAuthFailed(403).headline(), "Jira authentication failed (403)");
    assert_eq!(
        DevFlowError::JiraAuthFailed(403).detail(),
        "Your API token may have expired or is invalid"
    );
    let spans = DevFlowError::Other("odd".to_string()).message();
    assert_eq!(
        spans,
        vec![
            Span { style: Style::Headline, text: "Error".to_string() },
            Span { style: Style::Plain, text: "\n   ".to_string() },
            Span { style: Style::Note, text: "odd".to_string() },
        ]
    );
    assert_eq!(render_plain(&Vec::new()), "");
}

#[test]
fn numbers_are_written_in_decimal() {
    for n in [0u64, 1, 9, 10, 11, 99, 100, 101, 4711, 65535, 1_000_000, u64::MAX] {
        assert_eq!(decimal_of(n), n.to_string());
    }
}

#[test]
fn substrings_are_found() {
    let v = |t: &str| t.chars().collect::<Vec<char>>();
    assert!(has_substring(&v("feat/WAB-1/x"), &v("WAB-1")));
    assert!(has_substring(&v("WAB-1"), &v("WAB-1")));
    assert!(has_substring(&v("abc"), &v("")));
    assert!(has_substring(&v(""), &v("")));
    assert!(has_substring(&v("xxWAB-1"), &v("WAB-1")));
    assert!(!has_substring(&v("WAB-"), &v("WAB-1")));
    assert!(!has_substring(&v(""), &v("a")));
    assert!(!has_substring(&v("aab"), &v("aba")));
    assert!(has_substring(&v("aaab"), &v("aab")));
}

#[test]
fn statuses_stand_for_stages() {
    let stage = |name: &str| Status { name: name.to_string() }.stage();
    assert_eq!(stage("In Progress"), Stage::Active);
    assert_eq!(stage("To Do"), Stage::Waiting);
    assert_eq!(stage("In Review"), Stage::InReview);
    assert_eq!(stage("Code Review"), Stage::InReview);
    assert_eq!(stage("Done"), Stage::Closed);
    assert_eq!(stage("done"), Stage::Other);
    assert_eq!(stage(""), Stage::Other);
}

#[test]
fn tickets_have_a_label_to_choose_by() {
    let ticket = JiraTicket {
        key: "WAB-100".to_string(),
        fields: TicketFields {
            summary: "Login bug fix".to_string(),
            description: None,
            status: Status { name: "To Do".to_string() },
            assignee: Some(User { display_name: "Ann".to_string() }),
        },
    };
    assert_eq!(ticket.choice_label(), "WAB-100 [To Do] Login bug fix");
    assert_eq!(ticket.clone(), ticket);
    assert!(reached_limit(10, 10));
    assert!(!reached_limit(9, 10));
    assert!(!reached_limit(11, 10));
    assert!(reached_limit(0, 0));
}

#[test]
fn the_address_to_open_follows_the_flags() {
    let mut settings = sample_settings();
    assert_eq!(
        open_url(&settings, None, "", false, true).unwrap(),
        "https://jira.example.com/jira/software/projects/TEST/boards"
    );
    assert_eq!(
        open_url(&settings, Some("WAB-9"), "", true, true).unwrap(),
        "https://jira.example.com/jira/software/projects/TEST/boards"
    );
    assert_eq!(
        open_url(&settings, Some("WAB-9"), "", false, false).unwrap(),
        "https://jira.example.com/browse/WAB-9"
    );
    assert_eq!(
        open_url(&settings, None, "feat/WAB-7/x", false, false).unwrap(),
        "https://jira.example.com/browse/WAB-7"
    );
    assert_eq!(
        open_url(&settings, None, "main", false, false),
        Err(DevFlowError::BranchHasNoTicketId("main".to_string()))
    );
    assert_eq!(
        open_url(&settings, None, "main", true, false),
        Err(DevFlowError::BranchHasNoTicketId("main".to_string()))
    );
    assert_eq!(
        open_url(&settings, Some("WAB-9"), "main", true, false).unwrap(),
        "https://git.example.com/merge_requests?scope=all&state=opened&source_branch=main"
    );
    settings.git.provider = "svn".to_string();
    assert_eq!(
        open_url(&settings, None, "feat/WAB-7/x", true, false),
        Err(DevFlowError::Other("Unsupported provider: svn".to_string()))
    );
}

#[test]
fn the_branch_is_asked_for_only_when_needed() {
    assert!(!needs_branch(false, false, true));
    assert!(!needs_branch(true, true, true));
    assert!(needs_branch(false, false, false));
    assert!(needs_branch(true, true, false));
    assert!(needs_branch(false, true, false));
    assert!(!needs_branch(true, false, false));
}
