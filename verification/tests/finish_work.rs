use devflow::config::settings::{AuthMethod, GitConfig, JiraConfig, Preferences, Settings};
use devflow::errors::DevFlowError;
use devflow::models::ticket::{JiraTicket, Status, TicketFields};
use devflow::workflow::finish::{description_for, plan_review, title_for, FinishWork};
use devflow::workflow::{Action, Event, ReviewHost, ReviewKind, ReviewRequest, WorkflowOutcome};

fn finish_settings(provider: &str, owner: Option<&str>, repo: Option<&str>) -> Settings {
    Settings {
        jira: JiraConfig {
            url: "https://jira.example.com".to_string(),
            email: "test@example.com".to_string(),
            project_key: "WAB".to_string(),
            auth_method: AuthMethod::ApiToken { token: "test-token".to_string() },
        },
        git: GitConfig {
            provider: provider.to_string(),
            base_url: "https://git.example.com".to_string(),
            token: "git-token".to_string(),
            owner: owner.map(|o| o.to_string()),
            repo: repo.map(|r| r.to_string()),
        },
        preferences: Preferences {
            branch_prefix: "feat".to_string(),
            default_transition: "In Progress".to_string(),
        },
    }
}

fn finish_ticket(key: &str, summary: &str) -> JiraTicket {
    JiraTicket {
        key: key.to_string(),
        fields: TicketFields {
            summary: summary.to_string(),
            description: Some("text".to_string()),
            status: Status { name: "In Progress".to_string() },
            assignee: None,
        },
    }
}

fn run_finish(events: Vec<Event>) -> Vec<Action> {
    let (mut state, first) = FinishWork::begin();
    let mut actions = vec![first];
    for event in events {
        if state.is_done() {
            break;
        }
        let (next, action) = state.step(event);
        state = next;
        actions.push(action);
    }
    actions
}

fn gitlab_request() -> ReviewRequest {
    ReviewRequest {
        host: ReviewHost::GitLab {
            base_url: "https://git.example.com".to_string(),
            token: "git-token".to_string(),
        },
        source_branch: "feat/WAB-1234/add_user_authentication".to_string(),
        target_branch: "main".to_string(),
        title: "WAB-1234: Add user authentication".to_string(),
        description: "Resolves WAB-1234\n\nJira: https://jira.example.com/browse/WAB-1234"
            .to_string(),
    }
}

fn up_to_review(settings: Settings) -> Vec<Event> {
    vec![
        Event::ConfigLoaded(settings),
        Event::RepositoryOpened,
        Event::CleanChecked(true),
        Event::CurrentBranch("feat/WAB-1234/add_user_authentication".to_string()),
        Event::BranchPushed,
        Event::TicketFetched(finish_ticket("WAB-1234", "Add user authentication")),
    ]
}

#[test]
fn finish_runs_all_steps_in_order() {
    let mut events = up_to_review(finish_settings("gitlab", None, None));
    events.push(Event::ReviewRequestCreated("https://git.example.com/mr/7".to_string()));
    events.push(Event::TicketTransitioned);
    let actions = run_finish(events);
    assert_eq!(
        actions,
        vec![
            Action::LoadConfig,
            Action::OpenRepository,
            Action::CheckClean,
            Action::ReadCurrentBranch,
            Action::PushBranch { name: "feat/WAB-1234/add_user_authentication".to_string() },
            Action::FetchTicket { ticket_id: "WAB-1234".to_string() },
            Action::CreateReviewRequest { request: gitlab_request() },
            Action::TransitionTicket {
                ticket_id: "WAB-1234".to_string(),
                transition: "In Review".to_string(),
            },
            Action::Finish(WorkflowOutcome::Finished {
                ticket_id: "WAB-1234".to_string(),
                branch: "feat/WAB-1234/add_user_authentication".to_string(),
                review_url: "https://git.example.com/mr/7".to_string(),
                kind: ReviewKind::MergeRequest,
                warning: None,
            }),
        ]
    );
}

#[test]
fn finish_succeeds_with_a_warning_when_the_transition_fails() {
    let mut events = up_to_review(finish_settings("gitlab", None, None));
    events.push(Event::ReviewRequestCreated("https://git.example.com/mr/7".to_string()));
    events.push(Event::Failed(DevFlowError::JiraTransitionNotFound("In Review".to_string())));
    let actions = run_finish(events);
    assert_eq!(
        actions.last(),
        Some(&Action::Finish(WorkflowOutcome::Finished {
            ticket_id: "WAB-1234".to_string(),
            branch: "feat/WAB-1234/add_user_authentication".to_string(),
            review_url: "https://git.example.com/mr/7".to_string(),
            kind: ReviewKind::MergeRequest,
            warning: Some(DevFlowError::JiraTransitionNotFound("In Review".to_string())),
        }))
    );
}

#[test]
fn finish_refuses_a_dirty_working_tree() {
    let actions = run_finish(vec![
        Event::ConfigLoaded(finish_settings("gitlab", None, None)),
        Event::RepositoryOpened,
        Event::CleanChecked(false),
        Event::CurrentBranch("feat/WAB-1/x".to_string()),
    ]);
    assert_eq!(
        actions,
        vec![
            Action::LoadConfig,
            Action::OpenRepository,
            Action::CheckClean,
            Action::Finish(WorkflowOutcome::Failed(DevFlowError::GitRepoNotClean)),
        ]
    );
}

#[test]
fn finish_refuses_a_branch_without_a_ticket() {
    for branch in ["main", "feat/nodash", ""] {
        let actions = run_finish(vec![
            Event::ConfigLoaded(finish_settings("gitlab", None, None)),
            Event::RepositoryOpened,
            Event::CleanChecked(true),
            Event::CurrentBranch(branch.to_string()),
            Event::BranchPushed,
        ]);
        assert_eq!(actions.len(), 5);
        assert_eq!(
            actions.last(),
            Some(&Action::Finish(WorkflowOutcome::Failed(DevFlowError::BranchHasNoTicketId(
                branch.to_string()
            ))))
        );
        assert!(!actions.iter().any(|a| matches!(a, Action::PushBranch { .. })));
    }
}

#[test]
fn finish_opens_no_review_for_a_branch_it_could_not_push() {
    let actions = run_finish(vec![
        Event::ConfigLoaded(finish_settings("gitlab", None, None)),
        Event::RepositoryOpened,
        Event::CleanChecked(true),
        Event::CurrentBranch("feat/WAB-1/x".to_string()),
        Event::Failed(DevFlowError::NoPushAccess("denied".to_string())),
        Event::TicketFetched(finish_ticket("WAB-1", "x")),
    ]);
    assert_eq!(
        actions.last(),
        Some(&Action::Finish(WorkflowOutcome::Failed(DevFlowError::NoPushAccess(
            "denied".to_string()
        ))))
    );
    assert!(!actions.iter().any(|a| matches!(a, Action::FetchTicket { .. })));
    assert!(!actions.iter().any(|a| matches!(a, Action::CreateReviewRequest { .. })));
}

#[test]
fn finish_fails_when_the_review_request_fails() {
    let mut events = up_to_review(finish_settings("gitlab", None, None));
    events.push(Event::Failed(DevFlowError::PrCreationFailed("GitLab API error".to_string())));
    events.push(Event::TicketTransitioned);
    let actions = run_finish(events);
    assert_eq!(
        actions.last(),
        Some(&Action::Finish(WorkflowOutcome::Failed(DevFlowError::PrCreationFailed(
            "GitLab API error".to_string()
        ))))
    );
    assert!(!actions.iter().any(|a| matches!(a, Action::TransitionTicket { .. })));
}

#[test]
fn finish_fails_on_each_early_failure() {
    let settings = finish_settings("gitlab", None, None);
    let good = vec![
        Event::ConfigLoaded(settings),
        Event::RepositoryOpened,
        Event::CleanChecked(true),
        Event::CurrentBranch("feat/WAB-1/x".to_string()),
        Event::BranchPushed,
        Event::TicketFetched(finish_ticket("WAB-1", "x")),
    ];
    for failing in 0..good.len() {
        let mut events: Vec<Event> = Vec::new();
        for (i, event) in good.iter().enumerate() {
            if i < failing {
                events.push(match event {
                    Event::ConfigLoaded(s) => Event::ConfigLoaded(s.clone()),
                    Event::RepositoryOpened => Event::RepositoryOpened,
                    Event::CleanChecked(c) => Event::CleanChecked(*c),
                    Event::CurrentBranch(b) => Event::CurrentBranch(b.clone()),
                    Event::BranchPushed => Event::BranchPushed,
                    Event::TicketFetched(t) => Event::TicketFetched(t.clone()),
                    _ => unreachable!(),
                });
            }
        }
        events.push(Event::Failed(DevFlowError::NetworkError("down".to_string())));
        let actions = run_finish(events);
        assert_eq!(actions.len(), failing + 2);
        assert_eq!(
            actions.last(),
            Some(&Action::Finish(WorkflowOutcome::Failed(DevFlowError::NetworkError(
                "down".to_string()
            ))))
        );
    }
}

#[test]
fn finish_asks_github_for_a_pull_request() {
    let mut events = up_to_review(finish_settings("GitHub", Some("octo"), Some("tool")));
    events.push(Event::ReviewRequestCreated("https://github.com/octo/tool/pull/3".to_string()));
    events.push(Event::TicketTransitioned);
    let actions = run_finish(events);
    match &actions[6] {
        Action::CreateReviewRequest { request } => {
            assert_eq!(
                request.host,
                ReviewHost::GitHub {
                    owner: "octo".to_string(),
                    repo: "tool".to_string(),
                    token: "git-token".to_string(),
                }
            );
            assert_eq!(request.target_branch, "main");
        }
        other => panic!("unexpected action {:?}", other),
    }
    assert_eq!(
        actions.last(),
        Some(&Action::Finish(WorkflowOutcome::Finished {
            ticket_id: "WAB-1234".to_string(),
            branch: "feat/WAB-1234/add_user_authentication".to_string(),
            review_url: "https://github.com/octo/tool/pull/3".to_string(),
            kind: ReviewKind::PullRequest,
            warning: None,
        }))
    );
}

#[test]
fn finish_needs_owner_and_repo_for_github() {
    let actions = run_finish(up_to_review(finish_settings("github", None, Some("tool"))));
    assert_eq!(
        actions.last(),
        Some(&Action::Finish(WorkflowOutcome::Failed(DevFlowError::Other(
            "GitHub owner not configured".to_string()
        ))))
    );
    let actions = run_finish(up_to_review(finish_settings("github", Some("octo"), None)));
    assert_eq!(
        actions.last(),
        Some(&Action::Finish(WorkflowOutcome::Failed(DevFlowError::Other(
            "GitHub repo not configured".to_string()
        ))))
    );
}

#[test]
fn plan_review_reads_the_provider_as_given() {
    let settings = finish_settings("whatever", Some("octo"), Some("tool"));
    let github = plan_review(&settings, "github", "WAB-1", "feat/WAB-1", "Sum").unwrap();
    assert!(matches!(github.host, ReviewHost::GitHub { .. }));
    let other = plan_review(&settings, "GitHub", "WAB-1", "feat/WAB-1", "Sum").unwrap();
    assert!(matches!(other.host, ReviewHost::GitLab { .. }));
    let other = plan_review(&settings, "", "WAB-1", "feat/WAB-1", "Sum").unwrap();
    assert!(matches!(other.host, ReviewHost::GitLab { .. }));
}

#[test]
fn review_texts_have_their_exact_form() {
    assert_eq!(title_for("WAB-1", "Add login"), "WAB-1: Add login");
    assert_eq!(title_for("", ""), ": ");
    assert_eq!(
        description_for("WAB-1", "https://jira.example.com"),
        "Resolves WAB-1\n\nJira: https://jira.example.com/browse/WAB-1"
    );
}

#[test]
fn finish_gives_up_on_an_event_out_of_turn() {
    let (state, _) = FinishWork::begin();
    let (state, action) = state.step(Event::BranchPushed);
    assert!(state.is_done());
    assert!(matches!(action, Action::Finish(WorkflowOutcome::Failed(DevFlowError::Other(_)))));
}
