//! The two flows, start work and finish work, as step functions.
//!
//! A flow never does anything to the outside world itself. It hands out one
//! [`Action`] at a time; whoever runs the flow performs the action and hands
//! back an [`Event`] that says how it went. The flow then decides what comes
//! next. Every action is asked for at most once, in a fixed order, and the
//! flow ends with [`Action::Finish`].

pub mod finish;
pub mod start;

use crate::config::settings::{Settings, SettingsModel};
use crate::errors::{failure_model, DevFlowError, ErrorModel};
use crate::models::ticket::{JiraTicket, JiraTicketModel};
use vstd::prelude::*;

verus! {

/// The code host that a review request goes to, with what it takes to ask.
#[derive(Debug, PartialEq, Eq)]
pub enum ReviewHost {
    /// A pull request on GitHub.
    GitHub { owner: String, repo: String, token: String },
    /// A merge request on GitLab.
    GitLab { base_url: String, token: String },
}

/// A request for review of one branch against another.
#[derive(Debug, PartialEq, Eq)]
pub struct ReviewRequest {
    pub host: ReviewHost,
    pub source_branch: String,
    pub target_branch: String,
    pub title: String,
    pub description: String,
}

/// What the two kinds of code host call a review request.
#[derive(Debug, Clone, Copy, PartialEq, Eq, Structural)]
pub enum ReviewKind {
    PullRequest,
    MergeRequest,
}

/// How a flow ended.
#[derive(Debug, PartialEq, Eq)]
pub enum WorkflowOutcome {
    /// Work on the ticket had been started before: nothing was done.
    AlreadyOnBranch { branch: String },
    /// The branch for the ticket exists and is checked out. `warning` holds
    /// the failure of the status change, if it failed.
    Started { ticket_id: String, branch: String, summary: String, warning: Option<DevFlowError> },
    /// The branch is pushed and up for review. `warning` holds the failure
    /// of the status change, if it failed.
    Finished {
        ticket_id: String,
        branch: String,
        review_url: String,
        kind: ReviewKind,
        warning: Option<DevFlowError>,
    },
    /// The flow was given up, for this reason.
    Failed(DevFlowError),
}

/// What a flow asks for next.
#[derive(Debug, PartialEq, Eq)]
pub enum Action {
    /// Read the configuration.
    LoadConfig,
    /// Find the repository around the working directory.
    OpenRepository,
    /// Ask whether the working tree is clean.
    CheckClean,
    /// Ask for the name of the branch that is checked out.
    ReadCurrentBranch,
    /// Push the branch to the remote.
    PushBranch { name: String },
    /// Get the ticket from the tracker.
    FetchTicket { ticket_id: String },
    /// Create the branch and switch to it.
    CreateBranch { name: String },
    /// Open the review request.
    CreateReviewRequest { request: ReviewRequest },
    /// Move the ticket to another status.
    TransitionTicket { ticket_id: String, transition: String },
    /// Nothing more: the flow is over, with this outcome.
    Finish(WorkflowOutcome),
}

/// How the action that was asked for went.
#[derive(Debug, PartialEq, Eq)]
pub enum Event {
    /// The configuration, read.
    ConfigLoaded(Settings),
    /// The repository was found.
    RepositoryOpened,
    /// Whether the working tree is clean.
    CleanChecked(bool),
    /// The name of the branch that is checked out.
    CurrentBranch(String),
    /// The branch was pushed.
    BranchPushed,
    /// The ticket, as the tracker has it.
    TicketFetched(JiraTicket),
    /// The branch was created and is checked out.
    BranchCreated,
    /// The review request was opened, at this address.
    ReviewRequestCreated(String),
    /// The ticket has its new status.
    TicketTransitioned,
    /// The action failed, for this reason.
    Failed(DevFlowError),
}

/// The model of a [`ReviewHost`].
pub enum ReviewHostModel {
    GitHub { owner: Seq<char>, repo: Seq<char>, token: Seq<char> },
    GitLab { base_url: Seq<char>, token: Seq<char> },
}

/// The model of a [`ReviewRequest`].
pub struct ReviewRequestModel {
    pub host: ReviewHostModel,
    pub source_branch: Seq<char>,
    pub target_branch: Seq<char>,
    pub title: Seq<char>,
    pub description: Seq<char>,
}

/// The model of a [`WorkflowOutcome`].
pub enum OutcomeModel {
    AlreadyOnBranch { branch: Seq<char> },
    Started {
        ticket_id: Seq<char>,
        branch: Seq<char>,
        summary: Seq<char>,
        warning: Option<ErrorModel>,
    },
    Finished {
        ticket_id: Seq<char>,
        branch: Seq<char>,
        review_url: Seq<char>,
        kind: ReviewKind,
        warning: Option<ErrorModel>,
    },
    Failed(ErrorModel),
}

/// The model of an [`Action`].
pub enum ActionModel {
    LoadConfig,
    OpenRepository,
    CheckClean,
    ReadCurrentBranch,
    PushBranch { name: Seq<char> },
    FetchTicket { ticket_id: Seq<char> },
    CreateBranch { name: Seq<char> },
    CreateReviewRequest { request: ReviewRequestModel },
    TransitionTicket { ticket_id: Seq<char>, transition: Seq<char> },
    Finish(OutcomeModel),
}

/// The model of an [`Event`].
pub enum EventModel {
    ConfigLoaded(SettingsModel),
    RepositoryOpened,
    CleanChecked(bool),
    CurrentBranch(Seq<char>),
    BranchPushed,
    TicketFetched(JiraTicketModel),
    BranchCreated,
    ReviewRequestCreated(Seq<char>),
    TicketTransitioned,
    Failed(ErrorModel),
}

impl View for ReviewHost {
    type V = ReviewHostModel;

    open spec fn view(&self) -> ReviewHostModel {
        match self {
            ReviewHost::GitHub { owner, repo, token } => ReviewHostModel::GitHub {
                owner: owner@,
                repo: repo@,
                token: token@,
            },
            ReviewHost::GitLab { base_url, token } => ReviewHostModel::GitLab {
                base_url: base_url@,
                token: token@,
            },
        }
    }
}

impl View for ReviewRequest {
    type V = ReviewRequestModel;

    open spec fn view(&self) -> ReviewRequestModel {
        ReviewRequestModel {
            host: self.host@,
            source_branch: self.source_branch@,
            target_branch: self.target_branch@,
            title: self.title@,
            description: self.description@,
        }
    }
}

impl View for WorkflowOutcome {
    type V = OutcomeModel;

    open spec fn view(&self) -> OutcomeModel {
        match self {
            WorkflowOutcome::AlreadyOnBranch { branch } => OutcomeModel::AlreadyOnBranch {
                branch: branch@,
            },
            WorkflowOutcome::Started { ticket_id, branch, summary, warning } => {
                OutcomeModel::Started {
                    ticket_id: ticket_id@,
                    branch: branch@,
                    summary: summary@,
                    warning: failure_model(*warning),
                }
            },
            WorkflowOutcome::Finished { ticket_id, branch, review_url, kind, warning } => {
                OutcomeModel::Finished {
                    ticket_id: ticket_id@,
                    branch: branch@,
                    review_url: review_url@,
                    kind: *kind,
                    warning: failure_model(*warning),
                }
            },
            WorkflowOutcome::Failed(e) => OutcomeModel::Failed(e@),
        }
    }
}

impl View for Action {
    type V = ActionModel;

    open spec fn view(&self) -> ActionModel {
        match self {
            Action::LoadConfig => ActionModel::LoadConfig,
            Action::OpenRepository => ActionModel::OpenRepository,
            Action::CheckClean => ActionModel::CheckClean,
            Action::ReadCurrentBranch => ActionModel::ReadCurrentBranch,
            Action::PushBranch { name } => ActionModel::PushBranch { name: name@ },
            Action::FetchTicket { ticket_id } => ActionModel::FetchTicket { ticket_id: ticket_id@ },
            Action::CreateBranch { name } => ActionModel::CreateBranch { name: name@ },
            Action::CreateReviewRequest { request } => ActionModel::CreateReviewRequest {
                request: request@,
            },
            Action::TransitionTicket { ticket_id, transition } => ActionModel::TransitionTicket {
                ticket_id: ticket_id@,
                transition: transition@,
            },
            Action::Finish(outcome) => ActionModel::Finish(outcome@),
        }
    }
}

impl View for Event {
    type V = EventModel;

    open spec fn view(&self) -> EventModel {
        match self {
            Event::ConfigLoaded(settings) => EventModel::ConfigLoaded(settings@),
            Event::RepositoryOpened => EventModel::RepositoryOpened,
            Event::CleanChecked(clean) => EventModel::CleanChecked(*clean),
            Event::CurrentBranch(name) => EventModel::CurrentBranch(name@),
            Event::BranchPushed => EventModel::BranchPushed,
            Event::TicketFetched(ticket) => EventModel::TicketFetched(ticket@),
            Event::BranchCreated => EventModel::BranchCreated,
            Event::ReviewRequestCreated(url) => EventModel::ReviewRequestCreated(url@),
            Event::TicketTransitioned => EventModel::TicketTransitioned,
            Event::Failed(e) => EventModel::Failed(e@),
        }
    }
}

/// The place of an action in the order in which a flow may ask for actions.
pub open spec fn rank(action: ActionModel) -> int {
    match action {
        ActionModel::LoadConfig => 0,
        ActionModel::OpenRepository => 1,
        ActionModel::CheckClean => 2,
        ActionModel::ReadCurrentBranch => 3,
        ActionModel::PushBranch { .. } => 4,
        ActionModel::FetchTicket { .. } => 5,
        ActionModel::CreateBranch { .. } => 6,
        ActionModel::CreateReviewRequest { .. } => 6,
        ActionModel::TransitionTicket { .. } => 7,
        ActionModel::Finish(_) => 8,
    }
}

/// The outcome of a flow that was handed an event it had not asked for.
pub open spec fn out_of_turn() -> OutcomeModel {
    OutcomeModel::Failed(ErrorModel::Other("Unexpected event for this step of the flow"@))
}

/// Ends a flow that was handed an event it had not asked for.
pub fn give_up_out_of_turn() -> (outcome: WorkflowOutcome)
    ensures
        outcome@ == out_of_turn(),
{
    WorkflowOutcome::Failed(
        DevFlowError::Other(String::from_str("Unexpected event for this step of the flow")),
    )
}

} // verus!
