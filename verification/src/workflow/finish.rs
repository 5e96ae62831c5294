//! Finishing work on a ticket: push the branch, open a review request for
//! it, and move the ticket to review.
//!
//! The flow refuses a working tree that is not clean and a branch that
//! carries no ticket. Every step up to the review request ends the flow
//! when it fails. The change of status that follows does not: the review
//! request stays, and the outcome carries a warning.

use crate::branch::{extract_ticket_id, ticket_in_branch};
use crate::config::settings::{Settings, SettingsModel};
use crate::config::setup::{is_github, names_github};
use crate::errors::{DevFlowError, ErrorModel};
use crate::links::{ticket_link, ticket_url};
use crate::text::{lowercase, lowercased};
use crate::workflow::{
    give_up_out_of_turn, out_of_turn, rank, Action, ActionModel, Event, EventModel, OutcomeModel,
    ReviewHost, ReviewHostModel, ReviewKind, ReviewRequest, ReviewRequestModel, WorkflowOutcome,
};
use vstd::prelude::*;

verus! {

/// Where the flow stands: which answer it waits for, and what it has
/// learned so far.
#[derive(Debug, PartialEq, Eq)]
pub enum FinishWork {
    /// Waiting for the configuration.
    LoadingConfig,
    /// Waiting for the repository.
    OpeningRepository { settings: Settings },
    /// Waiting to hear whether the working tree is clean.
    CheckingClean { settings: Settings },
    /// Waiting for the name of the branch that is checked out.
    ReadingBranch { settings: Settings },
    /// Waiting for the push.
    Pushing { settings: Settings, ticket_id: String, branch: String },
    /// Waiting for the ticket.
    FetchingTicket { settings: Settings, ticket_id: String, branch: String },
    /// Waiting for the review request.
    CreatingReview { ticket_id: String, branch: String, kind: ReviewKind },
    /// Waiting for the ticket's change of status.
    Transitioning { ticket_id: String, branch: String, review_url: String, kind: ReviewKind },
    /// Over.
    Done,
}

/// The model of a [`FinishWork`].
pub enum FinishModel {
    LoadingConfig,
    OpeningRepository { settings: SettingsModel },
    CheckingClean { settings: SettingsModel },
    ReadingBranch { settings: SettingsModel },
    Pushing { settings: SettingsModel, ticket_id: Seq<char>, branch: Seq<char> },
    FetchingTicket { settings: SettingsModel, ticket_id: Seq<char>, branch: Seq<char> },
    CreatingReview { ticket_id: Seq<char>, branch: Seq<char>, kind: ReviewKind },
    Transitioning {
        ticket_id: Seq<char>,
        branch: Seq<char>,
        review_url: Seq<char>,
        kind: ReviewKind,
    },
    Done,
}

impl View for FinishWork {
    type V = FinishModel;

    open spec fn view(&self) -> FinishModel {
        match self {
            FinishWork::LoadingConfig => FinishModel::LoadingConfig,
            FinishWork::OpeningRepository { settings } => FinishModel::OpeningRepository {
                settings: settings@,
            },
            FinishWork::CheckingClean { settings } => FinishModel::CheckingClean {
                settings: settings@,
            },
            FinishWork::ReadingBranch { settings } => FinishModel::ReadingBranch {
                settings: settings@,
            },
            FinishWork::Pushing { settings, ticket_id, branch } => FinishModel::Pushing {
                settings: settings@,
                ticket_id: ticket_id@,
                branch: branch@,
            },
            FinishWork::FetchingTicket { settings, ticket_id, branch } => {
                FinishModel::FetchingTicket {
                    settings: settings@,
                    ticket_id: ticket_id@,
                    branch: branch@,
                }
            },
            FinishWork::CreatingReview { ticket_id, branch, kind } => FinishModel::CreatingReview {
                ticket_id: ticket_id@,
                branch: branch@,
                kind: *kind,
            },
            FinishWork::Transitioning { ticket_id, branch, review_url, kind } => {
                FinishModel::Transitioning {
                    ticket_id: ticket_id@,
                    branch: branch@,
                    review_url: review_url@,
                    kind: *kind,
                }
            },
            FinishWork::Done => FinishModel::Done,
        }
    }
}

/// The branch that review requests are opened against.
pub open spec fn target_branch() -> Seq<char> {
    "main"@
}

/// The status that a ticket under review moves to.
pub open spec fn review_transition() -> Seq<char> {
    "In Review"@
}

/// The title of the review request for a ticket.
pub open spec fn review_title(ticket_id: Seq<char>, summary: Seq<char>) -> Seq<char> {
    ticket_id + ": "@ + summary
}

/// The description of the review request for a ticket, with a link back to
/// the ticket.
pub open spec fn review_description(ticket_id: Seq<char>, jira_url: Seq<char>) -> Seq<char> {
    "Resolves "@ + ticket_id + "\n\nJira: "@ + ticket_link(jira_url, ticket_id)
}

/// The review request that a configuration asks for, or the reason why it
/// cannot be made: GitHub needs an owner and a repository.
pub open spec fn planned_review(
    settings: SettingsModel,
    lowered_provider: Seq<char>,
    ticket_id: Seq<char>,
    branch: Seq<char>,
    summary: Seq<char>,
) -> Result<ReviewRequestModel, ErrorModel> {
    if names_github(lowered_provider) {
        match settings.git.owner {
            None => Err(ErrorModel::Other("GitHub owner not configured"@)),
            Some(owner) => match settings.git.repo {
                None => Err(ErrorModel::Other("GitHub repo not configured"@)),
                Some(repo) => Ok(
                    ReviewRequestModel {
                        host: ReviewHostModel::GitHub { owner, repo, token: settings.git.token },
                        source_branch: branch,
                        target_branch: target_branch(),
                        title: review_title(ticket_id, summary),
                        description: review_description(ticket_id, settings.jira.url),
                    },
                ),
            },
        }
    } else {
        Ok(
            ReviewRequestModel {
                host: ReviewHostModel::GitLab {
                    base_url: settings.git.base_url,
                    token: settings.git.token,
                },
                source_branch: branch,
                target_branch: target_branch(),
                title: review_title(ticket_id, summary),
                description: review_description(ticket_id, settings.jira.url),
            },
        )
    }
}

/// What the review request of a code host is called.
pub open spec fn kind_of(host: ReviewHostModel) -> ReviewKind {
    match host {
        ReviewHostModel::GitHub { .. } => ReviewKind::PullRequest,
        ReviewHostModel::GitLab { .. } => ReviewKind::MergeRequest,
    }
}

/// The flow is over, with this outcome.
pub open spec fn ended(outcome: OutcomeModel) -> (FinishModel, ActionModel) {
    (FinishModel::Done, ActionModel::Finish(outcome))
}

/// The flow is given up, for this reason.
pub open spec fn failed(reason: ErrorModel) -> (FinishModel, ActionModel) {
    ended(OutcomeModel::Failed(reason))
}

/// The first state of the flow, and the action it opens with.
pub open spec fn finish_begin() -> (FinishModel, ActionModel) {
    (FinishModel::LoadingConfig, ActionModel::LoadConfig)
}

/// What the flow does with an event: the state it moves to and the action
/// it asks for.
pub open spec fn finish_step(state: FinishModel, event: EventModel) -> (FinishModel, ActionModel) {
    match state {
        FinishModel::LoadingConfig => match event {
            EventModel::ConfigLoaded(settings) => (
                FinishModel::OpeningRepository { settings },
                ActionModel::OpenRepository,
            ),
            EventModel::Failed(reason) => failed(reason),
            _ => ended(out_of_turn()),
        },
        FinishModel::OpeningRepository { settings } => match event {
            EventModel::RepositoryOpened => (
                FinishModel::CheckingClean { settings },
                ActionModel::CheckClean,
            ),
            EventModel::Failed(reason) => failed(reason),
            _ => ended(out_of_turn()),
        },
        FinishModel::CheckingClean { settings } => match event {
            EventModel::CleanChecked(clean) => if clean {
                (FinishModel::ReadingBranch { settings }, ActionModel::ReadCurrentBranch)
            } else {
                failed(ErrorModel::GitRepoNotClean)
            },
            EventModel::Failed(reason) => failed(reason),
            _ => ended(out_of_turn()),
        },
        FinishModel::ReadingBranch { settings } => match event {
            EventModel::CurrentBranch(branch) => match ticket_in_branch(branch) {
                Some(ticket_id) => (
                    FinishModel::Pushing { settings, ticket_id, branch },
                    ActionModel::PushBranch { name: branch },
                ),
                None => failed(ErrorModel::BranchHasNoTicketId(branch)),
            },
            EventModel::Failed(reason) => failed(reason),
            _ => ended(out_of_turn()),
        },
        FinishModel::Pushing { settings, ticket_id, branch } => match event {
            EventModel::BranchPushed => (
                FinishModel::FetchingTicket { settings, ticket_id, branch },
                ActionModel::FetchTicket { ticket_id },
            ),
            EventModel::Failed(reason) => failed(reason),
            _ => ended(out_of_turn()),
        },
        FinishModel::FetchingTicket { settings, ticket_id, branch } => match event {
            EventModel::TicketFetched(ticket) => match planned_review(
                settings,
                lowercased(settings.git.provider),
                ticket_id,
                branch,
                ticket.fields.summary,
            ) {
                Ok(request) => (
                    FinishModel::CreatingReview { ticket_id, branch, kind: kind_of(request.host) },
                    ActionModel::CreateReviewRequest { request },
                ),
                Err(reason) => failed(reason),
            },
            EventModel::Failed(reason) => failed(reason),
            _ => ended(out_of_turn()),
        },
        FinishModel::CreatingReview { ticket_id, branch, kind } => match event {
            EventModel::ReviewRequestCreated(review_url) => (
                FinishModel::Transitioning { ticket_id, branch, review_url, kind },
                ActionModel::TransitionTicket { ticket_id, transition: review_transition() },
            ),
            EventModel::Failed(reason) => failed(reason),
            _ => ended(out_of_turn()),
        },
        FinishModel::Transitioning { ticket_id, branch, review_url, kind } => match event {
            EventModel::TicketTransitioned => ended(
                OutcomeModel::Finished { ticket_id, branch, review_url, kind, warning: None },
            ),
            EventModel::Failed(reason) => ended(
                OutcomeModel::Finished {
                    ticket_id,
                    branch,
                    review_url,
                    kind,
                    warning: Some(reason),
                },
            ),
            _ => ended(out_of_turn()),
        },
        FinishModel::Done => ended(out_of_turn()),
    }
}

/// The actions that the flow asks for, one for each event, from `state` on
/// and until it is over.
pub open spec fn finish_run(state: FinishModel, events: Seq<EventModel>) -> Seq<ActionModel>
    decreases events.len(),
{
    if events.len() == 0 || state is Done {
        Seq::empty()
    } else {
        seq![finish_step(state, events[0]).1] + finish_run(
            finish_step(state, events[0]).0,
            events.drop_first(),
        )
    }
}

/// The whole conversation of a flow: the action it opens with and the
/// actions it answers the events with.
pub open spec fn finish_conversation(events: Seq<EventModel>) -> Seq<ActionModel> {
    seq![finish_begin().1] + finish_run(finish_begin().0, events)
}

/// The rank of the action whose answer a state waits for.
pub open spec fn finish_pending(state: FinishModel) -> int {
    match state {
        FinishModel::LoadingConfig => 0,
        FinishModel::OpeningRepository { .. } => 1,
        FinishModel::CheckingClean { .. } => 2,
        FinishModel::ReadingBranch { .. } => 3,
        FinishModel::Pushing { .. } => 4,
        FinishModel::FetchingTicket { .. } => 5,
        FinishModel::CreatingReview { .. } => 6,
        FinishModel::Transitioning { .. } => 7,
        FinishModel::Done => 8,
    }
}

/// One step moves the flow forward: the action it asks for comes later in
/// the order than the one it had asked for, and it is the one whose answer
/// the next state waits for.
pub proof fn lemma_finish_step_advances(state: FinishModel, event: EventModel)
    requires
        !(state is Done),
    ensures
        rank(finish_step(state, event).1) > finish_pending(state),
        rank(finish_step(state, event).1) == finish_pending(finish_step(state, event).0),
        finish_step(state, event).0 is Done <==> finish_step(state, event).1 is Finish,
{
}

/// A flow asks for its actions in their fixed order, whatever events it is
/// handed: later actions have a higher rank. So it asks for no action
/// twice, and for nothing after it has finished.
pub proof fn lemma_finish_in_order(state: FinishModel, events: Seq<EventModel>)
    ensures
        forall|i: int|
            0 <= i < finish_run(state, events).len() ==> rank(
                #[trigger] finish_run(state, events)[i],
            ) > finish_pending(state),
        forall|i: int, j: int|
            0 <= i < j < finish_run(state, events).len() ==> rank(
                #[trigger] finish_run(state, events)[i],
            ) < rank(#[trigger] finish_run(state, events)[j]),
    decreases events.len(),
{
    if events.len() == 0 || state is Done {
    } else {
        let next = finish_step(state, events[0]).0;
        let action = finish_step(state, events[0]).1;
        let later = finish_run(next, events.drop_first());
        lemma_finish_step_advances(state, events[0]);
        lemma_finish_in_order(next, events.drop_first());
        let run = finish_run(state, events);
        assert(run =~= seq![action] + later);
        assert forall|i: int| 0 <= i < run.len() implies rank(#[trigger] run[i])
            > finish_pending(state) by {
            if i > 0 {
                assert(run[i] == later[i - 1]);
            }
        }
        assert forall|i: int, j: int| 0 <= i < j < run.len() implies rank(#[trigger] run[i])
            < rank(#[trigger] run[j]) by {
            assert(run[j] == later[j - 1]);
            if i > 0 {
                assert(run[i] == later[i - 1]);
            }
        }
    }
}

/// The same of the whole conversation, opening action included.
pub proof fn lemma_finish_conversation_in_order(events: Seq<EventModel>)
    ensures
        forall|i: int, j: int|
            0 <= i < j < finish_conversation(events).len() ==> rank(
                #[trigger] finish_conversation(events)[i],
            ) < rank(#[trigger] finish_conversation(events)[j]),
{
    let all = finish_conversation(events);
    let later = finish_run(finish_begin().0, events);
    lemma_finish_in_order(finish_begin().0, events);
    assert forall|i: int, j: int| 0 <= i < j < all.len() implies rank(#[trigger] all[i]) < rank(
        #[trigger] all[j],
    ) by {
        assert(all[j] == later[j - 1]);
        if i > 0 {
            assert(all[i] == later[i - 1]);
        }
    }
}

/// A flow asks for every action at most once: no two actions of one
/// conversation have the same rank, so none is tried again.
pub proof fn lemma_finish_asks_once(events: Seq<EventModel>)
    ensures
        forall|i: int, j: int|
            0 <= i < finish_conversation(events).len() && 0 <= j < finish_conversation(
                events,
            ).len() && i != j ==> rank(#[trigger] finish_conversation(events)[i]) != rank(
                #[trigger] finish_conversation(events)[j],
            ),
{
    lemma_finish_conversation_in_order(events);
    let all = finish_conversation(events);
    assert forall|i: int, j: int| 0 <= i < all.len() && 0 <= j < all.len() && i != j implies rank(
        #[trigger] all[i],
    ) != rank(#[trigger] all[j]) by {
        if i < j {
            assert(rank(all[i]) < rank(all[j]));
        } else {
            assert(rank(all[j]) < rank(all[i]));
        }
    }
}

/// A failure of any step up to and including the review request ends the
/// flow with that failure. Nothing is asked for afterwards, and nothing
/// that was done before is undone.
pub proof fn lemma_finish_failure_is_fatal(
    state: FinishModel,
    reason: ErrorModel,
    more: Seq<EventModel>,
)
    requires
        !(state is Done),
        !(state is Transitioning),
    ensures
        finish_run(state, seq![EventModel::Failed(reason)] + more) == seq![
            ActionModel::Finish(OutcomeModel::Failed(reason)),
        ],
{
    let events = seq![EventModel::Failed(reason)] + more;
    assert(finish_run(FinishModel::Done, events.drop_first()) =~= Seq::empty());
}

/// A working tree that is not clean is never pushed: the flow ends with
/// [`ErrorModel::GitRepoNotClean`] and asks for nothing more.
pub proof fn lemma_finish_refuses_dirty_tree(settings: SettingsModel, more: Seq<EventModel>)
    ensures
        finish_run(
            FinishModel::CheckingClean { settings },
            seq![EventModel::CleanChecked(false)] + more,
        ) == seq![ActionModel::Finish(OutcomeModel::Failed(ErrorModel::GitRepoNotClean))],
{
    let events = seq![EventModel::CleanChecked(false)] + more;
    assert(finish_run(FinishModel::Done, events.drop_first()) =~= Seq::empty());
}

/// A branch that carries no ticket is never pushed: the flow ends with
/// [`ErrorModel::BranchHasNoTicketId`] and asks for nothing more.
pub proof fn lemma_finish_refuses_other_branches(
    settings: SettingsModel,
    branch: Seq<char>,
    more: Seq<EventModel>,
)
    requires
        ticket_in_branch(branch) is None,
    ensures
        finish_run(
            FinishModel::ReadingBranch { settings },
            seq![EventModel::CurrentBranch(branch)] + more,
        ) == seq![ActionModel::Finish(OutcomeModel::Failed(ErrorModel::BranchHasNoTicketId(branch)))],
{
    let events = seq![EventModel::CurrentBranch(branch)] + more;
    assert(finish_run(FinishModel::Done, events.drop_first()) =~= Seq::empty());
}

/// The change of status is tried once and never ends the flow in failure:
/// once the review request exists, the flow reports it either way, with the
/// failure of the change as a warning.
pub proof fn lemma_finish_tail_is_not_fatal(
    ticket_id: Seq<char>,
    branch: Seq<char>,
    review_url: Seq<char>,
    kind: ReviewKind,
    reason: ErrorModel,
)
    ensures
        finish_step(
            FinishModel::Transitioning { ticket_id, branch, review_url, kind },
            EventModel::Failed(reason),
        ) == ended(
            OutcomeModel::Finished { ticket_id, branch, review_url, kind, warning: Some(reason) },
        ),
        finish_step(
            FinishModel::Transitioning { ticket_id, branch, review_url, kind },
            EventModel::TicketTransitioned,
        ) == ended(OutcomeModel::Finished { ticket_id, branch, review_url, kind, warning: None }),
        finish_run(
            FinishModel::CreatingReview { ticket_id, branch, kind },
            seq![EventModel::ReviewRequestCreated(review_url), EventModel::Failed(reason)],
        ) == seq![
            ActionModel::TransitionTicket { ticket_id, transition: review_transition() },
            ActionModel::Finish(
                OutcomeModel::Finished {
                    ticket_id,
                    branch,
                    review_url,
                    kind,
                    warning: Some(reason),
                },
            ),
        ],
{
    let events = seq![EventModel::ReviewRequestCreated(review_url), EventModel::Failed(reason)];
    let waiting = FinishModel::Transitioning { ticket_id, branch, review_url, kind };
    let e1 = events.drop_first();
    assert(e1[0] == events[1]);
    assert(finish_run(FinishModel::Done, e1.drop_first()) =~= Seq::empty());
    assert(finish_run(waiting, e1) =~= seq![finish_step(waiting, events[1]).1]);
}

/// The title of the review request for a ticket.
pub fn title_for(ticket_id: &str, summary: &str) -> (title: String)
    ensures
        title@ == review_title(ticket_id@, summary@),
{
    let mut title = String::from_str(ticket_id);
    title.append(": ");
    title.append(summary);
    title
}

/// The description of the review request for a ticket.
pub fn description_for(ticket_id: &str, jira_url: &str) -> (description: String)
    ensures
        description@ == review_description(ticket_id@, jira_url@),
{
    let link = ticket_url(jira_url, ticket_id);
    let mut description = String::from_str("Resolves ");
    description.append(ticket_id);
    description.append("\n\nJira: ");
    description.append(link.as_str());
    description
}

/// The review request that a configuration asks for, given the name of its
/// provider in lower case, or the reason why it cannot be made.
pub fn plan_review(
    settings: &Settings,
    lowered_provider: &str,
    ticket_id: &str,
    branch: &str,
    summary: &str,
) -> (res: Result<ReviewRequest, DevFlowError>)
    ensures
        match res {
            Ok(request) => planned_review(
                settings@,
                lowered_provider@,
                ticket_id@,
                branch@,
                summary@,
            ) == Ok::<ReviewRequestModel, ErrorModel>(request@),
            Err(reason) => planned_review(
                settings@,
                lowered_provider@,
                ticket_id@,
                branch@,
                summary@,
            ) == Err::<ReviewRequestModel, ErrorModel>(reason@),
        },
{
    let host = if is_github(lowered_provider) {
        match &settings.git.owner {
            None => {
                return Err(DevFlowError::Other(String::from_str("GitHub owner not configured")));
            },
            Some(owner) => match &settings.git.repo {
                None => {
                    return Err(
                        DevFlowError::Other(String::from_str("GitHub repo not configured")),
                    );
                },
                Some(repo) => ReviewHost::GitHub {
                    owner: owner.clone(),
                    repo: repo.clone(),
                    token: settings.git.token.clone(),
                },
            },
        }
    } else {
        ReviewHost::GitLab {
            base_url: settings.git.base_url.clone(),
            token: settings.git.token.clone(),
        }
    };
    Ok(
        ReviewRequest {
            host,
            source_branch: String::from_str(branch),
            target_branch: String::from_str("main"),
            title: title_for(ticket_id, summary),
            description: description_for(ticket_id, settings.jira.url.as_str()),
        },
    )
}

/// What the review request of a code host is called.
pub fn review_kind(host: &ReviewHost) -> (kind: ReviewKind)
    ensures
        kind == kind_of(host@),
{
    match host {
        ReviewHost::GitHub { .. } => ReviewKind::PullRequest,
        ReviewHost::GitLab { .. } => ReviewKind::MergeRequest,
    }
}

/// Ends the flow with an outcome.
fn finish(outcome: WorkflowOutcome) -> (res: (FinishWork, Action))
    ensures
        (res.0@, res.1@) == ended(outcome@),
{
    (FinishWork::Done, Action::Finish(outcome))
}

impl FinishWork {
    /// Opens the flow.
    pub fn begin() -> (res: (FinishWork, Action))
        ensures
            (res.0@, res.1@) == finish_begin(),
    {
        (FinishWork::LoadingConfig, Action::LoadConfig)
    }

    /// Whether the flow is over.
    pub fn is_done(&self) -> (done: bool)
        ensures
            done == (self@ is Done),
    {
        match self {
            FinishWork::Done => true,
            _ => false,
        }
    }

    /// Takes the answer to the action that was asked for last, and says what
    /// comes next.
    pub fn step(self, event: Event) -> (res: (FinishWork, Action))
        ensures
            (res.0@, res.1@) == finish_step(self@, event@),
    {
        match self {
            FinishWork::LoadingConfig => match event {
                Event::ConfigLoaded(settings) => (
                    FinishWork::OpeningRepository { settings },
                    Action::OpenRepository,
                ),
                Event::Failed(reason) => finish(WorkflowOutcome::Failed(reason)),
                _ => finish(give_up_out_of_turn()),
            },
            FinishWork::OpeningRepository { settings } => match event {
                Event::RepositoryOpened => (
                    FinishWork::CheckingClean { settings },
                    Action::CheckClean,
                ),
                Event::Failed(reason) => finish(WorkflowOutcome::Failed(reason)),
                _ => finish(give_up_out_of_turn()),
            },
            FinishWork::CheckingClean { settings } => match event {
                Event::CleanChecked(clean) => if clean {
                    (FinishWork::ReadingBranch { settings }, Action::ReadCurrentBranch)
                } else {
                    finish(WorkflowOutcome::Failed(DevFlowError::GitRepoNotClean))
                },
                Event::Failed(reason) => finish(WorkflowOutcome::Failed(reason)),
                _ => finish(give_up_out_of_turn()),
            },
            FinishWork::ReadingBranch { settings } => match event {
                Event::CurrentBranch(branch) => match extract_ticket_id(branch.as_str()) {
                    Ok(ticket_id) => {
                        let name = branch.clone();
                        (
                            FinishWork::Pushing { settings, ticket_id, branch },
                            Action::PushBranch { name },
                        )
                    },
                    Err(reason) => finish(WorkflowOutcome::Failed(reason)),
                },
                Event::Failed(reason) => finish(WorkflowOutcome::Failed(reason)),
                _ => finish(give_up_out_of_turn()),
            },
            FinishWork::Pushing { settings, ticket_id, branch } => match event {
                Event::BranchPushed => {
                    let asked = ticket_id.clone();
                    (
                        FinishWork::FetchingTicket { settings, ticket_id, branch },
                        Action::FetchTicket { ticket_id: asked },
                    )
                },
                Event::Failed(reason) => finish(WorkflowOutcome::Failed(reason)),
                _ => finish(give_up_out_of_turn()),
            },
            FinishWork::FetchingTicket { settings, ticket_id, branch } => match event {
                Event::TicketFetched(ticket) => {
                    let provider = lowercase(settings.git.provider.as_str());
                    match plan_review(
                        &settings,
                        provider.as_str(),
                        ticket_id.as_str(),
                        branch.as_str(),
                        ticket.fields.summary.as_str(),
                    ) {
                        Ok(request) => {
                            let kind = review_kind(&request.host);
                            (
                                FinishWork::CreatingReview { ticket_id, branch, kind },
                                Action::CreateReviewRequest { request },
                            )
                        },
                        Err(reason) => finish(WorkflowOutcome::Failed(reason)),
                    }
                },
                Event::Failed(reason) => finish(WorkflowOutcome::Failed(reason)),
                _ => finish(give_up_out_of_turn()),
            },
            FinishWork::CreatingReview { ticket_id, branch, kind } => match event {
                Event::ReviewRequestCreated(review_url) => {
                    let asked = ticket_id.clone();
                    (
                        FinishWork::Transitioning { ticket_id, branch, review_url, kind },
                        Action::TransitionTicket {
                            ticket_id: asked,
                            transition: String::from_str("In Review"),
                        },
                    )
                },
                Event::Failed(reason) => finish(WorkflowOutcome::Failed(reason)),
                _ => finish(give_up_out_of_turn()),
            },
            FinishWork::Transitioning { ticket_id, branch, review_url, kind } => match event {
                Event::TicketTransitioned => finish(
                    WorkflowOutcome::Finished { ticket_id, branch, review_url, kind, warning: None },
                ),
                Event::Failed(reason) => finish(
                    WorkflowOutcome::Finished {
                        ticket_id,
                        branch,
                        review_url,
                        kind,
                        warning: Some(reason),
                    },
                ),
                _ => finish(give_up_out_of_turn()),
            },
            FinishWork::Done => finish(give_up_out_of_turn()),
        }
    }
}

} // verus!
