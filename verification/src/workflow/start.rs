//! Starting work on a ticket: fetch it, create its branch, and move it to
//! the status that the configuration names.
//!
//! Nothing happens when the branch that is checked out belongs to the
//! ticket already. A ticket that cannot be fetched and a branch that cannot
//! be created end the flow. A status that cannot be changed does not: the
//! branch stays, and the outcome carries a warning.

use crate::branch::{branch_name, format_branch_name, ticket_in_branch};
use crate::config::settings::{Settings, SettingsModel};
use crate::errors::ErrorModel;
use crate::text::{chars_of, contains, has_substring, lowercased};
use crate::workflow::{
    give_up_out_of_turn, out_of_turn, rank, Action, ActionModel, Event, EventModel, OutcomeModel,
    WorkflowOutcome,
};
use vstd::prelude::*;

verus! {

/// Where the flow stands: which answer it waits for, and what it has
/// learned so far.
#[derive(Debug, PartialEq, Eq)]
pub enum StartWork {
    /// Waiting for the configuration.
    LoadingConfig { ticket_id: String },
    /// Waiting for the repository.
    OpeningRepository { ticket_id: String, settings: Settings },
    /// Waiting for the name of the branch that is checked out.
    ReadingBranch { ticket_id: String, settings: Settings },
    /// Waiting for the ticket.
    FetchingTicket { ticket_id: String, settings: Settings },
    /// Waiting for the new branch.
    CreatingBranch { ticket_id: String, transition: String, summary: String, branch: String },
    /// Waiting for the ticket's change of status.
    Transitioning { ticket_id: String, summary: String, branch: String },
    /// Over.
    Done,
}

/// The model of a [`StartWork`].
pub enum StartModel {
    LoadingConfig { ticket_id: Seq<char> },
    OpeningRepository { ticket_id: Seq<char>, settings: SettingsModel },
    ReadingBranch { ticket_id: Seq<char>, settings: SettingsModel },
    FetchingTicket { ticket_id: Seq<char>, settings: SettingsModel },
    CreatingBranch {
        ticket_id: Seq<char>,
        transition: Seq<char>,
        summary: Seq<char>,
        branch: Seq<char>,
    },
    Transitioning { ticket_id: Seq<char>, summary: Seq<char>, branch: Seq<char> },
    Done,
}

impl View for StartWork {
    type V = StartModel;

    open spec fn view(&self) -> StartModel {
        match self {
            StartWork::LoadingConfig { ticket_id } => StartModel::LoadingConfig {
                ticket_id: ticket_id@,
            },
            StartWork::OpeningRepository { ticket_id, settings } => StartModel::OpeningRepository {
                ticket_id: ticket_id@,
                settings: settings@,
            },
            StartWork::ReadingBranch { ticket_id, settings } => StartModel::ReadingBranch {
                ticket_id: ticket_id@,
                settings: settings@,
            },
            StartWork::FetchingTicket { ticket_id, settings } => StartModel::FetchingTicket {
                ticket_id: ticket_id@,
                settings: settings@,
            },
            StartWork::CreatingBranch { ticket_id, transition, summary, branch } => {
                StartModel::CreatingBranch {
                    ticket_id: ticket_id@,
                    transition: transition@,
                    summary: summary@,
                    branch: branch@,
                }
            },
            StartWork::Transitioning { ticket_id, summary, branch } => StartModel::Transitioning {
                ticket_id: ticket_id@,
                summary: summary@,
                branch: branch@,
            },
            StartWork::Done => StartModel::Done,
        }
    }
}

/// The flow is over, with this outcome.
pub open spec fn ended(outcome: OutcomeModel) -> (StartModel, ActionModel) {
    (StartModel::Done, ActionModel::Finish(outcome))
}

/// The flow is given up, for this reason.
pub open spec fn failed(reason: ErrorModel) -> (StartModel, ActionModel) {
    ended(OutcomeModel::Failed(reason))
}

/// The first state of the flow for a ticket, and the action it opens with.
pub open spec fn start_begin(ticket_id: Seq<char>) -> (StartModel, ActionModel) {
    (StartModel::LoadingConfig { ticket_id }, ActionModel::LoadConfig)
}

/// What the flow does with an event: the state it moves to and the action
/// it asks for.
pub open spec fn start_step(state: StartModel, event: EventModel) -> (StartModel, ActionModel) {
    match state {
        StartModel::LoadingConfig { ticket_id } => match event {
            EventModel::ConfigLoaded(settings) => (
                StartModel::OpeningRepository { ticket_id, settings },
                ActionModel::OpenRepository,
            ),
            EventModel::Failed(reason) => failed(reason),
            _ => ended(out_of_turn()),
        },
        StartModel::OpeningRepository { ticket_id, settings } => match event {
            EventModel::RepositoryOpened => (
                StartModel::ReadingBranch { ticket_id, settings },
                ActionModel::ReadCurrentBranch,
            ),
            EventModel::Failed(reason) => failed(reason),
            _ => ended(out_of_turn()),
        },
        StartModel::ReadingBranch { ticket_id, settings } => match event {
            EventModel::CurrentBranch(branch) => if contains(branch, ticket_id) {
                ended(OutcomeModel::AlreadyOnBranch { branch })
            } else {
                (
                    StartModel::FetchingTicket { ticket_id, settings },
                    ActionModel::FetchTicket { ticket_id },
                )
            },
            EventModel::Failed(_) => (
                StartModel::FetchingTicket { ticket_id, settings },
                ActionModel::FetchTicket { ticket_id },
            ),
            _ => ended(out_of_turn()),
        },
        StartModel::FetchingTicket { ticket_id, settings } => match event {
            EventModel::TicketFetched(ticket) => {
                let branch = branch_name(
                    settings.preferences.branch_prefix,
                    ticket_id,
                    lowercased(ticket.fields.summary),
                );
                (
                    StartModel::CreatingBranch {
                        ticket_id,
                        transition: settings.preferences.default_transition,
                        summary: ticket.fields.summary,
                        branch,
                    },
                    ActionModel::CreateBranch { name: branch },
                )
            },
            EventModel::Failed(reason) => failed(reason),
            _ => ended(out_of_turn()),
        },
        StartModel::CreatingBranch { ticket_id, transition, summary, branch } => match event {
            EventModel::BranchCreated => (
                StartModel::Transitioning { ticket_id, summary, branch },
                ActionModel::TransitionTicket { ticket_id, transition },
            ),
            EventModel::Failed(reason) => failed(reason),
            _ => ended(out_of_turn()),
        },
        StartModel::Transitioning { ticket_id, summary, branch } => match event {
            EventModel::TicketTransitioned => ended(
                OutcomeModel::Started { ticket_id, branch, summary, warning: None },
            ),
            EventModel::Failed(reason) => ended(
                OutcomeModel::Started { ticket_id, branch, summary, warning: Some(reason) },
            ),
            _ => ended(out_of_turn()),
        },
        StartModel::Done => ended(out_of_turn()),
    }
}

/// The actions that the flow asks for, one for each event, from `state` on
/// and until it is over.
pub open spec fn start_run(state: StartModel, events: Seq<EventModel>) -> Seq<ActionModel>
    decreases events.len(),
{
    if events.len() == 0 || state is Done {
        Seq::empty()
    } else {
        seq![start_step(state, events[0]).1] + start_run(
            start_step(state, events[0]).0,
            events.drop_first(),
        )
    }
}

/// The rank of the action whose answer a state waits for.
pub open spec fn start_pending(state: StartModel) -> int {
    match state {
        StartModel::LoadingConfig { .. } => 0,
        StartModel::OpeningRepository { .. } => 1,
        StartModel::ReadingBranch { .. } => 3,
        StartModel::FetchingTicket { .. } => 5,
        StartModel::CreatingBranch { .. } => 6,
        StartModel::Transitioning { .. } => 7,
        StartModel::Done => 8,
    }
}

/// The whole conversation of a flow for a ticket: the action it opens with
/// and the actions it answers the events with.
pub open spec fn start_conversation(ticket_id: Seq<char>, events: Seq<EventModel>) -> Seq<
    ActionModel,
> {
    seq![start_begin(ticket_id).1] + start_run(start_begin(ticket_id).0, events)
}

/// One step moves the flow forward: the action it asks for comes later in
/// the order than the one it had asked for, and it is the one whose answer
/// the next state waits for.
pub proof fn lemma_start_step_advances(state: StartModel, event: EventModel)
    requires
        !(state is Done),
    ensures
        rank(start_step(state, event).1) > start_pending(state),
        rank(start_step(state, event).1) == start_pending(start_step(state, event).0),
        start_step(state, event).0 is Done <==> start_step(state, event).1 is Finish,
{
}

/// A flow asks for its actions in their fixed order, whatever events it is
/// handed: later actions have a higher rank. So it asks for no action
/// twice, and for nothing after it has finished.
pub proof fn lemma_start_in_order(state: StartModel, events: Seq<EventModel>)
    ensures
        forall|i: int|
            0 <= i < start_run(state, events).len() ==> rank(
                #[trigger] start_run(state, events)[i],
            ) > start_pending(state),
        forall|i: int, j: int|
            0 <= i < j < start_run(state, events).len() ==> rank(
                #[trigger] start_run(state, events)[i],
            ) < rank(#[trigger] start_run(state, events)[j]),
    decreases events.len(),
{
    if events.len() == 0 || state is Done {
    } else {
        let next = start_step(state, events[0]).0;
        let action = start_step(state, events[0]).1;
        let later = start_run(next, events.drop_first());
        lemma_start_step_advances(state, events[0]);
        lemma_start_in_order(next, events.drop_first());
        let run = start_run(state, events);
        assert(run =~= seq![action] + later);
        assert forall|i: int| 0 <= i < run.len() implies rank(#[trigger] run[i]) > start_pending(
            state,
        ) by {
            if i > 0 {
                assert(run[i] == later[i - 1]);
            }
        }
        assert forall|i: int, j: int| 0 <= i < j < run.len() implies rank(#[trigger] run[i])
            < rank(#[trigger] run[j]) by {
            assert(run[j] == later[j - 1]);
            if i > 0 {
                assert(run[i] == later[i - 1]);
            }
        }
    }
}

/// The same of the whole conversation, opening action included.
pub proof fn lemma_start_conversation_in_order(ticket_id: Seq<char>, events: Seq<EventModel>)
    ensures
        forall|i: int, j: int|
            0 <= i < j < start_conversation(ticket_id, events).len() ==> rank(
                #[trigger] start_conversation(ticket_id, events)[i],
            ) < rank(#[trigger] start_conversation(ticket_id, events)[j]),
{
    let all = start_conversation(ticket_id, events);
    let later = start_run(start_begin(ticket_id).0, events);
    lemma_start_in_order(start_begin(ticket_id).0, events);
    assert forall|i: int, j: int| 0 <= i < j < all.len() implies rank(#[trigger] all[i]) < rank(
        #[trigger] all[j],
    ) by {
        assert(all[j] == later[j - 1]);
        if i > 0 {
            assert(all[i] == later[i - 1]);
        }
    }
}

/// Starting work twice does nothing the second time. When the branch that
/// is checked out holds the ticket's identifier, or carries it by the
/// naming convention, the flow ends at once with
/// [`OutcomeModel::AlreadyOnBranch`]: it asks neither for the ticket, nor
/// for a branch, nor for a change of status, whatever events follow.
pub proof fn lemma_start_is_idempotent(
    ticket_id: Seq<char>,
    settings: SettingsModel,
    branch: Seq<char>,
    more: Seq<EventModel>,
)
    requires
        contains(branch, ticket_id) || ticket_in_branch(branch) == Some(ticket_id),
    ensures
        start_conversation(
            ticket_id,
            seq![
                EventModel::ConfigLoaded(settings),
                EventModel::RepositoryOpened,
                EventModel::CurrentBranch(branch),
            ] + more,
        ) == seq![
            ActionModel::LoadConfig,
            ActionModel::OpenRepository,
            ActionModel::ReadCurrentBranch,
            ActionModel::Finish(OutcomeModel::AlreadyOnBranch { branch }),
        ],
{
    crate::branch::lemma_ticket_in_branch(branch);
    let events = seq![
        EventModel::ConfigLoaded(settings),
        EventModel::RepositoryOpened,
        EventModel::CurrentBranch(branch),
    ] + more;
    let s0 = start_begin(ticket_id).0;
    let s1 = start_step(s0, events[0]).0;
    let s2 = start_step(s1, events[1]).0;
    let s3 = start_step(s2, events[2]).0;
    let e1 = events.drop_first();
    let e2 = e1.drop_first();
    let e3 = e2.drop_first();
    assert(e1[0] == events[1]);
    assert(e2[0] == events[2]);
    assert(s3 is Done);
    assert(start_run(s3, e3) =~= Seq::empty());
    assert(start_run(s2, e2) =~= seq![start_step(s2, events[2]).1]);
    assert(start_run(s1, e1) =~= seq![
        start_step(s1, events[1]).1,
        start_step(s2, events[2]).1,
    ]);
    assert(start_conversation(ticket_id, events) =~= seq![
        ActionModel::LoadConfig,
        ActionModel::OpenRepository,
        ActionModel::ReadCurrentBranch,
        ActionModel::Finish(OutcomeModel::AlreadyOnBranch { branch }),
    ]);
}

/// A flow asks for every action at most once: no two actions of one
/// conversation have the same rank, so none is tried again.
pub proof fn lemma_start_asks_once(ticket_id: Seq<char>, events: Seq<EventModel>)
    ensures
        forall|i: int, j: int|
            0 <= i < start_conversation(ticket_id, events).len() && 0 <= j < start_conversation(
                ticket_id, events,
            ).len() && i != j ==> rank(#[trigger] start_conversation(ticket_id, events)[i]) != rank(
                #[trigger] start_conversation(ticket_id, events)[j],
            ),
{
    lemma_start_conversation_in_order(ticket_id, events);
    let all = start_conversation(ticket_id, events);
    assert forall|i: int, j: int| 0 <= i < all.len() && 0 <= j < all.len() && i != j implies rank(
        #[trigger] all[i],
    ) != rank(#[trigger] all[j]) by {
        if i < j {
            assert(rank(all[i]) < rank(all[j]));
        } else {
            assert(rank(all[j]) < rank(all[i]));
        }
    }
}

/// A failure of any step before the change of status ends the flow with
/// that failure, except that a branch name that cannot be read is passed
/// over. Nothing is asked for afterwards.
pub proof fn lemma_start_failure_is_fatal(
    state: StartModel,
    reason: ErrorModel,
    more: Seq<EventModel>,
)
    requires
        state is LoadingConfig || state is OpeningRepository || state is FetchingTicket
            || state is CreatingBranch,
    ensures
        start_run(state, seq![EventModel::Failed(reason)] + more) == seq![
            ActionModel::Finish(OutcomeModel::Failed(reason)),
        ],
{
    let events = seq![EventModel::Failed(reason)] + more;
    assert(start_run(StartModel::Done, events.drop_first()) =~= Seq::empty());
}

/// The change of status is tried once and never ends the flow in failure:
/// the flow reports the started work either way, with the failure as a
/// warning.
pub proof fn lemma_start_tail_is_not_fatal(
    ticket_id: Seq<char>,
    summary: Seq<char>,
    branch: Seq<char>,
    reason: ErrorModel,
)
    ensures
        start_step(
            StartModel::Transitioning { ticket_id, summary, branch },
            EventModel::Failed(reason),
        ) == ended(OutcomeModel::Started { ticket_id, branch, summary, warning: Some(reason) }),
        start_step(
            StartModel::Transitioning { ticket_id, summary, branch },
            EventModel::TicketTransitioned,
        ) == ended(OutcomeModel::Started { ticket_id, branch, summary, warning: None }),
{
}

/// Ends the flow with an outcome.
fn finish(outcome: WorkflowOutcome) -> (res: (StartWork, Action))
    ensures
        (res.0@, res.1@) == ended(outcome@),
{
    (StartWork::Done, Action::Finish(outcome))
}

impl StartWork {
    /// Opens the flow for a ticket.
    pub fn begin(ticket_id: &str) -> (res: (StartWork, Action))
        ensures
            (res.0@, res.1@) == start_begin(ticket_id@),
    {
        (StartWork::LoadingConfig { ticket_id: String::from_str(ticket_id) }, Action::LoadConfig)
    }

    /// Whether the flow is over.
    pub fn is_done(&self) -> (done: bool)
        ensures
            done == (self@ is Done),
    {
        match self {
            StartWork::Done => true,
            _ => false,
        }
    }

    /// Takes the answer to the action that was asked for last, and says what
    /// comes next.
    pub fn step(self, event: Event) -> (res: (StartWork, Action))
        ensures
            (res.0@, res.1@) == start_step(self@, event@),
    {
        match self {
            StartWork::LoadingConfig { ticket_id } => match event {
                Event::ConfigLoaded(settings) => (
                    StartWork::OpeningRepository { ticket_id, settings },
                    Action::OpenRepository,
                ),
                Event::Failed(reason) => finish(WorkflowOutcome::Failed(reason)),
                _ => finish(give_up_out_of_turn()),
            },
            StartWork::OpeningRepository { ticket_id, settings } => match event {
                Event::RepositoryOpened => (
                    StartWork::ReadingBranch { ticket_id, settings },
                    Action::ReadCurrentBranch,
                ),
                Event::Failed(reason) => finish(WorkflowOutcome::Failed(reason)),
                _ => finish(give_up_out_of_turn()),
            },
            StartWork::ReadingBranch { ticket_id, settings } => match event {
                Event::CurrentBranch(branch) => {
                    let here = chars_of(branch.as_str());
                    let wanted = chars_of(ticket_id.as_str());
                    if has_substring(&here, &wanted) {
                        finish(WorkflowOutcome::AlreadyOnBranch { branch })
                    } else {
                        let asked = ticket_id.clone();
                        (
                            StartWork::FetchingTicket { ticket_id, settings },
                            Action::FetchTicket { ticket_id: asked },
                        )
                    }
                },
                Event::Failed(_) => {
                    let asked = ticket_id.clone();
                    (
                        StartWork::FetchingTicket { ticket_id, settings },
                        Action::FetchTicket { ticket_id: asked },
                    )
                },
                _ => finish(give_up_out_of_turn()),
            },
            StartWork::FetchingTicket { ticket_id, settings } => match event {
                Event::TicketFetched(ticket) => {
                    let branch = format_branch_name(
                        settings.preferences.branch_prefix.as_str(),
                        ticket_id.as_str(),
                        ticket.fields.summary.as_str(),
                    );
                    let name = branch.clone();
                    (
                        StartWork::CreatingBranch {
                            ticket_id,
                            transition: settings.preferences.default_transition,
                            summary: ticket.fields.summary,
                            branch,
                        },
                        Action::CreateBranch { name },
                    )
                },
                Event::Failed(reason) => finish(WorkflowOutcome::Failed(reason)),
                _ => finish(give_up_out_of_turn()),
            },
            StartWork::CreatingBranch { ticket_id, transition, summary, branch } => match event {
                Event::BranchCreated => {
                    let asked = ticket_id.clone();
                    (
                        StartWork::Transitioning { ticket_id, summary, branch },
                        Action::TransitionTicket { ticket_id: asked, transition },
                    )
                },
                Event::Failed(reason) => finish(WorkflowOutcome::Failed(reason)),
                _ => finish(give_up_out_of_turn()),
            },
            StartWork::Transitioning { ticket_id, summary, branch } => match event {
                Event::TicketTransitioned => finish(
                    WorkflowOutcome::Started { ticket_id, branch, summary, warning: None },
                ),
                Event::Failed(reason) => finish(
                    WorkflowOutcome::Started { ticket_id, branch, summary, warning: Some(reason) },
                ),
                _ => finish(give_up_out_of_turn()),
            },
            StartWork::Done => finish(give_up_out_of_turn()),
        }
    }
}

} // verus!
