//! A ticket as the tracker describes it.

use vstd::prelude::*;

verus! {

/// A ticket: its identifier and its fields.
#[derive(Debug, PartialEq, Eq)]
pub struct JiraTicket {
    pub key: String,
    pub fields: TicketFields,
}

/// The fields of a ticket that the flows read.
#[derive(Debug, PartialEq, Eq)]
pub struct TicketFields {
    pub summary: String,
    pub description: Option<String>,
    pub status: Status,
    pub assignee: Option<User>,
}

/// The state a ticket is in, by name.
#[derive(Debug, PartialEq, Eq)]
pub struct Status {
    pub name: String,
}

/// A user of the tracker.
#[derive(Debug, PartialEq, Eq)]
pub struct User {
    pub display_name: String,
}

/// The model of a [`Status`].
pub struct StatusModel {
    pub name: Seq<char>,
}

/// The model of a [`User`].
pub struct UserModel {
    pub display_name: Seq<char>,
}

/// The model of a [`TicketFields`].
pub struct TicketFieldsModel {
    pub summary: Seq<char>,
    pub description: Option<Seq<char>>,
    pub status: StatusModel,
    pub assignee: Option<UserModel>,
}

/// The model of a [`JiraTicket`].
pub struct JiraTicketModel {
    pub key: Seq<char>,
    pub fields: TicketFieldsModel,
}

impl View for Status {
    type V = StatusModel;

    open spec fn view(&self) -> StatusModel {
        StatusModel { name: self.name@ }
    }
}

impl View for User {
    type V = UserModel;

    open spec fn view(&self) -> UserModel {
        UserModel { display_name: self.display_name@ }
    }
}

impl View for TicketFields {
    type V = TicketFieldsModel;

    open spec fn view(&self) -> TicketFieldsModel {
        TicketFieldsModel {
            summary: self.summary@,
            description: match self.description {
                Some(text) => Some(text@),
                None => None,
            },
            status: self.status@,
            assignee: match self.assignee {
                Some(user) => Some(user@),
                None => None,
            },
        }
    }
}

impl View for JiraTicket {
    type V = JiraTicketModel;

    open spec fn view(&self) -> JiraTicketModel {
        JiraTicketModel { key: self.key@, fields: self.fields@ }
    }
}

impl Clone for Status {
    fn clone(&self) -> (res: Self)
        ensures
            res@ == self@,
    {
        Status { name: self.name.clone() }
    }
}

impl Clone for User {
    fn clone(&self) -> (res: Self)
        ensures
            res@ == self@,
    {
        User { display_name: self.display_name.clone() }
    }
}

impl Clone for TicketFields {
    fn clone(&self) -> (res: Self)
        ensures
            res@ == self@,
    {
        TicketFields {
            summary: self.summary.clone(),
            description: match &self.description {
                Some(text) => Some(text.clone()),
                None => None,
            },
            status: self.status.clone(),
            assignee: match &self.assignee {
                Some(user) => Some(user.clone()),
                None => None,
            },
        }
    }
}

impl Clone for JiraTicket {
    fn clone(&self) -> (res: Self)
        ensures
            res@ == self@,
    {
        JiraTicket { key: self.key.clone(), fields: self.fields.clone() }
    }
}

/// The stage of work that a status stands for, by its name.
#[derive(Debug, Clone, Copy, PartialEq, Eq, Structural)]
pub enum Stage {
    Waiting,
    Active,
    InReview,
    Closed,
    Other,
}

/// The stage that a status of this name stands for.
pub open spec fn stage_named(name: Seq<char>) -> Stage {
    if name == "In Progress"@ {
        Stage::Active
    } else if name == "To Do"@ {
        Stage::Waiting
    } else if name == "In Review"@ || name == "Code Review"@ {
        Stage::InReview
    } else if name == "Done"@ {
        Stage::Closed
    } else {
        Stage::Other
    }
}

/// A ticket in one line, for a list to choose from.
pub open spec fn choice_text(ticket: JiraTicketModel) -> Seq<char> {
    ticket.key + " ["@ + ticket.fields.status.name + "] "@ + ticket.fields.summary
}

/// Whether a list of `count` tickets may be cut short by the limit that
/// was asked for.
pub open spec fn may_be_cut(count: usize, limit: u32) -> bool {
    count == limit
}

impl Status {
    /// The stage of work that the status stands for.
    pub fn stage(&self) -> (stage: Stage)
        ensures
            stage == stage_named(self@.name),
    {
        if self.name == String::from_str("In Progress") {
            Stage::Active
        } else if self.name == String::from_str("To Do") {
            Stage::Waiting
        } else if self.name == String::from_str("In Review") || self.name == String::from_str(
            "Code Review",
        ) {
            Stage::InReview
        } else if self.name == String::from_str("Done") {
            Stage::Closed
        } else {
            Stage::Other
        }
    }
}

impl JiraTicket {
    /// The ticket in one line, for a list to choose from.
    pub fn choice_label(&self) -> (label: String)
        ensures
            label@ == choice_text(self@),
    {
        let mut label = self.key.clone();
        label.append(" [");
        label.append(self.fields.status.name.as_str());
        label.append("] ");
        label.append(self.fields.summary.as_str());
        label
    }
}

/// Whether a list of `count` tickets may be cut short by the limit that
/// was asked for.
pub fn reached_limit(count: usize, limit: u32) -> (res: bool)
    ensures
        res == may_be_cut(count, limit),
{
    count as u64 == limit as u64
}

} // verus!
