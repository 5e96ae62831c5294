//! The repository: how its references are named, and how what it reports
//! is put into words.

use crate::errors::{DevFlowError, ErrorModel};
use vstd::prelude::*;

verus! {

/// The remote that branches are pushed to.
pub const REMOTE: &'static str = "origin";

/// How one entry of the working tree differs from what is committed, as
/// far as a summary shows it.
#[derive(Debug, Clone, Copy, PartialEq, Eq, Structural)]
pub enum Change {
    Modified,
    Added,
    Deleted,
}

/// What the repository reports of one entry of the working tree.
#[derive(Debug, PartialEq, Eq)]
pub struct StatusEntry {
    pub modified: bool,
    pub added: bool,
    pub deleted: bool,
    pub path: Option<String>,
}

/// One line of a summary: a path and how it changed.
#[derive(Debug, PartialEq, Eq)]
pub struct ChangedPath {
    pub change: Change,
    pub path: String,
}

/// What a summary says of a working tree without entries.
pub const CLEAN: &'static str = "  Working directory clean";

/// The full name of a branch's reference.
pub open spec fn branch_ref(branch: Seq<char>) -> Seq<char> {
    "refs/heads/"@ + branch
}

/// What tells a push to update a branch on the remote from the branch of
/// the same name.
pub open spec fn push_refspec(branch: Seq<char>) -> Seq<char> {
    branch_ref(branch) + ":"@ + branch_ref(branch)
}

/// The change that an entry shows in a summary: modified before added,
/// added before deleted, or none.
pub open spec fn shown_change(modified: bool, added: bool, deleted: bool) -> Option<Change> {
    if modified {
        Some(Change::Modified)
    } else if added {
        Some(Change::Added)
    } else if deleted {
        Some(Change::Deleted)
    } else {
        None
    }
}

/// The letter that stands for a change.
pub open spec fn change_letter(change: Change) -> Seq<char> {
    match change {
        Change::Modified => "M"@,
        Change::Added => "A"@,
        Change::Deleted => "D"@,
    }
}

/// The path of an entry, or `unknown` when it cannot be read as text.
pub open spec fn shown_path(path: Option<String>) -> Seq<char> {
    match path {
        Some(p) => p@,
        None => "unknown"@,
    }
}

/// The name of the branch that is checked out, from what the repository
/// reports of its head: whether it is a branch, and its short name.
pub open spec fn head_branch(is_branch: bool, shorthand: Option<String>) -> Result<
    Seq<char>,
    ErrorModel,
> {
    if !is_branch {
        Err(ErrorModel::Other("Not currently on a branch (detached HEAD state)"@))
    } else {
        match shorthand {
            Some(name) => Ok(name@),
            None => Err(ErrorModel::Other("Branch name contains invalid UTF-8"@)),
        }
    }
}

/// The lines of a summary: one for each entry that shows a change, in
/// order, with the change and the path.
pub open spec fn shown_entries(entries: Seq<StatusEntry>) -> Seq<(Change, Seq<char>)>
    decreases entries.len(),
{
    if entries.len() == 0 {
        Seq::empty()
    } else {
        let before = shown_entries(entries.drop_last());
        let entry = entries.last();
        match shown_change(entry.modified, entry.added, entry.deleted) {
            Some(change) => before.push((change, shown_path(entry.path))),
            None => before,
        }
    }
}

/// The model of the lines of a summary.
pub open spec fn lines_model(lines: Seq<ChangedPath>) -> Seq<(Change, Seq<char>)> {
    lines.map_values(|line: ChangedPath| (line.change, line.path@))
}

/// The full name of a branch's reference.
pub fn branch_ref_name(branch: &str) -> (name: String)
    ensures
        name@ == branch_ref(branch@),
{
    let mut name = String::from_str("refs/heads/");
    name.append(branch);
    name
}

/// What tells a push to update a branch on the remote from the branch of
/// the same name.
pub fn refspec(branch: &str) -> (pair: String)
    ensures
        pair@ == push_refspec(branch@),
{
    let name = branch_ref_name(branch);
    let mut pair = branch_ref_name(branch);
    pair.append(":");
    pair.append(name.as_str());
    pair
}

/// The letter that stands for a change.
pub fn letter(change: Change) -> (res: &'static str)
    ensures
        res@ == change_letter(change),
{
    match change {
        Change::Modified => "M",
        Change::Added => "A",
        Change::Deleted => "D",
    }
}

impl StatusEntry {
    /// The change that the entry shows in a summary, if any.
    pub fn change(&self) -> (change: Option<Change>)
        ensures
            change == shown_change(self.modified, self.added, self.deleted),
    {
        if self.modified {
            Some(Change::Modified)
        } else if self.added {
            Some(Change::Added)
        } else if self.deleted {
            Some(Change::Deleted)
        } else {
            None
        }
    }

    /// The path of the entry as a summary shows it.
    pub fn path_text(&self) -> (text: String)
        ensures
            text@ == shown_path(self.path),
    {
        match &self.path {
            Some(p) => p.clone(),
            None => String::from_str("unknown"),
        }
    }
}

/// The lines of a summary of the working tree. Entries that show no change
/// give no line.
pub fn summary_lines(entries: &Vec<StatusEntry>) -> (lines: Vec<ChangedPath>)
    ensures
        lines_model(lines@) == shown_entries(entries@),
{
    let mut lines: Vec<ChangedPath> = Vec::new();
    let mut i: usize = 0;
    proof {
        assert(entries@.take(0) =~= Seq::empty());
        assert(lines_model(lines@) =~= Seq::empty());
    }
    while i < entries.len()
        invariant
            0 <= i <= entries.len(),
            lines_model(lines@) == shown_entries(entries@.take(i as int)),
        decreases entries.len() - i,
    {
        proof {
            assert(entries@.take(i + 1).drop_last() =~= entries@.take(i as int));
            assert(entries@.take(i + 1).last() == entries@[i as int]);
        }
        match entries[i].change() {
            Some(change) => {
                let line = ChangedPath { change, path: entries[i].path_text() };
                proof {
                    assert(lines_model(lines@.push(line)) =~= lines_model(lines@).push(
                        (line.change, line.path@),
                    ));
                }
                lines.push(line);
            },
            None => {},
        }
        i += 1;
    }
    proof {
        assert(entries@.take(i as int) =~= entries@);
    }
    lines
}

/// The name of the branch that is checked out, from what the repository
/// reports of its head.
pub fn current_branch_name(is_branch: bool, shorthand: Option<String>) -> (res: Result<
    String,
    DevFlowError,
>)
    ensures
        match res {
            Ok(name) => head_branch(is_branch, shorthand) == Ok::<Seq<char>, ErrorModel>(name@),
            Err(reason) => head_branch(is_branch, shorthand) == Err::<Seq<char>, ErrorModel>(
                reason@,
            ),
        },
{
    if !is_branch {
        Err(
            DevFlowError::Other(
                String::from_str("Not currently on a branch (detached HEAD state)"),
            ),
        )
    } else {
        match shorthand {
            Some(name) => Ok(name),
            None => Err(DevFlowError::Other(String::from_str("Branch name contains invalid UTF-8"))),
        }
    }
}

/// What a failed push stands for: the network, when the remote could not
/// be reached; a refusal otherwise.
pub open spec fn failed_push(network: bool, cause: Seq<char>) -> ErrorModel {
    if network {
        ErrorModel::NetworkError(cause)
    } else {
        ErrorModel::NoPushAccess(cause)
    }
}

/// What a branch that could not be created stands for: a branch of that
/// name, when one exists; some other failure otherwise.
pub open spec fn failed_branch(exists: bool, branch: Seq<char>, cause: Seq<char>) -> ErrorModel {
    if exists {
        ErrorModel::BranchAlreadyExists(branch)
    } else {
        ErrorModel::Other("Failed to create branch '"@ + branch + "': "@ + cause)
    }
}

/// The failure that a failed push stands for.
pub fn push_failure(network: bool, cause: &str) -> (reason: DevFlowError)
    ensures
        reason@ == failed_push(network, cause@),
{
    if network {
        DevFlowError::NetworkError(String::from_str(cause))
    } else {
        DevFlowError::NoPushAccess(String::from_str(cause))
    }
}

/// The failure that a branch which could not be created stands for.
pub fn branch_failure(exists: bool, branch: &str, cause: &str) -> (reason: DevFlowError)
    ensures
        reason@ == failed_branch(exists, branch@, cause@),
{
    if exists {
        DevFlowError::BranchAlreadyExists(String::from_str(branch))
    } else {
        let mut text = String::from_str("Failed to create branch '");
        text.append(branch);
        text.append("': ");
        text.append(cause);
        DevFlowError::Other(text)
    }
}

/// A failure of the repository, with what was being done when it happened.
pub fn git_failure(doing: &str, cause: &str) -> (reason: DevFlowError)
    ensures
        reason@ == ErrorModel::Other(doing@ + ": "@ + cause@),
{
    let mut text = String::from_str(doing);
    text.append(": ");
    text.append(cause);
    DevFlowError::Other(text)
}

} // verus!
