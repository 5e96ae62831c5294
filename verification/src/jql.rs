//! The queries that the tool sends to the tracker's search.

use crate::text::join;
use vstd::prelude::*;

verus! {

/// What stands between the clauses of a query.
pub open spec fn and_also() -> Seq<char> {
    " AND "@
}

/// The clause for tickets assigned to whoever asks.
pub open spec fn mine_clause() -> Seq<char> {
    "assignee = currentUser()"@
}

/// The clause for tickets of a project.
pub open spec fn project_clause(project_key: Seq<char>) -> Seq<char> {
    "project = "@ + project_key
}

/// The clause for tickets in a status.
pub open spec fn status_clause(status: Seq<char>) -> Seq<char> {
    "status = \""@ + status + "\""@
}

/// The clause for tickets assigned to someone: `me` stands for whoever asks.
pub open spec fn assignee_clause(assignee: Seq<char>) -> Seq<char> {
    if assignee == "me"@ {
        mine_clause()
    } else {
        "assignee = \""@ + assignee + "\""@
    }
}

/// The clause for tickets whose summary or description holds a text.
pub open spec fn text_clause(query: Seq<char>) -> Seq<char> {
    "(summary ~ \""@ + query + "\" OR description ~ \""@ + query + "\")"@
}

/// The text that may be absent, or another in its place.
pub open spec fn text_or(text: Option<&str>, other: Seq<char>) -> Seq<char> {
    match text {
        Some(t) => t@,
        None => other,
    }
}

/// The clauses with one more, made from a text that may be absent.
pub open spec fn with_clause(
    clauses: Seq<Seq<char>>,
    text: Option<&str>,
    clause: spec_fn(Seq<char>) -> Seq<char>,
) -> Seq<Seq<char>> {
    match text {
        Some(t) => clauses.push(clause(t@)),
        None => clauses,
    }
}

/// The clauses of the query for the tickets assigned to whoever asks.
pub open spec fn list_clauses(
    default_project: Seq<char>,
    project: Option<&str>,
    status: Option<&str>,
) -> Seq<Seq<char>> {
    with_clause(
        seq![mine_clause(), project_clause(text_or(project, default_project))],
        status,
        |s: Seq<char>| status_clause(s),
    )
}

/// The clauses of the query for the tickets that hold a text.
pub open spec fn search_clauses(
    query: Seq<char>,
    default_project: Seq<char>,
    project: Option<&str>,
    assignee: Option<&str>,
    status: Option<&str>,
) -> Seq<Seq<char>> {
    with_clause(
        with_clause(
            seq![text_clause(query), project_clause(text_or(project, default_project))],
            assignee,
            |a: Seq<char>| assignee_clause(a),
        ),
        status,
        |s: Seq<char>| status_clause(s),
    )
}

/// Adds a clause to a query that has at least one clause already.
fn and_clause(jql: &mut String, clause: &str, Ghost(clauses): Ghost<Seq<Seq<char>>>)
    requires
        clauses.len() >= 1,
        old(jql)@ == join(clauses, and_also()),
    ensures
        final(jql)@ == join(clauses.push(clause@), and_also()),
{
    proof {
        assert(clauses.push(clause@).drop_last() =~= clauses);
    }
    jql.append(" AND ");
    jql.append(clause);
}

/// The clause for tickets of a project.
fn project_part(project_key: &str) -> (clause: String)
    ensures
        clause@ == project_clause(project_key@),
{
    let mut clause = String::from_str("project = ");
    clause.append(project_key);
    clause
}

/// The clause for tickets in a status.
fn status_part(status: &str) -> (clause: String)
    ensures
        clause@ == status_clause(status@),
{
    let mut clause = String::from_str("status = \"");
    clause.append(status);
    clause.append("\"");
    clause
}

/// The clause for tickets assigned to someone.
fn assignee_part(assignee: &str) -> (clause: String)
    ensures
        clause@ == assignee_clause(assignee@),
{
    if String::from_str(assignee) == String::from_str("me") {
        String::from_str("assignee = currentUser()")
    } else {
        let mut clause = String::from_str("assignee = \"");
        clause.append(assignee);
        clause.append("\"");
        clause
    }
}

/// The clause for tickets that hold a text.
fn text_part(query: &str) -> (clause: String)
    ensures
        clause@ == text_clause(query@),
{
    let mut clause = String::from_str("(summary ~ \"");
    clause.append(query);
    clause.append("\" OR description ~ \"");
    clause.append(query);
    clause.append("\")");
    clause
}

/// The query for all tickets of a project.
pub fn project_query(project_key: &str) -> (jql: String)
    ensures
        jql@ == project_clause(project_key@),
{
    project_part(project_key)
}

/// The query for the tickets of a project that are assigned to whoever asks.
pub fn assigned_query(project_key: &str) -> (jql: String)
    ensures
        jql@ == join(seq![mine_clause(), project_clause(project_key@)], and_also()),
{
    let mut jql = String::from_str("assignee = currentUser()");
    let project = project_part(project_key);
    proof {
        assert(join(seq![mine_clause()], and_also()) == mine_clause());
    }
    let ghost first = seq![mine_clause()];
    and_clause(&mut jql, project.as_str(), Ghost(first));
    proof {
        assert(seq![mine_clause()].push(project@) =~= seq![
            mine_clause(),
            project_clause(project_key@),
        ]);
    }
    jql
}

/// The query for the tickets assigned to whoever asks: in the given
/// project, or in the default one, and in the given status, if any.
pub fn list_query(default_project: &str, project: Option<&str>, status: Option<&str>) -> (jql:
    String)
    ensures
        jql@ == join(list_clauses(default_project@, project, status), and_also()),
{
    let key = match project {
        Some(p) => p,
        None => default_project,
    };
    let mut jql = assigned_query(key);
    let ghost clauses = seq![mine_clause(), project_clause(key@)];
    match status {
        Some(s) => {
            let clause = status_part(s);
            and_clause(&mut jql, clause.as_str(), Ghost(clauses));
        },
        None => {},
    }
    jql
}

/// The query for the tickets whose summary or description holds a text: in
/// the given project, or in the default one, and of the given assignee and
/// status, if any.
pub fn search_query(
    query: &str,
    default_project: &str,
    project: Option<&str>,
    assignee: Option<&str>,
    status: Option<&str>,
) -> (jql: String)
    ensures
        jql@ == join(
            search_clauses(query@, default_project@, project, assignee, status),
            and_also(),
        ),
{
    let key = match project {
        Some(p) => p,
        None => default_project,
    };
    let mut jql = text_part(query);
    let project_text = project_part(key);
    proof {
        assert(join(seq![text_clause(query@)], and_also()) == text_clause(query@));
    }
    let ghost first = seq![text_clause(query@)];
    and_clause(&mut jql, project_text.as_str(), Ghost(first));
    let ghost mut clauses = seq![text_clause(query@), project_clause(key@)];
    proof {
        assert(seq![text_clause(query@)].push(project_text@) =~= clauses);
    }
    match assignee {
        Some(a) => {
            let clause = assignee_part(a);
            and_clause(&mut jql, clause.as_str(), Ghost(clauses));
            proof {
                clauses = clauses.push(clause@);
            }
        },
        None => {},
    }
    match status {
        Some(s) => {
            let clause = status_part(s);
            and_clause(&mut jql, clause.as_str(), Ghost(clauses));
        },
        None => {},
    }
    jql
}

} // verus!
