//! What the three web services have in common.

use vstd::prelude::*;

verus! {

/// A status in the range that means success.
pub open spec fn is_success(status: u16) -> bool {
    200 <= status < 300
}

/// The text that reports a refused request: the service's name, the status
/// as the service put it, and the body of its answer.
pub open spec fn failure_text(name: Seq<char>, status_text: Seq<char>, body: Seq<char>) -> Seq<
    char,
> {
    name + " ("@ + status_text + "): "@ + body
}

/// The value of an `Authorization` header that carries a bearer token.
pub open spec fn bearer_text(token: Seq<char>) -> Seq<char> {
    "Bearer "@ + token
}

/// One header of a request.
#[derive(Debug, PartialEq, Eq)]
pub struct Header {
    pub name: String,
    pub value: String,
}

/// The model of a [`Header`]: its name and its value.
pub open spec fn header_model(header: Header) -> (Seq<char>, Seq<char>) {
    (header.name@, header.value@)
}

/// Whether a status means success.
pub fn succeeded(status: u16) -> (res: bool)
    ensures
        res == is_success(status),
{
    200 <= status && status < 300
}

/// The text that reports a refused request.
pub fn failure_message(name: &str, status_text: &str, body: &str) -> (text: String)
    ensures
        text@ == failure_text(name@, status_text@, body@),
{
    let mut text = String::from_str(name);
    text.append(" (");
    text.append(status_text);
    text.append("): ");
    text.append(body);
    text
}

/// The value of an `Authorization` header that carries a bearer token.
pub fn bearer(token: &str) -> (value: String)
    ensures
        value@ == bearer_text(token@),
{
    let mut value = String::from_str("Bearer ");
    value.append(token);
    value
}

/// A header with the given name and value.
pub fn header(name: &str, value: &str) -> (res: Header)
    ensures
        header_model(res) == (name@, value@),
{
    Header { name: String::from_str(name), value: String::from_str(value) }
}

} // verus!
