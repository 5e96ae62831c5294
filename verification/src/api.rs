//! What is said to the tracker, the code hosts and the repository, and how
//! their answers are read. Sending and receiving is left to the caller.

pub mod git;
pub mod github;
pub mod gitlab;
pub mod http;
pub mod jira;
