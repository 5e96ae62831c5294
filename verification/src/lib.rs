//! The core of a command-line assistant that ties a ticket in an issue
//! tracker to a branch in a repository and to a review request on a code
//! host.
//!
//! - [`branch`] holds the naming convention: how a branch name is made
//!   from a ticket, and how the ticket is read back from a branch name.
//! - [`workflow`] holds the two flows, start work and finish work, as step
//!   functions: they decide what is done next and never do it themselves.
//! - [`api`], [`links`], [`jql`], [`commit`] and [`report`] say what is
//!   sent to the outside world and how its answers are read and told.
//! - [`config`], [`models`] and [`errors`] hold the records that the rest
//!   works on.
//! - [`text`] holds the character-level primitives under all of this.
//!
//! Nothing in this crate reads a file, opens a connection or prints.
//! Every function states what it returns over the model of its arguments.

pub mod api;
pub mod branch;
pub mod commit;
pub mod config;
pub mod errors;
pub mod jql;
pub mod links;
pub mod models;
pub mod report;
pub mod text;
pub mod workflow;
