//! The records that the tracker hands out.

pub mod ticket;
