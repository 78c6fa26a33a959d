//! Eligibility rules for registering sports teams of ticket holders.
//!
//! The crate decides; it never talks to a database or a socket. Whoever drives
//! it runs the queries it asks for and hands the rows back as plain values.

pub mod attendee;
pub mod checks;
pub mod config;
pub mod creation;
pub mod defs;
pub mod responses;
pub mod team;
pub mod text;
