//! Polls: the rules of a small voting service.
//!
//! Polls are created with a list of options, clients vote for an option
//! while the poll is open, and a poll can be ended once. Every vote and
//! every end of a poll is announced to the socket room named after the poll.
//! Storage, HTTP and sockets are the application's business; this crate
//! decides what each request does and what it answers.

pub mod text;
pub mod model;
pub mod clock;
pub mod controller;
pub mod status;
pub mod routes;
pub mod socket;
pub mod config;
pub mod laws;
