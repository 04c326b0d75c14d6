//! Identity and authorization core of a small multi-user note service.
//!
//! Users register through an invitation that is confirmed by email, sign in
//! with a password, and read or change notes that are private, public, or
//! shared through membership in a group. The functions here hold the
//! decisions of that service: they take the rows that a request has loaded
//! and say what is answered and which rows are written. Nothing in this crate
//! talks to a database, a mail server or a socket.

pub mod access;
pub mod clock;
pub mod errors;
pub mod ident;
pub mod models;
pub mod routes;
pub mod session;
pub mod store;

