//! A volatile directory of user accounts with credential-based
//! authentication.
//!
//! The directory is an ordered collection of [`types::User`] records.
//! [`retrieve`] queries it, [`mutate`] changes it, and [`auth`] builds
//! registration and login on top of both. Every function has a contract over
//! the mathematical view of the directory, a sequence of [`types::UserView`]
//! values in insertion order, which [`model`] describes; [`laws`] proves what
//! holds across several operations.
//!
//! Three things are computed by other crates and believed rather than
//! proved: the random number of a new identifier (in [`mutate`]), SHA-256
//! digests and HMAC-SHA256 token signing (both in [`crypto`]).

pub mod auth;
pub mod crypto;
pub mod laws;
pub mod model;
pub mod mutate;
pub mod retrieve;
pub mod types;
