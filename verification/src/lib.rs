//! Account authentication and session issuance.
//!
//! The crate holds the rules of an account subsystem: how a password is
//! hashed and checked, how a session token is built and read back, what a
//! table of accounts must keep unique, and how registration, login and
//! profile update decide their outcome. Every rule is stated as a contract
//! and proved.

pub mod account;
pub mod api;
pub mod error;
pub mod gql;
pub mod hex;
pub mod laws;
pub mod password;
pub mod rest;
pub mod service;
pub mod state;
pub mod store;
pub mod token;
