use vstd::prelude::*;

pub mod accounts;
pub mod admin;
pub mod auth;
pub mod billing;
pub mod bindings;
pub mod config;
pub mod delivery;
pub mod error;
pub mod films;
pub mod forms;
pub mod licensing;
pub mod payments;
pub mod platforms;
pub mod manifest;
pub mod media;
pub mod rights;
pub mod text;
pub mod tmdb;
pub mod token;
pub mod transcode;
pub mod workflow;

verus! {
}
