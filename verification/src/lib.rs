//! Verified core of the blog service: request validation, token issuing and
//! checking, password hashing, the decisions of the authentication and blog
//! services, query building for the post and user stores, and the helpers of
//! the HTTP and gRPC front ends and of the clients.
use vstd::prelude::*;

pub mod text;
pub mod jwt;
pub mod domain;
pub mod dto;
pub mod password;
pub mod data;
pub mod application;
pub mod presentation;
pub mod client;
pub mod web_app;

verus! {

} // verus!
