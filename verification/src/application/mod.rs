//! The authentication and blog services. Each operation is a sequence of
//! store queries with decisions between them; the functions here make the
//! decisions, and name the query to run next or give the answer.
pub mod auth_service;
pub mod blog_service;
