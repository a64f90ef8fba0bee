//! A source for the MangaDex catalog: the shapes of its API, the queries put
//! to it, and the rules by which its answers become protocol responses.

pub mod enums;
pub mod query;
pub mod schema;
pub mod backend;
