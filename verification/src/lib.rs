//! Request construction and batched-query logic for a client of the GitHub API.
//!
//! The library decides what is sent and what a reply means; it performs no
//! network traffic itself. A caller sends the requests that the library
//! prepares and hands the replies back.

pub mod encoding;
pub mod error;
pub mod graphql;
pub mod header;
pub mod node_id;
pub mod reply;
pub mod request;
pub mod text;
pub mod user;
pub mod usernames;
