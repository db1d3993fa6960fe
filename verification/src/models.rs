//! The computing side of the database models: SQL text and parameters,
//! page windows, defaults, and the decisions taken between statements.
pub mod query;
pub mod machine_users;
pub mod versions;
pub mod gray_releases;
pub mod apikey;
pub mod admin;
pub mod machine_tags;
pub mod gray_resources;
pub mod batch;
pub mod maintenance;
