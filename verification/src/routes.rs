//! The route tables: which paths each part of the API serves, by group.
//! The handlers are attached where the server is assembled.
pub mod api;
pub mod events;
pub mod route;
pub mod rpa;
