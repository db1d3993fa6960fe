//! The computing side of the request handlers: what a request needs before
//! the services are called, and how their answers become responses.
pub mod api;
pub mod environments;
pub mod events;
pub mod health;
pub mod reply;
