//! Request, cache and query logic of the Simprint server: the keys under
//! which local-API data is cached, the SQL text and parameters of the list
//! queries, the decisions of the authentication middlewares, and the data
//! types that travel between the database and the API.
pub mod caches;
pub mod clock;
pub mod dto;
pub mod entitys;
pub mod handlers;
pub mod ids;
pub mod json;
pub mod middlewares;
pub mod models;
pub mod routes;
pub mod text;
