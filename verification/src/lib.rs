pub mod domain;
pub mod email_client;
pub mod routes;
pub mod store;
