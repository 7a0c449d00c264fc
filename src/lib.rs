//! Registration of users for a crowdsourcing platform: validated identity
//! values, a uniqueness-enforcing user store, the create-user service with its
//! notification port, and the mapping of outcomes to API responses.

pub mod text;
pub mod user;
pub mod email;
pub mod http;
pub mod ids;
pub mod notifiers;
pub mod ports;
pub mod service;
pub mod storage;
pub mod store;
