//! The registry proxy: its request and response types, the decisions of
//! its handlers, and the upstream targets it forwards to.
pub mod auth;
pub mod config;
pub mod login;
pub mod proxy_target;
pub mod methods;
pub mod resources;
pub mod proxy_route;
pub mod tags;
