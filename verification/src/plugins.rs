//! The runtime plugins of the registry mirror: the decisions each one makes
//! about the registry requests it handles.
pub mod authenticate;
pub mod artifact;
pub mod discover;
pub mod login;
pub mod resolve;
pub mod import;
pub mod guest;
pub mod mirror;
pub mod store;
pub mod teleport;
