//! Client-side extensions for container registries: a mirror/proxy that
//! rewrites registry requests, configures containerd hosts and resolves
//! streamable image formats.
use vstd::prelude::*;

pub mod text;
pub mod error;
pub mod consts;
pub mod hosts_config;
pub mod http;
pub mod proxy;
pub mod plugins;
pub mod object;
pub mod content;
pub mod lexers;
pub mod resolve;
pub mod push_session;
pub mod upload;
pub mod teleport;

verus! {

} // verus!
