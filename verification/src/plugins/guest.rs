//! Remote guests of the registry proxy, kept in step through azure storage.
use vstd::prelude::*;
use crate::text::cat;

verus! {

/// Pointer-type that implements a special attribute for configuring a polling rate.
pub struct PollingRate;

/// Plugin that monitors guest state and uploads when changes occur.
pub struct AzureAgent;

/// Plugin to process an azure guest.
pub struct AzureGuest;

/// Plugin to dispatch commands to azure storage.
pub struct AzureDispatcher;

/// Plugin to monitor perf/status data from a remote agent.
pub struct AzureMonitor;

/// Plugin that sets up a remote registry.
pub struct RemoteRegistry;

/// The storage prefix a guest's state is kept under: the workspace path,
/// by default `default_guest`.
pub fn guest_prefix(path: Option<String>) -> (p: String)
    ensures
        p@ == (match path {
            Some(s) => s@,
            None => "default_guest"@,
        }),
{
    match path {
        Some(s) => s,
        None => String::from_str("default_guest"),
    }
}

/// The container that guest commands are exchanged in: the tenant's
/// container with `-guest` appended.
pub fn commands_container(container: &str) -> (c: String)
    ensures
        c@ == container@ + "-guest"@,
{
    cat(container, "-guest")
}

impl AzureGuest {
    /// The process that runs a guest script.
    pub fn script_process(script: &str) -> (p: String)
        ensures
            p@ == "sh "@ + script@,
    {
        cat("sh ", script)
    }
}

impl RemoteRegistry {
    /// The storage account the remote registry uses: the `remote_registry`
    /// value when it is not empty, else the `ACCOUNT_NAME` environment value;
    /// none without a `remote_registry` attribute.
    pub fn account_name(symbol: Option<String>, env: Option<String>) -> (r: Option<String>)
        ensures
            crate::plugins::authenticate::opt_seq_string(r) == (match symbol {
                Some(s) => if s@.len() > 0 {
                    Some(s@)
                } else {
                    crate::plugins::authenticate::opt_seq_string(env)
                },
                None => None,
            }),
    {
        match symbol {
            Some(s) => if s.unicode_len() > 0 {
                Some(s)
            } else {
                env
            },
            None => None,
        }
    }
}

} // verus!
