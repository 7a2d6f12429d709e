//! Logging in to a registry: where the credentials for the registry
//! requests come from.
use vstd::prelude::*;
use crate::text::{trim, trim_white};

verus! {

/// Component to login to a registry; reads a token from a file in the work
/// directory.
pub struct Login;

/// Plugin to handle signing into azure.
pub struct LoginACR;

/// Plugin that handles setting up the registry credentials for nydus.
pub struct LoginNydus;

impl Login {
    /// Login is skipped when a user name and a password are already set.
    pub fn skips(has_password: bool, has_user: bool) -> (b: bool)
        ensures
            b == (has_password && has_user),
    {
        has_password && has_user
    }

    /// The credentials written to state for a token read at login: the
    /// refresh-token user name and the token without surrounding whitespace.
    pub fn credentials(token: &str) -> (c: (String, String))
        ensures
            c.0@ == crate::proxy::auth::token_user(),
            c.1@ == trim_white(token@),
    {
        (String::from_str("00000000-0000-0000-0000-000000000000"), trim(token))
    }
}

impl LoginACR {
    /// The process that fetches the credentials: the admin login script when
    /// `admin` is set, the access token script otherwise.
    pub fn login_process(admin: bool) -> (p: &'static str)
        ensures
            p@ == (if admin {
                "sh login-acr-admin.sh"@
            } else {
                "sh login-acr.sh"@
            }),
    {
        if admin {
            "sh login-acr-admin.sh"
        } else {
            "sh login-acr.sh"
        }
    }
}

impl LoginNydus {
    /// The symbol that holds the user name for `registry`.
    pub fn username_symbol(registry: &str) -> (s: String)
        ensures
            s@ == registry@ + ".username"@,
    {
        crate::text::cat(registry, ".username")
    }
}

} // verus!
