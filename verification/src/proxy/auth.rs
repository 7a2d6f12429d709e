//! `/auth`: answering a client with registry credentials.
use vstd::prelude::*;
use crate::http::{STATUS_OK, STATUS_UNAUTHORIZED, is_success_status, is_success};
use crate::error::{Error, ErrorKind};

verus! {

/// Request to authenticate a registry request.
pub struct AuthRequest {
    pub remote_url: String,
}

/// Credentials for one registry host.
pub struct AuthCreds {
    pub username: String,
    pub password: String,
}

/// Credentials by registry host.
pub struct AuthData {
    pub auths: Vec<(String, AuthCreds)>,
}

/// Answer to an auth request.
pub struct AuthResponse {
    pub trace_id: String,
    pub success: bool,
    pub data: Option<AuthData>,
}

/// Model of an [`AuthResponse`]: trace id, success, and the credentials
/// (host, username, password) it carries, if any.
pub struct AuthResponseModel {
    pub trace_id: Seq<char>,
    pub success: bool,
    pub auths: Option<Seq<(Seq<char>, Seq<char>, Seq<char>)>>,
}

impl View for AuthResponse {
    type V = AuthResponseModel;

    open spec fn view(&self) -> AuthResponseModel {
        AuthResponseModel {
            trace_id: self.trace_id@,
            success: self.success,
            auths: match self.data {
                Some(d) => Some(
                    d.auths@.map_values(
                        |e: (String, AuthCreds)| (e.0@, e.1.username@, e.1.password@),
                    ),
                ),
                None => None,
            },
        }
    }
}

/// No host has two entries among the credentials of a response (the
/// credentials are a map from host).
pub open spec fn distinct_hosts(auths: Option<Seq<(Seq<char>, Seq<char>, Seq<char>)>>) -> bool {
    match auths {
        Some(a) => forall|i: int, j: int| 0 <= i < j < a.len() ==> #[trigger] a[i].0 != #[trigger] a[j].0,
        None => true,
    }
}

/// The trace id placeholder every auth response carries.
pub open spec fn trace_placeholder() -> Seq<char> {
    "${trace_id}"@
}

/// The user name that goes with a registry refresh token.
pub open spec fn token_user() -> Seq<char> {
    "00000000-0000-0000-0000-000000000000"@
}

impl AuthResponse {
    /// Returns a failed auth response.
    pub fn unauthorized() -> (r: AuthResponse)
        ensures
            r@ == (AuthResponseModel { trace_id: trace_placeholder(), success: false, auths: None }),
            distinct_hosts(r@.auths),
    {
        AuthResponse { trace_id: String::from_str("${trace_id}"), success: false, data: None }
    }

    /// Returns an authorized response that gives `host` the refresh token.
    pub fn authorize(host: String, refresh_token: String) -> (r: AuthResponse)
        ensures
            r@ == (AuthResponseModel {
                trace_id: trace_placeholder(),
                success: true,
                auths: Some(seq![(host@, token_user(), refresh_token@)]),
            }),
            distinct_hosts(r@.auths),
    {
        let ghost h = host@;
        let ghost t = refresh_token@;
        let creds = AuthCreds {
            username: String::from_str("00000000-0000-0000-0000-000000000000"),
            password: refresh_token,
        };
        let mut auths: Vec<(String, AuthCreds)> = Vec::new();
        auths.push((host, creds));
        let r = AuthResponse {
            trace_id: String::from_str("${trace_id}"),
            success: true,
            data: Some(AuthData { auths }),
        };
        assert(r@.auths->0 =~= seq![(h, token_user(), t)]);
        r
    }

    /// Returns a response w/ login credentials for `host`.
    pub fn login(host: &str, username: &str, password: &str) -> (r: AuthResponse)
        ensures
            r@ == (AuthResponseModel {
                trace_id: trace_placeholder(),
                success: true,
                auths: Some(seq![(host@, username@, password@)]),
            }),
            distinct_hosts(r@.auths),
    {
        let creds = AuthCreds {
            username: String::from_str(username),
            password: String::from_str(password),
        };
        let mut auths: Vec<(String, AuthCreds)> = Vec::new();
        auths.push((String::from_str(host), creds));
        let r = AuthResponse {
            trace_id: String::from_str("${trace_id}"),
            success: true,
            data: Some(AuthData { auths }),
        };
        assert(r@.auths->0 =~= seq![(host@, username@, password@)]);
        r
    }

    /// Status this response is sent with: OK when it succeeded, UNAUTHORIZED otherwise.
    pub fn status_code(&self) -> (status: u16)
        ensures
            status == (if self.success { STATUS_OK } else { STATUS_UNAUTHORIZED }),
    {
        if self.success {
            STATUS_OK
        } else {
            STATUS_UNAUTHORIZED
        }
    }
}

/// An OAuth2 token pair for a remote host.
pub struct OAuthToken {
    /// The remote host this token is intended for.
    pub host: String,
    /// Access token that can be used to exchange for a new refresh_token.
    pub access_token: Option<String>,
    /// Refresh token that can be used to exchange for an access_token for resources.
    pub refresh_token: Option<String>,
}

/// The token an [`OAuthToken`] hands out: its refresh token if it has
/// one, else its access token, else the empty string.
pub open spec fn preferred_token(refresh: Option<Seq<char>>, access: Option<Seq<char>>) -> Seq<char> {
    match refresh {
        Some(r) => r,
        None => match access {
            Some(a) => a,
            None => Seq::empty(),
        },
    }
}

pub open spec fn opt_string_view(o: Option<String>) -> Option<Seq<char>> {
    match o {
        Some(s) => Some(s@),
        None => None,
    }
}

impl OAuthToken {
    /// Returns the host this access_token is intended for.
    pub fn host(&self) -> (h: String)
        ensures
            h@ == self.host@,
    {
        self.host.clone()
    }

    /// Returns the token in context: the refresh token if there is one,
    /// else the access token, else the empty string.
    pub fn token(&self) -> (t: String)
        ensures
            t@ == preferred_token(
                opt_string_view(self.refresh_token),
                opt_string_view(self.access_token),
            ),
    {
        if let Some(refresh_token) = &self.refresh_token {
            refresh_token.clone()
        } else if let Some(access_token) = &self.access_token {
            access_token.clone()
        } else {
            String::new()
        }
    }

    /// Binds a token read from a token endpoint to the host of the uri it
    /// was requested for; a uri without a host leaves the token's host as it is.
    pub fn for_host(self, uri_host: Option<&str>) -> (t: OAuthToken)
        ensures
            t.host@ == (match uri_host {
                Some(h) => h@,
                None => self.host@,
            }),
            t.access_token == self.access_token,
            t.refresh_token == self.refresh_token,
    {
        match uri_host {
            Some(h) => OAuthToken { host: String::from_str(h), ..self },
            None => self,
        }
    }

    /// Judges the status a token endpoint answered with: a non-2xx status
    /// is an external dependency error carrying that status.
    pub fn check_exchange_status(status: u16) -> (r: Result<(), Error>)
        ensures
            is_success_status(status) <==> r is Ok,
            r matches Err(e) ==> e.kind == ErrorKind::ExternalDependency(status),
    {
        if is_success(status) {
            Ok(())
        } else {
            Err(Error::external_dependency_with(status))
        }
    }

    /// The error when the remote uri did not answer with a challenge header.
    pub fn missing_challenge() -> (e: Error)
        ensures
            e.kind == ErrorKind::InvalidOperation,
            e.message@ == "The remote uri did not return a challenge header"@,
    {
        Error::invalid_operation("The remote uri did not return a challenge header")
    }
}

} // verus!
