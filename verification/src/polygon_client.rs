//! The client and its configuration.
//!
//! The authentication token and the base URL come from explicit arguments
//! first and from the environment second. Nothing here reads the
//! environment: the caller looks the variables up and hands in what it
//! found.

use crate::rest_client::{RestClient, RestClientView};
use core::time::Duration;
use vstd::prelude::*;

verus! {

/// The base URL of the API, used when no other is given.
pub const POLYGON_IO_API_URL: &'static str = "https://api.polygon.io";

/// The environment variable that may name another base URL.
pub const POLYGON_API_URL_VAR: &'static str = "POLYGON_API_URL";

/// The view of an optional string.
pub open spec fn text_of(s: Option<String>) -> Option<Seq<char>> {
    match s {
        Some(s) => Some(s@),
        None => None,
    }
}

/// The error reported for an environment variable that is not set.
pub open spec fn env_var_missing(env_var: Seq<char>) -> Seq<char> {
    "Auth Key not found. Environment variable '"@ + env_var + "' is not set"@
}

/// The mathematical view of a `PolygonClientBuilder`.
pub struct BuilderView {
    /// The token given explicitly.
    pub auth_key: Option<Seq<char>>,
    /// The token found in the environment.
    pub env_auth_key: Option<Seq<char>>,
    /// The base URL given explicitly.
    pub api_url: Option<Seq<char>>,
    /// The time allowed for one exchange.
    pub timeout: Option<Duration>,
    /// What to report if no token is there at all.
    pub error: Option<Seq<char>>,
}

impl BuilderView {
    /// The token that the client will use: the explicit one if there is
    /// one, else the one from the environment.
    pub open spec fn resolved_auth_key(self) -> Option<Seq<char>> {
        if self.auth_key is Some {
            self.auth_key
        } else {
            self.env_auth_key
        }
    }

    /// The base URL that the client will use: the explicit one if there is
    /// one, else the one the environment names, else the API's own.
    pub open spec fn resolved_api_url(self, env_api_url: Option<Seq<char>>) -> Seq<char> {
        if self.api_url is Some {
            self.api_url->0
        } else if env_api_url is Some {
            env_api_url->0
        } else {
            POLYGON_IO_API_URL@
        }
    }

    /// What is reported when no token is there: the failed lookup, if one
    /// failed, else that no token was set.
    pub open spec fn missing_key_error(self) -> Seq<char> {
        if self.error is Some {
            self.error->0
        } else {
            "Auth key is not set"@
        }
    }
}

/// The API client's configuration: where requests go and how they are
/// authenticated.
#[derive(Debug)]
pub struct PolygonClient {
    rest_client: RestClient,
}

impl View for PolygonClient {
    type V = RestClientView;

    closed spec fn view(&self) -> RestClientView {
        self.rest_client@
    }
}

impl PolygonClient {
    /// The dispatcher that prepares this client's requests.
    pub fn rest_client(&self) -> (r: &RestClient)
        ensures
            r@ == self@,
    {
        &self.rest_client
    }
}

/// Collects the configuration of a `PolygonClient`.
#[derive(Debug)]
pub struct PolygonClientBuilder {
    auth_key: Option<String>,
    env_auth_key: Option<String>,
    api_url: Option<String>,
    timeout: Option<Duration>,
    error: Option<String>,
}

impl View for PolygonClientBuilder {
    type V = BuilderView;

    closed spec fn view(&self) -> BuilderView {
        BuilderView {
            auth_key: text_of(self.auth_key),
            env_auth_key: text_of(self.env_auth_key),
            api_url: text_of(self.api_url),
            timeout: self.timeout,
            error: text_of(self.error),
        }
    }
}

impl Default for PolygonClientBuilder {
    /// A builder that holds nothing.
    fn default() -> (r: PolygonClientBuilder)
        ensures
            r@ == (BuilderView {
                auth_key: None,
                env_auth_key: None,
                api_url: None,
                timeout: None,
                error: None,
            }),
    {
        PolygonClientBuilder::new()
    }
}

impl PolygonClientBuilder {
    /// A builder that holds nothing.
    pub fn new() -> (r: PolygonClientBuilder)
        ensures
            r@ == (BuilderView {
                auth_key: None,
                env_auth_key: None,
                api_url: None,
                timeout: None,
                error: None,
            }),
    {
        PolygonClientBuilder {
            auth_key: None,
            env_auth_key: None,
            api_url: None,
            timeout: None,
            error: None,
        }
    }

    /// Gives the authentication token explicitly.
    pub fn auth_key(self, auth_key: &str) -> (r: PolygonClientBuilder)
        ensures
            r@ == (BuilderView { auth_key: Some(auth_key@), ..self@ }),
    {
        let mut r = self;
        r.auth_key = Some(auth_key.to_owned());
        r
    }

    /// Takes the authentication token from the environment variable
    /// `env_var`, of which `value` is what the environment holds. A
    /// variable that is not set is remembered, and reported by `build` if
    /// no token is there at all.
    pub fn auth_key_env(self, env_var: &str, value: Option<String>) -> (r: PolygonClientBuilder)
        ensures
            value matches Some(token) ==> r@ == (BuilderView {
                env_auth_key: Some(token@),
                ..self@
            }),
            value is None ==> r@ == (BuilderView {
                error: Some(env_var_missing(env_var@)),
                ..self@
            }),
    {
        let mut r = self;
        match value {
            Some(token) => {
                r.env_auth_key = Some(token);
            },
            None => {
                let mut message = "Auth Key not found. Environment variable '".to_owned();
                message.append(env_var);
                message.append("' is not set");
                r.error = Some(message);
            },
        }
        r
    }

    /// Gives the base URL explicitly.
    pub fn api_url(self, api_url: &str) -> (r: PolygonClientBuilder)
        ensures
            r@ == (BuilderView { api_url: Some(api_url@), ..self@ }),
    {
        let mut r = self;
        r.api_url = Some(api_url.to_owned());
        r
    }

    /// Allows each exchange this much time.
    pub fn timeout(self, timeout: Duration) -> (r: PolygonClientBuilder)
        ensures
            r@ == (BuilderView { timeout: Some(timeout), ..self@ }),
    {
        let mut r = self;
        r.timeout = Some(timeout);
        r
    }

    /// Builds the client. `env_api_url` is what the environment holds
    /// under `POLYGON_API_URL_VAR`.
    ///
    /// The token is the explicit one, else the one from the environment;
    /// without either there is no client, and the error says which lookup
    /// failed or that no token was set. The base URL is the explicit one,
    /// else the one from the environment, else `POLYGON_IO_API_URL`.
    pub fn build(self, env_api_url: Option<String>) -> (r: Result<PolygonClient, String>)
        ensures
            match self@.resolved_auth_key() {
                Some(auth_key) => r matches Ok(client) && client@ == (RestClientView {
                    api_url: self@.resolved_api_url(text_of(env_api_url)),
                    auth_key,
                    timeout: self@.timeout,
                }),
                None => r matches Err(message) && message@ == self@.missing_key_error(),
            },
    {
        let auth_key = match self.auth_key {
            Some(auth_key) => Some(auth_key),
            None => self.env_auth_key,
        };
        match auth_key {
            None => match self.error {
                Some(message) => Err(message),
                None => Err("Auth key is not set".to_owned()),
            },
            Some(auth_key) => {
                let api_url = match self.api_url {
                    Some(api_url) => api_url,
                    None => match env_api_url {
                        Some(api_url) => api_url,
                        None => POLYGON_IO_API_URL.to_owned(),
                    },
                };
                match RestClient::new(api_url, auth_key, self.timeout) {
                    Ok(rest_client) => Ok(PolygonClient { rest_client }),
                    Err(message) => Err(message),
                }
            },
        }
    }
}

} // verus!
