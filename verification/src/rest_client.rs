//! The request dispatcher: what one request puts on the wire, and what the
//! exchange that follows means for the caller.
//!
//! The library performs no network traffic itself. It hands out the one GET
//! request to perform, and is told what came back; every decision in between
//! is made here.

use crate::params::pairs_of;
use core::time::Duration;
use vstd::prelude::*;

verus! {

/// A request for one endpoint: a resource path and query parameters.
pub trait RequestType {
    /// The resource path, with every path parameter filled in.
    spec fn url(&self) -> Seq<char>;

    /// The query parameters, in the order in which they are sent.
    spec fn query(&self) -> Seq<(Seq<char>, Seq<char>)>;

    /// True when every path parameter that the endpoint requires is set.
    spec fn ready(&self) -> bool;

    /// Tells whether every required path parameter is set.
    fn is_ready(&self) -> (b: bool)
        ensures
            b == self.ready(),
    ;

    /// The resource path. The request must hold every path parameter that
    /// its endpoint requires.
    fn get_url(&self) -> (url: String)
        requires
            self.ready(),
        ensures
            url@ == self.url(),
    ;

    /// The query parameters.
    fn get_query(&self) -> (query: Vec<(&String, &String)>)
        ensures
            pairs_of(query@) == self.query(),
    ;
}

/// Why a request gave no result.
#[derive(Debug)]
pub enum RequestError {
    /// No response arrived: name resolution, connection, TLS or timeout.
    Transport(String),
    /// The server answered with a status other than 200.
    Remote(u16),
    /// The body of a 200 response is not what the endpoint documents.
    Decode(String),
}

/// The one GET request that a call performs.
#[derive(Debug)]
pub struct HttpRequest {
    /// Base URL and resource path.
    pub url: String,
    /// The query parameters, not yet URL-encoded.
    pub query: Vec<(String, String)>,
    /// The value of the `Authorization` header.
    pub authorization: String,
}

/// The names and values that a list of owned pairs shows.
pub open spec fn query_of(entries: Seq<(String, String)>) -> Seq<(Seq<char>, Seq<char>)> {
    Seq::new(entries.len(), |i: int| (entries[i].0@, entries[i].1@))
}

/// What the transport saw of an exchange before any body was read.
#[derive(Debug)]
pub enum Exchange {
    /// No response arrived; the message says why.
    Failed(String),
    /// A response arrived with this status code.
    Responded(u16),
}

/// What follows the head of an exchange.
#[derive(Debug)]
pub enum Step {
    /// Read the body and decode it as the endpoint's response record.
    Decode,
    /// Give up with this error; the body is not read.
    Fail(RequestError),
}

/// What reading and decoding the body of a 200 response gave.
#[derive(Debug)]
pub enum Body<T> {
    /// The body decoded into the response record.
    Decoded(T),
    /// The body could not be read to its end.
    Unreadable(String),
    /// The body was read and does not decode.
    Malformed(String),
}

/// The mathematical view of a `RestClient`.
pub struct RestClientView {
    pub api_url: Seq<char>,
    pub auth_key: Seq<char>,
    pub timeout: Option<Duration>,
}

/// Where requests go and how they are authenticated.
#[derive(Debug)]
pub struct RestClient {
    api_url: String,
    auth_key: String,
    timeout: Option<Duration>,
}

impl View for RestClient {
    type V = RestClientView;

    closed spec fn view(&self) -> RestClientView {
        RestClientView {
            api_url: self.api_url@,
            auth_key: self.auth_key@,
            timeout: self.timeout,
        }
    }
}

impl RestClient {
    /// A client for the API at `api_url` that authenticates with
    /// `auth_key` and allows each exchange `timeout`, if one is given.
    /// Every configuration is accepted.
    pub fn new(api_url: String, auth_key: String, timeout: Option<Duration>) -> (r: Result<
        RestClient,
        String,
    >)
        ensures
            r matches Ok(client) && client@ == (RestClientView {
                api_url: api_url@,
                auth_key: auth_key@,
                timeout,
            }),
    {
        Ok(RestClient { api_url, auth_key, timeout })
    }

    /// The base URL.
    pub fn api_url(&self) -> (r: &String)
        ensures
            r@ == self@.api_url,
    {
        &self.api_url
    }

    /// The authentication token.
    pub fn auth_key(&self) -> (r: &String)
        ensures
            r@ == self@.auth_key,
    {
        &self.auth_key
    }

    /// The time allowed for one exchange.
    pub fn timeout(&self) -> (r: Option<Duration>)
        ensures
            r == self@.timeout,
    {
        self.timeout
    }

    /// The GET request that serves `request`: the base URL followed by the
    /// resource path, the query parameters of the request, and the token
    /// as a bearer credential.
    pub fn prepare<R: RequestType>(&self, request: &R) -> (get: HttpRequest)
        requires
            request.ready(),
        ensures
            get.url@ == self@.api_url + request.url(),
            query_of(get.query@) == request.query(),
            get.authorization@ == "Bearer "@ + self@.auth_key,
    {
        let path = request.get_url();
        let mut url = self.api_url.clone();
        url.append(path.as_str());
        let pairs = request.get_query();
        let mut query: Vec<(String, String)> = Vec::new();
        let mut i: usize = 0;
        while i < pairs.len()
            invariant
                i <= pairs@.len(),
                query@.len() == i,
                forall|j: int|
                    0 <= j < i ==> (#[trigger] query@[j]).0@ == pairs@[j].0@ && query@[j].1@
                        == pairs@[j].1@,
            decreases pairs@.len() - i,
        {
            query.push((pairs[i].0.clone(), pairs[i].1.clone()));
            i += 1;
        }
        assert(query_of(query@) =~= pairs_of(pairs@));
        let mut authorization = "Bearer ".to_owned();
        authorization.append(self.auth_key.as_str());
        HttpRequest { url, query, authorization }
    }

    /// Decides what follows the head of an exchange. A failed exchange is
    /// a transport error. Status 200 asks for the body to be decoded. Any
    /// other status is a remote error that carries the status, and the
    /// body is left unread.
    pub fn on_exchange(exchange: Exchange) -> (step: Step)
        ensures
            match exchange {
                Exchange::Failed(message) => step == Step::Fail(RequestError::Transport(message)),
                Exchange::Responded(status) => if status == 200 {
                    step == Step::Decode
                } else {
                    step == Step::Fail(RequestError::Remote(status))
                },
            },
    {
        match exchange {
            Exchange::Failed(message) => Step::Fail(RequestError::Transport(message)),
            Exchange::Responded(status) => {
                if status == 200 {
                    Step::Decode
                } else {
                    Step::Fail(RequestError::Remote(status))
                }
            },
        }
    }

    /// Decides the result of a call from what became of the body of a 200
    /// response: the decoded record, a transport error if the body could
    /// not be read, a decode error if it does not decode.
    pub fn on_body<T>(body: Body<T>) -> (r: Result<T, RequestError>)
        ensures
            match body {
                Body::Decoded(record) => r == Ok::<T, RequestError>(record),
                Body::Unreadable(message) => r == Err::<T, RequestError>(
                    RequestError::Transport(message),
                ),
                Body::Malformed(message) => r == Err::<T, RequestError>(
                    RequestError::Decode(message),
                ),
            },
    {
        match body {
            Body::Decoded(record) => Ok(record),
            Body::Unreadable(message) => Err(RequestError::Transport(message)),
            Body::Malformed(message) => Err(RequestError::Decode(message)),
        }
    }
}

} // verus!
