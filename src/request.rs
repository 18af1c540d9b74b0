use vstd::prelude::*;

use crate::error::ClientError;
use crate::path::{build_path, query_text, render_query, url_with_segments};
use crate::query::pair_texts;
use crate::text::{opt_text, texts};

verus! {

/// The address that every request of a default client is resolved against.
pub const API_URL_BASE: &'static str = "https://api.modrinth.com/v2/";

/// The HTTP method of a request.
#[derive(Debug, Clone, Copy, PartialEq, Eq, Structural)]
pub enum Method {
    Get,
    Post,
}

/// Shared, read-only configuration of a client: the endpoint, the value of
/// the identification header, and an optional authorisation token.
#[derive(Debug, Clone)]
pub struct Ferinth {
    pub endpoint: String,
    pub user_agent: String,
    pub token: Option<String>,
}

/// A request ready to be sent: method, resolved URL, headers and optional
/// JSON body.
#[derive(Debug, Clone)]
pub struct Request {
    pub method: Method,
    pub url: String,
    pub headers: Vec<(String, String)>,
    pub body: Option<String>,
}

/// A status in the success range.
pub open spec fn is_success(status: u16) -> bool {
    200 <= status < 300
}

/// The headers of a request sent with configuration `c`: identification,
/// then authorisation when a token is held, then the content type when a
/// body is sent.
pub open spec fn header_texts(c: Ferinth, has_body: bool) -> Seq<(Seq<char>, Seq<char>)> {
    seq![("user-agent"@, c.user_agent@)] + match c.token {
        Some(t) => seq![("authorization"@, t@)],
        None => Seq::empty(),
    } + if has_body {
        seq![("content-type"@, "application/json"@)]
    } else {
        Seq::empty()
    }
}

/// `r` is what preparing a request with configuration `c` gives: the URL of
/// `c`'s endpoint with `segments` and the query for `pairs`, the headers,
/// and `body`; or the endpoint error when the endpoint takes no path.
pub open spec fn prepared(
    c: Ferinth,
    r: Result<Request, ClientError>,
    method: Method,
    segments: Seq<Seq<char>>,
    pairs: Seq<(Seq<char>, Seq<char>)>,
    body: Option<Seq<char>>,
) -> bool {
    match url_with_segments(c.endpoint@, segments) {
        Some(u) => {
            &&& r is Ok
            &&& r->Ok_0.method == method
            &&& r->Ok_0.url@ == u + query_text(pairs)
            &&& pair_texts(r->Ok_0.headers@) == header_texts(c, body is Some)
            &&& r->Ok_0.body is Some <==> body is Some
            &&& body is Some ==> r->Ok_0.body->Some_0@ == body->Some_0
        },
        None => r is Err && r->Err_0.names_endpoint(c.endpoint@),
    }
}

fn pair(name: &str, value: &str) -> (r: (String, String))
    ensures
        r.0@ == name@,
        r.1@ == value@,
{
    (name.to_owned(), value.to_owned())
}

/// The identification header value for application `name`, with `/version`
/// and ` (contact)` after it when they are given.
pub open spec fn user_agent_text(
    name: Seq<char>,
    version: Option<Seq<char>>,
    contact: Option<Seq<char>>,
) -> Seq<char> {
    name + match version {
        Some(v) => "/"@ + v,
        None => Seq::empty(),
    } + match contact {
        Some(c) => " ("@ + c + ")"@,
        None => Seq::empty(),
    }
}

/// The character sequence held by an optional string slice.
pub open spec fn opt_str(o: Option<&str>) -> Option<Seq<char>> {
    match o {
        Some(s) => Some(s@),
        None => None,
    }
}

impl Ferinth {
    /// A client of the public service for application `name`, optionally of
    /// `version` and reachable at `contact`, that authorises with
    /// `authorisation` when it is given.
    pub fn new(
        name: &str,
        version: Option<&str>,
        contact: Option<&str>,
        authorisation: Option<&str>,
    ) -> (r: Ferinth)
        ensures
            r.endpoint@ == API_URL_BASE@,
            r.user_agent@ == user_agent_text(name@, opt_str(version), opt_str(contact)),
            opt_text(r.token) == opt_str(authorisation),
    {
        let mut agent = name.to_owned();
        match version {
            Some(v) => {
                agent.append("/");
                agent.append(v);
            },
            None => {},
        }
        match contact {
            Some(c) => {
                agent.append(" (");
                agent.append(c);
                agent.append(")");
            },
            None => {},
        }
        Ferinth::with_endpoint(API_URL_BASE, agent.as_str(), authorisation)
    }

    /// A client for the endpoint `endpoint` that identifies itself as
    /// `user_agent` and, when given, authorises with `token`.
    pub fn with_endpoint(endpoint: &str, user_agent: &str, token: Option<&str>) -> (r: Ferinth)
        ensures
            r.endpoint@ == endpoint@,
            r.user_agent@ == user_agent@,
            opt_text(r.token) == opt_str(token),
    {
        let token = match token {
            Some(t) => Some(t.to_owned()),
            None => None,
        };
        Ferinth { endpoint: endpoint.to_owned(), user_agent: user_agent.to_owned(), token }
    }

    /// The headers of a request, with the content type when it has a body.
    pub fn headers(&self, has_body: bool) -> (r: Vec<(String, String)>)
        ensures
            pair_texts(r@) == header_texts(*self, has_body),
    {
        let mut r: Vec<(String, String)> = Vec::new();
        r.push(pair("user-agent", self.user_agent.as_str()));
        match &self.token {
            Some(t) => {
                r.push(pair("authorization", t.as_str()));
            },
            None => {},
        }
        if has_body {
            r.push(pair("content-type", "application/json"));
        }
        assert(pair_texts(r@) =~= header_texts(*self, has_body));
        r
    }

    fn prepare(
        &self,
        method: Method,
        segments: &Vec<String>,
        query: &Vec<(String, String)>,
        body: Option<String>,
    ) -> (r: Result<Request, ClientError>)
        ensures
            prepared(*self, r, method, texts(segments@), pair_texts(query@), opt_text(body)),
    {
        let mut url = match build_path(self.endpoint.as_str(), segments) {
            Some(u) => u,
            None => {
                return Err(ClientError::InvalidEndpoint(self.endpoint.clone()));
            },
        };
        let q = render_query(query);
        url.append(q.as_str());
        let headers = self.headers(body.is_some());
        Ok(Request { method, url, headers, body })
    }

    /// A GET request for the path `segments` with the query parameters `query`.
    pub fn get(&self, segments: &Vec<String>, query: &Vec<(String, String)>) -> (r: Result<
        Request,
        ClientError,
    >)
        ensures
            prepared(*self, r, Method::Get, texts(segments@), pair_texts(query@), None),
    {
        self.prepare(Method::Get, segments, query, None)
    }

    /// A POST request for the path `segments` that carries the JSON text `body`.
    pub fn post(&self, segments: &Vec<String>, body: String) -> (r: Result<Request, ClientError>)
        ensures
            prepared(*self, r, Method::Post, texts(segments@), Seq::empty(), Some(body@)),
    {
        let query: Vec<(String, String)> = Vec::new();
        assert(pair_texts(query@) =~= Seq::empty());
        self.prepare(Method::Post, segments, &query, Some(body))
    }
}

impl Default for Ferinth {
    /// An unauthenticated client of the public service named after this library.
    fn default() -> (r: Ferinth)
        ensures
            r.endpoint@ == API_URL_BASE@,
            r.user_agent@ == "ferinth"@,
            r.token is None,
    {
        Ferinth::new("ferinth", None, None, None)
    }
}

} // verus!
