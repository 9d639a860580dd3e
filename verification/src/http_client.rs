//! A reusable HTTP client configuration: a base URL parsed once at build time,
//! a per-attempt timeout, an optional bearer token, and an optional
//! request-rate limit.
//!
//! The client prepares requests: it joins a path onto the base URL by standard
//! URL resolution and computes the `Authorization` header. Sending the
//! prepared request — and waiting on the rate limiter — is the transport's
//! job, outside this crate.

use vstd::prelude::*;
use vstd::string::StringExecFns;

verus! {

/// What `url::Url::parse` yields on a string: the canonical serialization of
/// the parsed absolute URL, or nothing where the string is not one.
pub uninterp spec fn parse_of(s: Seq<char>) -> Option<Seq<char>>;

/// What joining a path onto the URL a base string parses to yields, by
/// standard URL resolution: the serialization of the joined URL, or nothing
/// where the two do not join.
pub uninterp spec fn join_of(base: Seq<char>, path: Seq<char>) -> Option<Seq<char>>;

#[verifier::external_type_specification]
#[verifier::external_body]
pub struct ExUrlParseError(url::ParseError);

/// Relies on `url::Url::parse`: it is deterministic in its input, succeeds
/// exactly on well-formed absolute URLs, and `Url::as_str` returns the
/// serialization of the parsed URL, which is itself a well-formed absolute
/// URL.
#[verifier::external_body]
fn parse_url(s: &str) -> (r: Result<String, url::ParseError>)
    ensures
        r is Ok <==> parse_of(s@) is Some,
        r is Ok ==> Some(r->Ok_0@) == parse_of(s@) && parse_of(r->Ok_0@) is Some,
{
    match url::Url::parse(s) {
        Ok(u) => Ok(u.as_str().to_owned()),
        Err(e) => Err(e),
    }
}

/// Relies on `url::Url::join`, with `url::Url::parse` rebuilding the base:
/// joining is deterministic in the base's serialization and the path.
#[verifier::external_body]
fn join_url(base: &str, path: &str) -> (r: Result<String, url::ParseError>)
    requires
        parse_of(base@) is Some,
    ensures
        r is Ok <==> join_of(base@, path@) is Some,
        r is Ok ==> Some(r->Ok_0@) == join_of(base@, path@),
{
    let u = match url::Url::parse(base) {
        Ok(u) => u,
        Err(e) => return Err(e),
    };
    match u.join(path) {
        Ok(j) => Ok(j.as_str().to_owned()),
        Err(e) => Err(e),
    }
}

/// Why a client could not be built or a request could not be prepared.
#[derive(Debug)]
pub enum HttpClientError {
    /// The base URL is not a valid absolute URL.
    MalformedUrl(String, url::ParseError),
    /// The path would not join onto the base URL. Carries the base, the path,
    /// and the underlying cause.
    PathJoin(String, String, url::ParseError),
}

/// The HTTP method of a prepared request.
#[derive(Clone, Copy, Debug, PartialEq, Eq, Structural)]
pub enum Method {
    Get,
    Post,
}

/// A request an operation plans to make: the method and the path to join onto
/// the chosen client's base URL.
#[derive(Debug)]
pub struct PlannedRequest {
    pub method: Method,
    pub path: String,
}

/// A request ready for the transport: the fully joined URL and, when the
/// client carries a bearer token, the value of the `Authorization` header.
#[derive(Debug)]
pub struct PreparedRequest {
    pub method: Method,
    pub url: String,
    pub authorization: Option<String>,
}

/// The `Authorization` header value for a bearer token.
pub open spec fn bearer_header_spec(token: Seq<char>) -> Seq<char> {
    "Bearer "@ + token
}

fn bearer_header(token: &str) -> (h: String)
    ensures
        h@ == bearer_header_spec(token@),
{
    let prefix: String = "Bearer ".to_owned();
    prefix.concat(token)
}

/// A client-wide request-rate limit: a token bucket refilled `per_second`
/// times a second, holding at most `burst` tokens.
#[derive(Clone, Copy, Debug)]
pub struct RateLimit {
    pub per_second: u32,
    pub burst: u32,
}

impl RateLimit {
    /// A usable limit: the token bucket refills and holds at least one token.
    pub open spec fn wf(self) -> bool {
        self.per_second >= 1 && self.burst >= 1
    }
}

/// An immutable HTTP client configuration. Its base URL is always a valid
/// absolute URL in canonical form.
#[derive(Debug)]
pub struct HttpClient {
    base_url: String,
    timeout_ms: u64,
    bearer_auth_token: Option<String>,
    rate_limit: Option<RateLimit>,
}

impl HttpClient {
    #[verifier::type_invariant]
    spec fn inv(self) -> bool {
        &&& parse_of(self.base_url@) is Some
        &&& match self.rate_limit {
            Some(l) => l.wf(),
            None => true,
        }
    }

    /// The canonical serialization of the client's base URL.
    pub closed spec fn base(self) -> Seq<char> {
        self.base_url@
    }

    /// The per-attempt timeout, in milliseconds.
    pub closed spec fn timeout(self) -> u64 {
        self.timeout_ms
    }

    /// The bearer token attached to every request, if any.
    pub closed spec fn bearer(self) -> Option<Seq<char>> {
        match self.bearer_auth_token {
            Some(t) => Some(t@),
            None => None,
        }
    }

    /// The request-rate limit shared by all requests of this client, if any.
    pub closed spec fn rate(self) -> Option<RateLimit> {
        self.rate_limit
    }

    /// Start building a client from a base URL and a per-attempt timeout.
    pub fn builder(base_url: &str, timeout_ms: u64) -> (b: HttpClientBuilder)
        ensures
            b.base_url@ == base_url@,
            b.timeout_ms == timeout_ms,
            b.bearer_auth_token is None,
            b.rate_limit is None,
    {
        HttpClientBuilder::new(base_url, timeout_ms)
    }

    /// The base URL as text, for the transport.
    pub fn base_url(&self) -> (r: &str)
        ensures
            r@ == self.base(),
    {
        self.base_url.as_str()
    }

    /// The per-attempt timeout in milliseconds, for the transport.
    pub fn timeout_ms(&self) -> (r: u64)
        ensures
            r == self.timeout(),
    {
        self.timeout_ms
    }

    /// The rate limit to enforce on this client's requests, if any.
    pub fn rate_limit(&self) -> (r: Option<RateLimit>)
        ensures
            r == self.rate(),
    {
        proof {
            use_type_invariant(&*self);
        }
        self.rate_limit
    }

    /// Prepare a request: join `path` onto the base URL and attach the
    /// bearer token as an `Authorization` header value. Succeeds exactly when
    /// the path joins; a failure reports the base and the path it was given.
    pub fn request(&self, method: Method, path: &str) -> (r: Result<
        PreparedRequest,
        HttpClientError,
    >)
        ensures
            r is Ok <==> join_of(self.base(), path@) is Some,
            r is Ok ==> {
                let p = r->Ok_0;
                &&& p.method == method
                &&& Some(p.url@) == join_of(self.base(), path@)
                &&& match self.bearer() {
                    Some(t) => p.authorization matches Some(h) && h@ == bearer_header_spec(t),
                    None => p.authorization is None,
                }
            },
            r is Err ==> (r->Err_0 matches HttpClientError::PathJoin(b, p, _) && b@ == self.base()
                && p@ == path@),
    {
        proof {
            use_type_invariant(&*self);
        }
        match join_url(self.base_url.as_str(), path) {
            Ok(url) => {
                let authorization = match &self.bearer_auth_token {
                    Some(token) => Some(bearer_header(token.as_str())),
                    None => None,
                };
                Ok(PreparedRequest { method, url, authorization })
            },
            Err(cause) => Err(
                HttpClientError::PathJoin(self.base_url.clone(), path.to_owned(), cause),
            ),
        }
    }
}

/// Collects a client's settings before the base URL is parsed at `build`.
#[derive(Debug)]
pub struct HttpClientBuilder {
    pub base_url: String,
    pub timeout_ms: u64,
    pub bearer_auth_token: Option<String>,
    pub rate_limit: Option<RateLimit>,
}

impl HttpClientBuilder {
    /// Any rate limit collected so far is usable.
    pub open spec fn wf(self) -> bool {
        match self.rate_limit {
            Some(l) => l.wf(),
            None => true,
        }
    }

    pub fn new(base_url: &str, timeout_ms: u64) -> (b: Self)
        ensures
            b.base_url@ == base_url@,
            b.timeout_ms == timeout_ms,
            b.bearer_auth_token is None,
            b.rate_limit is None,
    {
        HttpClientBuilder {
            base_url: base_url.to_owned(),
            timeout_ms,
            bearer_auth_token: None,
            rate_limit: None,
        }
    }

    /// Replace the base URL.
    pub fn base_url(self, base_url: &str) -> (b: Self)
        ensures
            b.base_url@ == base_url@,
            b.timeout_ms == self.timeout_ms,
            b.bearer_auth_token == self.bearer_auth_token,
            b.rate_limit == self.rate_limit,
    {
        HttpClientBuilder { base_url: base_url.to_owned(), ..self }
    }

    /// Attach a bearer token to every request of the built client.
    pub fn bearer_auth_token(self, token: String) -> (b: Self)
        ensures
            b.base_url == self.base_url,
            b.timeout_ms == self.timeout_ms,
            b.bearer_auth_token == Some(token),
            b.rate_limit == self.rate_limit,
    {
        HttpClientBuilder { bearer_auth_token: Some(token), ..self }
    }

    /// Rate-limit every request of the built client.
    pub fn rate_limiter(self, limit: RateLimit) -> (b: Self)
        requires
            limit.wf(),
        ensures
            b.base_url == self.base_url,
            b.timeout_ms == self.timeout_ms,
            b.bearer_auth_token == self.bearer_auth_token,
            b.rate_limit == Some(limit),
    {
        HttpClientBuilder { rate_limit: Some(limit), ..self }
    }

    /// Parse the base URL and freeze the configuration. Succeeds exactly when
    /// the base URL is a valid absolute URL; the built client then carries its
    /// canonical form, the timeout, the token and the rate limit unchanged.
    pub fn build(self) -> (r: Result<HttpClient, HttpClientError>)
        requires
            self.wf(),
        ensures
            r is Ok <==> parse_of(self.base_url@) is Some,
            r is Ok ==> {
                let c = r->Ok_0;
                &&& Some(c.base()) == parse_of(self.base_url@)
                &&& c.timeout() == self.timeout_ms
                &&& match self.bearer_auth_token {
                    Some(t) => c.bearer() matches Some(v) && v == t@,
                    None => c.bearer() is None,
                }
                &&& c.rate() == self.rate_limit
            },
            r is Err ==> (r->Err_0 matches HttpClientError::MalformedUrl(b, _) && b@
                == self.base_url@),
    {
        match parse_url(self.base_url.as_str()) {
            Ok(canonical) => Ok(
                HttpClient {
                    base_url: canonical,
                    timeout_ms: self.timeout_ms,
                    bearer_auth_token: self.bearer_auth_token,
                    rate_limit: self.rate_limit,
                },
            ),
            Err(cause) => Err(HttpClientError::MalformedUrl(self.base_url, cause)),
        }
    }
}

/// The outcome of one HTTP exchange, as the transport reports it back:
/// the request could not be prepared, the exchange failed at the transport
/// level, or the transport completed and the body was decoded.
///
/// `J` is the decoded shape, `E` the transport's error type.
#[derive(Debug)]
pub enum LegOutcome<J, E> {
    /// The request could not even be prepared (for example, the path did not
    /// join onto the base URL).
    Construction(HttpClientError),
    /// The HTTP exchange did not complete: connect, timeout, or server I/O.
    Transport(E),
    /// The exchange completed; decoding the body gave this result.
    Decoded(Result<J, E>),
}

} // verus!
