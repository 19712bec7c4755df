//! The client configuration, the requests it prepares and how it reads
//! the responses.
use crate::encode::{
    encode_component, is_encoded_char, lemma_decode_encode, lemma_encoded_chars, spec_decode,
    spec_encode, spec_encode_str,
};
use crate::error::{api_error_from, new_api_error, Error};
use crate::json::{parse_json, spec_parse_json, Json, JsonValue};
use crate::text::{
    lemma_trim_end_ends, parse_u64, push_char, spec_parse_u64, trim_end, trim_end_matches,
    trim_start, trim_start_matches,
};
use std::time::Duration;
use vstd::prelude::*;
use vstd::string::StringExecFns;

verus! {

/// The SDK version, sent in the `User-Agent` header.
pub const VERSION: &'static str = "0.2.1";

/// The API base URL used when none is configured.
pub const DEFAULT_BASE_URL: &'static str = "https://zazu.ma";

/// The request timeout used when none is configured, in seconds.
pub const DEFAULT_TIMEOUT_SECS: u64 = 30;

/// The `Duration` of `secs` whole seconds that std's `Duration::from_secs`
/// gives.
pub uninterp spec fn duration_of_secs(secs: u64) -> Duration;

/// A `Duration` of `secs` whole seconds.
///
/// Wraps std's `Duration::from_secs`, which never fails and whose result
/// depends on `secs` alone: the contract names it `duration_of_secs(secs)`.
#[verifier::external_body]
fn duration_from_secs(secs: u64) -> (d: Duration)
    ensures
        d == duration_of_secs(secs),
{
    Duration::from_secs(secs)
}

/// The message of the error that `build` returns without an API key.
pub open spec fn missing_key_message() -> Seq<char> {
    "missing API key: pass ClientBuilder::api_key or set ZAZU_API_KEY"@
}

/// The view of an optional string.
pub open spec fn opt_str(s: Option<String>) -> Option<Seq<char>> {
    match s {
        Some(s) => Some(s@),
        None => None,
    }
}

/// `a`, or `b` when `a` is absent.
pub open spec fn or_else(a: Option<Seq<char>>, b: Option<Seq<char>>) -> Option<Seq<char>> {
    match a {
        Some(x) => Some(x),
        None => b,
    }
}

/// An environment value, counted only when it is not empty.
pub open spec fn non_empty(v: Option<Seq<char>>) -> Option<Seq<char>> {
    match v {
        Some(s) => if s.len() > 0 {
            Some(s)
        } else {
            None
        },
        None => None,
    }
}

/// The settings a [`ClientBuilder`] holds.
pub struct BuilderSettings {
    pub api_key: Option<Seq<char>>,
    pub base_url: Option<Seq<char>>,
    pub api_version: Option<Seq<char>>,
    pub timeout: Option<Duration>,
}

/// Builds a [`Client`]. Every setting falls back to its environment
/// variable (see [`ClientBuilder::with_env`]), then to the default.
pub struct ClientBuilder {
    api_key: Option<String>,
    base_url: Option<String>,
    api_version: Option<String>,
    timeout: Option<Duration>,
}

impl View for ClientBuilder {
    type V = BuilderSettings;

    closed spec fn view(&self) -> BuilderSettings {
        BuilderSettings {
            api_key: opt_str(self.api_key),
            base_url: opt_str(self.base_url),
            api_version: opt_str(self.api_version),
            timeout: self.timeout,
        }
    }
}

impl Default for ClientBuilder {
    fn default() -> (b: Self)
        ensures
            b@ == (BuilderSettings { api_key: None, base_url: None, api_version: None, timeout: None }),
    {
        ClientBuilder { api_key: None, base_url: None, api_version: None, timeout: None }
    }
}

fn keep_non_empty(v: Option<String>) -> (r: Option<String>)
    ensures
        opt_str(r) == non_empty(opt_str(v)),
{
    match v {
        Some(s) => if s.unicode_len() > 0 {
            Some(s)
        } else {
            None
        },
        None => None,
    }
}

impl ClientBuilder {
    /// Sets the API key (default: the `ZAZU_API_KEY` env var).
    pub fn api_key(self, key: &str) -> (b: Self)
        ensures
            b@ == (BuilderSettings { api_key: Some(key@), ..self@ }),
    {
        ClientBuilder { api_key: Some(String::from_str(key)), ..self }
    }

    /// Sets the API base URL (default: `ZAZU_BASE_URL` or `https://zazu.ma`).
    pub fn base_url(self, url: &str) -> (b: Self)
        ensures
            b@ == (BuilderSettings { base_url: Some(url@), ..self@ }),
    {
        ClientBuilder { base_url: Some(String::from_str(url)), ..self }
    }

    /// Pins the `Zazu-Version` request header (default: `ZAZU_API_VERSION`).
    pub fn api_version(self, version: &str) -> (b: Self)
        ensures
            b@ == (BuilderSettings { api_version: Some(version@), ..self@ }),
    {
        ClientBuilder { api_version: Some(String::from_str(version)), ..self }
    }

    /// Sets the request timeout (default: 30 seconds).
    pub fn timeout(self, timeout: Duration) -> (b: Self)
        ensures
            b@ == (BuilderSettings { timeout: Some(timeout), ..self@ }),
    {
        ClientBuilder { timeout: Some(timeout), ..self }
    }

    /// Fills every setting that was not set explicitly from the value of its
    /// environment variable (`ZAZU_API_KEY`, `ZAZU_BASE_URL`,
    /// `ZAZU_API_VERSION`); an empty variable counts as unset.
    pub fn with_env(
        self,
        env_api_key: Option<String>,
        env_base_url: Option<String>,
        env_api_version: Option<String>,
    ) -> (b: Self)
        ensures
            b@ == (BuilderSettings {
                api_key: or_else(self@.api_key, non_empty(opt_str(env_api_key))),
                base_url: or_else(self@.base_url, non_empty(opt_str(env_base_url))),
                api_version: or_else(self@.api_version, non_empty(opt_str(env_api_version))),
                timeout: self@.timeout,
            }),
    {
        let api_key = match self.api_key {
            Some(k) => Some(k),
            None => keep_non_empty(env_api_key),
        };
        let base_url = match self.base_url {
            Some(u) => Some(u),
            None => keep_non_empty(env_base_url),
        };
        let api_version = match self.api_version {
            Some(v) => Some(v),
            None => keep_non_empty(env_api_version),
        };
        ClientBuilder { api_key, base_url, api_version, timeout: self.timeout }
    }

    /// Builds the [`Client`]. An API key is required; the base URL defaults
    /// to `https://zazu.ma` and loses its trailing slashes; the timeout
    /// defaults to 30 seconds.
    pub fn build(self) -> (res: Result<Client, Error>)
        ensures
            res is Err <==> self@.api_key is None,
            res matches Err(e) ==> e is Configuration && e->Configuration_0@ == missing_key_message(),
            res matches Ok(c) ==> {
                &&& c@.api_key == self@.api_key->0
                &&& c@.base_url == trim_end(
                    match self@.base_url {
                        Some(u) => u,
                        None => DEFAULT_BASE_URL@,
                    },
                    '/',
                )
                &&& c@.api_version == self@.api_version
                &&& c@.timeout == match self@.timeout {
                    Some(t) => t,
                    None => duration_of_secs(DEFAULT_TIMEOUT_SECS),
                }
            },
    {
        let api_key = match self.api_key {
            Some(k) => k,
            None => {
                return Err(
                    Error::Configuration(
                        String::from_str(
                            "missing API key: pass ClientBuilder::api_key or set ZAZU_API_KEY",
                        ),
                    ),
                );
            },
        };
        let base_url = match &self.base_url {
            Some(u) => trim_end_matches(u.as_str(), '/'),
            None => trim_end_matches(DEFAULT_BASE_URL, '/'),
        };
        proof {
            lemma_trim_end_ends(
                match self@.base_url {
                    Some(u) => u,
                    None => DEFAULT_BASE_URL@,
                },
                '/',
            );
        }
        let timeout = match self.timeout {
            Some(t) => t,
            None => duration_from_secs(DEFAULT_TIMEOUT_SECS),
        };
        Ok(Client { api_key, base_url, api_version: self.api_version, timeout })
    }
}

/// The configuration a [`Client`] holds.
pub struct ClientSettings {
    pub api_key: Seq<char>,
    pub base_url: Seq<char>,
    pub api_version: Option<Seq<char>>,
    pub timeout: Duration,
}

/// The SDK entry point: the configuration every request is made with.
/// Resources hang off it as accessor methods.
pub struct Client {
    api_key: String,
    base_url: String,
    api_version: Option<String>,
    timeout: Duration,
}

impl View for Client {
    type V = ClientSettings;

    closed spec fn view(&self) -> ClientSettings {
        ClientSettings {
            api_key: self.api_key@,
            base_url: self.base_url@,
            api_version: opt_str(self.api_version),
            timeout: self.timeout,
        }
    }
}

impl Client {
    #[verifier::type_invariant]
    spec fn base_url_trimmed(self) -> bool {
        self.base_url@.len() == 0 || self.base_url@.last() != '/'
    }
}

/// The HTTP method of a request.
#[derive(Debug, Clone, Copy, PartialEq, Eq, Structural)]
pub enum Method {
    Get,
    Post,
    Patch,
    Delete,
}

/// The view of a list of string pairs.
pub open spec fn pairs_view(pairs: Seq<(String, String)>) -> Seq<(Seq<char>, Seq<char>)> {
    pairs.map_values(|p: (String, String)| (p.0@, p.1@))
}

/// The query string of `pairs`: `?k1=v1&k2=v2...`, every key and value
/// percent-encoded; empty when there are no pairs.
pub open spec fn spec_query(pairs: Seq<(Seq<char>, Seq<char>)>) -> Seq<char>
    decreases pairs.len(),
{
    if pairs.len() == 0 {
        Seq::empty()
    } else {
        spec_query(pairs.drop_last()) + seq![if pairs.len() == 1 { '?' } else { '&' }]
            + spec_encode_str(pairs.last().0) + seq!['='] + spec_encode_str(pairs.last().1)
    }
}

/// The URL of `path` under `base_url`, with the query string of `query`.
pub open spec fn spec_url(
    base_url: Seq<char>,
    path: Seq<char>,
    query: Seq<(Seq<char>, Seq<char>)>,
) -> Seq<char> {
    base_url + seq!['/'] + trim_start(path, '/') + spec_query(query)
}

/// The headers every request carries.
pub open spec fn spec_headers(api_key: Seq<char>, api_version: Option<Seq<char>>) -> Seq<
    (Seq<char>, Seq<char>),
> {
    let common = seq![
        ("Authorization"@, "Bearer "@ + api_key),
        ("User-Agent"@, "zazu-rust/"@ + VERSION@),
        ("Accept"@, "application/json"@),
    ];
    match api_version {
        Some(v) => common.push(("Zazu-Version"@, v)),
        None => common,
    }
}

/// The model of an optional JSON value.
pub open spec fn opt_model(v: Option<JsonValue>) -> Option<Json> {
    match v {
        Some(v) => Some(v.model()),
        None => None,
    }
}

/// An HTTP request ready to be sent: the method, the full URL, the headers
/// and the JSON body. `GET` and `DELETE` requests never carry a body; a
/// `POST` or `PATCH` without one is sent empty.
#[derive(Debug)]
pub struct Request {
    pub method: Method,
    pub url: String,
    pub headers: Vec<(String, String)>,
    pub body: Option<JsonValue>,
}

/// The view of a [`Request`].
pub struct RequestView {
    pub method: Method,
    pub url: Seq<char>,
    pub headers: Seq<(Seq<char>, Seq<char>)>,
    pub body: Option<Json>,
}

impl View for Request {
    type V = RequestView;

    open spec fn view(&self) -> RequestView {
        RequestView {
            method: self.method,
            url: self.url@,
            headers: pairs_view(self.headers@),
            body: opt_model(self.body),
        }
    }
}

impl ClientSettings {
    /// The request this configuration makes for `method` on `path`; `GET`
    /// and `DELETE` requests carry no body.
    pub open spec fn request(
        self,
        method: Method,
        path: Seq<char>,
        query: Seq<(Seq<char>, Seq<char>)>,
        body: Option<Json>,
    ) -> RequestView {
        RequestView {
            method,
            url: spec_url(self.base_url, path, query),
            headers: spec_headers(self.api_key, self.api_version),
            body: if method == Method::Get || method == Method::Delete {
                None
            } else {
                body
            },
        }
    }
}

/// A successful (2xx) API response.
///
/// The body is returned as-is from the API: `snake_case` keys in an
/// untyped JSON value, no struct mapping.
#[derive(Debug)]
pub struct Response {
    /// HTTP status code.
    pub status: u16,
    /// The `X-Request-Id` response header.
    pub request_id: Option<String>,
    /// The parsed JSON body (`Null` when empty or non-JSON).
    pub body: JsonValue,
    /// The raw response bytes.
    pub raw: Vec<u8>,
}

/// Whether a status code is a success (2xx).
pub open spec fn is_success(status: u16) -> bool {
    200 <= status < 300
}

/// The body that a response is read with: its bytes parsed as JSON, `Null`
/// when they are empty or not JSON.
pub open spec fn parsed_body(raw: Seq<u8>) -> Json {
    match spec_parse_json(raw) {
        Some(v) => v,
        None => Json::Null,
    }
}

/// The `Retry-After` seconds of a header value, when it is an unsigned
/// integer.
pub open spec fn retry_after_secs(header: Option<String>) -> Option<u64> {
    match header {
        Some(h) => spec_parse_u64(h@),
        None => None,
    }
}

/// The body of a response whose bytes parsed to `parsed`: that value, or
/// `Null` when the bytes were empty or not JSON.
pub open spec fn body_or_null(parsed: Option<JsonValue>) -> JsonValue {
    match parsed {
        Some(v) => v,
        None => JsonValue::Null,
    }
}

/// Reads an HTTP response whose body `raw` parsed to `parsed` (`None` when
/// the bytes are empty or not JSON): a 2xx status gives the [`Response`]
/// with that body as-is (`Null` without JSON), any other status the
/// [`Error::Api`] that [`new_api_error`] builds from it.
pub fn read_parsed_response(
    status: u16,
    request_id: Option<String>,
    retry_after: Option<String>,
    raw: Vec<u8>,
    parsed: Option<JsonValue>,
) -> (res: Result<Response, Error>)
    ensures
        is_success(status) ==> res == Ok::<Response, Error>(
            Response { status, request_id, body: body_or_null(parsed), raw },
        ),
        !is_success(status) ==> (res matches Err(Error::Api(e)) && api_error_from(
            *e,
            status,
            request_id,
            retry_after_secs(retry_after),
            body_or_null(parsed),
        )),
{
    let retry_after = match &retry_after {
        Some(h) => parse_u64(h.as_str()),
        None => None,
    };
    let body = match parsed {
        Some(v) => v,
        None => JsonValue::Null,
    };
    if !(200 <= status && status < 300) {
        return Err(new_api_error(status, request_id, retry_after, body));
    }
    Ok(Response { status, request_id, body, raw })
}

/// Reads an HTTP response from its status, its `X-Request-Id` and
/// `Retry-After` headers and its raw body: the body is parsed as JSON
/// (`Null` when empty or not JSON), then read by
/// [`read_parsed_response`].
pub fn read_response(
    status: u16,
    request_id: Option<String>,
    retry_after: Option<String>,
    raw: Vec<u8>,
) -> (res: Result<Response, Error>)
    ensures
        is_success(status) ==> (res matches Ok(r) && r.status == status && r.request_id
            == request_id && r.raw == raw && r.body.model() == parsed_body(raw@)),
        !is_success(status) ==> (res matches Err(Error::Api(e)) && e.body.model() == parsed_body(
            raw@,
        ) && api_error_from(*e, status, request_id, retry_after_secs(retry_after), e.body)),
{
    let parsed = parse_json(raw.as_slice());
    read_parsed_response(status, request_id, retry_after, raw, parsed)
}

impl Client {
    /// Starts building a [`Client`].
    pub fn builder() -> (b: ClientBuilder)
        ensures
            b@ == (BuilderSettings { api_key: None, base_url: None, api_version: None, timeout: None }),
    {
        ClientBuilder::default()
    }

    /// Builds a [`Client`] from the values of the environment variables
    /// `ZAZU_API_KEY`, `ZAZU_BASE_URL` and `ZAZU_API_VERSION`:
    /// `Client::builder().with_env(..).build()`.
    pub fn new(
        env_api_key: Option<String>,
        env_base_url: Option<String>,
        env_api_version: Option<String>,
    ) -> (res: Result<Client, Error>)
        ensures
            res is Err <==> non_empty(opt_str(env_api_key)) is None,
            res matches Err(e) ==> e is Configuration && e->Configuration_0@ == missing_key_message(),
            res matches Ok(c) ==> {
                &&& c@.api_key == non_empty(opt_str(env_api_key))->0
                &&& c@.base_url == trim_end(
                    match non_empty(opt_str(env_base_url)) {
                        Some(u) => u,
                        None => DEFAULT_BASE_URL@,
                    },
                    '/',
                )
                &&& c@.api_version == non_empty(opt_str(env_api_version))
                &&& c@.timeout == duration_of_secs(DEFAULT_TIMEOUT_SECS)
            },
    {
        Client::builder().with_env(env_api_key, env_base_url, env_api_version).build()
    }

    /// The base URL, without trailing slashes.
    pub fn base_url(&self) -> (s: &str)
        ensures
            s@ == self@.base_url,
            s@.len() == 0 || s@.last() != '/',
    {
        proof {
            use_type_invariant(self);
        }
        self.base_url.as_str()
    }

    /// The pinned API version, if any.
    pub fn api_version(&self) -> (v: Option<&String>)
        ensures
            v is Some <==> self@.api_version is Some,
            v matches Some(s) ==> self@.api_version == Some(s@),
    {
        match &self.api_version {
            Some(s) => Some(s),
            None => None,
        }
    }

    /// The request timeout.
    pub fn timeout(&self) -> (t: Duration)
        ensures
            t == self@.timeout,
    {
        self.timeout
    }

    fn request_headers(&self) -> (h: Vec<(String, String)>)
        ensures
            pairs_view(h@) == spec_headers(self@.api_key, self@.api_version),
    {
        let mut h: Vec<(String, String)> = Vec::new();
        let mut auth = String::from_str("Bearer ");
        auth.append(self.api_key.as_str());
        h.push((String::from_str("Authorization"), auth));
        let mut agent = String::from_str("zazu-rust/");
        agent.append(VERSION);
        h.push((String::from_str("User-Agent"), agent));
        h.push((String::from_str("Accept"), String::from_str("application/json")));
        match &self.api_version {
            Some(v) => h.push((String::from_str("Zazu-Version"), v.clone())),
            None => {},
        }
        assert(pairs_view(h@) =~= spec_headers(self@.api_key, self@.api_version));
        h
    }

    /// The URL of `path` (leading slashes dropped) under the base URL, with
    /// the percent-encoded `query` pairs appended in order.
    pub fn build_url(&self, path: &str, query: &[(String, String)]) -> (url: String)
        ensures
            url@ == spec_url(self@.base_url, path@, pairs_view(query@)),
    {
        let mut url = self.base_url.clone();
        push_char(&mut url, '/');
        url.append(trim_start_matches(path, '/'));
        let ghost prefix = url@;
        let ghost q = pairs_view(query@);
        assert(q.take(0) =~= Seq::<(Seq<char>, Seq<char>)>::empty());
        let n = query.len();
        for i in 0..n
            invariant
                n == query@.len(),
                q == pairs_view(query@),
                url@ == prefix + spec_query(q.take(i as int)),
        {
            if i == 0 {
                push_char(&mut url, '?');
            } else {
                push_char(&mut url, '&');
            }
            let key = encode_component(query[i].0.as_str());
            url.append(key.as_str());
            push_char(&mut url, '=');
            let value = encode_component(query[i].1.as_str());
            url.append(value.as_str());
            assert(q.take(i + 1).drop_last() =~= q.take(i as int));
            assert(q.take(i + 1).last() == (query@[i as int].0@, query@[i as int].1@));
            assert(url@ =~= prefix + spec_query(q.take(i + 1)));
        }
        assert(q.take(n as int) =~= q);
        url
    }

    /// The request for `method` on `path` with `query` and `body`: the URL
    /// of [`build_url`](Self::build_url) and the client's headers. `body`
    /// is dropped for `GET` and `DELETE`.
    pub fn request(
        &self,
        method: Method,
        path: &str,
        query: &[(String, String)],
        body: Option<JsonValue>,
    ) -> (r: Request)
        ensures
            r@ == self@.request(method, path@, pairs_view(query@), opt_model(body)),
    {
        let url = self.build_url(path, query);
        let headers = self.request_headers();
        let body = match method {
            Method::Get | Method::Delete => None,
            Method::Post | Method::Patch => body,
        };
        Request { method, url, headers, body }
    }

    /// A `GET` request for `path` with `query`.
    pub fn get(&self, path: &str, query: &[(String, String)]) -> (r: Request)
        ensures
            r@ == self@.request(Method::Get, path@, pairs_view(query@), None),
    {
        self.request(Method::Get, path, query, None)
    }

    /// A `POST` request for `path` with `body`.
    pub fn post(&self, path: &str, body: Option<JsonValue>) -> (r: Request)
        ensures
            r@ == self@.request(Method::Post, path@, Seq::empty(), opt_model(body)),
    {
        let query: Vec<(String, String)> = Vec::new();
        proof {
            assert(pairs_view(query@) =~= Seq::empty());
        }
        self.request(Method::Post, path, query.as_slice(), body)
    }

    /// A `PATCH` request for `path` with `body`.
    pub fn patch(&self, path: &str, body: Option<JsonValue>) -> (r: Request)
        ensures
            r@ == self@.request(Method::Patch, path@, Seq::empty(), opt_model(body)),
    {
        let query: Vec<(String, String)> = Vec::new();
        proof {
            assert(pairs_view(query@) =~= Seq::empty());
        }
        self.request(Method::Patch, path, query.as_slice(), body)
    }

    /// A `DELETE` request for `path`.
    pub fn delete(&self, path: &str) -> (r: Request)
        ensures
            r@ == self@.request(Method::Delete, path@, Seq::empty(), None),
    {
        let query: Vec<(String, String)> = Vec::new();
        proof {
            assert(pairs_view(query@) =~= Seq::empty());
        }
        self.request(Method::Delete, path, query.as_slice(), None)
    }
}

impl Clone for Client {
    fn clone(&self) -> (c: Self)
        ensures
            c@ == self@,
    {
        proof {
            use_type_invariant(self);
        }
        let api_version = match &self.api_version {
            Some(v) => Some(v.clone()),
            None => None,
        };
        Client {
            api_key: self.api_key.clone(),
            base_url: self.base_url.clone(),
            api_version,
            timeout: self.timeout,
        }
    }
}

/// The index of the last `?` or `&` of `s`; `-1` when there is none.
pub open spec fn last_separator(s: Seq<char>) -> int
    decreases s.len(),
{
    if s.len() == 0 {
        -1
    } else if s.last() == '?' || s.last() == '&' {
        s.len() - 1
    } else {
        last_separator(s.drop_last())
    }
}

/// The index of the first `=` of `s`; its length when there is none.
pub open spec fn first_equals(s: Seq<char>) -> int
    decreases s.len(),
{
    if s.len() == 0 || s[0] == '=' {
        0
    } else {
        1 + first_equals(s.drop_first())
    }
}

/// Reads a query string back: split at `?` and `&`, each field split at
/// its first `=`, both halves percent-decoded into bytes.
pub open spec fn parse_query(s: Seq<char>) -> Seq<(Seq<u8>, Seq<u8>)>
    decreases s.len(),
{
    let j = last_separator(s);
    if s.len() == 0 || j < 0 || j >= s.len() {
        Seq::empty()
    } else {
        let field = s.skip(j + 1);
        let e = first_equals(field);
        parse_query(s.take(j)).push((spec_decode(field.take(e)), spec_decode(field.skip(e + 1))))
    }
}

/// The UTF-8 bytes of each key and value.
pub open spec fn pairs_bytes(pairs: Seq<(Seq<char>, Seq<char>)>) -> Seq<(Seq<u8>, Seq<u8>)> {
    pairs.map_values(
        |p: (Seq<char>, Seq<char>)|
            (vstd::utf8::encode_utf8(p.0), vstd::utf8::encode_utf8(p.1)),
    )
}

proof fn lemma_no_separator(b: Seq<u8>)
    ensures
        forall|i: int|
            0 <= i < spec_encode(b).len() ==> #[trigger] spec_encode(b)[i] != '?' && spec_encode(
                b,
            )[i] != '&' && spec_encode(b)[i] != '=',
{
    lemma_encoded_chars(b);
    assert forall|i: int| 0 <= i < spec_encode(b).len() implies #[trigger] spec_encode(b)[i] != '?'
        && spec_encode(b)[i] != '&' && spec_encode(b)[i] != '=' by {
        assert(is_encoded_char(spec_encode(b)[i]));
    }
}

proof fn lemma_last_separator(a: Seq<char>, c: char, b: Seq<char>)
    requires
        c == '?' || c == '&',
        forall|i: int| 0 <= i < b.len() ==> #[trigger] b[i] != '?' && b[i] != '&',
    ensures
        last_separator(a + seq![c] + b) == a.len(),
    decreases b.len(),
{
    if b.len() == 0 {
        assert((a + seq![c] + b).drop_last() =~= a);
    } else {
        assert((a + seq![c] + b).drop_last() =~= a + seq![c] + b.drop_last());
        assert(b[b.len() - 1] != '?');
        lemma_last_separator(a, c, b.drop_last());
    }
}

proof fn lemma_first_equals(a: Seq<char>, b: Seq<char>)
    requires
        forall|i: int| 0 <= i < a.len() ==> #[trigger] a[i] != '=',
    ensures
        first_equals(a + seq!['='] + b) == a.len(),
    decreases a.len(),
{
    if a.len() == 0 {
        assert((a + seq!['='] + b)[0] == '=');
    } else {
        assert((a + seq!['='] + b).drop_first() =~= a.drop_first() + seq!['='] + b);
        assert(a[0] != '=');
        lemma_first_equals(a.drop_first(), b);
    }
}

/// A query string reads back as the pairs it was built from: splitting
/// `spec_query(pairs)` at `?`, `&` and `=` and percent-decoding gives each
/// key and value's UTF-8 bytes, in order.
pub proof fn lemma_parse_query(pairs: Seq<(Seq<char>, Seq<char>)>)
    ensures
        parse_query(spec_query(pairs)) == pairs_bytes(pairs),
    decreases pairs.len(),
{
    if pairs.len() == 0 {
        assert(pairs_bytes(pairs) =~= Seq::<(Seq<u8>, Seq<u8>)>::empty());
    } else {
        let prev = pairs.drop_last();
        let (k, v) = pairs.last();
        let kb = vstd::utf8::encode_utf8(k);
        let vb = vstd::utf8::encode_utf8(v);
        let kc = spec_encode(kb);
        let vc = spec_encode(vb);
        let p = spec_query(prev);
        let c = if pairs.len() == 1 {
            '?'
        } else {
            '&'
        };
        let rest = kc + seq!['='] + vc;
        let q = spec_query(pairs);
        assert(q =~= p + seq![c] + rest);
        lemma_no_separator(kb);
        lemma_no_separator(vb);
        assert forall|i: int| 0 <= i < rest.len() implies #[trigger] rest[i] != '?' && rest[i]
            != '&' by {
            if i < kc.len() {
                assert(rest[i] == kc[i]);
            } else if i > kc.len() {
                assert(rest[i] == vc[i - kc.len() - 1]);
            }
        }
        lemma_last_separator(p, c, rest);
        assert(q.take(p.len() as int) =~= p);
        assert(q.skip(p.len() as int + 1) =~= rest);
        lemma_first_equals(kc, vc);
        assert(rest.take(kc.len() as int) =~= kc);
        assert(rest.skip(kc.len() as int + 1) =~= vc);
        lemma_decode_encode(kb);
        lemma_decode_encode(vb);
        lemma_parse_query(prev);
        assert(pairs_bytes(pairs) =~= pairs_bytes(prev).push((kb, vb)));
    }
}

/// Every request starts with the `Authorization: Bearer <key>` header, and
/// carries a `Zazu-Version` header exactly when a version is pinned, as
/// its last header.
pub proof fn lemma_request_headers(api_key: Seq<char>, api_version: Option<Seq<char>>)
    ensures
        spec_headers(api_key, api_version)[0] == ("Authorization"@, "Bearer "@ + api_key),
        (exists|i: int|
            0 <= i < spec_headers(api_key, api_version).len() && (#[trigger] spec_headers(
                api_key,
                api_version,
            )[i]).0 == "Zazu-Version"@) <==> api_version is Some,
        api_version matches Some(v) ==> spec_headers(api_key, api_version).last() == (
            "Zazu-Version"@,
            v,
        ),
{
    reveal_strlit("Authorization");
    reveal_strlit("User-Agent");
    reveal_strlit("Accept");
    reveal_strlit("Zazu-Version");
    let h = spec_headers(api_key, api_version);
    assert("Zazu-Version"@[0] == 'Z');
    assert("Authorization"@[0] == 'A');
    assert("User-Agent"@[0] == 'U');
    assert("Accept"@[0] == 'A');
    match api_version {
        Some(v) => {
            assert(h[3].0 == "Zazu-Version"@);
        },
        None => {
            assert forall|i: int| 0 <= i < h.len() implies (#[trigger] h[i]).0 != "Zazu-Version"@ by {
                assert(h[i].0[0] != 'Z');
            }
        },
    }
}

/// The request for the page after a cursor repeats the listing's query,
/// filters first, then `limit`, and adds that cursor last; the `limit`
/// written in it reads back as the page size.
pub proof fn lemma_page_query(
    base_query: Seq<(Seq<char>, Seq<char>)>,
    limit: u32,
    cursor: Seq<char>,
)
    ensures
        crate::page::page_query(base_query, limit, Some(cursor)) == crate::page::page_query(
            base_query,
            limit,
            None,
        ).push(("cursor"@, cursor)),
        crate::page::page_query(base_query, limit, None).take(base_query.len() as int)
            == base_query,
        crate::text::spec_parse_u64(
            crate::page::page_query(base_query, limit, None)[base_query.len() as int].1,
        ) == Some(limit as u64),
{
    let q = crate::page::page_query(base_query, limit, None);
    assert(q.take(base_query.len() as int) =~= base_query);
    crate::text::lemma_parse_decimal(limit as u64);
}

/// Copies an optional string.
pub fn clone_opt_string(s: &Option<String>) -> (r: Option<String>)
    ensures
        r == *s,
{
    match s {
        Some(v) => Some(v.clone()),
        None => None,
    }
}

/// Copies a byte string.
pub fn clone_bytes(bytes: &Vec<u8>) -> (r: Vec<u8>)
    ensures
        r@ == bytes@,
{
    let mut r: Vec<u8> = Vec::new();
    let n = bytes.len();
    for i in 0..n
        invariant
            n == bytes@.len(),
            r@ == bytes@.take(i as int),
    {
        r.push(bytes[i]);
        assert(r@ =~= bytes@.take(i + 1));
    }
    assert(bytes@.take(n as int) =~= bytes@);
    r
}

/// Whether `b` holds what `a` holds: the same status, request id, raw
/// bytes and (as a JSON value) body.
pub open spec fn same_response(a: Response, b: Response) -> bool {
    &&& a.status == b.status
    &&& a.request_id == b.request_id
    &&& a.body.model() == b.body.model()
    &&& a.raw@ == b.raw@
}

impl Clone for Response {
    fn clone(&self) -> (r: Self)
        ensures
            same_response(r, *self),
    {
        Response {
            status: self.status,
            request_id: clone_opt_string(&self.request_id),
            body: self.body.deep_clone(),
            raw: clone_bytes(&self.raw),
        }
    }
}

/// Pinning a version only adds a header: the headers with a pinned version
/// are those without one followed by `Zazu-Version`. Whatever the version,
/// every request carries `Authorization: Bearer <key>`,
/// `User-Agent: zazu-rust/0.2.1` and `Accept: application/json`, in that
/// order, and nothing else.
pub proof fn law_request_headers(api_key: Seq<char>, version: Seq<char>, api_version: Option<Seq<char>>)
    ensures
        spec_headers(api_key, Some(version)) == spec_headers(api_key, None).push(
            ("Zazu-Version"@, version),
        ),
        spec_headers(api_key, None) == seq![
            ("Authorization"@, "Bearer "@ + api_key),
            ("User-Agent"@, "zazu-rust/0.2.1"@),
            ("Accept"@, "application/json"@),
        ],
        spec_headers(api_key, api_version).contains(("Accept"@, "application/json"@)),
        spec_headers(api_key, api_version).subrange(0, 3) == spec_headers(api_key, None),
{
    reveal_strlit("zazu-rust/0.2.1");
    reveal_strlit("zazu-rust/");
    reveal_strlit("0.2.1");
    assert("zazu-rust/"@ + VERSION@ =~= "zazu-rust/0.2.1"@);
    let h = spec_headers(api_key, api_version);
    assert(h[2] == ("Accept"@, "application/json"@));
    assert(spec_headers(api_key, api_version).subrange(0, 3) =~= spec_headers(api_key, None));
}

} // verus!
