use vstd::prelude::*;
use vstd::string::*;
use crate::header::{Headers, entries_valid, values_of, lemma_values_set, lemma_set_valid, lemma_values_lower, header_name_ok, lower_name, validate_value, header_value_ok, set_header, without};
use crate::results::{DeltaError, HeaderError};
use crate::USER_AGENT;

verus! {

/// Sent as `Content-Type` when a body goes out and the client sets no content type.
pub const JSON_CONTENT_TYPE: &'static str = "application/json";

/// The request verbs.
#[derive(Debug, Clone, Copy, PartialEq, Eq, Structural)]
pub enum MethodOption {
    Post,
    Put,
    Patch,
    Get,
    Delete,
    Head,
    Options,
    Connect,
    Trace,
}

/// A request verb, written as on the wire.
#[allow(non_camel_case_types)]
#[derive(Debug, Clone, Copy, PartialEq, Eq, Structural)]
pub enum Method {
    POST,
    PUT,
    PATCH,
    GET,
    DELETE,
    HEAD,
    OPTIONS,
    CONNECT,
    TRACE,
}

pub open spec fn option_of(m: Method) -> MethodOption {
    match m {
        Method::POST => MethodOption::Post,
        Method::PUT => MethodOption::Put,
        Method::PATCH => MethodOption::Patch,
        Method::GET => MethodOption::Get,
        Method::DELETE => MethodOption::Delete,
        Method::HEAD => MethodOption::Head,
        Method::OPTIONS => MethodOption::Options,
        Method::CONNECT => MethodOption::Connect,
        Method::TRACE => MethodOption::Trace,
    }
}

impl Method {
    /// The verb that a `MethodOption` names.
    pub fn from_option(o: MethodOption) -> (r: Method)
        ensures
            option_of(r) == o,
    {
        match o {
            MethodOption::Post => Method::POST,
            MethodOption::Put => Method::PUT,
            MethodOption::Patch => Method::PATCH,
            MethodOption::Get => Method::GET,
            MethodOption::Delete => Method::DELETE,
            MethodOption::Head => Method::HEAD,
            MethodOption::Options => Method::OPTIONS,
            MethodOption::Connect => Method::CONNECT,
            MethodOption::Trace => Method::TRACE,
        }
    }

    pub fn option(&self) -> (r: MethodOption)
        ensures
            r == option_of(*self),
    {
        match self {
            Method::POST => MethodOption::Post,
            Method::PUT => MethodOption::Put,
            Method::PATCH => MethodOption::Patch,
            Method::GET => MethodOption::Get,
            Method::DELETE => MethodOption::Delete,
            Method::HEAD => MethodOption::Head,
            Method::OPTIONS => MethodOption::Options,
            Method::CONNECT => MethodOption::Connect,
            Method::TRACE => MethodOption::Trace,
        }
    }
}

/// What a client's configuration says, as plain values.
pub struct ConfigView {
    pub url: Seq<char>,
    pub user_agent: Option<Seq<char>>,
    pub content_type: Option<Seq<char>>,
    pub headers: Seq<(Seq<char>, Seq<char>)>,
}

impl ConfigView {
    /// A configuration with no base URL, no overrides and no default headers.
    pub open spec fn empty() -> ConfigView {
        ConfigView {
            url: Seq::empty(),
            user_agent: None,
            content_type: None,
            headers: Seq::empty(),
        }
    }

    pub open spec fn with_url(self, u: Seq<char>) -> ConfigView {
        ConfigView { url: u, ..self }
    }

    pub open spec fn with_agent(self, a: Seq<char>) -> ConfigView {
        ConfigView { user_agent: Some(a), ..self }
    }

    pub open spec fn with_content_type(self, t: Seq<char>) -> ConfigView {
        ConfigView { content_type: Some(t), ..self }
    }

    pub open spec fn with_headers(self, h: Seq<(Seq<char>, Seq<char>)>) -> ConfigView {
        ConfigView { headers: h, ..self }
    }
}

pub open spec fn opt_view(o: Option<String>) -> Option<Seq<char>> {
    match o {
        Some(s) => Some(s@),
        None => None,
    }
}

/// The `User-Agent` a request carries: the configured one, else the library's.
pub open spec fn agent_of(c: ConfigView) -> Seq<char> {
    match c.user_agent {
        Some(a) => a,
        None => USER_AGENT@,
    }
}

/// The `Content-Type` a request carries: the configured one; else JSON when a body
/// goes out; else none.
pub open spec fn content_type_for(c: ConfigView, has_body: bool) -> Option<Seq<char>> {
    match c.content_type {
        Some(t) => Some(t),
        None => if has_body {
            Some(JSON_CONTENT_TYPE@)
        } else {
            None
        },
    }
}

/// The headers of a request: the defaults, then `User-Agent` and `Content-Type`
/// written over any default of the same name.
pub open spec fn request_headers(c: ConfigView, has_body: bool) -> Seq<(Seq<char>, Seq<char>)> {
    let with_agent = set_header(c.headers, "user-agent"@, agent_of(c));
    match content_type_for(c, has_body) {
        Some(t) => set_header(with_agent, "content-type"@, t),
        None => with_agent,
    }
}

/// The request can be built: the header values it adds pass the value grammar.
pub open spec fn sendable(c: ConfigView, has_body: bool) -> bool {
    &&& header_value_ok(agent_of(c))
    &&& match content_type_for(c, has_body) {
        Some(t) => header_value_ok(t),
        None => true,
    }
}

/// A request ready for the transport: nothing in it is checked again.
#[derive(Debug)]
pub struct Outgoing {
    pub method: Method,
    pub url: String,
    pub headers: Headers,
    pub body: Option<Vec<u8>>,
}

/// `o` is the request that configuration `c` makes of `method`, `path` and `body`.
pub open spec fn built_from(
    o: Outgoing,
    c: ConfigView,
    method: Method,
    path: Seq<char>,
    body: Option<Vec<u8>>,
) -> bool {
    &&& o.method == method
    &&& o.url@ == c.url + path
    &&& o.headers@ == request_headers(c, body is Some)
    &&& o.body == body
}

pub open spec fn config_of(
    url: String,
    user_agent: Option<String>,
    content_type: Option<String>,
    headers: Headers,
) -> ConfigView {
    ConfigView {
        url: url@,
        user_agent: opt_view(user_agent),
        content_type: opt_view(content_type),
        headers: headers@,
    }
}

/// The two names a request sets itself are valid and in lower case.
pub proof fn standard_names_stored()
    ensures
        header_name_ok("user-agent"@),
        lower_name("user-agent"@) == "user-agent"@,
        header_name_ok("content-type"@),
        lower_name("content-type"@) == "content-type"@,
{
    reveal_strlit("user-agent");
    reveal_strlit("content-type");
    assert(lower_name("user-agent"@) =~= "user-agent"@);
    assert(lower_name("content-type"@) =~= "content-type"@);
}

/// What a request built from defaults `c` carries. Exactly one `User-Agent`, the
/// configured or the library's; exactly one `Content-Type` when one applies, and
/// otherwise the defaults' own; under every other name the defaults' values, in
/// order. All names are in lower case, so no other spelling of a name is present.
pub proof fn request_header_values(c: ConfigView, has_body: bool, n: Seq<char>)
    requires
        entries_valid(c.headers),
        sendable(c, has_body),
    ensures
        entries_valid(request_headers(c, has_body)),
        values_of(request_headers(c, has_body), "user-agent"@) == seq![agent_of(c)],
        content_type_for(c, has_body) matches Some(t) ==> values_of(
            request_headers(c, has_body),
            "content-type"@,
        ) == seq![t],
        content_type_for(c, has_body) is None ==> values_of(
            request_headers(c, has_body),
            "content-type"@,
        ) == values_of(c.headers, "content-type"@),
        n != "user-agent"@ && n != "content-type"@ ==> values_of(request_headers(c, has_body), n)
            == values_of(c.headers, n),
        n != lower_name(n) ==> values_of(request_headers(c, has_body), n) == Seq::<
            Seq<char>,
        >::empty(),
{
    standard_names_stored();
    reveal_strlit("user-agent");
    reveal_strlit("content-type");
    assert("user-agent"@ != "content-type"@) by {
        assert("user-agent"@[0] != "content-type"@[0]);
    }
    let ua = "user-agent"@;
    let ct = "content-type"@;
    let w = set_header(c.headers, ua, agent_of(c));
    lemma_set_valid(c.headers, ua, agent_of(c));
    match content_type_for(c, has_body) {
        Some(t) => {
            lemma_set_valid(w, ct, t);
            lemma_values_set(w, ct, t, ua);
            lemma_values_set(w, ct, t, ct);
            lemma_values_set(w, ct, t, n);
            lemma_values_set(c.headers, ua, agent_of(c), ct);
        },
        None => {
            lemma_values_set(c.headers, ua, agent_of(c), ct);
        },
    }
    lemma_values_set(c.headers, ua, agent_of(c), ua);
    lemma_values_set(c.headers, ua, agent_of(c), n);
    if n != lower_name(n) {
        lemma_values_lower(request_headers(c, has_body), n);
    }
}

/// Builds the request: the URL is the base URL followed by the path, with no
/// normalisation; the headers are as `request_headers` gives them.
pub fn build_request(
    url: &String,
    user_agent: &Option<String>,
    content_type: &Option<String>,
    headers: &Headers,
    method: Method,
    path: &str,
    body: Option<Vec<u8>>,
) -> (r: Result<Outgoing, DeltaError>)
    ensures
        ({
            let c = config_of(*url, *user_agent, *content_type, *headers);
            match r {
                Ok(o) => entries_valid(c.headers) && sendable(c, body is Some) && built_from(o, c, method, path@, body),
                Err(e) => !sendable(c, body is Some) && e matches DeltaError::Header(
                    HeaderError::Value(_),
                ),
            }
        }),
{
    let ghost c = config_of(*url, *user_agent, *content_type, *headers);
    let agent: String = match user_agent {
        Some(a) => a.clone(),
        None => USER_AGENT.to_owned(),
    };
    match validate_value(agent.as_str()) {
        Ok(_) => {},
        Err(e) => return Err(DeltaError::Header(e)),
    }
    let has_body = body.is_some();
    let kind: Option<String> = match content_type {
        Some(t) => Some(t.clone()),
        None => if has_body {
            Some(JSON_CONTENT_TYPE.to_owned())
        } else {
            None
        },
    };
    assert(opt_view(kind) == content_type_for(c, has_body));
    match &kind {
        Some(t) => match validate_value(t.as_str()) {
            Ok(_) => {},
            Err(e) => return Err(DeltaError::Header(e)),
        },
        None => {},
    }
    proof {
        standard_names_stored();
    }
    let mut sent = headers.duplicate();
    sent.insert_valid("user-agent".to_owned(), agent);
    match kind {
        Some(t) => sent.insert_valid("content-type".to_owned(), t),
        None => {},
    }
    let full = url.clone().concat(path);
    Ok(Outgoing { method, url: full, headers: sent, body })
}

/// With no default headers and no overrides, a GET can always be built, and it goes
/// to the base URL followed by the path, carrying the library's `User-Agent` alone.
pub proof fn plain_get_goes_to_base_and_path(c: ConfigView, path: Seq<char>, o: Outgoing)
    requires
        c.headers.len() == 0,
        c.user_agent is None,
        c.content_type is None,
        built_from(o, c, Method::GET, path, None),
    ensures
        sendable(c, false),
        o.url@ == c.url + path,
        o.method == Method::GET,
        o.body is None,
        o.headers@ == seq![("user-agent"@, USER_AGENT@)],
{
    reveal_strlit("Reywen-HTTP/10.0 (async-tokio-runtime)");
    assert(header_value_ok(USER_AGENT@));
    assert(without(c.headers, "user-agent"@) =~= c.headers);
    assert(request_headers(c, false) =~= seq![("user-agent"@, USER_AGENT@)]);
}

} // verus!
