use vstd::prelude::*;
use crate::engines::Setter;
use crate::header::{entries_valid, Headers, header_error_matches, validate_pair, header_name_ok, header_value_ok, lower_name};
use crate::hyper_driver::StatusCode;
use crate::request::{ConfigView, Method, Outgoing, build_request, built_from, config_of, sendable};
use crate::response::{body_view, bytes_post, classify_bytes, classify_json, json_post};
use crate::results::{DeltaError, Engine, HeaderError};

verus! {

/// A client on reqwest backend: base URL, default headers and the two overrides.
#[derive(Debug, Clone)]
pub struct Reqwest {
    pub url: String,
    pub user_agent: Option<String>,
    pub content_type: Option<String>,
    pub headers: Headers,
}

impl Reqwest {
    pub open spec fn config(&self) -> ConfigView {
        config_of(self.url, self.user_agent, self.content_type, self.headers)
    }

    /// No base URL, no default headers, no overrides.
    pub fn new() -> (r: Reqwest)
        ensures
            r.config() == ConfigView::empty(),
    {
        Reqwest { url: String::new(), user_agent: None, content_type: None, headers: Headers::new() }
    }

    fn duplicate(&self) -> (r: Reqwest)
        ensures
            r.config() == self.config(),
    {
        Reqwest {
            url: self.url.clone(),
            user_agent: match &self.user_agent {
                Some(a) => Some(a.clone()),
                None => None,
            },
            content_type: match &self.content_type {
                Some(t) => Some(t.clone()),
                None => None,
            },
            headers: self.headers.duplicate(),
        }
    }

    pub fn set_url(&mut self, url: &str) -> (r: Reqwest)
        ensures
            final(self).config() == old(self).config().with_url(url@),
            r.config() == final(self).config(),
    {
        self.url = url.to_owned();
        self.duplicate()
    }

    pub fn set_user_agent(&mut self, user_agent: &str) -> (r: Reqwest)
        ensures
            final(self).config() == old(self).config().with_agent(user_agent@),
            r.config() == final(self).config(),
    {
        self.user_agent = Some(user_agent.to_owned());
        self.duplicate()
    }

    pub fn set_content_type(&mut self, content_type: &str) -> (r: Reqwest)
        ensures
            final(self).config() == old(self).config().with_content_type(content_type@),
            r.config() == final(self).config(),
    {
        self.content_type = Some(content_type.to_owned());
        self.duplicate()
    }

    /// Adds a default header, keeping the values its name already has.
    pub fn add_header(&mut self, key: &str, value: &str) -> (r: Result<Reqwest, DeltaError>)
        ensures
            match r {
                Ok(c) => {
                    &&& header_name_ok(key@) && header_value_ok(value@)
                    &&& final(self).config() == old(self).config().with_headers(
                        old(self).headers@.push((lower_name(key@), value@)),
                    )
                    &&& c.config() == final(self).config()
                },
                Err(e) => header_error_matches(key@, value@, e) && final(self).config() == old(
                    self,
                ).config(),
            },
    {
        match validate_pair(key, value) {
            Ok((name, v)) => {
                proof {
                    crate::header::lemma_lower_name_stored(key@);
                }
                self.headers.append_valid(name, v);
                Ok(self.duplicate())
            },
            Err(e) => Err(e),
        }
    }

    /// Replaces the default headers.
    pub fn set_headers(&mut self, headers: Headers) -> (r: Reqwest)
        ensures
            final(self).config() == old(self).config().with_headers(headers@),
            r.config() == final(self).config(),
    {
        self.headers = headers;
        self.duplicate()
    }
}

impl Setter for Reqwest {
    open spec fn setter_config(&self) -> ConfigView {
        self.config()
    }

    fn set_url(&mut self, url: &str) -> (r: Reqwest) {
        Reqwest::set_url(self, url)
    }

    fn set_user_agent(&mut self, user_agent: &str) -> (r: Reqwest) {
        Reqwest::set_user_agent(self, user_agent)
    }

    fn set_content_type(&mut self, content_type: &str) -> (r: Reqwest) {
        Reqwest::set_content_type(self, content_type)
    }
}

/// A response from reqwest backend: its status and its body, if any.
#[derive(Debug, Clone)]
pub struct ReqwestBody {
    pub body: Option<Vec<u8>>,
    pub status: StatusCode,
}

impl ReqwestBody {
    /// The body on 200, nothing on 204; otherwise the status and body text as an error.
    pub fn bytes(self) -> (r: Result<Vec<u8>, DeltaError>)
        ensures
            bytes_post(self.status@, body_view(self.body), r),
    {
        let code = self.status.as_u16();
        classify_bytes(code, self.body)
    }

    /// The parsed body on 200, `None` (null) on 204 or an empty 200; otherwise the
    /// status and body text as an error.
    pub fn serde_switch(self) -> (r: Result<Option<serde_json::Value>, DeltaError>)
        ensures
            json_post(self.status@, body_view(self.body), r),
    {
        let code = self.status.as_u16();
        classify_json(code, self.body)
    }
}

#[verifier::external_type_specification]
#[verifier::external_body]
pub struct ExUrl(url::Url);

/// Whether the URL parser accepts the text as an absolute URL.
pub uninterp spec fn url_parses(s: Seq<char>) -> bool;

/// Relies on url's `Url::parse`: whether it parses depends on the text alone.
#[verifier::external_body]
fn parse_url(s: &str) -> (r: Result<url::Url, url::ParseError>)
    ensures
        r is Ok <==> url_parses(s@),
{
    url::Url::parse(s)
}

/// A request for the reqwest backend, with its URL already parsed.
#[derive(Debug)]
pub struct Prepared {
    pub request: Outgoing,
    pub url: url::Url,
}

impl Reqwest {
    /// The request this client makes of a method, a path and an optional body. The
    /// URL (base URL followed by path) is parsed first; then the headers are built.
    pub fn prepare(&self, method: Method, path: &str, data: Option<Vec<u8>>) -> (r: Result<Prepared, DeltaError>)
        ensures
            match r {
                Ok(p) => entries_valid(self.headers@) && url_parses(self.config().url + path@) && sendable(self.config(), data is Some)
                    && built_from(p.request, self.config(), method, path@, data),
                Err(e) => if !url_parses(self.config().url + path@) {
                    e matches DeltaError::Engine(Engine::Url(_))
                } else {
                    !sendable(self.config(), data is Some) && e matches DeltaError::Header(HeaderError::Value(_))
                },
            },
    {
        let full = self.url.clone().concat(path);
        let url = match parse_url(full.as_str()) {
            Ok(u) => u,
            Err(e) => return Err(DeltaError::Engine(Engine::Url(e))),
        };
        match build_request(&self.url, &self.user_agent, &self.content_type, &self.headers, method, path, data) {
            Ok(request) => Ok(Prepared { request, url }),
            Err(e) => Err(e),
        }
    }
}

} // verus!
