use vstd::prelude::*;
use crate::engines::Setter;
use crate::header::{entries_valid, Headers, header_error_matches, validate_pair, header_name_ok, header_value_ok, lower_name};
use crate::hyper_driver::StatusCode;
use crate::request::{ConfigView, Method, Outgoing, build_request, built_from, config_of, sendable};
use crate::response::{body_view, bytes_post, classify_bytes, classify_json, json_post};
use crate::results::{DeltaError, HeaderError};

verus! {

/// A client on hyper backend: base URL, default headers and the two overrides.
#[derive(Debug, Clone)]
pub struct Hyper {
    pub url: String,
    pub user_agent: Option<String>,
    pub content_type: Option<String>,
    pub headers: Headers,
}

impl Hyper {
    pub open spec fn config(&self) -> ConfigView {
        config_of(self.url, self.user_agent, self.content_type, self.headers)
    }

    /// No base URL, no default headers, no overrides.
    pub fn new() -> (r: Hyper)
        ensures
            r.config() == ConfigView::empty(),
    {
        Hyper { url: String::new(), user_agent: None, content_type: None, headers: Headers::new() }
    }

    fn duplicate(&self) -> (r: Hyper)
        ensures
            r.config() == self.config(),
    {
        Hyper {
            url: self.url.clone(),
            user_agent: match &self.user_agent {
                Some(a) => Some(a.clone()),
                None => None,
            },
            content_type: match &self.content_type {
                Some(t) => Some(t.clone()),
                None => None,
            },
            headers: self.headers.duplicate(),
        }
    }

    pub fn set_url(&mut self, url: &str) -> (r: Hyper)
        ensures
            final(self).config() == old(self).config().with_url(url@),
            r.config() == final(self).config(),
    {
        self.url = url.to_owned();
        self.duplicate()
    }

    pub fn set_user_agent(&mut self, user_agent: &str) -> (r: Hyper)
        ensures
            final(self).config() == old(self).config().with_agent(user_agent@),
            r.config() == final(self).config(),
    {
        self.user_agent = Some(user_agent.to_owned());
        self.duplicate()
    }

    pub fn set_content_type(&mut self, content_type: &str) -> (r: Hyper)
        ensures
            final(self).config() == old(self).config().with_content_type(content_type@),
            r.config() == final(self).config(),
    {
        self.content_type = Some(content_type.to_owned());
        self.duplicate()
    }

    /// Adds a default header, keeping the values its name already has.
    pub fn add_header(&mut self, key: &str, value: &str) -> (r: Result<Hyper, DeltaError>)
        ensures
            match r {
                Ok(c) => {
                    &&& header_name_ok(key@) && header_value_ok(value@)
                    &&& final(self).config() == old(self).config().with_headers(
                        old(self).headers@.push((lower_name(key@), value@)),
                    )
                    &&& c.config() == final(self).config()
                },
                Err(e) => header_error_matches(key@, value@, e) && final(self).config() == old(
                    self,
                ).config(),
            },
    {
        match validate_pair(key, value) {
            Ok((name, v)) => {
                proof {
                    crate::header::lemma_lower_name_stored(key@);
                }
                self.headers.append_valid(name, v);
                Ok(self.duplicate())
            },
            Err(e) => Err(e),
        }
    }

    /// Replaces the default headers.
    pub fn set_headers(&mut self, headers: Headers) -> (r: Hyper)
        ensures
            final(self).config() == old(self).config().with_headers(headers@),
            r.config() == final(self).config(),
    {
        self.headers = headers;
        self.duplicate()
    }
}

impl Setter for Hyper {
    open spec fn setter_config(&self) -> ConfigView {
        self.config()
    }

    fn set_url(&mut self, url: &str) -> (r: Hyper) {
        Hyper::set_url(self, url)
    }

    fn set_user_agent(&mut self, user_agent: &str) -> (r: Hyper) {
        Hyper::set_user_agent(self, user_agent)
    }

    fn set_content_type(&mut self, content_type: &str) -> (r: Hyper) {
        Hyper::set_content_type(self, content_type)
    }
}

/// A response from hyper backend: its status and its body, if any.
#[derive(Debug, Clone)]
pub struct Body {
    pub body: Option<Vec<u8>>,
    pub status: StatusCode,
}

impl Body {
    /// The body on 200, nothing on 204; otherwise the status and body text as an error.
    pub fn bytes(self) -> (r: Result<Vec<u8>, DeltaError>)
        ensures
            bytes_post(self.status@, body_view(self.body), r),
    {
        let code = self.status.as_u16();
        classify_bytes(code, self.body)
    }

    /// The parsed body on 200, `None` (null) on 204 or an empty 200; otherwise the
    /// status and body text as an error.
    pub fn serde_switch(self) -> (r: Result<Option<serde_json::Value>, DeltaError>)
        ensures
            json_post(self.status@, body_view(self.body), r),
    {
        let code = self.status.as_u16();
        classify_json(code, self.body)
    }
}

impl Hyper {
    /// The request this client makes of a method, a path and an optional body: the
    /// URL is the base URL followed by the path.
    pub fn prepare(&self, method: Method, path: &str, data: Option<Vec<u8>>) -> (r: Result<Outgoing, DeltaError>)
        ensures
            match r {
                Ok(o) => entries_valid(self.headers@) && sendable(self.config(), data is Some) && built_from(o, self.config(), method, path@, data),
                Err(e) => !sendable(self.config(), data is Some) && e matches DeltaError::Header(HeaderError::Value(_)),
            },
    {
        build_request(&self.url, &self.user_agent, &self.content_type, &self.headers, method, path, data)
    }
}

/// The response type under its other name.
pub type HyperBody = Body;

} // verus!
